//! Hazard-tracking tables: per-frame mappings from each resource handle to
//! the last access made to it so far this frame. A handle that is absent
//! stands for the implicit `Untouched` access, so the first use of a resource
//! in a frame is ordered only against "nothing" (empty stage mask, and for
//! images a transition out of the undefined layout).

use std::collections::HashMap;

use vstd::prelude::*;

use crate::access::{BufferAccess, ImageAccess};

verus! {

broadcast use vstd::std_specs::hash::group_hash_axioms;

/// Opaque handle to a device buffer, as handed out by the resource collaborator.
pub type Buffer = u32;

/// Opaque handle to a device image, as handed out by the resource collaborator.
pub type Image = u32;

/// What an absent image entry stands for.
pub open spec fn image_entry(m: Map<Image, ImageAccess>, image: Image) -> ImageAccess {
    if m.contains_key(image) {
        m[image]
    } else {
        ImageAccess::Untouched
    }
}

/// What an absent buffer entry stands for.
pub open spec fn buffer_entry(m: Map<Buffer, BufferAccess>, buffer: Buffer) -> BufferAccess {
    if m.contains_key(buffer) {
        m[buffer]
    } else {
        BufferAccess::Untouched
    }
}

/// The two per-frame hazard tables, rebuilt at the start of every frame.
pub struct HazardTables {
    pub last_image_access: HashMap<Image, ImageAccess>,
    pub last_buffer_access: HashMap<Buffer, BufferAccess>,
}

impl HazardTables {
    /// The image table as a mathematical map.
    pub open spec fn images(self) -> Map<Image, ImageAccess> {
        self.last_image_access@
    }

    /// The buffer table as a mathematical map.
    pub open spec fn buffers(self) -> Map<Buffer, BufferAccess> {
        self.last_buffer_access@
    }

    /// Fresh tables: nothing has been touched yet.
    pub fn new() -> (t: Self)
        ensures
            t.images() == Map::<Image, ImageAccess>::empty(),
            t.buffers() == Map::<Buffer, BufferAccess>::empty(),
    {
        HazardTables {
            last_image_access: HashMap::new(),
            last_buffer_access: HashMap::new(),
        }
    }

    /// The access a barrier for `image` must wait on: the table entry, or
    /// `Untouched` if the image has not been touched this frame.
    pub fn image_src(&self, image: Image) -> (a: ImageAccess)
        ensures
            a == image_entry(self.images(), image),
    {
        match self.last_image_access.get(&image) {
            Some(a) => *a,
            None => ImageAccess::Untouched,
        }
    }

    /// The access a barrier for `buffer` must wait on: the table entry, or
    /// `Untouched` if the buffer has not been touched this frame.
    pub fn buffer_src(&self, buffer: Buffer) -> (a: BufferAccess)
        ensures
            a == buffer_entry(self.buffers(), buffer),
    {
        match self.last_buffer_access.get(&buffer) {
            Some(a) => *a,
            None => BufferAccess::Untouched,
        }
    }

    /// Record that `image` was just accessed as `access`.
    pub fn record_image(&mut self, image: Image, access: ImageAccess)
        ensures
            final(self).images() == old(self).images().insert(image, access),
            final(self).buffers() == old(self).buffers(),
    {
        self.last_image_access.insert(image, access);
    }

    /// Record that `buffer` was just accessed as `access`.
    pub fn record_buffer(&mut self, buffer: Buffer, access: BufferAccess)
        ensures
            final(self).buffers() == old(self).buffers().insert(buffer, access),
            final(self).images() == old(self).images(),
    {
        self.last_buffer_access.insert(buffer, access);
    }
}

} // verus!
