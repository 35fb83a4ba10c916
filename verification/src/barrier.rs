//! Barrier derivation and batching.
//!
//! For every resolved resource of a task ("qualifier") a naive barrier is
//! derived: it orders the qualifier's requested access against the previous
//! access recorded in the hazard tables, and the table entry is advanced
//! before the next qualifier is processed, so a task touching one resource
//! twice is ordered against itself. The naive barriers are then batched
//! greedily: all barriers sharing the exact `(src_stage, dst_stage)` pair are
//! merged into one pipeline-barrier command, and barriers with distinct pairs
//! never merge.

use vstd::prelude::*;

use crate::access::{
    buffer_permission, buffer_stage, image_layout, image_permission, image_stage,
    spec_buffer_permission, spec_buffer_stage, spec_image_layout, spec_image_permission,
    spec_image_stage, BufferAccess, ImageAccess, ImageLayout, Permission,
};
use crate::hazard::{buffer_entry, image_entry, Buffer, HazardTables, Image};

verus! {

/// Bitmask naming the aspects of an image (color, depth, stencil) a barrier
/// applies to; carried through unchanged from the declaration.
pub type ImageAspect = u32;

/// A resource descriptor resolved for the current frame: a concrete handle
/// paired with the declared access.
#[derive(Clone, Copy, Debug, PartialEq, Eq, Structural)]
pub enum Qualifier {
    Buffer(Buffer, BufferAccess),
    Image(Image, ImageAccess, ImageAspect),
}

/// One resource's transition inside a pipeline-barrier command. The `buffer`
/// and `image` fields index into the task's qualifier list, which is how the
/// command recorder maps a barrier back to a concrete handle.
#[derive(Clone, Copy, Debug, PartialEq, Eq, Structural)]
pub enum Barrier {
    Buffer {
        buffer: usize,
        offset: u64,
        size: u64,
        src_access: Permission,
        dst_access: Permission,
    },
    Image {
        image: usize,
        old_layout: ImageLayout,
        new_layout: ImageLayout,
        src_access: Permission,
        dst_access: Permission,
        image_aspect: ImageAspect,
    },
}

/// One pipeline-barrier command: every contained resource barrier shares the
/// same `(src_stage, dst_stage)` pair.
#[derive(Debug)]
pub struct PipelineBarrier {
    pub src_stage: u32,
    pub dst_stage: u32,
    pub barriers: Vec<Barrier>,
}

/// Does this qualifier touch the given image?
pub open spec fn touches_image(q: Qualifier, image: Image) -> bool {
    match q {
        Qualifier::Image(h, _, _) => h == image,
        Qualifier::Buffer(_, _) => false,
    }
}

/// Does this qualifier touch the given buffer?
pub open spec fn touches_buffer(q: Qualifier, buffer: Buffer) -> bool {
    match q {
        Qualifier::Buffer(h, _) => h == buffer,
        Qualifier::Image(_, _, _) => false,
    }
}

/// The image access a qualifier requests (`Untouched` for buffer qualifiers).
pub open spec fn qual_image_access(q: Qualifier) -> ImageAccess {
    match q {
        Qualifier::Image(_, a, _) => a,
        Qualifier::Buffer(_, _) => ImageAccess::Untouched,
    }
}

/// The buffer access a qualifier requests (`Untouched` for image qualifiers).
pub open spec fn qual_buffer_access(q: Qualifier) -> BufferAccess {
    match q {
        Qualifier::Buffer(_, a) => a,
        Qualifier::Image(_, _, _) => BufferAccess::Untouched,
    }
}

/// The image handle a qualifier touches (meaningful only for image qualifiers).
pub open spec fn qual_image_handle(q: Qualifier) -> Image {
    match q {
        Qualifier::Image(h, _, _) => h,
        Qualifier::Buffer(_, _) => 0,
    }
}

/// The buffer handle a qualifier touches (meaningful only for buffer qualifiers).
pub open spec fn qual_buffer_handle(q: Qualifier) -> Buffer {
    match q {
        Qualifier::Buffer(h, _) => h,
        Qualifier::Image(_, _, _) => 0,
    }
}

/// The aspect mask of an image qualifier (meaningful only for image qualifiers).
pub open spec fn qual_image_aspect(q: Qualifier) -> ImageAspect {
    match q {
        Qualifier::Image(_, _, aspect) => aspect,
        Qualifier::Buffer(_, _) => 0,
    }
}

/// Is this an image qualifier?
pub open spec fn is_image_qual(q: Qualifier) -> bool {
    match q {
        Qualifier::Image(_, _, _) => true,
        Qualifier::Buffer(_, _) => false,
    }
}

/// Is this a buffer qualifier?
pub open spec fn is_buffer_qual(q: Qualifier) -> bool {
    !is_image_qual(q)
}

/// The image hazard table after a sequence of qualifiers has been processed,
/// each one overwriting the entry of the image it touches, in order.
pub open spec fn img_after(m: Map<Image, ImageAccess>, qs: Seq<Qualifier>) -> Map<
    Image,
    ImageAccess,
>
    decreases qs.len(),
{
    if qs.len() == 0 {
        m
    } else {
        let prev = img_after(m, qs.drop_last());
        match qs.last() {
            Qualifier::Image(h, a, _) => prev.insert(h, a),
            Qualifier::Buffer(_, _) => prev,
        }
    }
}

/// The buffer hazard table after a sequence of qualifiers has been processed.
pub open spec fn buf_after(m: Map<Buffer, BufferAccess>, qs: Seq<Qualifier>) -> Map<
    Buffer,
    BufferAccess,
>
    decreases qs.len(),
{
    if qs.len() == 0 {
        m
    } else {
        let prev = buf_after(m, qs.drop_last());
        match qs.last() {
            Qualifier::Buffer(h, a) => prev.insert(h, a),
            Qualifier::Image(_, _, _) => prev,
        }
    }
}

/// The source stage of the naive barrier for qualifier `i`: the stage of the
/// previous access to the same resource, given the tables the frame started
/// the task with.
pub open spec fn naive_src_stage(
    m_img: Map<Image, ImageAccess>,
    m_buf: Map<Buffer, BufferAccess>,
    qs: Seq<Qualifier>,
    i: int,
) -> u32 {
    match qs[i] {
        Qualifier::Buffer(h, _) => spec_buffer_stage(buffer_entry(buf_after(m_buf, qs.take(i)), h)),
        Qualifier::Image(h, _, _) => spec_image_stage(image_entry(img_after(m_img, qs.take(i)), h)),
    }
}

/// The destination stage of the naive barrier for qualifier `i`: the stage of
/// the requested access.
pub open spec fn naive_dst_stage(qs: Seq<Qualifier>, i: int) -> u32 {
    match qs[i] {
        Qualifier::Buffer(_, a) => spec_buffer_stage(a),
        Qualifier::Image(_, a, _) => spec_image_stage(a),
    }
}

/// The `(src_stage, dst_stage)` pair of the naive barrier for qualifier `i`.
pub open spec fn qual_key(
    m_img: Map<Image, ImageAccess>,
    m_buf: Map<Buffer, BufferAccess>,
    qs: Seq<Qualifier>,
    i: int,
) -> (u32, u32) {
    (naive_src_stage(m_img, m_buf, qs, i), naive_dst_stage(qs, i))
}

/// The resource barrier derived for qualifier `i`: the transition from the
/// previous access to the requested one.
pub open spec fn naive_barrier(
    m_img: Map<Image, ImageAccess>,
    m_buf: Map<Buffer, BufferAccess>,
    qs: Seq<Qualifier>,
    sizes: Seq<u64>,
    i: int,
) -> Barrier {
    match qs[i] {
        Qualifier::Buffer(h, dst) => {
            let src = buffer_entry(buf_after(m_buf, qs.take(i)), h);
            Barrier::Buffer {
                buffer: i as usize,
                offset: 0,
                size: sizes[i],
                src_access: spec_buffer_permission(src),
                dst_access: spec_buffer_permission(dst),
            }
        },
        Qualifier::Image(h, dst, aspect) => {
            let src = image_entry(img_after(m_img, qs.take(i)), h);
            Barrier::Image {
                image: i as usize,
                old_layout: spec_image_layout(src),
                new_layout: spec_image_layout(dst),
                src_access: spec_image_permission(src),
                dst_access: spec_image_permission(dst),
                image_aspect: aspect,
            }
        },
    }
}

/// Is `pb` exactly the naive pipeline barrier for qualifier `i`?
pub open spec fn is_naive_barrier_at(
    m_img: Map<Image, ImageAccess>,
    m_buf: Map<Buffer, BufferAccess>,
    qs: Seq<Qualifier>,
    sizes: Seq<u64>,
    pb: PipelineBarrier,
    i: int,
) -> bool {
    &&& pb.src_stage == naive_src_stage(m_img, m_buf, qs, i)
    &&& pb.dst_stage == naive_dst_stage(qs, i)
    &&& pb.barriers@.len() == 1
    &&& pb.barriers@[0] == naive_barrier(m_img, m_buf, qs, sizes, i)
}

/// Derive one naive pipeline barrier per qualifier, in declaration order,
/// advancing the hazard tables entry by entry so that a later qualifier is
/// ordered against the most recent access, even one made by this same task.
pub fn naive_barriers(
    tables: &mut HazardTables,
    qualifiers: &Vec<Qualifier>,
    sizes: &Vec<u64>,
) -> (out: Vec<PipelineBarrier>)
    requires
        sizes@.len() == qualifiers@.len(),
    ensures
        final(tables).images() == img_after(old(tables).images(), qualifiers@),
        final(tables).buffers() == buf_after(old(tables).buffers(), qualifiers@),
        out@.len() == qualifiers@.len(),
        forall|i: int|
            0 <= i < qualifiers@.len() ==> is_naive_barrier_at(
                old(tables).images(),
                old(tables).buffers(),
                qualifiers@,
                sizes@,
                #[trigger] out@[i],
                i,
            ),
{
    let ghost m_img0 = tables.images();
    let ghost m_buf0 = tables.buffers();
    let mut out: Vec<PipelineBarrier> = Vec::new();
    let mut idx: usize = 0;
    while idx < qualifiers.len()
        invariant
            idx <= qualifiers@.len(),
            sizes@.len() == qualifiers@.len(),
            tables.images() == img_after(m_img0, qualifiers@.take(idx as int)),
            tables.buffers() == buf_after(m_buf0, qualifiers@.take(idx as int)),
            out@.len() == idx,
            forall|i: int|
                0 <= i < idx ==> is_naive_barrier_at(
                    m_img0,
                    m_buf0,
                    qualifiers@,
                    sizes@,
                    #[trigger] out@[i],
                    i,
                ),
        decreases qualifiers@.len() - idx,
    {
        proof {
            assert(qualifiers@.take(idx as int + 1).drop_last() =~= qualifiers@.take(idx as int));
            assert(qualifiers@.take(idx as int + 1).last() == qualifiers@[idx as int]);
        }
        let q = qualifiers[idx];
        match q {
            Qualifier::Buffer(h, dst) => {
                let src = tables.buffer_src(h);
                let mut bs: Vec<Barrier> = Vec::new();
                bs.push(
                    Barrier::Buffer {
                        buffer: idx,
                        offset: 0,
                        size: sizes[idx],
                        src_access: buffer_permission(src),
                        dst_access: buffer_permission(dst),
                    },
                );
                out.push(
                    PipelineBarrier {
                        src_stage: buffer_stage(src),
                        dst_stage: buffer_stage(dst),
                        barriers: bs,
                    },
                );
                tables.record_buffer(h, dst);
            },
            Qualifier::Image(h, dst, aspect) => {
                let src = tables.image_src(h);
                let mut bs: Vec<Barrier> = Vec::new();
                bs.push(
                    Barrier::Image {
                        image: idx,
                        old_layout: image_layout(src),
                        new_layout: image_layout(dst),
                        src_access: image_permission(src),
                        dst_access: image_permission(dst),
                        image_aspect: aspect,
                    },
                );
                out.push(
                    PipelineBarrier {
                        src_stage: image_stage(src),
                        dst_stage: image_stage(dst),
                        barriers: bs,
                    },
                );
                tables.record_image(h, dst);
            },
        }
        idx += 1;
    }
    proof {
        assert(qualifiers@.take(qualifiers@.len() as int) =~= qualifiers@);
    }
    out
}

/// The stage pair a pipeline barrier is keyed by for batching.
pub open spec fn stage_key(pb: PipelineBarrier) -> (u32, u32) {
    (pb.src_stage, pb.dst_stage)
}

/// The set of distinct stage pairs occurring in a barrier sequence.
pub open spec fn key_set(s: Seq<PipelineBarrier>) -> Set<(u32, u32)>
    decreases s.len(),
{
    if s.len() == 0 {
        Set::empty()
    } else {
        key_set(s.drop_last()).insert(stage_key(s.last()))
    }
}

/// The concatenation, in order, of the resource barriers of every pipeline
/// barrier in `s` whose stage pair is `k`.
pub open spec fn merged_for(s: Seq<PipelineBarrier>, k: (u32, u32)) -> Seq<Barrier>
    decreases s.len(),
{
    if s.len() == 0 {
        Seq::empty()
    } else if stage_key(s.last()) == k {
        merged_for(s.drop_last(), k) + s.last().barriers@
    } else {
        merged_for(s.drop_last(), k)
    }
}

/// The distinct-pair set is finite, so its cardinality is meaningful.
pub proof fn lemma_key_set_finite(s: Seq<PipelineBarrier>)
    ensures
        key_set(s).finite(),
    decreases s.len(),
{
    if s.len() > 0 {
        lemma_key_set_finite(s.drop_last());
    }
}

/// A pair is in the distinct-pair set exactly when some barrier carries it.
pub proof fn lemma_key_set_contains(s: Seq<PipelineBarrier>, k: (u32, u32))
    ensures
        key_set(s).contains(k) <==> exists|i: int| 0 <= i < s.len() && stage_key(s[i]) == k,
    decreases s.len(),
{
    if s.len() > 0 {
        lemma_key_set_contains(s.drop_last(), k);
        if stage_key(s.last()) == k {
            assert(stage_key(s[s.len() - 1]) == k);
        } else if exists|i: int| 0 <= i < s.len() && stage_key(s[i]) == k {
            let i = choose|i: int| 0 <= i < s.len() && stage_key(s[i]) == k;
            assert(stage_key(s.drop_last()[i]) == k);
        }
    }
}

/// A pair no barrier carries merges to nothing.
pub proof fn lemma_merged_for_absent(s: Seq<PipelineBarrier>, k: (u32, u32))
    requires
        !key_set(s).contains(k),
    ensures
        merged_for(s, k) == Seq::<Barrier>::empty(),
    decreases s.len(),
{
    if s.len() > 0 {
        lemma_merged_for_absent(s.drop_last(), k);
    }
}

fn barrier_slot<'a>(v: &'a mut Vec<PipelineBarrier>, i: usize) -> (e: &'a mut PipelineBarrier)
    requires
        i < old(v)@.len(),
    ensures
        *e == old(v)@[i as int],
        final(v)@ == old(v)@.update(i as int, *final(e)),
{
    &mut v[i]
}

/// Batch naive barriers greedily by their exact `(src_stage, dst_stage)`
/// pair. Barriers sharing a pair always land in the same merged command, in
/// their original order; barriers with differing pairs never merge; the
/// number of merged commands equals the number of distinct pairs.
pub fn merge_barriers(naive: Vec<PipelineBarrier>) -> (out: Vec<PipelineBarrier>)
    ensures
        forall|i: int, j: int|
            0 <= i < j < out@.len() ==> stage_key(#[trigger] out@[i]) != stage_key(
                #[trigger] out@[j],
            ),
        forall|i: int|
            0 <= i < out@.len() ==> key_set(naive@).contains(stage_key(#[trigger] out@[i])),
        forall|k: (u32, u32)|
            key_set(naive@).contains(k) ==> exists|i: int|
                0 <= i < out@.len() && stage_key(#[trigger] out@[i]) == k,
        forall|i: int|
            0 <= i < out@.len() ==> (#[trigger] out@[i]).barriers@ == merged_for(
                naive@,
                stage_key(out@[i]),
            ),
        out@.len() == key_set(naive@).len(),
{
    broadcast use vstd::set::group_set_axioms;

    let ghost full = naive@;
    let mut rest = naive;
    let total: usize = rest.len();
    let mut out: Vec<PipelineBarrier> = Vec::new();
    let mut n: usize = 0;
    proof {
        lemma_key_set_finite(full.take(0));
    }
    while rest.len() > 0
        invariant
            full.len() == total as int,
            n + rest@.len() == full.len(),
            rest@ == full.subrange(n as int, full.len() as int),
            key_set(full.take(n as int)).finite(),
            forall|i: int, j: int|
                0 <= i < j < out@.len() ==> stage_key(#[trigger] out@[i]) != stage_key(
                    #[trigger] out@[j],
                ),
            forall|i: int|
                0 <= i < out@.len() ==> key_set(full.take(n as int)).contains(
                    stage_key(#[trigger] out@[i]),
                ),
            forall|k: (u32, u32)|
                key_set(full.take(n as int)).contains(k) ==> exists|i: int|
                    0 <= i < out@.len() && stage_key(#[trigger] out@[i]) == k,
            forall|i: int|
                0 <= i < out@.len() ==> (#[trigger] out@[i]).barriers@ == merged_for(
                    full.take(n as int),
                    stage_key(out@[i]),
                ),
            out@.len() == key_set(full.take(n as int)).len(),
        decreases rest@.len(),
    {
        proof {
            assert(full.take(n as int + 1).drop_last() =~= full.take(n as int));
            assert(full.take(n as int + 1).last() == full[n as int]);
            assert(rest@[0] == full[n as int]);
            assert(rest@.remove(0) =~= full.subrange(n as int + 1, full.len() as int));
        }
        let pb = rest.remove(0);
        let key_src = pb.src_stage;
        let key_dst = pb.dst_stage;
        let ghost k_n = stage_key(full[n as int]);

        let mut fi: usize = 0;
        let mut found = false;
        while fi < out.len() && !found
            invariant
                fi <= out@.len(),
                !found ==> forall|j: int|
                    0 <= j < fi ==> stage_key(#[trigger] out@[j]) != (key_src, key_dst),
                found ==> fi < out@.len() && stage_key(out@[fi as int]) == (key_src, key_dst),
            decreases out@.len() - fi + (if found { 0int } else { 1int }),
        {
            if out[fi].src_stage == key_src && out[fi].dst_stage == key_dst {
                found = true;
            } else {
                fi += 1;
            }
        }

        let ghost out0 = out@;
        if found {
            proof {
                assert(key_set(full.take(n as int)).contains(k_n));
                assert(key_set(full.take(n as int + 1)) =~= key_set(full.take(n as int)));
            }
            let PipelineBarrier { barriers: mut bs, .. } = pb;
            let e = barrier_slot(&mut out, fi);
            e.barriers.append(&mut bs);
        } else {
            proof {
                lemma_key_set_contains(full.take(n as int), k_n);
                lemma_merged_for_absent(full.take(n as int), k_n);
            }
            out.push(pb);
        }
        proof {
            let next = full.take(n as int + 1);
            if found {
                assert(out@ =~= out0.update(fi as int, out@[fi as int]));
                assert(out@[fi as int].src_stage == key_src && out@[fi as int].dst_stage
                    == key_dst);
                assert(out@[fi as int].barriers@ == out0[fi as int].barriers@
                    + full[n as int].barriers@);
                assert forall|i: int| 0 <= i < out@.len() implies stage_key(#[trigger] out@[i])
                    == stage_key(out0[i]) by {}
                assert forall|k: (u32, u32)| key_set(next).contains(k) implies exists|i: int|
                    0 <= i < out@.len() && stage_key(#[trigger] out@[i]) == k by {
                    let i = choose|i: int| 0 <= i < out0.len() && stage_key(#[trigger] out0[i])
                        == k;
                    assert(stage_key(out@[i]) == k);
                }
                assert forall|i: int| 0 <= i < out@.len() implies (#[trigger] out@[i]).barriers@
                    == merged_for(next, stage_key(out@[i])) by {
                    if i == fi as int {
                        assert(stage_key(out@[i]) == k_n);
                        assert(merged_for(next, k_n) == merged_for(full.take(n as int), k_n)
                            + full[n as int].barriers@);
                    } else {
                        assert(stage_key(out@[i]) != k_n);
                        assert(merged_for(next, stage_key(out@[i])) == merged_for(
                            full.take(n as int),
                            stage_key(out@[i]),
                        ));
                    }
                }
            } else {
                assert(!key_set(full.take(n as int)).contains(k_n)) by {
                    if key_set(full.take(n as int)).contains(k_n) {
                        let i = choose|i: int|
                            0 <= i < out0.len() && stage_key(#[trigger] out0[i]) == k_n;
                        assert(false);
                    }
                }
                assert(key_set(next) == key_set(full.take(n as int)).insert(k_n));
                assert(out@ =~= out0.push(full[n as int]));
                assert(stage_key(out@[out@.len() - 1]) == k_n);
                assert forall|k: (u32, u32)| key_set(next).contains(k) implies exists|i: int|
                    0 <= i < out@.len() && stage_key(#[trigger] out@[i]) == k by {
                    if k == k_n {
                        assert(stage_key(out@[out@.len() - 1]) == k);
                    } else {
                        let i = choose|i: int|
                            0 <= i < out0.len() && stage_key(#[trigger] out0[i]) == k;
                        assert(stage_key(out@[i]) == k);
                    }
                }
                assert forall|i: int| 0 <= i < out@.len() implies (#[trigger] out@[i]).barriers@
                    == merged_for(next, stage_key(out@[i])) by {
                    if i == out@.len() - 1 {
                        assert(merged_for(full.take(n as int), k_n) == Seq::<Barrier>::empty());
                        assert(merged_for(next, k_n) == full[n as int].barriers@);
                    } else {
                        assert(stage_key(out@[i]) != k_n);
                    }
                }
            }
        }
        n += 1;
    }
    proof {
        assert(full.take(full.len() as int) =~= full);
    }
    out
}

/// Law: after a sequence of qualifiers is processed, the image table entry of
/// an image is exactly the access requested by the last qualifier touching it.
pub proof fn lemma_image_table_tracks_last_access(
    m: Map<Image, ImageAccess>,
    qs: Seq<Qualifier>,
    image: Image,
    j: int,
)
    requires
        0 <= j < qs.len(),
        touches_image(qs[j], image),
        forall|l: int| j < l < qs.len() ==> !touches_image(#[trigger] qs[l], image),
    ensures
        image_entry(img_after(m, qs), image) == qual_image_access(qs[j]),
    decreases qs.len(),
{
    if j == qs.len() - 1 {
        assert(qs.last() == qs[j]);
    } else {
        assert(!touches_image(qs[qs.len() - 1], image));
        assert forall|l: int| j < l < qs.drop_last().len() implies !touches_image(
            #[trigger] qs.drop_last()[l],
            image,
        ) by {
            assert(qs.drop_last()[l] == qs[l]);
        }
        assert(qs.drop_last()[j] == qs[j]);
        lemma_image_table_tracks_last_access(m, qs.drop_last(), image, j);
    }
}

/// Law: after a sequence of qualifiers is processed, the buffer table entry of
/// a buffer is exactly the access requested by the last qualifier touching it.
pub proof fn lemma_buffer_table_tracks_last_access(
    m: Map<Buffer, BufferAccess>,
    qs: Seq<Qualifier>,
    buffer: Buffer,
    j: int,
)
    requires
        0 <= j < qs.len(),
        touches_buffer(qs[j], buffer),
        forall|l: int| j < l < qs.len() ==> !touches_buffer(#[trigger] qs[l], buffer),
    ensures
        buffer_entry(buf_after(m, qs), buffer) == qual_buffer_access(qs[j]),
    decreases qs.len(),
{
    if j == qs.len() - 1 {
        assert(qs.last() == qs[j]);
    } else {
        assert(!touches_buffer(qs[qs.len() - 1], buffer));
        assert forall|l: int| j < l < qs.drop_last().len() implies !touches_buffer(
            #[trigger] qs.drop_last()[l],
            buffer,
        ) by {
            assert(qs.drop_last()[l] == qs[l]);
        }
        assert(qs.drop_last()[j] == qs[j]);
        lemma_buffer_table_tracks_last_access(m, qs.drop_last(), buffer, j);
    }
}

/// Law: an image touched by no qualifier keeps its table entry (and so an
/// image never touched at all stays at the implicit `Untouched`).
pub proof fn lemma_image_untouched_keeps_entry(
    m: Map<Image, ImageAccess>,
    qs: Seq<Qualifier>,
    image: Image,
)
    requires
        forall|l: int| 0 <= l < qs.len() ==> !touches_image(#[trigger] qs[l], image),
    ensures
        image_entry(img_after(m, qs), image) == image_entry(m, image),
    decreases qs.len(),
{
    if qs.len() > 0 {
        assert(!touches_image(qs[qs.len() - 1], image));
        assert forall|l: int| 0 <= l < qs.drop_last().len() implies !touches_image(
            #[trigger] qs.drop_last()[l],
            image,
        ) by {
            assert(qs.drop_last()[l] == qs[l]);
        }
        lemma_image_untouched_keeps_entry(m, qs.drop_last(), image);
    }
}

/// Law: a buffer touched by no qualifier keeps its table entry.
pub proof fn lemma_buffer_untouched_keeps_entry(
    m: Map<Buffer, BufferAccess>,
    qs: Seq<Qualifier>,
    buffer: Buffer,
)
    requires
        forall|l: int| 0 <= l < qs.len() ==> !touches_buffer(#[trigger] qs[l], buffer),
    ensures
        buffer_entry(buf_after(m, qs), buffer) == buffer_entry(m, buffer),
    decreases qs.len(),
{
    if qs.len() > 0 {
        assert(!touches_buffer(qs[qs.len() - 1], buffer));
        assert forall|l: int| 0 <= l < qs.drop_last().len() implies !touches_buffer(
            #[trigger] qs.drop_last()[l],
            buffer,
        ) by {
            assert(qs.drop_last()[l] == qs[l]);
        }
        lemma_buffer_untouched_keeps_entry(m, qs.drop_last(), buffer);
    }
}

/// Law: the hazard tables thread through task boundaries: processing two
/// qualifier sequences in order is processing their concatenation.
pub proof fn lemma_img_after_concat(
    m: Map<Image, ImageAccess>,
    qs1: Seq<Qualifier>,
    qs2: Seq<Qualifier>,
)
    ensures
        img_after(m, qs1 + qs2) == img_after(img_after(m, qs1), qs2),
    decreases qs2.len(),
{
    if qs2.len() == 0 {
        assert(qs1 + qs2 =~= qs1);
    } else {
        assert((qs1 + qs2).drop_last() =~= qs1 + qs2.drop_last());
        assert((qs1 + qs2).last() == qs2.last());
        lemma_img_after_concat(m, qs1, qs2.drop_last());
    }
}

/// Law: as `lemma_img_after_concat`, for the buffer table.
pub proof fn lemma_buf_after_concat(
    m: Map<Buffer, BufferAccess>,
    qs1: Seq<Qualifier>,
    qs2: Seq<Qualifier>,
)
    ensures
        buf_after(m, qs1 + qs2) == buf_after(buf_after(m, qs1), qs2),
    decreases qs2.len(),
{
    if qs2.len() == 0 {
        assert(qs1 + qs2 =~= qs1);
    } else {
        assert((qs1 + qs2).drop_last() =~= qs1 + qs2.drop_last());
        assert((qs1 + qs2).last() == qs2.last());
        lemma_buf_after_concat(m, qs1, qs2.drop_last());
    }
}

/// The image table threaded through a whole frame: each task's qualifiers
/// applied in task order.
pub open spec fn img_after_tasks(
    m: Map<Image, ImageAccess>,
    tasks: Seq<Seq<Qualifier>>,
) -> Map<Image, ImageAccess>
    decreases tasks.len(),
{
    if tasks.len() == 0 {
        m
    } else {
        img_after(img_after_tasks(m, tasks.drop_last()), tasks.last())
    }
}

/// The buffer table threaded through a whole frame.
pub open spec fn buf_after_tasks(
    m: Map<Buffer, BufferAccess>,
    tasks: Seq<Seq<Qualifier>>,
) -> Map<Buffer, BufferAccess>
    decreases tasks.len(),
{
    if tasks.len() == 0 {
        m
    } else {
        buf_after(buf_after_tasks(m, tasks.drop_last()), tasks.last())
    }
}

/// Law: threading the image table task by task equals processing every
/// qualifier of the frame as one declaration-ordered sequence. Together with
/// `lemma_image_table_tracks_last_access` this says that after any task the
/// table entry of an image is exactly the access of the last descriptor that
/// touched it over all tasks so far.
pub proof fn lemma_img_after_tasks_is_flatten(
    m: Map<Image, ImageAccess>,
    tasks: Seq<Seq<Qualifier>>,
)
    ensures
        img_after_tasks(m, tasks) == img_after(m, tasks.flatten()),
    decreases tasks.len(),
{
    if tasks.len() == 0 {
        assert(tasks.flatten() =~= Seq::<Qualifier>::empty());
    } else {
        lemma_img_after_tasks_is_flatten(m, tasks.drop_last());
        tasks.lemma_flatten_and_flatten_alt_are_equivalent();
        tasks.drop_last().lemma_flatten_and_flatten_alt_are_equivalent();
        assert(tasks.flatten_alt() == tasks.drop_last().flatten_alt() + tasks.last());
        lemma_img_after_concat(m, tasks.drop_last().flatten(), tasks.last());
    }
}

/// Law: as `lemma_img_after_tasks_is_flatten`, for the buffer table.
pub proof fn lemma_buf_after_tasks_is_flatten(
    m: Map<Buffer, BufferAccess>,
    tasks: Seq<Seq<Qualifier>>,
)
    ensures
        buf_after_tasks(m, tasks) == buf_after(m, tasks.flatten()),
    decreases tasks.len(),
{
    if tasks.len() == 0 {
        assert(tasks.flatten() =~= Seq::<Qualifier>::empty());
    } else {
        lemma_buf_after_tasks_is_flatten(m, tasks.drop_last());
        tasks.lemma_flatten_and_flatten_alt_are_equivalent();
        tasks.drop_last().lemma_flatten_and_flatten_alt_are_equivalent();
        assert(tasks.flatten_alt() == tasks.drop_last().flatten_alt() + tasks.last());
        lemma_buf_after_concat(m, tasks.drop_last().flatten(), tasks.last());
    }
}

/// Law: the first access to an image that has no table entry derives its
/// barrier from `Untouched`: empty source stage mask, transition out of the
/// undefined layout, no source access to wait on.
pub proof fn lemma_first_image_use_from_untouched(
    m_img: Map<Image, ImageAccess>,
    m_buf: Map<Buffer, BufferAccess>,
    qs: Seq<Qualifier>,
    sizes: Seq<u64>,
    i: int,
)
    requires
        0 <= i < qs.len(),
        is_image_qual(qs[i]),
        !m_img.contains_key(qual_image_handle(qs[i])),
        forall|l: int| 0 <= l < i ==> !touches_image(#[trigger] qs[l], qual_image_handle(qs[i])),
    ensures
        naive_src_stage(m_img, m_buf, qs, i) == crate::access::STAGE_NONE,
        naive_barrier(m_img, m_buf, qs, sizes, i) == (Barrier::Image {
            image: i as usize,
            old_layout: ImageLayout::Undefined,
            new_layout: spec_image_layout(qual_image_access(qs[i])),
            src_access: Permission::NoAccess,
            dst_access: spec_image_permission(qual_image_access(qs[i])),
            image_aspect: qual_image_aspect(qs[i]),
        }),
{
    let h = qual_image_handle(qs[i]);
    assert forall|l: int| 0 <= l < qs.take(i).len() implies !touches_image(
        #[trigger] qs.take(i)[l],
        h,
    ) by {
        assert(qs.take(i)[l] == qs[l]);
    }
    lemma_image_untouched_keeps_entry(m_img, qs.take(i), h);
}

/// Law: the first access to a buffer that has no table entry derives its
/// barrier from `Untouched`: empty source stage mask, no source access.
pub proof fn lemma_first_buffer_use_from_untouched(
    m_img: Map<Image, ImageAccess>,
    m_buf: Map<Buffer, BufferAccess>,
    qs: Seq<Qualifier>,
    sizes: Seq<u64>,
    i: int,
)
    requires
        0 <= i < qs.len(),
        is_buffer_qual(qs[i]),
        !m_buf.contains_key(qual_buffer_handle(qs[i])),
        forall|l: int| 0 <= l < i ==> !touches_buffer(#[trigger] qs[l], qual_buffer_handle(qs[i])),
    ensures
        naive_src_stage(m_img, m_buf, qs, i) == crate::access::STAGE_NONE,
        naive_barrier(m_img, m_buf, qs, sizes, i) == (Barrier::Buffer {
            buffer: i as usize,
            offset: 0,
            size: sizes[i],
            src_access: Permission::NoAccess,
            dst_access: spec_buffer_permission(qual_buffer_access(qs[i])),
        }),
{
    let h = qual_buffer_handle(qs[i]);
    assert forall|l: int| 0 <= l < qs.take(i).len() implies !touches_buffer(
        #[trigger] qs.take(i)[l],
        h,
    ) by {
        assert(qs.take(i)[l] == qs[l]);
    }
    lemma_buffer_untouched_keeps_entry(m_buf, qs.take(i), h);
}

/// The set of distinct stage pairs among the naive barriers of the first `n`
/// qualifiers.
pub open spec fn qual_key_set(
    m_img: Map<Image, ImageAccess>,
    m_buf: Map<Buffer, BufferAccess>,
    qs: Seq<Qualifier>,
    n: int,
) -> Set<(u32, u32)>
    decreases n,
{
    if n <= 0 {
        Set::empty()
    } else {
        qual_key_set(m_img, m_buf, qs, n - 1).insert(qual_key(m_img, m_buf, qs, n - 1))
    }
}

/// The merged barrier list for stage pair `k` over the naive barriers of the
/// first `n` qualifiers, in qualifier order.
pub open spec fn qual_merged(
    m_img: Map<Image, ImageAccess>,
    m_buf: Map<Buffer, BufferAccess>,
    qs: Seq<Qualifier>,
    sizes: Seq<u64>,
    n: int,
    k: (u32, u32),
) -> Seq<Barrier>
    decreases n,
{
    if n <= 0 {
        Seq::empty()
    } else {
        let prev = qual_merged(m_img, m_buf, qs, sizes, n - 1, k);
        if qual_key(m_img, m_buf, qs, n - 1) == k {
            prev + seq![naive_barrier(m_img, m_buf, qs, sizes, n - 1)]
        } else {
            prev
        }
    }
}

/// A sequence of naive pipeline barriers (one per qualifier) has exactly the
/// qualifier-level stage-pair set, and merges per pair to exactly the
/// qualifier-level merged list.
pub proof fn lemma_naive_seq_merges(
    m_img: Map<Image, ImageAccess>,
    m_buf: Map<Buffer, BufferAccess>,
    qs: Seq<Qualifier>,
    sizes: Seq<u64>,
    pbs: Seq<PipelineBarrier>,
    n: int,
)
    requires
        0 <= n <= qs.len(),
        pbs.len() == n,
        forall|i: int|
            0 <= i < n ==> is_naive_barrier_at(m_img, m_buf, qs, sizes, #[trigger] pbs[i], i),
    ensures
        key_set(pbs) == qual_key_set(m_img, m_buf, qs, n),
        forall|k: (u32, u32)| #[trigger]
            merged_for(pbs, k) == qual_merged(m_img, m_buf, qs, sizes, n, k),
    decreases n,
{
    if n == 0 {
        assert forall|k: (u32, u32)| #[trigger]
            merged_for(pbs, k) == qual_merged(m_img, m_buf, qs, sizes, n, k) by {
            assert(merged_for(pbs, k) == Seq::<Barrier>::empty());
        }
    } else {
        assert forall|i: int| 0 <= i < n - 1 implies is_naive_barrier_at(
            m_img,
            m_buf,
            qs,
            sizes,
            #[trigger] pbs.drop_last()[i],
            i,
        ) by {
            assert(pbs.drop_last()[i] == pbs[i]);
        }
        lemma_naive_seq_merges(m_img, m_buf, qs, sizes, pbs.drop_last(), n - 1);
        assert(is_naive_barrier_at(m_img, m_buf, qs, sizes, pbs[n - 1], n - 1));
        assert(stage_key(pbs.last()) == qual_key(m_img, m_buf, qs, n - 1));
        assert(pbs.last().barriers@ =~= seq![naive_barrier(m_img, m_buf, qs, sizes, n - 1)]);
        assert forall|k: (u32, u32)| #[trigger]
            merged_for(pbs, k) == qual_merged(m_img, m_buf, qs, sizes, n, k) by {
            if stage_key(pbs.last()) == k {
                assert(merged_for(pbs, k) == merged_for(pbs.drop_last(), k)
                    + pbs.last().barriers@);
            } else {
                assert(merged_for(pbs, k) == merged_for(pbs.drop_last(), k));
            }
        }
    }
}

} // verus!
