//! The access model: closed enumerations of image and buffer access intents,
//! each mapping purely and totally to a pipeline-stage mask, a permission,
//! and (for images) a required layout.

use vstd::prelude::*;

verus! {

/// Pipeline-stage masks, one bit per execution stage.
pub const STAGE_NONE: u32 = 0;
pub const STAGE_VERTEX_SHADER: u32 = 0x8;
pub const STAGE_FRAGMENT_SHADER: u32 = 0x80;
pub const STAGE_EARLY_FRAGMENT_TESTS: u32 = 0x100;
pub const STAGE_LATE_FRAGMENT_TESTS: u32 = 0x200;
pub const STAGE_COLOR_ATTACHMENT_OUTPUT: u32 = 0x400;
pub const STAGE_COMPUTE_SHADER: u32 = 0x800;
pub const STAGE_TRANSFER: u32 = 0x1000;
pub const STAGE_HOST: u32 = 0x4000;
pub const STAGE_ALL_GRAPHICS: u32 = 0x8000;
pub const STAGE_ALL_COMMANDS: u32 = 0x10000;

/// How an access may touch the memory of a resource.
#[derive(Clone, Copy, Debug, PartialEq, Eq, Structural)]
pub enum Permission {
    NoAccess,
    Read,
    Write,
    ReadWrite,
}

/// The layout an image must be in for a given access.
#[derive(Clone, Copy, Debug, PartialEq, Eq, Structural)]
pub enum ImageLayout {
    Undefined,
    General,
    ReadOnlyOptimal,
    AttachmentOptimal,
    TransferSrcOptimal,
    TransferDstOptimal,
    Present,
}

/// Declared intent for touching an image. `Untouched` is the implicit state of
/// any image not yet touched in the current frame.
#[derive(Clone, Copy, Debug, PartialEq, Eq, Structural)]
pub enum ImageAccess {
    Untouched,
    ShaderReadOnly,
    VertexShaderReadOnly,
    FragmentShaderReadOnly,
    ComputeShaderReadOnly,
    ShaderWriteOnly,
    VertexShaderWriteOnly,
    FragmentShaderWriteOnly,
    ComputeShaderWriteOnly,
    ShaderReadWrite,
    VertexShaderReadWrite,
    FragmentShaderReadWrite,
    ComputeShaderReadWrite,
    TransferRead,
    TransferWrite,
    ColorAttachment,
    DepthAttachment,
    DepthAttachmentReadOnly,
    DepthStencilAttachment,
    Present,
}

impl Default for ImageAccess {
    /// An image starts each frame untouched.
    fn default() -> (r: Self)
        ensures
            r == ImageAccess::Untouched,
    {
        ImageAccess::Untouched
    }
}

/// Declared intent for touching a buffer. `Untouched` is the implicit state of
/// any buffer not yet touched in the current frame.
#[derive(Clone, Copy, Debug, PartialEq, Eq, Structural)]
pub enum BufferAccess {
    Untouched,
    ShaderReadOnly,
    VertexShaderReadOnly,
    FragmentShaderReadOnly,
    ComputeShaderReadOnly,
    ShaderWriteOnly,
    VertexShaderWriteOnly,
    FragmentShaderWriteOnly,
    ComputeShaderWriteOnly,
    ShaderReadWrite,
    VertexShaderReadWrite,
    FragmentShaderReadWrite,
    ComputeShaderReadWrite,
    TransferRead,
    TransferWrite,
    HostTransferRead,
    HostTransferWrite,
}

impl Default for BufferAccess {
    /// A buffer starts each frame untouched.
    fn default() -> (r: Self)
        ensures
            r == BufferAccess::Untouched,
    {
        BufferAccess::Untouched
    }
}

/// The stage mask an image access executes in.
pub open spec fn spec_image_stage(access: ImageAccess) -> u32 {
    match access {
        ImageAccess::Untouched => STAGE_NONE,
        ImageAccess::Present => STAGE_ALL_COMMANDS,
        ImageAccess::TransferWrite | ImageAccess::TransferRead => STAGE_TRANSFER,
        ImageAccess::DepthAttachmentReadOnly
        | ImageAccess::DepthAttachment
        | ImageAccess::DepthStencilAttachment => STAGE_EARLY_FRAGMENT_TESTS
            | STAGE_LATE_FRAGMENT_TESTS,
        ImageAccess::ShaderReadWrite
        | ImageAccess::ShaderWriteOnly
        | ImageAccess::ShaderReadOnly => STAGE_ALL_GRAPHICS | STAGE_COMPUTE_SHADER,
        ImageAccess::VertexShaderReadWrite
        | ImageAccess::VertexShaderWriteOnly
        | ImageAccess::VertexShaderReadOnly => STAGE_VERTEX_SHADER,
        ImageAccess::FragmentShaderReadWrite
        | ImageAccess::FragmentShaderWriteOnly
        | ImageAccess::FragmentShaderReadOnly => STAGE_FRAGMENT_SHADER,
        ImageAccess::ComputeShaderReadWrite
        | ImageAccess::ComputeShaderWriteOnly
        | ImageAccess::ComputeShaderReadOnly => STAGE_COMPUTE_SHADER,
        ImageAccess::ColorAttachment => STAGE_COLOR_ATTACHMENT_OUTPUT,
    }
}

pub fn image_stage(access: ImageAccess) -> (s: u32)
    ensures
        s == spec_image_stage(access),
{
    match access {
        ImageAccess::Untouched => STAGE_NONE,
        ImageAccess::Present => STAGE_ALL_COMMANDS,
        ImageAccess::TransferWrite | ImageAccess::TransferRead => STAGE_TRANSFER,
        ImageAccess::DepthAttachmentReadOnly
        | ImageAccess::DepthAttachment
        | ImageAccess::DepthStencilAttachment => STAGE_EARLY_FRAGMENT_TESTS
            | STAGE_LATE_FRAGMENT_TESTS,
        ImageAccess::ShaderReadWrite
        | ImageAccess::ShaderWriteOnly
        | ImageAccess::ShaderReadOnly => STAGE_ALL_GRAPHICS | STAGE_COMPUTE_SHADER,
        ImageAccess::VertexShaderReadWrite
        | ImageAccess::VertexShaderWriteOnly
        | ImageAccess::VertexShaderReadOnly => STAGE_VERTEX_SHADER,
        ImageAccess::FragmentShaderReadWrite
        | ImageAccess::FragmentShaderWriteOnly
        | ImageAccess::FragmentShaderReadOnly => STAGE_FRAGMENT_SHADER,
        ImageAccess::ComputeShaderReadWrite
        | ImageAccess::ComputeShaderWriteOnly
        | ImageAccess::ComputeShaderReadOnly => STAGE_COMPUTE_SHADER,
        ImageAccess::ColorAttachment => STAGE_COLOR_ATTACHMENT_OUTPUT,
    }
}

/// The layout an image access requires.
pub open spec fn spec_image_layout(access: ImageAccess) -> ImageLayout {
    match access {
        ImageAccess::Untouched => ImageLayout::Undefined,
        ImageAccess::Present => ImageLayout::Present,
        ImageAccess::TransferWrite => ImageLayout::TransferDstOptimal,
        ImageAccess::TransferRead => ImageLayout::TransferSrcOptimal,
        ImageAccess::DepthStencilAttachment => ImageLayout::AttachmentOptimal,
        ImageAccess::DepthAttachment => ImageLayout::AttachmentOptimal,
        ImageAccess::DepthAttachmentReadOnly
        | ImageAccess::VertexShaderReadOnly
        | ImageAccess::FragmentShaderReadOnly
        | ImageAccess::ComputeShaderReadOnly
        | ImageAccess::ShaderReadOnly => ImageLayout::ReadOnlyOptimal,
        ImageAccess::ShaderWriteOnly
        | ImageAccess::VertexShaderWriteOnly
        | ImageAccess::FragmentShaderWriteOnly
        | ImageAccess::ComputeShaderWriteOnly
        | ImageAccess::VertexShaderReadWrite
        | ImageAccess::FragmentShaderReadWrite
        | ImageAccess::ComputeShaderReadWrite
        | ImageAccess::ShaderReadWrite => ImageLayout::General,
        ImageAccess::ColorAttachment => ImageLayout::AttachmentOptimal,
    }
}

pub fn image_layout(access: ImageAccess) -> (l: ImageLayout)
    ensures
        l == spec_image_layout(access),
{
    match access {
        ImageAccess::Untouched => ImageLayout::Undefined,
        ImageAccess::Present => ImageLayout::Present,
        ImageAccess::TransferWrite => ImageLayout::TransferDstOptimal,
        ImageAccess::TransferRead => ImageLayout::TransferSrcOptimal,
        ImageAccess::DepthStencilAttachment => ImageLayout::AttachmentOptimal,
        ImageAccess::DepthAttachment => ImageLayout::AttachmentOptimal,
        ImageAccess::DepthAttachmentReadOnly
        | ImageAccess::VertexShaderReadOnly
        | ImageAccess::FragmentShaderReadOnly
        | ImageAccess::ComputeShaderReadOnly
        | ImageAccess::ShaderReadOnly => ImageLayout::ReadOnlyOptimal,
        ImageAccess::ShaderWriteOnly
        | ImageAccess::VertexShaderWriteOnly
        | ImageAccess::FragmentShaderWriteOnly
        | ImageAccess::ComputeShaderWriteOnly
        | ImageAccess::VertexShaderReadWrite
        | ImageAccess::FragmentShaderReadWrite
        | ImageAccess::ComputeShaderReadWrite
        | ImageAccess::ShaderReadWrite => ImageLayout::General,
        ImageAccess::ColorAttachment => ImageLayout::AttachmentOptimal,
    }
}

/// The permission an image access needs on the image's memory.
pub open spec fn spec_image_permission(access: ImageAccess) -> Permission {
    match access {
        ImageAccess::Untouched => Permission::NoAccess,
        ImageAccess::Present
        | ImageAccess::TransferRead
        | ImageAccess::DepthAttachmentReadOnly
        | ImageAccess::ShaderReadOnly
        | ImageAccess::VertexShaderReadOnly
        | ImageAccess::FragmentShaderReadOnly
        | ImageAccess::ComputeShaderReadOnly => Permission::Read,
        ImageAccess::TransferWrite
        | ImageAccess::ShaderWriteOnly
        | ImageAccess::VertexShaderWriteOnly
        | ImageAccess::FragmentShaderWriteOnly
        | ImageAccess::ComputeShaderWriteOnly => Permission::Write,
        ImageAccess::ColorAttachment
        | ImageAccess::DepthAttachment
        | ImageAccess::DepthStencilAttachment
        | ImageAccess::ShaderReadWrite
        | ImageAccess::VertexShaderReadWrite
        | ImageAccess::FragmentShaderReadWrite
        | ImageAccess::ComputeShaderReadWrite => Permission::ReadWrite,
    }
}

pub fn image_permission(access: ImageAccess) -> (p: Permission)
    ensures
        p == spec_image_permission(access),
{
    match access {
        ImageAccess::Untouched => Permission::NoAccess,
        ImageAccess::Present
        | ImageAccess::TransferRead
        | ImageAccess::DepthAttachmentReadOnly
        | ImageAccess::ShaderReadOnly
        | ImageAccess::VertexShaderReadOnly
        | ImageAccess::FragmentShaderReadOnly
        | ImageAccess::ComputeShaderReadOnly => Permission::Read,
        ImageAccess::TransferWrite
        | ImageAccess::ShaderWriteOnly
        | ImageAccess::VertexShaderWriteOnly
        | ImageAccess::FragmentShaderWriteOnly
        | ImageAccess::ComputeShaderWriteOnly => Permission::Write,
        ImageAccess::ColorAttachment
        | ImageAccess::DepthAttachment
        | ImageAccess::DepthStencilAttachment
        | ImageAccess::ShaderReadWrite
        | ImageAccess::VertexShaderReadWrite
        | ImageAccess::FragmentShaderReadWrite
        | ImageAccess::ComputeShaderReadWrite => Permission::ReadWrite,
    }
}

/// The stage mask a buffer access executes in.
pub open spec fn spec_buffer_stage(access: BufferAccess) -> u32 {
    match access {
        BufferAccess::Untouched => STAGE_NONE,
        BufferAccess::ShaderReadOnly
        | BufferAccess::ShaderWriteOnly
        | BufferAccess::ShaderReadWrite => STAGE_ALL_GRAPHICS | STAGE_COMPUTE_SHADER,
        BufferAccess::VertexShaderReadOnly
        | BufferAccess::VertexShaderWriteOnly
        | BufferAccess::VertexShaderReadWrite => STAGE_VERTEX_SHADER,
        BufferAccess::FragmentShaderReadOnly
        | BufferAccess::FragmentShaderWriteOnly
        | BufferAccess::FragmentShaderReadWrite => STAGE_FRAGMENT_SHADER,
        BufferAccess::ComputeShaderReadOnly
        | BufferAccess::ComputeShaderWriteOnly
        | BufferAccess::ComputeShaderReadWrite => STAGE_COMPUTE_SHADER,
        BufferAccess::TransferRead | BufferAccess::TransferWrite => STAGE_TRANSFER,
        BufferAccess::HostTransferRead | BufferAccess::HostTransferWrite => STAGE_HOST,
    }
}

pub fn buffer_stage(access: BufferAccess) -> (s: u32)
    ensures
        s == spec_buffer_stage(access),
{
    match access {
        BufferAccess::Untouched => STAGE_NONE,
        BufferAccess::ShaderReadOnly
        | BufferAccess::ShaderWriteOnly
        | BufferAccess::ShaderReadWrite => STAGE_ALL_GRAPHICS | STAGE_COMPUTE_SHADER,
        BufferAccess::VertexShaderReadOnly
        | BufferAccess::VertexShaderWriteOnly
        | BufferAccess::VertexShaderReadWrite => STAGE_VERTEX_SHADER,
        BufferAccess::FragmentShaderReadOnly
        | BufferAccess::FragmentShaderWriteOnly
        | BufferAccess::FragmentShaderReadWrite => STAGE_FRAGMENT_SHADER,
        BufferAccess::ComputeShaderReadOnly
        | BufferAccess::ComputeShaderWriteOnly
        | BufferAccess::ComputeShaderReadWrite => STAGE_COMPUTE_SHADER,
        BufferAccess::TransferRead | BufferAccess::TransferWrite => STAGE_TRANSFER,
        BufferAccess::HostTransferRead | BufferAccess::HostTransferWrite => STAGE_HOST,
    }
}

/// The permission a buffer access needs on the buffer's memory.
pub open spec fn spec_buffer_permission(access: BufferAccess) -> Permission {
    match access {
        BufferAccess::Untouched => Permission::NoAccess,
        BufferAccess::HostTransferRead
        | BufferAccess::TransferRead
        | BufferAccess::ShaderReadOnly
        | BufferAccess::VertexShaderReadOnly
        | BufferAccess::FragmentShaderReadOnly
        | BufferAccess::ComputeShaderReadOnly => Permission::Read,
        BufferAccess::HostTransferWrite
        | BufferAccess::TransferWrite
        | BufferAccess::ShaderWriteOnly
        | BufferAccess::VertexShaderWriteOnly
        | BufferAccess::FragmentShaderWriteOnly
        | BufferAccess::ComputeShaderWriteOnly => Permission::Write,
        BufferAccess::ShaderReadWrite
        | BufferAccess::VertexShaderReadWrite
        | BufferAccess::FragmentShaderReadWrite
        | BufferAccess::ComputeShaderReadWrite => Permission::ReadWrite,
    }
}

pub fn buffer_permission(access: BufferAccess) -> (p: Permission)
    ensures
        p == spec_buffer_permission(access),
{
    match access {
        BufferAccess::Untouched => Permission::NoAccess,
        BufferAccess::HostTransferRead
        | BufferAccess::TransferRead
        | BufferAccess::ShaderReadOnly
        | BufferAccess::VertexShaderReadOnly
        | BufferAccess::FragmentShaderReadOnly
        | BufferAccess::ComputeShaderReadOnly => Permission::Read,
        BufferAccess::HostTransferWrite
        | BufferAccess::TransferWrite
        | BufferAccess::ShaderWriteOnly
        | BufferAccess::VertexShaderWriteOnly
        | BufferAccess::FragmentShaderWriteOnly
        | BufferAccess::ComputeShaderWriteOnly => Permission::Write,
        BufferAccess::ShaderReadWrite
        | BufferAccess::VertexShaderReadWrite
        | BufferAccess::FragmentShaderReadWrite
        | BufferAccess::ComputeShaderReadWrite => Permission::ReadWrite,
    }
}

} // verus!
