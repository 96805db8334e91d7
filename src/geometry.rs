use vstd::prelude::*;

verus! {

/// Largest accepted frame width, input or output.
pub const MAX_WIDTH: i32 = 8192;

/// Smallest accepted frame height, input or output.
pub const MIN_HEIGHT: i32 = 4;

/// Bit of `KernelParams::flags` that enables the overlay.
pub const OVERLAY_FLAG: i32 = 8;

/// Scalar parameters shared with the kernel's uniform block.
#[derive(Clone, Copy, Debug, PartialEq, Eq, Structural)]
pub struct KernelParams {
    pub width: i32,
    pub height: i32,
    pub stride: i32,
    pub output_width: i32,
    pub output_height: i32,
    pub output_stride: i32,
    pub interpolation: i32,
    pub flags: i32,
}

/// Where the pixels of a frame live.
pub enum BufferSource {
    Empty,
    Cpu { input: Vec<u8>, output: Vec<u8> },
    OpenGL { texture: u32, context: usize },
    DirectX { texture_ptr: usize },
    OpenCL { texture_ptr: usize, queue_ptr: usize },
    Vulkan { image: u64 },
}

/// Input and output geometry as (width, height, stride in bytes), and the pixels.
pub struct BufferDescription {
    pub input_size: (usize, usize, usize),
    pub output_size: (usize, usize, usize),
    pub buffers: BufferSource,
}

/// The residencies a frame can be processed from: host memory, or a
/// Vulkan image that is already on the device.
pub open spec fn supported_source(s: BufferSource) -> bool {
    s is Cpu || s is Vulkan
}

pub open spec fn valid_geometry(p: KernelParams) -> bool {
    &&& p.height >= MIN_HEIGHT
    &&& p.output_height >= MIN_HEIGHT
    &&& p.stride >= 1
    &&& p.width <= MAX_WIDTH
    &&& p.output_width <= MAX_WIDTH
}

pub open spec fn overlay_flag_set(p: KernelParams) -> bool {
    p.flags & OVERLAY_FLAG == OVERLAY_FLAG
}

/// The four bytes of `x` in two's complement, least significant first.
pub open spec fn le_bytes(x: i32) -> Seq<u8> {
    let u = x as u32;
    seq![(u % 256) as u8, (u / 256 % 256) as u8, (u / 65536 % 256) as u8, (u / 16777216) as u8]
}

/// The uniform block of the kernel: the fields in declaration order, 32-bit little-endian each.
pub open spec fn params_block(p: KernelParams) -> Seq<u8> {
    le_bytes(p.width) + le_bytes(p.height) + le_bytes(p.stride) + le_bytes(p.output_width)
        + le_bytes(p.output_height) + le_bytes(p.output_stride) + le_bytes(p.interpolation)
        + le_bytes(p.flags)
}

fn push_le(out: &mut Vec<u8>, x: i32)
    ensures
        final(out)@ == old(out)@ + le_bytes(x),
{
    let u = x as u32;
    out.push((u % 256) as u8);
    out.push((u / 256 % 256) as u8);
    out.push((u / 65536 % 256) as u8);
    out.push((u / 16777216) as u8);
    assert(final(out)@ =~= old(out)@ + le_bytes(x));
}

impl KernelParams {
    /// The bytes uploaded into the kernel's uniform block.
    pub fn to_bytes(&self) -> (r: Vec<u8>)
        ensures
            r@ == params_block(*self),
            r@.len() == 32,
    {
        let mut out: Vec<u8> = Vec::new();
        push_le(&mut out, self.width);
        push_le(&mut out, self.height);
        push_le(&mut out, self.stride);
        push_le(&mut out, self.output_width);
        push_le(&mut out, self.output_height);
        push_le(&mut out, self.output_stride);
        push_le(&mut out, self.interpolation);
        push_le(&mut out, self.flags);
        assert(out@ =~= params_block(*self));
        out
    }
}

/// Whether a pipeline accepts frames that live in `buffers`.
pub fn is_buffer_supported(buffers: &BufferDescription) -> (r: bool)
    ensures
        r == supported_source(buffers.buffers),
{
    match buffers.buffers {
        BufferSource::Empty => false,
        BufferSource::Cpu { .. } => true,
        BufferSource::OpenGL { .. } => false,
        BufferSource::DirectX { .. } => false,
        BufferSource::OpenCL { .. } => false,
        BufferSource::Vulkan { .. } => true,
    }
}

/// Whether a pipeline can be built for the frame geometry in `params`.
pub fn geometry_is_valid(params: &KernelParams) -> (r: bool)
    ensures
        r == valid_geometry(*params),
{
    !(params.height < MIN_HEIGHT || params.output_height < MIN_HEIGHT || params.stride < 1
        || params.width > MAX_WIDTH || params.output_width > MAX_WIDTH)
}

/// Whether the overlay is drawn over the output.
pub fn overlay_enabled(params: &KernelParams) -> (r: bool)
    ensures
        r == overlay_flag_set(*params),
{
    params.flags & OVERLAY_FLAG == OVERLAY_FLAG
}

} // verus!
