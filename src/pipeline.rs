use vstd::prelude::*;

use crate::geometry::{
    overlay_enabled, overlay_flag_set, supported_source, valid_geometry, BufferDescription,
    BufferSource, KernelParams, MAX_WIDTH, MIN_HEIGHT,
};
use crate::readback::{destripe, destriped, padded_row, padded_stride, COPY_BYTES_PER_ROW_ALIGNMENT};

verus! {

/// Bytes of one 3x3 row-correction matrix of 32-bit floats.
pub const MATRIX_BYTES: usize = 36;

/// Overlay buffer size used when the overlay is disabled.
pub const MIN_OVERLAY_BYTES: usize = 16;

/// Sizes of every buffer of a pipeline, fixed when it is built for one frame geometry.
pub struct WgpuWrapper {
    pub padded_out_stride: usize,
    pub output_stride: usize,
    pub output_height: usize,
    pub in_size: usize,
    pub out_size: usize,
    pub staging_size: usize,
    pub params_size: usize,
    pub drawing_size: usize,
}

/// Why a frame was refused before any work was issued for it.
#[derive(Clone, Copy, Debug, PartialEq, Eq, Structural)]
pub enum FrameError {
    SizeMismatch,
    UnsupportedResidency,
}

/// The device work that an accepted frame needs, in submission order:
/// the input upload, the matrices and parameters (always), the overlay upload,
/// the render pass (always), and the copy into the staging buffer with its readback.
#[derive(Clone, Copy, Debug, PartialEq, Eq, Structural)]
pub struct FrameCommands {
    pub upload_input: bool,
    pub upload_overlay: bool,
    pub read_back: bool,
}

/// Capacity in bytes of the matrix buffer: one matrix per output row.
pub open spec fn matrix_capacity(p: KernelParams) -> int {
    MATRIX_BYTES * p.output_height
}

/// Size of the overlay buffer: as asked when the overlay is on, else the minimum.
pub open spec fn overlay_capacity(p: KernelParams, drawing_len: int) -> int {
    if overlay_flag_set(p) { drawing_len } else { MIN_OVERLAY_BYTES as int }
}

/// Whether the machine can hold every size that a pipeline for this geometry needs.
pub open spec fn sizes_fit(p: KernelParams, b: BufferDescription) -> bool {
    &&& b.input_size.1 * b.input_size.2 <= usize::MAX
    &&& b.output_size.1 * b.output_size.2 <= usize::MAX
    &&& b.output_size.2 + COPY_BYTES_PER_ROW_ALIGNMENT <= usize::MAX
    &&& padded_row(b.output_size.2 as int) * b.output_size.1 <= usize::MAX
    &&& p.output_height >= 0 ==> matrix_capacity(p) <= usize::MAX
}

impl WgpuWrapper {
    /// The sizes agree with one another: the staging buffer holds every padded output row.
    pub open spec fn wf(&self) -> bool {
        &&& self.output_stride <= self.padded_out_stride
        &&& self.padded_out_stride == padded_row(self.output_stride as int)
        &&& self.out_size == self.output_height * self.output_stride
        &&& self.staging_size == self.padded_out_stride * self.output_height
    }

    /// The pipeline built for `params`, `buffers` and an overlay of `drawing_len` bytes.
    pub open spec fn planned(&self, p: KernelParams, b: BufferDescription, drawing_len: int) -> bool {
        &&& self.output_stride == b.output_size.2
        &&& self.output_height == b.output_size.1
        &&& self.padded_out_stride == padded_row(b.output_size.2 as int)
        &&& self.in_size == b.input_size.1 * b.input_size.2
        &&& self.out_size == b.output_size.1 * b.output_size.2
        &&& self.staging_size == padded_row(b.output_size.2 as int) * b.output_size.1
        &&& self.params_size == matrix_capacity(p)
        &&& self.drawing_size == overlay_capacity(p, drawing_len)
    }

    /// The reason a frame is refused, if any: a byte length that disagrees with
    /// the sizes fixed at build time, else a residency without an upload path.
    pub open spec fn frame_error(
        &self,
        source: BufferSource,
        matrix_count: int,
        drawing_len: int,
    ) -> Option<FrameError> {
        if source matches BufferSource::Cpu { input, output } && (input@.len() != self.in_size
            || output@.len() != self.out_size) {
            Some(FrameError::SizeMismatch)
        } else if matrix_count * MATRIX_BYTES > self.params_size || drawing_len > self.drawing_size {
            Some(FrameError::SizeMismatch)
        } else if !supported_source(source) {
            Some(FrameError::UnsupportedResidency)
        } else {
            None
        }
    }

    /// Plans the buffers of a pipeline for one frame geometry. `device_ready`
    /// tells whether a device was acquired from a non-emulated adapter. There
    /// is no pipeline when the geometry is refused or no device is there.
    pub fn new(params: &KernelParams, buffers: &BufferDescription, drawing_len: usize, device_ready: bool) -> (r: Option<WgpuWrapper>)
        requires
            sizes_fit(*params, *buffers),
        ensures
            r is Some <==> valid_geometry(*params) && device_ready,
            r matches Some(w) ==> w.wf() && w.planned(*params, *buffers, drawing_len as int),
    {
        if params.height < MIN_HEIGHT || params.output_height < MIN_HEIGHT || params.stride < 1
            || params.width > MAX_WIDTH || params.output_width > MAX_WIDTH {
            return None;
        }
        if !device_ready {
            return None;
        }
        let output_height = buffers.output_size.1;
        let output_stride = buffers.output_size.2;
        let in_size = buffers.input_size.1 * buffers.input_size.2;
        let out_size = output_height * output_stride;
        let params_size = MATRIX_BYTES * params.output_height as usize;
        let drawing_size = if overlay_enabled(params) { drawing_len } else { MIN_OVERLAY_BYTES };
        let padded_out_stride = padded_stride(output_stride);
        let staging_size = padded_out_stride * output_height;
        Some(WgpuWrapper {
            padded_out_stride,
            output_stride,
            output_height,
            in_size,
            out_size,
            staging_size,
            params_size,
            drawing_size,
        })
    }

    /// Decides whether a frame can be processed, before any device work is issued,
    /// and which work it needs. `matrix_count` is the number of row matrices and
    /// `drawing_len` the byte length of the overlay.
    pub fn begin_frame(&self, buffers: &BufferDescription, matrix_count: usize, drawing_len: usize) -> (r: Result<FrameCommands, FrameError>)
        ensures
            r is Err <==> self.frame_error(buffers.buffers, matrix_count as int, drawing_len as int) is Some,
            r matches Err(e) ==> self.frame_error(buffers.buffers, matrix_count as int, drawing_len as int) == Some(e),
            r matches Ok(c) ==> c == (FrameCommands {
                upload_input: buffers.buffers is Cpu,
                upload_overlay: drawing_len > 0,
                read_back: buffers.buffers is Cpu,
            }),
    {
        if let BufferSource::Cpu { input, output } = &buffers.buffers {
            if input.len() != self.in_size || output.len() != self.out_size {
                return Err(FrameError::SizeMismatch);
            }
        }
        if matrix_count > self.params_size / MATRIX_BYTES || drawing_len > self.drawing_size {
            return Err(FrameError::SizeMismatch);
        }
        let host = match &buffers.buffers {
            BufferSource::Cpu { .. } => true,
            BufferSource::Vulkan { .. } => false,
            _ => {
                return Err(FrameError::UnsupportedResidency);
            },
        };
        Ok(FrameCommands { upload_input: host, upload_overlay: drawing_len > 0, read_back: host })
    }

    /// Fills the host output from the mapped staging buffer, or reports that
    /// the readback did not complete (`None`) and leaves the output as it was.
    pub fn finish_frame(&self, output: &mut Vec<u8>, mapped: Option<&[u8]>) -> (r: bool)
        requires
            self.wf(),
        ensures
            r <==> (mapped matches Some(m) && m@.len() == self.staging_size && old(output)@.len() == self.out_size),
            r ==> final(output)@ == destriped(mapped.unwrap()@, self.padded_out_stride as int, self.output_stride as int, self.output_height as int),
            !r ==> final(output)@ == old(output)@,
    {
        match mapped {
            Some(data) => {
                if data.len() != self.staging_size || output.len() != self.out_size {
                    return false;
                }
                *output = destripe(data, self.padded_out_stride, self.output_stride, self.output_height);
                true
            },
            None => false,
        }
    }
}

/// A host input whose length is not the input height times its stride is refused
/// as a size mismatch, before any device work.
pub proof fn lemma_input_mismatch_refused(w: WgpuWrapper, source: BufferSource, matrix_count: int, drawing_len: int)
    requires
        source matches BufferSource::Cpu { input, .. } && input@.len() != w.in_size,
    ensures
        w.frame_error(source, matrix_count, drawing_len) == Some(FrameError::SizeMismatch),
{
}

/// A frame in a residency other than host memory or a Vulkan image is always refused.
pub proof fn lemma_unsupported_residency_refused(w: WgpuWrapper, source: BufferSource, matrix_count: int, drawing_len: int)
    requires
        !supported_source(source),
    ensures
        w.frame_error(source, matrix_count, drawing_len) is Some,
{
}

} // verus!
