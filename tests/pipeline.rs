use wgpu_undistort::{
    assemble_kernel, destripe, geometry_is_valid, is_buffer_supported, overlay_enabled,
    padded_stride, relative_timestamp, AdapterInfo, AdapterRegistry, BufferDescription,
    BufferSource, DeviceType, FrameCommands, FrameError, KernelParams, WgpuWrapper,
};

fn params(width: i32, height: i32, stride: i32, flags: i32) -> KernelParams {
    KernelParams {
        width,
        height,
        stride,
        output_width: width,
        output_height: height,
        output_stride: stride,
        interpolation: 2,
        flags,
    }
}

fn cpu(width: usize, height: usize, stride: usize, out_stride: usize) -> BufferDescription {
    BufferDescription {
        input_size: (width, height, stride),
        output_size: (width, height, out_stride),
        buffers: BufferSource::Cpu { input: vec![0u8; height * stride], output: vec![0u8; height * out_stride] },
    }
}

fn info(name: &str, backend: &str, device_type: DeviceType) -> AdapterInfo {
    AdapterInfo { name: name.to_string(), backend: backend.to_string(), device_type }
}

#[test]
fn padded_stride_rounds_up_to_alignment() {
    assert_eq!(padded_stride(1000), 1024);
    assert_eq!(padded_stride(1), 256);
    assert_eq!(padded_stride(256), 256);
    assert_eq!(padded_stride(257), 512);
    assert_eq!(padded_stride(32768), 32768);
    for s in 1..=32768usize {
        let p = padded_stride(s);
        assert!(p >= s);
        assert_eq!(p % 256, 0);
    }
}

#[test]
fn destripe_strips_row_padding() {
    let (stride, padded, height) = (1000usize, 1024usize, 4usize);
    let mut staging = vec![0xAAu8; padded * height];
    for r in 0..height {
        for c in 0..stride {
            staging[r * padded + c] = ((r * 7 + c) % 160) as u8;
        }
    }
    let out = destripe(&staging, padded, stride, height);
    assert_eq!(out.len(), stride * height);
    assert!(!out.contains(&0xAA));
    for r in 0..height {
        assert_eq!(&out[r * stride..(r + 1) * stride], &staging[r * padded..r * padded + stride]);
    }
}

#[test]
fn destripe_fast_path_is_identity() {
    let staging: Vec<u8> = (0..512u32).map(|x| (x % 251) as u8).collect();
    assert_eq!(destripe(&staging, 256, 256, 2), staging);
    assert_eq!(destripe(&[], 0, 0, 3), Vec::<u8>::new());
}

#[test]
fn geometry_validation_limits() {
    assert!(geometry_is_valid(&params(8192, 4, 1, 0)));
    assert!(!geometry_is_valid(&params(8193, 4, 1, 0)));
    assert!(!geometry_is_valid(&params(100, 3, 400, 0)));
    assert!(!geometry_is_valid(&params(100, 10, 0, 0)));
    let mut p = params(100, 10, 400, 0);
    p.output_height = 3;
    assert!(!geometry_is_valid(&p));
    p.output_height = 10;
    p.output_width = 8193;
    assert!(!geometry_is_valid(&p));
}

#[test]
fn overlay_flag_bit() {
    assert!(overlay_enabled(&params(10, 10, 40, 8)));
    assert!(overlay_enabled(&params(10, 10, 40, 15)));
    assert!(!overlay_enabled(&params(10, 10, 40, 7)));
}

#[test]
fn build_needs_valid_geometry_and_device() {
    let b = cpu(250, 8, 1000, 1000);
    assert!(WgpuWrapper::new(&params(250, 8, 1000, 0), &b, 0, false).is_none());
    assert!(WgpuWrapper::new(&params(250, 3, 1000, 0), &b, 0, true).is_none());
    let w = WgpuWrapper::new(&params(250, 8, 1000, 0), &b, 100, true).unwrap();
    assert_eq!(w.padded_out_stride, 1024);
    assert_eq!(w.in_size, 8000);
    assert_eq!(w.out_size, 8000);
    assert_eq!(w.staging_size, 8192);
    assert_eq!(w.params_size, 9 * 8 * 4);
    assert_eq!(w.drawing_size, 16);
    let w = WgpuWrapper::new(&params(250, 8, 1000, 8), &b, 100, true).unwrap();
    assert_eq!(w.drawing_size, 100);
}

#[test]
fn frame_with_wrong_input_length_is_refused() {
    let b = cpu(250, 8, 1000, 1000);
    let w = WgpuWrapper::new(&params(250, 8, 1000, 0), &b, 0, true).unwrap();
    let bad = BufferDescription {
        input_size: (250, 8, 1000),
        output_size: (250, 8, 1000),
        buffers: BufferSource::Cpu { input: vec![0u8; 7999], output: vec![0u8; 8000] },
    };
    assert_eq!(w.begin_frame(&bad, 8, 0), Err(FrameError::SizeMismatch));
    let bad_out = BufferDescription {
        input_size: (250, 8, 1000),
        output_size: (250, 8, 1000),
        buffers: BufferSource::Cpu { input: vec![0u8; 8000], output: vec![0u8; 8001] },
    };
    assert_eq!(w.begin_frame(&bad_out, 8, 0), Err(FrameError::SizeMismatch));
    assert_eq!(w.begin_frame(&b, 9, 0), Err(FrameError::SizeMismatch));
    assert_eq!(w.begin_frame(&b, 8, 17), Err(FrameError::SizeMismatch));
    assert_eq!(
        w.begin_frame(&b, 8, 16),
        Ok(FrameCommands { upload_input: true, upload_overlay: true, read_back: true })
    );
    assert_eq!(
        w.begin_frame(&b, 0, 0),
        Ok(FrameCommands { upload_input: true, upload_overlay: false, read_back: true })
    );
}

#[test]
fn unsupported_residency_is_refused() {
    let b = cpu(250, 8, 1000, 1000);
    let w = WgpuWrapper::new(&params(250, 8, 1000, 0), &b, 0, true).unwrap();
    let sources = vec![
        BufferSource::Empty,
        BufferSource::OpenGL { texture: 1, context: 2 },
        BufferSource::DirectX { texture_ptr: 3 },
        BufferSource::OpenCL { texture_ptr: 4, queue_ptr: 5 },
    ];
    for s in sources {
        let d = BufferDescription { input_size: (250, 8, 1000), output_size: (250, 8, 1000), buffers: s };
        assert!(!is_buffer_supported(&d));
        assert_eq!(w.begin_frame(&d, 8, 0), Err(FrameError::UnsupportedResidency));
    }
    let v = BufferDescription {
        input_size: (250, 8, 1000),
        output_size: (250, 8, 1000),
        buffers: BufferSource::Vulkan { image: 9 },
    };
    assert!(is_buffer_supported(&v));
    assert!(is_buffer_supported(&b));
    assert_eq!(
        w.begin_frame(&v, 8, 0),
        Ok(FrameCommands { upload_input: false, upload_overlay: false, read_back: false })
    );
}

#[test]
fn finish_frame_fills_output_or_leaves_it() {
    let b = cpu(250, 4, 1000, 1000);
    let w = WgpuWrapper::new(&params(250, 4, 1000, 0), &b, 0, true).unwrap();
    let mut output = vec![7u8; 4000];
    assert!(!w.finish_frame(&mut output, None));
    assert_eq!(output, vec![7u8; 4000]);
    let short = vec![1u8; 4095];
    assert!(!w.finish_frame(&mut output, Some(&short)));
    assert_eq!(output, vec![7u8; 4000]);
    let mut staging = vec![0xFFu8; 4096];
    for r in 0..4 {
        for c in 0..1000 {
            staging[r * 1024 + c] = (r + c % 100) as u8;
        }
    }
    assert!(w.finish_frame(&mut output, Some(&staging)));
    assert!(!output.contains(&0xFF));
    assert_eq!(output[1000], 1);
    assert_eq!(output[3999], 3 + 99);
}

#[test]
fn finish_frame_unpadded_copies_staging() {
    let b = cpu(64, 4, 256, 256);
    let w = WgpuWrapper::new(&params(64, 4, 256, 0), &b, 0, true).unwrap();
    let staging: Vec<u8> = (0..1024u32).map(|x| (x % 253) as u8).collect();
    let mut output = vec![0u8; 1024];
    assert!(w.finish_frame(&mut output, Some(&staging)));
    assert_eq!(output, staging);
}

const TEMPLATE: &str = "LENS_MODEL_FUNCTIONS;\nvar t: SCALAR; let s = SCALAR(bg_scaler);\nif (params.interpolation == 1u) {}\nif (bool(params.flags & 8)) { draw(); }";

#[test]
fn kernel_assembly_substitutes_everything() {
    let k = assemble_kernel(TEMPLATE, "fn a() {}\n", None, "f32", "1.000000", 4, false);
    assert_eq!(
        k,
        "fn a() {}\nfn digital_undistort_point(uv: vec2<f32>) -> vec2<f32> { return uv; }\nfn digital_distort_point(uv: vec2<f32>) -> vec2<f32> { return uv; }\nvar t: f32; let s = f32(1.000000);\nif (4u == 1u) {}\nif (false) { draw(); }"
    );
    let k = assemble_kernel(TEMPLATE, "M;", Some("D;"), "u32", "255.000000", 0, true);
    assert_eq!(
        k,
        "M;D;\nvar t: u32; let s = u32(255.000000);\nif (0u == 1u) {}\nif (bool(params.flags & 8)) { draw(); }"
    );
}

#[test]
fn kernel_assembly_is_deterministic() {
    let a = assemble_kernel(TEMPLATE, "fn m() {}", Some("fn d() {}"), "f32", "0.500000", 2, true);
    let b = assemble_kernel(TEMPLATE, "fn m() {}", Some("fn d() {}"), "f32", "0.500000", 2, true);
    assert_eq!(a.as_bytes(), b.as_bytes());
    let c = assemble_kernel(TEMPLATE, "fn m() {}", None, "f32", "0.500000", 2, false);
    let d = assemble_kernel(TEMPLATE, "fn m() {}", None, "f32", "0.500000", 2, false);
    assert_eq!(c, d);
}

#[test]
fn registry_lists_and_selects() {
    let mut reg = AdapterRegistry::new();
    let names = WgpuWrapper::list_devices(
        &mut reg,
        vec![info("GPU A", "Vulkan", DeviceType::DiscreteGpu), info("llvmpipe", "Gl", DeviceType::Cpu)],
    );
    assert_eq!(names, vec!["GPU A (Vulkan)".to_string(), "llvmpipe (Gl)".to_string()]);
    assert_eq!(WgpuWrapper::get_info(&reg), None);
    let b = cpu(10, 4, 40, 40);
    assert_eq!(WgpuWrapper::set_device(&mut reg, 2, &b), None);
    assert_eq!(WgpuWrapper::get_info(&reg), None);
    assert_eq!(WgpuWrapper::set_device(&mut reg, 1, &b), Some(()));
    assert_eq!(WgpuWrapper::get_info(&reg), Some("llvmpipe (Gl)".to_string()));
}

#[test]
fn initialize_context_rejects_cpu_adapters() {
    let mut reg = AdapterRegistry::new();
    assert_eq!(WgpuWrapper::initialize_context(&mut reg, None), None);
    assert_eq!(WgpuWrapper::initialize_context(&mut reg, Some(info("llvmpipe", "Vulkan", DeviceType::Cpu))), None);
    assert_eq!(WgpuWrapper::get_info(&reg), None);
    let r = WgpuWrapper::initialize_context(&mut reg, Some(info("GPU B", "Metal", DeviceType::IntegratedGpu)));
    assert_eq!(r, Some(("GPU B".to_string(), "[wgpu] GPU B (Metal)".to_string())));
    assert_eq!(WgpuWrapper::get_info(&reg), Some("GPU B (Metal)".to_string()));
}

#[test]
fn audio_timestamps_rebase_on_first() {
    let mut first = None;
    assert_eq!(relative_timestamp(&mut first, None), None);
    assert_eq!(first, None);
    assert_eq!(relative_timestamp(&mut first, Some(1000)), Some(0));
    assert_eq!(first, Some(1000));
    assert_eq!(relative_timestamp(&mut first, Some(1500)), Some(500));
    assert_eq!(relative_timestamp(&mut first, Some(900)), None);
    assert_eq!(relative_timestamp(&mut first, None), None);
    let mut neg = Some(-10);
    assert_eq!(relative_timestamp(&mut neg, Some(i64::MAX)), None);
    assert_eq!(relative_timestamp(&mut neg, Some(i64::MAX - 10)), Some(i64::MAX));
}

#[test]
fn kernel_params_bytes_are_little_endian_fields() {
    let p = KernelParams {
        width: 1,
        height: 256,
        stride: -1,
        output_width: 0x01020304,
        output_height: 4,
        output_stride: 5,
        interpolation: 6,
        flags: i32::MIN,
    };
    let b = p.to_bytes();
    assert_eq!(b.len(), 32);
    assert_eq!(&b[0..4], &[1, 0, 0, 0]);
    assert_eq!(&b[4..8], &[0, 1, 0, 0]);
    assert_eq!(&b[8..12], &[255, 255, 255, 255]);
    assert_eq!(&b[12..16], &[4, 3, 2, 1]);
    assert_eq!(&b[28..32], &[0, 0, 0, 128]);
}
