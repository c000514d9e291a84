use ganvas::error::{PresentError, ResizeError, SurfaceError};
use ganvas::surface::{
    check_size, kind_of, Backend, DrawSurface, PixelFormat, ReadBack, SurfaceKind,
    SurfaceOrigin, BYTES_PER_PIXEL, MAX_DIMENSION,
};
use ganvas::window::WindowWrapper;
use softbuffer::SoftBufferError;

fn backends() -> Vec<Backend> {
    vec![Backend::Cpu, Backend::Gl, Backend::Egl, Backend::Vulkan]
}

fn render_target() -> SurfaceKind {
    SurfaceKind::RenderTarget { budgeted: true, origin: SurfaceOrigin::TopLeft, mipmapped: false }
}

#[test]
fn wrap_has_no_surface() {
    for backend in backends() {
        let wrapper = WindowWrapper::wrap(backend);
        assert_eq!(wrapper.backend(), backend);
        assert_eq!(wrapper.surface(), Err(SurfaceError::NotReady));
        assert_eq!(wrapper.size(), (0, 0));
        assert_eq!(wrapper.present(), None);
        assert!(!wrapper.is_ready());
    }
}

#[test]
fn resize_gives_a_surface_of_that_size() {
    let mut wrapper = WindowWrapper::wrap(Backend::Cpu);
    assert!(wrapper.resize(640, 480, Ok(())).is_ok());
    let expected = DrawSurface {
        kind: SurfaceKind::Raster,
        format: PixelFormat::N32Premul,
        width: 640,
        height: 480,
    };
    assert_eq!(wrapper.surface(), Ok(&expected));
    assert_eq!(wrapper.size(), (640, 480));
    assert!(wrapper.is_ready());
}

#[test]
fn second_resize_replaces_the_surface() {
    for backend in backends() {
        let mut wrapper = WindowWrapper::wrap(backend);
        assert!(wrapper.resize(640, 480, Ok(())).is_ok());
        assert!(wrapper.resize(1920, 1080, Ok(())).is_ok());
        let surface = *wrapper.surface().unwrap();
        assert_eq!((surface.width, surface.height), (1920, 1080));
        assert_eq!(wrapper.size(), (1920, 1080));
        assert!(wrapper.resize(1, 1, Ok(())).is_ok());
        assert_eq!(wrapper.size(), (1, 1));
    }
}

#[test]
fn zero_width_is_refused() {
    for backend in backends() {
        let mut wrapper = WindowWrapper::wrap(backend);
        assert!(matches!(wrapper.resize(0, 480, Ok(())), Err(ResizeError::ZeroDimension)));
        assert_eq!(wrapper.surface(), Err(SurfaceError::NotReady));
        assert_eq!(wrapper.size(), (0, 0));
    }
}

#[test]
fn zero_height_is_refused() {
    for backend in backends() {
        let mut wrapper = WindowWrapper::wrap(backend);
        assert!(matches!(wrapper.resize(640, 0, Ok(())), Err(ResizeError::ZeroDimension)));
        assert!(matches!(wrapper.resize(0, 0, Ok(())), Err(ResizeError::ZeroDimension)));
        assert_eq!(wrapper.surface(), Err(SurfaceError::NotReady));
    }
}

#[test]
fn refused_resize_keeps_the_old_surface() {
    let mut wrapper = WindowWrapper::wrap(Backend::Vulkan);
    assert!(wrapper.resize(300, 200, Ok(())).is_ok());
    let before = *wrapper.surface().unwrap();
    assert!(matches!(wrapper.resize(0, 200, Ok(())), Err(ResizeError::ZeroDimension)));
    assert!(matches!(wrapper.resize(0x8000_0000, 200, Ok(())), Err(ResizeError::TooLarge)));
    assert!(matches!(
        wrapper.resize(400, 400, Err(SoftBufferError::Unimplemented)),
        Err(ResizeError::Framebuffer(SoftBufferError::Unimplemented))
    ));
    assert_eq!(wrapper.surface(), Ok(&before));
    assert_eq!(wrapper.size(), (300, 200));
}

#[test]
fn framebuffer_failure_is_handed_on() {
    let mut wrapper = WindowWrapper::wrap(Backend::Cpu);
    let result = wrapper.resize(640, 480, Err(SoftBufferError::IncompleteWindowHandle));
    assert!(matches!(
        result,
        Err(ResizeError::Framebuffer(SoftBufferError::IncompleteWindowHandle))
    ));
    assert_eq!(wrapper.surface(), Err(SurfaceError::NotReady));
}

#[test]
fn size_fault_comes_before_framebuffer_failure() {
    let mut wrapper = WindowWrapper::wrap(Backend::Egl);
    assert!(matches!(
        wrapper.resize(0, 480, Err(SoftBufferError::Unimplemented)),
        Err(ResizeError::ZeroDimension)
    ));
    assert!(matches!(
        wrapper.resize(u32::MAX, 480, Err(SoftBufferError::Unimplemented)),
        Err(ResizeError::TooLarge)
    ));
}

#[test]
fn zero_comes_before_too_large() {
    assert!(matches!(check_size(0, u32::MAX), Err(ResizeError::ZeroDimension)));
    assert!(matches!(check_size(u32::MAX, 0), Err(ResizeError::ZeroDimension)));
}

#[test]
fn check_size_limits() {
    assert!(check_size(1, 1).is_ok());
    assert!(check_size(MAX_DIMENSION, 1).is_ok());
    assert!(check_size(1, MAX_DIMENSION).is_ok());
    assert!(matches!(check_size(MAX_DIMENSION + 1, 1), Err(ResizeError::TooLarge)));
    assert!(matches!(check_size(1, MAX_DIMENSION + 1), Err(ResizeError::TooLarge)));
    assert!(matches!(check_size(u32::MAX, u32::MAX), Err(ResizeError::TooLarge)));
    let bytes = BYTES_PER_PIXEL as u128 * MAX_DIMENSION as u128 * MAX_DIMENSION as u128;
    let fits = bytes <= usize::MAX as u128;
    assert_eq!(check_size(MAX_DIMENSION, MAX_DIMENSION).is_ok(), fits);
}

#[test]
fn each_backend_allocates_its_kind() {
    assert_eq!(kind_of(Backend::Cpu), SurfaceKind::Raster);
    assert_eq!(kind_of(Backend::Gl), render_target());
    assert_eq!(kind_of(Backend::Egl), render_target());
    assert_eq!(kind_of(Backend::Vulkan), render_target());
    for backend in backends() {
        let wrapper = WindowWrapper::wrap(backend);
        let surface = wrapper.create_surface(800, 600).unwrap();
        assert_eq!(
            surface,
            DrawSurface {
                kind: kind_of(backend),
                format: PixelFormat::N32Premul,
                width: 800,
                height: 600
            }
        );
    }
}

#[test]
fn create_surface_refuses_bad_sizes() {
    let wrapper = WindowWrapper::wrap(Backend::Gl);
    assert!(matches!(wrapper.create_surface(0, 600), Err(ResizeError::ZeroDimension)));
    assert!(matches!(wrapper.create_surface(800, 0), Err(ResizeError::ZeroDimension)));
    assert!(matches!(wrapper.create_surface(800, 0x8000_0000), Err(ResizeError::TooLarge)));
    assert_eq!(wrapper.surface(), Err(SurfaceError::NotReady));
}

#[test]
fn present_reads_the_whole_surface() {
    let mut wrapper = WindowWrapper::wrap(Backend::Vulkan);
    assert!(wrapper.resize(640, 480, Ok(())).is_ok());
    let expected =
        ReadBack {
        format: PixelFormat::N32Premul,
        width: 640,
        height: 480,
        x: 0,
        y: 0,
        row_bytes: 2560,
        pixels: 307200,
    };
    assert_eq!(wrapper.present(), Some(expected));
    assert!(wrapper.resize(3, 5, Ok(())).is_ok());
    let expected = ReadBack {
        format: PixelFormat::N32Premul,
        width: 3,
        height: 5,
        x: 0,
        y: 0,
        row_bytes: 12,
        pixels: 15,
    };
    assert_eq!(wrapper.present(), Some(expected));
}

#[test]
fn read_back_rows_tile_the_framebuffer() {
    let mut wrapper = WindowWrapper::wrap(Backend::Cpu);
    assert!(wrapper.resize(7, 4, Ok(())).is_ok());
    let plan = wrapper.present().unwrap();
    let mut filled = vec![false; plan.pixels];
    for y in 0..plan.height as usize {
        for x in 0..plan.width as usize {
            let offset = y * plan.row_bytes + x * BYTES_PER_PIXEL;
            assert_eq!(offset % BYTES_PER_PIXEL, 0);
            let place = offset / BYTES_PER_PIXEL;
            assert!(!filled[place]);
            filled[place] = true;
        }
    }
    assert!(filled.iter().all(|f| *f));
}

#[test]
fn check_buffer_wants_one_pixel_each() {
    let plan = ReadBack {
        format: PixelFormat::N32Premul,
        width: 640,
        height: 480,
        x: 0,
        y: 0,
        row_bytes: 2560,
        pixels: 307200,
    };
    assert!(plan.check_buffer(Ok(307200)).is_ok());
    assert!(matches!(plan.check_buffer(Ok(307199)), Err(PresentError::SizeMismatch)));
    assert!(matches!(plan.check_buffer(Ok(0)), Err(PresentError::SizeMismatch)));
    assert!(matches!(
        plan.check_buffer(Err(SoftBufferError::Unimplemented)),
        Err(PresentError::Buffer(SoftBufferError::Unimplemented))
    ));
}

#[test]
fn present_result_reports_the_first_failure() {
    assert!(WindowWrapper::present_result(true, Ok(())).is_ok());
    assert!(matches!(WindowWrapper::present_result(false, Ok(())), Err(PresentError::ReadBack)));
    assert!(matches!(
        WindowWrapper::present_result(false, Err(SoftBufferError::Unimplemented)),
        Err(PresentError::ReadBack)
    ));
    assert!(matches!(
        WindowWrapper::present_result(true, Err(SoftBufferError::IncompleteDisplayHandle)),
        Err(PresentError::Submit(SoftBufferError::IncompleteDisplayHandle))
    ));
}

#[test]
fn solid_color_fills_the_framebuffer() {
    let mut wrapper = WindowWrapper::wrap(Backend::Cpu);
    assert!(wrapper.resize(5, 3, Ok(())).is_ok());
    let plan = wrapper.present().unwrap();
    let color: u32 = 0xff20_4060;
    let mut framebuffer = vec![0u32; plan.pixels];
    assert!(plan.check_buffer(Ok(framebuffer.len())).is_ok());
    {
        let bytes = bytemuck::cast_slice_mut::<u32, u8>(&mut framebuffer);
        assert_eq!(bytes.len(), plan.row_bytes * plan.height as usize);
        for y in 0..plan.height as usize {
            for x in 0..plan.width as usize {
                let at = y * plan.row_bytes + x * BYTES_PER_PIXEL;
                bytes[at..at + BYTES_PER_PIXEL].copy_from_slice(&color.to_ne_bytes());
            }
        }
    }
    assert!(framebuffer.iter().all(|pixel| *pixel == color));
}
