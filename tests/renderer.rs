use odysseus::renderer::{
    adapter_or_fail, check_support, device_or_fail, select_alpha_mode, InitError, PresentError,
};
use odysseus::settings::{frame_clear_op, ClearColor, ClearOp, PixelSize, SurfaceSettings};

fn capabilities(alpha_modes: Vec<wgpu::CompositeAlphaMode>) -> wgpu::SurfaceCapabilities {
    wgpu::SurfaceCapabilities {
        formats: vec![wgpu::TextureFormat::Bgra8UnormSrgb],
        present_modes: vec![wgpu::PresentMode::Fifo],
        alpha_modes,
    }
}

#[test]
fn no_adapter_is_fatal() {
    assert!(matches!(adapter_or_fail(None), Err(InitError::NoAdapter)));
}

#[test]
fn refused_device_is_fatal() {
    assert!(matches!(device_or_fail(Err(wgpu::RequestDeviceError)), Err(InitError::DeviceRefused)));
}

#[test]
fn no_alpha_mode_is_fatal() {
    assert!(matches!(select_alpha_mode(&capabilities(vec![])), Err(InitError::NoAlphaMode)));
}

#[test]
fn first_alpha_mode_is_chosen() {
    let caps = capabilities(vec![
        wgpu::CompositeAlphaMode::PreMultiplied,
        wgpu::CompositeAlphaMode::Opaque,
    ]);
    assert_eq!(select_alpha_mode(&caps), Ok(wgpu::CompositeAlphaMode::PreMultiplied));
}

#[test]
fn surface_errors_map_one_to_one() {
    assert_eq!(PresentError::from_surface_error(wgpu::SurfaceError::Timeout), PresentError::Timeout);
    assert_eq!(PresentError::from_surface_error(wgpu::SurfaceError::Outdated), PresentError::Outdated);
    assert_eq!(PresentError::from_surface_error(wgpu::SurfaceError::Lost), PresentError::Lost);
    assert_eq!(
        PresentError::from_surface_error(wgpu::SurfaceError::OutOfMemory),
        PresentError::OutOfMemory
    );
}

fn settings(
    format: wgpu::TextureFormat,
    present_mode: wgpu::PresentMode,
    alpha_mode: wgpu::CompositeAlphaMode,
) -> SurfaceSettings {
    SurfaceSettings::new(PixelSize::new(640, 480), format, present_mode, alpha_mode)
}

fn supported() -> wgpu::SurfaceCapabilities {
    capabilities(vec![wgpu::CompositeAlphaMode::Opaque])
}

#[test]
fn supported_modes_pass() {
    let s = settings(
        wgpu::TextureFormat::Bgra8UnormSrgb,
        wgpu::PresentMode::Fifo,
        wgpu::CompositeAlphaMode::Opaque,
    );
    assert_eq!(check_support(&supported(), &s), Ok(()));
}

#[test]
fn unsupported_format_is_fatal() {
    let s = settings(
        wgpu::TextureFormat::Rgba8Unorm,
        wgpu::PresentMode::Mailbox,
        wgpu::CompositeAlphaMode::Inherit,
    );
    assert_eq!(check_support(&supported(), &s), Err(InitError::UnsupportedFormat));
}

#[test]
fn unsupported_present_mode_is_fatal() {
    let s = settings(
        wgpu::TextureFormat::Bgra8UnormSrgb,
        wgpu::PresentMode::Mailbox,
        wgpu::CompositeAlphaMode::Inherit,
    );
    assert_eq!(check_support(&supported(), &s), Err(InitError::UnsupportedPresentMode));
}

#[test]
fn unsupported_alpha_mode_is_fatal() {
    let s = settings(
        wgpu::TextureFormat::Bgra8UnormSrgb,
        wgpu::PresentMode::Fifo,
        wgpu::CompositeAlphaMode::Inherit,
    );
    assert_eq!(check_support(&supported(), &s), Err(InitError::UnsupportedAlphaMode));
}

#[test]
fn frames_are_cleared_to_opaque_blue_and_stored() {
    assert_eq!(frame_clear_op(), ClearOp { color: ClearColor::Blue, store: true });
}
