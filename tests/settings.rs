use odysseus::settings::{PixelSize, SurfaceSettings};

fn initial() -> SurfaceSettings {
    SurfaceSettings::new(
        PixelSize::new(800, 600),
        wgpu::TextureFormat::Bgra8UnormSrgb,
        wgpu::PresentMode::Fifo,
        wgpu::CompositeAlphaMode::Opaque,
    )
}

fn assert_modes_kept(s: &SurfaceSettings) {
    assert_eq!(s.format, wgpu::TextureFormat::Bgra8UnormSrgb);
    assert_eq!(s.present_mode, wgpu::PresentMode::Fifo);
    assert_eq!(s.alpha_mode, wgpu::CompositeAlphaMode::Opaque);
}

#[test]
fn new_settings_hold_given_values() {
    let s = initial();
    assert_eq!(s.width, 800);
    assert_eq!(s.height, 600);
    assert_modes_kept(&s);
}

#[test]
fn pixel_size_holds_given_values() {
    let size = PixelSize::new(3, 4);
    assert_eq!(size.width, 3);
    assert_eq!(size.height, 4);
}

#[test]
fn resize_twice_same_as_once() {
    let mut once = initial();
    once.set_size(PixelSize::new(1024, 768));
    let mut twice = initial();
    twice.set_size(PixelSize::new(1024, 768));
    twice.set_size(PixelSize::new(1024, 768));
    assert_eq!((once.width, once.height), (1024, 768));
    assert_eq!((twice.width, twice.height), (once.width, once.height));
    assert_modes_kept(&twice);
}

#[test]
fn resize_sequence_keeps_modes_and_last_size() {
    let mut s = initial();
    let sizes = [(1, 1), (1920, 1080), (0, 0), (640, 480), (u32::MAX, 7)];
    for (w, h) in sizes {
        s.set_size(PixelSize::new(w, h));
        assert_eq!((s.width, s.height), (w, h));
        assert_modes_kept(&s);
    }
    assert_eq!((s.width, s.height), (u32::MAX, 7));
}
