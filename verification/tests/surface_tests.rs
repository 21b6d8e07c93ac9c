use gpu_orchestration::surface::{
    initial_configuration, select_surface_format, AlphaMode, PixelFormat, PresentMode,
    PresentationSurface,
};

fn sample_surface() -> PresentationSurface {
    let format = PixelFormat { code: 7, srgb: true };
    PresentationSurface::new(initial_configuration(format, 800, 600))
}

#[test]
fn resize_with_zero_width_leaves_configuration_unchanged() {
    let mut surface = sample_surface();
    let before = surface.config;
    let reconfigure = surface.resize(0, 473);
    assert!(!reconfigure);
    assert_eq!(surface.config, before);
}

#[test]
fn resize_with_zero_height_leaves_configuration_unchanged() {
    let mut surface = sample_surface();
    let before = surface.config;
    let reconfigure = surface.resize(1024, 0);
    assert!(!reconfigure);
    assert_eq!(surface.config, before);
}

#[test]
fn resize_with_both_zero_leaves_configuration_unchanged() {
    let mut surface = sample_surface();
    let before = surface.config;
    let reconfigure = surface.resize(0, 0);
    assert!(!reconfigure);
    assert_eq!(surface.config, before);
}

#[test]
fn valid_resize_updates_exactly_the_dimensions() {
    let mut surface = sample_surface();
    let before = surface.config;
    let reconfigure = surface.resize(1920, 1080);
    assert!(reconfigure);
    assert_eq!(surface.config.width, 1920);
    assert_eq!(surface.config.height, 1080);
    assert_eq!(surface.config.format, before.format);
    assert_eq!(surface.config.present_mode, before.present_mode);
    assert_eq!(surface.config.alpha_mode, before.alpha_mode);
    assert_eq!(surface.config.max_queued_frames, before.max_queued_frames);
}

#[test]
fn smallest_valid_resize_is_accepted() {
    let mut surface = sample_surface();
    let reconfigure = surface.resize(1, 1);
    assert!(reconfigure);
    assert_eq!(surface.config.width, 1);
    assert_eq!(surface.config.height, 1);
}

#[test]
fn initial_configuration_uses_vsync_and_two_queued_frames() {
    let format = PixelFormat { code: 3, srgb: false };
    let config = initial_configuration(format, 640, 480);
    assert_eq!(config.format, format);
    assert_eq!(config.width, 640);
    assert_eq!(config.height, 480);
    assert_eq!(config.present_mode, PresentMode::AutoVsync);
    assert_eq!(config.alpha_mode, AlphaMode::Auto);
    assert_eq!(config.max_queued_frames, 2);
}

#[test]
fn first_srgb_format_is_preferred() {
    let formats = vec![
        PixelFormat { code: 1, srgb: false },
        PixelFormat { code: 2, srgb: true },
        PixelFormat { code: 3, srgb: true },
    ];
    assert_eq!(select_surface_format(&formats), PixelFormat { code: 2, srgb: true });
}

#[test]
fn first_format_is_the_fallback_without_srgb() {
    let formats = vec![
        PixelFormat { code: 9, srgb: false },
        PixelFormat { code: 4, srgb: false },
    ];
    assert_eq!(select_surface_format(&formats), PixelFormat { code: 9, srgb: false });
}
