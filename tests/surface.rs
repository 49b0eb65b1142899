use pawo::config::{preferred_format_index, select_format, InitError, SurfaceConfig, MAX_FRAME_LATENCY};
use pawo::gpu::{adapter_request, supports_config, SurfaceCaps, DEVICE_LABEL};
use wgpu::{CompositeAlphaMode, PowerPreference, PresentMode, TextureFormat, TextureUsages};

fn reported_formats() -> Vec<TextureFormat> {
    vec![TextureFormat::Bgra8Unorm, TextureFormat::Bgra8UnormSrgb, TextureFormat::Rgba8UnormSrgb]
}

fn config(width: u32, height: u32) -> SurfaceConfig {
    SurfaceConfig::new(
        &reported_formats(),
        &vec![PresentMode::Fifo, PresentMode::Mailbox],
        &vec![CompositeAlphaMode::Opaque, CompositeAlphaMode::PreMultiplied],
        width,
        height,
        u32::MAX,
    )
    .unwrap()
}

#[test]
fn preferred_index_is_first_srgb() {
    assert_eq!(preferred_format_index(&vec![false, true, true]), Some(1));
    assert_eq!(preferred_format_index(&vec![true]), Some(0));
    assert_eq!(preferred_format_index(&vec![false, false, false, true]), Some(3));
}

#[test]
fn preferred_index_falls_back_to_first() {
    assert_eq!(preferred_format_index(&vec![false, false]), Some(0));
    assert_eq!(preferred_format_index(&vec![]), None);
}

#[test]
fn select_format_prefers_srgb() {
    assert_eq!(select_format(&reported_formats()), Some(TextureFormat::Bgra8UnormSrgb));
}

#[test]
fn select_format_without_srgb_takes_first() {
    let formats = vec![TextureFormat::Rgba16Float, TextureFormat::Bgra8Unorm];
    assert_eq!(select_format(&formats), Some(TextureFormat::Rgba16Float));
    assert_eq!(select_format(&vec![]), None);
}

#[test]
fn select_format_is_deterministic() {
    let formats = vec![TextureFormat::Rgba8Unorm, TextureFormat::Rgba8UnormSrgb];
    let first = select_format(&formats);
    for _ in 0..5 {
        assert_eq!(select_format(&formats), first);
    }
    assert_eq!(first, Some(TextureFormat::Rgba8UnormSrgb));
}

#[test]
fn initial_config_has_window_size() {
    let c = config(128, 128);
    assert_eq!(c.width, 128);
    assert_eq!(c.height, 128);
    assert_eq!(c.format, TextureFormat::Bgra8UnormSrgb);
    assert_eq!(c.present_mode, PresentMode::Fifo);
    assert_eq!(c.alpha_mode, CompositeAlphaMode::Opaque);
    assert_eq!(c.usage, TextureUsages::RENDER_ATTACHMENT.bits());
    assert!(c.view_formats.is_empty());
    assert_eq!(c.desired_maximum_frame_latency, 2);
    assert_eq!(MAX_FRAME_LATENCY, 2);
}

#[test]
fn config_rejects_zero_size() {
    let modes = vec![PresentMode::Fifo];
    let alpha = vec![CompositeAlphaMode::Opaque];
    let r = SurfaceConfig::new(&reported_formats(), &modes, &alpha, 0, 600, 8192);
    assert_eq!(r.err(), Some(InitError::InvalidSize));
    let r = SurfaceConfig::new(&reported_formats(), &modes, &alpha, 800, 0, 8192);
    assert_eq!(r.err(), Some(InitError::InvalidSize));
}

#[test]
fn config_needs_reported_capabilities() {
    let modes = vec![PresentMode::Fifo];
    let alpha = vec![CompositeAlphaMode::Opaque];
    assert_eq!(SurfaceConfig::new(&vec![], &modes, &alpha, 10, 10, 8192).err(), Some(InitError::Unsupported));
    assert_eq!(
        SurfaceConfig::new(&reported_formats(), &vec![], &alpha, 10, 10, 8192).err(),
        Some(InitError::Unsupported)
    );
    assert_eq!(
        SurfaceConfig::new(&reported_formats(), &modes, &vec![], 10, 10, 8192).err(),
        Some(InitError::Unsupported)
    );
}

#[test]
fn resize_applies_new_size() {
    let mut c = config(128, 128);
    assert!(c.resize(800, 600));
    assert_eq!((c.width, c.height), (800, 600));
    assert_eq!(c.format, TextureFormat::Bgra8UnormSrgb);
    assert_eq!(c.desired_maximum_frame_latency, 2);
}

#[test]
fn resize_to_zero_keeps_config() {
    let mut c = config(128, 128);
    assert!(c.resize(800, 600));
    assert!(!c.resize(0, 0));
    assert_eq!((c.width, c.height), (800, 600));
    assert!(!c.resize(0, 480));
    assert!(!c.resize(640, 0));
    assert_eq!((c.width, c.height), (800, 600));
}

#[test]
fn resize_largest_size() {
    let mut c = config(1, 1);
    assert!(c.resize(u32::MAX, u32::MAX));
    assert_eq!((c.width, c.height), (u32::MAX, u32::MAX));
}

#[test]
fn adapter_request_has_no_fallback() {
    let r = adapter_request();
    assert_eq!(r.power_preference, PowerPreference::default());
    assert!(!r.force_fallback_adapter);
    assert_eq!(DEVICE_LABEL, "WGPU device");
}

#[test]
fn config_rejects_size_above_device_limit() {
    let modes = vec![PresentMode::Fifo];
    let alpha = vec![CompositeAlphaMode::Opaque];
    let r = SurfaceConfig::new(&reported_formats(), &modes, &alpha, 4097, 600, 4096);
    assert_eq!(r.err(), Some(InitError::TooLarge));
    let r = SurfaceConfig::new(&reported_formats(), &modes, &alpha, 800, 4097, 4096);
    assert_eq!(r.err(), Some(InitError::TooLarge));
    let c = SurfaceConfig::new(&reported_formats(), &modes, &alpha, 4096, 4096, 4096).unwrap();
    assert_eq!((c.width, c.height), (4096, 4096));
}

#[test]
fn supports_config_checks_every_mode() {
    let c = config(128, 128);
    let caps = SurfaceCaps {
        formats: reported_formats(),
        present_modes: vec![PresentMode::Fifo],
        alpha_modes: vec![CompositeAlphaMode::Opaque],
    };
    assert!(supports_config(&caps, &c));
    let no_format = SurfaceCaps {
        formats: vec![TextureFormat::Rgba8Unorm],
        present_modes: vec![PresentMode::Fifo],
        alpha_modes: vec![CompositeAlphaMode::Opaque],
    };
    assert!(!supports_config(&no_format, &c));
    let no_mode = SurfaceCaps {
        formats: reported_formats(),
        present_modes: vec![PresentMode::Mailbox],
        alpha_modes: vec![CompositeAlphaMode::Opaque],
    };
    assert!(!supports_config(&no_mode, &c));
    let no_alpha = SurfaceCaps {
        formats: reported_formats(),
        present_modes: vec![PresentMode::Fifo],
        alpha_modes: vec![CompositeAlphaMode::PreMultiplied],
    };
    assert!(!supports_config(&no_alpha, &c));
}
