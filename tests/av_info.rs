use libretro_rs::av_info::{DEFAULT_FPS_BITS, DEFAULT_SAMPLE_RATE_BITS};
use libretro_rs::{GameGeometry, RetroSystemInfo, SystemAVInfo, SystemTiming};

#[test]
fn fixed_geometry_uses_one_size() {
    let g = GameGeometry::fixed(320, 240);
    assert_eq!(g.base_width(), 320);
    assert_eq!(g.base_height(), 240);
    assert_eq!(g.max_width(), 320);
    assert_eq!(g.max_height(), 240);
    assert_eq!(g.aspect_ratio_bits(), 0);
}

#[test]
fn variable_geometry_uses_range_bounds() {
    let g = GameGeometry::variable(256..=512, 224..=448);
    assert_eq!(g.base_width(), 256);
    assert_eq!(g.max_width(), 512);
    assert_eq!(g.base_height(), 224);
    assert_eq!(g.max_height(), 448);
    assert_eq!(f32::from_bits(g.aspect_ratio_bits()), 0.0);
}

#[test]
fn geometry_keeps_aspect_ratio_bits() {
    let bits = (4.0f32 / 3.0).to_bits();
    let g = GameGeometry::new(320..=640, 240..=480, bits);
    assert_eq!(f32::from_bits(g.aspect_ratio_bits()), 4.0 / 3.0);
    assert_eq!(g.base_width(), 320);
    assert_eq!(g.max_height(), 480);
}

#[test]
fn default_timing_is_60_fps_at_44100_hz() {
    let t = SystemTiming::default();
    assert_eq!(f64::from_bits(t.fps_bits()), 60.0);
    assert_eq!(f64::from_bits(t.sample_rate_bits()), 44_100.0);
    assert_eq!(DEFAULT_FPS_BITS, 60.0f64.to_bits());
    assert_eq!(DEFAULT_SAMPLE_RATE_BITS, 44_100.0f64.to_bits());
}

#[test]
fn av_info_holds_geometry_and_timing() {
    let g = GameGeometry::fixed(160, 144);
    let t = SystemTiming::new(59.73f64.to_bits(), 32_768.0f64.to_bits());
    let av = SystemAVInfo::new(g, t);
    assert_eq!(av.geometry(), g);
    assert_eq!(av.timing(), t);
    assert_eq!(f64::from_bits(av.timing().fps_bits()), 59.73);
    let d = SystemAVInfo::default_timings(g);
    assert_eq!(d.timing(), SystemTiming::default());
}

#[test]
fn system_info_defaults() {
    let info = RetroSystemInfo::new("Example", "1.0");
    assert_eq!(info.name, "Example");
    assert_eq!(info.version, "1.0");
    assert_eq!(info.valid_extensions, None);
    assert!(!info.block_extract);
    assert!(!info.need_full_path);
}

#[test]
fn valid_extensions_are_joined_with_bars() {
    let info = RetroSystemInfo::new("Example", "1.0").with_valid_extensions(&["nes", "fds", "unf"]);
    assert_eq!(info.valid_extensions.as_deref(), Some("nes|fds|unf"));
    let one = RetroSystemInfo::new("Example", "1.0").with_valid_extensions(&["gb"]);
    assert_eq!(one.valid_extensions.as_deref(), Some("gb"));
}

#[test]
fn empty_extension_list_declares_none() {
    let info = RetroSystemInfo::new("Example", "1.0").with_valid_extensions(&[]);
    assert_eq!(info.valid_extensions, None);
}

#[test]
fn system_info_builders_set_flags() {
    let info = RetroSystemInfo::new("Example", "2.1").with_block_extract().with_need_full_path();
    assert!(info.block_extract);
    assert!(info.need_full_path);
    assert_eq!(info.name, "Example");
    assert_eq!(info.version, "2.1");
}
