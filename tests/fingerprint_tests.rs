use forloop::audio::AudioDefense;
use forloop::fingerprint::{FingerprintDefense, SyntheticIdentity};
use forloop::fonts::{blocked_font_apis, FontDefense};
use forloop::hardware::{blocked_hardware_apis, HardwareDefense, HardwareProfile};
use forloop::navigator::{
    credentials_available, get_media_devices, get_permission_state, GeolocationDefense,
    NavigatorDefense,
};
use forloop::screen::{ScreenBucket, ScreenDefense};
use forloop::timing::{timing_apis_to_block, timing_apis_to_fuzz, TimingDefense};
use forloop::webgl::WebGLDefense;

#[test]
fn test_should_apply_noise() {
    assert!(AudioDefense::should_apply_noise("getFloatFrequencyData"));
    assert!(!AudioDefense::should_apply_noise("play"));
}

#[test]
fn test_allowed_fonts() {
    let defense = FontDefense::new();

    assert!(defense.is_font_allowed("Arial"));
    assert!(defense.is_font_allowed("arial"));
    assert!(defense.is_font_allowed(" Arial "));
    assert!(!defense.is_font_allowed("Comic Sans MS"));
    assert!(!defense.is_font_allowed("CustomFont"));
}

#[test]
fn test_filter_fonts() {
    let defense = FontDefense::new();
    let fonts = vec![
        "Arial".to_string(),
        "Comic Sans MS".to_string(),
        "Verdana".to_string(),
    ];

    let filtered = defense.filter_fonts(&fonts);
    assert_eq!(filtered, vec!["Arial", "Verdana"]);
}

#[test]
fn test_sanitize_font_family() {
    let defense = FontDefense::new();

    assert_eq!(
        defense.sanitize_font_family("Arial, 'Comic Sans MS', sans-serif"),
        "Arial, sans-serif"
    );

    assert_eq!(
        defense.sanitize_font_family("'Unknown Font', 'Another Unknown'"),
        "sans-serif"
    );
}

#[test]
fn sanitize_font_family_keeps_quotes_and_handles_edges() {
    let defense = FontDefense::default();
    assert_eq!(defense.sanitize_font_family("\"Times New Roman\",,GEORGIA "), "\"Times New Roman\", GEORGIA");
    assert_eq!(defense.sanitize_font_family(""), "sans-serif");
    assert_eq!(defense.allowed_fonts().len(), 14);
    assert_eq!(blocked_font_apis().len(), 6);
}

#[test]
fn hardware_test_profile_selection() {
    let profile = HardwareProfile::default_profile();
    assert_eq!(profile.hardware_concurrency, 4);
    assert_eq!(profile.device_memory, 8);
}

#[test]
fn test_defense() {
    let defense = HardwareDefense::default_defense();
    assert_eq!(defense.hardware_concurrency(), 4);

    let props = defense.get_properties();
    assert!(!props.bluetooth_available);
    assert!(!props.battery_available);
}

#[test]
fn test_all_sensors_blocked() {
    let defense = HardwareDefense::default_defense();
    let props = defense.get_properties();

    assert!(!props.accelerometer_available);
    assert!(!props.gyroscope_available);
    assert!(!props.magnetometer_available);
    assert!(!props.ambient_light_available);
}

#[test]
fn hardware_apis_and_profiles() {
    assert_eq!(blocked_hardware_apis().len(), 18);
    assert_eq!(HardwareProfile::profiles().len(), 4);
    let d = HardwareDefense::new(HardwareProfile::profiles()[2]);
    assert_eq!(d.device_memory(), 16);
    assert_eq!(d.max_touch_points(), 0);
}

#[test]
fn test_identity_generation() {
    let id1 = SyntheticIdentity::generate();
    let id2 = SyntheticIdentity::generate();

    assert_ne!(id1.seed(), id2.seed());
}

#[test]
fn test_identity_reproducibility() {
    let seed = [42u8; 32];
    let id1 = SyntheticIdentity::from_seed(seed);
    let id2 = SyntheticIdentity::from_seed(seed);

    assert_eq!(id1.canvas_seed, id2.canvas_seed);
    assert_eq!(id1.timezone_offset, id2.timezone_offset);
    assert_eq!(id1.platform, id2.platform);
}

#[test]
fn identity_attributes_lie_in_their_sets() {
    for k in 0..20u8 {
        let id = SyntheticIdentity::from_seed([k; 32]);
        assert_eq!(id.seed(), &[k; 32]);
        assert!([-480, -420, -360, -300, -240, 0, 60, 120, 180].contains(&id.timezone_offset));
        assert!(["Win32", "Linux x86_64", "MacIntel"].contains(&id.platform.as_str()));
        assert!(ScreenBucket::buckets().contains(&id.screen_bucket));
        assert!(HardwareProfile::profiles().contains(&id.hardware));
    }
}

#[test]
fn test_defense_rotation() {
    let mut defense = FingerprintDefense::new();
    let seed1 = *defense.identity().seed();

    defense.rotate();
    let seed2 = *defense.identity().seed();

    assert_ne!(seed1, seed2);
}

#[test]
fn defense_with_identity_keeps_it() {
    let defense = FingerprintDefense::with_identity(SyntheticIdentity::from_seed([1; 32]));
    assert_eq!(defense.identity().seed(), &[1; 32]);
    let _ = FingerprintDefense::default();
}

#[test]
fn test_navigator_properties() {
    let defense = NavigatorDefense::new();
    let props = defense.get_properties();

    assert!(props.user_agent.contains("Firefox"));
    assert!(!props.cookie_enabled);
    assert!(!props.webdriver);
    assert_eq!(props.plugins_length, 0);
}

#[test]
fn navigator_identity_values() {
    let d = NavigatorDefense::with_identity("UA".to_string(), "MacIntel".to_string(), -300);
    let props = d.get_properties();
    assert_eq!(props.oscpu, "Intel Mac OS X 10.15");
    assert_eq!(props.languages, vec!["en-US", "en"]);
    assert_eq!(d.timezone_offset(), -300);
    assert_eq!(d.locale(), "en-US");
    assert_eq!(NavigatorDefense::default().get_oscpu(), "Windows NT 10.0; Win64; x64");
    assert!(get_media_devices().is_empty());
    assert!(!credentials_available());
}

#[test]
fn test_geolocation_fails() {
    assert!(GeolocationDefense::should_fail());
}

#[test]
fn test_permissions_denied() {
    assert_eq!(get_permission_state("camera"), "denied");
    assert_eq!(get_permission_state("microphone"), "denied");
    assert_eq!(get_permission_state("geolocation"), "denied");
}

#[test]
fn test_bucket_selection() {
    let bucket = ScreenBucket::nearest(1920, 1080);
    assert_eq!(bucket.width, 1920);
    assert_eq!(bucket.height, 1080);

    let bucket = ScreenBucket::nearest(1900, 1000);
    assert_eq!(bucket.width, 1920);
}

#[test]
fn nearest_bucket_prefers_the_first_of_equal_distance() {
    assert_eq!(ScreenBucket::nearest(1300, 800).width, 1280);
    assert_eq!(ScreenBucket::nearest(0, 0).width, 1280);
    assert_eq!(ScreenBucket::nearest(1403, 834).width, 1366);
    assert_eq!(ScreenBucket::nearest(u32::MAX, u32::MAX).width, 1920);
}

#[test]
fn test_screen_defense() {
    let defense = ScreenDefense::new(ScreenBucket::buckets()[0]);

    assert_eq!(defense.screen_width(), 1920);
    assert_eq!(defense.screen_height(), 1080);
    assert_eq!(defense.color_depth(), 24);
}

#[test]
fn test_avail_height_less_than_screen() {
    let defense = ScreenDefense::new(ScreenBucket::buckets()[0]);
    assert!(defense.avail_height() < defense.screen_height());
}

#[test]
fn screen_properties_follow_the_bucket() {
    let defense = ScreenDefense::new(ScreenBucket::buckets()[4]);
    let props = defense.get_screen_properties();
    assert_eq!((props.width, props.height, props.avail_height), (1280, 800, 760));
    assert_eq!(props.orientation_type, "landscape-primary");
    assert_eq!(defense.inner_height(), 700);
    assert_eq!(defense.device_pixel_ratio_value(), 2);
    let random = ScreenDefense::random();
    assert!(ScreenBucket::buckets().iter().any(|b| b.width == random.screen_width()));
}

#[test]
fn test_date_now_fuzzing() {
    let defense = TimingDefense::new(42);

    let actual = 1703412345678u64;
    let fuzzed = defense.fuzz_date_now(actual);

    assert_eq!(fuzzed % 100, fuzzed % 100);
    assert!(fuzzed >= (actual / 100) * 100);
    assert!(fuzzed <= (actual / 100) * 100 + defense.max_jitter_ms());
}

#[test]
fn test_deterministic_jitter() {
    let defense1 = TimingDefense::new(42);
    let defense2 = TimingDefense::new(42);

    assert_eq!(
        defense1.deterministic_jitter(1000),
        defense2.deterministic_jitter(1000)
    );

    let defense3 = TimingDefense::new(43);
    assert_ne!(
        defense1.deterministic_jitter(1000),
        defense3.deterministic_jitter(1000)
    );
}

#[test]
fn timer_delays_and_api_lists() {
    let defense = TimingDefense::new(7);
    assert_eq!(defense.minimum_timer_delay(), 4);
    let d = defense.fuzz_timer_delay(1);
    assert!((4..14).contains(&d));
    assert_eq!(d, 4 + defense.deterministic_jitter(4));
    assert_eq!(
        defense.fuzz_date_now(u64::MAX),
        18446744073709551600 + defense.deterministic_jitter(u64::MAX)
    );
    assert_eq!(timing_apis_to_fuzz().len(), 9);
    assert_eq!(timing_apis_to_block()[0], "SharedArrayBuffer");
}

#[test]
fn webgl_test_profile_selection() {
    let defense1 = WebGLDefense::new(0);
    let _defense2 = WebGLDefense::new(1);
    let defense3 = WebGLDefense::new(3);

    assert_eq!(defense1.renderer(), defense3.renderer());
}

#[test]
fn webgl_profiles_by_seed() {
    let d = WebGLDefense::new(4);
    assert_eq!(d.unmasked_vendor(), "Google Inc. (NVIDIA)");
    assert_eq!(d.vendor(), "WebKit");
    assert_eq!(d.limits().1, (32767, 32767));
    assert_eq!(WebGLDefense::new(2).unmasked_renderer(), "Mesa DRI Intel(R) UHD Graphics 620 (KBL GT2)");
    assert_eq!(d.supported_extensions().len(), 6);
}

#[test]
fn test_pixel_noise_deterministic() {
    let defense = WebGLDefense::new(42);

    let mut data1 = vec![128u8; 64];
    let mut data2 = vec![128u8; 64];

    defense.apply_pixel_noise(&mut data1);
    defense.apply_pixel_noise(&mut data2);

    assert_eq!(data1, data2);
}

#[test]
fn pixel_noise_stays_within_one_step() {
    let defense = WebGLDefense::new(9);
    let mut data = vec![0u8, 255, 100, 100, 100, 100, 100, 100];
    defense.apply_pixel_noise(&mut data);
    assert!(data[0] <= 2);
    assert!(data[1] >= 254);
    for b in &data[2..] {
        assert!((99..=102).contains(b));
    }
    assert!(data[2..].iter().any(|b| *b != 100));
    assert_eq!(AudioDefense::new(5).seed(), 5);
}

#[test]
fn rotation_uses_the_given_seed() {
    let mut defense = FingerprintDefense::new();
    defense.rotate_with_seed([3; 32]);
    assert_eq!(defense.identity().seed(), &[3; 32]);
    let expected = SyntheticIdentity::from_seed([3; 32]);
    assert_eq!(defense.identity().canvas_seed, expected.canvas_seed);
    assert_eq!(defense.identity().platform, expected.platform);
}

#[test]
fn low_screens_keep_taskbar_values() {
    let bucket = ScreenBucket { width: 800, height: 50, color_depth: 24, device_pixel_ratio: 1 };
    let defense = ScreenDefense::new(bucket);
    assert_eq!(defense.avail_height(), 10);
    assert_eq!(defense.get_screen_properties().avail_height, 10);
}

#[test]
fn timer_delay_at_the_largest_request() {
    let defense = TimingDefense::new(1);
    let r = defense.fuzz_timer_delay(u64::MAX - 9);
    assert_eq!(r, u64::MAX - 9 + defense.deterministic_jitter(u64::MAX - 9));
}

#[test]
fn trimming_follows_unicode_white_space() {
    let defense = FontDefense::new();
    assert!(defense.is_font_allowed("\u{3000}\tVerdana\u{a0}\n"));
    assert!(!defense.is_font_allowed("Ver dana"));
}
