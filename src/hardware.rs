//! Hardware property spoofing: values from a small anonymity set, and
//! device APIs that are never available.

use crate::random::index_below_from;
use crate::text::str_views;
use rand_chacha::ChaCha20Rng;
use vstd::prelude::*;

verus! {

/// Hardware profile with spoofed values.
#[derive(Debug, Clone, Copy, PartialEq, Eq, Structural)]
pub struct HardwareProfile {
    /// Number of logical CPU cores
    pub hardware_concurrency: u8,
    /// Device memory in GB
    pub device_memory: u8,
    /// Max touch points
    pub max_touch_points: u8,
}

/// The profiles of common configurations, in order.
pub open spec fn hardware_profiles() -> Seq<HardwareProfile> {
    seq![
        HardwareProfile { hardware_concurrency: 4, device_memory: 8, max_touch_points: 0 },
        HardwareProfile { hardware_concurrency: 8, device_memory: 8, max_touch_points: 0 },
        HardwareProfile { hardware_concurrency: 8, device_memory: 16, max_touch_points: 0 },
        HardwareProfile { hardware_concurrency: 2, device_memory: 4, max_touch_points: 0 },
    ]
}

impl HardwareProfile {
    /// Pre-defined hardware profiles representing common configurations.
    pub fn profiles() -> (r: Vec<HardwareProfile>)
        ensures
            r@ == hardware_profiles(),
    {
        let r = vec![
            HardwareProfile { hardware_concurrency: 4, device_memory: 8, max_touch_points: 0 },
            HardwareProfile { hardware_concurrency: 8, device_memory: 8, max_touch_points: 0 },
            HardwareProfile { hardware_concurrency: 8, device_memory: 16, max_touch_points: 0 },
            HardwareProfile { hardware_concurrency: 2, device_memory: 4, max_touch_points: 0 },
        ];
        assert(r@ =~= hardware_profiles());
        r
    }

    /// Select a random hardware profile.
    pub fn random(rng: &mut ChaCha20Rng) -> (r: Self)
        ensures
            hardware_profiles().contains(r),
    {
        let profiles = Self::profiles();
        let idx = index_below_from(rng, profiles.len());
        let r = profiles[idx];
        assert(hardware_profiles()[idx as int] == r);
        r
    }

    /// Get the default profile.
    pub fn default_profile() -> (r: Self)
        ensures
            r == hardware_profiles()[0],
    {
        HardwareProfile { hardware_concurrency: 4, device_memory: 8, max_touch_points: 0 }
    }
}

/// Hardware defense configuration.
#[derive(Debug, Clone)]
pub struct HardwareDefense {
    /// Selected hardware profile
    profile: HardwareProfile,
}

/// All hardware properties exposed to websites.
#[derive(Debug, Clone)]
pub struct HardwareProperties {
    /// Navigator.hardwareConcurrency
    pub hardware_concurrency: u8,
    /// Navigator.deviceMemory
    pub device_memory: u8,
    /// Navigator.maxTouchPoints
    pub max_touch_points: u8,
    /// Bluetooth API available
    pub bluetooth_available: bool,
    /// USB API available
    pub usb_available: bool,
    /// NFC API available
    pub nfc_available: bool,
    /// MIDI API available
    pub midi_available: bool,
    /// HID API available
    pub hid_available: bool,
    /// Serial API available
    pub serial_available: bool,
    /// Battery API available
    pub battery_available: bool,
    /// Geolocation available
    pub geolocation_available: bool,
    /// Accelerometer available
    pub accelerometer_available: bool,
    /// Gyroscope available
    pub gyroscope_available: bool,
    /// Magnetometer available
    pub magnetometer_available: bool,
    /// Ambient light sensor available
    pub ambient_light_available: bool,
}

impl HardwareDefense {
    /// The profile reported.
    pub closed spec fn profile(&self) -> HardwareProfile {
        self.profile
    }

    /// Create a new hardware defense.
    pub fn new(profile: HardwareProfile) -> (r: Self)
        ensures
            r.profile() == profile,
    {
        HardwareDefense { profile }
    }

    /// Create with default profile.
    pub fn default_defense() -> (r: Self)
        ensures
            r.profile() == hardware_profiles()[0],
    {
        HardwareDefense { profile: HardwareProfile::default_profile() }
    }

    /// Get spoofed hardware concurrency.
    pub fn hardware_concurrency(&self) -> (r: u8)
        ensures
            r == self.profile().hardware_concurrency,
    {
        self.profile.hardware_concurrency
    }

    /// Get spoofed device memory.
    pub fn device_memory(&self) -> (r: u8)
        ensures
            r == self.profile().device_memory,
    {
        self.profile.device_memory
    }

    /// Get max touch points (0 = no touch).
    pub fn max_touch_points(&self) -> (r: u8)
        ensures
            r == self.profile().max_touch_points,
    {
        self.profile.max_touch_points
    }

    /// Get all hardware properties: the profile's values, and no device API
    /// or sensor available.
    pub fn get_properties(&self) -> (r: HardwareProperties)
        ensures
            r.hardware_concurrency == self.profile().hardware_concurrency,
            r.device_memory == self.profile().device_memory,
            r.max_touch_points == self.profile().max_touch_points,
            !r.bluetooth_available && !r.usb_available && !r.nfc_available && !r.midi_available,
            !r.hid_available && !r.serial_available && !r.battery_available,
            !r.geolocation_available && !r.accelerometer_available && !r.gyroscope_available,
            !r.magnetometer_available && !r.ambient_light_available,
    {
        HardwareProperties {
            hardware_concurrency: self.hardware_concurrency(),
            device_memory: self.device_memory(),
            max_touch_points: self.max_touch_points(),
            bluetooth_available: false,
            usb_available: false,
            nfc_available: false,
            midi_available: false,
            hid_available: false,
            serial_available: false,
            battery_available: false,
            geolocation_available: false,
            accelerometer_available: false,
            gyroscope_available: false,
            magnetometer_available: false,
            ambient_light_available: false,
        }
    }
}

impl Default for HardwareDefense {
    fn default() -> (r: Self) {
        Self::default_defense()
    }
}

/// APIs that are completely blocked (undefined for pages).
pub fn blocked_hardware_apis() -> (r: Vec<&'static str>)
    ensures
        str_views(r@) == blocked_hardware_api_names(),
{
    let r = vec![
        "navigator.bluetooth",
        "navigator.usb",
        "navigator.nfc",
        "navigator.hid",
        "navigator.serial",
        "navigator.requestMIDIAccess",
        "navigator.getBattery",
        "navigator.getGamepads",
        "navigator.xr",
        "navigator.keyboard",
        "navigator.wakeLock",
        "navigator.virtualKeyboard",
        "Accelerometer",
        "Gyroscope",
        "Magnetometer",
        "AmbientLightSensor",
        "DeviceMotionEvent",
        "DeviceOrientationEvent",
    ];
    assert(str_views(r@) =~= blocked_hardware_api_names());
    r
}

/// The device APIs that pages never see.
pub open spec fn blocked_hardware_api_names() -> Seq<Seq<char>> {
    seq![
        "navigator.bluetooth"@,
        "navigator.usb"@,
        "navigator.nfc"@,
        "navigator.hid"@,
        "navigator.serial"@,
        "navigator.requestMIDIAccess"@,
        "navigator.getBattery"@,
        "navigator.getGamepads"@,
        "navigator.xr"@,
        "navigator.keyboard"@,
        "navigator.wakeLock"@,
        "navigator.virtualKeyboard"@,
        "Accelerometer"@,
        "Gyroscope"@,
        "Magnetometer"@,
        "AmbientLightSensor"@,
        "DeviceMotionEvent"@,
        "DeviceOrientationEvent"@,
    ]
}

} // verus!
