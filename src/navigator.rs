//! Navigator property spoofing: standardized, privacy-preserving values,
//! and device permissions that are always refused.

use crate::text::{owned, str_eq};
use vstd::prelude::*;

verus! {

/// Navigator defense configuration.
#[derive(Debug, Clone)]
pub struct NavigatorDefense {
    /// User agent string
    user_agent: String,
    /// Platform string
    platform: String,
    /// Timezone offset (minutes from UTC)
    timezone_offset: i32,
    /// Language
    language: String,
}

/// All navigator properties.
#[derive(Debug, Clone)]
pub struct NavigatorProperties {
    /// navigator.userAgent
    pub user_agent: String,
    /// navigator.platform
    pub platform: String,
    /// navigator.language
    pub language: String,
    /// navigator.languages
    pub languages: Vec<String>,
    /// navigator.appName
    pub app_name: String,
    /// navigator.appVersion
    pub app_version: String,
    /// navigator.appCodeName
    pub app_code_name: String,
    /// navigator.product
    pub product: String,
    /// navigator.productSub
    pub product_sub: String,
    /// navigator.vendor
    pub vendor: String,
    /// navigator.vendorSub
    pub vendor_sub: String,
    /// navigator.buildID
    pub build_id: String,
    /// navigator.oscpu
    pub oscpu: String,
    /// navigator.cookieEnabled
    pub cookie_enabled: bool,
    /// navigator.doNotTrack (None = not sent)
    pub do_not_track: Option<String>,
    /// navigator.pdfViewerEnabled
    pub pdf_viewer_enabled: bool,
    /// navigator.webdriver
    pub webdriver: bool,
    /// navigator.onLine
    pub online: bool,
    /// navigator.plugins.length
    pub plugins_length: usize,
    /// navigator.mimeTypes.length
    pub mime_types_length: usize,
}

/// The OS and CPU string reported for a platform.
pub open spec fn oscpu_of(platform: Seq<char>) -> Seq<char> {
    if platform == "Win32"@ {
        "Windows NT 10.0; Win64; x64"@
    } else if platform == "Linux x86_64"@ {
        "Linux x86_64"@
    } else if platform == "MacIntel"@ {
        "Intel Mac OS X 10.15"@
    } else {
        "Windows NT 10.0; Win64; x64"@
    }
}

impl NavigatorDefense {
    /// The user agent reported.
    pub closed spec fn user_agent_view(&self) -> Seq<char> {
        self.user_agent@
    }

    /// The platform reported.
    pub closed spec fn platform_view(&self) -> Seq<char> {
        self.platform@
    }

    /// The time zone offset reported.
    pub closed spec fn timezone_view(&self) -> i32 {
        self.timezone_offset
    }

    /// The language reported.
    pub closed spec fn language_view(&self) -> Seq<char> {
        self.language@
    }

    /// Create a new navigator defense with default values.
    pub fn new() -> (r: Self)
        ensures
            r.user_agent_view()
                == "Mozilla/5.0 (Windows NT 10.0; rv:115.0) Gecko/20100101 Firefox/115.0"@,
            r.platform_view() == "Win32"@,
            r.timezone_view() == 0,
            r.language_view() == "en-US"@,
    {
        NavigatorDefense {
            user_agent: owned("Mozilla/5.0 (Windows NT 10.0; rv:115.0) Gecko/20100101 Firefox/115.0"),
            platform: owned("Win32"),
            timezone_offset: 0,
            language: owned("en-US"),
        }
    }

    /// Create with specific values from a synthetic identity.
    pub fn with_identity(user_agent: String, platform: String, timezone_offset: i32) -> (r: Self)
        ensures
            r.user_agent_view() == user_agent@,
            r.platform_view() == platform@,
            r.timezone_view() == timezone_offset,
            r.language_view() == "en-US"@,
    {
        NavigatorDefense { user_agent, platform, timezone_offset, language: owned("en-US") }
    }

    /// Get all navigator properties: the identity's user agent, platform and
    /// language, fixed values elsewhere, and no cookies, plugins, Do Not
    /// Track or automation flag.
    pub fn get_properties(&self) -> (r: NavigatorProperties)
        ensures
            r.user_agent@ == self.user_agent_view(),
            r.platform@ == self.platform_view(),
            r.language@ == self.language_view(),
            r.languages@.len() == 2 && r.languages@[0]@ == "en-US"@ && r.languages@[1]@ == "en"@,
            r.app_name@ == "Netscape"@,
            r.app_version@ == "5.0 (Windows)"@,
            r.app_code_name@ == "Mozilla"@,
            r.product@ == "Gecko"@,
            r.product_sub@ == "20100101"@,
            r.vendor@.len() == 0,
            r.vendor_sub@.len() == 0,
            r.build_id@ == "20181001000000"@,
            r.oscpu@ == oscpu_of(self.platform_view()),
            !r.cookie_enabled,
            r.do_not_track is None,
            r.pdf_viewer_enabled,
            !r.webdriver,
            r.online,
            r.plugins_length == 0,
            r.mime_types_length == 0,
    {
        proof {
            reveal_strlit("");
        }
        NavigatorProperties {
            user_agent: self.user_agent.clone(),
            platform: self.platform.clone(),
            language: self.language.clone(),
            languages: vec![owned("en-US"), owned("en")],
            app_name: owned("Netscape"),
            app_version: owned("5.0 (Windows)"),
            app_code_name: owned("Mozilla"),
            product: owned("Gecko"),
            product_sub: owned("20100101"),
            vendor: owned(""),
            vendor_sub: owned(""),
            build_id: owned("20181001000000"),
            oscpu: self.get_oscpu(),
            cookie_enabled: false,
            do_not_track: None,
            pdf_viewer_enabled: true,
            webdriver: false,
            online: true,
            plugins_length: 0,
            mime_types_length: 0,
        }
    }

    /// Get the OS/CPU string of the platform.
    pub fn get_oscpu(&self) -> (r: String)
        ensures
            r@ == oscpu_of(self.platform_view()),
    {
        let p = self.platform.as_str();
        if str_eq(p, "Win32") {
            owned("Windows NT 10.0; Win64; x64")
        } else if str_eq(p, "Linux x86_64") {
            owned("Linux x86_64")
        } else if str_eq(p, "MacIntel") {
            owned("Intel Mac OS X 10.15")
        } else {
            owned("Windows NT 10.0; Win64; x64")
        }
    }

    /// Get timezone offset.
    pub fn timezone_offset(&self) -> (r: i32)
        ensures
            r == self.timezone_view(),
    {
        self.timezone_offset
    }

    /// Get locale string.
    pub fn locale(&self) -> (r: &str)
        ensures
            r@ == self.language_view(),
    {
        self.language.as_str()
    }
}

impl Default for NavigatorDefense {
    fn default() -> (r: Self) {
        Self::new()
    }
}

/// Geolocation defense: positions are never handed out.
#[derive(Debug, Clone)]
pub struct GeolocationDefense;

impl GeolocationDefense {
    /// Geolocation requests always fail.
    pub fn should_fail() -> (r: bool)
        ensures
            r,
    {
        true
    }
}

/// Permission API responses: always denied.
pub fn get_permission_state(_name: &str) -> (r: &'static str)
    ensures
        r@ == "denied"@,
{
    "denied"
}

/// Media devices: always none.
pub fn get_media_devices() -> (r: Vec<()>)
    ensures
        r@.len() == 0,
{
    Vec::new()
}

/// Credential API: never available.
pub fn credentials_available() -> (r: bool)
    ensures
        !r,
{
    false
}

} // verus!
