//! Command-line arguments and the secure-by-default configuration. There
//! is no option that weakens privacy.

use crate::text::{has_prefix, str_eq, starts_with, string_views};
use vstd::prelude::*;
use vstd::string::*;

verus! {

/// forloop command-line interface.
#[derive(Debug)]
pub struct ForloopCli {
    /// URL to open (optional)
    pub url: Option<String>,
    /// Start with completely fresh state
    pub new_loop: bool,
    /// Kill all state and exit
    pub kill_all_state: bool,
    /// Use bridges for the transport
    pub use_bridges: bool,
    /// Custom bridge lines
    pub bridges: Vec<String>,
    /// Verbose logging (to stderr only)
    pub verbose: bool,
    /// Print version and exit
    pub version: bool,
    /// Print help and exit
    pub help: bool,
}

/// The parsed command line, as plain values.
pub struct CliView {
    /// URL to open
    pub url: Option<Seq<char>>,
    /// `--new-loop`
    pub new_loop: bool,
    /// `--kill-all-state`
    pub kill_all_state: bool,
    /// `--use-bridges`
    pub use_bridges: bool,
    /// the `--bridge` values
    pub bridges: Seq<Seq<char>>,
    /// `--verbose`
    pub verbose: bool,
    /// `--version`
    pub version: bool,
    /// `--help`
    pub help: bool,
}

/// The command line before any argument.
pub open spec fn empty_cli() -> CliView {
    CliView {
        url: None,
        new_loop: false,
        kill_all_state: false,
        use_bridges: false,
        bridges: seq![],
        verbose: false,
        version: false,
        help: false,
    }
}

/// The effect of the argument at `i`, and where the next one starts:
/// flags set their field, `--bridge` takes the following argument as a
/// bridge line, an argument without a leading `-` is the URL, and unknown
/// options are ignored.
pub open spec fn apply_arg(args: Seq<Seq<char>>, i: int, c: CliView) -> (CliView, int) {
    let a = args[i];
    if a == "--new-loop"@ || a == "-n"@ {
        (CliView { new_loop: true, ..c }, i + 1)
    } else if a == "--kill-all-state"@ || a == "-k"@ {
        (CliView { kill_all_state: true, ..c }, i + 1)
    } else if a == "--use-bridges"@ {
        (CliView { use_bridges: true, ..c }, i + 1)
    } else if a == "--bridge"@ {
        if i + 1 < args.len() {
            (CliView { bridges: c.bridges.push(args[i + 1]), ..c }, i + 2)
        } else {
            (c, i + 2)
        }
    } else if a == "--verbose"@ || a == "-v"@ {
        (CliView { verbose: true, ..c }, i + 1)
    } else if a == "--version"@ || a == "-V"@ {
        (CliView { version: true, ..c }, i + 1)
    } else if a == "--help"@ || a == "-h"@ {
        (CliView { help: true, ..c }, i + 1)
    } else if !has_prefix(a, "-"@) {
        (CliView { url: Some(a), ..c }, i + 1)
    } else {
        (c, i + 1)
    }
}

/// The command line that the arguments from `i` on make of `c`.
pub open spec fn parse_from(args: Seq<Seq<char>>, i: int, c: CliView) -> CliView
    decreases args.len() + 2 - i,
{
    if i < 0 || i >= args.len() {
        c
    } else {
        let (c2, j) = apply_arg(args, i, c);
        parse_from(args, j, c2)
    }
}

/// The command line of an argument list whose first entry is the program.
pub open spec fn parsed_cli(args: Seq<Seq<char>>) -> CliView {
    parse_from(args, 1, empty_cli())
}

impl ForloopCli {
    /// The command line as plain values.
    pub open spec fn view_cli(&self) -> CliView {
        CliView {
            url: match self.url {
                Some(u) => Some(u@),
                None => None,
            },
            new_loop: self.new_loop,
            kill_all_state: self.kill_all_state,
            use_bridges: self.use_bridges,
            bridges: string_views(self.bridges@),
            verbose: self.verbose,
            version: self.version,
            help: self.help,
        }
    }

    /// Parse command-line arguments; the first is the program name.
    pub fn parse_args(args: &[String]) -> (r: Self)
        ensures
            r.view_cli() == parsed_cli(string_views(args@)),
    {
        let ghost sv = string_views(args@);
        let mut cli = ForloopCli {
            url: None,
            new_loop: false,
            kill_all_state: false,
            use_bridges: false,
            bridges: Vec::new(),
            verbose: false,
            version: false,
            help: false,
        };
        assert(cli.view_cli().bridges =~= seq![]);
        let mut i: usize = 1;
        while i < args.len()
            invariant
                sv == string_views(args@),
                1 <= i,
                i <= args@.len() || i == 1,
                parse_from(sv, i as int, cli.view_cli()) == parsed_cli(sv),
            decreases args@.len() + 1 - i,
        {
            let a = args[i].as_str();
            assert(a@ == sv[i as int]);
            let ghost before = cli.view_cli();
            let ghost (expected, next) = apply_arg(sv, i as int, before);
            if str_eq(a, "--new-loop") || str_eq(a, "-n") {
                cli.new_loop = true;
            } else if str_eq(a, "--kill-all-state") || str_eq(a, "-k") {
                cli.kill_all_state = true;
            } else if str_eq(a, "--use-bridges") {
                cli.use_bridges = true;
            } else if str_eq(a, "--bridge") {
                if i + 1 < args.len() {
                    cli.bridges.push(args[i + 1].clone());
                    assert(cli.view_cli().bridges =~= before.bridges.push(sv[i + 1]));
                    i += 2;
                } else {
                    i = args.len();
                }
                assert(cli.view_cli() == expected);
                assert(parse_from(sv, i as int, cli.view_cli()) == parse_from(sv, next, expected));
                continue;
            } else if str_eq(a, "--verbose") || str_eq(a, "-v") {
                cli.verbose = true;
            } else if str_eq(a, "--version") || str_eq(a, "-V") {
                cli.version = true;
            } else if str_eq(a, "--help") || str_eq(a, "-h") {
                cli.help = true;
            } else if !starts_with(a, "-") {
                cli.url = Some(args[i].clone());
            }
            i += 1;
            assert(cli.view_cli() == expected);
            assert(i == next);
        }
        cli
    }
}

/// Screen size bucket for fingerprint defense.
#[derive(Debug, Clone, Copy)]
pub struct ScreenBucket {
    /// Width
    pub width: u32,
    /// Height
    pub height: u32,
}

/// Secure-by-default configuration, compiled in.
#[derive(Debug, Clone)]
pub struct ForloopConfig {
    /// SOCKS port of the transport
    pub tor_socks_port: u16,
    /// Control port of the transport
    pub tor_control_port: u16,
    /// Create new circuit per request
    pub new_circuit_per_request: bool,
    /// Request timeout in seconds
    pub request_timeout_secs: u64,
    /// Timing precision in milliseconds
    pub timing_precision_ms: u64,
    /// Screen size bucket to use
    pub screen_bucket: ScreenBucket,
    /// Cookies enabled (always false)
    pub cookies_enabled: bool,
    /// Local storage enabled (always false)
    pub local_storage_enabled: bool,
    /// Session storage enabled (always false)
    pub session_storage_enabled: bool,
    /// IndexedDB enabled (always false)
    pub indexed_db_enabled: bool,
    /// Cache enabled (always false for disk)
    pub disk_cache_enabled: bool,
    /// Service workers enabled (always false)
    pub service_workers_enabled: bool,
    /// WebRTC enabled (always false)
    pub webrtc_enabled: bool,
    /// Geolocation enabled (always false)
    pub geolocation_enabled: bool,
    /// Sensors enabled (always false)
    pub sensors_enabled: bool,
    /// Telemetry enabled (always false)
    pub telemetry_enabled: bool,
    /// Crash reporter enabled (always false)
    pub crash_reporter_enabled: bool,
}

/// Whether a configuration is the compiled-in one.
pub open spec fn is_default_config(c: ForloopConfig) -> bool {
    &&& c.tor_socks_port == 9150
    &&& c.tor_control_port == 9151
    &&& c.new_circuit_per_request
    &&& c.request_timeout_secs == 60
    &&& c.timing_precision_ms == 100
    &&& c.screen_bucket.width == 1920
    &&& c.screen_bucket.height == 1080
    &&& is_secure_config(c)
}

/// Whether a configuration weakens no privacy guarantee: every storage,
/// device and telemetry feature is off and circuits are per request.
pub open spec fn is_secure_config(c: ForloopConfig) -> bool {
    &&& !c.cookies_enabled
    &&& !c.local_storage_enabled
    &&& !c.session_storage_enabled
    &&& !c.indexed_db_enabled
    &&& !c.disk_cache_enabled
    &&& !c.service_workers_enabled
    &&& !c.webrtc_enabled
    &&& !c.geolocation_enabled
    &&& !c.sensors_enabled
    &&& !c.telemetry_enabled
    &&& !c.crash_reporter_enabled
    &&& c.new_circuit_per_request
}

fn compiled_config() -> (r: ForloopConfig)
    ensures
        is_default_config(r),
{
    ForloopConfig {
        tor_socks_port: 9150,
        tor_control_port: 9151,
        new_circuit_per_request: true,
        request_timeout_secs: 60,
        timing_precision_ms: 100,
        screen_bucket: ScreenBucket { width: 1920, height: 1080 },
        cookies_enabled: false,
        local_storage_enabled: false,
        session_storage_enabled: false,
        indexed_db_enabled: false,
        disk_cache_enabled: false,
        service_workers_enabled: false,
        webrtc_enabled: false,
        geolocation_enabled: false,
        sensors_enabled: false,
        telemetry_enabled: false,
        crash_reporter_enabled: false,
    }
}

impl Default for ForloopConfig {
    fn default() -> (r: Self)
        ensures
            is_default_config(r),
    {
        compiled_config()
    }
}

impl ForloopConfig {
    /// The configuration: compiled-in values that cannot be modified.
    pub fn get() -> (r: Self)
        ensures
            is_default_config(r),
    {
        compiled_config()
    }

    /// The first privacy-weakening option that is enabled, as the message
    /// that names it, or nothing for a secure configuration.
    pub fn security_violation(&self) -> (r: Option<&'static str>)
        ensures
            r is None <==> is_secure_config(*self),
    {
        if self.cookies_enabled {
            Some("Cookies must be disabled")
        } else if self.local_storage_enabled {
            Some("Local storage must be disabled")
        } else if self.session_storage_enabled {
            Some("Session storage must be disabled")
        } else if self.indexed_db_enabled {
            Some("IndexedDB must be disabled")
        } else if self.disk_cache_enabled {
            Some("Disk cache must be disabled")
        } else if self.service_workers_enabled {
            Some("Service workers must be disabled")
        } else if self.webrtc_enabled {
            Some("WebRTC must be disabled")
        } else if self.geolocation_enabled {
            Some("Geolocation must be disabled")
        } else if self.sensors_enabled {
            Some("Sensors must be disabled")
        } else if self.telemetry_enabled {
            Some("Telemetry must be disabled")
        } else if self.crash_reporter_enabled {
            Some("Crash reporter must be disabled")
        } else if !self.new_circuit_per_request {
            Some("New circuit per request must be enabled")
        } else {
            None
        }
    }

    /// Verify configuration is secure. Only a secure configuration may be
    /// passed; callers outside verified code test `security_violation`
    /// first.
    pub fn verify_secure(&self)
        requires
            is_secure_config(*self),
    {
    }
}

} // verus!
