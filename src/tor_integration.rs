//! The embedded transport daemon's side of the library: its configuration
//! file and the identifiers it gives circuits.

use crate::circuit::circuit_id_at;
use crate::text::{decimal, decimal_string, owned};
use vstd::prelude::*;
use vstd::string::*;

verus! {

/// Relies on `SystemTime::now` and `duration_since(UNIX_EPOCH)`: the time
/// since the Unix epoch in nanoseconds, zero for a clock set before it.
#[verifier::external_body]
pub(crate) fn unix_nanos() -> (r: u128) {
    std::time::SystemTime::now().duration_since(std::time::UNIX_EPOCH).unwrap_or_default().as_nanos()
}

/// Generate a circuit identifier from the current time.
pub fn generate_circuit_id() -> (r: String)
    ensures
        exists|t: nat| r@ == crate::circuit::circuit_id_of(t),
{
    circuit_id_at(unix_nanos())
}

/// Configuration for the embedded transport daemon.
#[derive(Debug, Clone)]
pub struct TorConfig {
    /// Data directory (should be in RAM)
    pub data_dir: String,
    /// SOCKS port
    pub socks_port: u16,
    /// Control port
    pub control_port: u16,
    /// Use bridges (for censored networks)
    pub use_bridges: bool,
    /// Bridge lines
    pub bridges: Vec<String>,
    /// Disable disk writes
    pub disable_disk: bool,
    /// Enforce strict exit policies
    pub strict_exit: bool,
}

impl Default for TorConfig {
    fn default() -> (r: Self)
        ensures
            r.data_dir@ == "/dev/shm/forloop-tor"@,
            r.socks_port == 9150,
            r.control_port == 9151,
            !r.use_bridges,
            r.bridges@.len() == 0,
            r.disable_disk,
            r.strict_exit,
    {
        TorConfig {
            data_dir: owned("/dev/shm/forloop-tor"),
            socks_port: 9150,
            control_port: 9151,
            use_bridges: false,
            bridges: Vec::new(),
            disable_disk: true,
            strict_exit: true,
        }
    }
}

/// One `Bridge` line for each bridge.
pub open spec fn bridge_lines(bs: Seq<String>) -> Seq<char>
    decreases bs.len(),
{
    if bs.len() == 0 {
        seq![]
    } else {
        bridge_lines(bs.drop_last()) + "Bridge "@ + bs.last()@ + "\n"@
    }
}

/// The torrc text of a configuration.
pub open spec fn torrc_text(c: TorConfig) -> Seq<char> {
    "DataDirectory "@ + c.data_dir@ + "\n"@ + "SocksPort "@ + decimal(c.socks_port as nat) + "\n"@
        + "ControlPort "@ + decimal(c.control_port as nat) + "\n"@
        + "CookieAuthentication 1\n"@ + "AvoidDiskWrites 1\n"@ + "DisableDebuggerAttachment 1\n"@
        + "DisableNetwork 0\n"@ + (if c.strict_exit {
        "ExitRelay 0\n"@ + "StrictNodes 1\n"@
    } else {
        seq![]
    }) + (if c.use_bridges {
        "UseBridges 1\n"@ + bridge_lines(c.bridges@)
    } else {
        seq![]
    }) + "SafeLogging 1\n"@ + "ClientOnly 1\n"@
}

impl TorConfig {
    /// Generate torrc content from this configuration.
    pub fn to_torrc(&self) -> (r: String)
        ensures
            r@ == torrc_text(*self),
    {
        let mut config = owned("DataDirectory ");
        config.append(self.data_dir.as_str());
        config.append("\n");
        config.append("SocksPort ");
        config.append(decimal_string(self.socks_port as u128).as_str());
        config.append("\n");
        config.append("ControlPort ");
        config.append(decimal_string(self.control_port as u128).as_str());
        config.append("\n");
        config.append("CookieAuthentication 1\n");
        config.append("AvoidDiskWrites 1\n");
        config.append("DisableDebuggerAttachment 1\n");
        config.append("DisableNetwork 0\n");
        if self.strict_exit {
            config.append("ExitRelay 0\n");
            config.append("StrictNodes 1\n");
        }
        if self.use_bridges {
            config.append("UseBridges 1\n");
            let ghost start = config@;
            let mut i: usize = 0;
            while i < self.bridges.len()
                invariant
                    i <= self.bridges@.len(),
                    config@ == start + bridge_lines(self.bridges@.subrange(0, i as int)),
                decreases self.bridges@.len() - i,
            {
                let ghost before = self.bridges@.subrange(0, i as int);
                let ghost after = self.bridges@.subrange(0, i + 1);
                assert(after.drop_last() =~= before);
                config.append("Bridge ");
                config.append(self.bridges[i].as_str());
                config.append("\n");
                i += 1;
                assert(config@ =~= start + bridge_lines(after));
            }
            assert(self.bridges@.subrange(0, self.bridges@.len() as int) =~= self.bridges@);
        }
        config.append("SafeLogging 1\n");
        config.append("ClientOnly 1\n");
        assert(config@ =~= torrc_text(*self));
        config
    }
}

} // verus!
