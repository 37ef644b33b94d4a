//! The remote streaming session's commands and connection parameters.

use vstd::prelude::*;
use vstd::string::*;

use crate::grab::{grab_command, remote_path};

verus! {

/// The one remote account.
pub const SSH_USER: &'static str = "root";

pub const SSH_PORT: u16 = 22;

/// Bound on opening the connection, in seconds.
pub const CONNECT_TIMEOUT_SECS: u64 = 5;

/// Idle time before the first keepalive probe, in seconds.
pub const TCP_KEEPALIVE_TIME_SECS: u64 = 5;

/// Time between keepalive probes, in seconds.
pub const TCP_KEEPALIVE_INTERVAL_SECS: u64 = 5;

/// Unanswered probes before the peer counts as dead.
pub const TCP_KEEPALIVE_RETRIES: u32 = 3;

/// Sentinel file whose staleness makes the remote helper end itself.
pub const WATCHDOG_FILE: &'static str = "/tmp/rm-pad-watchdog";

pub open spec fn watchdog_file() -> Seq<char> {
    "/tmp/rm-pad-watchdog"@
}

/// Time between touches of the sentinel, in seconds.
pub const WATCHDOG_INTERVAL_SECS: u64 = 2;

/// Wait before a pipeline reconnects, in seconds.
pub const RECONNECT_DELAY_SECS: u64 = 2;

/// Time a dead peer goes unnoticed at most, in seconds.
pub open spec fn dead_peer_detection_secs() -> int {
    TCP_KEEPALIVE_TIME_SECS + TCP_KEEPALIVE_INTERVAL_SECS * TCP_KEEPALIVE_RETRIES
}

/// The command that streams a device: the grab helper when grabbing, a
/// plain read of the device file otherwise.
pub fn build_stream_command(device_path: &str, grab: bool) -> (r: String)
    ensures
        grab ==> r@ == "exec "@ + remote_path() + " "@ + device_path@ + " 2>>"@ + remote_path()
            + ".log"@,
        !grab ==> r@ == "cat "@ + device_path@,
{
    if grab {
        grab_command(device_path)
    } else {
        String::from_str("cat ").concat(device_path)
    }
}

/// The command that refreshes the watchdog sentinel.
pub fn watchdog_command() -> (r: String)
    ensures
        r@ == "touch "@ + watchdog_file(),
{
    String::from_str("touch ").concat(WATCHDOG_FILE)
}

} // verus!
