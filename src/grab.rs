//! The exclusive-grab helper: architecture detection, content-hash check of
//! the uploaded copy, and the remote commands that manage and run it.

use vstd::prelude::*;
use vstd::string::*;

use sha2::Digest;

use crate::device::{trim, trim_of};
use crate::text::same_text;

verus! {

/// Where the helper lives on the tablet.
pub const REMOTE_PATH: &'static str = "/tmp/rm-pad-grab";

pub open spec fn remote_path() -> Seq<char> {
    "/tmp/rm-pad-grab"@
}

/// CPU architecture of the tablet.
#[derive(Clone, Copy, Debug, PartialEq, Eq, Structural)]
pub enum Arch {
    Armv7,
    Aarch64,
}

pub open spec fn arch_name(a: Arch) -> Seq<char> {
    match a {
        Arch::Armv7 => "armv7"@,
        Arch::Aarch64 => "aarch64"@,
    }
}

impl Arch {
    /// The architecture's name.
    pub fn name(&self) -> (r: String)
        ensures
            r@ == arch_name(*self),
    {
        match self {
            Arch::Armv7 => String::from_str("armv7"),
            Arch::Aarch64 => String::from_str("aarch64"),
        }
    }

    /// Reads the output of `uname -m`.
    pub fn from_uname(output: &str) -> (r: Result<Arch, String>)
        ensures
            trim_of(output@) == "armv7l"@ ==> r == Ok::<Arch, String>(Arch::Armv7),
            trim_of(output@) == "aarch64"@ ==> r == Ok::<Arch, String>(Arch::Aarch64),
            trim_of(output@) != "armv7l"@ && trim_of(output@) != "aarch64"@ ==> (r matches Err(m) && m@
                == "Unsupported tablet architecture: "@ + trim_of(output@)),
    {
        let machine = trim(output);
        proof {
            reveal_strlit("armv7l");
            reveal_strlit("aarch64");
            assert("armv7l"@.len() != "aarch64"@.len());
        }
        if same_text(machine, "armv7l") {
            Ok(Arch::Armv7)
        } else if same_text(machine, "aarch64") {
            Ok(Arch::Aarch64)
        } else {
            Err(String::from_str("Unsupported tablet architecture: ").concat(machine))
        }
    }
}

/// What sha2's SHA-256 of `b` is, written in lower-case hex.
pub uninterp spec fn sha256_hex_of(b: Seq<u8>) -> Seq<char>;

/// Relies on sha2's `Sha256` (`new`, `update`, `finalize`) and the digest
/// output's `LowerHex` formatting: the result depends on the bytes alone.
#[verifier::external_body]
fn compute_binary_hash(binary: &[u8]) -> (r: String)
    ensures
        r@ == sha256_hex_of(binary@),
{
    let mut hasher = sha2::Sha256::new();
    hasher.update(binary);
    format!("{:x}", hasher.finalize())
}

/// The probe's answer shows the remote copy is the expected one: the probe
/// exited with status 0 and printed the expected hash.
pub fn remote_hash_matches(status: i32, output: &str, expected: &str) -> (r: bool)
    ensures
        r == (status == 0 && trim_of(output@) == expected@),
{
    if status != 0 {
        return false;
    }
    same_text(trim(output), expected)
}

/// Whether the remote helper is this build's: the answer of the hash probe
/// against the hash of the embedded `binary`.
pub fn check_remote_binary_hash(status: i32, output: &str, binary: &[u8]) -> (r: bool)
    ensures
        r == (status == 0 && trim_of(output@) == sha256_hex_of(binary@)),
{
    let expected = compute_binary_hash(binary);
    remote_hash_matches(status, output, expected.as_str())
}

/// Ends helper processes left from earlier sessions; succeeds when none runs.
pub fn kill_command() -> (r: String)
    ensures
        r@ == "killall rm-pad-grab 2>/dev/null; true"@,
{
    String::from_str("killall rm-pad-grab 2>/dev/null; true")
}

/// Prints the hash of the remote helper, or nothing when it is missing.
pub fn hash_probe_command() -> (r: String)
    ensures
        r@ == "sha256sum "@ + remote_path() + " 2>/dev/null | cut -d' ' -f1"@,
{
    String::from_str("sha256sum ").concat(REMOTE_PATH).concat(" 2>/dev/null | cut -d' ' -f1")
}

/// Removes the remote helper.
pub fn remove_command() -> (r: String)
    ensures
        r@ == "rm -f "@ + remote_path(),
{
    String::from_str("rm -f ").concat(REMOTE_PATH)
}

/// Reads the helper from standard input into a file named after the remote
/// shell's process id, marks it executable, then renames it into place, so
/// that concurrent uploads never write the same file.
pub fn upload_command() -> (r: String)
    ensures
        r@ == "cat > "@ + remote_path() + ".$$ && chmod +x "@ + remote_path() + ".$$ && mv -f "@
            + remote_path() + ".$$ "@ + remote_path(),
{
    String::from_str("cat > ").concat(REMOTE_PATH).concat(".$$ && chmod +x ").concat(REMOTE_PATH).concat(
        ".$$ && mv -f ",
    ).concat(REMOTE_PATH).concat(".$$ ").concat(REMOTE_PATH)
}

/// Replaces the remote shell with the helper grabbing `device_path`, so
/// that teardown signals reach the helper; its diagnostics go to a log file
/// beside it.
pub fn grab_command(device_path: &str) -> (r: String)
    ensures
        r@ == "exec "@ + remote_path() + " "@ + device_path@ + " 2>>"@ + remote_path() + ".log"@,
{
    String::from_str("exec ").concat(REMOTE_PATH).concat(" ").concat(device_path).concat(" 2>>").concat(
        REMOTE_PATH,
    ).concat(".log")
}

} // verus!
