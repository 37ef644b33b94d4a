use rm_pad::grab::{
    check_remote_binary_hash, grab_command, hash_probe_command, kill_command, remote_hash_matches,
    remove_command,
    upload_command, Arch,
};
use rm_pad::session::{build_stream_command, watchdog_command};

const ABC_SHA256: &str = "ba7816bf8f01cfea414140de5dae2223b00361a396177a9cb410ff61f20015ad";

#[test]
fn grab_command_execs_helper_with_log() {
    assert_eq!(
        grab_command("/dev/input/event2"),
        "exec /tmp/rm-pad-grab /dev/input/event2 2>>/tmp/rm-pad-grab.log"
    );
}

#[test]
fn stream_command_by_mode() {
    assert_eq!(build_stream_command("/dev/input/event1", false), "cat /dev/input/event1");
    assert_eq!(
        build_stream_command("/dev/input/event1", true),
        "exec /tmp/rm-pad-grab /dev/input/event1 2>>/tmp/rm-pad-grab.log"
    );
    assert_eq!(watchdog_command(), "touch /tmp/rm-pad-watchdog");
}

#[test]
fn helper_management_commands() {
    assert_eq!(hash_probe_command(), "sha256sum /tmp/rm-pad-grab 2>/dev/null | cut -d' ' -f1");
    assert_eq!(remove_command(), "rm -f /tmp/rm-pad-grab");
    assert_eq!(kill_command(), "killall rm-pad-grab 2>/dev/null; true");
    assert_eq!(
        upload_command(),
        "cat > /tmp/rm-pad-grab.$$ && chmod +x /tmp/rm-pad-grab.$$ && mv -f /tmp/rm-pad-grab.$$ /tmp/rm-pad-grab"
    );
}

#[test]
fn architecture_from_uname() {
    assert_eq!(Arch::from_uname("armv7l\n").unwrap(), Arch::Armv7);
    assert_eq!(Arch::from_uname("aarch64\n").unwrap(), Arch::Aarch64);
    assert!(Arch::from_uname("x86_64\n").unwrap_err().contains("x86_64"));
    assert_eq!(Arch::Armv7.name(), "armv7");
    assert_eq!(Arch::Aarch64.name(), "aarch64");
}

#[test]
fn remote_hash_check() {
    assert!(check_remote_binary_hash(0, &format!("{}\n", ABC_SHA256), b"abc"));
    assert!(!check_remote_binary_hash(0, "abc\n", b"abc"));
    assert!(!check_remote_binary_hash(1, ABC_SHA256, b"abc"));
    assert!(!check_remote_binary_hash(0, ABC_SHA256, b"abd"));
    assert!(check_remote_binary_hash(
        0,
        "e3b0c44298fc1c149afbf4c8996fb92427ae41e4649b934ca495991b7852b855",
        b""
    ));
    assert!(remote_hash_matches(0, " deadbeef \n", "deadbeef"));
    assert!(!remote_hash_matches(0, "", "deadbeef"));
}
