use rm_pad::config::{default_host, default_true, Auth, Cli, Config, FileConfig};
use rm_pad::device::DeviceProfile;
use rm_pad::orientation::Orientation;

fn empty_cli() -> Cli {
    Cli {
        command: None,
        host: None,
        key_path: None,
        password: None,
        pen_device: None,
        touch_device: None,
        touch_only: false,
        pen_only: false,
        grab_input: false,
        no_grab_input: false,
        no_palm_rejection: false,
        palm_grace_ms: None,
        orientation: None,
        config: None,
    }
}

#[test]
fn file_defaults() {
    let f = FileConfig::default();
    assert_eq!(f.host, "10.11.99.1");
    assert_eq!(default_host(), "10.11.99.1");
    assert!(default_true());
    assert!(f.grab_input);
    assert_eq!(f.palm_grace_ms, None);
    assert_eq!(f.orientation, Orientation::LandscapeRight);
}

#[test]
fn defaults_fill_in_when_nothing_is_given() {
    let c = Config::load(&empty_cli(), FileConfig::default(), &DeviceProfile::current());
    assert_eq!(c.host, "10.11.99.1");
    assert_eq!(c.pen_device, "/dev/input/event1");
    assert_eq!(c.touch_device, "/dev/input/event2");
    assert_eq!(c.palm_grace_ms, 500);
    assert!(c.grab_input);
    assert_eq!(c.orientation, Orientation::LandscapeRight);
    assert_eq!(c.auth(), Auth::Key("rm-key".to_string()));
    assert!(c.run_pen() && c.run_touch());
    assert_eq!(c.validate(), Ok(()));
}

#[test]
fn command_line_wins_over_file() {
    let mut cli = empty_cli();
    cli.host = Some("192.168.1.5".to_string());
    cli.pen_device = Some("/dev/input/event3".to_string());
    cli.palm_grace_ms = Some(250);
    cli.orientation = Some(Orientation::Inverted);
    cli.no_grab_input = true;
    let mut file = FileConfig::default();
    file.host = "10.0.0.1".to_string();
    file.touch_device = Some("/dev/input/event7".to_string());
    file.palm_grace_ms = Some(900);
    file.key_path = Some("id_file".to_string());
    file.touch_only = true;
    let c = Config::load(&cli, file, &DeviceProfile::current());
    assert_eq!(c.host, "192.168.1.5");
    assert_eq!(c.pen_device, "/dev/input/event3");
    assert_eq!(c.touch_device, "/dev/input/event7");
    assert_eq!(c.palm_grace_ms, 250);
    assert_eq!(c.orientation, Orientation::Inverted);
    assert!(!c.grab_input);
    assert!(c.touch_only);
    assert!(!c.run_pen());
    assert_eq!(c.auth(), Auth::Key("id_file".to_string()));
}

#[test]
fn password_takes_precedence_over_key() {
    let mut cli = empty_cli();
    cli.password = Some("SECRET-REDACTED".to_string());
    cli.key_path = Some("k".to_string());
    let c = Config::load(&cli, FileConfig::default(), &DeviceProfile::current());
    assert_eq!(c.auth(), Auth::Password("SECRET-REDACTED".to_string()));
}

#[test]
fn both_only_flags_are_refused() {
    let mut cli = empty_cli();
    cli.touch_only = true;
    cli.pen_only = true;
    let c = Config::load(&cli, FileConfig::default(), &DeviceProfile::current());
    assert_eq!(c.validate(), Err("Cannot use both --touch-only and --pen-only"));
}
