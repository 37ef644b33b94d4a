//! Configuration: the values read from the command line and from the
//! configuration file, and how they merge.

use vstd::prelude::*;
use vstd::string::*;

use crate::device::DeviceProfile;
use crate::orientation::Orientation;

verus! {

/// Grace period of palm rejection when none is configured, in milliseconds.
pub const DEFAULT_PALM_GRACE_MS: u64 = 500;

/// Key file used when neither a key path nor a password is configured.
pub open spec fn default_key_path() -> Seq<char> {
    "rm-key"@
}

/// Host used when none is configured.
pub open spec fn default_host_name() -> Seq<char> {
    "10.11.99.1"@
}

/// Authentication for the remote account.
#[derive(Clone, Debug, PartialEq, Eq)]
pub enum Auth {
    /// Public-key authentication with the key file at this path.
    Key(String),
    /// Password authentication.
    Password(String),
}

/// Subcommands.
#[derive(Clone, Debug, PartialEq, Eq)]
pub enum Command {
    /// Dump raw input events of `device` ("touch" or "pen").
    Dump { device: String },
}

/// Command-line options; `None` and `false` mean "not given".
#[derive(Clone, Debug)]
pub struct Cli {
    pub command: Option<Command>,
    pub host: Option<String>,
    pub key_path: Option<String>,
    pub password: Option<String>,
    pub pen_device: Option<String>,
    pub touch_device: Option<String>,
    pub touch_only: bool,
    pub pen_only: bool,
    pub grab_input: bool,
    pub no_grab_input: bool,
    pub no_palm_rejection: bool,
    pub palm_grace_ms: Option<u64>,
    pub orientation: Option<Orientation>,
    /// Path of the configuration file.
    pub config: Option<String>,
}

/// Values of the configuration file.
#[derive(Clone, Debug)]
pub struct FileConfig {
    pub host: String,
    pub key_path: Option<String>,
    pub password: Option<String>,
    pub pen_device: Option<String>,
    pub touch_device: Option<String>,
    pub touch_only: bool,
    pub pen_only: bool,
    pub grab_input: bool,
    pub no_palm_rejection: bool,
    pub palm_grace_ms: Option<u64>,
    pub orientation: Orientation,
}

/// Merged configuration.
#[derive(Clone, Debug)]
pub struct Config {
    pub host: String,
    pub key_path: Option<String>,
    pub password: Option<String>,
    pub pen_device: String,
    pub touch_device: String,
    pub touch_only: bool,
    pub pen_only: bool,
    pub grab_input: bool,
    pub no_palm_rejection: bool,
    pub palm_grace_ms: u64,
    pub orientation: Orientation,
}

/// The host a configuration file names when it names none.
pub fn default_host() -> (r: String)
    ensures
        r@ == default_host_name(),
{
    String::from_str("10.11.99.1")
}

/// Default of the file's grab option.
pub fn default_true() -> (r: bool)
    ensures
        r,
{
    true
}

impl Default for FileConfig {
    fn default() -> (r: FileConfig)
        ensures
            r.host@ == default_host_name(),
            r.key_path is None,
            r.password is None,
            r.pen_device is None,
            r.touch_device is None,
            !r.touch_only,
            !r.pen_only,
            r.grab_input,
            !r.no_palm_rejection,
            r.palm_grace_ms is None,
            r.orientation == Orientation::LandscapeRight,
    {
        FileConfig {
            host: default_host(),
            key_path: None,
            password: None,
            pen_device: None,
            touch_device: None,
            touch_only: false,
            pen_only: false,
            grab_input: default_true(),
            no_palm_rejection: false,
            palm_grace_ms: None,
            orientation: Orientation::default(),
        }
    }
}

fn first_string(a: &Option<String>, b: Option<String>) -> (r: Option<String>)
    ensures
        r == (match a {
            Some(s) => Some(*s),
            None => b,
        }),
{
    match a {
        Some(s) => Some(s.clone()),
        None => b,
    }
}

/// The text of the first of `a`, `b` that is given, else `c`.
pub open spec fn pick(a: Option<String>, b: Option<String>, c: Seq<char>) -> Seq<char> {
    match a {
        Some(s) => s@,
        None => match b {
            Some(s) => s@,
            None => c,
        },
    }
}

impl Config {
    /// Merges the command line over the file's values; device paths fall
    /// back to the profile's.
    pub fn load(cli: &Cli, file_config: FileConfig, device: &DeviceProfile) -> (r: Config)
        ensures
            r.host@ == (match cli.host {
                Some(h) => h@,
                None => file_config.host@,
            }),
            r.key_path == (match cli.key_path {
                Some(k) => Some(k),
                None => file_config.key_path,
            }),
            r.password == (match cli.password {
                Some(p) => Some(p),
                None => file_config.password,
            }),
            r.pen_device@ == pick(cli.pen_device, file_config.pen_device, device.pen_device@),
            r.touch_device@ == pick(cli.touch_device, file_config.touch_device, device.touch_device@),
            r.touch_only == (cli.touch_only || file_config.touch_only),
            r.pen_only == (cli.pen_only || file_config.pen_only),
            r.grab_input == (!cli.no_grab_input && (cli.grab_input || file_config.grab_input)),
            r.no_palm_rejection == (cli.no_palm_rejection || file_config.no_palm_rejection),
            r.palm_grace_ms == (match cli.palm_grace_ms {
                Some(g) => g,
                None => match file_config.palm_grace_ms {
                    Some(g) => g,
                    None => DEFAULT_PALM_GRACE_MS,
                },
            }),
            r.orientation == (match cli.orientation {
                Some(o) => o,
                None => file_config.orientation,
            }),
    {
        let host = match &cli.host {
            Some(h) => h.clone(),
            None => file_config.host,
        };
        let pen_device = match first_string(&cli.pen_device, file_config.pen_device) {
            Some(p) => p,
            None => String::from_str(device.pen_device),
        };
        let touch_device = match first_string(&cli.touch_device, file_config.touch_device) {
            Some(p) => p,
            None => String::from_str(device.touch_device),
        };
        let palm_grace_ms = match cli.palm_grace_ms {
            Some(g) => g,
            None => match file_config.palm_grace_ms {
                Some(g) => g,
                None => DEFAULT_PALM_GRACE_MS,
            },
        };
        Config {
            host,
            key_path: first_string(&cli.key_path, file_config.key_path),
            password: first_string(&cli.password, file_config.password),
            pen_device,
            touch_device,
            touch_only: cli.touch_only || file_config.touch_only,
            pen_only: cli.pen_only || file_config.pen_only,
            grab_input: if cli.no_grab_input {
                false
            } else {
                cli.grab_input || file_config.grab_input
            },
            no_palm_rejection: cli.no_palm_rejection || file_config.no_palm_rejection,
            palm_grace_ms,
            orientation: match cli.orientation {
                Some(o) => o,
                None => file_config.orientation,
            },
        }
    }

    /// The password when one is set, else the key file (by default "rm-key").
    pub fn auth(&self) -> (r: Auth)
        ensures
            self.password matches Some(p) ==> r == Auth::Password(p),
            self.password is None ==> (r matches Auth::Key(path) && path@ == (match self.key_path {
                Some(k) => k@,
                None => default_key_path(),
            })),
    {
        match &self.password {
            Some(p) => Auth::Password(p.clone()),
            None => match &self.key_path {
                Some(k) => Auth::Key(k.clone()),
                None => Auth::Key(String::from_str("rm-key")),
            },
        }
    }

    /// The pen pipeline runs unless only touch is asked for.
    pub fn run_pen(&self) -> (r: bool)
        ensures
            r == !self.touch_only,
    {
        !self.touch_only
    }

    /// The touch pipeline runs unless only the pen is asked for.
    pub fn run_touch(&self) -> (r: bool)
        ensures
            r == !self.pen_only,
    {
        !self.pen_only
    }

    /// Refuses a configuration that runs neither pipeline.
    pub fn validate(&self) -> (r: Result<(), &'static str>)
        ensures
            self.touch_only && self.pen_only ==> r == Err::<(), &'static str>(
                "Cannot use both --touch-only and --pen-only",
            ),
            !(self.touch_only && self.pen_only) ==> r == Ok::<(), &'static str>(()),
    {
        if self.touch_only && self.pen_only {
            return Err("Cannot use both --touch-only and --pen-only");
        }
        if !self.run_pen() && !self.run_touch() {
            return Err("No input device enabled");
        }
        Ok(())
    }
}

} // verus!
