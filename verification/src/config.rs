//! The configuration file: where it is looked for and what it may set.

use vstd::prelude::*;
use vstd::string::StrSliceExecFns;
use vstd::string::StringExecFns;
use crate::io::{IoFailure, IoKind};
use crate::text::{str_view, string_view};

verus! {

/// What went wrong with the configuration file.
#[derive(Debug, Clone)]
pub enum ConfigError {
    /// There is no configuration file: the defaults hold.
    NotFound,
    /// The file is there but could not be read.
    Io(String),
    /// The file is no valid configuration.
    Toml(String),
}

/// The contents of the configuration file.
#[derive(Debug, Clone)]
pub struct Config {
    pub one_way: Option<bool>,
    pub fail_command: Option<String>,
    pub colors: Colors,
}

/// The colours of the configuration file, each as a 24-bit number.
#[derive(Debug, Clone, Copy, PartialEq, Eq)]
pub struct Colors {
    pub init_color: Option<u32>,
    pub input_color: Option<u32>,
    pub fail_color: Option<u32>,
}

/// Where the configuration file lies below the configuration directory.
pub open spec fn spec_config_file() -> Seq<char> {
    "waylock/waylock.toml"@
}

/// Where the configuration directory lies below the home directory.
pub open spec fn spec_config_dir() -> Seq<char> {
    ".config"@
}

/// The path `base` extended by the relative path `rest`: a separator is put
/// between them unless `base` is empty or ends with one.
pub open spec fn spec_join(base: Seq<char>, rest: Seq<char>) -> Seq<char> {
    if base.len() == 0 {
        rest
    } else if base.last() == '/' {
        base + rest
    } else {
        base + seq!['/'] + rest
    }
}

/// The path of the configuration file: the path that was asked for, else
/// the file below the configuration directory of the session, else the
/// file below the configuration directory in the home directory, else none.
pub open spec fn spec_config_path(
    path_override: Option<Seq<char>>,
    config_home: Option<Seq<char>>,
    home: Option<Seq<char>>,
) -> Option<Seq<char>> {
    match path_override {
        Some(path) => Some(path),
        None => match config_home {
            Some(dir) => Some(spec_join(dir, spec_config_file())),
            None => match home {
                Some(dir) => Some(spec_join(spec_join(dir, spec_config_dir()), spec_config_file())),
                None => None,
            },
        },
    }
}

/// Extends the path `base` by the relative path `rest`.
pub fn join(base: &str, rest: &str) -> (path: String)
    ensures
        path@ == spec_join(base@, rest@),
{
    let n = base.unicode_len();
    if n == 0 {
        return rest.to_owned();
    }
    let mut path = base.to_owned();
    if base.get_char(n - 1) != '/' {
        proof {
            reveal_strlit("/");
            assert("/"@ =~= seq!['/']);
        }
        path.append("/");
    }
    path.append(rest);
    path
}

impl ConfigError {
    /// The error that a failed read of the configuration file stands for:
    /// a file that is not there is no failure of the read.
    pub open spec fn spec_from_io(failure: IoFailure) -> ConfigError {
        if failure.kind is NotFound {
            ConfigError::NotFound
        } else {
            ConfigError::Io(failure.message)
        }
    }

    /// Turns a failed read of the configuration file into an error.
    pub fn from_io(failure: IoFailure) -> (error: ConfigError)
        ensures
            error == Self::spec_from_io(failure),
    {
        match failure.kind {
            IoKind::NotFound => ConfigError::NotFound,
            _ => ConfigError::Io(failure.message),
        }
    }

    /// The text of the error.
    pub open spec fn spec_message(self) -> Seq<char> {
        match self {
            ConfigError::NotFound => "Couldn't find the config file"@,
            ConfigError::Io(err) => "I/O error reading the config file: "@ + err@,
            ConfigError::Toml(err) => "TOML error reading the config file: "@ + err@,
        }
    }

    /// The text of the error.
    pub fn message(&self) -> (text: String)
        ensures
            text@ == self.spec_message(),
    {
        match self {
            ConfigError::NotFound => "Couldn't find the config file".to_owned(),
            ConfigError::Io(err) => {
                let mut text = "I/O error reading the config file: ".to_owned();
                text.append(err.as_str());
                text
            },
            ConfigError::Toml(err) => {
                let mut text = "TOML error reading the config file: ".to_owned();
                text.append(err.as_str());
                text
            },
        }
    }

    /// What is reported of the error: nothing of a missing file, the text of
    /// every other error.
    pub open spec fn spec_report(self) -> Option<Seq<char>> {
        if self is NotFound {
            None
        } else {
            Some(self.spec_message())
        }
    }

    /// What is reported of the error: nothing of a missing file, the text of
    /// every other error.
    pub fn report(&self) -> (text: Option<String>)
        ensures
            string_view(text) == self.spec_report(),
    {
        match self {
            ConfigError::NotFound => None,
            _ => Some(self.message()),
        }
    }
}

impl Config {
    /// A configuration that sets nothing.
    pub fn empty() -> (config: Config)
        ensures
            config.one_way is None,
            config.fail_command is None,
            config.colors == (Colors { init_color: None, input_color: None, fail_color: None }),
    {
        Config {
            one_way: None,
            fail_command: None,
            colors: Colors { init_color: None, input_color: None, fail_color: None },
        }
    }

    /// Finds the configuration file. The following fallback order is used:
    /// 1. the path given on the command line,
    /// 2. `waylock/waylock.toml` below `config_home`, the value of `XDG_CONFIG_HOME`,
    /// 3. `.config/waylock/waylock.toml` below `home`, the value of `HOME`.
    pub fn path(path_override: Option<&str>, config_home: Option<&str>, home: Option<&str>) -> (path:
        Option<String>)
        ensures
            string_view(path) == spec_config_path(
                str_view(path_override),
                str_view(config_home),
                str_view(home),
            ),
    {
        match path_override {
            Some(path) => Some(path.to_owned()),
            None => match config_home {
                Some(dir) => Some(join(dir, "waylock/waylock.toml")),
                None => match home {
                    Some(dir) => {
                        let config_home = join(dir, ".config");
                        Some(join(config_home.as_str(), "waylock/waylock.toml"))
                    },
                    None => None,
                },
            },
        }
    }
}

} // verus!
