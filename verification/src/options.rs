//! The options of a lock session: what the command line says, else what the
//! configuration file says, else a default.

use vstd::prelude::*;
use crate::color::{OPAQUE, RGB_MASK};
use crate::config::Config;
use crate::logger::LevelFilter;
use crate::text::{copy_text, string_view};

verus! {

/// The colour of a locked screen before any input: white.
pub const DEFAULT_INIT_COLOR: u32 = 0xffff_ffff;

/// The colour of a locked screen after input: blue.
pub const DEFAULT_INPUT_COLOR: u32 = 0xff00_00ff;

/// The colour of a locked screen after a failed authentication: red.
pub const DEFAULT_FAIL_COLOR: u32 = 0xffff_0000;

/// What the command line holds, already split into its values.
#[derive(Debug, Clone)]
pub struct Arguments {
    /// The colours, each read with the colour grammar.
    pub init_color: Option<u32>,
    pub input_color: Option<u32>,
    pub fail_color: Option<u32>,
    /// The path of an alternative configuration file.
    pub config: Option<String>,
    /// Whether the flag that forbids reverting the colour is present.
    pub one_way: bool,
    /// The command to run on authentication failure.
    pub fail_command: Option<String>,
    /// How many times the flag for verbose logging is present.
    pub verbosity: u64,
}

/// The options of a lock session.
#[derive(Debug, Clone)]
pub struct Options {
    pub one_way: bool,
    pub fail_command: Option<String>,
    pub init_color: u32,
    pub input_color: u32,
    pub fail_color: u32,
}

/// The options of a lock session, the command as a sequence of characters.
pub struct OptionsView {
    pub one_way: bool,
    pub fail_command: Option<Seq<char>>,
    pub init_color: u32,
    pub input_color: u32,
    pub fail_color: u32,
}

impl View for Options {
    type V = OptionsView;

    open spec fn view(&self) -> OptionsView {
        OptionsView {
            one_way: self.one_way,
            fail_command: string_view(self.fail_command),
            init_color: self.init_color,
            input_color: self.input_color,
            fail_color: self.fail_color,
        }
    }
}

/// The 24-bit colour `rgb` of a configuration file as opaque packed ARGB.
pub open spec fn spec_opaque(rgb: u32) -> u32 {
    OPAQUE | (rgb & RGB_MASK)
}

/// The first of the three that is given.
pub open spec fn spec_pick_color(argument: Option<u32>, configured: Option<u32>, default: u32) -> u32 {
    match argument {
        Some(color) => color,
        None => match configured {
            Some(rgb) => spec_opaque(rgb),
            None => default,
        },
    }
}

/// The first of the two that is given.
pub open spec fn spec_pick_text(argument: Option<String>, configured: Option<String>) -> Option<
    Seq<char>,
> {
    match argument {
        Some(text) => Some(text@),
        None => string_view(configured),
    }
}

/// The options that follow from the command line and the configuration file.
pub open spec fn spec_options(arguments: Arguments, config: Option<Config>) -> OptionsView {
    match config {
        Some(config) => OptionsView {
            one_way: arguments.one_way || config.one_way == Some(true),
            fail_command: spec_pick_text(arguments.fail_command, config.fail_command),
            init_color: spec_pick_color(
                arguments.init_color,
                config.colors.init_color,
                DEFAULT_INIT_COLOR,
            ),
            input_color: spec_pick_color(
                arguments.input_color,
                config.colors.input_color,
                DEFAULT_INPUT_COLOR,
            ),
            fail_color: spec_pick_color(
                arguments.fail_color,
                config.colors.fail_color,
                DEFAULT_FAIL_COLOR,
            ),
        },
        None => OptionsView {
            one_way: arguments.one_way,
            fail_command: string_view(arguments.fail_command),
            init_color: spec_pick_color(arguments.init_color, None, DEFAULT_INIT_COLOR),
            input_color: spec_pick_color(arguments.input_color, None, DEFAULT_INPUT_COLOR),
            fail_color: spec_pick_color(arguments.fail_color, None, DEFAULT_FAIL_COLOR),
        },
    }
}

/// The level of logging for a flag that is present `verbosity` times.
pub open spec fn spec_level_filter(verbosity: u64) -> LevelFilter {
    if verbosity == 0 {
        LevelFilter::Error
    } else if verbosity == 1 {
        LevelFilter::Warn
    } else if verbosity == 2 {
        LevelFilter::Info
    } else if verbosity == 3 {
        LevelFilter::Debug
    } else {
        LevelFilter::Trace
    }
}

/// Turns a 24-bit colour of the configuration file into opaque packed ARGB.
pub fn opaque(rgb: u32) -> (color: u32)
    ensures
        color == spec_opaque(rgb),
{
    OPAQUE | (rgb & RGB_MASK)
}

/// The first of the three that is given.
pub fn pick_color(argument: Option<u32>, configured: Option<u32>, default: u32) -> (color: u32)
    ensures
        color == spec_pick_color(argument, configured, default),
{
    match argument {
        Some(color) => color,
        None => match configured {
            Some(rgb) => opaque(rgb),
            None => default,
        },
    }
}

impl Arguments {
    /// The level of logging that the command line asks for.
    pub fn level_filter(&self) -> (filter: LevelFilter)
        ensures
            filter == spec_level_filter(self.verbosity),
    {
        match self.verbosity {
            0 => LevelFilter::Error,
            1 => LevelFilter::Warn,
            2 => LevelFilter::Info,
            3 => LevelFilter::Debug,
            _ => LevelFilter::Trace,
        }
    }
}

impl Options {
    /// The options of a session. A value of the command line goes before
    /// that of the configuration file, and that before the default:
    /// reverting colours, no command, white, blue and red.
    pub fn new(arguments: &Arguments, config: Option<&Config>) -> (options: Options)
        ensures
            options@ == spec_options(
                *arguments,
                match config {
                    Some(config) => Some(*config),
                    None => None,
                },
            ),
    {
        match config {
            Some(config) => {
                let configured_one_way = match config.one_way {
                    Some(one_way) => one_way,
                    None => false,
                };
                let fail_command = match &arguments.fail_command {
                    Some(command) => Some(command.clone()),
                    None => copy_text(&config.fail_command),
                };
                Options {
                    one_way: arguments.one_way || configured_one_way,
                    fail_command,
                    init_color: pick_color(
                        arguments.init_color,
                        config.colors.init_color,
                        DEFAULT_INIT_COLOR,
                    ),
                    input_color: pick_color(
                        arguments.input_color,
                        config.colors.input_color,
                        DEFAULT_INPUT_COLOR,
                    ),
                    fail_color: pick_color(
                        arguments.fail_color,
                        config.colors.fail_color,
                        DEFAULT_FAIL_COLOR,
                    ),
                }
            },
            None => Options {
                one_way: arguments.one_way,
                fail_command: copy_text(&arguments.fail_command),
                init_color: pick_color(arguments.init_color, None, DEFAULT_INIT_COLOR),
                input_color: pick_color(arguments.input_color, None, DEFAULT_INPUT_COLOR),
                fail_color: pick_color(arguments.fail_color, None, DEFAULT_FAIL_COLOR),
            },
        }
    }
}

} // verus!
