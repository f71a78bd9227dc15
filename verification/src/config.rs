//! The configuration of one invocation and how it is put together.
//!
//! A configuration comes from three layers: what the command line gave,
//! what the configuration file gave, and the built-in defaults. For every
//! field the command line wins over the file, and the file over the
//! default.

use vstd::prelude::*;

use crate::units::copy_text;

verus! {

/// When to colour the output.
#[derive(Clone, Copy, Debug, PartialEq, Eq, Structural)]
pub enum ColorMode {
    /// Colour when the output goes to a terminal.
    Auto,
    /// Always colour.
    Always,
    /// Never colour.
    Never,
}

impl Default for ColorMode {
    fn default() -> (mode: ColorMode)
        ensures
            mode == ColorMode::Auto,
    {
        ColorMode::Auto
    }
}

/// One layer of configuration. A field that is `None`, or `false`, leaves
/// the matter to the next layer.
#[derive(Clone, Debug, PartialEq, Eq)]
pub struct Config {
    /// The binary to run after the build, relative to the binary root.
    pub run: Option<String>,
    /// Suppress the progress output.
    pub quiet: bool,
    /// Remove the build trees when everything else is done.
    pub clean: bool,
    /// When to colour the output.
    pub color: Option<ColorMode>,
    /// The directory that holds the sources.
    pub base: Option<String>,
    /// The sources to build, relative to the base directory; all that are
    /// found below it where this is `None`.
    pub files: Option<Vec<String>>,
}

impl Default for Config {
    fn default() -> (config: Config)
        ensures
            config == Config::empty(),
    {
        Config { run: None, quiet: false, clean: false, color: None, base: None, files: None }
    }
}

/// What reading the configuration file came to.
#[derive(Clone, Debug, PartialEq, Eq)]
pub enum DiskRecord {
    /// There is no configuration file.
    Missing,
    /// The file is there but could not be read.
    Unreadable,
    /// The file was read but its content is no configuration.
    Malformed,
    /// The configuration that the file holds.
    Parsed(Config),
}

/// The first of the two that holds a value.
pub open spec fn first_of<T>(a: Option<T>, b: Option<T>) -> Option<T> {
    if a is Some {
        a
    } else {
        b
    }
}

/// The text of an optional string.
pub open spec fn text_of(s: Option<String>) -> Option<Seq<char>> {
    match s {
        Some(t) => Some(t@),
        None => None,
    }
}

/// The default base directory, `src`.
pub open spec fn default_base() -> Seq<char> {
    "src"@
}

impl Config {
    /// The layer that decides nothing.
    pub open spec fn empty() -> Config {
        Config { run: None, quiet: false, clean: false, color: None, base: None, files: None }
    }

    /// `upper` laid over `lower`: field by field the value of `upper`
    /// where it has one, else that of `lower`.
    pub open spec fn over(upper: Config, lower: Config) -> Config {
        Config {
            run: first_of(upper.run, lower.run),
            quiet: upper.quiet || lower.quiet,
            clean: upper.clean || lower.clean,
            color: first_of(upper.color, lower.color),
            base: first_of(upper.base, lower.base),
            files: first_of(upper.files, lower.files),
        }
    }

    /// The base directory in effect.
    pub open spec fn effective_base(self) -> Seq<char> {
        match self.base {
            Some(b) => b@,
            None => default_base(),
        }
    }

    /// The colour mode in effect.
    pub open spec fn effective_color(self) -> ColorMode {
        match self.color {
            Some(mode) => mode,
            None => ColorMode::Auto,
        }
    }

    /// The base directory: the configured one, or `src`.
    pub fn base_dir(&self) -> (base: String)
        ensures
            base@ == self.effective_base(),
    {
        match &self.base {
            Some(b) => copy_text(b.as_str()),
            None => copy_text("src"),
        }
    }

    /// The colour mode: the configured one, or `Auto`.
    pub fn color_mode(&self) -> (mode: ColorMode)
        ensures
            mode == self.effective_color(),
    {
        match self.color {
            Some(mode) => mode,
            None => ColorMode::Auto,
        }
    }
}

/// The name of the configuration file, looked for in the working
/// directory.
pub fn config_file() -> (name: &'static str)
    ensures
        name@ == ".rasm.toml"@,
{
    ".rasm.toml"
}

/// The first of two optional values that is present.
pub fn merge<T>(a: Option<T>, b: Option<T>) -> (r: Option<T>)
    ensures
        r == first_of(a, b),
{
    match a {
        Some(x) => Some(x),
        None => b,
    }
}

/// The configuration that the file contributes: what was parsed from it,
/// and nothing at all where the file is missing, unreadable or malformed.
pub fn read_config(record: DiskRecord) -> (config: Config)
    ensures
        config == match record {
            DiskRecord::Parsed(parsed) => parsed,
            _ => Config::empty(),
        },
{
    match record {
        DiskRecord::Parsed(parsed) => parsed,
        _ => Config::default(),
    }
}

/// Lays the command line over the configuration file.
pub fn init(args: Config, config: Config) -> (merged: Config)
    ensures
        merged == Config::over(args, config),
{
    Config {
        run: merge(args.run, config.run),
        quiet: if args.quiet {
            true
        } else {
            config.quiet
        },
        clean: if args.clean {
            true
        } else {
            config.clean
        },
        color: merge(args.color, config.color),
        base: merge(args.base, config.base),
        files: merge(args.files, config.files),
    }
}

/// Precedence of the three layers. In the merged configuration every
/// field has the command line's value where the command line gave one,
/// else the file's value where the file gave one, else the default:
/// no target to run, not quiet, no cleaning, colour mode `Auto`, base
/// directory `src`, no explicit files.
pub proof fn lemma_layer_precedence(args: Config, disk: Config)
    ensures
        ({
            let merged = Config::over(args, Config::over(disk, Config::empty()));
            &&& merged == Config::over(args, disk)
            &&& merged.run == if args.run is Some {
                args.run
            } else if disk.run is Some {
                disk.run
            } else {
                None
            }
            &&& merged.quiet == if args.quiet {
                true
            } else if disk.quiet {
                true
            } else {
                false
            }
            &&& merged.clean == if args.clean {
                true
            } else if disk.clean {
                true
            } else {
                false
            }
            &&& merged.effective_color() == if args.color is Some {
                args.color->0
            } else if disk.color is Some {
                disk.color->0
            } else {
                ColorMode::Auto
            }
            &&& merged.effective_base() == if args.base is Some {
                args.base->0@
            } else if disk.base is Some {
                disk.base->0@
            } else {
                default_base()
            }
            &&& merged.files == if args.files is Some {
                args.files
            } else if disk.files is Some {
                disk.files
            } else {
                None
            }
        }),
{
}

} // verus!
