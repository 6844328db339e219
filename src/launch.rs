//! The launch specification of the helper process.
use vstd::prelude::*;
use crate::args::{command_args, command_line, texts};
use crate::settings::{
    fields_view, parse_message, resolve_settings, settings_error, ParseError, RawSettings,
};

verus! {

/// The file name of the helper executable.
pub const SERVER_PATH: &'static str = "axiom-mcp";

/// Why no launch specification could be built.
#[derive(Clone, Copy, Debug, PartialEq, Eq, Structural)]
pub enum ConfigError {
    /// The project holds no settings for this context server.
    Missing,
    /// The settings could not be read.
    Malformed(ParseError),
    /// The working directory could not be determined.
    WorkingDirectoryUnavailable,
}

/// How the host launches the helper process.
pub struct LaunchSpec {
    pub command: String,
    pub args: Vec<String>,
    pub env: Vec<(String, String)>,
}

/// The mathematical value of `LaunchSpec`.
pub struct LaunchView {
    pub command: Seq<char>,
    pub args: Seq<Seq<char>>,
    pub env: Seq<(Seq<char>, Seq<char>)>,
}

impl View for LaunchSpec {
    type V = LaunchView;

    open spec fn view(&self) -> LaunchView {
        LaunchView {
            command: self.command@,
            args: texts(self.args@),
            env: self.env@.map_values(|e: (String, String)| (e.0@, e.1@)),
        }
    }
}

/// The path that `std::path::Path::join` makes of a directory and a name.
pub uninterp spec fn joined_path(dir: Seq<char>, name: Seq<char>) -> Seq<char>;

/// Relies on `std::path::Path::join`: the path of `name` inside `dir`. Both
/// parts are UTF-8, so the lossy conversion back to a string loses nothing.
#[verifier::external_body]
fn join_path(dir: &str, name: &str) -> (r: String)
    ensures
        r@ == joined_path(dir@, name@),
{
    std::path::Path::new(dir).join(name).to_string_lossy().into_owned()
}

/// What `build_launch_spec` gives for the given settings and working
/// directory: settings are looked at first, then the working directory.
pub open spec fn launch_outcome(raw: Option<RawSettings>, working_dir: Option<Seq<char>>) -> Result<
    LaunchView,
    ConfigError,
> {
    match raw {
        None => Err(ConfigError::Missing),
        Some(r) => match settings_error(r) {
            Some(e) => Err(ConfigError::Malformed(e)),
            None => match working_dir {
                None => Err(ConfigError::WorkingDirectoryUnavailable),
                Some(d) => Ok(
                    LaunchView {
                        command: joined_path(d, SERVER_PATH@),
                        args: command_line(fields_view(r->Object_0)),
                        env: Seq::empty(),
                    },
                ),
            },
        },
    }
}

pub open spec fn outcome_view(r: Result<LaunchSpec, ConfigError>) -> Result<LaunchView, ConfigError> {
    match r {
        Ok(l) => Ok(l@),
        Err(e) => Err(e),
    }
}

pub open spec fn dir_view(d: Option<String>) -> Option<Seq<char>> {
    match d {
        Some(s) => Some(s@),
        None => None,
    }
}

/// Builds the launch specification of the helper process from the project's
/// settings (`None` where the project has none) and the current working
/// directory (`None` where it could not be read). The executable is the
/// helper's file name inside the working directory; the environment is left
/// as inherited.
pub fn build_launch_spec(raw: Option<RawSettings>, working_dir: Option<String>) -> (r: Result<
    LaunchSpec,
    ConfigError,
>)
    ensures
        outcome_view(r) == launch_outcome(raw, dir_view(working_dir)),
{
    let raw = match raw {
        None => {
            return Err(ConfigError::Missing);
        },
        Some(raw) => raw,
    };
    let settings = match resolve_settings(&raw) {
        Ok(s) => s,
        Err(e) => {
            return Err(ConfigError::Malformed(e));
        },
    };
    let args = command_args(&settings);
    let dir = match working_dir {
        None => {
            return Err(ConfigError::WorkingDirectoryUnavailable);
        },
        Some(d) => d,
    };
    let command = join_path(dir.as_str(), SERVER_PATH);
    let env: Vec<(String, String)> = Vec::new();
    let spec = LaunchSpec { command, args, env };
    assert(spec@.env =~= Seq::<(Seq<char>, Seq<char>)>::empty());
    Ok(spec)
}

/// The text under which an error is shown to the host.
pub open spec fn config_message(e: ConfigError) -> Seq<char> {
    match e {
        ConfigError::Missing => "missing Axiom settings"@,
        ConfigError::Malformed(p) => parse_message(p),
        ConfigError::WorkingDirectoryUnavailable => "current working directory unavailable"@,
    }
}

impl ConfigError {
    /// The text under which this error is shown to the host.
    pub fn message(&self) -> (r: String)
        ensures
            r@ == config_message(*self),
    {
        match self {
            ConfigError::Missing => String::from_str("missing Axiom settings"),
            ConfigError::Malformed(p) => p.message(),
            ConfigError::WorkingDirectoryUnavailable => String::from_str(
                "current working directory unavailable",
            ),
        }
    }
}

} // verus!
