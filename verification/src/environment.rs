//! The environments that the process runs in, and how much each one logs.

use vstd::prelude::*;

verus! {

/// Where the process runs.
#[derive(Clone, Debug, PartialEq, Eq)]
pub enum Environment {
    Development,
    Production,
    Test,
    Any(String),
}

/// How much is logged: everything at `Trace`, failures only at `Error`.
#[derive(Clone, Copy, Debug, PartialEq, Eq)]
pub enum LogLevel {
    Trace,
    Debug,
    Info,
    Warn,
    Error,
}

/// The log level of an environment.
pub open spec fn level_of(environment: Environment) -> LogLevel {
    match environment {
        Environment::Development => LogLevel::Debug,
        Environment::Test => LogLevel::Info,
        Environment::Production => LogLevel::Warn,
        Environment::Any(_) => LogLevel::Error,
    }
}

/// The text that refuses the environment name `env`.
pub open spec fn unknown_environment(env: Seq<char>) -> Seq<char> {
    "Unknown environment: "@ + env
}

/// The build that a version line names: the first of the two commits that
/// is known, and `dev` where none is.
pub open spec fn build_of(build_sha: Option<Seq<char>>, github_sha: Option<Seq<char>>) -> Seq<
    char,
> {
    match build_sha {
        Some(sha) => sha,
        None => match github_sha {
            Some(sha) => sha,
            None => "dev"@,
        },
    }
}

/// The version of the application with the build it was made from, as in
/// `0.1.0 (dev)`.
pub fn app_version(version: &str, build_sha: Option<&str>, github_sha: Option<&str>) -> (line:
    String)
    ensures
        line@ == version@ + " ("@ + build_of(
            match build_sha {
                Some(sha) => Some(sha@),
                None => None,
            },
            match github_sha {
                Some(sha) => Some(sha@),
                None => None,
            },
        ) + ")"@,
{
    let build = match build_sha {
        Some(sha) => sha,
        None => match github_sha {
            Some(sha) => sha,
            None => "dev",
        },
    };
    String::from_str(version).concat(" (").concat(build).concat(")")
}

/// An environment's log level, and the environment of a name.
pub trait EnvironmentExt: Sized {
    fn log_level(&self) -> LogLevel;

    /// The environment named `env`, or the text that refuses the name.
    fn from_str(env: &str) -> Result<Self, String>;
}

impl EnvironmentExt for Environment {
    fn log_level(&self) -> (level: LogLevel)
        ensures
            level == level_of(*self),
    {
        match self {
            Environment::Development => LogLevel::Debug,
            Environment::Test => LogLevel::Info,
            Environment::Production => LogLevel::Warn,
            Environment::Any(_) => LogLevel::Error,
        }
    }

    /// `Development` and `Production` are known by their names, written so.
    /// Every other name is refused.
    fn from_str(env: &str) -> (environment: Result<Environment, String>)
        ensures
            env@ == "Development"@ ==> environment == Ok::<Environment, String>(
                Environment::Development,
            ),
            env@ == "Production"@ ==> environment == Ok::<Environment, String>(
                Environment::Production,
            ),
            env@ != "Development"@ && env@ != "Production"@ ==> environment is Err
                && environment->Err_0@ == unknown_environment(env@),
    {
        proof {
            reveal_strlit("Development");
            reveal_strlit("Production");
            assert("Development"@.len() != "Production"@.len());
        }
        let name = String::from_str(env);
        if name == String::from_str("Development") {
            Ok(Environment::Development)
        } else if name == String::from_str("Production") {
            Ok(Environment::Production)
        } else {
            Err(String::from_str("Unknown environment: ").concat(env))
        }
    }
}

} // verus!
