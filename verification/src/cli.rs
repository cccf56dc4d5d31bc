//! The executing environment a command-line program is started in.
use vstd::prelude::*;

use crate::text::str_eq;

verus! {

/// Where the program runs.
#[derive(Clone, Copy, Debug, PartialEq, Eq, Structural)]
pub enum Environment {
    Production,
    Develop,
    Staging,
}

/// The names an environment is read from.
pub open spec fn environment_named(name: Seq<char>) -> Option<Environment> {
    if name == "prod"@ || name == "production"@ {
        Some(Environment::Production)
    } else if name == "dev"@ || name == "develop"@ {
        Some(Environment::Develop)
    } else if name == "stag"@ || name == "staging"@ {
        Some(Environment::Staging)
    } else {
        None
    }
}

/// The name an environment is written as.
pub open spec fn environment_name(env: Environment) -> Seq<char> {
    match env {
        Environment::Production => "production"@,
        Environment::Develop => "develop"@,
        Environment::Staging => "staging"@,
    }
}

impl Environment {
    pub fn prod(&self) -> (res: bool)
        ensures
            res == (*self == Environment::Production),
    {
        matches!(self, Environment::Production)
    }

    pub fn dev(&self) -> (res: bool)
        ensures
            res == (*self == Environment::Develop),
    {
        matches!(self, Environment::Develop)
    }

    pub fn staging(&self) -> (res: bool)
        ensures
            res == (*self == Environment::Staging),
    {
        matches!(self, Environment::Staging)
    }

    /// Reads an environment from one of its names (`prod`/`production`,
    /// `dev`/`develop`, `stag`/`staging`; case matters).
    pub fn parse(name: &str) -> (res: Option<Environment>)
        ensures
            res == environment_named(name@),
    {
        proof {
            reveal_strlit("prod");
            reveal_strlit("production");
            reveal_strlit("dev");
            reveal_strlit("develop");
            reveal_strlit("stag");
            reveal_strlit("staging");
        }
        if str_eq(name, "prod") || str_eq(name, "production") {
            Some(Environment::Production)
        } else if str_eq(name, "dev") || str_eq(name, "develop") {
            Some(Environment::Develop)
        } else if str_eq(name, "stag") || str_eq(name, "staging") {
            Some(Environment::Staging)
        } else {
            None
        }
    }

    /// The name the environment is written as.
    pub fn as_str(&self) -> (res: &'static str)
        ensures
            res@ == environment_name(*self),
    {
        match self {
            Environment::Production => "production",
            Environment::Develop => "develop",
            Environment::Staging => "staging",
        }
    }
}

/// A name that is not one of an environment's names.
#[derive(Debug, Clone, Copy, PartialEq, Eq, Structural)]
pub struct UnknownEnvironment;

impl std::str::FromStr for Environment {
    type Err = UnknownEnvironment;

    fn from_str(s: &str) -> (res: Result<Environment, UnknownEnvironment>)
        ensures
            res == match environment_named(s@) {
                Some(e) => Ok::<Environment, UnknownEnvironment>(e),
                None => Err(UnknownEnvironment),
            },
    {
        match Environment::parse(s) {
            Some(e) => Ok(e),
            None => Err(UnknownEnvironment),
        }
    }
}

/// Reading back the name an environment is written as gives the same environment.
pub proof fn law_environment_name_roundtrip(env: Environment)
    ensures
        environment_named(environment_name(env)) == Some(env),
{
    reveal_strlit("prod");
    reveal_strlit("production");
    reveal_strlit("dev");
    reveal_strlit("develop");
    reveal_strlit("stag");
    reveal_strlit("staging");
    assert("production"@.len() == 10 && "prod"@.len() == 4 && "dev"@.len() == 3);
    assert("develop"@.len() == 7 && "staging"@.len() == 7 && "stag"@.len() == 4);
    assert("develop"@[0] != "staging"@[0]);
}

/// The options every command line of this family accepts.
pub struct BaseCli {
    /// Executing environment.
    pub env: Environment,
    /// Debug mode.
    pub debug: bool,
}

} // verus!
