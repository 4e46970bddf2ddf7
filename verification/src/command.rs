//! The three things the program can be told to do.

use vstd::prelude::*;
use vstd::string::*;
use crate::err::Error;
use crate::text::same_text;

verus! {

/// The first positional argument of the command line.
#[derive(Clone, Copy, Debug, PartialEq, Eq, Structural)]
pub enum Subcommand {
    /// Register the program as a service.
    Install,
    /// Remove the service's registration.
    Uninstall,
    /// Act as the service; this is how the supervisor starts the program.
    RunService,
}

/// The exit status of a run that did what it was asked.
pub const EXIT_SUCCESS: i32 = 0;

/// The exit status of a run that ended with an error.
pub const EXIT_FAILURE: i32 = 1;

/// The exit status of the program: success unless it ended with an error.
/// A workload that failed is no error of the program.
pub fn exit_code(outcome: &Result<(), Error>) -> (code: i32)
    ensures
        code == if outcome is Ok {
            EXIT_SUCCESS
        } else {
            EXIT_FAILURE
        },
{
    match outcome {
        Ok(_) => EXIT_SUCCESS,
        Err(_) => EXIT_FAILURE,
    }
}

impl Subcommand {
    /// The word that selects the subcommand.
    pub open spec fn word(self) -> Seq<char> {
        match self {
            Subcommand::Install => "install-service"@,
            Subcommand::Uninstall => "uninstall-service"@,
            Subcommand::RunService => "run-service"@,
        }
    }

    /// The subcommand that a word selects, if it selects one.
    pub open spec fn of_word(word: Seq<char>) -> Option<Subcommand> {
        if word == "install-service"@ {
            Some(Subcommand::Install)
        } else if word == "uninstall-service"@ {
            Some(Subcommand::Uninstall)
        } else if word == "run-service"@ {
            Some(Subcommand::RunService)
        } else {
            None
        }
    }

    /// The word that selects the subcommand.
    pub fn as_str(&self) -> (word: &'static str)
        ensures
            word@ == self.word(),
    {
        match self {
            Subcommand::Install => "install-service",
            Subcommand::Uninstall => "uninstall-service",
            Subcommand::RunService => "run-service",
        }
    }

    /// Reads the subcommand. Any other word is an error of the command line
    /// with the detail `Invalid subcommand`.
    pub fn from_word(word: &str) -> (read: Result<Subcommand, Error>)
        ensures
            match Self::of_word(word@) {
                Some(subcommand) => read == Ok::<Subcommand, Error>(subcommand),
                None => read matches Err(Error::ArgParser(detail)) && detail@
                    == "Invalid subcommand"@,
            },
    {
        if same_text(word, "install-service") {
            Ok(Subcommand::Install)
        } else if same_text(word, "uninstall-service") {
            Ok(Subcommand::Uninstall)
        } else if same_text(word, "run-service") {
            Ok(Subcommand::RunService)
        } else {
            Err(Error::ArgParser(String::from_str("Invalid subcommand")))
        }
    }

    /// Every subcommand is read back from its own word.
    pub proof fn word_round_trip(self)
        ensures
            Self::of_word(self.word()) == Some(self),
    {
        reveal_strlit("install-service");
        reveal_strlit("uninstall-service");
        reveal_strlit("run-service");
        assert("install-service"@[0] == 'i');
        assert("uninstall-service"@[0] == 'u');
        assert("run-service"@[0] == 'r');
    }
}

} // verus!
