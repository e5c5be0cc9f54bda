//! Errors of the configuration and of the replica commands, with their messages.
use vstd::prelude::*;

verus! {

/// A configuration that cannot be completed.
#[derive(Debug, Clone, Copy, PartialEq, Eq, Structural)]
pub enum ConfigError {
    NoTask,
}

impl ConfigError {
    /// The message shown for the error.
    pub open spec fn message(self) -> Seq<char> {
        match self {
            ConfigError::NoTask => "Unable to find task binary - please ensure the `task` command is available in your $PATH"@,
        }
    }

    /// The message shown for the error.
    pub fn to_string(&self) -> (r: String)
        ensures
            r@ == self.message(),
    {
        match self {
            ConfigError::NoTask => String::from_str(
                "Unable to find task binary - please ensure the `task` command is available in your $PATH",
            ),
        }
    }
}

/// What can go wrong while working on the projects of the replica.
#[derive(Debug, PartialEq, Eq)]
pub enum ProjChampionError {
    Replica(String),
    TaskList,
    NoProj,
    SubCommand(String),
    InvalidUndo,
    Sync(String),
    Other,
}

impl ProjChampionError {
    /// The message shown for the error.
    pub open spec fn message(self) -> Seq<char> {
        match self {
            ProjChampionError::Replica(e) => "Unable to setup replica: "@ + e@,
            ProjChampionError::TaskList => "Error querying taskwarrior"@,
            ProjChampionError::NoProj => "No project specified"@,
            ProjChampionError::SubCommand(e) => "Subcommand "@ + e@ + " not valid."@,
            ProjChampionError::InvalidUndo => "Unable to undo last operation."@,
            ProjChampionError::Sync(e) => "Unable to sync: "@ + e@,
            ProjChampionError::Other => "An error has occured"@,
        }
    }

    /// The message shown for the error.
    pub fn to_string(&self) -> (r: String)
        ensures
            r@ == self.message(),
    {
        match self {
            ProjChampionError::Replica(e) => String::from_str("Unable to setup replica: ").concat(
                e.as_str(),
            ),
            ProjChampionError::TaskList => String::from_str("Error querying taskwarrior"),
            ProjChampionError::NoProj => String::from_str("No project specified"),
            ProjChampionError::SubCommand(e) => String::from_str("Subcommand ").concat(
                e.as_str(),
            ).concat(" not valid."),
            ProjChampionError::InvalidUndo => String::from_str("Unable to undo last operation."),
            ProjChampionError::Sync(e) => String::from_str("Unable to sync: ").concat(e.as_str()),
            ProjChampionError::Other => String::from_str("An error has occured"),
        }
    }
}

/// `taskchampion::Error`, carried as an opaque value.
#[verifier::external_type_specification]
#[verifier::external_body]
pub struct ExReplicaError(taskchampion::Error);

/// What `taskchampion::Error`'s `Display` writes for an error: a function of the error alone.
pub uninterp spec fn replica_text(e: taskchampion::Error) -> Seq<char>;

/// Calls `taskchampion::Error`'s `Display` (`to_string`). Claimed: the text is `replica_text` of the error.
#[verifier::external_body]
fn replica_error_text(err: &taskchampion::Error) -> (r: String)
    ensures
        r@ == replica_text(*err),
{
    err.to_string()
}

impl From<taskchampion::Error> for ProjChampionError {
    /// A replica failure, kept with the replica's own description of it.
    fn from(err: taskchampion::Error) -> (r: ProjChampionError)
        ensures
            r matches ProjChampionError::Replica(s) && s@ == replica_text(err),
    {
        ProjChampionError::Replica(replica_error_text(&err))
    }
}

/// The conversion makes no claim through the trait's exact-result
/// specification: its message depends on the error's contents, which the
/// library does not see. What it does guarantee is stated on `from` itself.
impl vstd::std_specs::convert::FromSpecImpl<taskchampion::Error> for ProjChampionError {
    open spec fn obeys_from_spec() -> bool {
        false
    }

    open spec fn from_spec(v: taskchampion::Error) -> ProjChampionError {
        arbitrary()
    }
}

} // verus!
