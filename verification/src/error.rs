use vstd::prelude::*;
use embassy_executor::SpawnError;

verus! {

/// `embassy_executor::SpawnError`, the reason the executor gives when it turns a task down.
/// Nothing is assumed of what a value of it holds.
#[verifier::external_type_specification]
#[verifier::external_body]
pub struct ExSpawnError(SpawnError);

/// What can go wrong in this crate.
#[derive(Debug)]
pub enum Error {
    /// The executor did not take the task that drives the LED.
    TaskSpawn(SpawnError),
}

impl From<SpawnError> for Error {
    fn from(cause: SpawnError) -> (error: Error) {
        Error::TaskSpawn(cause)
    }
}

impl vstd::std_specs::convert::FromSpecImpl<SpawnError> for Error {
    open spec fn obeys_from_spec() -> bool {
        true
    }

    open spec fn from_spec(cause: SpawnError) -> Error {
        Error::TaskSpawn(cause)
    }
}

} // verus!
