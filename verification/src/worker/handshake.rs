//! The handshake: the first message that a worker sends on its stream. It
//! declares the version of the worker's software and the worker's class.

use crate::text::{decimal, push_decimal};
use vstd::prelude::*;
use vstd::string::StringExecFns;

verus! {

/// `semver::Error`, the reason why a text is no semantic version.
#[verifier::external_type_specification]
#[verifier::external_body]
pub struct ExSemverError(semver::Error);

/// The major number of the semantic version that `text` spells, as
/// `semver::Version::parse` reads it, or `None` where it rejects the text.
pub uninterp spec fn semver_major(text: Seq<char>) -> Option<u64>;

/// `semver::Version::parse`, of whose result the field `major` is read.
/// Parsing looks at the text alone.
#[verifier::external_body]
fn parse_major(text: &str) -> (r: Result<u64, semver::Error>)
    ensures
        match r {
            Ok(major) => semver_major(text@) == Some(major),
            Err(_) => semver_major(text@) is None,
        },
{
    match semver::Version::parse(text) {
        Ok(version) => Ok(version.major),
        Err(error) => Err(error),
    }
}

/// Why no handshake can be made.
#[derive(Debug, Clone, Copy, PartialEq, Eq, Structural)]
pub enum HandshakeError {
    /// The version of the proving engine is no semantic version.
    EngineVersion,
}

/// The handshake message.
#[derive(Debug, Clone, PartialEq, Eq)]
pub struct WorkerReady {
    /// Version of the worker's software.
    pub version: String,
    /// Class of the worker: the kind of machine it runs on, and the major
    /// version of its proving engine.
    pub worker_class: String,
}

/// The class of a worker: its instance type, a hyphen, and the major version
/// of its proving engine in decimal.
pub open spec fn spec_worker_class(instance_type: Seq<char>, major: u64) -> Seq<char> {
    instance_type + seq!['-'] + decimal(major as nat)
}

/// Spells the class of a worker.
pub fn worker_class(instance_type: &str, major: u64) -> (r: String)
    ensures
        r@ == spec_worker_class(instance_type@, major),
{
    proof {
        reveal_strlit("-");
        assert("-"@ =~= seq!['-']);
    }
    let mut class = String::from_str(instance_type);
    class.append("-");
    push_decimal(&mut class, major);
    class
}

impl WorkerReady {
    /// The handshake of a worker whose engine has the major version `major`.
    pub fn new(version: String, instance_type: &str, major: u64) -> (r: Self)
        ensures
            r.version == version,
            r.worker_class@ == spec_worker_class(instance_type@, major),
    {
        Self { version, worker_class: worker_class(instance_type, major) }
    }

    /// The handshake of a worker whose engine reports the version
    /// `engine_version`. There is none where that is no semantic version.
    pub fn for_engine(version: String, instance_type: &str, engine_version: &str) -> (r: Result<
        Self,
        HandshakeError,
    >)
        ensures
            match r {
                Ok(ready) => semver_major(engine_version@) matches Some(major) && ready.version
                    == version && ready.worker_class@ == spec_worker_class(
                    instance_type@,
                    major,
                ),
                Err(HandshakeError::EngineVersion) => semver_major(engine_version@) is None,
            },
    {
        match parse_major(engine_version) {
            Ok(major) => Ok(Self::new(version, instance_type, major)),
            Err(_) => Err(HandshakeError::EngineVersion),
        }
    }
}

} // verus!
