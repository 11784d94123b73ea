//! The failure taxonomy: every failure is a value handed back to the
//! caller.

use vstd::prelude::*;

verus! {

/// What can go wrong while driving a punch-out process.
#[derive(Clone, Copy, Debug, PartialEq, Eq, Structural)]
pub enum OciError {
    /// The process id was never issued.
    NotFound,
    /// The call-up payload is absent, incomplete, or holds an
    /// unparsable number.
    MalformedCallUpData,
    /// The confirmation endpoint could not be reached or its reply
    /// could not be read.
    UpstreamFailure,
    /// A required URI or port was invalid at startup.
    ConfigurationFailure,
}

} // verus!
