//! The error values shared by the reactor and the streams.

use vstd::prelude::*;

verus! {

/// A failure reported by the reactor or by one of the streams.
#[derive(Clone, Debug, PartialEq, Eq)]
pub enum Error {
    /// The interest is already registered with the reactor.
    AlreadyRegistered,
    /// An operation on a descriptor failed; the payload is the error
    /// number that the operating system reported for it.
    Os(i32),
    /// A failure of another kind, described by a message.
    Other(String),
}

/// What an operation on a descriptor reported: its result code, and the
/// operating system's error number as read right after the call.
#[derive(Clone, Copy, Debug, PartialEq, Eq)]
pub struct OsReply {
    /// The result code of the call.
    pub code: i32,
    /// The last error number; meaningful only if the call failed.
    pub errno: i32,
}

impl OsReply {
    /// The call failed: by convention its result code is `-1`.
    pub open spec fn failed(self) -> bool {
        self.code == -1
    }

    /// The reply of a call that succeeded with result code zero.
    pub fn success() -> (reply: OsReply)
        ensures
            reply == (OsReply { code: 0, errno: 0 }),
            !reply.failed(),
    {
        OsReply { code: 0, errno: 0 }
    }

    /// The reply of a call that failed with the given error number.
    pub fn failure(errno: i32) -> (reply: OsReply)
        ensures
            reply.code == -1,
            reply.errno == errno,
            reply.failed(),
    {
        OsReply { code: -1, errno }
    }

    /// Turns the reply of a call that answers zero on success into a
    /// result: any other result code is a failure, and the error carries
    /// the error number.
    pub fn check_zero(self) -> (res: Result<(), Error>)
        ensures
            self.code != 0 ==> res == Err::<(), Error>(Error::Os(self.errno)),
            self.code == 0 ==> res == Ok::<(), Error>(()),
    {
        if self.code != 0 {
            Err(Error::Os(self.errno))
        } else {
            Ok(())
        }
    }

    /// Turns the reply into a result: the error carries the error number
    /// exactly when the call failed.
    pub fn check(self) -> (res: Result<(), Error>)
        ensures
            self.failed() ==> res == Err::<(), Error>(Error::Os(self.errno)),
            !self.failed() ==> res == Ok::<(), Error>(()),
    {
        if self.code == -1 {
            Err(Error::Os(self.errno))
        } else {
            Ok(())
        }
    }
}

} // verus!
