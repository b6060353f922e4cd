//! Status codes of the engine and the errors they map to.
use crate::engine::Call;
use crate::engine::CallView;
use crate::engine::Reply;
use vstd::prelude::*;

verus! {

/// User memory too small for return.
pub const DB_BUFFER_SMALL: i32 = -30999;

/// "Null" return from a secondary-index callback.
pub const DB_DONOTINDEX: i32 = -30998;

/// A foreign database constraint triggered.
pub const DB_FOREIGN_CONFLICT: i32 = -30997;

/// Key/data deleted or never created.
pub const DB_KEYEMPTY: i32 = -30996;

/// The key/data pair already exists.
pub const DB_KEYEXIST: i32 = -30995;

/// Deadlock.
pub const DB_LOCK_DEADLOCK: i32 = -30994;

/// Lock unavailable.
pub const DB_LOCK_NOTGRANTED: i32 = -30993;

/// In-memory log buffer full.
pub const DB_LOG_BUFFER_FULL: i32 = -30992;

/// Server panic return.
pub const DB_NOSERVER: i32 = -30991;

/// Bad home sent to server.
pub const DB_NOSERVER_HOME: i32 = -30990;

/// Bad ID sent to server.
pub const DB_NOSERVER_ID: i32 = -30989;

/// Key/data pair not found (end of data).
pub const DB_NOTFOUND: i32 = -30988;

/// Out-of-date version.
pub const DB_OLD_VERSION: i32 = -30987;

/// Requested page not found.
pub const DB_PAGE_NOTFOUND: i32 = -30986;

/// There are two masters.
pub const DB_REP_DUPMASTER: i32 = -30985;

/// Rolled back a commit.
pub const DB_REP_HANDLE_DEAD: i32 = -30984;

/// Time to hold an election.
pub const DB_REP_HOLDELECTION: i32 = -30983;

/// This message should be ignored.
pub const DB_REP_IGNORE: i32 = -30982;

/// Cached record not written, permanent record written.
pub const DB_REP_ISPERM: i32 = -30981;

/// Unable to join replication group.
pub const DB_REP_JOIN_FAILURE: i32 = -30980;

/// Master lease has expired.
pub const DB_REP_LEASE_EXPIRED: i32 = -30979;

/// API/replication lockout now.
pub const DB_REP_LOCKOUT: i32 = -30978;

/// New site entered system.
pub const DB_REP_NEWSITE: i32 = -30977;

/// Permanent log record not written.
pub const DB_REP_NOTPERM: i32 = -30976;

/// Site cannot currently be reached.
pub const DB_REP_UNAVAIL: i32 = -30975;

/// Panic return: the environment must be recovered.
pub const DB_RUNRECOVERY: i32 = -30974;

/// Secondary index corrupt.
pub const DB_SECONDARY_BAD: i32 = -30973;

/// Verify failed; bad format.
pub const DB_VERIFY_BAD: i32 = -30972;

/// Environment version mismatch.
pub const DB_VERSION_MISMATCH: i32 = -30971;

/// What a status code of the engine stands for.
#[derive(Clone, Copy, Debug, PartialEq, Eq, Structural)]
pub enum ErrorKind {
    /// No record under the key, or no further record under the cursor.
    NotFound,
    /// The key/data pair already exists.
    KeyExists,
    /// The caller was chosen to break a deadlock; it may try again.
    Deadlock,
    /// A lock could not be had.
    LockNotGranted,
    /// The engine demands recovery of the whole environment.
    RunRecovery,
    /// The memory offered for the result was too small.
    BufferTooSmall,
    /// Any other code.
    Generic { code: i32 },
}

/// The kind that the status code `code` maps to.
pub open spec fn kind_of(code: i32) -> ErrorKind {
    if code == DB_NOTFOUND {
        ErrorKind::NotFound
    } else if code == DB_KEYEXIST {
        ErrorKind::KeyExists
    } else if code == DB_LOCK_DEADLOCK {
        ErrorKind::Deadlock
    } else if code == DB_LOCK_NOTGRANTED {
        ErrorKind::LockNotGranted
    } else if code == DB_RUNRECOVERY {
        ErrorKind::RunRecovery
    } else if code == DB_BUFFER_SMALL {
        ErrorKind::BufferTooSmall
    } else {
        ErrorKind::Generic { code }
    }
}

/// What a call that yields nothing but a status comes to: success on zero,
/// the code as an error otherwise.
pub open spec fn status_result(status: i32) -> Result<(), Error> {
    if status == 0 {
        Ok(())
    } else {
        Err(Error { errno: status })
    }
}

/// An error returned from a call of the engine.
#[derive(Clone, Copy, Debug, PartialEq, Eq, Structural)]
pub struct Error {
    pub errno: i32,
}

impl Error {
    /// Create a new `Error`.
    pub fn new(errno: i32) -> (e: Error)
        ensures
            e.errno == errno,
    {
        Error { errno }
    }

    /// Return the error number.
    pub fn errno(&self) -> (code: i32)
        ensures
            code == self.errno,
    {
        self.errno
    }

    /// Classify the error number.
    pub fn kind(&self) -> (kind: ErrorKind)
        ensures
            kind == kind_of(self.errno),
    {
        let code: i32 = self.errno;
        if code == DB_NOTFOUND {
            ErrorKind::NotFound
        } else if code == DB_KEYEXIST {
            ErrorKind::KeyExists
        } else if code == DB_LOCK_DEADLOCK {
            ErrorKind::Deadlock
        } else if code == DB_LOCK_NOTGRANTED {
            ErrorKind::LockNotGranted
        } else if code == DB_RUNRECOVERY {
            ErrorKind::RunRecovery
        } else if code == DB_BUFFER_SMALL {
            ErrorKind::BufferTooSmall
        } else {
            ErrorKind::Generic { code }
        }
    }

    /// The call that asks the engine to describe the error.
    pub fn as_string_call(&self) -> (call: Call)
        ensures
            call@ == (CallView::Strerror { code: self.errno }),
            call@.fits_engine(),
    {
        Call::Strerror { code: self.errno }
    }

    /// Return a `String` describing the error. `described` is the engine's
    /// answer to `as_string_call`, with the text as its data; bytes in it that
    /// are no UTF-8 come out as U+FFFD.
    pub fn as_string(&self, described: &Reply) -> (text: String)
        ensures
            text@ == lossy_text(described.data@),
            vstd::utf8::valid_utf8(described.data@) ==> text@ == vstd::utf8::decode_utf8(
                described.data@,
            ),
    {
        decode_lossy(described.data.as_slice())
    }

    /// Turn a bare status into a result.
    pub fn check(status: i32) -> (r: Result<(), Error>)
        ensures
            r == status_result(status),
    {
        if status == 0 {
            Ok(())
        } else {
            Err(Error::new(status))
        }
    }
}

/// The text that `String::from_utf8_lossy` of std makes of `bytes`.
pub uninterp spec fn lossy_text(bytes: Seq<u8>) -> Seq<char>;

/// Decodes `bytes` with `String::from_utf8_lossy` of std, which reads them as
/// UTF-8 and puts U+FFFD in place of what is not. The contract names the
/// text, and says for bytes that are UTF-8 throughout that it is what they
/// encode.
#[verifier::external_body]
fn decode_lossy(bytes: &[u8]) -> (text: String)
    ensures
        text@ == lossy_text(bytes@),
        vstd::utf8::valid_utf8(bytes@) ==> text@ == vstd::utf8::decode_utf8(bytes@),
{
    String::from_utf8_lossy(bytes).into_owned()
}

} // verus!
