//! The engine's call interface, as plain values.
//!
//! A [`Call`] names one call of the engine with its arguments; a [`Reply`] holds
//! what the engine answered. Handles of the engine are machine words, zero
//! standing for "none".
use crate::flags::known;
use vstd::prelude::*;

verus! {

/// One call of the engine.
#[derive(Debug, PartialEq, Eq)]
pub enum Call {
    /// Allocate an environment.
    EnvCreate,
    /// Open the environment `env` at `home`.
    EnvOpen { env: usize, home: Option<String>, flags: u32, mode: i32 },
    /// Close the environment `env`.
    EnvClose { env: usize },
    /// Begin a transaction in `env`, under `parent` unless that is zero.
    TxnBegin { env: usize, parent: usize, flags: u32 },
    /// Commit the transaction `txn`.
    TxnCommit { txn: usize, flags: u32 },
    /// Abort the transaction `txn`.
    TxnAbort { txn: usize },
    /// Allocate a database, in `env` unless that is zero.
    DbCreate { env: usize },
    /// Open the database `db`, within `txn` unless that is zero.
    DbOpen {
        db: usize,
        txn: usize,
        file: Option<String>,
        name: Option<String>,
        db_type: u32,
        flags: u32,
        mode: i32,
    },
    /// Close the database `db`.
    DbClose { db: usize },
    /// Look `key` up in `db`, within `txn` unless that is zero.
    DbGet { db: usize, txn: usize, key: Vec<u8>, flags: u32 },
    /// Store `data` under `key` in `db`, within `txn` unless that is zero.
    DbPut { db: usize, txn: usize, key: Vec<u8>, data: Vec<u8>, flags: u32 },
    /// Open a cursor on `db`.
    DbCursor { db: usize },
    /// Move `cursor` to the next record and read it.
    CursorNext { cursor: usize },
    /// Close `cursor`.
    CursorClose { cursor: usize },
    /// Ask for the text that describes the status `code`; the text is the
    /// data of the reply.
    Strerror { code: i32 },
}

/// What a [`Call`] says: the same call, with each text and each record as the
/// sequence that it holds.
pub enum CallView {
    EnvCreate,
    EnvOpen { env: usize, home: Option<Seq<char>>, flags: u32, mode: i32 },
    EnvClose { env: usize },
    TxnBegin { env: usize, parent: usize, flags: u32 },
    TxnCommit { txn: usize, flags: u32 },
    TxnAbort { txn: usize },
    DbCreate { env: usize },
    DbOpen {
        db: usize,
        txn: usize,
        file: Option<Seq<char>>,
        name: Option<Seq<char>>,
        db_type: u32,
        flags: u32,
        mode: i32,
    },
    DbClose { db: usize },
    DbGet { db: usize, txn: usize, key: Seq<u8>, flags: u32 },
    DbPut { db: usize, txn: usize, key: Seq<u8>, data: Seq<u8>, flags: u32 },
    DbCursor { db: usize },
    CursorNext { cursor: usize },
    CursorClose { cursor: usize },
    Strerror { code: i32 },
}

/// The characters of an optional text.
pub open spec fn text_of(text: Option<String>) -> Option<Seq<char>> {
    match text {
        Some(t) => Some(t@),
        None => None,
    }
}

/// No character of `text` is NUL, so the engine reads all of it.
pub open spec fn no_nul(text: Seq<char>) -> bool {
    forall|i: int| 0 <= i < text.len() ==> text[i] != '\0'
}

/// The length that the engine is told for a record of `len` bytes: the low
/// 32 bits of `len`, which is all that its field for it holds.
pub open spec fn wire_len(len: nat) -> u32 {
    len as u32
}

/// The bytes of `bytes` that the engine is told of: all of them, unless they
/// are more than the length field can say; then as many as the field says.
pub open spec fn wire_bytes(bytes: Seq<u8>) -> Seq<u8> {
    if bytes.len() <= u32::MAX {
        bytes
    } else {
        bytes.subrange(0, wire_len(bytes.len()) as int)
    }
}

impl View for Call {
    type V = CallView;

    open spec fn view(&self) -> CallView {
        match *self {
            Call::EnvCreate => CallView::EnvCreate,
            Call::EnvOpen { env, home, flags, mode } => CallView::EnvOpen {
                env,
                home: text_of(home),
                flags,
                mode,
            },
            Call::EnvClose { env } => CallView::EnvClose { env },
            Call::TxnBegin { env, parent, flags } => CallView::TxnBegin { env, parent, flags },
            Call::TxnCommit { txn, flags } => CallView::TxnCommit { txn, flags },
            Call::TxnAbort { txn } => CallView::TxnAbort { txn },
            Call::DbCreate { env } => CallView::DbCreate { env },
            Call::DbOpen { db, txn, file, name, db_type, flags, mode } => CallView::DbOpen {
                db,
                txn,
                file: text_of(file),
                name: text_of(name),
                db_type,
                flags,
                mode,
            },
            Call::DbClose { db } => CallView::DbClose { db },
            Call::DbGet { db, txn, key, flags } => CallView::DbGet { db, txn, key: key@, flags },
            Call::DbPut { db, txn, key, data, flags } => CallView::DbPut {
                db,
                txn,
                key: key@,
                data: data@,
                flags,
            },
            Call::DbCursor { db } => CallView::DbCursor { db },
            Call::CursorNext { cursor } => CallView::CursorNext { cursor },
            Call::CursorClose { cursor } => CallView::CursorClose { cursor },
            Call::Strerror { code } => CallView::Strerror { code },
        }
    }
}

impl CallView {
    /// The engine can take the call as it stands: no text is cut short by a
    /// NUL, no record is longer than its length field can say, and no bit is
    /// set that stands for no flag.
    pub open spec fn fits_engine(self) -> bool {
        match self {
            CallView::EnvOpen { home, flags, .. } => {
                &&& home matches Some(h) ==> no_nul(h)
                &&& known(flags)
            },
            CallView::TxnBegin { flags, .. } => known(flags),
            CallView::TxnCommit { flags, .. } => known(flags),
            CallView::DbOpen { file, name, flags, .. } => {
                &&& file matches Some(f) ==> no_nul(f)
                &&& name matches Some(n) ==> no_nul(n)
                &&& known(flags)
            },
            CallView::DbGet { key, flags, .. } => key.len() <= u32::MAX && known(flags),
            CallView::DbPut { key, data, flags, .. } => {
                &&& key.len() <= u32::MAX
                &&& data.len() <= u32::MAX
                &&& known(flags)
            },
            _ => true,
        }
    }
}

/// What a sequence of calls says, call by call.
pub open spec fn views(calls: Seq<Call>) -> Seq<CallView> {
    calls.map_values(|c: Call| c@)
}

/// The calls of `a`, then those of `b`, say what `a` says, then what `b` says.
pub proof fn lemma_views_concat(a: Seq<Call>, b: Seq<Call>)
    ensures
        views(a + b) == views(a) + views(b),
{
    assert(views(a + b) =~= views(a) + views(b));
}

/// What the engine answered to a call.
#[derive(Debug, PartialEq, Eq)]
pub struct Reply {
    /// The status code: zero for success.
    pub status: i32,
    /// The handle that the call made, where it makes one.
    pub handle: usize,
    /// The key that the call read, where it reads one.
    pub key: Vec<u8>,
    /// The data that the call read, where it reads some.
    pub data: Vec<u8>,
}

/// What a [`Reply`] says: the same reply, with each record as the sequence
/// that it holds.
pub struct ReplyView {
    /// The status code: zero for success.
    pub status: i32,
    /// The handle that the call made.
    pub handle: usize,
    /// The key that the call read.
    pub key: Seq<u8>,
    /// The data that the call read.
    pub data: Seq<u8>,
}

impl View for Reply {
    type V = ReplyView;

    open spec fn view(&self) -> ReplyView {
        ReplyView { status: self.status, handle: self.handle, key: self.key@, data: self.data@ }
    }
}

impl Reply {
    /// The reply of a call that answers with a status alone.
    pub fn bare(status: i32) -> (r: Reply)
        ensures
            r@ == (ReplyView { status, handle: 0, key: Seq::empty(), data: Seq::empty() }),
    {
        Reply { status, handle: 0, key: Vec::new(), data: Vec::new() }
    }

    /// The reply of a call that makes a handle.
    pub fn created(status: i32, handle: usize) -> (r: Reply)
        ensures
            r@ == (ReplyView { status, handle, key: Seq::empty(), data: Seq::empty() }),
    {
        Reply { status, handle, key: Vec::new(), data: Vec::new() }
    }

    /// The reply of a call that reads a record.
    pub fn record(status: i32, key: Vec<u8>, data: Vec<u8>) -> (r: Reply)
        ensures
            r@ == (ReplyView { status, handle: 0, key: key@, data: data@ }),
    {
        Reply { status, handle: 0, key, data }
    }
}

/// The bytes of `bytes` that the engine is told of, as a record of a call.
pub fn to_wire(bytes: &[u8]) -> (v: Vec<u8>)
    ensures
        v@ == wire_bytes(bytes@),
        v@.len() <= u32::MAX,
{
    if bytes.len() <= u32::MAX as usize {
        vstd::slice::slice_to_vec(bytes)
    } else {
        let len: usize = bytes.len();
        let told: u32 = #[verifier::truncate] (len as u32);
        assert((len as u32) as usize <= len) by (bit_vector);
        assert(told == wire_len(bytes@.len()));
        vstd::slice::slice_to_vec(vstd::slice::slice_subrange(bytes, 0, told as usize))
    }
}

} // verus!
