//! Transactions: units of work that end in a commit or an abort.
use crate::engine::lemma_views_concat;
use crate::engine::views;
use crate::engine::Call;
use crate::engine::CallView;
use crate::engine::Reply;
use crate::env::env_release_calls;
use crate::env::Env;
use crate::env::Environment;
use crate::error::status_result;
use crate::error::Error;
use crate::flags::known;
use crate::flags::DB_TXN_NOSYNC;
use crate::flags::DB_TXN_SYNC;
use std::marker::PhantomData;
use std::rc::Rc;
use vstd::prelude::*;

verus! {

/// How the log is flushed when a transaction commits.
#[derive(Clone, Copy, Debug, PartialEq, Eq, Structural)]
pub enum CommitType {
    /// Inherit the commit mode from the transaction or the environment.
    Inherit,
    /// Do not synchronously flush the log.
    NoSync,
    /// Synchronously flush the log.
    Sync,
}

/// The engine's flag for a commit mode.
pub open spec fn commit_bits(mode: CommitType) -> u32 {
    match mode {
        CommitType::Inherit => 0,
        CommitType::NoSync => DB_TXN_NOSYNC,
        CommitType::Sync => DB_TXN_SYNC,
    }
}

impl CommitType {
    /// The engine's flag for the mode.
    pub fn bits(&self) -> (bits: u32)
        ensures
            bits == commit_bits(*self),
            known(bits),
    {
        assert(known(0) && known(DB_TXN_NOSYNC) && known(DB_TXN_SYNC)) by (bit_vector);
        match self {
            CommitType::Inherit => 0,
            CommitType::NoSync => DB_TXN_NOSYNC,
            CommitType::Sync => DB_TXN_SYNC,
        }
    }
}

/// The handle for a transaction that is not resolved yet. Commit and abort
/// use the handle up as they hand out their call, so no transaction is
/// resolved twice.
#[derive(Debug)]
pub struct Transaction {
    env: Environment,
    txn_ptr: usize,
    // A transaction is one sequence of operations: it stays on its thread.
    confined: PhantomData<Rc<()>>,
}

/// A transaction that is being resolved: the engine has been asked to commit
/// or to abort it, and its answer is awaited.
#[derive(Debug)]
pub struct Resolution {
    env: Environment,
    confined: PhantomData<Rc<()>>,
}

/// The engine's handle of an optional transaction: zero for none.
pub open spec fn txn_handle(txn: Option<&Transaction>) -> usize {
    match txn {
        Some(t) => t.handle(),
        None => 0,
    }
}

/// The engine's handle of an optional transaction: zero for none.
pub(crate) fn unwrap_txn_ptr(txn: Option<&Transaction>) -> (handle: usize)
    ensures
        handle == txn_handle(txn),
{
    match txn {
        Some(txn) => txn.txn_ptr,
        None => 0,
    }
}

/// What the engine is asked when `txn` is committed.
pub open spec fn commit_request(txn: Transaction, mode: CommitType) -> CallView {
    CallView::TxnCommit { txn: txn.handle(), flags: commit_bits(mode) }
}

/// What the engine is asked when `txn` is aborted.
pub open spec fn abort_request(txn: Transaction) -> CallView {
    CallView::TxnAbort { txn: txn.handle() }
}

/// The call that aborts the transaction `txn`, unless its handle is zero.
pub open spec fn abort_calls(txn: Transaction) -> Seq<CallView> {
    if txn.handle() != 0 {
        seq![abort_request(txn)]
    } else {
        Seq::empty()
    }
}

/// What giving up the unresolved transaction `txn` owes: its abort, then what
/// giving up its reference to the environment owes.
pub open spec fn txn_release_calls(txn: Transaction, env_last: bool) -> Seq<CallView> {
    abort_calls(txn) + env_release_calls(*txn.env(), env_last)
}

impl Transaction {
    /// The engine's handle.
    pub closed spec fn spec_handle(&self) -> usize {
        self.txn_ptr
    }

    /// The environment that the transaction runs in.
    pub closed spec fn env(&self) -> Environment {
        self.env
    }

    /// The engine's handle.
    #[verifier::when_used_as_spec(spec_handle)]
    pub fn handle(&self) -> (handle: usize)
        ensures
            handle == self.handle(),
    {
        self.txn_ptr
    }

    /// The transaction that the engine began in `env` under `handle`.
    pub(crate) fn begun(env: Environment, handle: usize) -> (txn: Transaction)
        ensures
            txn.handle() == handle,
            txn.env() == env,
    {
        Transaction { env, txn_ptr: handle, confined: PhantomData }
    }

    /// Complete the transaction normally: the call that commits it, and what
    /// is left of the transaction to take the engine's answer.
    pub fn commit(self, mode: CommitType) -> (r: (Call, Resolution))
        ensures
            r.0@ == commit_request(self, mode),
            r.0@.fits_engine(),
            r.1.env() == self.env(),
    {
        let call = Call::TxnCommit { txn: self.txn_ptr, flags: mode.bits() };
        (call, Resolution { env: self.env, confined: PhantomData })
    }

    /// Terminate the transaction and undo what was done under it: the call
    /// that aborts it, and what is left of the transaction to take the
    /// engine's answer.
    pub fn abort(self) -> (r: (Call, Resolution))
        ensures
            r.0@ == abort_request(self),
            r.0@.fits_engine(),
            r.1.env() == self.env(),
    {
        let call = Call::TxnAbort { txn: self.txn_ptr };
        (call, Resolution { env: self.env, confined: PhantomData })
    }

    /// Give up a transaction that was neither committed nor aborted: the
    /// engine is asked to abort it, and nothing is made of its answer.
    pub fn release(self) -> (owed: Vec<Call>)
        ensures
            exists|env_last: bool| views(owed@) == txn_release_calls(self, env_last),
    {
        let mut owed: Vec<Call> = Vec::new();
        if self.txn_ptr != 0 {
            owed.push(Call::TxnAbort { txn: self.txn_ptr });
        }
        let ghost first = owed@;
        let mut more = Env::release(self.env);
        proof {
            let env_last = choose|l: bool| views(more@) == env_release_calls(*self.env, l);
            lemma_views_concat(first, more@);
            assert(views(first) =~= abort_calls(self));
            assert(views(first + more@) == txn_release_calls(self, env_last));
        }
        owed.append(&mut more);
        owed
    }
}

impl Resolution {
    /// The environment that the transaction ran in.
    pub closed spec fn env(&self) -> Environment {
        self.env
    }

    /// What the resolution came to. `answer` is the engine's answer to the
    /// call that came with this value. The transaction is over whatever the
    /// answer; the second component holds what giving up its reference to
    /// the environment owes.
    pub fn finish(self, answer: &Reply) -> (r: (Result<(), Error>, Vec<Call>))
        ensures
            r.0 == status_result(answer.status),
            exists|env_last: bool| views(r.1@) == env_release_calls(*self.env(), env_last),
    {
        let done = Error::check(answer.status);
        let owed = Env::release(self.env);
        proof {
            let env_last = choose|l: bool| views(owed@) == env_release_calls(*self.env, l);
            assert(views(owed@) == env_release_calls(*self.env(), env_last));
        }
        (done, owed)
    }
}

/// A transaction that is given up unresolved is aborted: what is owed for it
/// is the very call that `abort` hands out, followed by what `finish` leaves
/// owed after an abort, and the close of the environment never comes before
/// the abort.
pub proof fn lemma_unresolved_is_aborted(txn: Transaction, env_last: bool)
    requires
        txn.handle() != 0,
    ensures
        ({
            let owed = txn_release_calls(txn, env_last);
            &&& owed == seq![abort_request(txn)] + env_release_calls(*txn.env(), env_last)
            &&& 1 <= owed.len() <= 2
            &&& owed[0] == abort_request(txn)
            &&& forall|i: int| 0 <= i < owed.len() && owed[i] is EnvClose ==> i == 1
        }),
{
}

} // verus!
