//! Environments: the root that databases and transactions live in.
use crate::engine::no_nul;
use crate::engine::text_of;
use crate::engine::views;
use crate::engine::Call;
use crate::engine::CallView;
use crate::engine::Reply;
use crate::error::Error;
use crate::flags::Flags;
use crate::share::into_last;
use crate::txn::txn_handle;
use crate::txn::unwrap_txn_ptr;
use crate::txn::Transaction;
use std::sync::Arc;
use vstd::prelude::*;

verus! {

/// A shared handle to an environment. The engine is asked to close the
/// environment when the last reference to it is given back.
pub type Environment = Arc<Env>;

/// What an [`EnvironmentBuilder`] has been told.
pub struct EnvironmentBuilderView {
    /// The handle of what the engine allocated.
    pub env: usize,
    /// The home directory, if one was named.
    pub home: Option<Seq<char>>,
    /// The mask of the flags.
    pub flags: u32,
    /// The file mode.
    pub mode: i32,
}

/// `EnvironmentBuilder` is used to configure and open an environment.
pub struct EnvironmentBuilder {
    env_ptr: usize,
    home: Option<String>,
    flags: Flags,
    mode: i32,
}

impl View for EnvironmentBuilder {
    type V = EnvironmentBuilderView;

    closed spec fn view(&self) -> EnvironmentBuilderView {
        EnvironmentBuilderView {
            env: self.env_ptr,
            home: text_of(self.home),
            flags: self.flags@,
            mode: self.mode,
        }
    }
}

/// The call that closes the environment `env`, unless `env` is zero.
pub open spec fn env_close_calls(env: usize) -> Seq<CallView> {
    if env != 0 {
        seq![CallView::EnvClose { env }]
    } else {
        Seq::empty()
    }
}

impl EnvironmentBuilder {
    #[verifier::type_invariant]
    spec fn home_fits(self) -> bool {
        self.home matches Some(h) ==> no_nul(h@)
    }

    /// The call that allocates the environment.
    pub fn create_call() -> (call: Call)
        ensures
            call@ == CallView::EnvCreate,
            call@.fits_engine(),
    {
        Call::EnvCreate
    }

    /// Create a new environment builder from the engine's answer to
    /// `create_call`: no home, no flags, mode zero. An engine that cannot
    /// allocate an environment leaves nothing to build on.
    pub fn new(created: &Reply) -> (b: EnvironmentBuilder)
        requires
            created.status == 0,
        ensures
            b@ == (EnvironmentBuilderView { env: created.handle, home: None, flags: 0, mode: 0 }),
    {
        EnvironmentBuilder { env_ptr: created.handle, home: None, flags: Flags::empty(), mode: 0 }
    }

    /// Specify the environment home directory.
    pub fn home(self, home: &str) -> (b: EnvironmentBuilder)
        requires
            no_nul(home@),
        ensures
            b@ == (EnvironmentBuilderView { home: Some(home@), ..self@ }),
    {
        proof {
            use_type_invariant(&self);
        }
        let mut b = self;
        b.home = Some(home.to_owned());
        b
    }

    /// Set the environment flags.
    pub fn flags(self, flags: Flags) -> (b: EnvironmentBuilder)
        ensures
            b@ == (EnvironmentBuilderView { flags: flags@, ..self@ }),
    {
        proof {
            use_type_invariant(&self);
        }
        let mut b = self;
        b.flags = flags;
        b
    }

    /// Set the file mode.
    pub fn mode(self, mode: i32) -> (b: EnvironmentBuilder)
        ensures
            b@ == (EnvironmentBuilderView { mode, ..self@ }),
    {
        proof {
            use_type_invariant(&self);
        }
        let mut b = self;
        b.mode = mode;
        b
    }

    /// The call that opens the environment.
    pub fn open_call(&self) -> (call: Call)
        ensures
            call@ == (CallView::EnvOpen {
                env: self@.env,
                home: self@.home,
                flags: self@.flags,
                mode: self@.mode,
            }),
            call@.fits_engine(),
    {
        proof {
            use_type_invariant(self);
        }
        Call::EnvOpen {
            env: self.env_ptr,
            home: self.home.clone(),
            flags: self.flags.bits(),
            mode: self.mode,
        }
    }

    /// Open the environment. `opened` is the engine's answer to `open_call`.
    /// Where the engine refused, the second component holds the call that
    /// gives back what was allocated.
    pub fn open(self, opened: &Reply) -> (r: (Result<Environment, Error>, Vec<Call>))
        ensures
            opened.status == 0 ==> {
                &&& r.0 matches Ok(env)
                &&& env.handle() == self@.env
                &&& r.1@.len() == 0
            },
            opened.status != 0 ==> {
                &&& r.0 matches Err(e)
                &&& e.errno == opened.status
                &&& views(r.1@) == env_close_calls(self@.env)
            },
    {
        if opened.status == 0 {
            (Ok(Arc::new(Env { env_ptr: self.env_ptr })), Vec::new())
        } else {
            let status: i32 = opened.status;
            (Err(Error::new(status)), self.release())
        }
    }

    /// Give up a builder that was not opened: the call that gives back what
    /// was allocated.
    pub fn release(self) -> (owed: Vec<Call>)
        ensures
            views(owed@) == env_close_calls(self@.env),
    {
        let mut owed: Vec<Call> = Vec::new();
        if self.env_ptr != 0 {
            owed.push(Call::EnvClose { env: self.env_ptr });
        }
        assert(views(owed@) =~= env_close_calls(self@.env));
        owed
    }
}

/// The handle to an open environment.
#[derive(Debug)]
pub struct Env {
    env_ptr: usize,
}

/// What giving up a reference to the environment `env` owes: its close if
/// the reference was the last, nothing otherwise.
pub open spec fn env_release_calls(env: Env, last: bool) -> Seq<CallView> {
    if last {
        env_close_calls(env.handle())
    } else {
        Seq::empty()
    }
}

impl Env {
    /// The engine's handle.
    pub closed spec fn spec_handle(&self) -> usize {
        self.env_ptr
    }

    /// The engine's handle.
    #[verifier::when_used_as_spec(spec_handle)]
    pub fn handle(&self) -> (handle: usize)
        ensures
            handle == self.handle(),
    {
        self.env_ptr
    }

    /// The call that begins a transaction in the environment, under `parent`
    /// if there is one.
    pub fn txn_call(&self, parent: Option<&Transaction>, flags: Flags) -> (call: Call)
        ensures
            call@ == (CallView::TxnBegin {
                env: self.handle(),
                parent: txn_handle(parent),
                flags: flags@,
            }),
            call@.fits_engine(),
    {
        Call::TxnBegin { env: self.env_ptr, parent: unwrap_txn_ptr(parent), flags: flags.bits() }
    }

    /// Begin a new transaction in the environment. `begun` is the engine's
    /// answer to `txn_call`. The transaction holds a reference to the
    /// environment.
    pub fn txn(self: &Arc<Self>, begun: &Reply) -> (r: Result<Transaction, Error>)
        ensures
            begun.status == 0 ==> {
                &&& r matches Ok(txn)
                &&& txn.handle() == begun.handle
                &&& txn.env() == *self
            },
            begun.status != 0 ==> (r matches Err(e) && e.errno == begun.status),
    {
        if begun.status == 0 {
            Ok(Transaction::begun(self.clone(), begun.handle))
        } else {
            Err(Error::new(begun.status))
        }
    }

    /// What is owed for an environment whose last reference is gone (`Some`),
    /// and for one that others still hold (`None`).
    pub fn close(last: Option<Env>) -> (owed: Vec<Call>)
        ensures
            last matches Some(env) ==> views(owed@) == env_release_calls(env, true),
            last is None ==> owed@.len() == 0,
    {
        let mut owed: Vec<Call> = Vec::new();
        if let Some(env) = last {
            if env.env_ptr != 0 {
                owed.push(Call::EnvClose { env: env.env_ptr });
            }
            assert(views(owed@) =~= env_release_calls(env, true));
        }
        owed
    }

    /// Give up a reference to the environment. The engine is asked to close
    /// it if this was the last one.
    pub fn release(env: Environment) -> (owed: Vec<Call>)
        ensures
            exists|last: bool| views(owed@) == env_release_calls(*env, last),
    {
        let last = into_last(env);
        let owed = Env::close(last);
        proof {
            let witness = last is Some;
            assert(views(owed@) =~= env_release_calls(*env, witness));
        }
        owed
    }
}

} // verus!
