//! Databases: single collections of key/data pairs.
use crate::cursor::Cursor;
use crate::dbt::DBT;
use crate::engine::lemma_views_concat;
use crate::engine::no_nul;
use crate::engine::text_of;
use crate::engine::to_wire;
use crate::engine::views;
use crate::engine::wire_bytes;
use crate::engine::Call;
use crate::engine::CallView;
use crate::engine::Reply;
use crate::env::env_release_calls;
use crate::env::Env;
use crate::env::Environment;
use crate::error::status_result;
use crate::error::Error;
use crate::error::DB_NOTFOUND;
use crate::flags::Flags;
use crate::share::into_last;
use crate::txn::abort_request;
use crate::txn::commit_bits;
use crate::txn::commit_request;
use crate::txn::txn_handle;
use crate::txn::unwrap_txn_ptr;
use crate::txn::CommitType;
use crate::txn::Transaction;
use std::sync::Arc;
use vstd::prelude::*;

verus! {

/// A shared handle to a database. The engine is asked to close the database
/// when the last reference to it is given back.
pub type Database = Arc<Db>;

/// The kind of collection that a database is.
#[derive(Clone, Copy, Debug, PartialEq, Eq, Structural)]
pub enum DbType {
    /// Keys in ascending order.
    BTree,
    /// Hashed keys.
    Hash,
    /// Records of fixed or variable length, by number.
    Recno,
    /// Records of fixed length, as a queue.
    Queue,
    /// Whatever the file turns out to be when it is opened.
    Any,
}

/// The engine's number for a kind of collection.
pub open spec fn type_code(flavor: DbType) -> u32 {
    match flavor {
        DbType::BTree => 1,
        DbType::Hash => 2,
        DbType::Recno => 3,
        DbType::Queue => 4,
        DbType::Any => 5,
    }
}

impl From<DbType> for u32 {
    fn from(flavor: DbType) -> (code: u32) {
        match flavor {
            DbType::BTree => 1,
            DbType::Hash => 2,
            DbType::Recno => 3,
            DbType::Queue => 4,
            DbType::Any => 5,
        }
    }
}

impl vstd::std_specs::convert::FromSpecImpl<DbType> for u32 {
    open spec fn obeys_from_spec() -> bool {
        true
    }

    open spec fn from_spec(flavor: DbType) -> u32 {
        type_code(flavor)
    }
}

/// The engine's handle of an optional environment: zero for none.
pub open spec fn env_handle(env: Option<Environment>) -> usize {
    match env {
        Some(e) => e.handle(),
        None => 0,
    }
}

/// What a [`DatabaseBuilder`] has been told.
pub struct DatabaseBuilderView {
    /// The environment to open the database in, if any.
    pub env: Option<Environment>,
    /// The handle of the transaction to open the database in: zero for none.
    pub txn: usize,
    /// The file, if one was named.
    pub file: Option<Seq<char>>,
    /// The name of the database within the file, if one was given.
    pub name: Option<Seq<char>>,
    /// The mask of the flags.
    pub flags: u32,
    /// The file mode.
    pub mode: i32,
    /// The kind of collection.
    pub db_type: DbType,
}

/// `DatabaseBuilder` is used to configure and open a database. It borrows
/// the environment and the transaction that it is told of.
pub struct DatabaseBuilder<'a> {
    env: Option<&'a Environment>,
    txn: Option<&'a Transaction>,
    file: Option<String>,
    name: Option<String>,
    flags: Flags,
    mode: i32,
    db_type: DbType,
}

impl<'a> View for DatabaseBuilder<'a> {
    type V = DatabaseBuilderView;

    closed spec fn view(&self) -> DatabaseBuilderView {
        DatabaseBuilderView {
            env: match self.env {
                Some(e) => Some(*e),
                None => None,
            },
            txn: txn_handle(self.txn),
            file: text_of(self.file),
            name: text_of(self.name),
            flags: self.flags@,
            mode: self.mode,
            db_type: self.db_type,
        }
    }
}

impl<'a> DatabaseBuilder<'a> {
    #[verifier::type_invariant]
    spec fn texts_fit(self) -> bool {
        &&& self.file matches Some(f) ==> no_nul(f@)
        &&& self.name matches Some(n) ==> no_nul(n@)
    }

    /// Create a new DatabaseBuilder: no environment, no transaction, no file,
    /// no name, no flags, mode zero, keys in ascending order.
    pub fn new() -> (b: DatabaseBuilder<'a>)
        ensures
            b@ == (DatabaseBuilderView {
                env: None,
                txn: 0,
                file: None,
                name: None,
                flags: 0,
                mode: 0,
                db_type: DbType::BTree,
            }),
    {
        DatabaseBuilder {
            env: None,
            txn: None,
            file: None,
            name: None,
            flags: Flags::empty(),
            mode: 0,
            db_type: DbType::BTree,
        }
    }

    /// Open the database within an environment.
    pub fn environment(self, env: &'a Environment) -> (b: DatabaseBuilder<'a>)
        ensures
            b@ == (DatabaseBuilderView { env: Some(*env), ..self@ }),
    {
        proof {
            use_type_invariant(&self);
        }
        let mut b = self;
        b.env = Some(env);
        b
    }

    /// Open the database within a transaction.
    pub fn transaction(self, txn: &'a Transaction) -> (b: DatabaseBuilder<'a>)
        ensures
            b@ == (DatabaseBuilderView { txn: txn.handle(), ..self@ }),
    {
        proof {
            use_type_invariant(&self);
        }
        let mut b = self;
        b.txn = Some(txn);
        b
    }

    /// Specify the database file.
    pub fn file(self, file: &str) -> (b: DatabaseBuilder<'a>)
        requires
            no_nul(file@),
        ensures
            b@ == (DatabaseBuilderView { file: Some(file@), ..self@ }),
    {
        proof {
            use_type_invariant(&self);
        }
        let mut b = self;
        b.file = Some(file.to_owned());
        b
    }

    /// Specify the database name.
    pub fn name(self, name: &str) -> (b: DatabaseBuilder<'a>)
        requires
            no_nul(name@),
        ensures
            b@ == (DatabaseBuilderView { name: Some(name@), ..self@ }),
    {
        proof {
            use_type_invariant(&self);
        }
        let mut b = self;
        b.name = Some(name.to_owned());
        b
    }

    /// Set the database flags.
    pub fn flags(self, flags: Flags) -> (b: DatabaseBuilder<'a>)
        ensures
            b@ == (DatabaseBuilderView { flags: flags@, ..self@ }),
    {
        proof {
            use_type_invariant(&self);
        }
        let mut b = self;
        b.flags = flags;
        b
    }

    /// Set the file mode.
    pub fn mode(self, mode: i32) -> (b: DatabaseBuilder<'a>)
        ensures
            b@ == (DatabaseBuilderView { mode, ..self@ }),
    {
        proof {
            use_type_invariant(&self);
        }
        let mut b = self;
        b.mode = mode;
        b
    }

    /// Set the database type.
    pub fn db_type(self, db_type: DbType) -> (b: DatabaseBuilder<'a>)
        ensures
            b@ == (DatabaseBuilderView { db_type, ..self@ }),
    {
        proof {
            use_type_invariant(&self);
        }
        let mut b = self;
        b.db_type = db_type;
        b
    }

    /// The call that allocates the database.
    pub fn create_call(&self) -> (call: Call)
        ensures
            call@ == (CallView::DbCreate { env: env_handle(self@.env) }),
            call@.fits_engine(),
    {
        let env: usize = match self.env {
            Some(env) => env.handle(),
            None => 0,
        };
        Call::DbCreate { env }
    }

    /// The call that opens the database that `created` answers for. An engine
    /// that cannot allocate a database leaves nothing to open.
    pub fn open_call(&self, created: &Reply) -> (call: Call)
        requires
            created.status == 0,
        ensures
            call@ == (CallView::DbOpen {
                db: created.handle,
                txn: self@.txn,
                file: self@.file,
                name: self@.name,
                db_type: type_code(self@.db_type),
                flags: self@.flags,
                mode: self@.mode,
            }),
            call@.fits_engine(),
    {
        proof {
            use_type_invariant(self);
        }
        Call::DbOpen {
            db: created.handle,
            txn: unwrap_txn_ptr(self.txn),
            file: self.file.clone(),
            name: self.name.clone(),
            db_type: u32::from(self.db_type),
            flags: self.flags.bits(),
            mode: self.mode,
        }
    }

    /// Open the database. `created` is the engine's answer to `create_call`,
    /// `opened` its answer to `open_call`. A database that is opened holds a
    /// reference to its environment. Where the engine refused to open the
    /// database, the second component holds the call that gives back what
    /// `create_call` allocated.
    pub fn open(self, created: &Reply, opened: &Reply) -> (r: (Result<Database, Error>, Vec<Call>))
        requires
            created.status == 0,
        ensures
            opened.status == 0 ==> {
                &&& r.0 matches Ok(db)
                &&& db.handle() == created.handle
                &&& db.env() == self@.env
                &&& r.1@.len() == 0
            },
            opened.status != 0 ==> {
                &&& r.0 matches Err(e)
                &&& e.errno == opened.status
                &&& views(r.1@) == seq![CallView::DbClose { db: created.handle }]
            },
    {
        let db: usize = created.handle;
        let mut owed: Vec<Call> = Vec::new();
        if opened.status == 0 {
            let env: Option<Environment> = match self.env {
                Some(env) => Some(env.clone()),
                None => None,
            };
            (Ok(Arc::new(Db { env, db })), owed)
        } else {
            owed.push(Call::DbClose { db });
            assert(views(owed@) =~= seq![CallView::DbClose { db }]);
            (Err(Error::new(opened.status)), owed)
        }
    }
}

/// The handle for a single database.
#[derive(Debug)]
pub struct Db {
    env: Option<Environment>,
    db: usize,
}

/// What the engine is asked when `key` is looked up in `db`.
pub open spec fn get_request(db: Db, txn: Option<&Transaction>, key: Seq<u8>, flags: u32) -> CallView {
    CallView::DbGet { db: db.handle(), txn: txn_handle(txn), key: wire_bytes(key), flags }
}

/// What the engine is asked when `data` is stored under `key` in `db`.
pub open spec fn put_request(
    db: Db,
    txn: Option<&Transaction>,
    key: Seq<u8>,
    data: Seq<u8>,
    flags: u32,
) -> CallView {
    CallView::DbPut {
        db: db.handle(),
        txn: txn_handle(txn),
        key: wire_bytes(key),
        data: wire_bytes(data),
        flags,
    }
}

/// What a lookup comes to, given the engine's answer: the data on success,
/// nothing where the engine found no record, the status as an error otherwise.
pub open spec fn lookup_outcome(status: i32, data: Seq<u8>) -> Result<Option<Seq<u8>>, Error> {
    if status == 0 {
        Ok(Some(data))
    } else if status == DB_NOTFOUND {
        Ok(None)
    } else {
        Err(Error { errno: status })
    }
}

/// The bytes in what a lookup returned.
pub open spec fn lookup_view(r: Result<Option<DBT<'static>>, Error>) -> Result<
    Option<Seq<u8>>,
    Error,
> {
    match r {
        Ok(Some(d)) => Ok(Some(d@)),
        Ok(None) => Ok(None),
        Err(e) => Err(e),
    }
}

/// What giving up a reference to the database `db` owes. `last` says whether
/// the reference was the last to the database, `env_last` whether the
/// database's own reference to its environment was the last to that.
pub open spec fn db_release_calls(db: Db, last: bool, env_last: bool) -> Seq<CallView> {
    if last {
        seq![CallView::DbClose { db: db.handle() }] + match db.env() {
            Some(env) => env_release_calls(*env, env_last),
            None => Seq::empty(),
        }
    } else {
        Seq::empty()
    }
}

impl Db {
    /// The engine's handle.
    pub closed spec fn spec_handle(&self) -> usize {
        self.db
    }

    /// The environment that the database was opened in, if any.
    pub closed spec fn env(&self) -> Option<Environment> {
        self.env
    }

    /// The engine's handle.
    #[verifier::when_used_as_spec(spec_handle)]
    pub fn handle(&self) -> (handle: usize)
        ensures
            handle == self.handle(),
    {
        self.db
    }

    /// The call that looks `key` up, within `txn` if there is one.
    pub fn get_call(&self, txn: Option<&Transaction>, key: &[u8], flags: Flags) -> (call: Call)
        ensures
            call@ == get_request(*self, txn, key@, flags@),
            call@.fits_engine(),
    {
        Call::DbGet {
            db: self.db,
            txn: unwrap_txn_ptr(txn),
            key: to_wire(key),
            flags: flags.bits(),
        }
    }

    /// Get the data stored under a key. `found` is the engine's answer to
    /// `get_call`. That the engine found no record is no error: the result
    /// is then `Ok(None)`. Data that is handed out is owned by the result.
    pub fn get(&self, found: Reply) -> (r: Result<Option<DBT<'static>>, Error>)
        ensures
            lookup_view(r) == lookup_outcome(found.status, found.data@),
            r matches Ok(Some(d)) ==> d is Ptr,
    {
        if found.status == 0 {
            Ok(Some(DBT::Ptr(found.data)))
        } else if found.status == DB_NOTFOUND {
            Ok(None)
        } else {
            Err(Error::new(found.status))
        }
    }

    /// The call that stores `data` under `key`, within `txn` if there is one.
    pub fn put_call(
        &self,
        txn: Option<&Transaction>,
        key: &[u8],
        data: &[u8],
        flags: Flags,
    ) -> (call: Call)
        ensures
            call@ == put_request(*self, txn, key@, data@, flags@),
            call@.fits_engine(),
    {
        Call::DbPut {
            db: self.db,
            txn: unwrap_txn_ptr(txn),
            key: to_wire(key),
            data: to_wire(data),
            flags: flags.bits(),
        }
    }

    /// Store a key/data pair in the database. `stored` is the engine's
    /// answer to `put_call`.
    pub fn put(&self, stored: &Reply) -> (r: Result<(), Error>)
        ensures
            r == status_result(stored.status),
    {
        Error::check(stored.status)
    }

    /// The call that opens a cursor on the database.
    pub fn cursor_call(&self) -> (call: Call)
        ensures
            call@ == (CallView::DbCursor { db: self.handle() }),
            call@.fits_engine(),
    {
        Call::DbCursor { db: self.db }
    }

    /// Get a cursor on the database. `opened` is the engine's answer to
    /// `cursor_call`. The cursor holds a reference to the database, and
    /// stands before the first record.
    pub fn cursor(self: &Arc<Self>, opened: &Reply) -> (r: Result<Cursor, Error>)
        ensures
            opened.status == 0 ==> {
                &&& r matches Ok(cursor)
                &&& cursor.handle() == opened.handle
                &&& cursor.db() == *self
                &&& !cursor.is_exhausted()
            },
            opened.status != 0 ==> (r matches Err(e) && e.errno == opened.status),
    {
        if opened.status == 0 {
            Ok(Cursor::opened(self.clone(), opened.handle))
        } else {
            Err(Error::new(opened.status))
        }
    }

    /// What is owed for a database whose last reference is gone (`Some`),
    /// and for one that others still hold (`None`): its close, and its own
    /// reference to its environment to give up after that.
    pub fn close(last: Option<Db>) -> (r: (Vec<Call>, Option<Environment>))
        ensures
            last matches Some(db) ==> {
                &&& views(r.0@) == seq![CallView::DbClose { db: db.handle() }]
                &&& r.1 == db.env()
            },
            last is None ==> r.0@.len() == 0 && r.1 is None,
    {
        let mut owed: Vec<Call> = Vec::new();
        match last {
            Some(db) => {
                owed.push(Call::DbClose { db: db.db });
                assert(views(owed@) =~= seq![CallView::DbClose { db: db.handle() }]);
                (owed, db.env)
            },
            None => (owed, None),
        }
    }

    /// Give up a reference to the database. If it was the last one, the
    /// engine is asked to close the database, and after that the environment
    /// too if nothing else holds it.
    pub fn release(db: Database) -> (owed: Vec<Call>)
        ensures
            exists|last: bool, env_last: bool|
                views(owed@) == db_release_calls(*db, last, env_last),
    {
        let last = into_last(db);
        let (mut owed, env) = Db::close(last);
        let ghost first = owed@;
        let ghost env_last = false;
        match env {
            Some(env) => {
                let mut more = Env::release(env);
                proof {
                    env_last = choose|l: bool| views(more@) == env_release_calls(*env, l);
                    lemma_views_concat(first, more@);
                }
                owed.append(&mut more);
            },
            None => {},
        }
        proof {
            let witness = last is Some;
            assert(views(owed@) =~= db_release_calls(*db, witness, env_last));
        }
        owed
    }
}

/// A database is closed before its environment: whatever giving up a
/// reference to a database owes starts with the close of the database, and
/// the close of an environment is the last call that is owed, never the
/// first.
pub proof fn lemma_database_closes_first(db: Db, last: bool, env_last: bool)
    ensures
        ({
            let owed = db_release_calls(db, last, env_last);
            &&& owed.len() <= 2
            &&& owed.len() > 0 ==> owed[0] == (CallView::DbClose { db: db.handle() })
            &&& forall|i: int|
                0 <= i < owed.len() && owed[i] is EnvClose ==> i == 1 && i == owed.len() - 1
                    && owed[i] == (CallView::EnvClose { env: env_handle(db.env()) })
        }),
{
}

/// A pair that is stored and then looked up comes back byte for byte, as far
/// as the layer goes: the lookup asks the engine for the key that the store
/// handed it, in the same database; the store hands the engine key and data
/// as they stand; and where the engine answers the lookup with the data that
/// it was handed, that data is what the lookup returns. The bound is the one
/// of the engine's length fields.
pub proof fn lemma_stored_pair_reads_back(
    db: Db,
    key: Seq<u8>,
    data: Seq<u8>,
    put_flags: u32,
    get_flags: u32,
)
    requires
        key.len() <= u32::MAX,
        data.len() <= u32::MAX,
    ensures
        ({
            let stored = put_request(db, None, key, data, put_flags);
            let asked = get_request(db, None, key, get_flags);
            &&& stored == (CallView::DbPut {
                db: db.handle(),
                txn: 0,
                key,
                data,
                flags: put_flags,
            })
            &&& asked == (CallView::DbGet {
                db: stored->DbPut_db,
                txn: 0,
                key: stored->DbPut_key,
                flags: get_flags,
            })
            &&& lookup_outcome(0, stored->DbPut_data) == Ok::<Option<Seq<u8>>, Error>(Some(data))
        }),
{
}

/// A key under which the engine holds nothing yields no record and no error,
/// whatever else the engine put into its answer.
pub proof fn lemma_absent_key_is_no_error(data: Seq<u8>)
    ensures
        lookup_outcome(DB_NOTFOUND, data) == Ok::<Option<Seq<u8>>, Error>(None),
{
}

/// What is done under a transaction and what resolves it name the same
/// transaction to the engine, so a commit or an abort bears on every store
/// and lookup that was made under the handle.
pub proof fn lemma_resolution_names_the_transaction(
    db: Db,
    txn: Transaction,
    key: Seq<u8>,
    data: Seq<u8>,
    flags: u32,
    mode: CommitType,
)
    ensures
        put_request(db, Some(&txn), key, data, flags)->DbPut_txn == txn.handle(),
        get_request(db, Some(&txn), key, flags)->DbGet_txn == txn.handle(),
        commit_request(txn, mode) == (CallView::TxnCommit {
            txn: txn.handle(),
            flags: commit_bits(mode),
        }),
        abort_request(txn) == (CallView::TxnAbort { txn: txn.handle() }),
{
}

} // verus!
