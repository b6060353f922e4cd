use std::collections::BTreeMap;
use std::str;

use libdb::Database;
use libdb::Db;
use libdb::Env;
use libdb::Environment;
use libdb::engine::Call;
use libdb::engine::Reply;
use libdb::error::DB_NOTFOUND;
use libdb::flags::DB_CREATE;
use libdb::flags::DB_INIT_LOG;
use libdb::flags::DB_INIT_MPOOL;
use libdb::flags::DB_INIT_TXN;
use libdb::flags::DB_NONE;
use libdb::flags::DB_RECOVER;
use libdb::CommitType;
use libdb::Cursor;
use libdb::DatabaseBuilder;
use libdb::EnvironmentBuilder;
use libdb::Flags;
use libdb::Transaction;
use libdb::DBT;

type Records = BTreeMap<Vec<u8>, Vec<u8>>;

/// A stand-in for the engine: it keeps committed records per file, and what
/// each transaction has written and not yet resolved.
struct Engine {
    next: usize,
    disk: BTreeMap<String, Records>,
    envs: BTreeMap<usize, String>,
    dbs: BTreeMap<usize, String>,
    txns: BTreeMap<usize, Vec<(String, Vec<u8>, Vec<u8>)>>,
    cursors: BTreeMap<usize, (String, Option<Vec<u8>>)>,
    log: Vec<String>,
}

const EINVAL: i32 = 22;

impl Engine {
    fn new() -> Engine {
        Engine {
            next: 1,
            disk: BTreeMap::new(),
            envs: BTreeMap::new(),
            dbs: BTreeMap::new(),
            txns: BTreeMap::new(),
            cursors: BTreeMap::new(),
            log: Vec::new(),
        }
    }

    fn fresh(&mut self) -> usize {
        let handle = self.next;
        self.next += 1;
        handle
    }

    fn write(&mut self, txn: usize, file: String, key: Vec<u8>, data: Vec<u8>) -> i32 {
        if txn == 0 {
            self.disk.entry(file).or_default().insert(key, data);
            0
        } else {
            match self.txns.get_mut(&txn) {
                Some(pending) => {
                    pending.push((file, key, data));
                    0
                }
                None => EINVAL,
            }
        }
    }

    fn read(&self, txn: usize, file: &str, key: &[u8]) -> Option<Vec<u8>> {
        if let Some(pending) = self.txns.get(&txn) {
            for (f, k, d) in pending.iter().rev() {
                if f == file && k.as_slice() == key {
                    return Some(d.clone());
                }
            }
        }
        self.disk.get(file).and_then(|records| records.get(key).cloned())
    }

    fn perform(&mut self, call: Call) -> Reply {
        self.log.push(format!("{:?}", call));
        match call {
            Call::EnvCreate => {
                let env = self.fresh();
                self.envs.insert(env, String::new());
                Reply::created(0, env)
            }
            Call::EnvOpen { env, home, .. } => match self.envs.get_mut(&env) {
                Some(at) => {
                    *at = home.unwrap_or_default();
                    Reply::bare(0)
                }
                None => Reply::bare(EINVAL),
            },
            Call::EnvClose { env } => match self.envs.remove(&env) {
                Some(_) => Reply::bare(0),
                None => Reply::bare(EINVAL),
            },
            Call::TxnBegin { env, parent, .. } => {
                if !self.envs.contains_key(&env) || (parent != 0 && !self.txns.contains_key(&parent)) {
                    return Reply::bare(EINVAL);
                }
                let txn = self.fresh();
                self.txns.insert(txn, Vec::new());
                Reply::created(0, txn)
            }
            Call::TxnCommit { txn, .. } => match self.txns.remove(&txn) {
                Some(pending) => {
                    for (file, key, data) in pending {
                        self.disk.entry(file).or_default().insert(key, data);
                    }
                    Reply::bare(0)
                }
                None => Reply::bare(EINVAL),
            },
            Call::TxnAbort { txn } => match self.txns.remove(&txn) {
                Some(_) => Reply::bare(0),
                None => Reply::bare(EINVAL),
            },
            Call::DbCreate { env } => {
                if env != 0 && !self.envs.contains_key(&env) {
                    return Reply::bare(EINVAL);
                }
                let db = self.fresh();
                let home = self.envs.get(&env).cloned().unwrap_or_default();
                self.dbs.insert(db, home);
                Reply::created(0, db)
            }
            Call::DbOpen { db, file, flags, .. } => {
                let home = match self.dbs.get(&db) {
                    Some(home) => home.clone(),
                    None => return Reply::bare(EINVAL),
                };
                let path = format!("{}/{}", home, file.unwrap_or_default());
                if !self.disk.contains_key(&path) {
                    if flags & DB_CREATE == 0 {
                        return Reply::bare(2);
                    }
                    self.disk.insert(path.clone(), Records::new());
                }
                self.dbs.insert(db, path);
                Reply::bare(0)
            }
            Call::DbClose { db } => match self.dbs.remove(&db) {
                Some(_) => Reply::bare(0),
                None => Reply::bare(EINVAL),
            },
            Call::DbGet { db, txn, key, .. } => match self.dbs.get(&db) {
                Some(file) => match self.read(txn, file, &key) {
                    Some(data) => Reply::record(0, Vec::new(), data),
                    None => Reply::bare(DB_NOTFOUND),
                },
                None => Reply::bare(EINVAL),
            },
            Call::DbPut { db, txn, key, data, .. } => match self.dbs.get(&db).cloned() {
                Some(file) => Reply::bare(self.write(txn, file, key, data)),
                None => Reply::bare(EINVAL),
            },
            Call::DbCursor { db } => match self.dbs.get(&db).cloned() {
                Some(file) => {
                    let cursor = self.fresh();
                    self.cursors.insert(cursor, (file, None));
                    Reply::created(0, cursor)
                }
                None => Reply::bare(EINVAL),
            },
            Call::CursorNext { cursor } => {
                let (file, at) = match self.cursors.get(&cursor) {
                    Some(position) => position.clone(),
                    None => return Reply::bare(EINVAL),
                };
                let records = self.disk.get(&file).cloned().unwrap_or_default();
                let next = records.into_iter().find(|(key, _)| match &at {
                    Some(last) => key > last,
                    None => true,
                });
                match next {
                    Some((key, data)) => {
                        self.cursors.insert(cursor, (file, Some(key.clone())));
                        Reply::record(0, key, data)
                    }
                    None => Reply::bare(DB_NOTFOUND),
                }
            }
            Call::CursorClose { cursor } => match self.cursors.remove(&cursor) {
                Some(_) => Reply::bare(0),
                None => Reply::bare(EINVAL),
            },
            Call::Strerror { code } => {
                Reply::record(0, Vec::new(), format!("Unknown error: {}", code).into_bytes())
            }
        }
    }

    fn perform_all(&mut self, calls: Vec<Call>) {
        for call in calls {
            let reply = self.perform(call);
            assert_eq!(reply.status, 0);
        }
    }
}

fn flags(bits: u32) -> Flags {
    Flags::from_bits(bits).expect("known flags")
}

/// Helper to open an environment and a database in it for the test.
fn open_test_db(engine: &mut Engine, dir: &str) -> (Environment, Database) {
    let created = engine.perform(EnvironmentBuilder::create_call());
    assert_eq!(created.status, 0);
    let builder = EnvironmentBuilder::new(&created)
        .home(dir)
        .flags(flags(DB_CREATE | DB_RECOVER | DB_INIT_LOG | DB_INIT_TXN | DB_INIT_MPOOL));
    let opened = engine.perform(builder.open_call());
    let (env, owed) = builder.open(&opened);
    engine.perform_all(owed);
    let env = env.expect("Failed to open DB");

    let txn = begin(engine, &env);
    let builder = DatabaseBuilder::new()
        .transaction(&txn)
        .environment(&env)
        .file("db")
        .flags(flags(DB_CREATE));
    let created = engine.perform(builder.create_call());
    assert_eq!(created.status, 0);
    let opened = engine.perform(builder.open_call(&created));
    let (ret, owed) = builder.open(&created, &opened);
    engine.perform_all(owed);

    match ret.as_ref() {
        Ok(_) => commit(engine, txn).expect("Commit failed"),
        Err(e) => {
            panic!("Error: {:?}", e)
        }
    }

    (env, ret.unwrap())
}

fn begin(engine: &mut Engine, env: &Environment) -> Transaction {
    let begun = engine.perform(env.txn_call(None, flags(DB_NONE)));
    env.txn(&begun).unwrap()
}

fn commit(engine: &mut Engine, txn: Transaction) -> Result<(), libdb::Error> {
    let (call, resolution) = txn.commit(CommitType::Inherit);
    let committed = engine.perform(call);
    let (done, owed) = resolution.finish(&committed);
    engine.perform_all(owed);
    done
}

fn abort(engine: &mut Engine, txn: Transaction) -> Result<(), libdb::Error> {
    let (call, resolution) = txn.abort();
    let aborted = engine.perform(call);
    let (done, owed) = resolution.finish(&aborted);
    engine.perform_all(owed);
    done
}

fn put(
    engine: &mut Engine,
    db: &Database,
    txn: Option<&Transaction>,
    key: &[u8],
    value: &[u8],
) -> Result<(), libdb::Error> {
    let stored = engine.perform(db.put_call(txn, key, value, flags(DB_NONE)));
    db.put(&stored)
}

fn close(engine: &mut Engine, env: Environment, db: Database) {
    engine.perform_all(Db::release(db));
    engine.perform_all(Env::release(env));
}

type Pair = (Option<DBT<'static>>, Option<DBT<'static>>);

/// Helper to move a cursor on: the engine is asked as long as there is
/// something to ask for.
fn walk(engine: &mut Engine, cursor: &mut Cursor) -> Result<Pair, libdb::Error> {
    let read = match cursor.next_call() {
        Some(call) => engine.perform(call),
        None => Reply::bare(DB_NOTFOUND),
    };
    cursor.next(read)
}

/// Helper to assert a record is missing in the database.
fn assert_norecord(engine: &mut Engine, db: &Database, key: &[u8]) {
    let found = engine.perform(db.get_call(None, key, flags(DB_NONE)));
    assert!(db.get(found).unwrap().is_none());
}

/// Helper to assert a record has a specific value in the database.
fn assert_record_eq(engine: &mut Engine, db: &Database, key: &[u8], expected: &str) {
    let found = engine.perform(db.get_call(None, key, flags(DB_NONE)));
    match db.get(found) {
        Ok(Some(value)) => assert_eq!(expected, str::from_utf8(value.as_slice()).unwrap()),
        _ => assert!(false),
    }
}

#[test]
fn open_close_open_test() {
    let mut engine = Engine::new();
    let dbdir = "libdb-rs";

    {
        let (env, db) = open_test_db(&mut engine, dbdir);
        let key = String::from("key").into_bytes();
        let value = String::from("value").into_bytes();
        assert!(put(&mut engine, &db, None, key.as_slice(), value.as_slice()).is_ok());
        close(&mut engine, env, db);
    }
    assert!(engine.envs.is_empty());
    assert!(engine.dbs.is_empty());

    {
        let (env, db) = open_test_db(&mut engine, dbdir);
        let key = String::from("key").into_bytes();
        assert_record_eq(&mut engine, &db, key.as_slice(), "value");
        close(&mut engine, env, db);
    }
}

#[test]
fn test_transaction() {
    let mut engine = Engine::new();
    let (env, db) = open_test_db(&mut engine, "libdb-rs");

    let key = String::from("key").into_bytes();
    let value = String::from("value").into_bytes();

    // Test explicit abort
    {
        let txn = begin(&mut engine, &env);
        let ret = put(&mut engine, &db, Some(&txn), key.as_slice(), value.as_slice());
        println!("{:?}", ret);
        assert!(ret.is_ok());
        assert!(abort(&mut engine, txn).is_ok());
    }

    // Should have no record.
    assert_norecord(&mut engine, &db, key.as_slice());

    // Test abort when given up unresolved
    {
        let txn = begin(&mut engine, &env);
        put(&mut engine, &db, Some(&txn), key.as_slice(), value.as_slice()).expect("Failed to put");
        let owed = txn.release();
        assert_eq!(owed.len(), 1);
        assert!(matches!(owed[0], Call::TxnAbort { .. }));
        engine.perform_all(owed);
    }
    assert!(engine.txns.is_empty());

    // Should have no record.
    assert_norecord(&mut engine, &db, key.as_slice());

    // Test commit
    {
        let txn = begin(&mut engine, &env);
        put(&mut engine, &db, Some(&txn), key.as_slice(), value.as_slice()).expect("Failed to put");
        commit(&mut engine, txn).expect("Failed to commit");
    }

    // Should have record
    assert_record_eq(&mut engine, &db, key.as_slice(), "value");
    close(&mut engine, env, db);
}

#[test]
fn test_cursor() {
    let mut engine = Engine::new();
    let (env, db) = open_test_db(&mut engine, "libdb-rs");

    let key_a = String::from("testkeyA").into_bytes();
    let value_a = String::from("testvalueA").into_bytes();
    let key_b = String::from("testkeyB").into_bytes();
    let value_b = String::from("testvalueB").into_bytes();

    // commit test values
    {
        let txn = begin(&mut engine, &env);
        put(&mut engine, &db, Some(&txn), key_a.as_slice(), value_a.as_slice())
            .expect("Failed to put");
        commit(&mut engine, txn).expect("Failed to commit");
    }
    {
        let txn = begin(&mut engine, &env);
        put(&mut engine, &db, Some(&txn), key_b.as_slice(), value_b.as_slice())
            .expect("Failed to put");
        commit(&mut engine, txn).expect("Failed to commit");
    }

    // get cursor and iterate
    let opened = engine.perform(db.cursor_call());
    let mut cursor = db.cursor(&opened).expect("Failed to get cursor");
    {
        let (key_dbt, data_dbt) = walk(&mut engine, &mut cursor).expect("Could not walk cursor");
        assert_eq!("testkeyA", str::from_utf8(key_dbt.unwrap().as_slice()).unwrap());
        assert_eq!("testvalueA", str::from_utf8(data_dbt.unwrap().as_slice()).unwrap());
    }
    {
        let (key_dbt, data_dbt) = walk(&mut engine, &mut cursor).expect("Could not walk cursor");
        assert_eq!("testkeyB", str::from_utf8(key_dbt.unwrap().as_slice()).unwrap());
        assert_eq!("testvalueB", str::from_utf8(data_dbt.unwrap().as_slice()).unwrap());
    }
    // Past the last record there is nothing, however often one asks, and
    // the engine is asked once only.
    engine.log.clear();
    for _ in 0..3 {
        let (key_dbt, data_dbt) = walk(&mut engine, &mut cursor).expect("Could not walk cursor");
        assert!(key_dbt.is_none());
        assert!(data_dbt.is_none());
        assert!(cursor.is_exhausted());
    }
    assert_eq!(engine.log.len(), 1);
    engine.perform_all(cursor.release());
    close(&mut engine, env, db);
    assert!(engine.cursors.is_empty());
    assert!(engine.dbs.is_empty());
    assert!(engine.envs.is_empty());
}

#[test]
fn put_then_get_returns_the_value() {
    let mut engine = Engine::new();
    let (env, db) = open_test_db(&mut engine, "roundtrip");
    let pairs: Vec<(Vec<u8>, Vec<u8>)> = vec![
        (b"key".to_vec(), b"value".to_vec()),
        (Vec::new(), b"empty key".to_vec()),
        (vec![0, 255, 0, 1], vec![0, 0, 0]),
        (b"empty value".to_vec(), Vec::new()),
    ];
    for (key, value) in pairs.iter() {
        assert!(put(&mut engine, &db, None, key, value).is_ok());
        let found = engine.perform(db.get_call(None, key, flags(DB_NONE)));
        let got = db.get(found).unwrap().unwrap();
        assert_eq!(got.as_slice(), value.as_slice());
    }
    close(&mut engine, env, db);
}

#[test]
fn get_of_a_key_never_written_is_none() {
    let mut engine = Engine::new();
    let (env, db) = open_test_db(&mut engine, "absent");
    assert_norecord(&mut engine, &db, b"key2");
    close(&mut engine, env, db);
}

#[test]
fn environment_outlives_its_database() {
    let mut engine = Engine::new();
    let (env, db) = open_test_db(&mut engine, "order");
    engine.log.clear();

    // The database still holds the environment: nothing is owed yet.
    assert_eq!(Env::release(env), Vec::<Call>::new());
    assert!(engine.log.is_empty());

    // Now the database goes, and the environment after it.
    let owed = Db::release(db);
    assert_eq!(owed.len(), 2);
    assert!(matches!(owed[0], Call::DbClose { .. }));
    assert!(matches!(owed[1], Call::EnvClose { .. }));
    engine.perform_all(owed);
    assert!(engine.dbs.is_empty());
    assert!(engine.envs.is_empty());
}

#[test]
fn cursor_keeps_database_and_environment() {
    let mut engine = Engine::new();
    let (env, db) = open_test_db(&mut engine, "cursor-order");
    let opened = engine.perform(db.cursor_call());
    let cursor = db.cursor(&opened).unwrap();

    assert!(Db::release(db).is_empty());
    assert!(Env::release(env).is_empty());

    let owed = cursor.release();
    assert_eq!(owed.len(), 3);
    assert!(matches!(owed[0], Call::CursorClose { .. }));
    assert!(matches!(owed[1], Call::DbClose { .. }));
    assert!(matches!(owed[2], Call::EnvClose { .. }));
    engine.perform_all(owed);
    assert!(engine.cursors.is_empty() && engine.dbs.is_empty() && engine.envs.is_empty());
}

#[test]
fn transaction_keeps_the_environment() {
    let mut engine = Engine::new();
    let (env, db) = open_test_db(&mut engine, "txn-order");
    let txn = begin(&mut engine, &env);
    assert!(Db::release(db).len() == 1);
    assert!(Env::release(env).is_empty());
    let (call, resolution) = txn.abort();
    assert!(matches!(call, Call::TxnAbort { .. }));
    let (done, owed) = resolution.finish(&Reply::bare(0));
    assert!(done.is_ok());
    assert_eq!(owed.len(), 1);
    assert!(matches!(owed[0], Call::EnvClose { .. }));
}

#[test]
fn nested_transaction_names_its_parent() {
    let mut engine = Engine::new();
    let (env, db) = open_test_db(&mut engine, "nested");
    let parent = begin(&mut engine, &env);
    let call = env.txn_call(Some(&parent), flags(DB_NONE));
    let parent_handle = parent.handle();
    match call {
        Call::TxnBegin { parent, flags, .. } => {
            assert_eq!(parent, parent_handle);
            assert_eq!(flags, 0);
        }
        ref other => panic!("{:?}", other),
    }
    let begun = engine.perform(call);
    let child = env.txn(&begun).unwrap();
    assert!(commit(&mut engine, child).is_ok());
    assert!(abort(&mut engine, parent).is_ok());
    close(&mut engine, env, db);
}
