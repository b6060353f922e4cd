//! Cursors: positions in a database, moving forward through its records.
use crate::db::db_release_calls;
use crate::db::lemma_database_closes_first;
use crate::db::Database;
use crate::db::Db;
use crate::dbt::DBT;
use crate::engine::lemma_views_concat;
use crate::engine::views;
use crate::engine::Call;
use crate::engine::CallView;
use crate::engine::Reply;
use crate::error::Error;
use crate::error::DB_NOTFOUND;
use std::marker::PhantomData;
use std::rc::Rc;
use vstd::prelude::*;

verus! {

/// A position in a database. It holds a reference to the database, so the
/// database stays open as long as the cursor is there. A cursor only moves
/// forward, and once it has passed the last record it stays there.
#[derive(Debug)]
pub struct Cursor {
    db: Database,
    dbc_ptr: usize,
    exhausted: bool,
    // A cursor is one sequence of operations: it stays on its thread.
    confined: PhantomData<Rc<()>>,
}

/// Whether a cursor has passed the last record after a step: it had before,
/// or the engine answered the step with the end of the data.
pub open spec fn exhausted_by(exhausted: bool, status: i32) -> bool {
    exhausted || status == DB_NOTFOUND
}

/// Whether a cursor has passed the last record after the steps that the
/// engine answered with `statuses`, one after the other.
pub open spec fn exhausted_after(exhausted: bool, statuses: Seq<i32>) -> bool
    decreases statuses.len(),
{
    if statuses.len() == 0 {
        exhausted
    } else {
        exhausted_by(exhausted_after(exhausted, statuses.drop_last()), statuses.last())
    }
}

/// What giving up the cursor `cursor` owes: its close, then what giving up
/// its reference to the database owes.
pub open spec fn cursor_release_calls(cursor: Cursor, db_last: bool, env_last: bool) -> Seq<
    CallView,
> {
    seq![CallView::CursorClose { cursor: cursor.handle() }] + db_release_calls(
        *cursor.db(),
        db_last,
        env_last,
    )
}

impl Cursor {
    /// The engine's handle.
    pub closed spec fn spec_handle(&self) -> usize {
        self.dbc_ptr
    }

    /// The database that the cursor walks.
    pub closed spec fn db(&self) -> Database {
        self.db
    }

    /// Whether the cursor has passed the last record.
    pub closed spec fn spec_is_exhausted(&self) -> bool {
        self.exhausted
    }

    /// The engine's handle.
    #[verifier::when_used_as_spec(spec_handle)]
    pub fn handle(&self) -> (handle: usize)
        ensures
            handle == self.handle(),
    {
        self.dbc_ptr
    }

    /// Whether the cursor has passed the last record.
    #[verifier::when_used_as_spec(spec_is_exhausted)]
    pub fn is_exhausted(&self) -> (exhausted: bool)
        ensures
            exhausted == self.is_exhausted(),
    {
        self.exhausted
    }

    /// The cursor that the engine opened on `db` under `handle`, before the
    /// first record.
    pub(crate) fn opened(db: Database, handle: usize) -> (cursor: Cursor)
        ensures
            cursor.handle() == handle,
            cursor.db() == db,
            !cursor.is_exhausted(),
    {
        Cursor { db, dbc_ptr: handle, exhausted: false, confined: PhantomData }
    }

    /// The call that moves the cursor to the next record and reads it. Once
    /// the cursor has passed the last record there is nothing to ask the
    /// engine for.
    pub fn next_call(&self) -> (call: Option<Call>)
        ensures
            call is Some <==> !self.is_exhausted(),
            call matches Some(c) ==> c@ == (CallView::CursorNext { cursor: self.handle() })
                && c@.fits_engine(),
    {
        if self.exhausted {
            None
        } else {
            Some(Call::CursorNext { cursor: self.dbc_ptr })
        }
    }

    /// The next key/data pair of the database. `read` is the engine's answer
    /// to the call that `next_call` gave; where it gave none, `read` is not
    /// looked at. Past the last record the result is `Ok((None, None))`,
    /// however often it is asked for: the end of the data is no error, and
    /// nothing comes after it. Key and data are owned by the result.
    pub fn next(&mut self, read: Reply) -> (r: Result<
        (Option<DBT<'static>>, Option<DBT<'static>>),
        Error,
    >)
        ensures
            final(self).handle() == old(self).handle(),
            final(self).db() == old(self).db(),
            final(self).is_exhausted() == exhausted_by(old(self).is_exhausted(), read.status),
            final(self).is_exhausted() ==> r matches Ok((None, None)),
            !final(self).is_exhausted() && read.status == 0 ==> {
                &&& r matches Ok((Some(key), Some(data)))
                &&& key == DBT::Ptr(read.key)
                &&& data == DBT::Ptr(read.data)
            },
            !final(self).is_exhausted() && read.status != 0 ==> (r matches Err(e) && e.errno
                == read.status),
    {
        if self.exhausted {
            Ok((None, None))
        } else if read.status == 0 {
            Ok((Some(DBT::Ptr(read.key)), Some(DBT::Ptr(read.data))))
        } else if read.status == DB_NOTFOUND {
            self.exhausted = true;
            Ok((None, None))
        } else {
            Err(Error::new(read.status))
        }
    }

    /// Give up the cursor: the engine is asked to close it, and after that
    /// the database and the environment too if nothing else holds them.
    pub fn release(self) -> (owed: Vec<Call>)
        ensures
            exists|db_last: bool, env_last: bool|
                views(owed@) == cursor_release_calls(self, db_last, env_last),
    {
        let mut owed: Vec<Call> = Vec::new();
        owed.push(Call::CursorClose { cursor: self.dbc_ptr });
        let ghost first = owed@;
        let mut more = Db::release(self.db);
        proof {
            let (db_last, env_last) = choose|l: bool, e: bool|
                views(more@) == db_release_calls(*self.db, l, e);
            lemma_views_concat(first, more@);
            assert(views(first) =~= seq![CallView::CursorClose { cursor: self.handle() }]);
            assert(views(first + more@) == cursor_release_calls(self, db_last, env_last));
        }
        owed.append(&mut more);
        owed
    }
}

/// The end of the data is final: a cursor that has passed the last record
/// after some steps has passed it after any number of further steps,
/// whatever the engine answers to them.
pub proof fn lemma_exhaustion_is_final(exhausted: bool, statuses: Seq<i32>, n: int)
    requires
        0 <= n <= statuses.len(),
        exhausted_after(exhausted, statuses.subrange(0, n)),
    ensures
        exhausted_after(exhausted, statuses),
    decreases statuses.len() - n,
{
    if n == statuses.len() {
        assert(statuses.subrange(0, n) =~= statuses);
    } else {
        let longer = statuses.subrange(0, n + 1);
        assert(longer.drop_last() =~= statuses.subrange(0, n));
        lemma_exhaustion_is_final(exhausted, statuses, n + 1);
    }
}

/// A cursor reaches the end of the data exactly when the engine says so for
/// the first time: it has passed the last record after some steps if and
/// only if it had before them or one of them was answered with the end of
/// the data.
pub proof fn lemma_exhausted_by_first_end(exhausted: bool, statuses: Seq<i32>)
    ensures
        exhausted_after(exhausted, statuses) <==> exhausted || exists|i: int|
            0 <= i < statuses.len() && statuses[i] == DB_NOTFOUND,
    decreases statuses.len(),
{
    if statuses.len() > 0 {
        let shorter = statuses.drop_last();
        lemma_exhausted_by_first_end(exhausted, shorter);
        if exists|i: int| 0 <= i < shorter.len() && shorter[i] == DB_NOTFOUND {
            let i = choose|i: int| 0 <= i < shorter.len() && shorter[i] == DB_NOTFOUND;
            assert(statuses[i] == DB_NOTFOUND);
        }
        if exists|i: int| 0 <= i < statuses.len() && statuses[i] == DB_NOTFOUND {
            let i = choose|i: int| 0 <= i < statuses.len() && statuses[i] == DB_NOTFOUND;
            if i < shorter.len() {
                assert(shorter[i] == DB_NOTFOUND);
            } else {
                assert(statuses.last() == DB_NOTFOUND);
            }
        }
    }
}

/// A cursor is closed before its database, and that before its environment:
/// what giving up a cursor owes starts with the close of the cursor, and goes
/// on with what giving up its reference to the database owes.
pub proof fn lemma_cursor_closes_first(cursor: Cursor, db_last: bool, env_last: bool)
    ensures
        ({
            let owed = cursor_release_calls(cursor, db_last, env_last);
            &&& 1 <= owed.len() <= 3
            &&& owed[0] == (CallView::CursorClose { cursor: cursor.handle() })
            &&& owed.subrange(1, owed.len() as int) == db_release_calls(
                *cursor.db(),
                db_last,
                env_last,
            )
            &&& forall|i: int| 0 <= i < owed.len() && owed[i] is DbClose ==> i == 1
            &&& forall|i: int| 0 <= i < owed.len() && owed[i] is EnvClose ==> i == 2
        }),
{
    let owed = cursor_release_calls(cursor, db_last, env_last);
    let db = *cursor.db();
    lemma_database_closes_first(db, db_last, env_last);
    assert(owed.subrange(1, owed.len() as int) =~= db_release_calls(db, db_last, env_last));
}

} // verus!
