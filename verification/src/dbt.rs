//! The bytes of a record, as a lookup or a cursor hands them out.
use vstd::prelude::*;

verus! {

/// A span of bytes: either a view into memory of the caller, or bytes that the
/// engine allocated for this value alone. The second kind is owned by the
/// value, so it is given up once, when the value goes, and cannot be read
/// after that.
#[derive(Debug)]
pub enum DBT<'a> {
    /// Bytes that the caller owns.
    Owned(&'a [u8]),
    /// Bytes that the engine allocated.
    Ptr(Vec<u8>),
}

impl<'a> View for DBT<'a> {
    type V = Seq<u8>;

    /// The bytes of the record.
    open spec fn view(&self) -> Seq<u8> {
        match *self {
            DBT::Owned(s) => s@,
            DBT::Ptr(v) => v@,
        }
    }
}

impl<'a> DBT<'a> {
    /// The bytes of the record.
    pub fn as_slice(&self) -> (s: &[u8])
        ensures
            s@ == self@,
    {
        match self {
            DBT::Owned(s) => s,
            DBT::Ptr(v) => v.as_slice(),
        }
    }
}

impl<'a> core::ops::Deref for DBT<'a> {
    type Target = [u8];

    fn deref(&self) -> (s: &[u8])
        ensures
            s@ == self@,
    {
        self.as_slice()
    }
}

impl<'a> From<Vec<u8>> for DBT<'a> {
    /// Take over bytes that the engine allocated.
    fn from(bytes: Vec<u8>) -> (d: DBT<'a>) {
        DBT::Ptr(bytes)
    }
}

impl<'a> vstd::std_specs::convert::FromSpecImpl<Vec<u8>> for DBT<'a> {
    open spec fn obeys_from_spec() -> bool {
        true
    }

    open spec fn from_spec(bytes: Vec<u8>) -> DBT<'a> {
        DBT::Ptr(bytes)
    }
}

} // verus!
