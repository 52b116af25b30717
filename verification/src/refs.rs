//! Non-owning references to native objects and to native entry-point tables.

use vstd::prelude::*;

verus! {

/// The address of one native object.
///
/// The address is never read through: it is carried into native calls and
/// compared, nothing else. Two references are equal exactly when they hold
/// the same address. Nothing here owns the object or extends its life.
#[derive(Clone, Copy, Debug, PartialEq, Eq, Structural)]
pub struct ObjectRef {
    pub addr: usize,
}

impl ObjectRef {
    pub open spec fn spec_is_null(&self) -> bool {
        self.addr == 0
    }

    /// Wraps an address obtained from the native toolkit.
    pub fn from_addr(addr: usize) -> (r: ObjectRef)
        ensures
            r.addr == addr,
    {
        ObjectRef { addr }
    }

    /// The wrapped address, unchanged.
    pub fn addr(&self) -> (a: usize)
        ensures
            a == self.addr,
    {
        self.addr
    }

    #[verifier::when_used_as_spec(spec_is_null)]
    pub fn is_null(&self) -> (r: bool)
        ensures
            r == self.spec_is_null(),
    {
        self.addr == 0
    }
}

/// The address of the entry-point table that all objects of one widget kind
/// share. Read-only, never owned, compared by address.
#[derive(Clone, Copy, Debug, PartialEq, Eq, Structural)]
pub struct TableRef {
    pub addr: usize,
}

impl TableRef {
    pub open spec fn spec_is_null(&self) -> bool {
        self.addr == 0
    }

    /// Wraps a table address obtained from the native toolkit.
    pub fn from_addr(addr: usize) -> (r: TableRef)
        ensures
            r.addr == addr,
    {
        TableRef { addr }
    }

    /// The wrapped address, unchanged.
    pub fn addr(&self) -> (a: usize)
        ensures
            a == self.addr,
    {
        self.addr
    }

    #[verifier::when_used_as_spec(spec_is_null)]
    pub fn is_null(&self) -> (r: bool)
        ensures
            r == self.spec_is_null(),
    {
        self.addr == 0
    }
}

} // verus!
