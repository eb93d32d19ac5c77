//! The tally cores of the global-instance demonstrations: each database
//! counts the queries made of it.  The statics, locks and log output that
//! make such a database a process-wide singleton are process plumbing and
//! stay outside the library, which therefore offers the constructors
//! openly instead of hiding them behind that plumbing.

use vstd::prelude::*;

verus! {

/// Counts every query, whether made through a shared or an exclusive
/// handle.  Cross-thread use would back this with an atomic; the
/// single-thread core keeps a plain counter that wraps as an atomic's
/// addition would.
pub struct SaferDatabase {
    count: u32,
}

impl SaferDatabase {
    /// How many queries have been made.
    pub closed spec fn count_spec(&self) -> int {
        self.count as int
    }

    /// A database that has seen no queries.
    pub fn new() -> (r: SaferDatabase)
        ensures
            r.count_spec() == 0,
    {
        SaferDatabase { count: 0 }
    }

    /// Adds one to the tally, wrapping at the counter's top.
    fn add_one(&mut self)
        ensures
            final(self).count_spec() == (old(self).count_spec() + 1) % 0x1_0000_0000,
    {
        self.count = self.count.wrapping_add(1);
    }

    /// A query through a shared handle; logging the query text is I/O
    /// and stays outside the library.
    pub fn query_immut(&mut self, _sql: &str)
        ensures
            final(self).count_spec() == (old(self).count_spec() + 1) % 0x1_0000_0000,
    {
        self.add_one();
    }

    /// A query through an exclusive handle.
    pub fn query_mut(&mut self, _sql: &str)
        ensures
            final(self).count_spec() == (old(self).count_spec() + 1) % 0x1_0000_0000,
    {
        self.add_one();
    }

    /// The number of queries made.
    pub fn count(&self) -> (r: u32)
        ensures
            r as int == self.count_spec(),
    {
        self.count
    }

    /// Forgets every query made so far.
    pub fn reset(&mut self)
        ensures
            final(self).count_spec() == 0,
    {
        self.count = 0;
    }
}

/// The simpler variant: only queries through an exclusive handle count.
pub struct Database {
    count: u32,
}

impl Database {
    /// How many exclusive queries have been made.
    pub closed spec fn count_spec(&self) -> int {
        self.count as int
    }

    /// A database that has seen no queries.
    pub fn new() -> (r: Database)
        ensures
            r.count_spec() == 0,
    {
        Database { count: 0 }
    }

    /// A query through a shared handle; it is not counted, and logging
    /// the query text is I/O that stays outside the library.
    pub fn query_immut(&self, _sql: &str) {
    }

    /// A query through an exclusive handle; the tally must have room.
    pub fn query_mut(&mut self, _sql: &str)
        requires
            old(self).count_spec() < u32::MAX,
        ensures
            final(self).count_spec() == old(self).count_spec() + 1,
    {
        self.count = self.count + 1;
    }

    /// The number of exclusive queries made.
    pub fn count_mut(&self) -> (r: u32)
        ensures
            r as int == self.count_spec(),
    {
        self.count
    }

    /// Forgets every query made so far.
    pub fn reset(&mut self)
        ensures
            final(self).count_spec() == 0,
    {
        self.count = 0;
    }
}

} // verus!
