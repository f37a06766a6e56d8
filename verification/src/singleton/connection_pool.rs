//! A pool of database connections, handed out oldest first.
use std::collections::VecDeque;
use vstd::prelude::*;

verus! {

/// A database connection. It carries nothing: one is as good as another.
#[derive(Debug)]
pub struct DbConnection {}

/// The pool: the idle connections, the one that waited longest in front.
pub struct ConnectionPool {
    connections: VecDeque<DbConnection>,
}

impl ConnectionPool {
    /// The idle connections, the one that waited longest first.
    pub closed spec fn idle(&self) -> Seq<DbConnection> {
        self.connections@
    }

    /// An empty pool.
    pub fn new() -> (pool: Self)
        ensures
            pool.idle().len() == 0,
    {
        ConnectionPool { connections: VecDeque::new() }
    }

    /// Takes the connection that waited longest out of the pool, or returns
    /// `None` when the pool is empty.
    pub fn get_connection(&mut self) -> (conn: Option<DbConnection>)
        ensures
            old(self).idle().len() == 0 ==> conn is None && final(self).idle() == old(self).idle(),
            old(self).idle().len() > 0 ==> conn == Some(old(self).idle()[0]) && final(self).idle() == old(
                self,
            ).idle().subrange(1, old(self).idle().len() as int),
    {
        self.connections.pop_front()
    }

    /// Puts a connection that was taken out back, behind the idle ones.
    pub fn return_connection(&mut self, conn: DbConnection)
        ensures
            final(self).idle() == old(self).idle().push(conn),
    {
        self.connections.push_back(conn);
    }

    /// Adds a new connection behind the idle ones.
    pub fn add_connection(&mut self, conn: DbConnection)
        ensures
            final(self).idle() == old(self).idle().push(conn),
    {
        self.connections.push_back(conn);
    }

    /// How many connections are idle.
    pub fn available(&self) -> (n: usize)
        ensures
            n == self.idle().len(),
    {
        self.connections.len()
    }
}

} // verus!
