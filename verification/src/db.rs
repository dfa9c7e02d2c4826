//! How large the connection pool of a runner is.

use vstd::prelude::*;

verus! {

/// What is needed to build a connection pool for a runner: where the
/// database is, the builder of the pool, and the size of the pool if one
/// was asked for.
pub struct R2d2Builder<B> {
    url: String,
    builder: B,
    connection_count: Option<u32>,
}

/// The largest number of connections of a pool for which the size
/// `connection_count` was asked, in a runner that by itself would use
/// `default_connection_count`.
pub open spec fn max_size(connection_count: Option<u32>, default_connection_count: u32) -> u32 {
    match connection_count {
        Some(connection_count) => connection_count,
        None => default_connection_count,
    }
}

impl<B> R2d2Builder<B> {
    /// The database that the pool connects to.
    pub closed spec fn url(&self) -> String {
        self.url
    }

    /// The builder of the pool.
    pub closed spec fn builder(&self) -> B {
        self.builder
    }

    /// The size of the pool, if one was asked for.
    pub closed spec fn spec_connection_count(&self) -> Option<u32> {
        self.connection_count
    }

    /// A pool at `url` that `builder` will build, of no particular size.
    pub fn new(url: String, builder: B) -> (r2d2_builder: Self)
        ensures
            r2d2_builder.url() == url,
            r2d2_builder.builder() == builder,
            r2d2_builder.spec_connection_count() == None::<u32>,
    {
        R2d2Builder { url, builder, connection_count: None }
    }

    /// Asks for a pool of at most `connection_count` connections.
    pub fn connection_count(&mut self, connection_count: u32)
        ensures
            final(self).spec_connection_count() == Some(connection_count),
            final(self).url() == old(self).url(),
            final(self).builder() == old(self).builder(),
    {
        self.connection_count = Some(connection_count);
    }

    /// What the pool is built from: the database, the builder, and the
    /// largest number of connections. That is the number that was asked
    /// for, and `default_connection_count` if none was.
    pub fn build(self, default_connection_count: u32) -> (parts: (String, B, u32))
        ensures
            parts.0 == self.url(),
            parts.1 == self.builder(),
            parts.2 == max_size(self.spec_connection_count(), default_connection_count),
    {
        let size: u32 = match self.connection_count {
            Some(connection_count) => connection_count,
            None => default_connection_count,
        };
        (self.url, self.builder, size)
    }
}

} // verus!
