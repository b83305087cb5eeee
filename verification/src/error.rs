use vstd::prelude::*;

verus! {

/// How the database answered a statement that it did not carry out.
#[derive(Clone, Copy, Debug, PartialEq, Eq, Structural)]
pub enum DbError {
    /// A single row was asked for and there is none.
    NotFound,
    /// The statement was refused or could not be run.
    Query,
}

/// Everything that can go wrong in this crate, or in the work that it hands to its caller.
#[derive(Clone, Copy, Debug, PartialEq, Eq, Structural)]
pub enum Error {
    /// The database failed or had no such row.
    Db(DbError),
    /// The file system failed.
    Io,
    /// An activity lacks a property that it needs.
    MissingApProperty,
    /// There is no such value outside the database.
    NotFound,
    /// A remote object could not be fetched.
    Request,
    /// A value could not be read from JSON or written to it.
    SerDe,
    /// Key material is unusable.
    Signature,
    /// The actor may not do this.
    Unauthorized,
    /// A text is not an IRI.
    Url,
}

} // verus!
