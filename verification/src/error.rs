//! The error of the typed layer: the engine's, or the codec's.

use vstd::prelude::*;

verus! {

#[verifier::external_type_specification]
#[verifier::external_body]
pub struct ExBoxedError(rkyv::rancor::BoxedError);

/// What a typed table operation can fail with.
#[derive(Debug)]
pub enum Error {
    /// The engine reported an error.
    Lmdb(crate::lmdb::Error),
    /// A value could not be encoded, or stored bytes are not a valid value.
    Rkyv(rkyv::rancor::BoxedError),
}

impl Error {
    /// The engine's error, where this is one.
    pub open spec fn engine(self) -> Option<crate::lmdb::Error> {
        match self {
            Error::Lmdb(e) => Some(e),
            Error::Rkyv(_) => None,
        }
    }
}

/// An engine result as a result of the typed layer.
pub open spec fn lifted<R>(r: Result<R, crate::lmdb::Error>) -> Result<R, Error> {
    match r {
        Ok(x) => Ok(x),
        Err(e) => Err(Error::Lmdb(e)),
    }
}

/// Turns an engine result into a result of the typed layer.
pub fn lift<R>(r: Result<R, crate::lmdb::Error>) -> (out: Result<R, Error>)
    ensures
        out == lifted(r),
{
    match r {
        Ok(x) => Ok(x),
        Err(e) => Err(Error::Lmdb(e)),
    }
}

} // verus!
