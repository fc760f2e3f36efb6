//! The one error type that every failing layer is reported in.

use vstd::prelude::*;

verus! {

/// Why an operation failed, in the coarsest terms.
#[derive(Clone, Copy, Debug, PartialEq, Eq, Structural)]
pub enum ErrorKind {
    /// The bytes are not an encoding of the value asked for, or the value has
    /// no encoding.
    InvalidData,
    /// A failure passed on from a layer below, cause attached.
    Other,
}

/// A failure together with the error that caused it.
///
/// The cause is kept as it was raised, so that a caller who wants to know
/// more than "it failed" can look inside.
#[derive(Clone, Debug, PartialEq, Eq)]
pub struct Failure<E> {
    pub kind: ErrorKind,
    pub source: E,
}

/// The result `res` with its error, if any, wrapped as a failure of kind
/// `kind`.
pub open spec fn wrapped<T, E>(kind: ErrorKind, res: Result<T, E>) -> Result<T, Failure<E>> {
    match res {
        Ok(value) => Ok(value),
        Err(source) => Err(Failure { kind, source }),
    }
}

/// The result `res` as the channel reports it: a success unchanged, a failure
/// as kind [`ErrorKind::Other`] around its cause.
pub open spec fn unified<T, E>(res: Result<T, E>) -> Result<T, Failure<E>> {
    wrapped(ErrorKind::Other, res)
}

/// The result that a layer below returned, recovered from what the channel
/// reported.
pub open spec fn cause_of<T, E>(res: Result<T, Failure<E>>) -> Result<T, E> {
    match res {
        Ok(value) => Ok(value),
        Err(error) => Err(error.source),
    }
}

/// Wraps the error of `res`, if there is one, as a failure of kind `kind`.
pub fn wrap<T, E>(kind: ErrorKind, res: Result<T, E>) -> (out: Result<T, Failure<E>>)
    ensures
        out == wrapped(kind, res),
{
    match res {
        Ok(value) => Ok(value),
        Err(source) => Err(Failure { kind, source }),
    }
}

/// Reports `res` as the channel does: whichever layer failed, the caller sees
/// kind [`ErrorKind::Other`] with the cause inside.
pub fn unify<T, E>(res: Result<T, E>) -> (out: Result<T, Failure<E>>)
    ensures
        out == unified(res),
{
    wrap(ErrorKind::Other, res)
}

/// Unifying loses nothing: the cause comes back out as it went in, and
/// every failure carries the same kind.
pub proof fn lemma_unified_keeps_cause<T, E>(res: Result<T, E>)
    ensures
        cause_of(unified(res)) == res,
        unified(res) is Ok <==> res is Ok,
        unified(res) matches Err(error) ==> error.kind == ErrorKind::Other,
{
}

} // verus!
