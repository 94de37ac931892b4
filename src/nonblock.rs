//! Mapping of "operation would block" into an absent result.
//!
//! A non-blocking socket operation ends in one of three ways: it completed
//! (`Ok(Some(value))`), it could not complete yet (`Ok(None)`), or it failed
//! (`Err(error)`, the OS error as reported). Only the would-block condition is
//! turned into `Ok(None)`; every other error, an interrupted call included,
//! is passed on unchanged and never retried here.

use vstd::prelude::*;

verus! {

#[verifier::external_type_specification]
#[verifier::external_body]
pub struct ExIoError(std::io::Error);

/// Whether the error `e` is the would-block condition; it depends on the
/// error value alone.
pub uninterp spec fn is_would_block(e: std::io::Error) -> bool;

/// Relies on std::io::Error::kind, to tell the would-block condition
/// (`ErrorKind::WouldBlock`) from every other error.
#[verifier::external_body]
fn reports_would_block(e: &std::io::Error) -> (r: bool)
    ensures
        r == is_would_block(*e),
{
    matches!(e.kind(), std::io::ErrorKind::WouldBlock)
}

/// The three-way result of an operation that ended in `res`, where
/// `would_block` tells whether its error, if any, is the would-block condition.
pub open spec fn non_block<T>(res: Result<T, std::io::Error>, would_block: bool) -> Result<Option<T>, std::io::Error> {
    match res {
        Ok(v) => Ok(Some(v)),
        Err(e) => if would_block {
            Ok(None)
        } else {
            Err(e)
        },
    }
}

/// Settles the result of an operation, given whether its error is the
/// would-block condition.
pub fn settle<T>(res: Result<T, std::io::Error>, would_block: bool) -> (r: Result<Option<T>, std::io::Error>)
    ensures
        r == non_block(res, would_block),
{
    match res {
        Ok(v) => Ok(Some(v)),
        Err(e) => if would_block {
            Ok(None)
        } else {
            Err(e)
        },
    }
}

/// Turns the would-block error of a non-blocking operation into `Ok(None)`.
/// A value is reported only for an operation that completed; any other error
/// is reported as it came.
pub fn map_non_block<T>(res: Result<T, std::io::Error>) -> (r: Result<Option<T>, std::io::Error>)
    ensures
        res is Ok ==> r == Ok::<Option<T>, std::io::Error>(Some(res->Ok_0)),
        res is Err ==> r == non_block(res, is_would_block(res->Err_0)),
{
    let would_block = match &res {
        Ok(_) => false,
        Err(e) => reports_would_block(e),
    };
    settle(res, would_block)
}

/// Without data, no outcome of a non-blocking operation is a completed
/// transfer: a failed operation yields either no result yet or its own error,
/// never a value.
pub proof fn lemma_failure_is_never_a_value<T>(e: std::io::Error, would_block: bool)
    ensures
        !(non_block(Err::<T, std::io::Error>(e), would_block) matches Ok(Some(_))),
        would_block ==> non_block(Err::<T, std::io::Error>(e), would_block) == Ok::<Option<T>, std::io::Error>(None),
        !would_block ==> non_block(Err::<T, std::io::Error>(e), would_block) == Err::<Option<T>, std::io::Error>(e),
{
}

} // verus!
