//! The backend for C and C++ sources.

use crate::inc::clang::inst::Error;
use crate::inc::{Message, SessionError};
use vstd::prelude::*;

pub mod inst;

verus! {

/// The incremental compiler for the C family of languages.
pub struct ClangInc {}

impl ClangInc {
    /// The backend's name.
    pub open spec fn spec_name() -> Seq<char> {
        "clang"@
    }

    /// The extensions of the files the backend takes, sources before headers.
    pub open spec fn spec_extensions() -> Seq<Seq<char>> {
        seq!["c"@, "cc"@, "cpp"@, "cxx"@, "h"@, "hh"@, "hpp"@, "hxx"@]
    }

    /// Name of the incremental compiler.
    pub fn name(&self) -> (name: &'static str)
        ensures
            name@ == Self::spec_name(),
    {
        "clang"
    }

    /// The file extensions this incremental compiler supports, without
    /// leading dots.
    pub fn extensions(&self) -> (extensions: Vec<String>)
        ensures
            extensions.deep_view() == Self::spec_extensions(),
    {
        let mut list: Vec<String> = Vec::new();
        list.push("c".to_owned());
        list.push("cc".to_owned());
        list.push("cpp".to_owned());
        list.push("cxx".to_owned());
        list.push("h".to_owned());
        list.push("hh".to_owned());
        list.push("hpp".to_owned());
        list.push("hxx".to_owned());
        assert(list.deep_view() =~= Self::spec_extensions());
        list
    }
}

/// What came of handing one request to a session's worker.
#[derive(Debug, PartialEq, Eq)]
pub enum Exchange {
    /// The mailbox was closed: the request never reached the worker.
    Refused,
    /// The worker took the request and ended before it answered.
    Abandoned,
    /// The worker answered.
    Answered(Result<Vec<Message>, Error>),
}

/// What an update of the session returns, given what came of its exchange
/// with the worker. A worker that cannot be reached, or that is gone before
/// it answers, makes the session dead; nobody waits for an answer that will
/// not come. An answer is handed on: the messages, or the error as a failure
/// to compile.
pub fn settle(exchange: Exchange) -> (r: Result<Vec<Message>, SessionError>)
    ensures
        match exchange {
            Exchange::Refused => r == Err::<Vec<Message>, SessionError>(SessionError::SessionDead),
            Exchange::Abandoned => r == Err::<Vec<Message>, SessionError>(
                SessionError::SessionDead,
            ),
            Exchange::Answered(Ok(messages)) => r == Ok::<Vec<Message>, SessionError>(messages),
            Exchange::Answered(Err(Error::Internal(text))) => r == Err::<
                Vec<Message>,
                SessionError,
            >(SessionError::CompileFailure(text)),
        },
{
    match exchange {
        Exchange::Refused => Err(SessionError::SessionDead),
        Exchange::Abandoned => Err(SessionError::SessionDead),
        Exchange::Answered(Ok(messages)) => Ok(messages),
        Exchange::Answered(Err(Error::Internal(text))) => Err(SessionError::CompileFailure(text)),
    }
}

} // verus!
