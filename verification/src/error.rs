//! The error taxonomy and the classification of failure responses.
//!
//! Every failure is a value returned to the caller: a transport fault, a
//! body that did not decode, a structured rejection from the remote
//! service, or a bare non-success status.

use vstd::prelude::*;
use vstd::string::StringExecFns;

use crate::json::{Decodable, Json, JsonV, jview, opt_jview};
use crate::types::ErrorResponse;

verus! {

broadcast use vstd::std_specs::vec::group_vec_axioms, vstd::seq::group_seq_axioms;

/// What went wrong with one call.
#[derive(Debug, Clone, PartialEq)]
pub enum Error {
    /// The request could not be sent or no response was received.
    Transport(String),
    /// A response body could not be parsed into the expected shape.
    Decode,
    /// The remote service returned a structured error payload; the joined
    /// error strings are the message.
    Api(String),
    /// The remote service returned a non-success status without a
    /// structured payload; the raw status code is carried.
    Http(u16),
}

/// The mathematical shape of an error.
pub enum ErrorV {
    Transport(Seq<char>),
    Decode,
    Api(Seq<char>),
    Http(u16),
}

impl DeepView for Error {
    type V = ErrorV;

    open spec fn deep_view(&self) -> ErrorV {
        match self {
            Error::Transport(m) => ErrorV::Transport(m@),
            Error::Decode => ErrorV::Decode,
            Error::Api(m) => ErrorV::Api(m@),
            Error::Http(c) => ErrorV::Http(*c),
        }
    }
}

/// Whether an HTTP status code counts as success.
pub open spec fn spec_is_success(status: u16) -> bool {
    200 <= status < 300
}

/// Decide whether a status code counts as success.
pub fn status_is_success(status: u16) -> (r: bool)
    ensures
        r == spec_is_success(status),
{
    200 <= status && status < 300
}

/// The error strings joined with a comma and a space between entries.
pub open spec fn spec_join_comma(errs: Seq<Seq<char>>) -> Seq<char>
    decreases errs.len(),
{
    if errs.len() == 0 {
        Seq::empty()
    } else if errs.len() == 1 {
        errs[0]
    } else {
        spec_join_comma(errs.drop_last()) + ", "@ + errs.last()
    }
}

/// Join error strings with `", "`.
pub fn join_comma(errs: &Vec<String>) -> (r: String)
    ensures
        r@ == spec_join_comma(errs.deep_view()),
{
    let mut acc: String = String::new();
    let mut i: usize = 0;
    proof {
        assert(errs.deep_view().subrange(0, 0) =~= Seq::<Seq<char>>::empty());
        assert(acc@ =~= spec_join_comma(errs.deep_view().subrange(0, 0)));
    }
    while i < errs.len()
        invariant
            i <= errs.len(),
            errs.deep_view().len() == errs.len(),
            acc@ == spec_join_comma(errs.deep_view().subrange(0, i as int)),
        decreases errs.len() - i,
    {
        if i > 0 {
            acc.append(", ");
        }
        acc.append(errs[i].as_str());
        i = i + 1;
        proof {
            let dv = errs.deep_view();
            assert(dv.subrange(0, i as int).drop_last() =~= dv.subrange(0, i as int - 1));
            assert(dv.subrange(0, i as int).last() == dv[i as int - 1]);
            if i == 1 {
                assert(acc@ =~= dv.subrange(0, 1).last());
            }
        }
    }
    proof {
        assert(errs.deep_view().subrange(0, errs.len() as int) =~= errs.deep_view());
    }
    acc
}

/// How a non-success response maps to an error: a body that decodes as a
/// structured error payload yields the joined message, anything else yields
/// the bare status code.
pub open spec fn spec_error_of(status: u16, parsed: Option<JsonV>) -> ErrorV {
    match parsed {
        Option::Some(j) => match ErrorResponse::spec_decode(j) {
            Option::Some(er) => ErrorV::Api(spec_join_comma(er.errors)),
            Option::None => ErrorV::Http(status),
        },
        Option::None => ErrorV::Http(status),
    }
}

/// Classify a failure response body, exactly as `spec_error_of` says.
pub fn error_from_failure(status: u16, parsed: &Option<Json>) -> (e: Error)
    ensures
        e.deep_view() == spec_error_of(status, opt_jview(*parsed)),
{
    match parsed {
        Option::Some(j) => match ErrorResponse::decode(j) {
            Option::Some(er) => Error::Api(join_comma(&er.errors)),
            Option::None => Error::Http(status),
        },
        Option::None => Error::Http(status),
    }
}

/// A non-success response whose body decodes as a structured error payload
/// always yields the structured message, never the bare status code.
pub proof fn lemma_structured_error(status: u16, j: JsonV)
    requires
        !spec_is_success(status),
        ErrorResponse::spec_decode(j) is Some,
    ensures
        spec_error_of(status, Option::Some(j)) == ErrorV::Api(
            spec_join_comma(ErrorResponse::spec_decode(j)->0.errors),
        ),
{
}

/// A non-success response whose body is unparseable, or parses but is no
/// structured error payload, always yields the bare status code.
pub proof fn lemma_generic_error(status: u16, parsed: Option<JsonV>)
    requires
        !spec_is_success(status),
        match parsed {
            Option::Some(j) => ErrorResponse::spec_decode(j) is None,
            Option::None => true,
        },
    ensures
        spec_error_of(status, parsed) == ErrorV::Http(status),
{
}

} // verus!
