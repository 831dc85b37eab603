//! What each kind of read makes of the answers it draws.
//!
//! A validator is any function from a line to `Ok` or `Err`. The contracts
//! take it as a relation between a line and the results it can give, so they
//! hold for validators that answer the same line differently at different
//! times as well.

use super::error::{exhausted_prefix, rejected_prefix, shows_as, ErrorKind, InputReadError};
use super::source::Answer;
use std::fmt::Display;
use vstd::prelude::*;

verus! {

/// `claim` can accept a line whose text is `line`.
pub open spec fn accepts<F, Ft, Fe>(claim: F, line: Seq<char>) -> bool where
    F: Fn(&str) -> Result<Ft, Fe>,
 {
    exists|s: &str, value: Ft| s@ == line && #[trigger] claim.ensures((s,), Ok(value))
}

/// `claim` can reject a line whose text is `line`.
pub open spec fn refuses<F, Ft, Fe>(claim: F, line: Seq<char>) -> bool where
    F: Fn(&str) -> Result<Ft, Fe>,
 {
    exists|s: &str, why: Fe| s@ == line && #[trigger] claim.ensures((s,), Err(why))
}

/// `claim` can reject a line whose text is `line` with a reason that
/// displays as `reason`.
pub open spec fn rejects<F, Ft, Fe>(claim: F, line: Seq<char>, reason: Seq<char>) -> bool where
    F: Fn(&str) -> Result<Ft, Fe>,
    Fe: Display,
 {
    exists|s: &str, why: Fe|
        s@ == line && #[trigger] claim.ensures((s,), Err(why)) && shows_as(&why, reason)
}

/// `text` is `prefix` followed by a reason with which `claim` can reject a
/// line whose text is `line`.
pub open spec fn rejection_message<F, Ft, Fe>(
    claim: F,
    line: Seq<char>,
    prefix: Seq<char>,
    text: Seq<char>,
) -> bool where F: Fn(&str) -> Result<Ft, Fe>, Fe: Display {
    exists|reason: Seq<char>| #[trigger] rejects(claim, line, reason) && text == prefix + reason
}

/// `answer` is a line that `claim` can reject.
pub open spec fn turned_down<F, Ft, Fe>(claim: F, answer: Answer) -> bool where
    F: Fn(&str) -> Result<Ft, Fe>,
 {
    answer matches Ok(line) && refuses(claim, line)
}

/// `res` is what a plain read makes of `answer`: the line unchanged, or the
/// source's failure as [`ErrorKind::IoError`] with the failure's own words
/// as the message.
pub open spec fn read_outcome(answer: Answer, res: Result<String, InputReadError>) -> bool {
    match answer {
        Ok(line) => res matches Ok(got) && got@ == line,
        Err(cause) => res matches Err(e) && e@.kind == ErrorKind::IoError && shows_as(
            &cause,
            e@.text,
        ),
    }
}

/// `res` is what a single validated read makes of `answer`.
///
/// A failure of the source is passed on as in [`read_outcome`]. A line comes
/// back unchanged if `claim` accepted it; if `claim` rejected it, the result
/// is an [`ErrorKind::InputRequirementError`] whose message is
/// [`rejected_prefix`] followed by the reason.
pub open spec fn demand_outcome<F, Ft, Fe>(
    claim: F,
    answer: Answer,
    res: Result<String, InputReadError>,
) -> bool where F: Fn(&str) -> Result<Ft, Fe>, Fe: Display {
    match (answer, res) {
        (Err(_), _) => read_outcome(answer, res),
        (Ok(line), Ok(got)) => got@ == line && accepts(claim, line),
        (Ok(line), Err(e)) => e@.kind == ErrorKind::InputRequirementError && rejection_message(
            claim,
            line,
            rejected_prefix(),
            e@.text,
        ),
    }
}

/// The number of attempts a retried read may make: the caller's bound, or 3
/// if the caller names none.
pub open spec fn attempt_bound(attempts: Option<u8>) -> nat {
    match attempts {
        Some(n) => n as nat,
        None => 3,
    }
}

/// `res` is what a retried read of at most `bound` attempts makes of the
/// answers `fresh` that it drew, one per attempt.
///
/// Every answer but the last is a line that `claim` rejected. The last one
/// ends the read: a line that `claim` accepted comes back unchanged; a
/// failure of the source is passed on as [`ErrorKind::IoError`]; a line that
/// `claim` rejected on attempt number `bound` gives an
/// [`ErrorKind::AttemptsExceedError`] whose message is [`exhausted_prefix`]
/// followed by the reason of that one attempt. The reasons of earlier
/// attempts appear nowhere.
///
/// A bound of 0 allows no attempt: nothing is drawn, and the result is an
/// [`ErrorKind::AttemptsExceedError`] with the bare prefix as its message.
pub open spec fn retry_outcome<F, Ft, Fe>(
    claim: F,
    bound: nat,
    fresh: Seq<Answer>,
    res: Result<String, InputReadError>,
) -> bool where F: Fn(&str) -> Result<Ft, Fe>, Fe: Display {
    &&& fresh.len() <= bound
    &&& forall|i: int| 0 <= i < fresh.len() - 1 ==> turned_down(claim, #[trigger] fresh[i])
    &&& match res {
        Ok(got) => fresh.len() > 0 && fresh.last() == Ok::<Seq<char>, std::io::Error>(got@)
            && accepts(claim, got@),
        Err(e) => match e@.kind {
            ErrorKind::IoError => fresh.len() > 0 && fresh.last() is Err && read_outcome(
                fresh.last(),
                res,
            ),
            ErrorKind::AttemptsExceedError => fresh.len() == bound && if bound == 0 {
                e@.text == exhausted_prefix()
            } else {
                fresh.last() matches Ok(line) && rejection_message(
                    claim,
                    line,
                    exhausted_prefix(),
                    e@.text,
                )
            },
            ErrorKind::InputRequirementError => false,
        },
    }
}

} // verus!
