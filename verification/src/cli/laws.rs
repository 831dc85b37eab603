//! What the reads promise, stated for every source and every validator.
//!
//! Each lemma takes the record of the source before and after one call,
//! together with the result of the call, as the call's contract relates
//! them, and concludes what the caller can count on.
//!
//! A validator may be undecided on a line: able to accept it and able to
//! reject it. The lemmas speak about lines on which it is decided.

use super::error::{shows_as, ErrorKind, InputReadError};
use super::outcome::{
    accepts, attempt_bound, demand_outcome, read_outcome, refuses, retry_outcome, turned_down,
};
use super::source::{continues, fresh, one_more, Answer};
use std::fmt::Display;
use vstd::prelude::*;

verus! {

/// `claim` never rejects a line whose text is `line`.
pub open spec fn always_accepts<F, Ft, Fe>(claim: F, line: Seq<char>) -> bool where
    F: Fn(&str) -> Result<Ft, Fe>,
 {
    !refuses(claim, line)
}

/// `claim` never accepts a line whose text is `line`.
pub open spec fn always_rejects<F, Ft, Fe>(claim: F, line: Seq<char>) -> bool where
    F: Fn(&str) -> Result<Ft, Fe>,
 {
    !accepts(claim, line)
}

/// The answers `drawn` came from a source that hands out `script`: the two
/// agree answer for answer as far as both reach.
pub open spec fn follows(drawn: Seq<Answer>, script: Seq<Answer>) -> bool {
    forall|i: int| 0 <= i < drawn.len() && i < script.len() ==> #[trigger] drawn[i] == script[i]
}

/// `script` holds at least `n` answers, and its first `n` are lines that
/// `claim` always rejects.
pub open spec fn rejected_run<F, Ft, Fe>(claim: F, script: Seq<Answer>, n: int) -> bool where
    F: Fn(&str) -> Result<Ft, Fe>,
 {
    &&& n <= script.len()
    &&& forall|i: int|
        0 <= i < n ==> (#[trigger] script[i] matches Ok(line) && always_rejects(claim, line))
}

/// When the source yields a line, a plain read returns that very text, and
/// one unit of input is consumed.
pub proof fn law_read_passes_through(
    before: Seq<Answer>,
    after: Seq<Answer>,
    line: Seq<char>,
    res: Result<String, InputReadError>,
)
    requires
        one_more(before, after),
        after.last() == Ok::<Seq<char>, std::io::Error>(line),
        read_outcome(after.last(), res),
    ensures
        after.len() == before.len() + 1,
        res matches Ok(got) && got@ == line,
{
}

/// When the source yields a line, a single validated read returns that text
/// if the validator always accepts it, and fails with
/// `InputRequirementError` if the validator always rejects it. Either way
/// one unit of input is consumed.
pub proof fn law_demand_follows_validator<F, Ft, Fe>(
    claim: F,
    before: Seq<Answer>,
    after: Seq<Answer>,
    line: Seq<char>,
    res: Result<String, InputReadError>,
) where F: Fn(&str) -> Result<Ft, Fe>, Fe: Display
    requires
        one_more(before, after),
        after.last() == Ok::<Seq<char>, std::io::Error>(line),
        demand_outcome(claim, after.last(), res),
    ensures
        after.len() == before.len() + 1,
        always_accepts(claim, line) ==> (res matches Ok(got) && got@ == line),
        always_rejects(claim, line) ==> (res matches Err(e) && e@.kind
            == ErrorKind::InputRequirementError),
{
}

/// When the source yields `k - 1` lines that the validator always rejects
/// and then a line that it always accepts, with `k` within the bound, a
/// retried read returns that line, and exactly `k` units of input are
/// consumed.
pub proof fn law_retry_exits_early<F, Ft, Fe>(
    claim: F,
    bound: nat,
    script: Seq<Answer>,
    k: int,
    before: Seq<Answer>,
    after: Seq<Answer>,
    res: Result<String, InputReadError>,
) where F: Fn(&str) -> Result<Ft, Fe>, Fe: Display
    requires
        1 <= k <= bound,
        k <= script.len(),
        rejected_run(claim, script, k - 1),
        script[k - 1] matches Ok(line) && always_accepts(claim, line),
        continues(before, after),
        follows(fresh(before, after), script),
        retry_outcome(claim, bound, fresh(before, after), res),
    ensures
        after.len() == before.len() + k,
        res matches Ok(got) && script[k - 1] == Ok::<Seq<char>, std::io::Error>(got@),
{
    let drawn = fresh(before, after);
    let n = drawn.len() as int;
    if n > k {
        assert(turned_down(claim, drawn[k - 1]));
    }
    if 0 < n <= k {
        assert(drawn[n - 1] == script[n - 1]);
    }
}

/// When the source yields as many lines as the bound allows and the
/// validator always rejects each of them, a retried read fails with
/// `AttemptsExceedError`, and exactly that many units of input are consumed.
pub proof fn law_retry_exhausts<F, Ft, Fe>(
    claim: F,
    bound: nat,
    script: Seq<Answer>,
    before: Seq<Answer>,
    after: Seq<Answer>,
    res: Result<String, InputReadError>,
) where F: Fn(&str) -> Result<Ft, Fe>, Fe: Display
    requires
        rejected_run(claim, script, bound as int),
        continues(before, after),
        follows(fresh(before, after), script),
        retry_outcome(claim, bound, fresh(before, after), res),
    ensures
        after.len() == before.len() + bound,
        res matches Err(e) && e@.kind == ErrorKind::AttemptsExceedError,
{
    let drawn = fresh(before, after);
    let n = drawn.len() as int;
    if n > 0 {
        assert(drawn[n - 1] == script[n - 1]);
    }
}

/// When the source yields `i - 1` lines that the validator always rejects
/// and then fails, with `i` within the bound, a retried read fails with
/// `IoError` in the words of that failure, and exactly `i` units of input
/// are consumed: nothing is drawn after the failure.
pub proof fn law_retry_stops_at_failure<F, Ft, Fe>(
    claim: F,
    bound: nat,
    script: Seq<Answer>,
    i: int,
    before: Seq<Answer>,
    after: Seq<Answer>,
    res: Result<String, InputReadError>,
) where F: Fn(&str) -> Result<Ft, Fe>, Fe: Display
    requires
        1 <= i <= bound,
        i <= script.len(),
        rejected_run(claim, script, i - 1),
        script[i - 1] is Err,
        continues(before, after),
        follows(fresh(before, after), script),
        retry_outcome(claim, bound, fresh(before, after), res),
    ensures
        after.len() == before.len() + i,
        res matches Err(e) && e@.kind == ErrorKind::IoError && shows_as(
            &script[i - 1]->Err_0,
            e@.text,
        ),
{
    let drawn = fresh(before, after);
    let n = drawn.len() as int;
    if n > i {
        assert(turned_down(claim, drawn[i - 1]));
    }
    if 0 < n <= i {
        assert(drawn[n - 1] == script[n - 1]);
    }
}

/// Whatever the validator does, a failure among the answers that a retried
/// read draws is the last of them, and the read fails with `IoError`.
pub proof fn law_failure_ends_retry<F, Ft, Fe>(
    claim: F,
    bound: nat,
    before: Seq<Answer>,
    after: Seq<Answer>,
    res: Result<String, InputReadError>,
    i: int,
) where F: Fn(&str) -> Result<Ft, Fe>, Fe: Display
    requires
        continues(before, after),
        retry_outcome(claim, bound, fresh(before, after), res),
        before.len() <= i < after.len(),
        after[i] is Err,
    ensures
        i == after.len() - 1,
        res matches Err(e) && e@.kind == ErrorKind::IoError,
{
    let drawn = fresh(before, after);
    let j = i - before.len();
    assert(drawn[j] == after[i]);
    if j < drawn.len() - 1 {
        assert(turned_down(claim, drawn[j]));
    }
}

/// A retried read with no bound named is held to exactly what one with a
/// bound of 3 is held to.
pub proof fn law_default_bound<F, Ft, Fe>(
    claim: F,
    drawn: Seq<Answer>,
    res: Result<String, InputReadError>,
) where F: Fn(&str) -> Result<Ft, Fe>, Fe: Display
    ensures
        attempt_bound(None) == attempt_bound(Some(3)),
        retry_outcome(claim, attempt_bound(None), drawn, res) <==> retry_outcome(
            claim,
            attempt_bound(Some(3)),
            drawn,
            res,
        ),
{
}

} // verus!
