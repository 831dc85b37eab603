//! The validated reader.

use super::error::{exhausted_prefix, rejected_prefix, shows_as, InputReadError};
use super::outcome::{
    accepts, attempt_bound, demand_outcome, read_outcome, refuses, rejects, retry_outcome,
    turned_down,
};
use super::source::{continues, fresh, one_more, Answer, Draws, Reader, Recorded};
use std::fmt::{Debug, Display};
use vstd::prelude::*;

verus! {

/// A reader of validated lines over one line source, which it owns.
///
/// It has no settings and no state of its own. What changes from call to
/// call is the source, and with it the record of what the source has handed
/// out.
pub struct Input<T: Reader> {
    reader: Recorded<T>,
}

impl<T: Reader> Draws for Input<T> {
    /// Every answer drawn since the line source was wrapped.
    closed spec fn drawn(&self) -> Seq<Answer> {
        self.reader.drawn()
    }
}

impl<T: Reader> Input<T> {
    /// The line source behind this reader, in its present state.
    pub closed spec fn source(&self) -> &T {
        self.reader.source()
    }

    /// Wraps `reader`, taking ownership of it.
    pub fn new(reader: T) -> (input: Input<T>)
        ensures
            *input.source() == reader,
            input.drawn() == Seq::<Answer>::empty(),
    {
        Input { reader: Recorded::new(reader) }
    }

    /// Reads one line, with no validation.
    pub fn read(&mut self) -> (res: Result<String, InputReadError>)
        ensures
            one_more(old(self).drawn(), final(self).drawn()),
            read_outcome(final(self).drawn().last(), res),
    {
        let ghost before = self.drawn();
        let raw = self.reader.draw();
        assert(self.drawn().drop_last() == before);
        match raw {
            Ok(inp) => Ok(inp),
            Err(cause) => Err(InputReadError::from(cause)),
        }
    }

    /// The wrapped line source, for a look at its state.
    #[verifier::when_used_as_spec(source)]
    pub fn reader(&self) -> (reader: &T)
        ensures
            reader == self.source(),
    {
        self.reader.get()
    }
}

impl<T: Reader + Default> Default for Input<T> {
    /// A reader over the source's own default, with nothing drawn yet.
    fn default() -> (input: Input<T>)
        ensures
            call_ensures(T::default, (), *input.source()),
            input.drawn() == Seq::<Answer>::empty(),
    {
        Input::new(T::default())
    }
}

/// Reads that a caller-supplied validator has to accept.
///
/// The validator `claim` looks at a line and either accepts it, possibly with
/// a value of its own that is dropped here, or rejects it with a reason. It
/// must be callable on every line.
pub trait Claimy<F, Ft, Fe>: Draws where F: Fn(&str) -> Result<Ft, Fe>, Fe: Display + Debug {
    /// Reads exactly one line and returns it if `claim` accepts it.
    ///
    /// One answer is drawn, whatever comes of it. What comes back on
    /// success is the raw line, not what `claim` made of it.
    fn demand(&mut self, claim: F) -> (res: Result<String, InputReadError>)
        requires
            forall|line: &str| #[trigger] claim.requires((line,)),
        ensures
            one_more(old(self).drawn(), final(self).drawn()),
            demand_outcome(claim, final(self).drawn().last(), res),
    ;

    /// Reads and validates until `claim` accepts a line, the source fails, or
    /// `attempts` lines (3 if `None`) have been rejected.
    ///
    /// One answer is drawn per attempt, and none after the answer that ends
    /// the read. A failure of the source is never retried. With an
    /// `attempts` of `Some(0)` the read fails at once, with nothing drawn.
    fn demand_until(&mut self, claim: F, attempts: Option<u8>) -> (res: Result<
        String,
        InputReadError,
    >)
        requires
            forall|line: &str| #[trigger] claim.requires((line,)),
        ensures
            continues(old(self).drawn(), final(self).drawn()),
            retry_outcome(
                claim,
                attempt_bound(attempts),
                fresh(old(self).drawn(), final(self).drawn()),
                res,
            ),
    ;
}

impl<R, F, Ft, Fe> Claimy<F, Ft, Fe> for Input<R> where
    R: Reader,
    F: Fn(&str) -> Result<Ft, Fe>,
    Fe: Display + Debug,
 {
    fn demand(&mut self, claim: F) -> (res: Result<String, InputReadError>) {
        let ghost before = self.drawn();
        let raw = self.reader.draw();
        assert(self.drawn().drop_last() == before);
        match raw {
            Ok(inp) => {
                let line = inp.as_str();
                match claim(line) {
                    Ok(value) => {
                        assert(claim.ensures((line,), Ok(value)));
                        Ok(inp)
                    },
                    Err(err) => {
                        let reason = err.to_string();
                        assert(rejects(claim, inp@, reason@)) by {
                            assert(claim.ensures((line,), Err(err)));
                            assert(shows_as(&err, reason@));
                        }
                        Err(InputReadError::rejected(reason.as_str()))
                    },
                }
            },
            Err(cause) => Err(InputReadError::from(cause)),
        }
    }

    fn demand_until(&mut self, claim: F, attempts: Option<u8>) -> (res: Result<
        String,
        InputReadError,
    >) {
        let bound: u8 = match attempts {
            Some(bound) => bound,
            None => 3,
        };
        let ghost before = self.drawn();
        let mut last_error_msg = String::new();
        let mut attempt: u8 = 0;
        assert(fresh(before, before) == Seq::<Answer>::empty());
        assert(before + Seq::<Answer>::empty() == before);
        while attempt < bound
            invariant
                attempt <= bound == attempt_bound(attempts),
                before == old(self).drawn(),
                forall|line: &str| #[trigger] claim.requires((line,)),
                continues(before, self.drawn()),
                fresh(before, self.drawn()).len() == attempt,
                forall|i: int|
                    0 <= i < attempt ==> turned_down(
                        claim,
                        #[trigger] fresh(before, self.drawn())[i],
                    ),
                attempt == 0 ==> last_error_msg@ == Seq::<char>::empty(),
                0 < attempt == bound ==> (fresh(before, self.drawn()).last() matches Ok(line)
                    && rejects(claim, line, last_error_msg@)),
            decreases bound - attempt,
        {
            let ghost earlier = self.drawn();
            let read = self.read();
            assert(self.drawn() == earlier.push(self.drawn().last()));
            assert(fresh(before, self.drawn()) == fresh(before, earlier).push(
                self.drawn().last(),
            ));
            let input_str = match read {
                Ok(input_str) => input_str,
                Err(e) => {
                    return Err(e);
                },
            };
            let line = input_str.as_str();
            match claim(line) {
                Ok(value) => {
                    assert(claim.ensures((line,), Ok(value)));
                    return Ok(input_str);
                },
                Err(err) => {
                    assert(claim.ensures((line,), Err(err)));
                    if attempt == bound - 1 {
                        last_error_msg = err.to_string();
                        assert(shows_as(&err, last_error_msg@));
                    }
                },
            }
            attempt += 1;
        }
        assert(exhausted_prefix() + Seq::<char>::empty() == exhausted_prefix());
        Err(InputReadError::exhausted(last_error_msg.as_str()))
    }
}

} // verus!
