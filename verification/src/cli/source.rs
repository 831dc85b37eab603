//! Where lines come from, and the record of what came.

use vstd::prelude::*;

verus! {

/// A source of text lines. Each call consumes one unit of input and hands
/// out the next line, or reports that the medium could not produce one.
///
/// Whether a line keeps its terminator is up to the source, as long as it
/// does the same on every call. Nothing is promised about what a call
/// returns: the terminal decides that, or whoever else stands behind the
/// source.
pub trait Reader {
    fn read_string(&mut self) -> Result<String, std::io::Error>;
}

/// What one call on a line source handed out, as the contracts see it: the
/// text of the line, or the failure of the medium.
pub type Answer = Result<Seq<char>, std::io::Error>;

/// The [`Answer`] that a raw result of [`Reader::read_string`] stands for.
pub open spec fn answer_of(raw: Result<String, std::io::Error>) -> Answer {
    match raw {
        Ok(line) => Ok(line@),
        Err(cause) => Err(cause),
    }
}

/// `after` is `before` and exactly one more answer.
pub open spec fn one_more(before: Seq<Answer>, after: Seq<Answer>) -> bool {
    after.len() == before.len() + 1 && after.drop_last() =~= before
}

/// `after` is `before` and zero or more further answers.
pub open spec fn continues(before: Seq<Answer>, after: Seq<Answer>) -> bool {
    after =~= before + fresh(before, after)
}

/// The answers that `after` holds beyond those of `before`.
pub open spec fn fresh(before: Seq<Answer>, after: Seq<Answer>) -> Seq<Answer> {
    after.skip(before.len() as int)
}

/// A reader that draws from a line source and keeps the record of it.
pub trait Draws {
    /// Every answer drawn from the line source so far, oldest first: one for
    /// each unit of input consumed.
    spec fn drawn(&self) -> Seq<Answer>;
}

/// A line source together with the record of every answer drawn from it.
///
/// The source can be asked for a line only through [`Recorded::draw`], which
/// needs the whole value mutably and writes each answer down as it comes. So
/// the record is complete: it holds one answer for each unit of input that
/// was consumed since the source was wrapped, in the order of the calls.
pub(crate) struct Recorded<T: Reader> {
    source: T,
    drawn: Ghost<Seq<Answer>>,
}

impl<T: Reader> Recorded<T> {
    /// The wrapped source, in its present state.
    pub(crate) closed spec fn source(&self) -> &T {
        &self.source
    }

    /// Every answer drawn so far, oldest first.
    pub(crate) closed spec fn drawn(&self) -> Seq<Answer> {
        self.drawn@
    }

    /// Wraps `source`, with nothing drawn yet.
    pub(crate) fn new(source: T) -> (recorded: Recorded<T>)
        ensures
            *recorded.source() == source,
            recorded.drawn() == Seq::<Answer>::empty(),
    {
        Recorded { source, drawn: Ghost(Seq::empty()) }
    }

    /// Asks the source for its next line and records the answer.
    pub(crate) fn draw(&mut self) -> (raw: Result<String, std::io::Error>)
        ensures
            final(self).drawn() == old(self).drawn().push(answer_of(raw)),
    {
        let raw = self.source.read_string();
        proof {
            self.drawn@ = self.drawn@.push(answer_of(raw));
        }
        raw
    }

    /// The wrapped source, for a look at its state.
    #[verifier::when_used_as_spec(source)]
    pub(crate) fn get(&self) -> (source: &T)
        ensures
            source == self.source(),
    {
        &self.source
    }
}

} // verus!
