//! Capture of a build's streamed output.
//!
//! Both build stages stream a subprocess's standard output line by line:
//! every line is echoed to the user behind a progress marker as soon as it
//! is read, and once the stream is exhausted the last line is taken as the
//! identifier of the image the build produced. A build that wrote nothing
//! yields no identifier and fails.

use crate::errors::{PipelineError, Stage};
use vstd::prelude::*;
use vstd::string::StringExecFns;

verus! {

/// The marker put in front of every forwarded progress line.
pub open spec fn progress_marker() -> Seq<char> {
    ">>> "@
}

/// The echo of one captured line: the progress marker, then the line.
pub open spec fn echo_of(line: Seq<char>) -> Seq<char> {
    progress_marker() + line
}

/// Accumulates the lines of one build's output stream, in order.
pub struct LineCapture {
    /// Every line seen so far, oldest first.
    pub lines: Vec<String>,
}

impl View for LineCapture {
    type V = Seq<Seq<char>>;

    open spec fn view(&self) -> Seq<Seq<char>> {
        self.lines.deep_view()
    }
}

impl LineCapture {
    /// A capture that has seen no lines yet.
    pub fn new() -> (r: LineCapture)
        ensures
            r@ == Seq::<Seq<char>>::empty(),
    {
        let r = LineCapture { lines: Vec::new() };
        proof {
            assert(r.lines.deep_view() =~= Seq::<Seq<char>>::empty());
        }
        r
    }

    /// Takes the next line of the stream, retains it, and returns the echo
    /// that is to be forwarded to the user at once: the progress marker,
    /// then the line itself.
    pub fn push_line(&mut self, line: String) -> (echo: String)
        ensures
            final(self)@ == old(self)@.push(line@),
            echo@ == echo_of(line@),
    {
        let echo = String::from_str(">>> ").concat(line.as_str());
        self.lines.push(line);
        proof {
            assert(self.lines.deep_view() =~= old(self).lines.deep_view().push(line@));
        }
        echo
    }

    /// Selects the captured identifier once the stream is exhausted: the
    /// last line seen, or the empty-output error of the given stage when
    /// the build wrote no lines at all.
    pub fn finish(self, stage: Stage) -> (r: Result<String, PipelineError>)
        ensures
            self@.len() == 0 ==> r == Result::<String, PipelineError>::Err(
                PipelineError::BuildOutputEmpty(stage),
            ),
            self@.len() > 0 ==> (r matches Ok(id) && id@ == self@.last()),
    {
        let mut lines = self.lines;
        if lines.len() == 0 {
            Err(PipelineError::BuildOutputEmpty(stage))
        } else {
            match lines.pop() {
                Some(id) => Ok(id),
                None => Err(PipelineError::BuildOutputEmpty(stage)),
            }
        }
    }
}

/// Whether the stream holds at least one non-empty line.
pub open spec fn has_non_empty(lines: Seq<Seq<char>>) -> bool {
    exists|i: int| 0 <= i < lines.len() && lines[i].len() > 0
}

/// The last non-empty line of a stream that has one.
pub open spec fn last_non_empty_spec(lines: Seq<Seq<char>>) -> Seq<char>
    decreases lines.len(),
{
    if lines.len() == 0 {
        Seq::empty()
    } else if lines.last().len() > 0 {
        lines.last()
    } else {
        last_non_empty_spec(lines.drop_last())
    }
}

/// A non-empty line followed by none but empty lines is the last non-empty
/// line of the stream.
proof fn lemma_last_non_empty_at(lines: Seq<Seq<char>>, i: int)
    requires
        0 <= i < lines.len(),
        lines[i].len() > 0,
        forall|j: int| i < j < lines.len() ==> lines[j].len() == 0,
    ensures
        has_non_empty(lines),
        last_non_empty_spec(lines) == lines[i],
    decreases lines.len(),
{
    assert(has_non_empty(lines));
    if i < lines.len() - 1 {
        assert(lines.last().len() == 0);
        assert(lines.drop_last()[i] == lines[i]);
        assert forall|j: int| i < j < lines.drop_last().len() implies lines.drop_last()[j].len()
            == 0 by {
            assert(lines.drop_last()[j] == lines[j]);
        }
        lemma_last_non_empty_at(lines.drop_last(), i);
    }
}

impl LineCapture {
    /// Selects the captured identifier for the acquisition stage once the
    /// stream is exhausted: the last non-empty line seen. A stream with no
    /// non-empty line — in particular one with no lines at all — yields the
    /// empty-output error of the given stage, never an empty identifier.
    pub fn finish_non_empty(&self, stage: Stage) -> (r: Result<String, PipelineError>)
        ensures
            !has_non_empty(self@) ==> r == Result::<String, PipelineError>::Err(
                PipelineError::BuildOutputEmpty(stage),
            ),
            has_non_empty(self@) ==> (r matches Ok(id) && id@ == last_non_empty_spec(self@)),
    {
        let mut i: usize = self.lines.len();
        while i > 0
            invariant
                i <= self@.len(),
                forall|j: int| i <= j < self@.len() ==> self@[j].len() == 0,
            decreases i,
        {
            i = i - 1;
            let line = &self.lines[i];
            if !line.as_str().is_empty() {
                proof {
                    lemma_last_non_empty_at(self@, i as int);
                }
                return Ok(line.clone());
            }
        }
        Err(PipelineError::BuildOutputEmpty(stage))
    }
}

/// Runs the whole capture over an already-collected stream: every line is
/// echoed behind the progress marker, in order, and the last line is the
/// captured identifier. An empty stream fails with the empty-output error
/// of the given stage, never with an empty identifier.
pub fn capture_stream(lines: Vec<String>, stage: Stage) -> (r: (
    Vec<String>,
    Result<String, PipelineError>,
))
    ensures
        r.0.deep_view() == lines.deep_view().map_values(|l: Seq<char>| echo_of(l)),
        lines@.len() == 0 ==> r.1 == Result::<String, PipelineError>::Err(
            PipelineError::BuildOutputEmpty(stage),
        ),
        lines@.len() > 0 ==> (r.1 matches Ok(id) && id@ == lines.deep_view().last()),
{
    let ghost l: Seq<Seq<char>> = lines.deep_view();
    let mut cap = LineCapture::new();
    let mut echoes: Vec<String> = Vec::new();
    let mut i: usize = 0;
    proof {
        assert(cap@ =~= l.take(0));
        assert(echoes.deep_view() =~= l.take(0).map_values(|x: Seq<char>| echo_of(x)));
    }
    while i < lines.len()
        invariant
            i <= lines.len(),
            l == lines.deep_view(),
            cap@ == l.take(i as int),
            echoes.deep_view() == l.take(i as int).map_values(|x: Seq<char>| echo_of(x)),
        decreases lines.len() - i,
    {
        let ghost e0 = echoes.deep_view();
        let line = lines[i].clone();
        let echo = cap.push_line(line);
        echoes.push(echo);
        proof {
            assert(cap@ =~= l.take(i + 1));
            assert(echoes.deep_view() =~= e0.push(echo_of(l[i as int])));
            assert(l.take(i + 1).map_values(|x: Seq<char>| echo_of(x)) =~= e0.push(
                echo_of(l[i as int]),
            ));
        }
        i += 1;
    }
    proof {
        assert(l.take(lines@.len() as int) =~= l);
    }
    let result = cap.finish(stage);
    (echoes, result)
}

} // verus!
