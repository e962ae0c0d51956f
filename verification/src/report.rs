//! Reports: the ordered text a run produces, together with its aggregate
//! result.
//!
//! The engine never writes to a stream directly.  It assembles a
//! [`Report`]: a sequence of [`Event`]s, each one output line bound to the
//! role it is meant for (the stdout role or the stderr role), plus the
//! aggregate success flag.  The caller hands the report to the configured
//! sinks; which real stream each role reaches is the caller's choice.

use vstd::prelude::*;

verus! {

/// The role an output line is meant for.  The stdout role carries per-file
/// results and the final summary; the stderr role carries progress framing.
#[derive(Clone, Copy, PartialEq, Eq, Structural, Debug)]
pub enum Role {
    /// The stdout role.
    Stdout,
    /// The stderr role.
    Stderr,
}

/// One output line, bound to the role it is meant for.  The line carries no
/// trailing newline; the sink appends it.
#[derive(Debug)]
pub struct Event {
    /// Where the line is meant to go.
    pub role: Role,
    /// The text of the line.
    pub line: String,
}

impl View for Event {
    type V = (Role, Seq<char>);

    open spec fn view(&self) -> (Role, Seq<char>) {
        (self.role, self.line@)
    }
}

/// The views of a sequence of events, in order.
pub open spec fn events_view(evs: Seq<Event>) -> Seq<(Role, Seq<char>)> {
    evs.map_values(|e: Event| e@)
}

/// Everything one engine run produced: its output lines in order, and
/// whether the run as a whole succeeded.
#[derive(Debug)]
pub struct Report {
    /// The output lines, in the order they are to be written.
    pub events: Vec<Event>,
    /// The aggregate result: `true` only if nothing failed.
    pub success: bool,
}

/// Appending an event appends its view to the events' views.
pub proof fn lemma_events_view_push(evs: Seq<Event>, e: Event)
    ensures
        events_view(evs.push(e)) =~= events_view(evs).push(e@),
{
    assert forall|j: int| 0 <= j < evs.len() + 1 implies events_view(evs.push(e))[j]
        == events_view(evs).push(e@)[j] by {
        if j < evs.len() {
            assert(evs.push(e)[j] == evs[j]);
        } else {
            assert(evs.push(e)[j] == e);
        }
    }
}

/// Folds per-listing results into the aggregate result of a recursive run:
/// success only if every listing succeeded.
pub fn combine_results(results: &Vec<bool>) -> (ok: bool)
    ensures
        ok == (forall|i: int| 0 <= i < results@.len() ==> results@[i]),
{
    let mut ok = true;
    let n = results.len();
    let mut i: usize = 0;
    while i < n
        invariant
            i <= n,
            n == results@.len(),
            ok == (forall|j: int| 0 <= j < i ==> results@[j]),
        decreases n - i,
    {
        if !results[i] {
            ok = false;
        }
        i = i + 1;
    }
    ok
}

} // verus!
