//! Routing of the tool's output lines.
//!
//! Two background readers run for the lifetime of the external process. The
//! response router reads the primary output stream: a line equal to the
//! completion sentinel is forwarded on the handoff channel to the submitting
//! actor, every other line is informational and goes to the logging sink.
//! The diagnostic drain reads the secondary stream and forwards every line
//! to the logging sink unconditionally; that stream never takes part in
//! command correlation. The model here proves that fact: interleaving any
//! amount of diagnostic traffic with the primary stream neither adds,
//! removes nor reorders the sentinel deliveries.

use vstd::prelude::*;
use vstd::string::*;

verus! {

/// The fixed marker the external tool writes on its own line once the most
/// recently issued command block has finished executing.
pub open spec fn sentinel() -> Seq<char> {
    "{ready}"@
}

/// Where the response router sends one line of the primary output stream.
#[derive(Clone, Copy, Debug, PartialEq, Eq, Structural)]
pub enum LineRoute {
    /// The line is the completion sentinel: deliver it on the handoff
    /// channel so the blocked submit call wakes up.
    Handoff,
    /// Any other line: forward it to the logging sink.
    Informational,
}

/// Build the sentinel line, for comparison against lines read at run time.
pub fn sentinel_line() -> (line: String)
    ensures
        line@ == sentinel(),
{
    String::from_str("{ready}")
}

/// Decide where one line of the primary output stream goes: the completion
/// sentinel is delivered on the handoff channel, and only it; every other
/// line is informational.
pub fn route_output_line(line: &String) -> (route: LineRoute)
    ensures
        route == LineRoute::Handoff <==> line@ == sentinel(),
{
    let marker = sentinel_line();
    if line.eq(&marker) {
        LineRoute::Handoff
    } else {
        LineRoute::Informational
    }
}

/// One line observed on either of the tool's two output streams, in the
/// order the lines were produced.
pub ghost enum StreamLine {
    /// A line of the primary output stream, read by the response router.
    Primary(Seq<char>),
    /// A line of the diagnostic stream, read by the diagnostic drain.
    Diagnostic(Seq<char>),
}

/// The sentinel deliveries the response router makes on the handoff channel
/// when it reads exactly these primary-stream lines, in order.
pub open spec fn router_deliveries(lines: Seq<Seq<char>>) -> Seq<Seq<char>>
    decreases lines.len(),
{
    if lines.len() == 0 {
        Seq::empty()
    } else {
        let rest = router_deliveries(lines.drop_last());
        if lines.last() == sentinel() {
            rest.push(lines.last())
        } else {
            rest
        }
    }
}

/// The primary-stream lines of an interleaved two-stream trace, in order.
pub open spec fn primary_lines(trace: Seq<StreamLine>) -> Seq<Seq<char>>
    decreases trace.len(),
{
    if trace.len() == 0 {
        Seq::empty()
    } else {
        let rest = primary_lines(trace.drop_last());
        match trace.last() {
            StreamLine::Primary(line) => rest.push(line),
            StreamLine::Diagnostic(_) => rest,
        }
    }
}

/// The handoff deliveries made while both readers work through an
/// interleaved trace: the router delivers each primary sentinel line, the
/// drain only logs and never touches the handoff channel.
pub open spec fn trace_deliveries(trace: Seq<StreamLine>) -> Seq<Seq<char>>
    decreases trace.len(),
{
    if trace.len() == 0 {
        Seq::empty()
    } else {
        let rest = trace_deliveries(trace.drop_last());
        match trace.last() {
            StreamLine::Primary(line) => if line == sentinel() {
                rest.push(line)
            } else {
                rest
            },
            StreamLine::Diagnostic(_) => rest,
        }
    }
}

/// Diagnostic traffic never stalls, drops or reorders the router's sentinel
/// deliveries: however diagnostic lines are interleaved with the primary
/// stream, the handoff channel sees exactly the deliveries determined by the
/// primary stream alone.
pub proof fn lemma_drain_preserves_deliveries(trace: Seq<StreamLine>)
    ensures
        trace_deliveries(trace) == router_deliveries(primary_lines(trace)),
    decreases trace.len(),
{
    if trace.len() == 0 {
    } else {
        lemma_drain_preserves_deliveries(trace.drop_last());
        match trace.last() {
            StreamLine::Primary(line) => {
                assert(primary_lines(trace).drop_last() =~= primary_lines(trace.drop_last()));
            },
            StreamLine::Diagnostic(_) => {
                assert(primary_lines(trace) =~= primary_lines(trace.drop_last()));
            },
        }
    }
}

} // verus!
