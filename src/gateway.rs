use vstd::prelude::*;

use crate::message::PostMessage;
use crate::render::{is_text_reply, renders, EngineOutcome, Section};

verus! {

/// What the engine handed back for one request, before classification.
pub enum EngineReport {
    /// Commands were resolved and ran; their output sections.
    Resolved(Vec<Section>),
    /// No command could be resolved from the input.
    Unintelligible,
    /// Commands failed; the output of each failure, in the order reported.
    CommandErrors(Vec<Vec<Section>>),
}

/// The text of a failure's output: its sections' texts, one per line.
pub open spec fn diagnostic_of(secs: Seq<Section>) -> Seq<char>
    decreases secs.len(),
{
    if secs.len() == 0 {
        Seq::empty()
    } else if secs.len() == 1 {
        secs[0].text@
    } else {
        diagnostic_of(secs.drop_last()) + seq!['\n'] + secs.last().text@
    }
}

/// A report that can be classified: a failure carries at least one error.
pub open spec fn report_well_formed(report: EngineReport) -> bool {
    match report {
        EngineReport::CommandErrors(errors) => errors@.len() > 0,
        _ => true,
    }
}

/// The outcome a report comes to. Of several failures only the last is kept.
pub open spec fn classified(report: EngineReport, outcome: EngineOutcome) -> bool {
    match report {
        EngineReport::Resolved(secs) => outcome matches EngineOutcome::Rendered(o) && o@ == secs@,
        EngineReport::Unintelligible => outcome is Unintelligible,
        EngineReport::CommandErrors(errors) => outcome matches EngineOutcome::Failed(d) && d@
            == diagnostic_of(errors@.last()@),
    }
}

/// Joins the texts of a failure's output sections, one per line.
pub fn diagnostic_text(secs: &Vec<Section>) -> (r: String)
    ensures
        r@ == diagnostic_of(secs@),
{
    let mut r = String::new();
    let mut i: usize = 0;
    while i < secs.len()
        invariant
            i <= secs@.len(),
            r@ == diagnostic_of(secs@.subrange(0, i as int)),
        decreases secs@.len() - i,
    {
        proof {
            reveal_strlit("\n");
        }
        if i > 0 {
            r.append("\n");
        }
        r.append(secs[i].text.as_str());
        let ghost prefix = secs@.subrange(0, i + 1);
        assert(prefix.drop_last() =~= secs@.subrange(0, i as int));
        i = i + 1;
    }
    assert(secs@.subrange(0, i as int) =~= secs@);
    r
}

/// Classifies what the engine handed back: resolved output is rendered as it
/// is, an unresolved request stays unintelligible, and a failure carries the
/// diagnostic of the last error reported.
pub fn classify(report: EngineReport) -> (r: EngineOutcome)
    requires
        report_well_formed(report),
    ensures
        classified(report, r),
{
    match report {
        EngineReport::Resolved(secs) => EngineOutcome::Rendered(secs),
        EngineReport::Unintelligible => EngineOutcome::Unintelligible,
        EngineReport::CommandErrors(errors) => {
            let n = errors.len();
            EngineOutcome::Failed(diagnostic_text(&errors[n - 1]))
        },
    }
}

/// When the engine reports one or more failures, exactly one reply is posted,
/// and it carries the diagnostic of the last failure alone, as plain text.
pub proof fn lemma_failure_relays_last(
    report: EngineReport,
    outcome: EngineOutcome,
    replies: Seq<PostMessage>,
    channel: Seq<char>,
    apologize: bool,
)
    requires
        report is CommandErrors,
        classified(report, outcome),
        renders(replies, outcome, channel, apologize),
    ensures
        replies.len() == 1,
        is_text_reply(replies[0], channel, diagnostic_of(report->CommandErrors_0@.last()@)),
{
}

} // verus!
