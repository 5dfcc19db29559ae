//! Findings of the parser and the analyzer, and their tally.
use vstd::prelude::*;

verus! {

/// How severe one finding is. Only `Error` stops the pipeline.
#[derive(Clone, Copy, Debug, PartialEq, Eq, Structural)]
pub enum Severity {
    Info,
    Warning,
    Error,
}

/// A half-open range `start..end` over the source text.
#[derive(Clone, Copy, Debug, PartialEq, Eq, Structural)]
pub struct Span {
    pub start: usize,
    pub end: usize,
}

/// One finding: its severity, where it points (if anywhere) and what it says.
#[derive(Debug)]
pub struct Message {
    pub severity: Severity,
    pub span: Option<Span>,
    pub description: String,
}

impl Message {
    pub fn new(severity: Severity, span: Option<Span>, description: String) -> (r: Message)
        ensures
            r.severity == severity,
            r.span == span,
            r.description == description,
    {
        Message { severity, span, description }
    }
}

/// How many findings of each severity a batch holds.
#[derive(Clone, Copy, Debug, PartialEq, Eq, Structural)]
pub struct Tally {
    pub info: usize,
    pub warning: usize,
    pub error: usize,
}

impl Tally {
    /// The number of findings counted, of any severity.
    pub open spec fn total(self) -> int {
        self.info + self.warning + self.error
    }
}

/// The number of messages of `msgs` with severity `k`.
pub open spec fn count_of(msgs: Seq<Message>, k: Severity) -> nat
    decreases msgs.len(),
{
    if msgs.len() == 0 {
        0
    } else {
        count_of(msgs.drop_last(), k) + if msgs.last().severity == k {
            1nat
        } else {
            0nat
        }
    }
}

/// Whether `msgs` holds a finding of severity `Error`.
pub open spec fn has_error(msgs: Seq<Message>) -> bool {
    count_of(msgs, Severity::Error) > 0
}

/// Whether `t` counts the findings of `msgs` exactly.
pub open spec fn tally_of(msgs: Seq<Message>, t: Tally) -> bool {
    &&& t.info == count_of(msgs, Severity::Info)
    &&& t.warning == count_of(msgs, Severity::Warning)
    &&& t.error == count_of(msgs, Severity::Error)
}

/// Every message falls under exactly one of the three severities.
pub proof fn lemma_counts_sum(msgs: Seq<Message>)
    ensures
        count_of(msgs, Severity::Info) + count_of(msgs, Severity::Warning) + count_of(
            msgs,
            Severity::Error,
        ) == msgs.len(),
    decreases msgs.len(),
{
    if msgs.len() > 0 {
        lemma_counts_sum(msgs.drop_last());
    }
}

pub fn is_error(s: Severity) -> (r: bool)
    ensures
        r == (s == Severity::Error),
{
    match s {
        Severity::Error => true,
        _ => false,
    }
}

/// Counts the findings of `msgs` by severity, and says whether any of them
/// is an error, which stops the pipeline before execution.
pub fn aggregate(msgs: &Vec<Message>) -> (r: (Tally, bool))
    ensures
        tally_of(msgs@, r.0),
        r.0.total() == msgs@.len(),
        r.0.total() <= usize::MAX,
        r.1 == has_error(msgs@),
{
    let mut t = Tally { info: 0, warning: 0, error: 0 };
    let mut should_abort = false;
    let mut i: usize = 0;
    while i < msgs.len()
        invariant
            i <= msgs@.len(),
            tally_of(msgs@.subrange(0, i as int), t),
            t.total() == i,
            should_abort == (t.error > 0),
        decreases msgs@.len() - i,
    {
        proof {
            assert(msgs@.subrange(0, i + 1).drop_last() =~= msgs@.subrange(0, i as int));
        }
        match msgs[i].severity {
            Severity::Info => t.info = t.info + 1,
            Severity::Warning => t.warning = t.warning + 1,
            Severity::Error => {
                t.error = t.error + 1;
                should_abort = true;
            },
        }
        i = i + 1;
    }
    proof {
        assert(msgs@.subrange(0, msgs@.len() as int) =~= msgs@);
    }
    (t, should_abort)
}

} // verus!
