//! The staged pipeline, as a state machine.
//!
//! A request runs parse → analyze → lower → resolve → execute. The stages
//! themselves are the language runtime's; this driver decides, from what
//! each stage reported, whether the next one runs and what the request
//! answers. Its user performs each `Step` it is handed and reports the
//! outcome through the matching `on_*` method, until the step is `Done`.
//!
//! Two policies are fixed here. An error among the analyzer's findings
//! withholds the primary result of every request, the syntax tree included.
//! An empty program is a valid one: it runs, and an `Interpret` request on a
//! program that leaves nothing answers `False`, beside the report on the
//! findings where there were any.
use vstd::prelude::*;
use crate::diagnostic::{Message, Severity, count_of, has_error, aggregate, tally_of, lemma_counts_sum};
use crate::render::{Mode, encode, line_spec, lines_spec, lines_report_spec, report_spec, summary_spec, tally_spec, render, render_lines, lemma_line_of_each};

verus! {

/// What a request asks for.
#[derive(Clone, Copy, Debug, PartialEq, Eq, Structural)]
pub enum Op {
    /// The pretty-printed syntax tree.
    Ast,
    /// The disassembled bytecode.
    Dis,
    /// The display form of the value the program leaves.
    Interpret,
}

/// Where a request stands.
#[derive(Clone, Copy, Debug, PartialEq, Eq, Structural)]
pub enum Stage {
    Start,
    Parsed,
    Analyzed,
    /// The syntax tree has been shown; the end of an `Ast` request.
    Shown,
    /// The program has been lowered, resolved and disassembled; the end of a `Dis` request.
    Resolved,
    /// The program has been run; the end of an `Interpret` request.
    Executed,
    /// A stage failed and the request ended with diagnostics alone.
    Aborted,
}

/// The primary result of a request.
#[derive(Debug)]
pub enum Primary {
    Text(String),
    /// An `Interpret` request on a program that left nothing, with no finding.
    False,
}

/// The answer to a request: a primary result and a diagnostic report, each
/// of them possibly absent.
#[derive(Debug)]
pub struct Response {
    pub primary: Option<Primary>,
    pub diagnostics: Option<String>,
}

/// What the driver asks its user to do next.
#[derive(Debug)]
pub enum Step {
    /// Parse the source text, then call `on_parse`.
    Parse,
    /// Run the analyzer passes, then call `on_analysis`.
    Analyze,
    /// Pretty-print the syntax tree, then call `on_ast`.
    ShowAst,
    /// Lower and resolve the program and disassemble it, then call `on_disassembly`.
    Disassemble,
    /// Lower and resolve the program and run it, then call `on_execution`.
    Execute,
    /// The request is answered.
    Done(Response),
}

/// Whether `r` is the text `t`.
pub open spec fn is_text(r: Option<Primary>, t: Seq<char>) -> bool {
    &&& r is Some
    &&& r->0 is Text
    &&& r->0->Text_0@ == t
}

/// Whether `d` is the report `t`, or absent where `t` is.
pub open spec fn is_report(d: Option<String>, t: Option<Seq<char>>) -> bool {
    match t {
        Some(t) => d is Some && d->0@ == t,
        None => d is None,
    }
}

/// Whether `s` answers with primary result `p` (absent for `None`) and report `d`.
pub open spec fn answers(s: Step, p: Option<Seq<char>>, d: Option<Seq<char>>) -> bool {
    &&& s is Done
    &&& match p {
        Some(t) => is_text(s->Done_0.primary, t),
        None => s->Done_0.primary is None,
    }
    &&& is_report(s->Done_0.diagnostics, d)
}

/// The report that accompanies a request whose analysis found `msgs`:
/// none when nothing was found.
pub open spec fn findings_report(msgs: Seq<Message>, mode: Mode) -> Option<Seq<char>> {
    if msgs.len() == 0 {
        None
    } else {
        Some(report_spec(msgs, mode))
    }
}

/// The step that follows a successful analysis for request `op`.
pub open spec fn step_after_analysis(op: Op, s: Step) -> bool {
    match op {
        Op::Ast => s is ShowAst,
        Op::Dis => s is Disassemble,
        Op::Interpret => s is Execute,
    }
}

/// The driver of one request.
pub struct Driver {
    pub op: Op,
    pub mode: Mode,
    pub stage: Stage,
    /// The report on the analyzer's findings, once the analysis passed.
    pub report: Option<String>,
}

impl Driver {
    /// A driver for request `op` whose reports are rendered in `mode`. Its
    /// first step is always `Step::Parse`.
    pub fn new(op: Op, mode: Mode) -> (r: Driver)
        ensures
            r.op == op,
            r.mode == mode,
            r.stage == Stage::Start,
            r.report is None,
    {
        Driver { op, mode, stage: Stage::Start, report: None }
    }

    /// The first step of a request.
    pub fn start(&self) -> (s: Step)
        requires
            self.stage == Stage::Start,
        ensures
            s is Parse,
    {
        Step::Parse
    }

    /// Takes the outcome of parsing: `Ok` where the source parsed, else the
    /// syntax errors. These end the request with no primary result and a
    /// report of every syntax error.
    pub fn on_parse(&mut self, outcome: Result<(), Vec<Message>>) -> (s: Step)
        requires
            old(self).stage == Stage::Start,
        ensures
            final(self).op == old(self).op,
            final(self).mode == old(self).mode,
            final(self).report == old(self).report,
            match outcome {
                Ok(_) => final(self).stage == Stage::Parsed && s is Analyze,
                Err(errors) => {
                    &&& final(self).stage == Stage::Aborted
                    &&& answers(s, None, Some(lines_report_spec(errors@, old(self).mode)))
                },
            },
    {
        match outcome {
            Ok(()) => {
                self.stage = Stage::Parsed;
                Step::Analyze
            },
            Err(errors) => {
                self.stage = Stage::Aborted;
                let text = render_lines(&errors, self.mode);
                Step::Done(Response { primary: None, diagnostics: Some(text) })
            },
        }
    }

    /// Takes the outcome of the analysis: the findings, or the analyzer's
    /// own failure. A failure, or any finding of severity `Error`, ends the
    /// request with no primary result. Otherwise the request goes on, with
    /// the report on the findings kept for its answer.
    pub fn on_analysis(&mut self, outcome: Result<Vec<Message>, String>) -> (s: Step)
        requires
            old(self).stage == Stage::Parsed,
        ensures
            final(self).op == old(self).op,
            final(self).mode == old(self).mode,
            match outcome {
                Err(e) => final(self).stage == Stage::Aborted && answers(s, None, Some(e@)),
                Ok(msgs) => if has_error(msgs@) {
                    &&& final(self).stage == Stage::Aborted
                    &&& answers(s, None, Some(report_spec(msgs@, old(self).mode)))
                } else {
                    &&& final(self).stage == Stage::Analyzed
                    &&& is_report(final(self).report, findings_report(msgs@, old(self).mode))
                    &&& step_after_analysis(old(self).op, s)
                },
            },
    {
        match outcome {
            Err(e) => {
                self.stage = Stage::Aborted;
                Step::Done(Response { primary: None, diagnostics: Some(e) })
            },
            Ok(msgs) => {
                let (_, should_abort) = aggregate(&msgs);
                if should_abort {
                    self.stage = Stage::Aborted;
                    let text = render(&msgs, self.mode);
                    Step::Done(Response { primary: None, diagnostics: Some(text) })
                } else {
                    self.stage = Stage::Analyzed;
                    if msgs.len() == 0 {
                        self.report = None;
                    } else {
                        self.report = Some(render(&msgs, self.mode));
                    }
                    match self.op {
                        Op::Ast => Step::ShowAst,
                        Op::Dis => Step::Disassemble,
                        Op::Interpret => Step::Execute,
                    }
                }
            },
        }
    }

    /// Takes the pretty-printed syntax tree, which answers an `Ast` request
    /// together with the report on the findings.
    pub fn on_ast(&mut self, text: String) -> (s: Step)
        requires
            old(self).stage == Stage::Analyzed,
            old(self).op == Op::Ast,
        ensures
            final(self).stage == Stage::Shown,
            final(self).op == old(self).op,
            final(self).mode == old(self).mode,
            s is Done,
            is_text(s->Done_0.primary, text@),
            s->Done_0.diagnostics == old(self).report,
    {
        self.stage = Stage::Shown;
        Step::Done(Response { primary: Some(Primary::Text(text)), diagnostics: self.report.take() })
    }

    /// Takes the disassembly of the resolved program, which answers a `Dis`
    /// request together with the report on the findings.
    pub fn on_disassembly(&mut self, text: String) -> (s: Step)
        requires
            old(self).stage == Stage::Analyzed,
            old(self).op == Op::Dis,
        ensures
            final(self).stage == Stage::Resolved,
            final(self).op == old(self).op,
            final(self).mode == old(self).mode,
            s is Done,
            is_text(s->Done_0.primary, text@),
            s->Done_0.diagnostics == old(self).report,
    {
        self.stage = Stage::Resolved;
        Step::Done(Response { primary: Some(Primary::Text(text)), diagnostics: self.report.take() })
    }

    /// Takes the display form of the value the program left, or `None`
    /// where it left nothing, which answers `False`. The report on the
    /// findings, if any, goes beside either.
    pub fn on_execution(&mut self, value: Option<String>) -> (s: Step)
        requires
            old(self).stage == Stage::Analyzed,
            old(self).op == Op::Interpret,
        ensures
            final(self).stage == Stage::Executed,
            final(self).op == old(self).op,
            final(self).mode == old(self).mode,
            s is Done,
            s->Done_0.diagnostics == old(self).report,
            match value {
                Some(v) => is_text(s->Done_0.primary, v@),
                None => s->Done_0.primary matches Some(Primary::False),
            },
    {
        self.stage = Stage::Executed;
        let report = self.report.take();
        let primary = match value {
            Some(v) => Primary::Text(v),
            None => Primary::False,
        };
        Step::Done(Response { primary: Some(primary), diagnostics: report })
    }
}

/// The primary result of a request, as a value.
pub enum Answer {
    Text(Seq<char>),
    False,
    Absent,
}

/// A response, as a value.
pub struct ResponseView {
    pub primary: Answer,
    pub diagnostics: Option<Seq<char>>,
}

impl View for Response {
    type V = ResponseView;

    open spec fn view(&self) -> ResponseView {
        ResponseView {
            primary: match self.primary {
                Some(Primary::Text(t)) => Answer::Text(t@),
                Some(Primary::False) => Answer::False,
                None => Answer::Absent,
            },
            diagnostics: match self.diagnostics {
                Some(d) => Some(d@),
                None => None,
            },
        }
    }
}

/// The text of `v`, where there is one.
pub open spec fn text_of(v: Option<String>) -> Option<Seq<char>> {
    match v {
        Some(t) => Some(t@),
        None => None,
    }
}

/// The outcome of parsing, as a value.
pub open spec fn parse_view(p: Result<(), Vec<Message>>) -> Result<(), Seq<Message>> {
    match p {
        Ok(_) => Ok(()),
        Err(errors) => Err(errors@),
    }
}

/// The outcome of the analysis, as a value.
pub open spec fn analysis_view(a: Result<Vec<Message>, String>) -> Result<Seq<Message>, Seq<char>> {
    match a {
        Ok(msgs) => Ok(msgs@),
        Err(e) => Err(e@),
    }
}

/// The answer to request `op`, rendered in `mode`, where parsing gave
/// `parse`, the analysis gave `analysis` and the last stage gave `value`:
/// the syntax tree or the disassembly, or the display form of the value the
/// program left (`None` where it left nothing).
pub open spec fn response_spec(
    op: Op,
    mode: Mode,
    parse: Result<(), Seq<Message>>,
    analysis: Result<Seq<Message>, Seq<char>>,
    value: Option<Seq<char>>,
) -> ResponseView {
    match parse {
        Err(errors) => ResponseView { primary: Answer::Absent, diagnostics: Some(lines_report_spec(errors, mode)) },
        Ok(_) => match analysis {
            Err(e) => ResponseView { primary: Answer::Absent, diagnostics: Some(e) },
            Ok(msgs) => if has_error(msgs) {
                ResponseView { primary: Answer::Absent, diagnostics: Some(report_spec(msgs, mode)) }
            } else {
                ResponseView {
                    primary: match value {
                        Some(t) => Answer::Text(t),
                        None => if op == Op::Interpret {
                            Answer::False
                        } else {
                            Answer::Absent
                        },
                    },
                    diagnostics: findings_report(msgs, mode),
                }
            },
        },
    }
}

/// Answers request `op` in one call, from the outcome of each stage. The
/// outcomes of the stages that a request does not reach are not read. An
/// `Ast` or `Dis` request that gets to its last stage with no tree or
/// disassembly given answers no primary result, beside the report.
pub fn respond(
    op: Op,
    mode: Mode,
    parse: Result<(), Vec<Message>>,
    analysis: Result<Vec<Message>, String>,
    value: Option<String>,
) -> (r: Response)
    ensures
        r@ == response_spec(op, mode, parse_view(parse), analysis_view(analysis), text_of(value)),
{
    let mut d = Driver::new(op, mode);
    if let Step::Done(r) = d.on_parse(parse) {
        return r;
    }
    let last = match d.on_analysis(analysis) {
        Step::Done(r) => {
            return r;
        },
        Step::Execute => d.on_execution(value),
        step => match value {
            Some(t) => match step {
                Step::ShowAst => d.on_ast(t),
                _ => d.on_disassembly(t),
            },
            None => {
                return Response { primary: None, diagnostics: d.report.take() };
            },
        },
    };
    match last {
        Step::Done(r) => r,
        // every path above ends in `Done`
        _ => Response { primary: None, diagnostics: None },
    }
}

/// A source that fails to parse is answered, whatever the request, with no
/// primary result and a report made of the line of each syntax error, its
/// span and its text, in the order they came; as it stands for plain or ANSI
/// text, converted for HTML.
pub proof fn lemma_syntax_errors_reported(
    op: Op,
    mode: Mode,
    errors: Seq<Message>,
    analysis: Result<Seq<Message>, Seq<char>>,
    value: Option<Seq<char>>,
)
    ensures
        response_spec(op, mode, Err(errors), analysis, value).primary is Absent,
        response_spec(op, mode, Err(errors), analysis, value).diagnostics == Some(
            encode(lines_spec(errors), mode),
        ),
        mode != Mode::Html ==> encode(lines_spec(errors), mode) == lines_spec(errors),
        forall|i: int|
            0 <= i < errors.len() ==> lines_spec(errors) == lines_spec(errors.take(i))
                + line_spec(#[trigger] errors[i]) + lines_spec(errors.skip(i + 1)),
{
    assert forall|i: int| 0 <= i < errors.len() implies lines_spec(errors) == lines_spec(
        errors.take(i),
    ) + line_spec(#[trigger] errors[i]) + lines_spec(errors.skip(i + 1)) by {
        lemma_line_of_each(errors, i);
    }
}

/// A source with no finding is answered with no report, and with the output
/// of the last stage its request reaches: the tree, the disassembly or the
/// value left, and `False` for a program that left nothing.
pub proof fn lemma_clean_source(op: Op, mode: Mode, value: Option<Seq<char>>)
    ensures
        response_spec(op, mode, Ok(()), Ok(Seq::empty()), value).diagnostics is None,
        value is Some ==> response_spec(op, mode, Ok(()), Ok(Seq::empty()), value).primary
            == Answer::Text(value->0),
        value is None && op == Op::Interpret ==> response_spec(
            op,
            mode,
            Ok(()),
            Ok(Seq::empty()),
            value,
        ).primary == Answer::False,
{
    assert(count_of(Seq::<Message>::empty(), Severity::Error) == 0);
}

/// Findings of severity info or warning alone do not stop a request: the
/// program runs and its value is the answer (`False` where it left nothing),
/// beside a report whose summary line counts the findings exactly.
pub proof fn lemma_warnings_do_not_stop(mode: Mode, msgs: Seq<Message>, v: Option<Seq<char>>)
    requires
        msgs.len() > 0,
        msgs.len() <= usize::MAX,
        count_of(msgs, Severity::Error) == 0,
    ensures
        response_spec(Op::Interpret, mode, Ok(()), Ok(msgs), v).primary == match v {
            Some(t) => Answer::Text(t),
            None => Answer::False,
        },
        response_spec(Op::Interpret, mode, Ok(()), Ok(msgs), v).diagnostics == Some(
            encode(lines_spec(msgs) + summary_spec(tally_spec(msgs)), mode),
        ),
        tally_of(msgs, tally_spec(msgs)),
{
    lemma_counts_sum(msgs);
}

/// A source with an error among its findings is answered, whatever the
/// request, with no primary result (the tree is withheld as well) and with
/// the full report on the findings.
pub proof fn lemma_errors_stop(
    op: Op,
    mode: Mode,
    msgs: Seq<Message>,
    value: Option<Seq<char>>,
)
    requires
        has_error(msgs),
    ensures
        response_spec(op, mode, Ok(()), Ok(msgs), value).primary is Absent,
        response_spec(op, mode, Ok(()), Ok(msgs), value).diagnostics == Some(report_spec(msgs, mode)),
{
}

/// The answer depends on nothing but the request and the values its stages
/// gave: two requests alike in these are answered alike.
pub proof fn lemma_same_inputs_same_answer(
    op: Op,
    mode: Mode,
    parse1: Result<(), Vec<Message>>,
    parse2: Result<(), Vec<Message>>,
    analysis1: Result<Vec<Message>, String>,
    analysis2: Result<Vec<Message>, String>,
    value1: Option<String>,
    value2: Option<String>,
)
    requires
        parse_view(parse1) == parse_view(parse2),
        analysis_view(analysis1) == analysis_view(analysis2),
        text_of(value1) == text_of(value2),
    ensures
        response_spec(op, mode, parse_view(parse1), analysis_view(analysis1), text_of(value1))
            == response_spec(op, mode, parse_view(parse2), analysis_view(analysis2), text_of(value2)),
{
}

} // verus!
