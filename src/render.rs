//! Rendering of findings as a report: one line per finding, then a summary
//! line with the tally, as plain or ANSI-colored text, or as HTML converted
//! from the ANSI text.
use vstd::prelude::*;
use crate::diagnostic::{Message, Severity, Span, Tally, count_of, aggregate};
use crate::html::{ansi_html, ansi_to_html, push_char};

verus! {

/// The encoding of a report. Plain and ANSI text carry each finding's text
/// as it was given, colors included; HTML is converted from that text.
#[derive(Clone, Copy, Debug, PartialEq, Eq, Structural)]
pub enum Mode {
    Plain,
    Ansi,
    Html,
}

/// The digit that stands for `d`, for `d < 10`.
pub open spec fn digit_spec(d: nat) -> char {
    if d == 0 {
        '0'
    } else if d == 1 {
        '1'
    } else if d == 2 {
        '2'
    } else if d == 3 {
        '3'
    } else if d == 4 {
        '4'
    } else if d == 5 {
        '5'
    } else if d == 6 {
        '6'
    } else if d == 7 {
        '7'
    } else if d == 8 {
        '8'
    } else {
        '9'
    }
}

/// The decimal form of `n`, without leading zeros.
pub open spec fn dec(n: nat) -> Seq<char>
    decreases n,
{
    if n < 10 {
        seq![digit_spec(n)]
    } else {
        dec(n / 10).push(digit_spec(n % 10))
    }
}

/// `word` as it stands beside a count of `n`: singular for one, else plural.
pub open spec fn noun(word: Seq<char>, n: nat) -> Seq<char> {
    if n == 1 {
        word
    } else {
        word.push('s')
    }
}

/// The summary line of a report: `"<N> message(s) (<I> info, <W> warning(s), <E> error(s))"`.
pub open spec fn summary_spec(t: Tally) -> Seq<char> {
    dec(t.total() as nat) + " "@ + noun("message"@, t.total() as nat) + " ("@ + dec(t.info as nat)
        + " info, "@ + dec(t.warning as nat) + " "@ + noun("warning"@, t.warning as nat) + ", "@
        + dec(t.error as nat) + " "@ + noun("error"@, t.error as nat) + ")\n"@
}

/// Where a finding points: `"[start..end] "`, or nothing for a source-wide one.
pub open spec fn span_spec(span: Option<Span>) -> Seq<char> {
    match span {
        Some(sp) => "["@ + dec(sp.start as nat) + ".."@ + dec(sp.end as nat) + "] "@,
        None => seq![],
    }
}

/// The entry of one finding in a report: `"[start..end] <description>"`.
/// The description is the finding's own full text, line end included.
pub open spec fn line_spec(m: Message) -> Seq<char> {
    span_spec(m.span) + m.description@
}

/// The lines of all findings of `msgs`, in order.
pub open spec fn lines_spec(msgs: Seq<Message>) -> Seq<char>
    decreases msgs.len(),
{
    if msgs.len() == 0 {
        seq![]
    } else {
        lines_spec(msgs.drop_last()) + line_spec(msgs.last())
    }
}

/// The tally of `msgs`, as the aggregator counts it.
pub open spec fn tally_spec(msgs: Seq<Message>) -> Tally {
    Tally {
        info: count_of(msgs, Severity::Info) as usize,
        warning: count_of(msgs, Severity::Warning) as usize,
        error: count_of(msgs, Severity::Error) as usize,
    }
}

/// What a report holds where HTML cannot be made of its text.
pub open spec fn html_fallback() -> Seq<char> {
    "Failed to parse ANSI to HTML"@
}

/// Text `t` encoded for `mode`: as it stands for plain and ANSI text, and
/// converted to HTML for `Html`.
pub open spec fn encode(t: Seq<char>, mode: Mode) -> Seq<char> {
    match mode {
        Mode::Html => match ansi_html(t, 0, 0) {
            Some(h) => h,
            None => html_fallback(),
        },
        _ => t,
    }
}

/// A report of the lines of all findings alone, as for syntax errors.
pub open spec fn lines_report_spec(msgs: Seq<Message>, mode: Mode) -> Seq<char> {
    encode(lines_spec(msgs), mode)
}

/// A full report: the lines of all findings, then the summary line.
pub open spec fn report_spec(msgs: Seq<Message>, mode: Mode) -> Seq<char> {
    encode(lines_spec(msgs) + summary_spec(tally_spec(msgs)), mode)
}

fn digit(d: usize) -> (c: char)
    requires
        d < 10,
    ensures
        c == digit_spec(d as nat),
{
    if d == 0 {
        '0'
    } else if d == 1 {
        '1'
    } else if d == 2 {
        '2'
    } else if d == 3 {
        '3'
    } else if d == 4 {
        '4'
    } else if d == 5 {
        '5'
    } else if d == 6 {
        '6'
    } else if d == 7 {
        '7'
    } else if d == 8 {
        '8'
    } else {
        '9'
    }
}

/// Appends the decimal form of `n` to `out`.
pub fn push_decimal(out: &mut String, n: usize)
    ensures
        final(out)@ == old(out)@ + dec(n as nat),
    decreases n,
{
    if n >= 10 {
        push_decimal(out, n / 10);
    }
    push_char(out, digit(n % 10));
    proof {
        if n >= 10 {
            assert(dec(n as nat) == dec((n / 10) as nat).push(digit_spec((n % 10) as nat)));
        } else {
            assert(dec(n as nat) == seq![digit_spec(n as nat)]);
        }
    }
}

/// The decimal form of `n`.
pub fn decimal(n: usize) -> (r: String)
    ensures
        r@ == dec(n as nat),
{
    let mut s = String::new();
    push_decimal(&mut s, n);
    proof {
        assert(s@ =~= dec(n as nat));
    }
    s
}

fn push_noun(out: &mut String, word: &str, n: usize)
    ensures
        final(out)@ == old(out)@ + noun(word@, n as nat),
{
    out.append(word);
    if n != 1 {
        push_char(out, 's');
    }
    proof {
        assert(final(out)@ =~= old(out)@ + noun(word@, n as nat));
    }
}

/// The summary line of a report with tally `t`.
pub fn summary(t: &Tally) -> (r: String)
    requires
        t.total() <= usize::MAX,
    ensures
        r@ == summary_spec(*t),
{
    let total = t.info + t.warning + t.error;
    let mut s = String::new();
    push_decimal(&mut s, total);
    s.append(" ");
    push_noun(&mut s, "message", total);
    s.append(" (");
    push_decimal(&mut s, t.info);
    s.append(" info, ");
    push_decimal(&mut s, t.warning);
    s.append(" ");
    push_noun(&mut s, "warning", t.warning);
    s.append(", ");
    push_decimal(&mut s, t.error);
    s.append(" ");
    push_noun(&mut s, "error", t.error);
    s.append(")\n");
    proof {
        assert(s@ =~= summary_spec(*t));
    }
    s
}

/// Text `t` encoded for `mode`.
pub fn encode_for(t: String, mode: Mode) -> (r: String)
    ensures
        r@ == encode(t@, mode),
{
    match mode {
        Mode::Html => match ansi_to_html(t.as_str()) {
            Some(h) => h,
            None => String::from_str("Failed to parse ANSI to HTML"),
        },
        _ => t,
    }
}

/// Appends the report line of finding `m` to `out`.
pub fn push_line(out: &mut String, m: &Message)
    ensures
        final(out)@ == old(out)@ + line_spec(*m),
{
    let ghost start = out@;
    match m.span {
        Some(sp) => {
            out.append("[");
            push_decimal(out, sp.start);
            out.append("..");
            push_decimal(out, sp.end);
            out.append("] ");
        },
        None => {},
    }
    proof {
        assert(out@ =~= start + span_spec(m.span));
    }
    out.append(m.description.as_str());
    proof {
        assert(out@ =~= start + line_spec(*m));
    }
}

fn lines_text(msgs: &Vec<Message>) -> (r: String)
    ensures
        r@ == lines_spec(msgs@),
{
    let mut out = String::new();
    let mut i: usize = 0;
    while i < msgs.len()
        invariant
            i <= msgs@.len(),
            out@ == lines_spec(msgs@.subrange(0, i as int)),
        decreases msgs@.len() - i,
    {
        proof {
            let pre = msgs@.subrange(0, i + 1);
            assert(pre.drop_last() =~= msgs@.subrange(0, i as int));
        }
        push_line(&mut out, &msgs[i]);
        i = i + 1;
    }
    proof {
        assert(msgs@.subrange(0, msgs@.len() as int) =~= msgs@);
    }
    out
}

/// The report of the lines of all findings of `msgs`, in order, with no summary.
pub fn render_lines(msgs: &Vec<Message>, mode: Mode) -> (r: String)
    ensures
        r@ == lines_report_spec(msgs@, mode),
{
    encode_for(lines_text(msgs), mode)
}

/// The report on `msgs`: a line per finding, in order, then the summary line
/// with the tally of all of them.
pub fn render(msgs: &Vec<Message>, mode: Mode) -> (r: String)
    ensures
        r@ == report_spec(msgs@, mode),
{
    let mut out = lines_text(msgs);
    let (t, _) = aggregate(msgs);
    let line = summary(&t);
    out.append(line.as_str());
    proof {
        assert(t == tally_spec(msgs@));
    }
    encode_for(out, mode)
}

/// The lines of two batches one after the other are the lines of each, in turn.
pub proof fn lemma_lines_append(a: Seq<Message>, b: Seq<Message>)
    ensures
        lines_spec(a + b) == lines_spec(a) + lines_spec(b),
    decreases b.len(),
{
    if b.len() == 0 {
        assert(a + b =~= a);
        assert(lines_spec(a) + lines_spec(b) =~= lines_spec(a));
    } else {
        lemma_lines_append(a, b.drop_last());
        assert((a + b).drop_last() =~= a + b.drop_last());
        assert((a + b).last() == b.last());
        assert(lines_spec(a + b) =~= lines_spec(a) + lines_spec(b));
    }
}

/// Each finding of a batch has its own line among the batch's lines, after
/// those of the findings before it and before those of the findings after it.
pub proof fn lemma_line_of_each(msgs: Seq<Message>, i: int)
    requires
        0 <= i < msgs.len(),
    ensures
        lines_spec(msgs) == lines_spec(msgs.take(i)) + line_spec(msgs[i])
            + lines_spec(msgs.skip(i + 1)),
{
    let one = seq![msgs[i]];
    assert(msgs =~= msgs.take(i) + one + msgs.skip(i + 1));
    lemma_lines_append(msgs.take(i) + one, msgs.skip(i + 1));
    lemma_lines_append(msgs.take(i), one);
    assert(one.drop_last() =~= Seq::<Message>::empty());
    assert(lines_spec(one.drop_last()) =~= Seq::<char>::empty());
    assert(one.last() == msgs[i]);
    assert(lines_spec(one) =~= line_spec(msgs[i]));
}

/// In a summary line, "message", "warning" and "error" each stand in the
/// singular exactly when their count is one, and take a trailing "s" otherwise.
pub proof fn lemma_summary_plurals(t: Tally)
    ensures
        (noun("message"@, t.total() as nat) == "message"@) <==> t.total() == 1,
        t.total() != 1 ==> noun("message"@, t.total() as nat) == "messages"@,
        (noun("warning"@, t.warning as nat) == "warning"@) <==> t.warning == 1,
        t.warning != 1 ==> noun("warning"@, t.warning as nat) == "warnings"@,
        (noun("error"@, t.error as nat) == "error"@) <==> t.error == 1,
        t.error != 1 ==> noun("error"@, t.error as nat) == "errors"@,
{
    reveal_strlit("message");
    reveal_strlit("messages");
    reveal_strlit("warning");
    reveal_strlit("warnings");
    reveal_strlit("error");
    reveal_strlit("errors");
    assert("message"@.push('s') =~= "messages"@);
    assert("warning"@.push('s') =~= "warnings"@);
    assert("error"@.push('s') =~= "errors"@);
    assert("message"@.push('s').len() != "message"@.len());
    assert("warning"@.push('s').len() != "warning"@.len());
    assert("error"@.push('s').len() != "error"@.len());
}

} // verus!
