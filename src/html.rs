//! Conversion of ANSI-colored text into HTML: the text is escaped, and each
//! SGR sequence (`ESC [ codes m`) becomes a span with the matching inline
//! style, or closes the open spans where it resets the style. A code that
//! turns a style off gives a span that overrides it. The extended colors
//! (codes 38 and 48, with their arguments) have no HTML form here: text that
//! uses them is not converted.
use vstd::prelude::*;

verus! {

/// The character `c` as HTML text.
pub open spec fn escape_char(c: char) -> Seq<char> {
    if c == '&' {
        "&amp;"@
    } else if c == '<' {
        "&lt;"@
    } else if c == '>' {
        "&gt;"@
    } else if c == '"' {
        "&quot;"@
    } else if c == '\'' {
        "&#39;"@
    } else {
        seq![c]
    }
}

/// Whether `c` may stand among the codes of an SGR sequence.
pub open spec fn is_param(c: char) -> bool {
    ('0' <= c && c <= '9') || c == ';'
}

/// The end of the run of code characters of `s` that starts at `j`.
pub open spec fn param_end(s: Seq<char>, j: int) -> int
    decreases s.len() - j,
{
    if 0 <= j < s.len() && is_param(s[j]) {
        param_end(s, j + 1)
    } else {
        j
    }
}

/// The value of decimal digit `c`.
pub open spec fn digit_value(c: char) -> nat {
    ((c as u32) - ('0' as u32)) as nat
}

/// The code read so far, extended by digit `d`; a code of 1000 or more stops growing.
pub open spec fn next_code(cur: nat, d: nat) -> nat {
    if cur >= 1000 {
        1000
    } else {
        cur * 10 + d
    }
}

/// The CSS name of color `k` of the eight standard ones, in SGR order.
pub open spec fn color_name(k: nat) -> Seq<char> {
    if k == 0 {
        "black"@
    } else if k == 1 {
        "maroon"@
    } else if k == 2 {
        "green"@
    } else if k == 3 {
        "olive"@
    } else if k == 4 {
        "navy"@
    } else if k == 5 {
        "purple"@
    } else if k == 6 {
        "teal"@
    } else {
        "silver"@
    }
}

/// The CSS name of bright color `k`, in SGR order.
pub open spec fn bright_name(k: nat) -> Seq<char> {
    if k == 0 {
        "gray"@
    } else if k == 1 {
        "red"@
    } else if k == 2 {
        "lime"@
    } else if k == 3 {
        "yellow"@
    } else if k == 4 {
        "blue"@
    } else if k == 5 {
        "fuchsia"@
    } else if k == 6 {
        "aqua"@
    } else {
        "white"@
    }
}

/// The inline style of SGR code `n`; nothing for a code with no style.
pub open spec fn code_css(n: nat) -> Seq<char> {
    if n == 1 {
        "font-weight:bold;"@
    } else if n == 3 {
        "font-style:italic;"@
    } else if n == 4 {
        "text-decoration:underline;"@
    } else if n == 22 {
        "font-weight:normal;"@
    } else if n == 23 {
        "font-style:normal;"@
    } else if n == 24 {
        "text-decoration:none;"@
    } else if n == 39 {
        "color:initial;"@
    } else if n == 49 {
        "background-color:initial;"@
    } else if 30 <= n <= 37 {
        "color:"@ + color_name((n - 30) as nat) + ";"@
    } else if 40 <= n <= 47 {
        "background-color:"@ + color_name((n - 40) as nat) + ";"@
    } else if 90 <= n <= 97 {
        "color:"@ + bright_name((n - 90) as nat) + ";"@
    } else {
        seq![]
    }
}

/// The style of the codes `p` from `i` on, where `cur` is the value of the
/// digits of the current code read before `i`.
pub open spec fn css_from(p: Seq<char>, i: int, cur: nat) -> Seq<char>
    decreases p.len() - i,
{
    if i < 0 || i >= p.len() {
        code_css(cur)
    } else if p[i] == ';' {
        code_css(cur) + css_from(p, i + 1, 0)
    } else {
        css_from(p, i + 1, next_code(cur, digit_value(p[i])))
    }
}

/// Whether SGR code `n` starts an extended color.
pub open spec fn is_extended(n: nat) -> bool {
    n == 38 || n == 48
}

/// Whether one of the codes `p` from `i` on starts an extended color, where
/// `cur` is the value of the digits of the current code read before `i`.
pub open spec fn extended_from(p: Seq<char>, i: int, cur: nat) -> bool
    decreases p.len() - i,
{
    if i < 0 || i >= p.len() {
        is_extended(cur)
    } else if p[i] == ';' {
        is_extended(cur) || extended_from(p, i + 1, 0)
    } else {
        extended_from(p, i + 1, next_code(cur, digit_value(p[i])))
    }
}

/// `n` closing tags.
pub open spec fn closes(n: nat) -> Seq<char>
    decreases n,
{
    if n == 0 {
        seq![]
    } else {
        closes((n - 1) as nat) + "</span>"@
    }
}

/// Whether codes `p` reset the style.
pub open spec fn is_reset(p: Seq<char>) -> bool {
    p.len() == 0 || p == seq!['0']
}

/// `t`, after `a`, where there is a `t`.
pub open spec fn prepend(a: Seq<char>, t: Option<Seq<char>>) -> Option<Seq<char>> {
    match t {
        Some(t) => Some(a + t),
        None => None,
    }
}

/// The HTML form of `s` from `i` on, with `open` spans open before `i`;
/// `None` where an escape character does not start a well-formed SGR
/// sequence, or a sequence holds an extended color.
pub open spec fn ansi_html(s: Seq<char>, i: int, open: nat) -> Option<Seq<char>>
    decreases s.len() - i,
{
    if i < 0 || i >= s.len() {
        Some(closes(open))
    } else if s[i] != '\x1b' {
        prepend(escape_char(s[i]), ansi_html(s, i + 1, open))
    } else {
        let k = param_end(s, i + 2);
        if i + 1 < s.len() && s[i + 1] == '[' && i + 2 <= k < s.len() && s[k] == 'm' {
            let p = s.subrange(i + 2, k);
            if is_reset(p) {
                prepend(closes(open), ansi_html(s, k + 1, 0))
            } else if extended_from(p, 0, 0) {
                None
            } else {
                prepend(
                    "<span style=\""@ + css_from(p, 0, 0) + "\">"@,
                    ansi_html(s, k + 1, open + 1),
                )
            }
        } else {
            None
        }
    }
}

/// Relies on String::push: appends one character.
#[verifier::external_body]
pub(crate) fn push_char(s: &mut String, c: char)
    ensures
        final(s)@ == old(s)@.push(c),
{
    s.push(c)
}

proof fn lemma_prepend_twice(a: Seq<char>, b: Seq<char>, t: Option<Seq<char>>)
    ensures
        prepend(a, prepend(b, t)) == prepend(a + b, t),
{
    if t is Some {
        assert(a + (b + t->0) =~= (a + b) + t->0);
    }
}

proof fn lemma_param_end_from(s: Seq<char>, j: int)
    ensures
        param_end(s, j) >= j,
    decreases s.len() - j,
{
    if 0 <= j < s.len() && is_param(s[j]) {
        lemma_param_end_from(s, j + 1);
    }
}

fn push_closes(out: &mut String, n: usize)
    ensures
        final(out)@ == old(out)@ + closes(n as nat),
{
    let ghost start = out@;
    let mut j: usize = 0;
    while j < n
        invariant
            j <= n,
            out@ == start + closes(j as nat),
        decreases n - j,
    {
        out.append("</span>");
        proof {
            assert(closes((j + 1) as nat) == closes(j as nat) + "</span>"@);
            assert(out@ =~= start + closes((j + 1) as nat));
        }
        j = j + 1;
    }
}

fn color(k: u32, bright: bool) -> (r: &'static str)
    requires
        k < 8,
    ensures
        bright ==> r@ == bright_name(k as nat),
        !bright ==> r@ == color_name(k as nat),
{
    if bright {
        if k == 0 {
            "gray"
        } else if k == 1 {
            "red"
        } else if k == 2 {
            "lime"
        } else if k == 3 {
            "yellow"
        } else if k == 4 {
            "blue"
        } else if k == 5 {
            "fuchsia"
        } else if k == 6 {
            "aqua"
        } else {
            "white"
        }
    } else {
        if k == 0 {
            "black"
        } else if k == 1 {
            "maroon"
        } else if k == 2 {
            "green"
        } else if k == 3 {
            "olive"
        } else if k == 4 {
            "navy"
        } else if k == 5 {
            "purple"
        } else if k == 6 {
            "teal"
        } else {
            "silver"
        }
    }
}

fn push_code_css(out: &mut String, n: u32)
    ensures
        final(out)@ == old(out)@ + code_css(n as nat),
{
    let ghost start = out@;
    if n == 1 {
        out.append("font-weight:bold;");
    } else if n == 3 {
        out.append("font-style:italic;");
    } else if n == 4 {
        out.append("text-decoration:underline;");
    } else if 30 <= n && n <= 37 {
        out.append("color:");
        out.append(color(n - 30, false));
        out.append(";");
    } else if 40 <= n && n <= 47 {
        out.append("background-color:");
        out.append(color(n - 40, false));
        out.append(";");
    } else if 90 <= n && n <= 97 {
        out.append("color:");
        out.append(color(n - 90, true));
        out.append(";");
    } else if n == 22 {
        out.append("font-weight:normal;");
    } else if n == 23 {
        out.append("font-style:normal;");
    } else if n == 24 {
        out.append("text-decoration:none;");
    } else if n == 39 {
        out.append("color:initial;");
    } else if n == 49 {
        out.append("background-color:initial;");
    }
    proof {
        assert(out@ =~= start + code_css(n as nat));
    }
}

/// Appends the style of the codes `s[from..to]`, and says whether one of
/// them starts an extended color.
fn push_css(out: &mut String, s: &str, from: usize, to: usize) -> (r: bool)
    requires
        from <= to <= s@.len(),
        forall|j: int| from <= j < to ==> is_param(#[trigger] s@[j]),
    ensures
        final(out)@ == old(out)@ + css_from(s@.subrange(from as int, to as int), 0, 0),
        r == extended_from(s@.subrange(from as int, to as int), 0, 0),
{
    let mut extended = false;
    let ghost p = s@.subrange(from as int, to as int);
    let ghost start = out@;
    let mut cur: u32 = 0;
    let mut j: usize = from;
    while j < to
        invariant
            from <= j <= to <= s@.len(),
            p == s@.subrange(from as int, to as int),
            forall|m: int| from <= m < to ==> is_param(#[trigger] s@[m]),
            cur <= 9999,
            start + css_from(p, 0, 0) == out@ + css_from(p, j - from, cur as nat),
            extended_from(p, 0, 0) == (extended || extended_from(p, j - from, cur as nat)),
        decreases to - j,
    {
        let c = s.get_char(j);
        proof {
            assert(p[j - from] == c);
            assert(is_param(s@[j as int]));
        }
        if c == ';' {
            proof {
                assert(css_from(p, j - from, cur as nat) == code_css(cur as nat) + css_from(
                    p,
                    j - from + 1,
                    0,
                ));
            }
            push_code_css(out, cur);
            proof {
                assert(start + css_from(p, 0, 0) =~= out@ + css_from(p, j + 1 - from, 0));
                assert(extended_from(p, j - from, cur as nat) == (is_extended(cur as nat)
                    || extended_from(p, j - from + 1, 0)));
            }
            extended = extended || cur == 38 || cur == 48;
            cur = 0;
        } else {
            let d = (c as u32) - ('0' as u32);
            let next = if cur >= 1000 {
                1000
            } else {
                cur * 10 + d
            };
            proof {
                assert(d == digit_value(c));
                assert(next == next_code(cur as nat, digit_value(c)));
                assert(p.len() == to - from);
                assert(css_from(p, j - from, cur as nat) == css_from(p, j - from + 1, next as nat));
                assert(extended_from(p, j - from, cur as nat) == extended_from(
                    p,
                    j - from + 1,
                    next as nat,
                ));
            }
            cur = next;
        }
        j = j + 1;
    }
    proof {
        assert(css_from(p, j - from, cur as nat) == code_css(cur as nat));
        assert(extended_from(p, j - from, cur as nat) == is_extended(cur as nat));
    }
    push_code_css(out, cur);
    proof {
        assert(out@ =~= start + css_from(p, 0, 0));
    }
    extended || cur == 38 || cur == 48
}

/// The HTML form of ANSI text `s`, or `None` where an escape character of it
/// does not start a well-formed SGR sequence.
pub fn ansi_to_html(s: &str) -> (r: Option<String>)
    ensures
        match r {
            Some(h) => ansi_html(s@, 0, 0) == Some(h@),
            None => ansi_html(s@, 0, 0) is None,
        },
{
    let n = s.unicode_len();
    let mut out = String::new();
    let mut open: usize = 0;
    let mut i: usize = 0;
    proof {
        assert(prepend(out@, ansi_html(s@, 0, 0)) == ansi_html(s@, 0, 0)) by {
            if ansi_html(s@, 0, 0) is Some {
                assert(out@ + ansi_html(s@, 0, 0)->0 =~= ansi_html(s@, 0, 0)->0);
            }
        }
    }
    while i < n
        invariant
            n == s@.len(),
            i <= n,
            open <= i,
            ansi_html(s@, 0, 0) == prepend(out@, ansi_html(s@, i as int, open as nat)),
        decreases n - i,
    {
        let c = s.get_char(i);
        if c != '\x1b' {
            let ghost before = out@;
            if c == '&' {
                out.append("&amp;");
            } else if c == '<' {
                out.append("&lt;");
            } else if c == '>' {
                out.append("&gt;");
            } else if c == '"' {
                out.append("&quot;");
            } else if c == '\'' {
                out.append("&#39;");
            } else {
                push_char(&mut out, c);
            }
            proof {
                assert(out@ =~= before + escape_char(c));
                lemma_prepend_twice(before, escape_char(c), ansi_html(s@, i + 1, open as nat));
            }
            i = i + 1;
        } else {
            if !(i + 1 < n && s.get_char(i + 1) == '[') {
                return None;
            }
            let mut k: usize = i + 2;
            while k < n && is_param_char(s.get_char(k))
                invariant
                    n == s@.len(),
                    i + 2 <= k <= n,
                    param_end(s@, i + 2) == param_end(s@, k as int),
                    forall|m: int| i + 2 <= m < k ==> is_param(#[trigger] s@[m]),
                decreases n - k,
            {
                k = k + 1;
            }
            proof {
                lemma_param_end_from(s@, i + 2);
                assert(param_end(s@, k as int) == k);
            }
            if !(k < n && s.get_char(k) == 'm') {
                return None;
            }
            let ghost p = s@.subrange(i + 2, k as int);
            let ghost before = out@;
            let reset = k == i + 2 || (k == i + 3 && s.get_char(i + 2) == '0');
            proof {
                if k == i + 3 && s@[i + 2] == '0' {
                    assert(p =~= seq!['0']);
                }
                if p == seq!['0'] {
                    assert(p[0] == s@[i + 2]);
                }
            }
            if reset {
                push_closes(&mut out, open);
                proof {
                    lemma_prepend_twice(before, closes(open as nat), ansi_html(s@, k + 1, 0));
                }
                open = 0;
            } else {
                out.append("<span style=\"");
                if push_css(&mut out, s, i + 2, k) {
                    return None;
                }
                out.append("\">");
                proof {
                    let tag = "<span style=\""@ + css_from(p, 0, 0) + "\">"@;
                    assert(out@ =~= before + tag);
                    lemma_prepend_twice(before, tag, ansi_html(s@, k + 1, (open + 1) as nat));
                }
                open = open + 1;
            }
            i = k + 1;
        }
    }
    push_closes(&mut out, open);
    proof {
        assert(ansi_html(s@, n as int, open as nat) == Some(closes(open as nat)));
    }
    Some(out)
}

fn is_param_char(c: char) -> (r: bool)
    ensures
        r == is_param(c),
{
    ('0' <= c && c <= '9') || c == ';'
}

} // verus!
