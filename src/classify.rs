//! Sorting a source line into comment, label definition, instruction or
//! anything else.
use vstd::prelude::*;
use vstd::string::*;
use crate::text::{
    chars_of, is_ident_char, ident_end, ident_end_exec, is_comment_at, is_comment_at_exec, is_tail, is_tail_exec,
    is_token_char, is_token_char_exec, skip_spaces, skip_spaces_exec, token_end, token_end_exec,
    upper_end, upper_end_exec,
};

verus! {

/// What a line of source is, with the label's name for a label definition.
pub enum LineClass {
    Comment,
    Label(Seq<char>),
    Instruction,
    Other,
}

/// The class of a line, with the label's name as a `String`.
#[derive(Debug, PartialEq, Eq)]
pub enum LineKind {
    Comment,
    Label(String),
    Instruction,
    Blank,
}

impl View for LineKind {
    type V = LineClass;

    open spec fn view(&self) -> LineClass {
        match self {
            LineKind::Comment => LineClass::Comment,
            LineKind::Label(name) => LineClass::Label(name@),
            LineKind::Instruction => LineClass::Instruction,
            LineKind::Blank => LineClass::Other,
        }
    }
}

/// Where the line's first character that is not white space stands.
pub open spec fn line_start(s: Seq<char>) -> int {
    skip_spaces(s, 0)
}

/// Where the name of a label definition ends: the label's characters run
/// from `line_start` up to here.
pub open spec fn label_end(s: Seq<char>) -> int {
    ident_end(s, line_start(s))
}

/// White space, then a name of letters, digits and underscores, then `:`,
/// then white space and an optional comment.
pub open spec fn is_label_line(s: Seq<char>) -> bool {
    let e = label_end(s);
    line_start(s) < e < s.len() && s[e] == ':' && is_tail(s, e + 1)
}

/// From position `i` on: any number of operand tokens, each a single space
/// and one or more token characters, then white space and an optional
/// comment.
pub open spec fn operands_then_tail(s: Seq<char>, i: int) -> bool
    decreases s.len() - i,
{
    if 0 <= i && i + 1 < s.len() && s[i] == ' ' && is_token_char(s[i + 1]) && i < token_end(s, i + 1)
        <= s.len() {
        operands_then_tail(s, token_end(s, i + 1))
    } else {
        is_tail(s, i)
    }
}

/// White space, a mnemonic of two to four upper-case letters, operand
/// tokens, then white space and an optional comment.
pub open spec fn is_instruction_line(s: Seq<char>) -> bool {
    let st = line_start(s);
    let e = upper_end(s, st);
    st + 2 <= e <= st + 4 && operands_then_tail(s, e)
}

/// The class of a line. A label definition is recognised before an
/// instruction; no line is both.
pub open spec fn line_class(s: Seq<char>) -> LineClass {
    if is_comment_at(s, line_start(s)) {
        LineClass::Comment
    } else if is_label_line(s) {
        LineClass::Label(s.subrange(line_start(s), label_end(s)))
    } else if is_instruction_line(s) {
        LineClass::Instruction
    } else {
        LineClass::Other
    }
}

pub proof fn lemma_scan_bounds(s: Seq<char>, i: int)
    requires
        0 <= i <= s.len(),
    ensures
        i <= skip_spaces(s, i) <= s.len(),
        i <= token_end(s, i) <= s.len(),
        i <= ident_end(s, i) <= s.len(),
        i <= upper_end(s, i) <= s.len(),
    decreases s.len() - i,
{
    if i < s.len() {
        lemma_scan_bounds(s, i + 1);
    }
}

proof fn lemma_upper_within_ident(s: Seq<char>, i: int)
    requires
        0 <= i <= s.len(),
    ensures
        upper_end(s, i) <= ident_end(s, i),
        forall|k: int| i <= k < ident_end(s, i) ==> is_ident_char(#[trigger] s[k]),
        ident_end(s, i) < s.len() ==> !is_ident_char(s[ident_end(s, i)]),
        upper_end(s, i) < ident_end(s, i) ==> is_ident_char(s[upper_end(s, i)]),
    decreases s.len() - i,
{
    lemma_scan_bounds(s, i);
    if i < s.len() && is_ident_char(s[i]) {
        lemma_upper_within_ident(s, i + 1);
    }
}

/// The label and instruction grammars never both accept a line: right after
/// a mnemonic stands a space, a comment or the end of the line, and right
/// after a label's leading letters, more of its name or its colon.
pub proof fn lemma_label_not_instruction(s: Seq<char>)
    ensures
        !(is_label_line(s) && is_instruction_line(s)),
{
    let st = line_start(s);
    lemma_scan_bounds(s, 0);
    if is_label_line(s) && is_instruction_line(s) {
        lemma_upper_within_ident(s, st);
        let u = upper_end(s, st);
        let e = label_end(s);
        assert(s[u] == ':' || is_ident_char(s[u]));
        assert(skip_spaces(s, u) == u);
        assert(!is_tail(s, u));
        assert(!operands_then_tail(s, u));
    }
}

fn operands_then_tail_exec(s: &Vec<char>, i: usize) -> (r: bool)
    requires
        i <= s.len(),
    ensures
        r == operands_then_tail(s@, i as int),
{
    let mut j = i;
    loop
        invariant
            j <= s.len(),
            operands_then_tail(s@, j as int) == operands_then_tail(s@, i as int),
        decreases s.len() - j,
    {
        if j < s.len() && j + 1 < s.len() && s[j] == ' ' && is_token_char_exec(s[j + 1]) {
            let t = token_end_exec(s, j + 1);
            proof {
                lemma_scan_bounds(s@, j + 2);
            }
            j = t;
        } else {
            return is_tail_exec(s, j);
        }
    }
}

/// The class of a line given as characters; for a label definition, the
/// span of its name.
pub(crate) enum Span {
    Comment,
    Label(usize, usize),
    Instruction,
    Other,
}

pub(crate) open spec fn span_matches(r: Span, s: Seq<char>) -> bool {
    match r {
        Span::Comment => line_class(s) == LineClass::Comment,
        Span::Label(a, b) => a <= b <= s.len() && line_class(s) == LineClass::Label(
            s.subrange(a as int, b as int),
        ),
        Span::Instruction => line_class(s) == LineClass::Instruction,
        Span::Other => line_class(s) == LineClass::Other,
    }
}

pub(crate) fn classify_chars(s: &Vec<char>) -> (r: Span)
    ensures
        span_matches(r, s@),
{
    let st = skip_spaces_exec(s, 0);
    if is_comment_at_exec(s, st) {
        return Span::Comment;
    }
    let e = ident_end_exec(s, st);
    if st < e && e < s.len() && s[e] == ':' && is_tail_exec(s, e + 1) {
        return Span::Label(st, e);
    }
    let u = upper_end_exec(s, st);
    if u - st >= 2 && u - st <= 4 && operands_then_tail_exec(s, u) {
        Span::Instruction
    } else {
        Span::Other
    }
}

/// Sorts one line of source text into its class.
pub fn classify_line(line: &str) -> (r: LineKind)
    ensures
        r@ == line_class(line@),
{
    let s = chars_of(line);
    match classify_chars(&s) {
        Span::Comment => LineKind::Comment,
        Span::Label(a, b) => LineKind::Label(String::from_str(line.substring_char(a, b))),
        Span::Instruction => LineKind::Instruction,
        Span::Other => LineKind::Blank,
    }
}

} // verus!
