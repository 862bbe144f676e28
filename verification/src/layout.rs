//! Text layout for the e-paper screen.
//!
//! A field is wrapped to the column count its region allows, cut to the
//! number of lines that fit, and merged into one block of text for the
//! renderer. The font is ten pixels wide, so a region of `width` pixels
//! holds `width / 10` columns.

use vstd::prelude::*;

verus! {

/// The lines that wrapping `text` to `columns` columns yields: a function
/// of the text and the column count alone.
pub uninterp spec fn wrap_of(text: Seq<char>, columns: nat) -> Seq<Seq<char>>;

/// Relies on `textwrap::wrap`: the wrapped lines depend on the text and
/// the width alone.
#[verifier::external_body]
fn wrap_text(text: &str, columns: usize) -> (lines: Vec<String>)
    ensures
        lines.deep_view() == wrap_of(text@, columns as nat),
{
    textwrap::wrap(text, columns).into_iter().map(|line| line.into_owned()).collect()
}

/// The number of lines that merging keeps: `count`, bounded by the number
/// of lines there are.
pub open spec fn spec_merged_cut(lines: Seq<Seq<char>>, count: int) -> int {
    if count < lines.len() {
        count
    } else {
        lines.len() as int
    }
}

/// The first `count` of `lines` (all of them if fewer), joined with a
/// newline between neighbours.
pub open spec fn spec_merged(lines: Seq<Seq<char>>, count: int) -> Seq<char> {
    spec_joined(lines.take(spec_merged_cut(lines, count)))
}

/// `lines` joined with a newline between neighbours.
pub open spec fn spec_joined(lines: Seq<Seq<char>>) -> Seq<char>
    decreases lines.len(),
{
    if lines.len() == 0 {
        Seq::empty()
    } else if lines.len() == 1 {
        lines[0]
    } else {
        spec_joined(lines.drop_last()) + seq!['\n'] + lines.last()
    }
}

/// Joins the first `count` lines (all if fewer) with newlines between
/// neighbours.
pub fn merge_lines(lines: &Vec<String>, count: usize) -> (r: String)
    ensures
        r@ == spec_merged(lines.deep_view(), count as int),
{
    let n: usize = if count < lines.len() {
        count
    } else {
        lines.len()
    };
    let mut merged = String::new();
    let mut i: usize = 0;
    while i < n
        invariant
            0 <= i <= n <= lines.len(),
            n as int == spec_merged_cut(lines.deep_view(), count as int),
            merged@ == spec_joined(lines.deep_view().take(i as int)),
        decreases n - i,
    {
        proof {
            reveal_strlit("\n");
            let all = lines.deep_view();
            assert("\n"@ =~= seq!['\n']);
            assert(all.take(i + 1).drop_last() =~= all.take(i as int));
            assert(all.take(i + 1).last() == all[i as int]);
        }
        if i > 0 {
            merged.append("\n");
        }
        merged.append(lines[i].as_str());
        i = i + 1;
    }
    merged
}

/// Lays out one display field: wraps `text` to the columns a region of
/// `width` pixels holds, keeps the first `max_lines` lines, and joins them
/// with newlines.
pub fn field_text(text: &str, width: usize, max_lines: usize) -> (r: String)
    ensures
        r@ == spec_merged(wrap_of(text@, (width / 10) as nat), max_lines as int),
{
    let lines = wrap_text(text, width / 10);
    merge_lines(&lines, max_lines)
}

} // verus!
