//! Line diffs of two texts, marked up line by line for display.

use vstd::prelude::*;

verus! {

/// How a line of a diff relates the two texts.
#[derive(PartialEq, Eq, Structural, Clone, Copy, Debug)]
pub enum LineTag {
    Equal,
    Delete,
    Insert,
}

/// The tagged lines, each with its line terminator, that a line diff of
/// `old` against `new` yields.
pub uninterp spec fn line_changes_of(old: Seq<char>, new: Seq<char>) -> Seq<(LineTag, Seq<char>)>;

/// The old text that tagged lines rebuild: kept and deleted lines, joined
/// in order.
pub open spec fn old_side(cs: Seq<(LineTag, Seq<char>)>) -> Seq<char>
    decreases cs.len(),
{
    if cs.len() == 0 {
        Seq::empty()
    } else if cs.last().0 == LineTag::Insert {
        old_side(cs.drop_last())
    } else {
        old_side(cs.drop_last()) + cs.last().1
    }
}

/// The new text that tagged lines rebuild: kept and inserted lines, joined
/// in order.
pub open spec fn new_side(cs: Seq<(LineTag, Seq<char>)>) -> Seq<char>
    decreases cs.len(),
{
    if cs.len() == 0 {
        Seq::empty()
    } else if cs.last().0 == LineTag::Delete {
        new_side(cs.drop_last())
    } else {
        new_side(cs.drop_last()) + cs.last().1
    }
}

/// A character with the Unicode `White_Space` property.
pub open spec fn is_white_space(c: char) -> bool {
    let v = c as u32;
    (0x09 <= v <= 0x0d) || v == 0x20 || v == 0x85 || v == 0xa0 || v == 0x1680 || (0x2000 <= v
        <= 0x200a) || v == 0x2028 || v == 0x2029 || v == 0x202f || v == 0x205f || v == 0x3000
}

/// A text with its trailing whitespace removed: the longest prefix that
/// does not end in a whitespace character.
pub open spec fn trim_end_of(s: Seq<char>) -> Seq<char>
    decreases s.len(),
{
    if s.len() > 0 && is_white_space(s.last()) {
        trim_end_of(s.drop_last())
    } else {
        s
    }
}

/// Relies on `similar::TextDiff::from_lines` and its `iter_all_changes`:
/// the full sequence of tagged lines of a Myers line diff. The default
/// configuration sets no deadline, so it depends on the two texts alone.
/// The lines split each text whole, and the changes walk both in order, so
/// kept and deleted lines rebuild the old text, kept and inserted lines the
/// new one.
#[verifier::external_body]
fn line_changes(old: &str, new: &str) -> (r: Vec<(LineTag, String)>)
    ensures
        old_side(r@.map_values(|c: (LineTag, String)| (c.0, c.1@))) == old@,
        new_side(r@.map_values(|c: (LineTag, String)| (c.0, c.1@))) == new@,
        r@.len() == line_changes_of(old@, new@).len(),
        forall|i: int|
            0 <= i < r@.len() ==> r@[i].0 == line_changes_of(old@, new@)[i].0 && r@[i].1@
                == line_changes_of(old@, new@)[i].1,
{
    let diff = similar::TextDiff::from_lines(old, new);
    diff.iter_all_changes().map(|c| {
        let tag = match c.tag() {
            similar::ChangeTag::Equal => LineTag::Equal,
            similar::ChangeTag::Delete => LineTag::Delete,
            similar::ChangeTag::Insert => LineTag::Insert,
        };
        (tag, c.value().to_string())
    }).collect()
}

/// Relies on `str::trim_end`: the text without its trailing characters of
/// the Unicode `White_Space` property.
#[verifier::external_body]
fn trim_end(s: &str) -> (r: &str)
    ensures
        r@ == trim_end_of(s@),
{
    s.trim_end()
}

/// The opening markup of a line with the given tag.
pub open spec fn tag_open(t: LineTag) -> Seq<char> {
    match t {
        LineTag::Delete => "<span class='text-danger'>"@,
        LineTag::Insert => "<span class='text-success'>"@,
        LineTag::Equal => "<span>"@,
    }
}

/// One tagged line as markup: its text, trailing whitespace removed, in a
/// span that tells deleted, inserted and kept lines apart.
pub open spec fn marked_line(c: (LineTag, Seq<char>)) -> Seq<char> {
    tag_open(c.0) + trim_end_of(c.1) + "</span>"@
}

/// Each tagged line as markup, in order.
pub open spec fn marked_lines(cs: Seq<(LineTag, Seq<char>)>) -> Seq<Seq<char>> {
    cs.map_values(|c: (LineTag, Seq<char>)| marked_line(c))
}

/// The views of a list of strings.
pub open spec fn texts(v: Seq<String>) -> Seq<Seq<char>> {
    v.map_values(|s: String| s@)
}

/// The markup of one tagged line.
pub fn mark_line(tag: LineTag, text: &str) -> (r: String)
    ensures
        r@ == marked_line((tag, text@)),
{
    let mut r = match tag {
        LineTag::Delete => String::from_str("<span class='text-danger'>"),
        LineTag::Insert => String::from_str("<span class='text-success'>"),
        LineTag::Equal => String::from_str("<span>"),
    };
    r.append(trim_end(text));
    r.append("</span>");
    r
}

/// The markup of each tagged line, in order.
pub fn mark_changes(changes: &Vec<(LineTag, String)>) -> (r: Vec<String>)
    ensures
        texts(r@) == marked_lines(changes@.map_values(|c: (LineTag, String)| (c.0, c.1@))),
{
    let ghost want = marked_lines(changes@.map_values(|c: (LineTag, String)| (c.0, c.1@)));
    let mut r: Vec<String> = Vec::new();
    let mut i: usize = 0;
    while i < changes.len()
        invariant
            i <= changes@.len(),
            want == marked_lines(changes@.map_values(|c: (LineTag, String)| (c.0, c.1@))),
            r@.len() == i,
            forall|j: int| 0 <= j < i ==> #[trigger] r@[j]@ == want[j],
        decreases changes@.len() - i,
    {
        let line = mark_line(changes[i].0, changes[i].1.as_str());
        r.push(line);
        i = i + 1;
    }
    assert(texts(r@) =~= want);
    r
}

/// The marked-up line diff of two texts, or nothing when they are equal.
pub fn enrich_diff_htmlf(old: &String, new: &String) -> (r: Option<Vec<String>>)
    ensures
        old@ == new@ ==> r is None,
        old@ != new@ ==> (r matches Some(lines) && texts(lines@) == marked_lines(
            line_changes_of(old@, new@),
        )),
        old@ != new@ ==> old_side(line_changes_of(old@, new@)) == old@ && new_side(
            line_changes_of(old@, new@),
        ) == new@,
{
    if *old == *new {
        return None;
    }
    let changes = line_changes(old.as_str(), new.as_str());
    let r = mark_changes(&changes);
    assert(changes@.map_values(|c: (LineTag, String)| (c.0, c.1@)) =~= line_changes_of(
        old@,
        new@,
    ));
    Some(r)
}

} // verus!
