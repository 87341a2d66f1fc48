//! Texts as the backend sends them, made fit to be shown.

use vstd::prelude::*;
use vstd::string::StringExecFns;

verus! {

/// A text without the white space at its start and at its end, as
/// `str::trim` gives it.
pub uninterp spec fn trimmed(text: Seq<char>) -> Seq<char>;

/// The parts of a text that lie before, between and behind the places
/// where `gap` stands in it, as `str::split` gives them.
pub uninterp spec fn split_by(text: Seq<char>, gap: Seq<char>) -> Seq<Seq<char>>;

/// The texts of a sequence of strings.
pub open spec fn texts(strings: Seq<String>) -> Seq<Seq<char>> {
    strings.map_values(|s: String| s@)
}

/// `str::trim`: the text without the white space at its start and at its
/// end.
#[verifier::external_body]
pub(crate) fn trim(text: &str) -> (rest: &str)
    ensures
        rest@ == trimmed(text@),
{
    text.trim()
}

/// `str::split`: the parts of the text that lie before, between and
/// behind the places where `gap` stands in it, in their order.
#[verifier::external_body]
pub(crate) fn split(text: &str, gap: &str) -> (parts: Vec<String>)
    ensures
        texts(parts@) == split_by(text@, gap@),
{
    text.split(gap).map(String::from).collect()
}

/// What parts a title in the backend's form: five spaces.
pub open spec fn title_gap() -> Seq<char> {
    seq![' ', ' ', ' ', ' ', ' ']
}

/// What stands between the parts of a title that is shown: two spaces.
pub open spec fn title_joint() -> Seq<char> {
    seq![' ', ' ']
}

/// The parts that are shown: those that are not empty, each without the
/// white space around it.
pub open spec fn shown_parts(parts: Seq<Seq<char>>) -> Seq<Seq<char>>
    decreases parts.len(),
{
    if parts.len() == 0 {
        Seq::empty()
    } else if parts.last().len() == 0 {
        shown_parts(parts.drop_last())
    } else {
        shown_parts(parts.drop_last()).push(trimmed(parts.last()))
    }
}

/// The parts one after the other, with `joint` between each two.
pub open spec fn joined(parts: Seq<Seq<char>>, joint: Seq<char>) -> Seq<char>
    decreases parts.len(),
{
    if parts.len() == 0 {
        Seq::empty()
    } else if parts.len() == 1 {
        parts[0]
    } else {
        joined(parts.drop_last(), joint) + joint + parts.last()
    }
}

/// The title that is shown for a title in the backend's form: its parts
/// that are not empty, each without the white space around it, with two
/// spaces between each two.
pub open spec fn shown_title(title: Seq<char>) -> Seq<char> {
    joined(shown_parts(split_by(title, title_gap())), title_joint())
}

/// Joins the parts of a title that are not empty, each without the white
/// space around it, with two spaces between each two.
pub fn join_title(parts: &Vec<String>) -> (title: String)
    ensures
        title@ == joined(shown_parts(texts(parts@)), title_joint()),
{
    let mut title = String::new();
    let mut any = false;
    let mut i: usize = 0;
    proof {
        reveal_strlit("  ");
        assert(texts(parts@).take(0) =~= Seq::<Seq<char>>::empty());
        assert("  "@ =~= title_joint());
    }
    while i < parts.len()
        invariant
            i <= parts@.len(),
            "  "@ == title_joint(),
            title@ == joined(shown_parts(texts(parts@).take(i as int)), title_joint()),
            any == (shown_parts(texts(parts@).take(i as int)).len() > 0),
        decreases parts@.len() - i,
    {
        let ghost before = texts(parts@).take(i as int);
        let ghost now = texts(parts@).take(i + 1);
        proof {
            assert(now.drop_last() =~= before);
            assert(now.last() == parts@[i as int]@);
        }
        let part = parts[i].as_str();
        if !part.is_empty() {
            if any {
                title.append("  ");
            }
            title.append(trim(part));
            proof {
                let shown = shown_parts(now);
                assert(shown == shown_parts(before).push(trimmed(part@)));
                assert(shown.drop_last() =~= shown_parts(before));
                if any {
                    assert(title@ =~= joined(shown_parts(before), title_joint()) + title_joint()
                        + trimmed(part@));
                } else {
                    assert(title@ =~= trimmed(part@));
                }
            }
            any = true;
        }
        i += 1;
    }
    proof {
        assert(texts(parts@).take(i as int) =~= texts(parts@));
    }
    title
}

/// Makes a title in the backend's form fit to be shown.
pub fn show_title(title: &str) -> (shown: String)
    ensures
        shown@ == shown_title(title@),
{
    proof {
        reveal_strlit("     ");
        assert("     "@ =~= title_gap());
    }
    let parts = split(title, "     ");
    join_title(&parts)
}

} // verus!
