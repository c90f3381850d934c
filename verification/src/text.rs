//! Text that the service searches and puts together.

use vstd::prelude::*;
use vstd::string::*;

verus! {

/// Whether `part` occurs in `whole` as a run of neighbouring characters.
pub open spec fn occurs_in(part: Seq<char>, whole: Seq<char>) -> bool {
    exists|at: int| occurs_at(part, whole, at)
}

/// Whether `part` occurs in `whole` from position `at` on.
pub open spec fn occurs_at(part: Seq<char>, whole: Seq<char>, at: int) -> bool {
    &&& 0 <= at
    &&& at + part.len() <= whole.len()
    &&& whole.subrange(at, at + part.len()) == part
}

/// A text occurs in every text that is made by putting something before and after it, and in no
/// other.
pub proof fn occurrence_is_something_around(part: Seq<char>, whole: Seq<char>)
    ensures
        occurs_in(part, whole) <==> exists|before: Seq<char>, after: Seq<char>|
            whole == #[trigger] (before + part + after),
{
    if occurs_in(part, whole) {
        let at = choose|at: int| occurs_at(part, whole, at);
        let before = whole.subrange(0, at);
        let after = whole.subrange(at + part.len(), whole.len() as int);
        assert(whole =~= before + whole.subrange(at, at + part.len()) + after);
        assert(whole == before + part + after);
    }
    if exists|before: Seq<char>, after: Seq<char>| whole == #[trigger] (before + part + after) {
        let (before, after) = choose|before: Seq<char>, after: Seq<char>|
            whole == #[trigger] (before + part + after);
        let at = before.len() as int;
        assert(whole.subrange(at, at + part.len()) =~= part);
        assert(occurs_at(part, whole, at));
    }
}

/// The characters of a text, in their order.
pub fn characters(text: &str) -> (chars: Vec<char>)
    ensures
        chars@ == text@,
{
    let mut chars: Vec<char> = Vec::new();
    for c in it: text.chars()
        invariant
            chars@ == text@.take(it.index() as int),
            it.seq() == text@,
    {
        chars.push(c);
    }
    chars
}

/// Whether the character `wanted` stands anywhere in `text`.
pub fn contains_char(text: &str, wanted: char) -> (found: bool)
    ensures
        found == text@.contains(wanted),
{
    let chars = characters(text);
    let mut i: usize = 0;
    while i < chars.len()
        invariant
            i <= chars.len(),
            chars@ == text@,
            forall|j: int| 0 <= j < i ==> chars@[j] != wanted,
        decreases chars.len() - i,
    {
        if chars[i] == wanted {
            return true;
        }
        i += 1;
    }
    false
}

/// Whether `part` stands in `whole` from position `at` on.
fn stands_at(whole: &Vec<char>, part: &Vec<char>, at: usize) -> (stands: bool)
    requires
        at + part.len() <= whole.len(),
    ensures
        stands == occurs_at(part@, whole@, at as int),
{
    let mut i: usize = 0;
    while i < part.len()
        invariant
            i <= part.len(),
            at + part.len() <= whole.len(),
            forall|j: int| 0 <= j < i ==> whole@[at + j] == part@[j],
        decreases part.len() - i,
    {
        if whole[at + i] != part[i] {
            assert(whole@.subrange(at as int, at + part@.len())[i as int] != part@[i as int]);
            return false;
        }
        i += 1;
    }
    assert(whole@.subrange(at as int, at + part@.len()) =~= part@);
    true
}

/// Whether `part` occurs in `whole`.
pub fn contains_text(whole: &str, part: &str) -> (found: bool)
    ensures
        found == occurs_in(part@, whole@),
{
    let whole_chars = characters(whole);
    let part_chars = characters(part);
    if part_chars.len() > whole_chars.len() {
        return false;
    }
    let last: usize = whole_chars.len() - part_chars.len();
    let mut at: usize = 0;
    while at <= last
        invariant
            at <= last + 1,
            whole_chars@ == whole@,
            part_chars@ == part@,
            last + part_chars.len() == whole_chars.len(),
            forall|i: int| 0 <= i < at ==> !occurs_at(part@, whole@, i),
        decreases last + 1 - at,
    {
        if stands_at(&whole_chars, &part_chars, at) {
            return true;
        }
        if at == last {
            return false;
        }
        at += 1;
    }
    false
}

/// Whether two texts hold the same characters.
pub fn same_text(left: &str, right: &str) -> (same: bool)
    ensures
        same == (left@ == right@),
{
    left.to_owned() == right.to_owned()
}

/// A text of its own with the characters of `text`.
pub fn owned(text: &str) -> (copy: String)
    ensures
        copy@ == text@,
{
    text.to_owned()
}

/// The text `before`, then `after`.
pub fn join2(before: &str, after: &str) -> (joined: String)
    ensures
        joined@ == before@ + after@,
{
    let mut joined = before.to_owned();
    joined.append(after);
    joined
}

/// The text `before`, then `middle`, then `after`.
pub fn join3(before: &str, middle: &str, after: &str) -> (joined: String)
    ensures
        joined@ == before@ + middle@ + after@,
{
    let mut joined = before.to_owned();
    joined.append(middle);
    joined.append(after);
    joined
}

} // verus!
