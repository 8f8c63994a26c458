use vstd::prelude::*;

verus! {

/// `String::push` of the standard library: the character is added at the
/// end.
pub assume_specification[ String::push ](s: &mut String, c: char)
    ensures
        final(s)@ == old(s)@.push(c),
;

/// Whether two string slices hold the same characters.
pub fn str_equals(a: &str, b: &str) -> (same: bool)
    ensures
        same == (a@ == b@),
{
    let x = a.to_owned();
    let y = b.to_owned();
    x == y
}

/// The characters of a string, one by one.
pub fn chars_of(s: &str) -> (chars: Vec<char>)
    ensures
        chars@ == s@,
{
    let mut chars: Vec<char> = Vec::new();
    for c in it: s.chars()
        invariant
            it.seq() == s@,
            chars@ == s@.take(it.index()),
    {
        chars.push(c);
        assert(s@.take(it.index() + 1) =~= s@.take(it.index()).push(s@[it.index()]));
    }
    assert(s@.take(s@.len() as int) =~= s@);
    chars
}

/// Two characters are the same letter when ASCII case is set aside. The
/// second one is expected in lower case.
pub open spec fn same_letter(c: char, lower: char) -> bool {
    c == lower || ('A' <= c <= 'Z' && c as u32 + 32 == lower as u32)
}

/// `pattern` stands in `text` at offset `at`, ASCII case set aside.
pub open spec fn occurs_at(text: Seq<char>, pattern: Seq<char>, at: int) -> bool {
    &&& 0 <= at
    &&& at + pattern.len() <= text.len()
    &&& forall|j: int| 0 <= j < pattern.len() ==> same_letter(#[trigger] text[at + j], pattern[j])
}

/// `pattern`, given in lower case, stands somewhere in `text` when ASCII case
/// is set aside.
pub open spec fn contains_ignoring_case(text: Seq<char>, pattern: Seq<char>) -> bool {
    exists|at: int| occurs_at(text, pattern, at)
}

fn letter_matches(c: char, lower: char) -> (same: bool)
    ensures
        same == same_letter(c, lower),
{
    c == lower || (c >= 'A' && c <= 'Z' && (c as u32) + 32 == (lower as u32))
}

fn matches_at(text: &Vec<char>, pattern: &Vec<char>, at: usize) -> (found: bool)
    requires
        at + pattern@.len() <= text@.len(),
    ensures
        found == occurs_at(text@, pattern@, at as int),
{
    let text_len = text.len();
    let mut j: usize = 0;
    while j < pattern.len()
        invariant
            j <= pattern@.len(),
            at + pattern@.len() <= text@.len(),
            text_len == text@.len(),
            forall|k: int| 0 <= k < j ==> same_letter(#[trigger] text@[at + k], pattern@[k]),
        decreases pattern@.len() - j,
    {
        if !letter_matches(text[at + j], pattern[j]) {
            assert(!same_letter(text@[at + j], pattern@[j as int]));
            return false;
        }
        j += 1;
    }
    true
}

/// Substring search that sets ASCII case aside; `pattern` is in lower case.
pub fn contains_ignore_case(text: &Vec<char>, pattern: &Vec<char>) -> (found: bool)
    ensures
        found == contains_ignoring_case(text@, pattern@),
{
    if pattern.len() > text.len() {
        assert forall|at: int| !occurs_at(text@, pattern@, at) by {}
        return false;
    }
    let last: usize = text.len() - pattern.len();
    let mut at: usize = 0;
    loop
        invariant
            last == text@.len() - pattern@.len(),
            at <= last,
            forall|k: int| 0 <= k < at ==> !occurs_at(text@, pattern@, k),
        ensures
            forall|k: int| 0 <= k <= last ==> !occurs_at(text@, pattern@, k),
        decreases last - at,
    {
        if matches_at(text, pattern, at) {
            return true;
        }
        if at == last {
            break;
        }
        at += 1;
    }
    assert forall|k: int| !occurs_at(text@, pattern@, k) by {
        if 0 <= k && k + pattern@.len() <= text@.len() {
            assert(k <= last);
        }
    }
    false
}

} // verus!
