//! Small verified operations on text.
use vstd::prelude::*;

verus! {

/// Whether two strings hold the same characters.
pub fn same_text(a: &str, b: &str) -> (r: bool)
    ensures
        r == (a@ == b@),
{
    let n = a.unicode_len();
    if n != b.unicode_len() {
        return false;
    }
    let mut i: usize = 0;
    while i < n
        invariant
            n == a@.len(),
            n == b@.len(),
            i <= n,
            a@.subrange(0, i as int) == b@.subrange(0, i as int),
        decreases n - i,
    {
        if a.get_char(i) != b.get_char(i) {
            assert(a@[i as int] != b@[i as int]);
            return false;
        }
        assert(a@.subrange(0, i + 1) == a@.subrange(0, i as int).push(a@[i as int]));
        assert(b@.subrange(0, i + 1) == b@.subrange(0, i as int).push(b@[i as int]));
        i = i + 1;
    }
    assert(a@ == a@.subrange(0, n as int));
    assert(b@ == b@.subrange(0, n as int));
    true
}

/// The text wrapped in the markdown strike-through marks `~~`.
pub open spec fn struck(s: Seq<char>) -> Seq<char> {
    seq!['~', '~'] + s + seq!['~', '~']
}

/// Renders `text` struck through: `~~text~~`.
pub fn strike(text: &str) -> (r: String)
    ensures
        r@ == struck(text@),
{
    let marks = "~~";
    proof {
        reveal_strlit("~~");
    }
    let r = String::from_str(marks).concat(text).concat(marks);
    assert(r@ =~= struck(text@));
    r
}

} // verus!
