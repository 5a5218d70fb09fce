use vstd::prelude::*;

verus! {

/// Equality of two string slices, decided character by character.
pub fn str_eq(a: &str, b: &str) -> (r: bool)
    ensures
        r == (a@ == b@),
{
    let alen = a.unicode_len();
    let blen = b.unicode_len();
    if alen != blen {
        return false;
    }
    let mut i: usize = 0;
    while i < alen
        invariant
            alen == a@.len(),
            blen == b@.len(),
            alen == blen,
            i <= alen,
            forall|j: int| 0 <= j < i ==> a@[j] == b@[j],
        decreases alen - i,
    {
        if a.get_char(i) != b.get_char(i) {
            return false;
        }
        i += 1;
    }
    proof {
        assert(a@ =~= b@);
    }
    true
}

/// The first `max_width` characters of `s`, or all of `s` if it is shorter.
pub fn truncate(s: String, max_width: usize) -> (r: String)
    ensures
        r@ == s@.take(if s@.len() <= max_width {
            s@.len() as int
        } else {
            max_width as int
        }),
{
    let len = s.as_str().unicode_len();
    let n = if len < max_width {
        len
    } else {
        max_width
    };
    let t = s.as_str().substring_char(0, n);
    t.to_owned()
}

} // verus!
