//! Small verified string helpers shared by the allocator and the resolver.

use vstd::prelude::*;

verus! {

/// Relies on `String::push`: appends the given character to the end of
/// the string.
#[verifier::external_body]
pub(crate) fn push_char(s: &mut String, c: char)
    ensures
        final(s)@ == old(s)@.push(c),
{
    s.push(c);
}

/// Character-wise string equality, stated over the views.
pub fn str_eq(a: &str, b: &str) -> (r: bool)
    ensures
        r == (a@ == b@),
{
    let n = a.unicode_len();
    if n != b.unicode_len() {
        return false;
    }
    let mut i: usize = 0;
    while i < n
        invariant
            n == a@.len(),
            n == b@.len(),
            i <= n,
            forall|j: int| 0 <= j < i ==> a@[j] == b@[j],
        decreases n - i,
    {
        if a.get_char(i) != b.get_char(i) {
            return false;
        }
        i += 1;
    }
    proof {
        assert(a@ =~= b@);
    }
    true
}

/// A run of `n` spaces.
pub open spec fn spaces_seq(n: nat) -> Seq<char> {
    Seq::new(n, |i: int| ' ')
}

/// Builds a run of `n` spaces.
pub fn spaces(n: usize) -> (r: String)
    ensures
        r@ == spaces_seq(n as nat),
{
    let mut out = String::new();
    let mut i: usize = 0;
    while i < n
        invariant
            i <= n,
            out@ =~= spaces_seq(i as nat),
        decreases n - i,
    {
        push_char(&mut out, ' ');
        proof {
            assert(out@ =~= spaces_seq((i + 1) as nat));
        }
        i += 1;
    }
    out
}

} // verus!
