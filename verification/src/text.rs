//! Code-point-safe string operations: counting, prefix slicing, and building
//! the repeated padding that keeps a revealed line at constant visible width.

use vstd::prelude::*;

verus! {

/// `unit` concatenated with itself `n` times.
pub open spec fn repeat_seq(unit: Seq<char>, n: nat) -> Seq<char>
    decreases n,
{
    if n == 0 {
        Seq::empty()
    } else {
        repeat_seq(unit, (n - 1) as nat) + unit
    }
}

pub proof fn lemma_repeat_seq_len(unit: Seq<char>, n: nat)
    ensures
        repeat_seq(unit, n).len() == n * unit.len(),
    decreases n,
{
    if n == 0 {
        assert(0 * unit.len() == 0) by (nonlinear_arith);
    } else {
        let m = (n - 1) as nat;
        lemma_repeat_seq_len(unit, m);
        assert(repeat_seq(unit, n) == repeat_seq(unit, m) + unit);
        assert(n * unit.len() == m * unit.len() + unit.len()) by (nonlinear_arith)
            requires
                m + 1 == n,
        ;
    }
}

/// Relies on `utf8_slice::len`: the number of Unicode code points in `s`.
#[verifier::external_body]
pub(crate) fn code_point_len(s: &str) -> (n: usize)
    ensures
        n == s@.len(),
{
    utf8_slice::len(s)
}

/// Relies on `utf8_slice::till`: the prefix made of the first `n` code points
/// of `s`, or all of `s` when `n` is not less than its code-point length.
#[verifier::external_body]
pub(crate) fn code_point_prefix(s: &str, n: usize) -> (r: String)
    ensures
        r@ == s@.subrange(0, vstd::math::min(n as int, s@.len() as int)),
{
    utf8_slice::till(s, n).to_string()
}

/// Appends `n` copies of `unit` to `s`.
pub(crate) fn append_repeated(s: &mut String, unit: &str, n: usize)
    ensures
        final(s)@ == old(s)@ + repeat_seq(unit@, n as nat),
{
    let mut i: usize = 0;
    while i < n
        invariant
            i <= n,
            s@ == old(s)@ + repeat_seq(unit@, i as nat),
        decreases n - i,
    {
        s.append(unit);
        i = i + 1;
    }
}

} // verus!
