//! Glyph-sequence arithmetic: repeating a glyph a given number of times and
//! producing runs of blank padding, together with the length lemmas the
//! renderer's contracts rest on.

use vstd::prelude::*;
use vstd::string::StringExecFns;

verus! {

/// The glyph sequence `g` concatenated with itself `n` times.
pub open spec fn repeat_seq(g: Seq<char>, n: nat) -> Seq<char>
    decreases n,
{
    if n == 0 {
        Seq::empty()
    } else {
        repeat_seq(g, (n - 1) as nat) + g
    }
}

/// A run of `n` blank (space) characters.
pub open spec fn blank_seq(n: nat) -> Seq<char> {
    Seq::new(n, |i: int| ' ')
}

/// Repeating a glyph `n` times yields `n` times its width in characters.
pub proof fn lemma_repeat_seq_len(g: Seq<char>, n: nat)
    ensures
        repeat_seq(g, n).len() == n * g.len(),
    decreases n,
{
    if n > 0 {
        lemma_repeat_seq_len(g, (n - 1) as nat);
        assert(repeat_seq(g, n).len() == (n - 1) as nat * g.len() + g.len());
        assert((n - 1) as nat * g.len() + g.len() == n * g.len()) by (nonlinear_arith)
            requires
                n > 0,
        ;
    } else {
        assert(n * g.len() == 0) by (nonlinear_arith)
            requires
                n == 0,
        ;
    }
}

/// Builds the string consisting of `g` repeated `n` times.
pub fn repeat_str(g: &str, n: usize) -> (r: String)
    ensures
        r@ == repeat_seq(g@, n as nat),
{
    let mut s = String::new();
    let mut k: usize = 0;
    while k < n
        invariant
            k <= n,
            s@ == repeat_seq(g@, k as nat),
        decreases n - k,
    {
        s.append(g);
        k = k + 1;
        proof {
            assert(s@ == repeat_seq(g@, k as nat));
        }
    }
    s
}

/// Builds the string of `n` blank characters.
pub fn blank_str(n: usize) -> (r: String)
    ensures
        r@ == blank_seq(n as nat),
{
    let mut s = String::new();
    let mut k: usize = 0;
    while k < n
        invariant
            k <= n,
            s@ =~= blank_seq(k as nat),
        decreases n - k,
    {
        s.append(" ");
        proof {
            reveal_strlit(" ");
            assert(s@ =~= blank_seq((k + 1) as nat));
        }
        k = k + 1;
    }
    proof {
        assert(s@ =~= blank_seq(n as nat));
    }
    s
}

} // verus!
