//! Whitespace tokenization of byte lines: a line is split into maximal runs
//! of non-whitespace bytes, in order.

use vstd::prelude::*;

verus! {

/// Bytes the line protocol treats as whitespace: space, tab, carriage
/// return, newline.
pub open spec fn is_sep_byte(b: u8) -> bool {
    b == 32 || b == 9 || b == 13 || b == 10
}

/// End of the token starting at `i`: the first position at or after `i`
/// holding a whitespace byte, or `s.len()`.
pub open spec fn tok_end(s: Seq<u8>, i: int) -> int
    decreases s.len() - i,
{
    if i < 0 || i >= s.len() || is_sep_byte(s[i]) {
        i
    } else {
        tok_end(s, i + 1)
    }
}

/// The tokens of `s` from position `i` on.
pub open spec fn tokens_from(s: Seq<u8>, i: int) -> Seq<Seq<u8>>
    decreases s.len() - i,
{
    if i < 0 || i >= s.len() {
        Seq::empty()
    } else if is_sep_byte(s[i]) {
        tokens_from(s, i + 1)
    } else {
        let e = tok_end(s, i);
        let next = if i < e <= s.len() { e } else { i + 1 };
        seq![s.subrange(i, next)] + tokens_from(s, next)
    }
}

/// The whitespace-separated tokens of `s`.
pub open spec fn spec_tokens(s: Seq<u8>) -> Seq<Seq<u8>> {
    tokens_from(s, 0)
}

/// Where the end of a token lies, relative to its start.
pub proof fn lemma_tok_end_bounds(s: Seq<u8>, i: int)
    requires
        0 <= i <= s.len(),
    ensures
        i <= tok_end(s, i) <= s.len(),
        i < s.len() && !is_sep_byte(s[i]) ==> tok_end(s, i) > i,
        forall|k: int| i <= k < tok_end(s, i) ==> !is_sep_byte(s[k]),
        tok_end(s, i) < s.len() ==> is_sep_byte(s[tok_end(s, i)]),
    decreases s.len() - i,
{
    if i < s.len() && !is_sep_byte(s[i]) {
        lemma_tok_end_bounds(s, i + 1);
    }
}

/// Whether `b` is an ASCII space, tab, carriage return, or newline.
pub fn sep_byte(b: u8) -> (r: bool)
    ensures
        r == is_sep_byte(b),
{
    b == 32 || b == 9 || b == 13 || b == 10
}

/// Copies `s[from..to]` into a fresh vector.
pub fn copy_range(s: &[u8], from: usize, to: usize) -> (out: Vec<u8>)
    requires
        from <= to <= s@.len(),
    ensures
        out@ == s@.subrange(from as int, to as int),
{
    let mut out: Vec<u8> = Vec::new();
    let mut k: usize = from;
    while k < to
        invariant
            from <= k <= to <= s@.len(),
            out@ == s@.subrange(from as int, k as int),
        decreases to - k,
    {
        out.push(s[k]);
        assert(out@ =~= s@.subrange(from as int, k + 1));
        k = k + 1;
    }
    out
}

/// Splits a byte line into its whitespace-separated tokens.
pub fn tokenize_bytes(line: &[u8]) -> (tokens: Vec<Vec<u8>>)
    ensures
        tokens@.len() == spec_tokens(line@).len(),
        forall|k: int| 0 <= k < tokens@.len() ==> tokens@[k]@ == spec_tokens(line@)[k],
{
    let ghost all = spec_tokens(line@);
    let mut tokens: Vec<Vec<u8>> = Vec::new();
    let mut i: usize = 0;
    while i < line.len()
        invariant
            i <= line@.len(),
            all == spec_tokens(line@),
            tokens@.len() + tokens_from(line@, i as int).len() == all.len(),
            forall|k: int| 0 <= k < tokens@.len() ==> tokens@[k]@ == all[k],
            tokens_from(line@, i as int) == all.skip(tokens@.len() as int),
        decreases line@.len() - i,
    {
        if sep_byte(line[i]) {
            i = i + 1;
        } else {
            let ghost e = tok_end(line@, i as int);
            proof {
                lemma_tok_end_bounds(line@, i as int);
            }
            let mut j: usize = i;
            while j < line.len() && !sep_byte(line[j])
                invariant
                    i <= j <= line@.len(),
                    e == tok_end(line@, j as int),
                decreases line@.len() - j,
            {
                j = j + 1;
            }
            assert(e == j);
            let token = copy_range(line, i, j);
            proof {
                let rest = tokens_from(line@, e);
                assert(tokens_from(line@, i as int) == seq![line@.subrange(i as int, e)] + rest);
                assert(tokens_from(line@, i as int)[0] == line@.subrange(i as int, e));
                assert(all.skip(tokens@.len() as int)[0] == all[tokens@.len() as int]);
                assert((seq![line@.subrange(i as int, e)] + rest).skip(1) =~= rest);
                assert(all.skip(tokens@.len() as int).skip(1) =~= all.skip(tokens@.len() as int + 1));
            }
            tokens.push(token);
            i = j;
        }
    }
    proof {
        assert(tokens_from(line@, line@.len() as int) =~= Seq::<Seq<u8>>::empty());
        assert(tokens@.len() == all.len());
    }
    tokens
}

} // verus!
