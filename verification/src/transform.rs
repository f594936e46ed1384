//! The byte-level transform: collapse each CRLF pair to a single LF.
//!
//! The transform scans left to right; a `\r` immediately followed by `\n`
//! is replaced by the single byte `\n`, every other byte is kept unchanged
//! and in order. A lone `\r` (at the end of the buffer, or followed by a
//! byte other than `\n`) is preserved.

use vstd::prelude::*;

verus! {

/// What the transform returns, as a function on byte sequences: the first
/// CRLF pair found while scanning from the left collapses to LF, every
/// other byte is kept.
pub open spec fn normalized(s: Seq<u8>) -> Seq<u8>
    decreases s.len(),
{
    if s.len() == 0 {
        Seq::<u8>::empty()
    } else if s.len() >= 2 && s[0] == 13 && s[1] == 10 {
        seq![10u8] + normalized(s.skip(2))
    } else {
        seq![s[0]] + normalized(s.skip(1))
    }
}

/// The sequence contains a CRLF pair somewhere.
pub open spec fn has_crlf(s: Seq<u8>) -> bool
    decreases s.len(),
{
    if s.len() < 2 {
        false
    } else {
        (s[0] == 13 && s[1] == 10) || has_crlf(s.skip(1))
    }
}

/// The number of CRLF pairs the scanner collapses; each one shortens the
/// output by one byte.
pub open spec fn crlf_pairs(s: Seq<u8>) -> nat
    decreases s.len(),
{
    if s.len() == 0 {
        0
    } else if s.len() >= 2 && s[0] == 13 && s[1] == 10 {
        1 + crlf_pairs(s.skip(2))
    } else {
        crlf_pairs(s.skip(1))
    }
}

/// Convert CRLF line endings to LF.
pub fn convert_crlf_to_lf(content: &[u8]) -> (result: Vec<u8>)
    ensures
        result@ == normalized(content@),
{
    let n = content.len();
    let mut result: Vec<u8> = Vec::new();
    let mut i: usize = 0;
    proof {
        assert(content@.skip(0) =~= content@);
        assert(Seq::<u8>::empty() + normalized(content@) =~= normalized(content@));
    }
    while i < n
        invariant
            n == content@.len(),
            i <= n,
            normalized(content@) == result@ + normalized(content@.skip(i as int)),
        decreases n - i,
    {
        if i + 1 < n && content[i] == 13u8 && content[i + 1] == 10u8 {
            proof {
                assert(content@.skip(i as int).skip(2) =~= content@.skip(i as int + 2));
                assert(normalized(content@.skip(i as int)) == seq![10u8] + normalized(
                    content@.skip(i as int + 2),
                ));
                assert(result@ + (seq![10u8] + normalized(content@.skip(i as int + 2))) =~= (
                result@ + seq![10u8]) + normalized(content@.skip(i as int + 2)));
                assert(result@ + seq![10u8] =~= result@.push(10u8));
            }
            result.push(10u8);
            i += 2;
        } else {
            let b = content[i];
            proof {
                assert(content@.skip(i as int).skip(1) =~= content@.skip(i as int + 1));
                assert(normalized(content@.skip(i as int)) == seq![content@[i as int]]
                    + normalized(content@.skip(i as int + 1)));
                assert(result@ + (seq![content@[i as int]] + normalized(
                    content@.skip(i as int + 1),
                )) =~= (result@ + seq![content@[i as int]]) + normalized(
                    content@.skip(i as int + 1),
                ));
                assert(result@ + seq![content@[i as int]] =~= result@.push(content@[i as int]));
            }
            result.push(b);
            i += 1;
        }
    }
    proof {
        assert(content@.skip(n as int) =~= Seq::<u8>::empty());
        assert(result@ + Seq::<u8>::empty() =~= result@);
    }
    result
}

/// Whether the buffer contains a CRLF pair.
pub fn contains_crlf(content: &[u8]) -> (found: bool)
    ensures
        found == has_crlf(content@),
{
    let n = content.len();
    if n < 2 {
        return false;
    }
    let mut i: usize = 0;
    proof {
        assert(content@.skip(0) =~= content@);
    }
    while i < n - 1
        invariant
            n == content@.len(),
            2 <= n,
            i <= n - 1,
            has_crlf(content@) == has_crlf(content@.skip(i as int)),
        decreases n - i,
    {
        if content[i] == 13u8 && content[i + 1] == 10u8 {
            assert(has_crlf(content@.skip(i as int)));
            return true;
        }
        proof {
            assert(content@.skip(i as int).skip(1) =~= content@.skip(i as int + 1));
        }
        i += 1;
    }
    assert(!has_crlf(content@.skip(i as int)));
    false
}

/// The buffer contains the three bytes CR CR LF in a row: the one shape of
/// input on which the scanner keeps a `\r` and then emits a `\n` right
/// after it, so that the output still contains a CRLF pair.
pub open spec fn has_cr_cr_lf(s: Seq<u8>) -> bool
    decreases s.len(),
{
    if s.len() < 3 {
        false
    } else {
        (s[0] == 13 && s[1] == 13 && s[2] == 10) || has_cr_cr_lf(s.skip(1))
    }
}

/// On input without any CRLF pair the transform is the identity.
pub proof fn lemma_convert_identity(s: Seq<u8>)
    requires
        !has_crlf(s),
    ensures
        normalized(s) == s,
    decreases s.len(),
{
    if s.len() == 0 {
        assert(normalized(s) =~= s);
    } else {
        assert(!has_crlf(s.skip(1)));
        lemma_convert_identity(s.skip(1));
        assert(normalized(s) =~= s);
    }
}

/// Each CRLF pair the scanner collapses shortens the output by exactly one
/// byte; nothing else changes the length.
pub proof fn lemma_convert_len(s: Seq<u8>)
    ensures
        normalized(s).len() + crlf_pairs(s) == s.len(),
    decreases s.len(),
{
    if s.len() == 0 {
    } else if s.len() >= 2 && s[0] == 13 && s[1] == 10 {
        lemma_convert_len(s.skip(2));
    } else {
        lemma_convert_len(s.skip(1));
    }
}

/// The scanner finds a pair to collapse exactly when the buffer contains a
/// CRLF pair at all.
pub proof fn lemma_crlf_pairs_zero(s: Seq<u8>)
    ensures
        (crlf_pairs(s) == 0) <==> !has_crlf(s),
    decreases s.len(),
{
    if s.len() == 0 {
    } else if s.len() >= 2 && s[0] == 13 && s[1] == 10 {
    } else {
        lemma_crlf_pairs_zero(s.skip(1));
    }
}

/// The output is never longer than the input, and it has the same length
/// exactly when the input contains no CRLF pair.
pub proof fn lemma_convert_shrinks(s: Seq<u8>)
    ensures
        normalized(s).len() <= s.len(),
        (normalized(s).len() == s.len()) <==> !has_crlf(s),
{
    lemma_convert_len(s);
    lemma_crlf_pairs_zero(s);
}

/// The first byte of the output: a collapsed pair starts it with LF,
/// anything else keeps the input's first byte.
proof fn lemma_normalized_first(s: Seq<u8>)
    requires
        s.len() > 0,
    ensures
        normalized(s).len() > 0,
        normalized(s)[0] == (if s.len() >= 2 && s[0] == 13 && s[1] == 10 {
            10u8
        } else {
            s[0]
        }),
{
}

/// On input without the three-byte run CR CR LF, the output contains no
/// CRLF pair. (On input that does contain that run, the kept `\r` lands
/// right before an emitted `\n`, so the output does contain one.)
pub proof fn lemma_convert_no_crlf(s: Seq<u8>)
    requires
        !has_cr_cr_lf(s),
    ensures
        !has_crlf(normalized(s)),
    decreases s.len(),
{
    if s.len() == 0 {
    } else if s.len() >= 2 && s[0] == 13 && s[1] == 10 {
        assert(!has_cr_cr_lf(s.skip(1)));
        assert(s.skip(1).skip(1) =~= s.skip(2));
        assert(!has_cr_cr_lf(s.skip(2)));
        lemma_convert_no_crlf(s.skip(2));
        let t = normalized(s.skip(2));
        assert((seq![10u8] + t).skip(1) =~= t);
        assert(!has_crlf(seq![10u8] + t));
    } else {
        assert(!has_cr_cr_lf(s.skip(1)));
        lemma_convert_no_crlf(s.skip(1));
        let t = normalized(s.skip(1));
        assert((seq![s[0]] + t).skip(1) =~= t);
        if s[0] == 13 && t.len() > 0 {
            lemma_normalized_first(s.skip(1));
            assert(t[0] != 10);
        }
        assert(!has_crlf(seq![s[0]] + t));
    }
}

/// Applying the transform twice gives the same bytes as applying it once,
/// on every input without the three-byte run CR CR LF.
pub proof fn lemma_convert_idempotent(s: Seq<u8>)
    requires
        !has_cr_cr_lf(s),
    ensures
        normalized(normalized(s)) == normalized(s),
{
    lemma_convert_no_crlf(s);
    lemma_convert_identity(normalized(s));
}

/// The restriction of the idempotence law is exact: on input that does
/// contain the run CR CR LF, the output keeps a CRLF pair, and a second
/// application of the transform shortens it further.
pub proof fn lemma_cr_cr_lf_defeats_idempotence(s: Seq<u8>)
    requires
        has_cr_cr_lf(s),
    ensures
        has_crlf(normalized(s)),
        normalized(normalized(s)) != normalized(s),
    decreases s.len(),
{
    assert(s.len() >= 3);
    if s[0] == 13 && s[1] == 10 {
        // The run cannot start at position 0 or 1, so it lies in s.skip(2).
        assert(has_cr_cr_lf(s.skip(1)));
        assert(s.skip(1).skip(1) =~= s.skip(2));
        assert(has_cr_cr_lf(s.skip(2)));
        lemma_cr_cr_lf_defeats_idempotence(s.skip(2));
        let t = normalized(s.skip(2));
        assert(normalized(s) == seq![10u8] + t);
        assert((seq![10u8] + t).skip(1) =~= t);
        assert(has_crlf(seq![10u8] + t));
    } else if s[0] == 13 && s[1] == 13 && s[2] == 10 {
        // The kept `\r` is followed by the `\n` the collapsed pair emits.
        lemma_normalized_first(s.skip(1));
        let t = normalized(s.skip(1));
        assert(s.skip(1)[0] == 13 && s.skip(1)[1] == 10);
        assert(t[0] == 10);
        assert(normalized(s) == seq![s[0]] + t);
        assert((seq![s[0]] + t)[0] == 13 && (seq![s[0]] + t)[1] == 10);
        assert(has_crlf(seq![s[0]] + t));
    } else {
        // The run lies in s.skip(1), and the first byte is kept.
        assert(has_cr_cr_lf(s.skip(1)));
        lemma_cr_cr_lf_defeats_idempotence(s.skip(1));
        let t = normalized(s.skip(1));
        assert(normalized(s) == seq![s[0]] + t);
        assert((seq![s[0]] + t).skip(1) =~= t);
        assert(has_crlf(seq![s[0]] + t));
    }
    lemma_convert_shrinks(normalized(s));
}

/// `has_crlf` says exactly that some position holds CR with LF right
/// after it.
pub proof fn lemma_has_crlf_iff(s: Seq<u8>)
    ensures
        has_crlf(s) <==> (exists|i: int| 0 <= i && i + 1 < s.len() && #[trigger] s[i] == 13 && s[i + 1] == 10),
    decreases s.len(),
{
    if s.len() < 2 {
        assert(!(exists|i: int| 0 <= i && i + 1 < s.len() && #[trigger] s[i] == 13 && s[i + 1] == 10));
    } else {
        lemma_has_crlf_iff(s.skip(1));
        if s[0] == 13 && s[1] == 10 {
            assert(0 <= 0int && 0int + 1 < s.len() && s[0int] == 13 && s[0int + 1] == 10);
        } else {
            if has_crlf(s.skip(1)) {
                let t = s.skip(1);
                let j = choose|j: int|
                    0 <= j && j + 1 < t.len() && #[trigger] t[j] == 13 && t[j + 1] == 10;
                assert(s[j + 1] == 13 && s[j + 1 + 1] == 10);
            }
            if exists|i: int| 0 <= i && i + 1 < s.len() && #[trigger] s[i] == 13 && s[i + 1] == 10 {
                let i = choose|i: int| 0 <= i && i + 1 < s.len() && #[trigger] s[i] == 13 && s[i + 1] == 10;
                assert(i >= 1);
                assert(s.skip(1)[i - 1] == 13 && s.skip(1)[i - 1 + 1] == 10);
                assert(has_crlf(s.skip(1)));
            }
        }
    }
}

} // verus!
