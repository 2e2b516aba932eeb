//! Turning fixed-size byte fields into display strings.
use vstd::prelude::*;

verus! {

/// The text that `String::from_utf8_lossy` makes of `bytes`: valid UTF-8 is
/// decoded, and each invalid sequence becomes U+FFFD.
pub uninterp spec fn spec_utf8_lossy(bytes: Seq<u8>) -> Seq<char>;

/// Decodes `bytes` as UTF-8, replacing invalid sequences, through
/// `String::from_utf8_lossy`. The contract only names the result.
#[verifier::external_body]
pub(crate) fn utf8_lossy(bytes: &[u8]) -> (s: String)
    ensures
        s@ == spec_utf8_lossy(bytes@),
{
    String::from_utf8_lossy(bytes).into_owned()
}

/// Index of the first non-zero byte at or after `from`, or `bytes.len()`.
pub open spec fn first_nonzero_from(bytes: Seq<u8>, from: int) -> int
    decreases bytes.len() - from,
{
    if from >= bytes.len() {
        bytes.len() as int
    } else if bytes[from] != 0 {
        from
    } else {
        first_nonzero_from(bytes, from + 1)
    }
}

/// One past the last non-zero byte before `to`, or 0.
pub open spec fn last_nonzero_before(bytes: Seq<u8>, to: int) -> int
    decreases to,
{
    if to <= 0 {
        0
    } else if bytes[to - 1] != 0 {
        to
    } else {
        last_nonzero_before(bytes, to - 1)
    }
}

/// `bytes` without its leading and trailing zero bytes.
pub open spec fn trim_zeros(bytes: Seq<u8>) -> Seq<u8> {
    let start = first_nonzero_from(bytes, 0);
    if start >= bytes.len() {
        Seq::empty()
    } else {
        bytes.subrange(start, last_nonzero_before(bytes, bytes.len() as int))
    }
}

proof fn lemma_first_nonzero_bounds(bytes: Seq<u8>, from: int)
    requires
        0 <= from <= bytes.len(),
    ensures
        from <= first_nonzero_from(bytes, from) <= bytes.len(),
        first_nonzero_from(bytes, from) < bytes.len() ==> bytes[first_nonzero_from(bytes, from)]
            != 0,
        forall|i: int| from <= i < first_nonzero_from(bytes, from) ==> bytes[i] == 0,
    decreases bytes.len() - from,
{
    if from < bytes.len() && bytes[from] == 0 {
        lemma_first_nonzero_bounds(bytes, from + 1);
    }
}

proof fn lemma_last_nonzero_bounds(bytes: Seq<u8>, to: int)
    requires
        0 <= to <= bytes.len(),
    ensures
        0 <= last_nonzero_before(bytes, to) <= to,
        last_nonzero_before(bytes, to) > 0 ==> bytes[last_nonzero_before(bytes, to) - 1] != 0,
        forall|i: int| last_nonzero_before(bytes, to) <= i < to ==> bytes[i] == 0,
    decreases to,
{
    if to > 0 && bytes[to - 1] == 0 {
        lemma_last_nonzero_bounds(bytes, to - 1);
    }
}

/// `bytes` with leading and trailing zero bytes removed.
pub fn trim_zero_bytes(bytes: &[u8]) -> (r: Vec<u8>)
    ensures
        r@ == trim_zeros(bytes@),
{
    let n = bytes.len();
    let mut start: usize = 0;
    while start < n && bytes[start] == 0
        invariant
            0 <= start <= n,
            n == bytes@.len(),
            forall|i: int| 0 <= i < start ==> bytes@[i] == 0,
            first_nonzero_from(bytes@, start as int) == first_nonzero_from(bytes@, 0),
        decreases n - start,
    {
        start = start + 1;
    }
    proof {
        lemma_first_nonzero_bounds(bytes@, 0);
    }
    let mut r: Vec<u8> = Vec::new();
    if start >= n {
        assert(r@ =~= trim_zeros(bytes@));
        return r;
    }
    let mut end: usize = n;
    while end > 0 && bytes[end - 1] == 0
        invariant
            0 <= end <= n,
            n == bytes@.len(),
            start < n,
            bytes@[start as int] != 0,
            last_nonzero_before(bytes@, end as int) == last_nonzero_before(bytes@, n as int),
        decreases end,
    {
        end = end - 1;
    }
    proof {
        lemma_last_nonzero_bounds(bytes@, n as int);
    }
    assert(start < end) by {
        if end <= start {
            assert(bytes@[start as int] == 0);
        }
    }
    let mut i = start;
    while i < end
        invariant
            start <= i <= end,
            end <= n,
            n == bytes@.len(),
            r@ == bytes@.subrange(start as int, i as int),
        decreases end - i,
    {
        r.push(bytes[i]);
        i = i + 1;
        assert(r@ =~= bytes@.subrange(start as int, i as int));
    }
    r
}

} // verus!
