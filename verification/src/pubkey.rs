//! Account addresses: 32-byte public keys, compared and stored by value.
use vstd::prelude::*;

verus! {

/// Byte `k` (little-endian, `0 <= k < 8`) of a 64-bit word.
pub open spec fn limb_byte(w: u64, k: int) -> u8 {
    if k == 0 {
        (w & 0xffu64) as u8
    } else if k == 1 {
        ((w >> 8u64) & 0xffu64) as u8
    } else if k == 2 {
        ((w >> 16u64) & 0xffu64) as u8
    } else if k == 3 {
        ((w >> 24u64) & 0xffu64) as u8
    } else if k == 4 {
        ((w >> 32u64) & 0xffu64) as u8
    } else if k == 5 {
        ((w >> 40u64) & 0xffu64) as u8
    } else if k == 6 {
        ((w >> 48u64) & 0xffu64) as u8
    } else if k == 7 {
        ((w >> 56u64) & 0xffu64) as u8
    } else {
        0u8
    }
}

/// A 32-byte public key. The bytes are held as four little-endian words, so
/// two keys are equal exactly when their bytes are.
#[derive(Clone, Copy, PartialEq, Eq, Structural, Debug, Hash)]
pub struct Pubkey {
    w0: u64,
    w1: u64,
    w2: u64,
    w3: u64,
}

/// The word that holds bytes `8 * j .. 8 * j + 8` of a key.
pub closed spec fn pubkey_word(key: Pubkey, j: int) -> u64 {
    if j == 0 {
        key.w0
    } else if j == 1 {
        key.w1
    } else if j == 2 {
        key.w2
    } else {
        key.w3
    }
}

impl Pubkey {
    /// The 32 bytes of the key.
    pub closed spec fn spec_bytes(self) -> Seq<u8> {
        Seq::new(32, |i: int| limb_byte(pubkey_word(self, i / 8), i % 8))
    }

    /// The all-zero key, which marks "no key".
    pub closed spec fn spec_default() -> Pubkey {
        Pubkey { w0: 0, w1: 0, w2: 0, w3: 0 }
    }

    /// Builds the key whose bytes are `bytes`.
    pub fn new_from_array(bytes: [u8; 32]) -> (r: Pubkey)
        ensures
            r.spec_bytes() == bytes@,
    {
        let b = bytes;
        let w0 = pack_word(b[0], b[1], b[2], b[3], b[4], b[5], b[6], b[7]);
        let w1 = pack_word(b[8], b[9], b[10], b[11], b[12], b[13], b[14], b[15]);
        let w2 = pack_word(b[16], b[17], b[18], b[19], b[20], b[21], b[22], b[23]);
        let w3 = pack_word(b[24], b[25], b[26], b[27], b[28], b[29], b[30], b[31]);
        let r = Pubkey { w0, w1, w2, w3 };
        assert(r.spec_bytes() =~= bytes@);
        r
    }

    /// The 32 bytes of the key.
    pub fn to_bytes(&self) -> (r: [u8; 32])
        ensures
            r@ == self.spec_bytes(),
    {
        let mut r = [0u8; 32];
        let words = [self.w0, self.w1, self.w2, self.w3];
        let mut j: usize = 0;
        while j < 4
            invariant
                0 <= j <= 4,
                words@ == seq![self.w0, self.w1, self.w2, self.w3],
                forall|i: int| 0 <= i < 8 * j ==> r@[i] == self.spec_bytes()[i],
            decreases 4 - j,
        {
            let w = words[j];
            let mut k: usize = 0;
            while k < 8
                invariant
                    0 <= j < 4,
                    0 <= k <= 8,
                    w == pubkey_word(*self, j as int),
                    forall|i: int| 0 <= i < 8 * j + k ==> r@[i] == self.spec_bytes()[i],
                decreases 8 - k,
            {
                let byte = word_byte(w, k);
                r[8 * j + k] = byte;
                assert((8 * j + k) / 8 == j as int && (8 * j + k) % 8 == k as int) by (nonlinear_arith)
                    requires
                        k < 8,
                ;
                k = k + 1;
            }
            j = j + 1;
        }
        assert(r@ =~= self.spec_bytes());
        r
    }

    /// Whether this is the all-zero key.
    pub fn is_default(&self) -> (r: bool)
        ensures
            r == (*self == Pubkey::spec_default()),
    {
        self.w0 == 0 && self.w1 == 0 && self.w2 == 0 && self.w3 == 0
    }
}

impl Default for Pubkey {
    fn default() -> (r: Pubkey)
        ensures
            r == Pubkey::spec_default(),
    {
        Pubkey { w0: 0, w1: 0, w2: 0, w3: 0 }
    }
}

/// Byte `k` of a word.
fn word_byte(w: u64, k: usize) -> (r: u8)
    requires
        k < 8,
    ensures
        r == limb_byte(w, k as int),
{
    if k == 0 {
        (w & 0xffu64) as u8
    } else if k == 1 {
        ((w >> 8u64) & 0xffu64) as u8
    } else if k == 2 {
        ((w >> 16u64) & 0xffu64) as u8
    } else if k == 3 {
        ((w >> 24u64) & 0xffu64) as u8
    } else if k == 4 {
        ((w >> 32u64) & 0xffu64) as u8
    } else if k == 5 {
        ((w >> 40u64) & 0xffu64) as u8
    } else if k == 6 {
        ((w >> 48u64) & 0xffu64) as u8
    } else {
        ((w >> 56u64) & 0xffu64) as u8
    }
}

/// Packs eight little-endian bytes into a word.
fn pack_word(b0: u8, b1: u8, b2: u8, b3: u8, b4: u8, b5: u8, b6: u8, b7: u8) -> (w: u64)
    ensures
        limb_byte(w, 0) == b0,
        limb_byte(w, 1) == b1,
        limb_byte(w, 2) == b2,
        limb_byte(w, 3) == b3,
        limb_byte(w, 4) == b4,
        limb_byte(w, 5) == b5,
        limb_byte(w, 6) == b6,
        limb_byte(w, 7) == b7,
{
    let w = (b0 as u64) | ((b1 as u64) << 8u64) | ((b2 as u64) << 16u64) | ((b3 as u64) << 24u64)
        | ((b4 as u64) << 32u64) | ((b5 as u64) << 40u64) | ((b6 as u64) << 48u64) | ((b7 as u64)
        << 56u64);
    proof {
        lemma_pack_word(b0, b1, b2, b3, b4, b5, b6, b7);
    }
    w
}

proof fn lemma_pack_word(b0: u8, b1: u8, b2: u8, b3: u8, b4: u8, b5: u8, b6: u8, b7: u8)
    ensures
        ({
            let w = (b0 as u64) | ((b1 as u64) << 8u64) | ((b2 as u64) << 16u64) | ((b3 as u64)
                << 24u64) | ((b4 as u64) << 32u64) | ((b5 as u64) << 40u64) | ((b6 as u64) << 48u64)
                | ((b7 as u64) << 56u64);
            &&& (w & 0xffu64) as u8 == b0
            &&& ((w >> 8u64) & 0xffu64) as u8 == b1
            &&& ((w >> 16u64) & 0xffu64) as u8 == b2
            &&& ((w >> 24u64) & 0xffu64) as u8 == b3
            &&& ((w >> 32u64) & 0xffu64) as u8 == b4
            &&& ((w >> 40u64) & 0xffu64) as u8 == b5
            &&& ((w >> 48u64) & 0xffu64) as u8 == b6
            &&& ((w >> 56u64) & 0xffu64) as u8 == b7
        }),
{
    assert({
        let w = (b0 as u64) | ((b1 as u64) << 8u64) | ((b2 as u64) << 16u64) | ((b3 as u64)
            << 24u64) | ((b4 as u64) << 32u64) | ((b5 as u64) << 40u64) | ((b6 as u64) << 48u64)
            | ((b7 as u64) << 56u64);
        &&& (w & 0xffu64) as u8 == b0
        &&& ((w >> 8u64) & 0xffu64) as u8 == b1
        &&& ((w >> 16u64) & 0xffu64) as u8 == b2
        &&& ((w >> 24u64) & 0xffu64) as u8 == b3
        &&& ((w >> 32u64) & 0xffu64) as u8 == b4
        &&& ((w >> 40u64) & 0xffu64) as u8 == b5
        &&& ((w >> 48u64) & 0xffu64) as u8 == b6
        &&& ((w >> 56u64) & 0xffu64) as u8 == b7
    }) by (bit_vector);
}

/// A word is determined by its eight bytes.
proof fn lemma_word_bytes_determine(a: u64, b: u64)
    requires
        forall|k: int| 0 <= k < 8 ==> limb_byte(a, k) == limb_byte(b, k),
    ensures
        a == b,
{
    assert(limb_byte(a, 0) == limb_byte(b, 0));
    assert(limb_byte(a, 1) == limb_byte(b, 1));
    assert(limb_byte(a, 2) == limb_byte(b, 2));
    assert(limb_byte(a, 3) == limb_byte(b, 3));
    assert(limb_byte(a, 4) == limb_byte(b, 4));
    assert(limb_byte(a, 5) == limb_byte(b, 5));
    assert(limb_byte(a, 6) == limb_byte(b, 6));
    assert(limb_byte(a, 7) == limb_byte(b, 7));
    assert(a == b) by (bit_vector)
        requires
            (a & 0xffu64) as u8 == (b & 0xffu64) as u8,
            ((a >> 8u64) & 0xffu64) as u8 == ((b >> 8u64) & 0xffu64) as u8,
            ((a >> 16u64) & 0xffu64) as u8 == ((b >> 16u64) & 0xffu64) as u8,
            ((a >> 24u64) & 0xffu64) as u8 == ((b >> 24u64) & 0xffu64) as u8,
            ((a >> 32u64) & 0xffu64) as u8 == ((b >> 32u64) & 0xffu64) as u8,
            ((a >> 40u64) & 0xffu64) as u8 == ((b >> 40u64) & 0xffu64) as u8,
            ((a >> 48u64) & 0xffu64) as u8 == ((b >> 48u64) & 0xffu64) as u8,
            ((a >> 56u64) & 0xffu64) as u8 == ((b >> 56u64) & 0xffu64) as u8,
    ;
}

/// Two keys are equal exactly when their bytes are equal.
pub proof fn lemma_pubkey_eq_iff_bytes_eq(a: Pubkey, b: Pubkey)
    ensures
        (a == b) <==> (a.spec_bytes() == b.spec_bytes()),
{
    if a.spec_bytes() == b.spec_bytes() {
        assert forall|k: int| 0 <= k < 8 implies limb_byte(a.w0, k) == limb_byte(b.w0, k) by {
            assert(a.spec_bytes()[k] == b.spec_bytes()[k]);
        }
        assert forall|k: int| 0 <= k < 8 implies limb_byte(a.w1, k) == limb_byte(b.w1, k) by {
            assert(a.spec_bytes()[8 + k] == b.spec_bytes()[8 + k]);
        }
        assert forall|k: int| 0 <= k < 8 implies limb_byte(a.w2, k) == limb_byte(b.w2, k) by {
            assert(a.spec_bytes()[16 + k] == b.spec_bytes()[16 + k]);
        }
        assert forall|k: int| 0 <= k < 8 implies limb_byte(a.w3, k) == limb_byte(b.w3, k) by {
            assert(a.spec_bytes()[24 + k] == b.spec_bytes()[24 + k]);
        }
        lemma_word_bytes_determine(a.w0, b.w0);
        lemma_word_bytes_determine(a.w1, b.w1);
        lemma_word_bytes_determine(a.w2, b.w2);
        lemma_word_bytes_determine(a.w3, b.w3);
    }
}

/// The all-zero key has thirty-two zero bytes.
pub proof fn lemma_default_bytes()
    ensures
        Pubkey::spec_default().spec_bytes() =~= Seq::new(32, |i: int| 0u8),
{
    assert forall|i: int| 0 <= i < 32 implies Pubkey::spec_default().spec_bytes()[i] == 0u8 by {
        assert((0u64 & 0xffu64) == 0u64) by (bit_vector);
        assert(forall|s: u64| ((0u64 >> s) & 0xffu64) == 0u64) by (bit_vector);
    }
}

/// Converting bytes to a key and back returns the same bytes.
pub proof fn lemma_pubkey_bytes_roundtrip(bytes: [u8; 32], key: Pubkey)
    requires
        key.spec_bytes() == bytes@,
    ensures
        key.spec_bytes() =~= bytes@,
{
}

} // verus!
