use vstd::prelude::*;

verus! {

/// Smallest value each generator word may hold: below these the low-order
/// bits that the recurrence discards are all that is left, and the period
/// collapses.
pub const MIN_Z1: u32 = 2;
pub const MIN_Z2: u32 = 8;
pub const MIN_Z3: u32 = 16;

/// The generator's state as three words.
pub type TausState = (u32, u32, u32);

/// One shift-xor feedback update of the first word.
pub open spec fn feed1(z: u32) -> u32 {
    ((z & 0xFFFF_FFFEu32) << 12u32) ^ (((z << 13u32) ^ z) >> 19u32)
}

/// One shift-xor feedback update of the second word.
pub open spec fn feed2(z: u32) -> u32 {
    ((z & 0xFFFF_FFF8u32) << 4u32) ^ (((z << 2u32) ^ z) >> 25u32)
}

/// One shift-xor feedback update of the third word.
pub open spec fn feed3(z: u32) -> u32 {
    ((z & 0xFFFF_FFF0u32) << 17u32) ^ (((z << 3u32) ^ z) >> 11u32)
}

/// The state after one step of the generator.
pub open spec fn advance(s: TausState) -> TausState {
    (feed1(s.0), feed2(s.1), feed3(s.2))
}

/// The word a state hands out: the xor of its three words.
pub open spec fn emitted(s: TausState) -> u32 {
    s.0 ^ s.1 ^ s.2
}

/// The state after `n` steps.
pub open spec fn advance_n(s: TausState, n: nat) -> TausState
    decreases n,
{
    if n == 0 {
        s
    } else {
        advance(advance_n(s, (n - 1) as nat))
    }
}

/// The `j`-th word produced from state `s` (counting from 0).
pub open spec fn word_at(s: TausState, j: int) -> u32 {
    emitted(advance_n(s, (j + 1) as nat))
}

/// The first `n` words produced from state `s`.
pub open spec fn outputs(s: TausState, n: nat) -> Seq<u32> {
    Seq::new(n, |j: int| word_at(s, j))
}

/// A state whose words all sit at or above their minimums.
pub open spec fn valid_state(s: TausState) -> bool {
    s.0 >= MIN_Z1 && s.1 >= MIN_Z2 && s.2 >= MIN_Z3
}

/// Two words joined high word first.
pub open spec fn join64(hi: u32, lo: u32) -> u64 {
    (hi as u64 * 0x1_0000_0000u64 + lo as u64) as u64
}

/// Byte `k` (0 = least significant) of `w`.
pub open spec fn byte_of(w: u32, k: u32) -> u8 {
    ((w >> (8 * k)) & 0xFFu32) as u8
}

/// The four bytes `b[at..at + 4]` read as a little-endian word.
pub open spec fn le_word(b: Seq<u8>, at: int) -> u32 {
    (b[at] as int + 256 * b[at + 1] as int + 65536 * b[at + 2] as int + 16777216 * b[at
        + 3] as int) as u32
}

/// The bytes that filling `len` bytes from state `s` writes: the words of
/// `s` in turn, each little-endian, the last one cut short.
pub open spec fn fill_stream(s: TausState, len: nat) -> Seq<u8> {
    Seq::new(len, |i: int| byte_of(word_at(s, i / 4), (i % 4) as u32))
}

/// A raise of `v` to at least `m`.
pub open spec fn at_least(v: u32, m: u32) -> u32 {
    if v < m {
        m
    } else {
        v
    }
}

/// The state that a 12-byte seed gives: three little-endian words, each
/// raised to its minimum.
pub open spec fn seeded_state(seed: Seq<u8>) -> TausState {
    (
        at_least(le_word(seed, 0), MIN_Z1),
        at_least(le_word(seed, 4), MIN_Z2),
        at_least(le_word(seed, 8), MIN_Z3),
    )
}

/// A Tausworthe generator with three words of state (the "Taus88"
/// combination): seedable, fast and fully reproducible.
pub struct Taus88 {
    z1: u32,
    z2: u32,
    z3: u32,
}

impl View for Taus88 {
    type V = TausState;

    closed spec fn view(&self) -> TausState {
        (self.z1, self.z2, self.z3)
    }
}

proof fn lemma_feed_keeps_minimums(s: TausState)
    requires
        valid_state(s),
    ensures
        valid_state(advance(s)),
{
    let (a, b, c) = s;
    assert(a >= 2u32 ==> (((a & 0xFFFF_FFFEu32) << 12u32) ^ (((a << 13u32) ^ a) >> 19u32))
        >= 2u32) by (bit_vector);
    assert(b >= 8u32 ==> (((b & 0xFFFF_FFF8u32) << 4u32) ^ (((b << 2u32) ^ b) >> 25u32))
        >= 8u32) by (bit_vector);
    assert(c >= 16u32 ==> (((c & 0xFFFF_FFF0u32) << 17u32) ^ (((c << 3u32) ^ c) >> 11u32))
        >= 16u32) by (bit_vector);
}

impl Taus88 {
    #[verifier::type_invariant]
    spec fn inv(self) -> bool {
        valid_state((self.z1, self.z2, self.z3))
    }

    /// A generator starting from the three given words, each of which must
    /// already be at or above its minimum.
    pub fn new(seed1: u32, seed2: u32, seed3: u32) -> (r: Self)
        requires
            seed1 >= MIN_Z1,
            seed2 >= MIN_Z2,
            seed3 >= MIN_Z3,
        ensures
            r@ == (seed1, seed2, seed3),
    {
        Taus88 { z1: seed1, z2: seed2, z3: seed3 }
    }

    /// The three words of the current state.
    pub fn state(&self) -> (r: (u32, u32, u32))
        ensures
            r == self@,
            valid_state(r),
    {
        proof {
            use_type_invariant(self);
        }
        (self.z1, self.z2, self.z3)
    }

    /// A generator seeded from 12 bytes: three little-endian words, each
    /// raised to its minimum where it is below it.
    pub fn from_seed(seed: [u8; 12]) -> (r: Self)
        ensures
            r@ == seeded_state(seed@),
    {
        let w1 = read_le_word(&seed, 0);
        let w2 = read_le_word(&seed, 4);
        let w3 = read_le_word(&seed, 8);
        let z1 = if w1 < MIN_Z1 { MIN_Z1 } else { w1 };
        let z2 = if w2 < MIN_Z2 { MIN_Z2 } else { w2 };
        let z3 = if w3 < MIN_Z3 { MIN_Z3 } else { w3 };
        Taus88::new(z1, z2, z3)
    }

    /// Steps the generator once and returns the xor of its three words.
    pub fn next_u32(&mut self) -> (r: u32)
        ensures
            final(self)@ == advance(old(self)@),
            r == emitted(final(self)@),
    {
        proof {
            use_type_invariant(&*self);
            lemma_feed_keeps_minimums(self@);
        }
        let z1 = self.z1;
        let z2 = self.z2;
        let z3 = self.z3;
        let n1 = ((z1 & 0xFFFF_FFFE) << 12) ^ (((z1 << 13) ^ z1) >> 19);
        let n2 = ((z2 & 0xFFFF_FFF8) << 4) ^ (((z2 << 2) ^ z2) >> 25);
        let n3 = ((z3 & 0xFFFF_FFF0) << 17) ^ (((z3 << 3) ^ z3) >> 11);
        *self = Taus88 { z1: n1, z2: n2, z3: n3 };
        n1 ^ n2 ^ n3
    }

    /// Two steps joined into one 64-bit word, the first step's word high.
    pub fn next_u64(&mut self) -> (r: u64)
        ensures
            final(self)@ == advance(advance(old(self)@)),
            r == join64(emitted(advance(old(self)@)), emitted(advance(advance(old(self)@)))),
    {
        let hi = self.next_u32();
        let lo = self.next_u32();
        let r = ((hi as u64) << 32u64) | (lo as u64);
        assert(((hi as u64) << 32u64) | (lo as u64) == (hi as u64) * 0x1_0000_0000u64 + (lo as u64)) by (bit_vector);
        r
    }
}

/// The word that bytes `b[at..at + 4]` hold, little-endian.
fn read_le_word(b: &[u8; 12], at: usize) -> (r: u32)
    requires
        at + 4 <= 12,
    ensures
        r == le_word(b@, at as int),
{
    let b0 = b[at] as u32;
    let b1 = b[at + 1] as u32;
    let b2 = b[at + 2] as u32;
    let b3 = b[at + 3] as u32;
    assert(b0 < 256 && b1 < 256 && b2 < 256 && b3 < 256);
    let r = b0 | (b1 << 8) | (b2 << 16) | (b3 << 24);
    assert(b0 < 256u32 && b1 < 256u32 && b2 < 256u32 && b3 < 256u32 ==> b0 | (b1 << 8u32) | (
    b2 << 16u32) | (b3 << 24u32) == b0 + 256u32 * b1 + 65536u32 * b2 + 16777216u32 * b3)
        by (bit_vector);
    r
}

impl Taus88 {
    /// Fills `dest` four bytes at a time, each word little-endian, the last
    /// word cut short where the length is not a multiple of four.
    pub fn fill_bytes(&mut self, dest: &mut [u8])
        ensures
            final(dest)@ == fill_stream(old(self)@, old(dest)@.len()),
            final(self)@ == advance_n(old(self)@, ((old(dest)@.len() + 3) / 4) as nat),
    {
        let len = dest.len();
        let ghost s0 = self@;
        let ghost mut k: int = 0;
        let mut pos: usize = 0;
        while pos < len
            invariant
                dest@.len() == len,
                len == old(dest)@.len(),
                s0 == old(self)@,
                pos <= len,
                pos == len || pos == 4 * k,
                4 * k - 4 < pos <= 4 * k,
                self@ == advance_n(s0, k as nat),
                forall|i: int| 0 <= i < pos ==> dest@[i] == byte_of(word_at(s0, i / 4), (i % 4) as u32),
            decreases len - pos,
        {
            let word = self.next_u32();
            let take: usize = if len - pos < 4 { len - pos } else { 4 };
            let mut j: usize = 0;
            while j < take
                invariant
                    dest@.len() == len,
                    pos == 4 * k,
                    take <= 4,
                    pos + take <= len,
                    j <= take,
                    word == word_at(s0, k),
                    forall|i: int| 0 <= i < pos + j ==> dest@[i] == byte_of(word_at(s0, i / 4), (i % 4) as u32),
                decreases take - j,
            {
                assert((pos + j) as int / 4 == k && (pos + j) as int % 4 == j as int);
                dest[pos + j] = ((word >> (8 * (j as u32))) & 0xFF) as u8;
                j = j + 1;
            }
            pos = pos + take;
            proof {
                k = k + 1;
            }
        }
        proof {
            assert((len as int + 3) / 4 == k);
            assert(dest@ =~= fill_stream(s0, len as nat));
        }
    }
}

/// Equal seeds give equal generators, and so the same words for ever.
pub proof fn lemma_seed_determines_words(a: Seq<u8>, b: Seq<u8>, n: nat)
    requires
        a.len() == 12,
        a == b,
    ensures
        seeded_state(a) == seeded_state(b),
        outputs(seeded_state(a), n) == outputs(seeded_state(b), n),
{
}

/// An all-zero seed gives the minimum words (2, 8, 16), and the first word
/// drawn from them is 2105472.
pub proof fn lemma_zero_seed()
    ensures
        seeded_state(seq![0u8, 0, 0, 0, 0, 0, 0, 0, 0, 0, 0, 0]) == (MIN_Z1, MIN_Z2, MIN_Z3),
        word_at((MIN_Z1, MIN_Z2, MIN_Z3), 0) == 2105472,
{
    let z: Seq<u8> = seq![0u8, 0, 0, 0, 0, 0, 0, 0, 0, 0, 0, 0];
    assert(le_word(z, 0) == 0 && le_word(z, 4) == 0 && le_word(z, 8) == 0);
    let s0: TausState = (MIN_Z1, MIN_Z2, MIN_Z3);
    assert(advance_n(s0, 0) == s0);
    assert(advance_n(s0, 1) == advance(s0));
    let a: u32 = 2;
    let b: u32 = 8;
    let c: u32 = 16;
    assert((((a & 0xFFFF_FFFEu32) << 12u32) ^ (((a << 13u32) ^ a) >> 19u32)) == 8192u32)
        by (bit_vector)
        requires a == 2u32;
    assert((((b & 0xFFFF_FFF8u32) << 4u32) ^ (((b << 2u32) ^ b) >> 25u32)) == 128u32)
        by (bit_vector)
        requires b == 8u32;
    assert((((c & 0xFFFF_FFF0u32) << 17u32) ^ (((c << 3u32) ^ c) >> 11u32)) == 2097152u32)
        by (bit_vector)
        requires c == 16u32;
    assert((8192u32 ^ 128u32 ^ 2097152u32) == 2105472u32) by (bit_vector);
}

impl rand_core::SeedableRng for Taus88 {
    type Seed = [u8; 12];

    fn from_seed(seed: [u8; 12]) -> Self {
        Taus88::from_seed(seed)
    }
}

impl rand_core::RngCore for Taus88 {
    fn next_u32(&mut self) -> u32 {
        Taus88::next_u32(self)
    }

    fn next_u64(&mut self) -> u64 {
        Taus88::next_u64(self)
    }

    fn fill_bytes(&mut self, dst: &mut [u8]) {
        Taus88::fill_bytes(self, dst)
    }
}

} // verus!
