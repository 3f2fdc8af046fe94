//! A deterministic byte source: every draw comes from a fresh generator
//! seeded with one fixed constant, so equal requests give equal bytes,
//! across runs and machines. It is for reproducible fixtures only and
//! gives no cryptographic guarantee.

use rand::rngs::StdRng;
use rand::Rng;
use rand::SeedableRng;
use vstd::prelude::*;

verus! {

/// The constant seed every generator starts from.
pub const RANDOM_SEED: u64 = 42;

#[verifier::external_type_specification]
#[verifier::external_body]
pub struct ExStdRng(StdRng);

/// The byte that the fixed-seed generator yields on its `i`-th draw.
///
/// The stream is a pure function of the constant seed, so the draw
/// index determines the byte; nothing here says which byte that is.
pub uninterp spec fn seeded_byte(i: int) -> u8;

/// The first `n` bytes of the fixed-seed stream, in draw order.
pub open spec fn seeded_prefix(n: nat) -> Seq<u8> {
    Seq::new(n, |i: int| seeded_byte(i))
}

/// A pseudo-random generator in the fixed deterministic start state,
/// together with how many bytes it has drawn so far.
pub struct SeededRng {
    rng: StdRng,
    drawn: Ghost<int>,
}

impl SeededRng {
    /// How many bytes this generator has already drawn.
    pub closed spec fn drawn(self) -> int {
        self.drawn@
    }
}

/// Relies on `rand::rngs::StdRng::seed_from_u64`: a fixed seed puts the
/// generator in one fixed start state, so the stream it then yields is
/// the same in every process and on every machine running this build.
/// Every `SeededRng` starts from a generator made here, which is what
/// lets `next_byte` speak of draw indices into one fixed stream.
#[verifier::external_body]
fn fresh_std_rng() -> (r: StdRng) {
    StdRng::seed_from_u64(RANDOM_SEED)
}

/// Returns fixed seedable RNG: a fresh generator that has drawn nothing.
pub fn seedable_rng() -> (r: SeededRng)
    ensures
        r.drawn() == 0,
{
    SeededRng { rng: fresh_std_rng(), drawn: Ghost(0int) }
}

/// Relies on `rand::Rng::gen_range` over the half-open range `0..255`:
/// the sample lies below 255, and it is drawn from the deterministic
/// stream that the fixed seed fixes, so the draw index determines it.
#[verifier::external_body]
fn next_byte(rng: &mut SeededRng) -> (r: u8)
    ensures
        final(rng).drawn() == old(rng).drawn() + 1,
        r == seeded_byte(old(rng).drawn()),
        r < 255,
{
    rng.rng.gen_range(0..255)
}

/// Returns a vector of size `n`, filled with the first `n` bytes of the
/// fixed-seed stream. Every byte lies in `[0, 254]`: the value 255 is
/// deliberately never produced, a quirk downstream fixtures rely on.
pub fn random_bytes(n: usize) -> (r: Vec<u8>)
    ensures
        r@.len() == n,
        r@ == seeded_prefix(n as nat),
        forall|i: int| 0 <= i < n ==> r@[i] < 255,
{
    let mut result: Vec<u8> = Vec::new();
    let mut rng = seedable_rng();
    let mut k: usize = 0;
    while k < n
        invariant
            k <= n,
            rng.drawn() == k,
            result@.len() == k,
            forall|i: int| 0 <= i < k ==> result@[i] == seeded_byte(i),
            forall|i: int| 0 <= i < k ==> result@[i] < 255,
        decreases n - k,
    {
        let b = next_byte(&mut rng);
        result.push(b);
        k = k + 1;
        proof {
            assert forall|i: int| 0 <= i < k implies result@[i] == seeded_byte(i) by {
                if i == k - 1 {
                    assert(result@[i] == b);
                }
            }
            assert forall|i: int| 0 <= i < k implies result@[i] < 255 by {
                if i == k - 1 {
                    assert(result@[i] == b);
                }
            }
        }
    }
    proof {
        assert(result@ =~= seeded_prefix(n as nat));
    }
    result
}

/// Two draws of equal length are byte-for-byte identical: each is the
/// one prefix of the stream that the constant seed fixes.
pub proof fn lemma_random_bytes_deterministic(a: Seq<u8>, b: Seq<u8>, n: nat)
    requires
        a == seeded_prefix(n),
        b == seeded_prefix(n),
    ensures
        a == b,
{
}

} // verus!
