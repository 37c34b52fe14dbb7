//! The generator: a ChaCha20 ratchet with fast key erasure.
//!
//! The state is one buffer. Its first bytes are the key, the rest is the
//! output of the latest regeneration. Each regeneration combines the whole
//! buffer with the keystream that the current key gives, so that one pass
//! both replaces the key and produces the next block of output.

use crate::common::{
    create_buffer, zeros, Buffer, Key, Nonce, Output, BUFFER_LEN, KEY_LEN, NONCE_LEN, OUTPUT_LEN,
};
use crate::error::{ErrorKind, Result};
use chacha20::cipher::{KeyIvInit, StreamCipher};
use chacha20::ChaCha20;
use vstd::prelude::*;

verus! {

/// The first `len` bytes of the ChaCha20 keystream (the variant with a
/// 96-bit nonce, from block 0) under `key` and `nonce`.
pub uninterp spec fn chacha20_keystream(key: Seq<u8>, nonce: Seq<u8>, len: nat) -> Seq<u8>;

/// `data` combined byte by byte with `mask`.
pub open spec fn xor_bytes(data: Seq<u8>, mask: Seq<u8>) -> Seq<u8> {
    Seq::new(data.len(), |i: int| data[i] ^ mask[i])
}

/// The key region of a generator state.
pub open spec fn key_of(state: Seq<u8>) -> Seq<u8> {
    state.subrange(0, KEY_LEN as int)
}

/// The output region of a generator state.
pub open spec fn output_of(state: Seq<u8>) -> Seq<u8> {
    state.subrange(KEY_LEN as int, BUFFER_LEN as int)
}

/// The state of a generator that was just seeded: the seed as key, and an
/// output region of zeros.
pub open spec fn seeded(seed: Seq<u8>) -> Seq<u8> {
    seed + zeros(OUTPUT_LEN as nat)
}

/// The keystream that one regeneration applies to `state`: the one that the
/// state's own key gives under the zero nonce.
pub open spec fn keystream_of(state: Seq<u8>) -> Seq<u8> {
    chacha20_keystream(key_of(state), zeros(NONCE_LEN as nat), BUFFER_LEN as nat)
}

/// The state after one regeneration of `state`.
pub open spec fn ratchet(state: Seq<u8>) -> Seq<u8> {
    xor_bytes(state, keystream_of(state))
}

/// The state after `n` regenerations of `state`.
pub open spec fn ratchet_n(state: Seq<u8>, n: nat) -> Seq<u8>
    decreases n,
{
    if n == 0 {
        state
    } else {
        ratchet(ratchet_n(state, (n - 1) as nat))
    }
}

/// `ChaCha20::new` and `apply_keystream` of the chacha20 crate (the traits
/// `KeyIvInit` and `StreamCipher` of its `cipher` module): a fresh cipher
/// under `key` and `nonce` combines its keystream, from the start, with
/// `data` in place by XOR. The keystream itself is only named. It is far
/// longer than the buffer, so the call does not run out of it.
#[verifier::external_body]
fn apply_keystream(key: &Key, nonce: &Nonce, data: &mut Buffer)
    ensures
        final(data)@.len() == chacha20_keystream(key@, nonce@, BUFFER_LEN as nat).len(),
        final(data)@ == xor_bytes(old(data)@, chacha20_keystream(key@, nonce@, BUFFER_LEN as nat)),
{
    let mut cipher = ChaCha20::new(key.into(), nonce.into());
    cipher.apply_keystream(data);
}

/// `getrandom::getrandom`: fills `dest` from the operating system's entropy
/// source, or reports why it could not. Nothing is known of the bytes.
#[verifier::external_body]
fn fill_from_os(dest: &mut Key) -> (filled: core::result::Result<(), getrandom::Error>)
{
    getrandom::getrandom(dest)
}

/// The `N` bytes of `buffer` from `start` on.
fn copy_region<const N: usize>(buffer: &Buffer, start: usize) -> (region: [u8; N])
    requires
        start + N <= BUFFER_LEN,
    ensures
        region@ == buffer@.subrange(start as int, start + N),
{
    let mut region: [u8; N] = [0u8; N];
    let mut i: usize = 0;
    while i < N
        invariant
            i <= N,
            start + N <= BUFFER_LEN,
            forall|j: int| 0 <= j < i ==> region@[j] == buffer@[start + j],
        decreases N - i,
    {
        region[i] = buffer[start + i];
        i += 1;
    }
    assert(region@ =~= buffer@.subrange(start as int, start + N));
    region
}

/// A forward-secure generator of random bytes.
pub struct CryptoRng {
    buffer: Buffer,
}

impl View for CryptoRng {
    type V = Seq<u8>;

    /// The buffer: the key region, then the output region.
    closed spec fn view(&self) -> Seq<u8> {
        self.buffer@
    }
}

impl CryptoRng {
    /// Every generator state has the length of the buffer.
    pub proof fn lemma_len(&self)
        ensures
            self@.len() == BUFFER_LEN,
    {
    }

    /// A generator whose key is `seed` and whose output region is zero.
    pub fn from_seed(seed: Key) -> (rng: Self)
        ensures
            rng@ == seeded(seed@),
    {
        let mut buffer = create_buffer();
        let mut i: usize = 0;
        while i < KEY_LEN
            invariant
                i <= KEY_LEN,
                forall|j: int| 0 <= j < i ==> buffer@[j] == seed@[j],
                forall|j: int| i <= j < BUFFER_LEN ==> buffer@[j] == 0,
            decreases KEY_LEN - i,
        {
            buffer[i] = seed[i];
            i += 1;
        }
        assert(buffer@ =~= seeded(seed@));
        CryptoRng { buffer }
    }

    /// What becomes of an attempt to fill `seed` from the entropy source:
    /// a generator keyed by `seed` where the attempt succeeded, the source's
    /// error where it failed.
    pub fn from_fill(filled: core::result::Result<(), getrandom::Error>, seed: Key) -> (rng: Result<
        Self,
    >)
        ensures
            match filled {
                Ok(_) => rng matches Ok(g) && g@ == seeded(seed@),
                Err(e) => rng matches Err(ErrorKind::EntropyError(cause)) && cause == e,
            },
    {
        match filled {
            Ok(_) => Ok(Self::from_seed(seed)),
            Err(e) => Err(ErrorKind::EntropyError(e)),
        }
    }

    /// A generator keyed from the operating system's entropy source. Where
    /// the source is not available the generator is not made: its stream
    /// would be predictable.
    pub fn from_entropy() -> (rng: Result<Self>)
        ensures
            rng matches Ok(g) ==> output_of(g@) == zeros(OUTPUT_LEN as nat),
            rng matches Err(e) ==> e is EntropyError,
    {
        let mut seed: Key = [0u8; 32];
        let filled = fill_from_os(&mut seed);
        let rng = Self::from_fill(filled, seed);
        proof {
            if rng is Ok {
                assert(output_of(rng->Ok_0@) =~= zeros(OUTPUT_LEN as nat));
            }
        }
        rng
    }

    /// A copy of the current key.
    pub fn key(&self) -> (key: Key)
        ensures
            key@ == key_of(self@),
    {
        copy_region::<32>(&self.buffer, 0)
    }

    /// A copy of the output of the latest regeneration.
    pub fn output(&self) -> (output: Output)
        ensures
            output@ == output_of(self@),
    {
        copy_region::<992>(&self.buffer, KEY_LEN)
    }

    /// Replaces the key and the output in one pass, and returns the new
    /// output. The key that was in use is overwritten. The nonce is zero in
    /// every call: the key changes with each, so no pair of key and nonce
    /// comes twice.
    pub fn regenerate(&mut self) -> (output: Output)
        ensures
            final(self)@ == ratchet(old(self)@),
            output@ == output_of(final(self)@),
    {
        let key = self.key();
        let nonce: Nonce = [0u8; 12];
        assert(nonce@ =~= zeros(NONCE_LEN as nat));
        apply_keystream(&key, &nonce, &mut self.buffer);
        self.output()
    }
}

/// Whether some byte of `bytes` at a position in `from..to` is not zero.
pub open spec fn some_nonzero(bytes: Seq<u8>, from: int, to: int) -> bool {
    exists|i: int| from <= i < to && #[trigger] bytes[i] != 0
}

/// What a regeneration does to the two regions of a state: each one changes
/// where the keystream that covers it has a byte that is not zero.
proof fn lemma_ratchet_changes_regions(state: Seq<u8>)
    requires
        state.len() == BUFFER_LEN,
    ensures
        some_nonzero(keystream_of(state), 0, KEY_LEN as int) ==> key_of(ratchet(state)) != key_of(
            state,
        ),
        some_nonzero(keystream_of(state), KEY_LEN as int, BUFFER_LEN as int) ==> output_of(
            ratchet(state),
        ) != output_of(state),
{
    let mask = keystream_of(state);
    assert forall|i: int| 0 <= i < BUFFER_LEN && mask[i] != 0 implies #[trigger] ratchet(state)[i]
        != state[i] by {
        let m = mask[i];
        let byte = state[i];
        assert(byte ^ m != byte) by (bit_vector)
            requires
                m != 0,
        ;
    }
    if some_nonzero(mask, 0, KEY_LEN as int) {
        let i = choose|i: int| 0 <= i < KEY_LEN && #[trigger] mask[i] != 0;
        assert(key_of(ratchet(state))[i] == ratchet(state)[i]);
        assert(key_of(state)[i] == state[i]);
    }
    if some_nonzero(mask, KEY_LEN as int, BUFFER_LEN as int) {
        let i = choose|i: int| KEY_LEN <= i < BUFFER_LEN && #[trigger] mask[i] != 0;
        assert(output_of(ratchet(state))[i - KEY_LEN] == ratchet(state)[i]);
        assert(output_of(state)[i - KEY_LEN] == state[i]);
    }
}

/// A regeneration puts another key in the place of the one it used, unless
/// the keystream's first bytes, which cover the key region, are all zero.
pub proof fn lemma_regeneration_replaces_key(rng: CryptoRng)
    requires
        some_nonzero(keystream_of(rng@), 0, KEY_LEN as int),
    ensures
        key_of(ratchet(rng@)) != key_of(rng@),
{
    rng.lemma_len();
    lemma_ratchet_changes_regions(rng@);
}

/// A regeneration changes the output region, unless the keystream's bytes
/// that cover the region are all zero.
pub proof fn lemma_regeneration_replaces_output(rng: CryptoRng)
    requires
        some_nonzero(keystream_of(rng@), KEY_LEN as int, BUFFER_LEN as int),
    ensures
        output_of(ratchet(rng@)) != output_of(rng@),
{
    rng.lemma_len();
    lemma_ratchet_changes_regions(rng@);
}

/// Two regenerations in a row end in different keys and give different
/// outputs, unless the second one's keystream is zero all over the key
/// region or all over the output region.
pub proof fn lemma_successive_regenerations_differ(rng: CryptoRng)
    requires
        some_nonzero(keystream_of(ratchet(rng@)), 0, KEY_LEN as int),
        some_nonzero(keystream_of(ratchet(rng@)), KEY_LEN as int, BUFFER_LEN as int),
    ensures
        key_of(ratchet_n(rng@, 2)) != key_of(ratchet_n(rng@, 1)),
        output_of(ratchet_n(rng@, 2)) != output_of(ratchet_n(rng@, 1)),
{
    rng.lemma_len();
    let first = ratchet(rng@);
    assert(ratchet_n(rng@, 1) == first && ratchet_n(rng@, 2) == ratchet(first)) by {
        reveal_with_fuel(ratchet_n, 3);
    }
    lemma_ratchet_changes_regions(first);
}

/// Generators that start from the same seed stay in step: after any number
/// of regenerations they hold the same key and give the same output.
pub proof fn lemma_same_seed_same_stream(a: CryptoRng, b: CryptoRng, seed: Key, n: nat)
    requires
        a@ == seeded(seed@),
        b@ == seeded(seed@),
    ensures
        ratchet_n(a@, n) == ratchet_n(b@, n),
        output_of(ratchet_n(a@, n)) == output_of(ratchet_n(b@, n)),
{
}

} // verus!
