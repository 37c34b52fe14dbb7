use chacha20::cipher::{KeyIvInit, StreamCipher};
use chacha20::ChaCha20;
use disco::common::{
    create_buffer, default_sleep_time, BACKOFF_MILLIS, BUFFER_LEN, KEY_LEN, NONCE_LEN, OUTPUT_LEN,
};
use disco::error::ErrorKind;
use disco::rng::CryptoRng;
use std::time::Duration;

/// The first block of the ChaCha20 keystream under the zero key and the
/// zero nonce.
const ZERO_KEY_BLOCK: [u8; 64] = [
    0x76, 0xb8, 0xe0, 0xad, 0xa0, 0xf1, 0x3d, 0x90, 0x40, 0x5d, 0x6a, 0xe5, 0x53, 0x86, 0xbd, 0x28,
    0xbd, 0xd2, 0x19, 0xb8, 0xa0, 0x8d, 0xed, 0x1a, 0xa8, 0x36, 0xef, 0xcc, 0x8b, 0x77, 0x0d, 0xc7,
    0xda, 0x41, 0x59, 0x7c, 0x51, 0x57, 0x48, 0x8d, 0x77, 0x24, 0xe0, 0x3f, 0xb8, 0xd8, 0x4a, 0x37,
    0x6a, 0x43, 0xb8, 0xf4, 0x15, 0x18, 0xa1, 0x1c, 0xc3, 0x87, 0xb6, 0x69, 0xb2, 0xee, 0x65, 0x86,
];

fn patterned_seed() -> [u8; 32] {
    let mut seed = [0u8; 32];
    for (i, byte) in seed.iter_mut().enumerate() {
        *byte = (i as u8).wrapping_mul(7).wrapping_add(3);
    }
    seed
}

/// One regeneration, computed with the cipher alone.
fn ratchet_by_hand(state: &mut [u8; 1024]) {
    let mut key = [0u8; 32];
    key.copy_from_slice(&state[..32]);
    let nonce = [0u8; 12];
    let mut cipher = ChaCha20::new(&key.into(), &nonce.into());
    cipher.apply_keystream(state);
}

/// Check that CryptoRng::from_entropy() creates a key that is filled
/// with random data.
#[test]
fn test_from_entropy() {
    let mut crng = CryptoRng::from_entropy().unwrap();
    let key = crng.key().clone();
    let zeros = [0u8; KEY_LEN];

    assert_eq!(zeros.len(), key.len());
    assert!(key != zeros);
}

/// Check that we are erasing the key every time we regenerate the
/// output of the CryptoRng.
#[test]
fn test_fke() {
    let mut crng = CryptoRng::from_entropy().unwrap();
    let key1 = crng.key().clone();

    crng.regenerate();
    let key2 = crng.key().clone();

    assert!(key1 != key2);
}

#[test]
fn sizes_add_up() {
    assert_eq!(BUFFER_LEN, 1024);
    assert_eq!(KEY_LEN, 32);
    assert_eq!(OUTPUT_LEN, 992);
    assert_eq!(NONCE_LEN, 12);
    assert_eq!(KEY_LEN + OUTPUT_LEN, BUFFER_LEN);
}

#[test]
fn fresh_buffer_is_zero() {
    let buffer = create_buffer();
    assert_eq!(buffer.len(), 1024);
    assert!(buffer.iter().all(|byte| *byte == 0));
}

#[test]
fn default_sleep_is_twenty_milliseconds() {
    assert_eq!(BACKOFF_MILLIS, 20);
    assert_eq!(default_sleep_time(), Duration::from_millis(20));
}

#[test]
fn entropy_leaves_output_zero_until_first_regeneration() {
    let rng = CryptoRng::from_entropy().unwrap();
    assert_eq!(rng.output(), [0u8; 992]);
}

#[test]
fn seeded_generator_holds_seed_and_zero_output() {
    let seed = patterned_seed();
    let rng = CryptoRng::from_seed(seed);
    assert_eq!(rng.key(), seed);
    assert_eq!(rng.output(), [0u8; 992]);
}

#[test]
fn zero_seed_gives_the_known_keystream() {
    let mut rng = CryptoRng::from_seed([0u8; 32]);
    let output = rng.regenerate();
    assert_eq!(&rng.key()[..], &ZERO_KEY_BLOCK[..32]);
    assert_eq!(&output[..32], &ZERO_KEY_BLOCK[32..]);
    assert_eq!(output.len(), 992);
}

#[test]
fn regenerate_combines_whole_buffer_with_keystream() {
    let seed = patterned_seed();
    let mut rng = CryptoRng::from_seed(seed);
    let mut state = [0u8; 1024];
    state[..32].copy_from_slice(&seed);
    for _ in 0..3 {
        ratchet_by_hand(&mut state);
        let output = rng.regenerate();
        assert_eq!(&rng.key()[..], &state[..32]);
        assert_eq!(&output[..], &state[32..]);
    }
}

#[test]
fn regenerate_returns_the_output_region() {
    let mut rng = CryptoRng::from_seed(patterned_seed());
    let returned = rng.regenerate();
    assert_eq!(returned, rng.output());
    let again = rng.regenerate();
    assert_eq!(again, rng.output());
    assert_ne!(returned, again);
}

#[test]
fn next_key_is_old_key_combined_with_keystream() {
    let mut seed = [0u8; 32];
    seed[0] = 0xff;
    let mut cipher = ChaCha20::new(&seed.into(), &[0u8; 12].into());
    let mut keystream = [0u8; 1024];
    cipher.apply_keystream(&mut keystream);

    let mut rng = CryptoRng::from_seed(seed);
    let output = rng.regenerate();
    let key = rng.key();
    assert_eq!(key[0], 0xff ^ keystream[0]);
    assert_eq!(&key[1..], &keystream[1..32]);
    assert_eq!(&output[..], &keystream[32..]);
}

#[test]
fn same_seed_gives_same_stream() {
    let seed = patterned_seed();
    let mut first = CryptoRng::from_seed(seed);
    let mut second = CryptoRng::from_seed(seed);
    for _ in 0..10 {
        assert_eq!(first.regenerate(), second.regenerate());
        assert_eq!(first.key(), second.key());
    }
}

#[test]
fn different_seeds_give_different_streams() {
    let mut first = CryptoRng::from_seed([1u8; 32]);
    let mut second = CryptoRng::from_seed([2u8; 32]);
    assert_ne!(first.regenerate(), second.regenerate());
}

#[test]
fn successive_regenerations_differ() {
    let mut rng = CryptoRng::from_seed(patterned_seed());
    let first_output = rng.regenerate();
    let first_key = rng.key();
    let second_output = rng.regenerate();
    let second_key = rng.key();
    assert_ne!(first_key, second_key);
    assert_ne!(first_output, second_output);
}

#[test]
fn regeneration_removes_the_old_key() {
    let seed = patterned_seed();
    let mut rng = CryptoRng::from_seed(seed);
    let mut keys = vec![rng.key()];
    for _ in 0..8 {
        let _ = rng.regenerate();
        let key = rng.key();
        assert!(!keys.contains(&key));
        keys.push(key);
    }
    assert_ne!(rng.key(), seed);
}

#[test]
fn filled_seed_makes_a_generator() {
    let seed = patterned_seed();
    let rng = CryptoRng::from_fill(Ok(()), seed).unwrap();
    assert_eq!(rng.key(), seed);
    assert_eq!(rng.output(), [0u8; 992]);
}

#[test]
fn failed_fill_is_an_entropy_error() {
    let cause = getrandom::Error::UNSUPPORTED;
    match CryptoRng::from_fill(Err(cause), [0u8; 32]) {
        Err(ErrorKind::EntropyError(e)) => assert_eq!(e, cause),
        _ => panic!("a failed fill must not make a generator"),
    }
}
