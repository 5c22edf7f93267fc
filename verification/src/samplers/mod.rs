//! Random bits. The bits come from a stream cipher whose key and nonce
//! are drawn from the entropy of the system when the first bits are asked
//! for.

use crate::error::{message_view, Error, ErrorVariant, Fallible};
use chacha20::cipher::{KeyIvInit, StreamCipher};
use rand::seq::SliceRandom;
use rand::SeedableRng;
use vstd::prelude::*;
use vstd::string::StringExecFns;

verus! {

/// The state of the stream cipher `chacha20::XChaCha20`. Nothing is
/// known of what is inside.
#[verifier::external_body]
pub struct Keystream {
    cipher: chacha20::XChaCha20,
}

/// `getrandom::getrandom`: writes bytes from the random source of the
/// system over `dest`, or fails; the error comes back as its text. The
/// length of `dest` stays; of the bytes nothing is claimed.
#[verifier::external_body]
fn system_entropy(dest: &mut Vec<u8>) -> (out: Result<(), String>)
    ensures
        final(dest)@.len() == old(dest)@.len(),
{
    getrandom::getrandom(dest.as_mut_slice()).map_err(|e| format!("{:?}", e))
}

/// `XChaCha20::new` of `chacha20`: a cipher for a key of 32 bytes and a
/// nonce of 24 bytes. Other lengths would make it panic and are left out.
#[verifier::external_body]
fn keystream_new(key: &Vec<u8>, nonce: &Vec<u8>) -> (stream: Keystream)
    requires
        key@.len() == 32,
        nonce@.len() == 24,
{
    Keystream {
        cipher: chacha20::XChaCha20::new(key.as_slice().into(), nonce.as_slice().into()),
    }
}

/// `try_apply_keystream` of `chacha20::XChaCha20`: combines the next bytes
/// of the key stream into `buffer`, or fails at the end of the key stream
/// and leaves `buffer` as it was; the error comes back as its text. The
/// length of `buffer` stays; of the bytes nothing is claimed.
#[verifier::external_body]
fn keystream_apply(stream: &mut Keystream, buffer: &mut [u8]) -> (out: Result<(), String>)
    ensures
        final(buffer)@.len() == old(buffer)@.len(),
{
    stream.cipher.try_apply_keystream(buffer).map_err(|e| format!("{:?}", e))
}

/// The generator `rand::rngs::StdRng`. Nothing is known of what is
/// inside.
#[verifier::external_type_specification]
#[verifier::external_body]
pub struct ExStdRng(rand::rngs::StdRng);

/// `StdRng::from_seed` of `rand`: a generator that starts from a seed of
/// 32 bytes. Other lengths are left out.
#[verifier::external_body]
fn seeded_generator(seed: &Vec<u8>) -> (generator: rand::rngs::StdRng)
    requires
        seed@.len() == 32,
{
    let mut bytes = [0u8; 32];
    bytes.copy_from_slice(seed.as_slice());
    rand::rngs::StdRng::from_seed(bytes)
}

/// `SliceRandom::shuffle` of `rand`: swaps items of `items` among
/// themselves, so the same items are there afterwards, each as often as
/// before. Of their order nothing is claimed.
#[verifier::external_body]
fn shuffle_with<T>(items: &mut Vec<T>, generator: &mut rand::rngs::StdRng)
    ensures
        final(items)@.to_multiset() == old(items)@.to_multiset(),
{
    items.as_mut_slice().shuffle(generator);
}

/// A vector of `len` zero bytes.
fn zeros(len: usize) -> (bytes: Vec<u8>)
    ensures
        bytes@.len() == len,
{
    let mut bytes: Vec<u8> = Vec::new();
    let mut i: usize = 0;
    while i < len
        invariant
            i <= len,
            bytes@.len() == i,
        decreases len - i,
    {
        bytes.push(0u8);
        i += 1;
    }
    bytes
}

/// What a draw from a source of random bits comes to: nothing to
/// report where the source gave its bits, and `FailedFunction`, with the
/// words of the source in the message, where it gave out.
pub fn sampled(drawn: Result<(), String>) -> (out: Fallible<()>)
    ensures
        match drawn {
            Ok(()) => out is Ok,
            Err(text) => out matches Err(e) && e.variant == ErrorVariant::FailedFunction
                && message_view(e.message) == Some("failed to sample bits: "@ + text@),
        },
{
    match drawn {
        Ok(()) => Ok(()),
        Err(text) => Err(
            Error {
                variant: ErrorVariant::FailedFunction,
                message: Some(String::from_str("failed to sample bits: ").concat(text.as_str())),
            },
        ),
    }
}

/// A generator of random bits. A failure of the source is kept in
/// `error` and can be looked at after the bits were used.
pub struct GeneratorOpenDP {
    /// The first failure of the source, if it failed.
    pub error: Fallible<()>,
    /// The cipher, once it was seeded.
    pub stream: Option<Keystream>,
}

impl GeneratorOpenDP {
    /// A generator that has not drawn anything yet.
    pub fn new() -> (generator: Self)
        ensures
            generator.error is Ok,
            generator.stream is None,
    {
        GeneratorOpenDP { error: Ok(()), stream: None }
    }

    /// Fills `dest` with random bits. Where the source fails, the failure
    /// goes to `error`, unless an earlier one is there; a failure that is
    /// there stays. A generator without a failure has its cipher seeded
    /// afterwards, and a cipher that was seeded stays.
    pub fn fill_bytes(&mut self, dest: &mut [u8])
        ensures
            final(dest)@.len() == old(dest)@.len(),
            old(self).error is Err ==> final(self).error == old(self).error,
            old(self).error is Ok ==> (final(self).error matches Err(e) ==> e.variant
                == ErrorVariant::FailedFunction),
            final(self).error is Ok ==> final(self).stream is Some,
            old(self).stream is Some ==> final(self).stream is Some,
    {
        match self.try_fill_bytes(dest) {
            Ok(()) => {},
            Err(e) => {
                if self.error.is_ok() {
                    self.error = Err(e);
                }
            },
        }
    }

    /// Fills `dest` with random bits, or fails with `FailedFunction` where
    /// the source gives out. The failure is not kept. The first call seeds
    /// the cipher from the entropy of the system: after a call that gave
    /// bits the cipher is seeded, and a cipher that was seeded stays.
    pub fn try_fill_bytes(&mut self, dest: &mut [u8]) -> (out: Fallible<()>)
        ensures
            final(dest)@.len() == old(dest)@.len(),
            final(self).error == old(self).error,
            out matches Err(e) ==> e.variant == ErrorVariant::FailedFunction,
            out is Ok ==> final(self).stream is Some,
            old(self).stream is Some ==> final(self).stream is Some,
    {
        if self.stream.is_none() {
            let mut key = zeros(32);
            let mut nonce = zeros(24);
            match sampled(system_entropy(&mut key)) {
                Ok(()) => {},
                Err(e) => {
                    return Err(e);
                },
            }
            match sampled(system_entropy(&mut nonce)) {
                Ok(()) => {},
                Err(e) => {
                    return Err(e);
                },
            }
            self.stream = Some(keystream_new(&key, &nonce));
        }
        match &mut self.stream {
            Some(stream) => sampled(keystream_apply(stream, dest)),
            None => Ok(()),
        }
    }
}

impl Default for GeneratorOpenDP {
    fn default() -> (generator: Self)
        ensures
            generator.error is Ok,
    {
        GeneratorOpenDP::new()
    }
}

/// Fills `buffer` with random bits. Fails with `FailedFunction` where
/// the source of random bits gives out.
pub fn fill_bytes(buffer: &mut [u8]) -> (out: Fallible<()>)
    ensures
        final(buffer)@.len() == old(buffer)@.len(),
        out matches Err(e) ==> e.variant == ErrorVariant::FailedFunction,
{
    let mut generator = GeneratorOpenDP::new();
    generator.try_fill_bytes(buffer)
}

/// Collections whose items can be brought into a random order.
pub trait Shuffle {
    /// Brings the items into a random order. Fails with `FailedFunction`
    /// where the source of random bits gives out.
    fn shuffle(&mut self) -> (out: Fallible<()>)
        ensures
            out matches Err(e) ==> e.variant == ErrorVariant::FailedFunction,
    ;
}

impl<T> Shuffle for Vec<T> {
    fn shuffle(&mut self) -> (out: Fallible<()>)
        ensures
            final(self)@.to_multiset() == old(self)@.to_multiset(),
            out is Err ==> final(self)@ == old(self)@,
    {
        let mut seed = zeros(32);
        let mut generator = GeneratorOpenDP::new();
        match generator.try_fill_bytes(seed.as_mut_slice()) {
            Ok(()) => {},
            Err(e) => {
                return Err(e);
            },
        }
        let mut seeded = seeded_generator(&seed);
        shuffle_with(self, &mut seeded);
        Ok(())
    }
}

} // verus!
