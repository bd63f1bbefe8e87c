//! Hashing with BLAKE3, all at once or chunk by chunk.

use blake3::Hasher as BlakeHasher;
use vstd::prelude::*;
use vstd::std_specs::cmp::PartialEqSpecImpl;
use vstd::std_specs::convert::FromSpecImpl;

verus! {

/// Number of bytes of a hash.
pub const SIZE: usize = 32;

#[verifier::external_type_specification]
#[verifier::external_body]
pub struct ExBlakeHasher(BlakeHasher);

/// The BLAKE3 hash of `input` under the regular hash function, 32 bytes:
/// what `blake3::Hasher::finalize` returns once a regular hasher has absorbed
/// `input`.
pub uninterp spec fn digest(input: Seq<u8>) -> Seq<u8>;

/// The input that a BLAKE3 hasher has absorbed so far, in order.
pub uninterp spec fn absorbed(hasher: BlakeHasher) -> Seq<u8>;

/// Whether a BLAKE3 hasher computes the regular hash function, not the keyed
/// one and not a key derivation.
pub uninterp spec fn regular(hasher: BlakeHasher) -> bool;

/// The position in a larger input at which a BLAKE3 hasher was told that its
/// own input starts; 0 unless it was told otherwise.
pub uninterp spec fn input_offset(hasher: BlakeHasher) -> nat;

/// The sixteen hexadecimal digits, in lowercase.
pub open spec fn hex_digits() -> Seq<char> {
    seq!['0', '1', '2', '3', '4', '5', '6', '7', '8', '9', 'a', 'b', 'c', 'd', 'e', 'f']
}

/// The lowercase hexadecimal text of `bytes`: two digits for each byte, the
/// high half of the byte first.
pub open spec fn hexadecimal(bytes: Seq<u8>) -> Seq<char> {
    Seq::new(
        2 * bytes.len(),
        |place: int|
            if place % 2 == 0 {
                hex_digits()[bytes[place / 2] as int / 16]
            } else {
                hex_digits()[bytes[place / 2] as int % 16]
            },
    )
}

/// `blake3::Hasher::new`: a hasher for the regular hash function, which has
/// absorbed nothing yet.
#[verifier::external_body]
fn blake_new() -> (hasher: BlakeHasher)
    ensures
        absorbed(hasher) == Seq::<u8>::empty(),
        regular(hasher),
        input_offset(hasher) == 0,
{
    BlakeHasher::new()
}

/// `blake3::Hasher::update`: adds `chunk` to the end of the input absorbed so
/// far, and leaves alone the input's offset and which hash function the
/// hasher computes. It can be called any number of times. Only on a hasher whose input has an offset does the call check, and
/// panic on, the length of what it is given; such a hasher is left out.
#[verifier::external_body]
fn blake_update(hasher: &mut BlakeHasher, chunk: &[u8])
    requires
        input_offset(*old(hasher)) == 0,
    ensures
        absorbed(*final(hasher)) == absorbed(*old(hasher)) + chunk@,
        regular(*final(hasher)) == regular(*old(hasher)),
        input_offset(*final(hasher)) == input_offset(*old(hasher)),
    no_unwind
{
    hasher.update(chunk);
}

/// `blake3::Hasher::finalize`: for a regular hasher, the regular hash of the
/// input absorbed so far, as its 32 raw bytes. A keyed or key-deriving hasher
/// returns another hash and is left out, and so is a hasher whose input has
/// an offset, on which the call panics.
#[verifier::external_body]
fn blake_finalize(hasher: &BlakeHasher) -> (bytes: [u8; 32])
    requires
        regular(*hasher),
        input_offset(*hasher) == 0,
    ensures
        bytes@ == digest(absorbed(*hasher)),
{
    hasher.finalize().into()
}

/// `blake3::Hash::to_hex`: the hash whose raw bytes are `bytes`, written in
/// lowercase hexadecimal, two digits for each byte in order, the high half
/// of the byte first.
#[verifier::external_body]
fn blake_to_hex(bytes: &[u8; 32]) -> (text: String)
    ensures
        text@ == hexadecimal(bytes@),
{
    blake3::Hash::from_bytes(*bytes).to_hex().to_string()
}

/// The `==` of `blake3::Hash`, on the hashes whose raw bytes are `left` and
/// `right`: whether all 32 bytes agree, found out in constant time.
#[verifier::external_body]
fn blake_equal(left: &[u8; 32], right: &[u8; 32]) -> (equal: bool)
    ensures
        equal == (left@ == right@),
{
    blake3::Hash::from_bytes(*left) == blake3::Hash::from_bytes(*right)
}

/// A BLAKE3 hash, held as its 32 raw bytes.
#[derive(Clone, Copy, Debug, Eq, Hash)]
pub struct Hash(pub [u8; 32]);

impl PartialEq for Hash {
    /// Compares in constant time: how long it takes does not tell where two
    /// hashes differ.
    fn eq(&self, other: &Self) -> (equal: bool) {
        blake_equal(&self.0, &other.0)
    }
}

impl PartialEqSpecImpl for Hash {
    open spec fn obeys_eq_spec() -> bool {
        true
    }

    open spec fn eq_spec(&self, other: &Self) -> bool {
        self@ == other@
    }
}

impl View for Hash {
    type V = Seq<u8>;

    open spec fn view(&self) -> Seq<u8> {
        self.0@
    }
}

impl Hash {
    /// The hash in lowercase hexadecimal, as it is displayed.
    pub fn to_hex(&self) -> (text: String)
        ensures
            text@ == hexadecimal(self@),
    {
        blake_to_hex(&self.0)
    }
}

impl From<[u8; 32]> for Hash {
    fn from(hash: [u8; 32]) -> (converted: Self) {
        Hash(hash)
    }
}

impl FromSpecImpl<[u8; 32]> for Hash {
    open spec fn obeys_from_spec() -> bool {
        true
    }

    open spec fn from_spec(hash: [u8; 32]) -> Self {
        Hash(hash)
    }
}

impl From<Hash> for [u8; 32] {
    fn from(hash: Hash) -> (converted: Self) {
        hash.0
    }
}

impl FromSpecImpl<Hash> for [u8; 32] {
    open spec fn obeys_from_spec() -> bool {
        true
    }

    open spec fn from_spec(hash: Hash) -> Self {
        hash.0
    }
}

/// Why hashing a message failed.
#[derive(Clone, Copy, Debug, PartialEq, Eq, Structural)]
pub enum HasherError {
    /// The message could not be serialized.
    SerializeFailed,
}

/// A hasher that takes its input chunk by chunk.
pub struct Hasher(BlakeHasher);

impl View for Hasher {
    type V = Seq<u8>;

    /// The input absorbed so far.
    closed spec fn view(&self) -> Seq<u8> {
        absorbed(self.0)
    }
}

impl Hasher {
    /// The hasher computes the regular hash function, and its input starts
    /// at offset 0, so that it can be finalized.
    #[verifier::type_invariant]
    spec fn regular_and_whole(&self) -> bool {
        regular(self.0) && input_offset(self.0) == 0
    }

    pub fn new() -> (hasher: Self)
        ensures
            hasher@ == Seq::<u8>::empty(),
    {
        Hasher(blake_new())
    }

    /// Absorbs a message, given what the codec made of it: `None` where it
    /// could not be serialized, which is reported and absorbs nothing, else
    /// the message's bytes.
    pub fn update(&mut self, serialized: Option<&[u8]>) -> (outcome: Result<(), HasherError>)
        ensures
            match serialized {
                None => outcome == Err::<(), HasherError>(HasherError::SerializeFailed)
                    && final(self)@ == old(self)@,
                Some(bytes) => outcome == Ok::<(), HasherError>(()) && final(self)@ == old(self)@
                    + bytes@,
            },
    {
        match serialized {
            None => Err(HasherError::SerializeFailed),
            Some(bytes) => {
                self.update_raw(bytes);
                Ok(())
            },
        }
    }

    /// Absorbs `chunk` behind what was absorbed before.
    pub fn update_raw(&mut self, chunk: &[u8])
        ensures
            final(self)@ == old(self)@ + chunk@,
    {
        proof {
            use_type_invariant(&*self);
        }
        blake_update(&mut self.0, chunk);
    }

    /// The hash of everything absorbed.
    pub fn finalize(self) -> (hash: Hash)
        ensures
            hash@ == digest(self@),
    {
        proof {
            use_type_invariant(&self);
        }
        Hash(blake_finalize(&self.0))
    }
}

/// Hashes a message, given what the codec made of it: `None` where it could
/// not be serialized, which is reported, else the message's bytes.
pub fn hash(serialized: Option<&[u8]>) -> (outcome: Result<Hash, HasherError>)
    ensures
        match serialized {
            None => outcome == Err::<Hash, HasherError>(HasherError::SerializeFailed),
            Some(bytes) => outcome is Ok && outcome->Ok_0@ == digest(bytes@),
        },
{
    let mut hasher = Hasher::new();
    match hasher.update(serialized) {
        Err(error) => Err(error),
        Ok(()) => Ok(hasher.finalize()),
    }
}

} // verus!
