//! The contract state machine: one persisted boolean flag, the messages
//! that read or toggle it, and a self-test message that verifies an
//! embedded Ed25519 signature.

use crate::ed25519;
use crate::ed25519::ParseError;
use vstd::prelude::*;

verus! {

/// The embedded 32-byte public key of the verification scenario.
pub open spec fn embedded_public_key() -> Seq<u8> {
    seq![
        127u8, 252, 97, 23, 127, 195, 92, 204, 223, 99, 66, 175, 180, 175, 225, 189,
        24, 149, 89, 93, 9, 97, 78, 71, 35, 151, 24, 222, 202, 25, 77, 46,
    ]
}

/// The embedded 64-byte message: the ASCII text of a 64-digit hex string.
pub open spec fn embedded_message() -> Seq<u8> {
    seq![
        102u8, 97, 99, 54, 51, 55, 51, 51, 98, 52, 50, 55, 57, 99, 55, 100,
        100, 51, 56, 53, 54, 55, 102, 52, 53, 54, 50, 50, 99, 51, 100, 102,
        100, 101, 56, 48, 101, 98, 57, 49, 56, 99, 102, 48, 97, 48, 55, 56,
        48, 54, 53, 56, 100, 52, 51, 56, 50, 97, 100, 100, 56, 50, 99, 51,
    ]
}

/// The embedded 64-byte signature of the verification scenario.
pub open spec fn embedded_signature() -> Seq<u8> {
    seq![
        232u8, 71, 14, 96, 84, 189, 182, 2, 217, 205, 205, 177, 213, 244, 118, 238,
        240, 107, 247, 179, 176, 40, 37, 118, 210, 92, 118, 153, 95, 202, 254, 201,
        2, 51, 83, 199, 48, 80, 173, 83, 44, 125, 155, 54, 78, 120, 113, 86,
        119, 20, 143, 219, 168, 169, 69, 152, 8, 229, 144, 95, 105, 21, 193, 10,
    ]
}

/// Whether the embedded scenario verifies: both embedded encodings parse
/// and the verification equation holds for the embedded message.
pub open spec fn embedded_scenario_valid() -> bool {
    ed25519::spec_verify(embedded_public_key(), embedded_message(), embedded_signature())
        == Ok::<bool, ParseError>(true)
}

/// The embedded public key as executable bytes.
pub fn embedded_public_key_bytes() -> (r: [u8; 32])
    ensures
        r@ == embedded_public_key(),
{
    let a: [u8; 32] = [
        127, 252, 97, 23, 127, 195, 92, 204, 223, 99, 66, 175, 180, 175, 225, 189,
        24, 149, 89, 93, 9, 97, 78, 71, 35, 151, 24, 222, 202, 25, 77, 46,
    ];
    proof {
        assert(a@ =~= embedded_public_key());
    }
    a
}

/// The embedded message as executable bytes.
pub fn embedded_message_bytes() -> (r: [u8; 64])
    ensures
        r@ == embedded_message(),
{
    let a: [u8; 64] = [
        102, 97, 99, 54, 51, 55, 51, 51, 98, 52, 50, 55, 57, 99, 55, 100,
        100, 51, 56, 53, 54, 55, 102, 52, 53, 54, 50, 50, 99, 51, 100, 102,
        100, 101, 56, 48, 101, 98, 57, 49, 56, 99, 102, 48, 97, 48, 55, 56,
        48, 54, 53, 56, 100, 52, 51, 56, 50, 97, 100, 100, 56, 50, 99, 51,
    ];
    proof {
        assert(a@ =~= embedded_message());
    }
    a
}

/// The embedded signature as executable bytes.
pub fn embedded_signature_bytes() -> (r: [u8; 64])
    ensures
        r@ == embedded_signature(),
{
    let a: [u8; 64] = [
        232, 71, 14, 96, 84, 189, 182, 2, 217, 205, 205, 177, 213, 244, 118, 238,
        240, 107, 247, 179, 176, 40, 37, 118, 210, 92, 118, 153, 95, 202, 254, 201,
        2, 51, 83, 199, 48, 80, 173, 83, 44, 125, 155, 54, 78, 120, 113, 86,
        119, 20, 143, 219, 168, 169, 69, 152, 8, 229, 144, 95, 105, 21, 193, 10,
    ];
    proof {
        assert(a@ =~= embedded_signature());
    }
    a
}

/// What `flip` does to the stored flag.
pub open spec fn flipped(b: bool) -> bool {
    !b
}

/// The persisted contract state: a single boolean flag.
pub struct EdSignatureTest {
    value: bool,
}

impl EdSignatureTest {
    /// The stored flag.
    pub closed spec fn value_spec(&self) -> bool {
        self.value
    }

    /// Creates an instance whose flag holds `init_value`.
    pub fn new(init_value: bool) -> (r: Self)
        ensures
            r.value_spec() == init_value,
    {
        Self { value: init_value }
    }

    /// Creates an instance whose flag holds `false`.
    pub fn default() -> (r: Self)
        ensures
            r.value_spec() == false,
    {
        Self::new(false)
    }

    /// Toggles the stored flag.
    pub fn flip(&mut self)
        ensures
            final(self).value_spec() == flipped(old(self).value_spec()),
    {
        self.value = !self.value;
    }

    /// Returns the stored flag.
    pub fn get(&self) -> (r: bool)
        ensures
            r == self.value_spec(),
    {
        self.value
    }

    /// Verifies the embedded signature scenario and returns its result.
    /// The stored flag is neither read nor written; a parse failure of the
    /// embedded constants is reported as `false` rather than aborting the
    /// call.
    pub fn verification_test(&self) -> (r: bool)
        ensures
            r == embedded_scenario_valid(),
    {
        let pk = embedded_public_key_bytes();
        let msg = embedded_message_bytes();
        let sig = embedded_signature_bytes();
        ed25519::is_valid(pk.as_slice(), msg.as_slice(), sig.as_slice())
    }
}

/// Toggling is an involution: flipping the flag twice restores the
/// original value.
pub proof fn lemma_flip_involution(b: bool)
    ensures
        flipped(flipped(b)) == b,
{
}

} // verus!
