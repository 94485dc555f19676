//! Parsing and verification of Ed25519 public keys and signatures.
//!
//! A public key is a 32-byte encoding of a curve point; a signature is a
//! 64-byte `R || S` pair whose `S` half must be a canonical scalar strictly
//! below the group order and whose `R` half must itself encode a valid curve
//! point (the strict policy: small-order or non-canonical `R` encodings are
//! rejected rather than accepted). The scalar bound is checked here, byte by
//! byte; point decoding and the verification equation are delegated to the
//! `ed25519_compact` crate.

use vstd::prelude::*;

verus! {

/// Why a raw byte encoding was rejected before the verification equation
/// could be evaluated.
#[derive(Clone, Copy, Debug, PartialEq, Eq, Structural)]
pub enum ParseError {
    /// The public-key bytes are not 32 bytes long, or do not decode to a
    /// canonical curve point outside the small-order subgroup.
    InvalidPublicKey,
    /// The signature bytes are not 64 bytes long, the `S` half is not a
    /// canonical scalar below the group order, or the `R` half does not
    /// decode to a valid curve point.
    InvalidSignature,
}

/// The value of a byte sequence read as a little-endian integer.
pub open spec fn le_bytes(s: Seq<u8>) -> nat
    decreases s.len(),
{
    if s.len() == 0 {
        0
    } else {
        (s[0] as nat) + 256 * le_bytes(s.subrange(1, s.len() as int))
    }
}

/// The little-endian encoding of the Ed25519 group order
/// 2^252 + 27742317777372353535851937790883648493.
pub open spec fn group_order_bytes() -> Seq<u8> {
    seq![
        0xedu8, 0xd3u8, 0xf5u8, 0x5cu8, 0x1au8, 0x63u8, 0x12u8, 0x58u8,
        0xd6u8, 0x9cu8, 0xf7u8, 0xa2u8, 0xdeu8, 0xf9u8, 0xdeu8, 0x14u8,
        0x00u8, 0x00u8, 0x00u8, 0x00u8, 0x00u8, 0x00u8, 0x00u8, 0x00u8,
        0x00u8, 0x00u8, 0x00u8, 0x00u8, 0x00u8, 0x00u8, 0x00u8, 0x10u8,
    ]
}

/// A 32-byte `S` half is canonical when its little-endian value lies
/// strictly below the group order.
pub open spec fn scalar_canonical(s: Seq<u8>) -> bool {
    s.len() == 32 && le_bytes(s) < le_bytes(group_order_bytes())
}

/// If two equally long byte sequences agree above position `i` and differ
/// at `i`, the one with the smaller byte there has the smaller
/// little-endian value.
proof fn lemma_le_bytes_lt(a: Seq<u8>, b: Seq<u8>, i: int)
    requires
        a.len() == b.len(),
        0 <= i < a.len(),
        a[i] < b[i],
        forall|j: int| i < j < a.len() ==> a[j] == b[j],
    ensures
        le_bytes(a) < le_bytes(b),
    decreases a.len(),
{
    let a1 = a.subrange(1, a.len() as int);
    let b1 = b.subrange(1, b.len() as int);
    if i == 0 {
        assert(a1 =~= b1);
    } else {
        assert forall|j: int| i - 1 < j < a1.len() implies a1[j] == b1[j] by {
            assert(a1[j] == a[j + 1]);
            assert(b1[j] == b[j + 1]);
        }
        lemma_le_bytes_lt(a1, b1, i - 1);
    }
}

/// The group-order bytes as an executable array.
fn group_order_byte_array() -> (r: [u8; 32])
    ensures
        r@ == group_order_bytes(),
{
    let l: [u8; 32] = [
        0xed, 0xd3, 0xf5, 0x5c, 0x1a, 0x63, 0x12, 0x58,
        0xd6, 0x9c, 0xf7, 0xa2, 0xde, 0xf9, 0xde, 0x14,
        0x00, 0x00, 0x00, 0x00, 0x00, 0x00, 0x00, 0x00,
        0x00, 0x00, 0x00, 0x00, 0x00, 0x00, 0x00, 0x10,
    ];
    proof {
        assert(l@ =~= group_order_bytes());
    }
    l
}

/// Decides whether a 32-byte little-endian scalar is strictly below the
/// group order, scanning from the most significant byte down.
pub fn scalar_canonical_check(s: &[u8]) -> (r: bool)
    requires
        s@.len() == 32,
    ensures
        r == scalar_canonical(s@),
{
    let l = group_order_byte_array();
    let mut i: usize = 32;
    while i > 0
        invariant
            i <= 32,
            s@.len() == 32,
            l@ == group_order_bytes(),
            forall|j: int| i <= j < 32 ==> s@[j] == group_order_bytes()[j],
        decreases i,
    {
        i = i - 1;
        let si = *vstd::slice::slice_index_get(s, i);
        let li = l[i];
        if si < li {
            proof {
                lemma_le_bytes_lt(s@, group_order_bytes(), i as int);
            }
            return true;
        }
        if si > li {
            proof {
                lemma_le_bytes_lt(group_order_bytes(), s@, i as int);
            }
            return false;
        }
    }
    proof {
        assert(s@ =~= group_order_bytes());
    }
    false
}

/// Whether 32 bytes are the canonical encoding of a curve point outside
/// the small-order subgroup; the predicate that
/// `ed25519_compact::PublicKey::validate` decides.
pub uninterp spec fn valid_point(p: Seq<u8>) -> bool;

/// Whether the Ed25519 verification equation holds for the given key,
/// message and signature encodings; the predicate that
/// `ed25519_compact::PublicKey::verify` decides once the scalar bound and
/// both point encodings have been accepted.
pub uninterp spec fn equation_holds(pk: Seq<u8>, msg: Seq<u8>, sig: Seq<u8>) -> bool;

/// Relies on `ed25519_compact::PublicKey::validate`: returns `Ok` exactly
/// for the canonical encodings of curve points that are not of small
/// order.
#[verifier::external_body]
fn point_check(p: &[u8]) -> (r: bool)
    requires
        p@.len() == 32,
    ensures
        r == valid_point(p@),
{
    let mut bytes = [0u8; 32];
    bytes.copy_from_slice(p);
    match ed25519_compact::PublicKey::new(bytes).validate() {
        Ok(()) => true,
        Err(_) => false,
    }
}

/// Relies on `ed25519_compact::PublicKey::verify`: it rejects a
/// non-canonical `S` half first, then a public key that is no valid
/// point, then an `R` half that is no valid point (both point checks are
/// the ones `PublicKey::validate` performs), and otherwise decides the
/// verification equation.
#[verifier::external_body]
fn equation_check(pk: &[u8], msg: &[u8], sig: &[u8]) -> (r: Result<bool, ParseError>)
    requires
        pk@.len() == 32,
        sig@.len() == 64,
    ensures
        r == (if !scalar_canonical(sig@.subrange(32, 64)) { Err(ParseError::InvalidSignature) } else if !valid_point(pk@) { Err(ParseError::InvalidPublicKey) } else if !valid_point(sig@.subrange(0, 32)) { Err(ParseError::InvalidSignature) } else { Ok(equation_holds(pk@, msg@, sig@)) }),
{
    let mut pk_bytes = [0u8; 32];
    pk_bytes.copy_from_slice(pk);
    let mut sig_bytes = [0u8; 64];
    sig_bytes.copy_from_slice(sig);
    let key = ed25519_compact::PublicKey::new(pk_bytes);
    let signature = ed25519_compact::Signature::new(sig_bytes);
    match key.verify(msg, &signature) {
        Ok(()) => Ok(true),
        Err(ed25519_compact::Error::SignatureMismatch) => Ok(false),
        Err(ed25519_compact::Error::InvalidPublicKey) => Err(ParseError::InvalidPublicKey),
        Err(ed25519_compact::Error::WeakPublicKey) => Err(ParseError::InvalidPublicKey),
        Err(_) => Err(ParseError::InvalidSignature),
    }
}

/// A public key whose 32-byte encoding has been checked to decode to a
/// valid curve point.
pub struct PublicKey {
    bytes: Vec<u8>,
}

impl View for PublicKey {
    type V = Seq<u8>;

    closed spec fn view(&self) -> Seq<u8> {
        self.bytes@
    }
}

impl PublicKey {
    /// A well-formed key: 32 bytes encoding a valid curve point.
    pub open spec fn wf(&self) -> bool {
        self@.len() == 32 && valid_point(self@)
    }

    /// The raw encoding of the key.
    pub fn as_bytes(&self) -> (r: &[u8])
        ensures
            r@ == self@,
    {
        self.bytes.as_slice()
    }
}

/// A signature whose 64-byte `R || S` encoding has been checked: `S` is a
/// canonical scalar and `R` encodes a valid curve point.
pub struct Signature {
    bytes: Vec<u8>,
}

impl View for Signature {
    type V = Seq<u8>;

    closed spec fn view(&self) -> Seq<u8> {
        self.bytes@
    }
}

impl Signature {
    /// A well-formed signature: 64 bytes whose `S` half is below the
    /// group order and whose `R` half encodes a valid curve point.
    pub open spec fn wf(&self) -> bool {
        self@.len() == 64 && scalar_canonical(self@.subrange(32, 64)) && valid_point(
            self@.subrange(0, 32),
        )
    }

    /// The raw encoding of the signature.
    pub fn as_bytes(&self) -> (r: &[u8])
        ensures
            r@ == self@,
    {
        self.bytes.as_slice()
    }
}

/// Parses a public-key encoding: exactly 32 bytes that decode to a valid
/// curve point; everything else is rejected as `InvalidPublicKey`.
pub fn parse_public_key(bytes: &[u8]) -> (r: Result<PublicKey, ParseError>)
    ensures
        r is Ok <==> bytes@.len() == 32 && valid_point(bytes@),
        r matches Ok(pk) ==> pk@ == bytes@ && pk.wf(),
        r is Err ==> r == Err::<PublicKey, ParseError>(ParseError::InvalidPublicKey),
{
    if bytes.len() != 32 {
        return Err(ParseError::InvalidPublicKey);
    }
    if !point_check(bytes) {
        return Err(ParseError::InvalidPublicKey);
    }
    Ok(PublicKey { bytes: vstd::slice::slice_to_vec(bytes) })
}

/// Parses a signature encoding: exactly 64 bytes whose `S` half is a
/// canonical scalar and whose `R` half decodes to a valid curve point;
/// everything else is rejected as `InvalidSignature`.
pub fn parse_signature(bytes: &[u8]) -> (r: Result<Signature, ParseError>)
    ensures
        r is Ok <==> bytes@.len() == 64 && scalar_canonical(bytes@.subrange(32, 64))
            && valid_point(bytes@.subrange(0, 32)),
        r matches Ok(sig) ==> sig@ == bytes@ && sig.wf(),
        r is Err ==> r == Err::<Signature, ParseError>(ParseError::InvalidSignature),
{
    if bytes.len() != 64 {
        return Err(ParseError::InvalidSignature);
    }
    let s_half = vstd::slice::slice_subrange(bytes, 32, 64);
    if !scalar_canonical_check(s_half) {
        return Err(ParseError::InvalidSignature);
    }
    let r_half = vstd::slice::slice_subrange(bytes, 0, 32);
    if !point_check(r_half) {
        return Err(ParseError::InvalidSignature);
    }
    Ok(Signature { bytes: vstd::slice::slice_to_vec(bytes) })
}

/// Evaluates the verification equation for an already parsed key and
/// signature over an arbitrary message.
pub fn verify_parsed(pk: &PublicKey, msg: &[u8], sig: &Signature) -> (r: bool)
    requires
        pk.wf(),
        sig.wf(),
    ensures
        r == equation_holds(pk@, msg@, sig@),
{
    match equation_check(pk.as_bytes(), msg, sig.as_bytes()) {
        Ok(b) => b,
        Err(_) => false,
    }
}

/// What `verify` returns on every input: the public key is parsed first
/// (length, then point validity), then the signature (length, then the
/// scalar bound on `S`, then point validity of `R`), and only on two
/// well-formed encodings is the verification equation evaluated.
pub open spec fn spec_verify(pk: Seq<u8>, msg: Seq<u8>, sig: Seq<u8>) -> Result<bool, ParseError> {
    if pk.len() != 32 || !valid_point(pk) {
        Err(ParseError::InvalidPublicKey)
    } else if sig.len() != 64 || !scalar_canonical(sig.subrange(32, 64)) || !valid_point(
        sig.subrange(0, 32),
    ) {
        Err(ParseError::InvalidSignature)
    } else {
        Ok(equation_holds(pk, msg, sig))
    }
}

/// Parses both encodings and, if both are accepted, evaluates the
/// verification equation. A parse failure is reported as the
/// corresponding error; an equation mismatch is the ordinary `Ok(false)`
/// result, not an error.
pub fn verify(pk_bytes: &[u8], msg: &[u8], sig_bytes: &[u8]) -> (r: Result<bool, ParseError>)
    ensures
        r == spec_verify(pk_bytes@, msg@, sig_bytes@),
{
    let pk = match parse_public_key(pk_bytes) {
        Ok(pk) => pk,
        Err(e) => {
            return Err(e);
        },
    };
    let sig = match parse_signature(sig_bytes) {
        Ok(sig) => sig,
        Err(e) => {
            return Err(e);
        },
    };
    Ok(verify_parsed(&pk, msg, &sig))
}

/// Verification collapsed to a single boolean: `true` exactly when both
/// encodings parse and the verification equation holds; every rejection
/// is reported as `false`.
pub fn is_valid(pk_bytes: &[u8], msg: &[u8], sig_bytes: &[u8]) -> (r: bool)
    ensures
        r == (spec_verify(pk_bytes@, msg@, sig_bytes@) == Ok::<bool, ParseError>(true)),
{
    match verify(pk_bytes, msg, sig_bytes) {
        Ok(b) => b,
        Err(_) => false,
    }
}

/// Verification is deterministic: its result is a function of the three
/// byte sequences alone, so two results obtained for identical inputs
/// are identical.
pub proof fn lemma_verify_deterministic(
    pk: Seq<u8>,
    msg: Seq<u8>,
    sig: Seq<u8>,
    r1: Result<bool, ParseError>,
    r2: Result<bool, ParseError>,
)
    requires
        r1 == spec_verify(pk, msg, sig),
        r2 == spec_verify(pk, msg, sig),
    ensures
        r1 == r2,
{
}

} // verus!
