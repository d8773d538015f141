//! Fixed-width byte strings (account keys, signatures, hashes) and their text forms.
use std::str::FromStr;
use std::sync::Arc;
use vstd::prelude::*;
use vstd::std_specs::cmp::PartialEqSpecImpl;

verus! {

/// An account key.
#[derive(Clone, Copy, Debug, Eq, Hash)]
pub struct PubkeyBytes(pub [u8; 32]);

/// A transaction signature.
#[derive(Clone, Copy, Debug, Eq, Hash)]
pub struct SignatureBytes(pub [u8; 64]);

impl View for PubkeyBytes {
    type V = Seq<u8>;

    open spec fn view(&self) -> Seq<u8> {
        self.0@
    }
}

impl View for SignatureBytes {
    type V = Seq<u8>;

    open spec fn view(&self) -> Seq<u8> {
        self.0@
    }
}

impl PartialEq for PubkeyBytes {
    fn eq(&self, other: &Self) -> (r: bool) {
        same_bytes(&self.0, &other.0)
    }
}

impl PartialEqSpecImpl for PubkeyBytes {
    open spec fn obeys_eq_spec() -> bool {
        true
    }

    open spec fn eq_spec(&self, other: &Self) -> bool {
        self@ == other@
    }
}

impl PartialEq for SignatureBytes {
    fn eq(&self, other: &Self) -> (r: bool) {
        same_bytes(&self.0, &other.0)
    }
}

impl PartialEqSpecImpl for SignatureBytes {
    open spec fn obeys_eq_spec() -> bool {
        true
    }

    open spec fn eq_spec(&self, other: &Self) -> bool {
        self@ == other@
    }
}

/// Whether two byte strings are the same.
pub fn same_bytes(a: &[u8], b: &[u8]) -> (r: bool)
    ensures
        r == (a@ == b@),
{
    if a.len() != b.len() {
        return false;
    }
    let mut i: usize = 0;
    while i < a.len()
        invariant
            i <= a@.len(),
            a@.len() == b@.len(),
            a@.take(i as int) =~= b@.take(i as int),
        decreases a@.len() - i,
    {
        if a[i] != b[i] {
            return false;
        }
        i += 1;
    }
    proof {
        assert(a@.take(i as int) =~= a@);
        assert(b@.take(i as int) =~= b@);
    }
    true
}

/// Whether `key` is one of `keys`.
pub fn has_key(keys: &[PubkeyBytes], key: &PubkeyBytes) -> (r: bool)
    ensures
        r == (exists|i: int| 0 <= i < keys@.len() && #[trigger] keys@[i]@ == key@),
{
    let mut i: usize = 0;
    while i < keys.len()
        invariant
            i <= keys@.len(),
            forall|j: int| 0 <= j < i ==> #[trigger] keys@[j]@ != key@,
        decreases keys@.len() - i,
    {
        if same_bytes(&keys[i].0, &key.0) {
            assert(keys@[i as int]@ == key@);
            return true;
        }
        i += 1;
    }
    false
}

/// Thirty-two bytes as an array, if there are exactly that many.
pub fn bytes32_from_slice(bytes: &[u8]) -> (r: Option<[u8; 32]>)
    ensures
        match r {
            Some(array) => array@ == bytes@,
            None => bytes@.len() != 32,
        },
{
    if bytes.len() != 32 {
        return None;
    }
    let mut array: [u8; 32] = [0; 32];
    let mut i: usize = 0;
    while i < 32
        invariant
            i <= 32,
            bytes@.len() == 32,
            forall|j: int| 0 <= j < i ==> array@[j] == bytes@[j],
        decreases 32 - i,
    {
        array[i] = bytes[i];
        i += 1;
    }
    assert(array@ =~= bytes@);
    Some(array)
}

/// Sixty-four bytes as an array, if there are exactly that many.
pub fn bytes64_from_slice(bytes: &[u8]) -> (r: Option<[u8; 64]>)
    ensures
        match r {
            Some(array) => array@ == bytes@,
            None => bytes@.len() != 64,
        },
{
    if bytes.len() != 64 {
        return None;
    }
    let mut array: [u8; 64] = [0; 64];
    let mut i: usize = 0;
    while i < 64
        invariant
            i <= 64,
            bytes@.len() == 64,
            forall|j: int| 0 <= j < i ==> array@[j] == bytes@[j],
        decreases 64 - i,
    {
        array[i] = bytes[i];
        i += 1;
    }
    assert(array@ =~= bytes@);
    Some(array)
}

/// The account key that thirty-two bytes make up, none for another number of bytes.
pub fn pubkey_bytes_from_slice(bytes: &[u8]) -> (r: Option<PubkeyBytes>)
    ensures
        match r {
            Some(key) => key@ == bytes@,
            None => bytes@.len() != 32,
        },
{
    match bytes32_from_slice(bytes) {
        Some(array) => Some(PubkeyBytes(array)),
        None => None,
    }
}

/// The signature that sixty-four bytes make up, none for another number of bytes.
pub fn signature_bytes_from_slice(bytes: &[u8]) -> (r: Option<SignatureBytes>)
    ensures
        match r {
            Some(signature) => signature@ == bytes@,
            None => bytes@.len() != 64,
        },
{
    match bytes64_from_slice(bytes) {
        Some(array) => Some(SignatureBytes(array)),
        None => None,
    }
}

/// Shares bytes through `Arc::<[u8]>::from(Vec<u8>)`. Claimed of it: the shared bytes are the
/// ones of the vector.
#[verifier::external_body]
pub(crate) fn share_bytes(bytes: Vec<u8>) -> (r: Arc<[u8]>)
    ensures
        r@ == bytes@,
{
    Arc::from(bytes)
}

/// The base58 text of an account key, as `solana_pubkey::Pubkey` displays it.
pub uninterp spec fn pubkey_base58(key: Seq<u8>) -> Seq<char>;

/// Writes an account key in base58 through the `Display` impl of `solana_pubkey::Pubkey`.
/// Claimed of it: the text depends on the thirty-two bytes alone.
#[verifier::external_body]
pub(crate) fn pubkey_text(key: &PubkeyBytes) -> (r: String)
    ensures
        r@ == pubkey_base58(key@),
{
    solana_pubkey::Pubkey::new_from_array(key.0).to_string()
}

/// The base58 text of a signature, as `solana_signature::Signature` displays it.
pub uninterp spec fn signature_base58(signature: Seq<u8>) -> Seq<char>;

/// Writes a signature in base58 through the `Display` impl of `solana_signature::Signature`.
/// Claimed of it: the text depends on the sixty-four bytes alone.
#[verifier::external_body]
pub(crate) fn signature_text(signature: &SignatureBytes) -> (r: String)
    ensures
        r@ == signature_base58(signature@),
{
    solana_signature::Signature::from(signature.0).to_string()
}

/// The account key that a text spells, none where `solana_pubkey::Pubkey` refuses the text.
pub uninterp spec fn spelled_pubkey(text: Seq<char>) -> Option<Seq<u8>>;

/// Reads an account key through the `FromStr` impl of `solana_pubkey::Pubkey`. Claimed of it:
/// whether there is a key, and which, depends on the text alone.
#[verifier::external_body]
pub(crate) fn pubkey_from_text(text: &str) -> (r: Option<PubkeyBytes>)
    ensures
        (match r {
            Some(key) => Some(key@),
            None => None,
        }) == spelled_pubkey(text@),
{
    solana_pubkey::Pubkey::from_str(text).ok().map(|key| PubkeyBytes(key.to_bytes()))
}

/// The signature that a text spells, none where `solana_signature::Signature` refuses the text.
pub uninterp spec fn spelled_signature(text: Seq<char>) -> Option<Seq<u8>>;

/// Reads a signature through the `FromStr` impl of `solana_signature::Signature`. Claimed of
/// it: whether there is a signature, and which, depends on the text alone.
#[verifier::external_body]
pub(crate) fn signature_from_text(text: &str) -> (r: Option<SignatureBytes>)
    ensures
        (match r {
            Some(signature) => Some(signature@),
            None => None,
        }) == spelled_signature(text@),
{
    solana_signature::Signature::from_str(text).ok().map(|signature| SignatureBytes(signature.into()))
}

/// The hash that a text spells, none where `solana_hash::Hash` refuses the text.
pub uninterp spec fn spelled_hash(text: Seq<char>) -> Option<Seq<u8>>;

/// Reads a block hash through the `FromStr` impl of `solana_hash::Hash`. Claimed of it: whether
/// there is a hash, and which, depends on the text alone.
#[verifier::external_body]
pub(crate) fn hash_from_text(text: &str) -> (r: Option<[u8; 32]>)
    ensures
        (match r {
            Some(hash) => Some(hash@),
            None => None,
        }) == spelled_hash(text@),
{
    solana_hash::Hash::from_str(text).ok().map(|hash| hash.to_bytes())
}

/// The bytes that a standard base64 text stands for, none where the `base64` crate's standard
/// engine refuses the text.
pub uninterp spec fn base64_bytes(text: Seq<char>) -> Option<Seq<u8>>;

/// Decodes base64 through `decode` of `base64::engine::general_purpose::STANDARD`. Claimed of
/// it: whether there is a result, and which bytes it holds, depends on the text alone.
#[verifier::external_body]
pub(crate) fn decode_base64(text: &str) -> (r: Option<Vec<u8>>)
    ensures
        (match r {
            Some(bytes) => Some(bytes@),
            None => None,
        }) == base64_bytes(text@),
{
    base64::Engine::decode(&base64::engine::general_purpose::STANDARD, text).ok()
}

} // verus!
