//! Identifier normalizer: turns identifier-like values — base-58 text,
//! or an already-canonical key — into the canonical 32-byte public key.
//!
//! The base-58 codec itself is the business of the Solana SDK; this
//! module calls it through two trusted wrappers and states their
//! behaviour over the two uninterpreted names `key_of_text` and
//! `text_of_key`.

use vstd::prelude::*;

use crate::error::DecodeError;

verus! {

broadcast use vstd::array::group_array_axioms;

/// A canonical 32-byte public key: the normalized form of a
/// human-readable base-58 address.
#[derive(Clone, Copy, Debug)]
pub struct Pubkey {
    /// The raw key bytes.
    pub bytes: [u8; 32],
}

impl PartialEq for Pubkey {
    fn eq(&self, other: &Pubkey) -> (r: bool) {
        let mut i: usize = 0;
        while i < 32
            invariant
                i <= 32,
                forall|j: int| 0 <= j < i ==> self.bytes@[j] == other.bytes@[j],
            decreases 32 - i,
        {
            if self.bytes[i] != other.bytes[i] {
                return false;
            }
            i = i + 1;
        }
        proof {
            assert(self.bytes@ =~= other.bytes@);
        }
        true
    }
}

impl vstd::std_specs::cmp::PartialEqSpecImpl for Pubkey {
    open spec fn obeys_eq_spec() -> bool {
        true
    }

    open spec fn eq_spec(&self, other: &Pubkey) -> bool {
        self.bytes@ == other.bytes@
    }
}

/// The canonical 32-byte key that a piece of base-58 text denotes, if
/// any: `None` when the text is not valid base-58 or decodes to a byte
/// length other than 32.  Names the result of
/// `solana_sdk::pubkey::Pubkey::from_str`, which depends on the text
/// alone.
pub uninterp spec fn key_of_text(s: Seq<char>) -> Option<Seq<u8>>;

/// The base-58 text of a 32-byte key.  Names the result of the `Display`
/// impl of `solana_sdk::pubkey::Pubkey`, which depends on the key bytes
/// alone.
pub uninterp spec fn text_of_key(k: Seq<u8>) -> Seq<char>;

/// Relies on `solana_sdk::pubkey::Pubkey::from_str`: strict base-58
/// decoding to exactly 32 bytes, failing on any character outside the
/// base-58 alphabet and on any decoded length other than 32.
#[verifier::external_body]
fn parse_key_text(s: &str) -> (r: Option<Pubkey>)
    ensures
        match r {
            Some(k) => key_of_text(s@) == Some(k.bytes@),
            None => key_of_text(s@) is None,
        },
{
    match <solana_sdk::pubkey::Pubkey as core::str::FromStr>::from_str(s) {
        Ok(p) => Some(Pubkey { bytes: p.to_bytes() }),
        Err(_) => None,
    }
}

/// Relies on the `Display` impl of `solana_sdk::pubkey::Pubkey`: the
/// base-58 text of the 32 key bytes.  Base-58 encoding and decoding are
/// mutually inverse, so `Pubkey::from_str` maps the returned text back
/// to exactly these bytes.
#[verifier::external_body]
fn render_key_text(k: &Pubkey) -> (r: String)
    ensures
        r@ == text_of_key(k.bytes@),
        key_of_text(r@) == Some(k.bytes@),
{
    solana_sdk::pubkey::Pubkey::new_from_array(k.bytes).to_string()
}

impl Pubkey {
    /// The base-58 textual form of this key; normalizing that text back
    /// yields exactly this key's bytes.
    pub fn to_base58(&self) -> (r: String)
        ensures
            r@ == text_of_key(self.bytes@),
            key_of_text(r@) == Some(self.bytes@),
    {
        render_key_text(self)
    }
}

/// One conversion capability over anything identifier-like: owned or
/// borrowed base-58 text, or the canonical key itself.  Calling code can
/// be generic over the representation without knowing which concrete
/// form it holds.
pub trait ToPubkey {
    /// The canonical key this value denotes, if any.
    spec fn key_spec(&self) -> Option<Seq<u8>>;

    /// Normalizes this value to the canonical 32-byte key; fails with a
    /// decode error exactly when the value denotes no such key.
    fn to_pubkey(&self) -> (r: Result<Pubkey, DecodeError>)
        ensures
            match r {
                Ok(k) => self.key_spec() == Some(k.bytes@),
                Err(e) => self.key_spec() is None && e == DecodeError::InvalidIdentifier,
            },
    ;
}

impl ToPubkey for str {
    open spec fn key_spec(&self) -> Option<Seq<u8>> {
        key_of_text(self@)
    }

    fn to_pubkey(&self) -> (r: Result<Pubkey, DecodeError>) {
        match parse_key_text(self) {
            Some(k) => Ok(k),
            None => Err(DecodeError::InvalidIdentifier),
        }
    }
}

impl ToPubkey for String {
    open spec fn key_spec(&self) -> Option<Seq<u8>> {
        key_of_text(self@)
    }

    fn to_pubkey(&self) -> (r: Result<Pubkey, DecodeError>) {
        self.as_str().to_pubkey()
    }
}

impl ToPubkey for Pubkey {
    open spec fn key_spec(&self) -> Option<Seq<u8>> {
        Some(self.bytes@)
    }

    /// Normalizing an already-canonical key is a pure identity copy and
    /// cannot fail.
    fn to_pubkey(&self) -> (r: Result<Pubkey, DecodeError>)
        ensures
            r == Ok::<Pubkey, DecodeError>(*self),
    {
        Ok(*self)
    }
}

impl<T: ToPubkey + ?Sized> ToPubkey for &T {
    open spec fn key_spec(&self) -> Option<Seq<u8>> {
        (**self).key_spec()
    }

    fn to_pubkey(&self) -> (r: Result<Pubkey, DecodeError>) {
        (**self).to_pubkey()
    }
}

/// Round trip: the base-58 text of any canonical key normalizes back to
/// exactly that key.
pub fn base58_round_trip(k: &Pubkey) -> (r: Result<Pubkey, DecodeError>)
    ensures
        r == Ok::<Pubkey, DecodeError>(*k),
{
    let text = k.to_base58();
    let normalized = text.to_pubkey();
    proof {
        if let Ok(k2) = normalized {
            assert(k2.bytes =~= k.bytes);
        }
    }
    normalized
}

} // verus!
