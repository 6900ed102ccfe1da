use raydium_monitor::error::DecodeError;
use raydium_monitor::pubkey::{base58_round_trip, Pubkey, ToPubkey};

fn sample_key() -> Pubkey {
    let mut bytes = [0u8; 32];
    for (i, b) in bytes.iter_mut().enumerate() {
        *b = (i as u8) * 7 + 1;
    }
    Pubkey { bytes }
}

#[test]
fn canonical_key_normalizes_to_itself() {
    let k = sample_key();
    assert_eq!(k.to_pubkey(), Ok(k));
}

#[test]
fn key_reference_normalizes_to_itself() {
    let k = sample_key();
    let r = &k;
    assert_eq!(r.to_pubkey(), Ok(k));
}

#[test]
fn base58_text_round_trips() {
    let k = sample_key();
    let text = k.to_base58();
    assert_eq!(text.to_pubkey(), Ok(k));
    assert_eq!(text.as_str().to_pubkey(), Ok(k));
    assert_eq!(base58_round_trip(&k), Ok(k));
}

#[test]
fn zero_key_has_known_base58_text() {
    let k = Pubkey { bytes: [0u8; 32] };
    // Base-58 writes a zero byte as the digit '1'; a 32-byte zero key is
    // 32 ones, so the text differs from the raw bytes.
    assert_eq!(k.to_base58(), "1".repeat(32));
    let back = "11111111111111111111111111111111"
        .to_pubkey()
        .expect("the canonical zero-key text must normalize");
    assert_eq!(back, k);
}

#[test]
fn base58_text_matches_solana_sdk() {
    let k = sample_key();
    let sdk_text = solana_sdk::pubkey::Pubkey::new_from_array(k.bytes).to_string();
    assert_eq!(k.to_base58(), sdk_text);
}

#[test]
fn invalid_characters_fail() {
    // '0', 'O', 'I' and 'l' are outside the base-58 alphabet.
    for text in [
        "0000000000000000000000000000000000000000000",
        "OOOOOOOOOOOOOOOOOOOOOOOOOOOOOOOOOOOOOOOOOOO",
        "IIIIIIIIIIIIIIIIIIIIIIIIIIIIIIIIIIIIIIIIIII",
        "llllllllllllllllllllllllllllllllllllllllll",
        "not a key!",
    ] {
        assert_eq!(text.to_pubkey(), Err(DecodeError::InvalidIdentifier));
    }
}

#[test]
fn wrong_decoded_length_fails() {
    // Valid base-58 characters, but far too few bytes once decoded.
    assert_eq!("abc".to_pubkey(), Err(DecodeError::InvalidIdentifier));
    assert_eq!("".to_pubkey(), Err(DecodeError::InvalidIdentifier));
    // One digit too many: decodes to more than 32 bytes.
    let too_long = "1".repeat(45);
    assert_eq!(
        too_long.as_str().to_pubkey(),
        Err(DecodeError::InvalidIdentifier)
    );
}

#[test]
fn owned_and_borrowed_text_agree() {
    let k = sample_key();
    let text: String = k.to_base58();
    let by_string = text.to_pubkey();
    let by_str = text.as_str().to_pubkey();
    let by_ref = (&text).to_pubkey();
    assert_eq!(by_string, by_str);
    assert_eq!(by_string, by_ref);
    assert_eq!(by_string, Ok(k));
}
