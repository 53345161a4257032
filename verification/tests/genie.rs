use nes_core::errors::GenieError;
use nes_core::genie::{apply_genie_codes, GenieCode};

#[test]
fn alphabet_decodes_to_documented_nibbles() {
    // the whole 16-symbol alphabet is not itself a valid code length...
    let hex = GenieCode::parse("APZLGITYEOXUKSVN").err();
    assert!(matches!(hex, Some(GenieError::InvalidLength(16))));
    // ...so feed it through as two 8-character codes and check each
    // symbol's documented nibble value
    let nibbles = GenieCode::parse("APZLGITY").expect("valid code");
    assert_eq!(nibbles, vec![0x0, 0x1, 0x2, 0x3, 0x4, 0x5, 0x6, 0x7]);
    let nibbles = GenieCode::parse("EOXUKSVN").expect("valid code");
    assert_eq!(nibbles, vec![0x8, 0x9, 0xA, 0xB, 0xC, 0xD, 0xE, 0xF]);
}

#[test]
fn published_six_character_code_decodes_to_known_target() {
    // The classic infinite-lives code: documented to patch address
    // 0x91D9 with 0xAD.
    let code = GenieCode::new(String::from("SXIOPO")).expect("valid code");
    assert_eq!(code.addr(), 0x91D9);
    assert_eq!(code.read(0x00), 0xAD);
    assert_eq!(code.read(0xFF), 0xAD);
    assert_eq!(code.code(), "SXIOPO");
}

#[test]
fn eight_character_code_patches_only_matching_reads() {
    let code = GenieCode::new(String::from("SLXPLOVS")).expect("valid code");
    assert_eq!(code.addr(), 0x9123);
    // with a compare byte, only a read of that byte is replaced
    assert_eq!(code.read(0xDE), 0xBD);
    assert_eq!(code.read(0xDD), 0xDD);
    assert_eq!(code.read(0x00), 0x00);
    assert_eq!(code.read(0xBD), 0xBD);
}

#[test]
fn wrong_length_is_rejected_with_the_length() {
    assert_eq!(
        GenieCode::new(String::from("APZLG")).err(),
        Some(GenieError::InvalidLength(5))
    );
    assert_eq!(
        GenieCode::new(String::from("APZLGIT")).err(),
        Some(GenieError::InvalidLength(7))
    );
    assert_eq!(
        GenieCode::new(String::new()).err(),
        Some(GenieError::InvalidLength(0))
    );
}

#[test]
fn first_bad_character_is_reported() {
    assert_eq!(
        GenieCode::new(String::from("APZLGB")).err(),
        Some(GenieError::InvalidCharacter('B'))
    );
    assert_eq!(
        GenieCode::new(String::from("AWZLGB")).err(),
        Some(GenieError::InvalidCharacter('W'))
    );
    // lower-case letters are outside the alphabet
    assert_eq!(
        GenieCode::new(String::from("apzlgi")).err(),
        Some(GenieError::InvalidCharacter('a'))
    );
}

#[test]
fn codes_compose_and_the_last_registered_wins() {
    let a = GenieCode::new(String::from("SXIOPO")).expect("valid code");
    let addr = a.addr();
    let other = GenieCode::new(String::from("SLXPLOVS")).expect("valid code");
    // one matching code applies; codes at other addresses do not interfere
    let codes = vec![other.clone(), a.clone()];
    assert_eq!(apply_genie_codes(&codes, addr, 0x55), 0xAD);
    assert_eq!(apply_genie_codes(&codes, 0x9123, 0xDE), 0xBD);
    assert_eq!(apply_genie_codes(&codes, 0x9124, 0x77), 0x77);
    // two codes with the same target: the one registered last wins
    let a_again = GenieCode::new(String::from("AXIOPO")).expect("valid code");
    assert_eq!(a_again.addr(), addr);
    assert_eq!(a_again.read(0x55), 0x28);
    let codes = vec![a.clone(), a_again.clone()];
    assert_eq!(apply_genie_codes(&codes, addr, 0x55), 0x28);
    let codes = vec![a_again, a];
    assert_eq!(apply_genie_codes(&codes, addr, 0x55), 0xAD);
}
