use gitfox::error::AppError;
use gitfox::gpg::{
    algorithm_from_code, armored_public_key, email_matches, equal_ignoring_ascii_case, failed_signature_status,
    key_expired, key_verified_for_user, parse_gpg_colon_output, scan_signature_status, signer_verdict,
    trim_white_space,
};

const LISTING: &str = "\
pub:-:4096:1:ABCDEF0123456789:1600000000:1700000000::-:::scESC:::::::
fpr:::::::::0123456789ABCDEF0123456789ABCDEF01234567:
uid:-::::1600000000::HASH::Alice Example <alice@example.com>:::::::::
uid:-::::1600000000::HASH::Alice Work <alice@work.example>:::::::::
uid:-::::1600000000::HASH::Alice Again <alice@example.com>:::::::::
sub:-:4096:1:1111222233334444:1600000001:::-:::e:::::::
fpr:::::::::AAAABBBBCCCCDDDDEEEEFFFF0000111122223333:
sub:-:256:22:5555666677778888:1600000002:::-:::s:::::::
fpr:::::::::9999888877776666555544443333222211110000:
";

#[test]
fn algorithms() {
    assert_eq!(algorithm_from_code("1"), "RSA");
    assert_eq!(algorithm_from_code("3"), "RSA");
    assert_eq!(algorithm_from_code("16"), "Elgamal");
    assert_eq!(algorithm_from_code("17"), "DSA");
    assert_eq!(algorithm_from_code("18"), "ECDH");
    assert_eq!(algorithm_from_code("19"), "ECDSA");
    assert_eq!(algorithm_from_code("22"), "EdDSA");
    assert_eq!(algorithm_from_code("99"), "Unknown(99)");
}

#[test]
fn colon_listing_is_parsed() {
    let k = parse_gpg_colon_output(LISTING).unwrap();
    assert_eq!(k.fingerprint, "0123456789ABCDEF0123456789ABCDEF01234567");
    assert_eq!(k.primary_key_id, "ABCDEF0123456789");
    assert_eq!(k.algorithm, "RSA");
    assert_eq!(k.key_size, Some(4096));
    assert_eq!(k.created_at, Some(1600000000));
    assert_eq!(k.expires_at, Some(1700000000));
    assert_eq!(k.emails, vec!["alice@example.com".to_string(), "alice@work.example".to_string()]);
    assert!(k.can_sign && k.can_encrypt && k.can_certify);
    assert_eq!(k.subkeys.len(), 2);
    assert_eq!(k.subkeys[0].key_id, "1111222233334444");
    assert_eq!(k.subkeys[0].fingerprint, "AAAABBBBCCCCDDDDEEEEFFFF0000111122223333");
    assert!(k.subkeys[0].can_encrypt && !k.subkeys[0].can_sign);
    assert_eq!(k.subkeys[0].expires_at, None);
    assert_eq!(k.subkeys[1].algorithm, "EdDSA");
    assert_eq!(k.subkeys[1].key_size, Some(256));
    assert!(k.subkeys[1].can_sign);
}

#[test]
fn listing_without_fingerprint_is_refused() {
    match parse_gpg_colon_output("pub:-:4096:1:ABC:1600000000:::-:::sc:::::::\n") {
        Err(AppError::BadRequest(m)) => assert_eq!(m, "Could not extract fingerprint from GPG key"),
        _ => panic!(),
    }
}

#[test]
fn signature_status_lines() {
    let out = "[GNUPG:] NEWSIG\n[GNUPG:] GOODSIG ABCDEF0123456789 Alice\n[GNUPG:] VALIDSIG 0123456789ABCDEF 2024\n";
    let s = scan_signature_status(out);
    assert!(s.good_sig);
    assert_eq!(s.key_id, Some("ABCDEF0123456789".to_string()));
    let s = scan_signature_status("[GNUPG:] VALIDSIG FEED 2024\n");
    assert!(!s.good_sig);
    assert_eq!(s.key_id, Some("FEED".to_string()));
    let s = scan_signature_status("nothing\n");
    assert!(!s.good_sig && s.key_id.is_none());
}

#[test]
fn failed_signature_kinds() {
    assert_eq!(failed_signature_status("[GNUPG:] NO_PUBKEY X"), "unknown_key");
    assert_eq!(failed_signature_status("[GNUPG:] BADSIG X"), "bad_signature");
    assert_eq!(failed_signature_status("[GNUPG:] EXPKEYSIG X"), "expired_key");
    assert_eq!(failed_signature_status("[GNUPG:] REVKEYSIG X"), "revoked_key");
    assert_eq!(failed_signature_status("???"), "unknown_key");
}

#[test]
fn email_comparison_ignores_ascii_case() {
    assert!(equal_ignoring_ascii_case("Alice@Example.COM", "alice@example.com"));
    assert!(!equal_ignoring_ascii_case("alice@example.com", "alice@example.org"));
    let emails = vec!["bob@x.org".to_string(), "Alice@Example.com".to_string()];
    assert!(email_matches(&emails, "alice@example.com"));
    assert!(!email_matches(&emails, "carol@example.com"));
}

#[test]
fn signer_verdicts() {
    assert_eq!(signer_verdict(true, false, true, true), (false, "revoked_key"));
    assert_eq!(signer_verdict(false, true, true, true), (false, "expired_key"));
    assert_eq!(signer_verdict(false, false, true, true), (true, "verified"));
    assert_eq!(signer_verdict(false, false, true, false), (true, "unverified"));
    assert_eq!(signer_verdict(false, false, false, true), (false, "bad_email"));
}

#[test]
fn armored_keys() {
    let k = "  \n-----BEGIN PGP PUBLIC KEY BLOCK-----\nabc\n-----END PGP PUBLIC KEY BLOCK-----\n\t ";
    assert_eq!(armored_public_key(k).unwrap(), k.trim());
    match armored_public_key("ssh-rsa AAAA") {
        Err(AppError::BadRequest(m)) => {
            assert_eq!(m, "Invalid GPG key format. Please provide an ASCII-armored public key.")
        }
        _ => panic!(),
    }
    assert_eq!(trim_white_space("\u{3000} a b \u{85}"), "a b");
    assert_eq!(trim_white_space("   "), "");
}

#[test]
fn new_key_verification() {
    let key = vec!["Alice@Example.com".to_string(), "other@x".to_string()];
    assert!(key_verified_for_user(&key, &vec!["alice@example.com".to_string()]));
    assert!(!key_verified_for_user(&key, &vec!["bob@example.com".to_string()]));
    assert!(!key_verified_for_user(&vec![], &vec!["bob@example.com".to_string()]));
    assert!(key_expired(Some(10), 11));
    assert!(!key_expired(Some(10), 10));
    assert!(!key_expired(None, 10));
}
