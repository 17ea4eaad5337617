use vault_core::errors::AppError;
use vault_core::log_redaction::LogRedactor;
use vault_core::namespaced_errors::{error_code_string, FeeError, PolicyError, VaultError};
use vault_core::note_privacy::{NoteEnvelope, NoteSanitizer};
use vault_core::rounding::calculate_fee_with_bankers_round;
use vault_core::safe_math::MathError;
use vault_core::secret_hash::{hash_secret, verify_secret};
use vault_core::secure_ids::SecureIdGenerator;
use vault_core::signed_receipt::{ReceiptVerifier, SignedReceipt};
use vault_core::validation::VaultValidator;
use vault_core::vault_validation::{AssetDecimalRegistry, VaultValidationError};

#[test]
fn test_redact_vault_id() {
    let redactor = LogRedactor::new("test_salt");
    let redacted = redactor.redact_vault_id("vault_abc123");
    assert!(redacted.starts_with("vault:"));
    assert_ne!(redacted, "vault_abc123");
}

#[test]
fn test_redact_address() {
    let redactor = LogRedactor::new("test_salt");
    let redacted = redactor.redact_address("GAEXAMPLEADDRESS123");
    assert!(redacted.starts_with("addr:"));
}

#[test]
fn test_hash_consistency() {
    let redactor = LogRedactor::new("salt");
    let h1 = redactor.hash_for_audit("test");
    let h2 = redactor.hash_for_audit("test");
    assert_eq!(h1, h2);
}

#[test]
fn test_different_salt_different_hash() {
    let r1 = LogRedactor::new("salt1");
    let r2 = LogRedactor::new("salt2");
    assert_ne!(r1.hash_for_audit("test"), r2.hash_for_audit("test"));
}

#[test]
fn audit_hash_is_salted_sha256_hex() {
    // SHA-256 of "" followed by "abc" is the well-known digest of "abc".
    let r = LogRedactor::new("");
    assert_eq!(
        r.hash_for_audit("abc"),
        "ba7816bf8f01cfea414140de5dae2223b00361a396177a9cb410ff61f20015ad"
    );
    let split = LogRedactor::new("a");
    assert_eq!(split.hash_for_audit("bc"), r.hash_for_audit("abc"));
    assert_eq!(r.redact_vault_id("abc"), "vault:ba7816bf8f01cfea");
    assert_eq!(r.redact_address("abc"), "addr:ba7816bf8f01cfea");
    assert_eq!(r.redact_log_line("vault_1 moved to addr_2"), "vault_1 moved to addr_2");
}

#[test]
fn test_generate_vault_id_deterministic() {
    let gen = SecureIdGenerator::new("test_salt");
    let id1 = gen.generate_vault_id("mgr1", "My Vault");
    let id2 = gen.generate_vault_id("mgr1", "My Vault");
    assert_eq!(id1, id2);
    assert!(id1.starts_with("vault_"));
}

#[test]
fn test_different_inputs_different_ids() {
    let gen = SecureIdGenerator::new("test_salt");
    let id1 = gen.generate_vault_id("mgr1", "Vault A");
    let id2 = gen.generate_vault_id("mgr1", "Vault B");
    assert_ne!(id1, id2);
}

#[test]
fn test_generate_secret_ref() {
    let gen = SecureIdGenerator::new("test_salt");
    let secret = gen.generate_secret_ref("vault_abc", "signing");
    assert!(secret.starts_with("secret_"));
}

#[test]
fn test_different_salt_different_ids() {
    let gen1 = SecureIdGenerator::new("salt1");
    let gen2 = SecureIdGenerator::new("salt2");
    let id1 = gen1.generate_vault_id("mgr1", "Vault");
    let id2 = gen2.generate_vault_id("mgr1", "Vault");
    assert_ne!(id1, id2);
}

#[test]
fn generated_id_is_truncated_digest_hex() {
    let gen = SecureIdGenerator::new("");
    // first 16 bytes of SHA-256("abc")
    assert_eq!(gen.generate_vault_id("a", "bc"), "vault_ba7816bf8f01cfea414140de5dae2223");
    assert_eq!(gen.generate_secret_ref("ab", "c"), "secret_ba7816bf8f01cfea414140de5dae2223");
}

#[test]
fn hash_then_verify_succeeds() {
    let hash = hash_secret("my-webhook-secret").expect("hashing should succeed");
    assert!(verify_secret("my-webhook-secret", &hash));
}

#[test]
fn verify_rejects_wrong_secret() {
    let hash = hash_secret("my-webhook-secret").expect("hashing should succeed");
    assert!(!verify_secret("not-the-secret", &hash));
}

#[test]
fn verify_rejects_malformed_hash() {
    assert!(!verify_secret("anything", "not-a-real-hash"));
}

#[test]
fn same_secret_hashes_differently_each_time() {
    let first = hash_secret("repeat-secret").expect("hashing should succeed");
    let second = hash_secret("repeat-secret").expect("hashing should succeed");
    assert_ne!(first, second, "salts must be randomized per hash");
    assert!(verify_secret("repeat-secret", &first));
    assert!(verify_secret("repeat-secret", &second));
}

#[test]
fn note_envelope_pads_and_truncates() {
    assert_eq!(NoteEnvelope::pad_to_fixed_size(&[9, 9], 5), vec![9, 9, 0, 1, 2]);
    assert_eq!(NoteEnvelope::pad_to_fixed_size(&[1, 2, 3, 4], 2), vec![1, 2]);
    let big = NoteEnvelope::pad_to_fixed_size(&[], 300);
    assert_eq!(big.len(), 300);
    assert_eq!(big[255], 255);
    assert_eq!(big[256], 0);
    let e = NoteEnvelope::from_string("hi", 4);
    assert_eq!(e.padded_data, vec![b'h', b'i', 0, 1]);
    assert_eq!(e.reveal_size_hint(), 4);
    let n = NoteEnvelope::new(&[7; 10], 3);
    assert_eq!(n.padded_data, vec![7, 7, 7]);
    assert_eq!(n.fixed_size, 3);
}

#[test]
fn note_sanitizer_filters_and_redacts() {
    assert_eq!(NoteSanitizer::sanitize_metadata("a\u{0}b\nc\td\u{7f}e\u{85}f"), "ab\nc\tdef");
    assert_eq!(
        NoteSanitizer::redact_counterparties("from:alice to:bob"),
        "from: [REDACTED]alice to: [REDACTED]bob"
    );
    assert_eq!(
        NoteSanitizer::redact_counterparties("counterparty:x"),
        "counterparty: [REDACTED]x"
    );
    let h = NoteSanitizer::hash_identifier("id-1");
    assert_eq!(h.len(), 16);
    assert!(h.chars().all(|c| c.is_ascii_hexdigit() && !c.is_ascii_uppercase()));
    assert_eq!(h, NoteSanitizer::hash_identifier("id-1"));
}

#[test]
fn test_calculate_fee_with_bankers_round_basic() {
    assert_eq!(calculate_fee_with_bankers_round(1000, 250, 0), 25);
}

#[test]
fn test_calculate_fee_with_bankers_round_min_fee() {
    assert_eq!(calculate_fee_with_bankers_round(100, 10, 1), 1);
}

#[test]
fn test_calculate_fee_with_bankers_round_zero_bps() {
    assert_eq!(calculate_fee_with_bankers_round(1000, 0, 0), 0);
}

#[test]
fn test_calculate_fee_with_bankers_round_small_balance() {
    assert_eq!(calculate_fee_with_bankers_round(10, 100, 1), 1);
}

#[test]
fn fee_rounds_half_to_even() {
    // 1 * 5000 bps = 0.5 -> 0; 3 * 5000 bps = 1.5 -> 2; 5 * 5000 bps = 2.5 -> 2
    assert_eq!(calculate_fee_with_bankers_round(1, 5000, 0), 0);
    assert_eq!(calculate_fee_with_bankers_round(3, 5000, 0), 2);
    assert_eq!(calculate_fee_with_bankers_round(5, 5000, 0), 2);
    assert_eq!(calculate_fee_with_bankers_round(7, 5000, 0), 4);
    // 0.6 rounds up, 0.4 rounds down
    assert_eq!(calculate_fee_with_bankers_round(6, 1000, 0), 1);
    assert_eq!(calculate_fee_with_bankers_round(4, 1000, 0), 0);
    assert_eq!(calculate_fee_with_bankers_round(u64::MAX, u64::MAX, 0), u64::MAX);
}

#[test]
fn test_receipt_creation() {
    let receipt = SignedReceipt::new("pay1".to_string(), 1000, "receiver_a".to_string(), "sender_b".to_string());
    assert_eq!(receipt.amount, 1000);
    assert_eq!(receipt.payment_id, "pay1");
}

#[test]
fn test_canonical_bytes() {
    let receipt = SignedReceipt::new("pay1".to_string(), 1000, "receiver_a".to_string(), "sender_b".to_string());
    let bytes = receipt.to_canonical_bytes();
    assert!(!bytes.is_empty());
    assert!(bytes.windows(4).any(|w| w == b"pay1"));
}

#[test]
fn test_verify_empty_sig() {
    let mut receipt = SignedReceipt::new("pay1".to_string(), 1000, "r".to_string(), "s".to_string());
    assert!(!receipt.verify_signature());
    receipt.signature = vec![1, 2, 3];
    assert!(receipt.verify_signature());
}

#[test]
fn test_verifier_rejects_no_keys() {
    let verifier = ReceiptVerifier::new();
    let receipt = SignedReceipt::new("pay1".to_string(), 1000, "r".to_string(), "s".to_string());
    assert!(!verifier.verify(&receipt));
}

#[test]
fn canonical_bytes_layout_and_trusted_verifier() {
    let mut receipt = SignedReceipt::new("p".to_string(), 258, "r".to_string(), "s".to_string());
    assert_eq!(receipt.to_canonical_bytes(), vec![b'p', 0, 0, 0, 0, 0, 0, 1, 2, b'r', b's']);
    let mut verifier = ReceiptVerifier::new();
    verifier.add_trusted_key(vec![1]);
    assert!(!verifier.verify(&receipt));
    receipt.signature = vec![5];
    assert!(verifier.verify(&receipt));
}

#[test]
fn test_validate_empty_config() {
    assert!(VaultValidator::validate_vault_config("").is_err());
}

#[test]
fn test_validate_valid_config() {
    assert!(VaultValidator::validate_vault_config("{}").is_ok());
}

#[test]
fn empty_config_is_a_bad_request() {
    match VaultValidator::validate_vault_config("") {
        Err(AppError::BadRequest(m)) => assert_eq!(m, "vault config must not be empty"),
        other => panic!("unexpected {:?}", other),
    }
}

#[test]
fn asset_registry_validates_decimals() {
    let mut reg = AssetDecimalRegistry::new();
    reg.register("USDC", 6);
    assert!(reg.validate_asset("USDC", 6).is_ok());
    match reg.validate_asset("USDC", 7) {
        Err(VaultValidationError::DecimalMismatch { expected, actual }) => {
            assert_eq!((expected, actual), (6, 7));
        }
        _ => panic!("expected a mismatch"),
    }
    match reg.validate_asset("XLM", 7) {
        Err(e @ VaultValidationError::UnknownDecimals(..)) => {
            assert_eq!(e.message(), "Asset decimals 7 not in registry for XLM");
        }
        _ => panic!("expected unknown decimals"),
    }
    let mismatch = VaultValidationError::DecimalMismatch { expected: 6, actual: 18 };
    assert_eq!(mismatch.message(), "Decimal mismatch: expected 6, got 18");
    assert_eq!(reg.get_decimals("USDC"), Some(6));
    assert_eq!(reg.get_decimals("XLM"), None);
    reg.register("USDC", 7);
    assert!(reg.validate_asset("USDC", 7).is_ok());
}

#[test]
fn namespaced_error_messages() {
    assert_eq!(VaultError::NotFound.message(), "[VAULT-003] Vault does not exist");
    assert_eq!(FeeError::ClaimExpired.message(), "[FEE-005] Claim window expired");
    assert_eq!(PolicyError::QuotaExceeded.message(), "[POLICY-003] Quota exceeded");
    assert_eq!(error_code_string("VAULT-001"), "[VAULT-001]");
    assert_eq!(MathError::DivisionByZero.message(), "Division by zero");
}
