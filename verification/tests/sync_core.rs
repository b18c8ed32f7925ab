use asset_sync::cache::is_cached;
use asset_sync::console::{ConsoleMessage, CorruptedMetadataAction, State};
use asset_sync::console::render_console_message;
use asset_sync::hash::{sha1_hash, Sha1Hash};
use asset_sync::integrity::{verify, VerificationResult};
use asset_sync::resolve::{create_asset_url, resolve};

use base64::Engine;

const HASH_A: &str = "0123456789abcdef0123456789abcdef01234567";

fn standard_base64(bytes: &[u8]) -> Vec<u8> {
    let engine = base64::engine::GeneralPurpose::new(
        &base64::alphabet::STANDARD,
        base64::engine::GeneralPurposeConfig::new(),
    );
    engine.encode(bytes).into_bytes()
}

#[test]
fn resolve_gives_prefixed_url_and_path() {
    let h = Sha1Hash::parse_hex(HASH_A).unwrap();
    let (url, path) = resolve(&h, "/srv/mc");
    assert_eq!(
        url,
        format!("https://resources.download.minecraft.net/01/{HASH_A}")
    );
    assert_eq!(path, format!("/srv/mc/assets/objects/01/{HASH_A}"));
}

#[test]
fn resolve_is_deterministic() {
    let h1 = Sha1Hash::parse_hex(HASH_A).unwrap();
    let h2 = Sha1Hash::parse_hex(HASH_A).unwrap();
    let (url1, path1) = resolve(&h1, "/data");
    let (url2, path2) = resolve(&h2, "/data");
    assert_eq!(url1, url2);
    assert_eq!(path1, path2);
    assert_eq!(create_asset_url(&h1), url1);
}

#[test]
fn parse_hex_accepts_canonical_and_uppercase() {
    assert!(Sha1Hash::parse_hex(HASH_A).is_some());
    let upper = HASH_A.to_uppercase();
    let from_upper = Sha1Hash::parse_hex(&upper).unwrap();
    let from_lower = Sha1Hash::parse_hex(HASH_A).unwrap();
    assert!(from_upper == from_lower);
}

#[test]
fn parse_hex_rejects_malformed() {
    assert!(Sha1Hash::parse_hex("").is_none());
    assert!(Sha1Hash::parse_hex("0123456789abcdef").is_none());
    assert!(Sha1Hash::parse_hex(&format!("{HASH_A}ab")).is_none());
    let with_bad_char = format!("g{}", &HASH_A[1..]);
    assert!(Sha1Hash::parse_hex(&with_bad_char).is_none());
}

#[test]
fn human_readable_round_trips() {
    let h = Sha1Hash::parse_hex(HASH_A).unwrap();
    assert_eq!(h.human_readable(), HASH_A.to_string());
    let reparsed = Sha1Hash::parse_hex(&h.human_readable()).unwrap();
    assert!(reparsed == h);
}

#[test]
fn cache_is_conservative_on_missing_data() {
    let file = vec![1u8, 2, 3, 4];
    let header = standard_base64(&md5::compute(&file).0);
    // No digest header.
    assert!(!is_cached(4, None, Some(file.clone())));
    // No local file.
    assert!(!is_cached(4, Some(header.clone()), None));
    // Neither.
    assert!(!is_cached(4, None, None));
    // Wrong local size.
    assert!(!is_cached(5, Some(header.clone()), Some(file.clone())));
    // Header that is not valid base64.
    assert!(!is_cached(4, Some(vec![0xff, 0xfe]), Some(file)));
}

#[test]
fn cache_hit_flips_on_single_byte_change() {
    let file = vec![10u8, 20, 30, 40, 50, 60];
    let header = standard_base64(&md5::compute(&file).0);
    assert!(is_cached(6, Some(header.clone()), Some(file.clone())));
    let mut mutated = file;
    mutated[3] ^= 0x01;
    assert!(!is_cached(6, Some(header), Some(mutated)));
}

#[test]
fn cache_compares_real_md5_not_raw_file_bytes() {
    // A 16-byte file whose digest header encodes the file bytes
    // themselves: only a real MD5 computation rejects this.
    let file: Vec<u8> = (0u8..16).collect();
    let header = standard_base64(&file);
    assert!(!is_cached(16, Some(header), Some(file)));
}

#[test]
fn cache_requires_base64_encoded_header() {
    // The raw digest without base64 encoding must never validate.
    let file = vec![7u8, 7, 7];
    let raw_digest = md5::compute(&file).0.to_vec();
    assert!(!is_cached(3, Some(raw_digest), Some(file)));
}

#[test]
fn verify_accepts_authentic_bytes() {
    let bytes = vec![1u8, 2, 3, 4, 5, 6, 7, 8, 9, 10];
    let expected = sha1_hash(&bytes);
    assert!(matches!(
        verify(&bytes, 10, &expected, false),
        VerificationResult::Valid
    ));
}

#[test]
fn verify_rejects_wrong_size() {
    let bytes = vec![1u8, 2, 3, 4, 5, 6, 7, 8, 9];
    let expected = sha1_hash(&vec![1u8, 2, 3, 4, 5, 6, 7, 8, 9, 10]);
    match verify(&bytes, 10, &expected, false) {
        VerificationResult::Mismatch(actual) => {
            assert!(actual == sha1_hash(&bytes));
        }
        _ => panic!("expected a mismatch"),
    }
}

#[test]
fn verify_computes_real_sha1() {
    // Twenty bytes that spell their own expected digest: only a real
    // SHA-1 computation rejects them.
    let bytes: Vec<u8> = (0u8..20).collect();
    let hex: String = bytes.iter().map(|b| format!("{b:02x}")).collect();
    let expected = Sha1Hash::parse_hex(&hex).unwrap();
    assert!(matches!(
        verify(&bytes, 20, &expected, false),
        VerificationResult::Mismatch(_)
    ));
}

#[test]
fn verify_bypass_accepts_anything() {
    let bytes = vec![0u8; 3];
    let expected = sha1_hash(&vec![9u8; 8]);
    assert!(matches!(
        verify(&bytes, 999, &expected, true),
        VerificationResult::ForciblyAccepted
    ));
}

#[test]
fn console_line_for_checking() {
    let h = Sha1Hash::parse_hex(HASH_A).unwrap();
    let m = ConsoleMessage { item_index: 3, hash: h, state: State::Checking };
    assert_eq!(
        render_console_message(12, &m),
        format!("[0003/0012] {HASH_A}: checking")
    );
}

#[test]
fn console_line_pads_only_below_four_digits() {
    let h = Sha1Hash::parse_hex(HASH_A).unwrap();
    let m = ConsoleMessage { item_index: 12345, hash: h, state: State::Done };
    assert_eq!(
        render_console_message(67890, &m),
        format!("[12345/67890] {HASH_A}: done")
    );
}

#[test]
fn console_line_for_mismatch_names_actual_hash() {
    let h = Sha1Hash::parse_hex(HASH_A).unwrap();
    let actual = sha1_hash(&vec![1u8, 2, 3]);
    let actual_hex = actual.human_readable();
    let m = ConsoleMessage {
        item_index: 7,
        hash: h,
        state: State::CorruptedMetadata(CorruptedMetadataAction::Skipped { actual_hash: actual }),
    };
    assert_eq!(
        render_console_message(9, &m),
        format!("[0007/0009] {HASH_A}: hash mismatch. actual hash is {actual_hex}; skipping")
    );
}

#[test]
fn console_line_for_remaining_states() {
    let h = Sha1Hash::parse_hex(HASH_A).unwrap();
    let cached = ConsoleMessage {
        item_index: 1,
        hash: h.clone(),
        state: State::Cached,
    };
    assert_eq!(
        render_console_message(2, &cached),
        format!("[0001/0002] {HASH_A}: cached; skipping")
    );
    let writing = ConsoleMessage {
        item_index: 1,
        hash: h.clone(),
        state: State::Processing,
    };
    assert_eq!(
        render_console_message(2, &writing),
        format!("[0001/0002] {HASH_A}: writing")
    );
    let forced = ConsoleMessage {
        item_index: 2,
        hash: h,
        state: State::CorruptedMetadata(CorruptedMetadataAction::ForciblyContinued),
    };
    assert_eq!(
        render_console_message(2, &forced),
        format!(
            "[0002/0002] {HASH_A}: actual size or hash did not match, but it will be SAVED!! \
             Please be aware that this feature is NOT SUPPORTED. USE AT YOUR OWN PERIL."
        )
    );
}
