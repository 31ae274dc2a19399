use update_rs::integrity::{self, DownloadCheck};
use update_rs::UpdateError;

#[test]
fn test_parse_sha256_digest() {
    assert_eq!(integrity::parse_sha256_digest("sha256:ABCdef"), Some("abcdef".into()));
    assert_eq!(integrity::parse_sha256_digest("sha512:abc"), None);
    assert_eq!(integrity::parse_sha256_digest(""), None);
}

#[test]
fn parse_sha256_digest_trims_whitespace() {
    assert_eq!(integrity::parse_sha256_digest("sha256:  AB12 \n"), Some("ab12".into()));
    assert_eq!(integrity::parse_sha256_digest("sha256:"), Some(String::new()));
    assert_eq!(integrity::parse_sha256_digest("SHA256:ab"), None);
}

#[test]
fn to_hex_is_lowercase_two_digits_per_byte() {
    assert_eq!(integrity::to_hex(&[]), "");
    assert_eq!(integrity::to_hex(&[0x00, 0x0f, 0xab, 0xff]), "000fabff");
}

#[test]
fn hex_digest_reads_back() {
    let hex = integrity::to_hex(&[0xde, 0xad, 0xbe, 0xef]);
    let field = format!("sha256:{hex}");
    assert_eq!(integrity::parse_sha256_digest(&field), Some(hex));
}

#[test]
fn equal_ignoring_ascii_case_compares_letters_without_case() {
    assert!(integrity::equal_ignoring_ascii_case("ABCdef", "abcDEF"));
    assert!(!integrity::equal_ignoring_ascii_case("abc", "abd"));
    assert!(!integrity::equal_ignoring_ascii_case("abc", "abcd"));
}

const ABC_SHA256: &str = "ba7816bf8f01cfea414140de5dae2223b00361a396177a9cb410ff61f20015ad";

#[test]
fn download_check_accepts_matching_digest_in_chunks() {
    let mut check = DownloadCheck::new(Some(&ABC_SHA256.to_uppercase()));
    check.take_in(b"a");
    check.take_in(b"");
    check.take_in(b"bc");
    assert_eq!(check.finish(), Ok(()));
}

#[test]
fn download_check_rejects_other_bytes() {
    let mut check = DownloadCheck::new(Some(ABC_SHA256));
    check.take_in(b"abd");
    match check.finish() {
        Err(UpdateError::IntegrityMismatch { expected, actual }) => {
            assert_eq!(expected, ABC_SHA256);
            assert_ne!(actual, ABC_SHA256);
            assert_eq!(actual.len(), 64);
        }
        other => panic!("unexpected result: {other:?}"),
    }
}

#[test]
fn download_check_without_digest_accepts_anything() {
    let mut check = DownloadCheck::new(None);
    check.take_in(b"the actual bytes");
    assert_eq!(check.finish(), Ok(()));
}

#[test]
fn download_check_of_nothing_is_the_empty_digest() {
    let check = DownloadCheck::new(Some(
        "e3b0c44298fc1c149afbf4c8996fb92427ae41e4649b934ca495991b7852b855",
    ));
    assert_eq!(check.finish(), Ok(()));
}
