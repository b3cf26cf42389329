use std::io;
use std::path::Path;
use treeclip::errors::FileSystemError;
use treeclip::utils::{canonicalize_path, format_bytes, format_number, validate_path_exists};

#[test]
fn test_validate_path_exists_valid() {
    let result = validate_path_exists("/", Path::new("/").exists());
    assert!(result.is_ok());
}

#[test]
fn test_validate_path_exists_invalid() {
    let path = Path::new("/nonexistent/path");
    let result = validate_path_exists("/nonexistent/path", path.exists());
    assert!(result.is_err());

    let error_msg = format!("{:?}", result.unwrap_err());
    assert!(error_msg.contains("does not exist") || error_msg.contains("PathNotFound"));
}

#[test]
fn test_format_number_small() {
    assert_eq!(format_number(0), "0");
    assert_eq!(format_number(123), "123");
    assert_eq!(format_number(999), "999");
}

#[test]
fn test_format_number_with_separators() {
    assert_eq!(format_number(1_000), "1,000");
    assert_eq!(format_number(12_345), "12,345");
    assert_eq!(format_number(1_234_567), "1,234,567");
    assert_eq!(format_number(1_234_567_890), "1,234,567,890");
}

#[test]
fn test_format_number_negative() {
    assert_eq!(format_number(-1_000), "-1,000");
    assert_eq!(format_number(-1_234_567), "-1,234,567");
}

#[test]
fn format_number_extremes() {
    assert_eq!(format_number(i64::MAX), "9,223,372,036,854,775,807");
    assert_eq!(format_number(i64::MIN), "-9,223,372,036,854,775,808");
    assert_eq!(format_number(-1), "-1");
    assert_eq!(format_number(-12), "-12");
    assert_eq!(format_number(100_000), "100,000");
}

#[test]
fn format_number_counts_the_sign_as_a_character() {
    assert_eq!(format_number(-100), "-,100");
    assert_eq!(format_number(-100_000), "-,100,000");
}

#[test]
fn test_format_bytes_zero() {
    assert_eq!(format_bytes(0), "0 B");
}

#[test]
fn test_format_bytes_small() {
    assert_eq!(format_bytes(512), "512 B");
    assert_eq!(format_bytes(1023), "1023 B");
}

#[test]
fn test_format_bytes_kilobytes() {
    assert_eq!(format_bytes(1_024), "1.0 KB");
    assert_eq!(format_bytes(2_048), "2.0 KB");
    assert_eq!(format_bytes(10_240), "10.0 KB");
}

#[test]
fn test_format_bytes_megabytes() {
    assert_eq!(format_bytes(1_048_576), "1.0 MB");
    assert_eq!(format_bytes(5_242_880), "5.0 MB");
}

#[test]
fn test_format_bytes_gigabytes() {
    assert_eq!(format_bytes(1_073_741_824), "1.0 GB");
    assert_eq!(format_bytes(5_368_709_120), "5.0 GB");
}

#[test]
fn test_format_bytes_terabytes() {
    assert_eq!(format_bytes(1_099_511_627_776), "1.0 TB");
}

#[test]
fn test_format_bytes_decimal_precision() {
    assert_eq!(format_bytes(1_536), "1.5 KB");
    assert_eq!(format_bytes(1_572_864), "1.5 MB");
}

#[test]
fn format_bytes_rounds_to_the_nearest_tenth() {
    assert_eq!(format_bytes(1_000_000), "976.6 KB");
    assert_eq!(format_bytes(1_060_000_000), "1010.9 MB");
    assert_eq!(format_bytes(1_048_575), "1024.0 KB");
    // exactly halfway between two tenths: the even one is taken
    assert_eq!(format_bytes(1_280), "1.2 KB");
    assert_eq!(format_bytes(1_382), "1.3 KB");
    assert_eq!(format_bytes(1_126), "1.1 KB");
}

#[test]
fn format_bytes_stops_at_petabytes() {
    assert_eq!(format_bytes(1_125_899_906_842_624), "1.0 PB");
    assert_eq!(format_bytes(usize::MAX), "16384.0 PB");
}

#[test]
fn test_canonicalize_path_valid() {
    let result = canonicalize_path("/tmp/.", Ok("/tmp".to_string()));
    assert!(result.is_ok());
    assert_eq!(result.unwrap(), "/tmp");
}

#[test]
fn test_canonicalize_path_invalid() {
    let cause = io::Error::new(io::ErrorKind::NotFound, "no such file");
    let result = canonicalize_path("/nonexistent/path", Err(cause));
    assert!(result.is_err());

    let error_msg = format!("{:?}", result.unwrap_err());
    assert!(error_msg.contains("Failed to resolve") || error_msg.contains("CanonicalizeFailed"));
}

#[test]
fn canonicalize_failure_names_the_path() {
    let cause = io::Error::new(io::ErrorKind::NotFound, "no such file");
    match canonicalize_path("/nonexistent/path", Err(cause)) {
        Err(FileSystemError::CanonicalizeFailed { path, source }) => {
            assert_eq!(path, "/nonexistent/path");
            assert_eq!(source.kind(), io::ErrorKind::NotFound);
        }
        other => panic!("unexpected: {:?}", other),
    }
}

#[test]
fn test_validate_path_provides_context() {
    let nonexistent = Path::new("/this/path/does/not/exist");
    let result = validate_path_exists("/this/path/does/not/exist", nonexistent.exists());

    assert!(result.is_err());
    let error = result.unwrap_err();
    let error_chain = format!("{:?}", error);

    // Should contain the path in error
    assert!(error_chain.contains("does/not/exist"));
    assert!(error.message().contains("does/not/exist"));
}
