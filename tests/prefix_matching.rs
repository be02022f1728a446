use git_miner::config::ConfigError;
use git_miner::prefix::HashPrefixChecker;

#[test]
fn test_prefix_even() {
    let checker = HashPrefixChecker::new("1234").unwrap();
    assert_eq!(checker.check_prefix(&vec![0x12, 0x34, 0x56]), true);
}

#[test]
fn test_prefix_odd() {
    let checker = HashPrefixChecker::new("123").unwrap();
    assert_eq!(checker.check_prefix(&vec![0x12, 0x30]), true);
    assert_eq!(checker.check_prefix(&vec![0x12, 0x39, 0x02]), true);
    assert_eq!(checker.check_prefix(&vec![0x12, 0x03, 0x03]), false);
}

#[test]
fn test_prefix_length_one() {
    let checker = HashPrefixChecker::new("1").unwrap();
    assert_eq!(checker.check_prefix(&vec![0x10]), true);
}

#[test]
fn test_prefix_zeros() {
    let checker = HashPrefixChecker::new("000").unwrap();
    assert_eq!(checker.check_prefix(&vec![0x00, 0x01]), true);
}

#[test]
fn empty_prefix_is_refused() {
    assert_eq!(HashPrefixChecker::new("").unwrap_err(), ConfigError::InvalidPrefix);
}

#[test]
fn prefix_of_forty_digits_is_accepted_and_forty_one_refused() {
    let forty = "0123456789abcdef0123456789ABCDEF01234567";
    let checker = HashPrefixChecker::new(forty).unwrap();
    let digest: Vec<u8> = vec![
        0x01, 0x23, 0x45, 0x67, 0x89, 0xab, 0xcd, 0xef, 0x01, 0x23, 0x45, 0x67, 0x89, 0xab, 0xcd,
        0xef, 0x01, 0x23, 0x45, 0x67,
    ];
    assert!(checker.check_prefix(&digest));
    let mut other = digest.clone();
    other[19] = 0x68;
    assert!(!checker.check_prefix(&other));
    let forty_one = "0123456789abcdef0123456789abcdef012345678";
    assert_eq!(HashPrefixChecker::new(forty_one).unwrap_err(), ConfigError::InvalidPrefix);
}

#[test]
fn non_hex_prefix_is_refused() {
    assert!(HashPrefixChecker::new("12g4").is_err());
    assert!(HashPrefixChecker::new("0x12").is_err());
    assert!(HashPrefixChecker::new(" 12").is_err());
    assert!(HashPrefixChecker::new("1\u{e9}").is_err());
}

#[test]
fn upper_case_prefix_matches_like_lower_case() {
    let upper = HashPrefixChecker::new("ABC").unwrap();
    let lower = HashPrefixChecker::new("abc").unwrap();
    assert_eq!(upper, lower);
    assert!(upper.check_prefix(&vec![0xab, 0xcf]));
    assert!(!upper.check_prefix(&vec![0xab, 0xbf]));
}

#[test]
fn odd_prefix_ignores_only_the_low_nibble_of_its_last_byte() {
    let checker = HashPrefixChecker::new("f").unwrap();
    for b in 0u8..=255 {
        assert_eq!(checker.check_prefix(&vec![b]), b >> 4 == 0xf);
    }
}

#[test]
fn even_prefix_compares_whole_bytes() {
    let checker = HashPrefixChecker::new("00ff").unwrap();
    assert!(checker.check_prefix(&vec![0x00, 0xff, 0x12]));
    assert!(!checker.check_prefix(&vec![0x00, 0xfe, 0x12]));
    assert!(!checker.check_prefix(&vec![0x01, 0xff, 0x12]));
}

#[test]
fn every_length_from_one_to_forty_is_accepted() {
    let digits = "0123456789abcdef0123456789abcdef01234567";
    for n in 1..=40 {
        let checker = HashPrefixChecker::new(&digits[..n]).unwrap();
        let digest: Vec<u8> = vec![
            0x01, 0x23, 0x45, 0x67, 0x89, 0xab, 0xcd, 0xef, 0x01, 0x23, 0x45, 0x67, 0x89, 0xab, 0xcd,
            0xef, 0x01, 0x23, 0x45, 0x67,
        ];
        assert!(checker.check_prefix(&digest));
        let mut flipped = digest.clone();
        let k = (n - 1) / 2;
        flipped[k] ^= if n % 2 == 1 { 0x10 } else { 0x01 };
        assert!(!checker.check_prefix(&flipped));
    }
}
