use openfga_sdk::internal::ulid::is_well_formed_ulid;

#[test]
fn valid_ulid() {
    assert!(is_well_formed_ulid("01FQH7V8BEG3GPQW93KTRFR8JB"));
    assert!(is_well_formed_ulid("01GXSA8YR785C4FYS3C0RTG7B1"));
}

#[test]
fn invalid_ulid() {
    assert!(!is_well_formed_ulid(""));
    assert!(!is_well_formed_ulid("not-a-ulid"));
    assert!(!is_well_formed_ulid("01FQH7V8BEG3GPQW93KTRFR8J")); // too short
    assert!(!is_well_formed_ulid("01FQH7V8BEG3GPQW93KTRFR8JB1")); // too long
}

#[test]
fn ulid_lowercase_accepted() {
    assert!(is_well_formed_ulid("01fqh7v8beg3gpqw93ktrfr8jb"));
}

#[test]
fn ulid_excluded_letters_rejected() {
    // I, L, O and U are not Crockford digits.
    assert!(!is_well_formed_ulid("01FQH7V8BEG3GPQW93KTRFR8JI"));
    assert!(!is_well_formed_ulid("01FQH7V8BEG3GPQW93KTRFR8JL"));
    assert!(!is_well_formed_ulid("01FQH7V8BEG3GPQW93KTRFR8JO"));
    assert!(!is_well_formed_ulid("01FQH7V8BEG3GPQW93KTRFR8JU"));
    assert!(!is_well_formed_ulid("01FQH7V8BEG3GPQW93KTRFR8J-"));
}
