use layered_config::http_response_checksum::is_part_level_checksum;
use layered_config::checksum_algorithms::ChecksumAlgorithm;
use layered_config::config_bag::{ConfigBag, Load, MissingConfiguration};
use layered_config::headers::{eq_ignore_ascii_case, Headers};
use layered_config::http_response_checksum::{
    accept_decoded, check_headers_for_precalculated_checksum, checksum_from_header, is_listed,
    validation_enabled, ResponseChecksumInterceptor, ResponseChecksumInterceptorState,
    ResponseChecksumValidation, RESPONSE_CHECKSUM_STATE, RESPONSE_CHECKSUM_VALIDATION,
};
use layered_config::http_response_checksum::ResponseChecksumValidation::{
    Unrecognized, WhenRequired, WhenSupported,
};
use layered_config::value::ConfigValue;

#[test]
fn test_is_multipart_object_checksum() {
    // These ARE NOT part-level checksums
    assert!(!is_part_level_checksum("abcd"));
    assert!(!is_part_level_checksum("abcd="));
    assert!(!is_part_level_checksum("abcd=="));
    assert!(!is_part_level_checksum("1234"));
    assert!(!is_part_level_checksum("1234="));
    assert!(!is_part_level_checksum("1234=="));
    // These ARE part-level checksums
    assert!(is_part_level_checksum("abcd-1"));
    assert!(is_part_level_checksum("abcd=-12"));
    assert!(is_part_level_checksum("abcd12-134"));
    assert!(is_part_level_checksum("abcd==-10000"));
    // These are gibberish and shouldn't be regarded as a part-level checksum
    assert!(!is_part_level_checksum(""));
    assert!(!is_part_level_checksum("Spaces? In my header values?"));
    assert!(!is_part_level_checksum("abcd==-134!#{!#"));
    assert!(!is_part_level_checksum("abcd==-"));
    assert!(!is_part_level_checksum("abcd==--11"));
    assert!(!is_part_level_checksum("abcd==-AA"));
}


const ALL: [&str; 5] = ["crc32", "crc32c", "sha1", "sha256", "crc64nvme"];

fn headers(pairs: &[(&str, &str)]) -> Headers {
    let mut headers = Headers::new();
    for (name, value) in pairs {
        headers.append(name.to_string(), value.to_string());
    }
    headers
}

#[test]
fn header_names_are_found_whatever_their_case() {
    let headers = headers(&[("X-Amz-Checksum-CRC32", "i9aeUg=="), ("x-amz-checksum-crc32", "AAAA")]);
    assert_eq!(headers.get("x-amz-checksum-crc32"), Some("i9aeUg=="));
    assert_eq!(headers.get("X-AMZ-CHECKSUM-CRC32"), Some("i9aeUg=="));
    assert_eq!(headers.get("x-amz-checksum-crc32c"), None);
    assert!(eq_ignore_ascii_case("Sha256", "sHA256"));
    assert!(!eq_ignore_ascii_case("sha256", "sha1"));
    assert!(!eq_ignore_ascii_case("[", "{"));
    assert!(eq_ignore_ascii_case("", ""));
}

#[test]
fn checksum_header_is_decoded() {
    let headers = headers(&[("x-amz-checksum-crc32", "i9aeUg==")]);
    assert_eq!(
        check_headers_for_precalculated_checksum(&headers, &ALL),
        Some((ChecksumAlgorithm::Crc32, vec![0x8b, 0xd6, 0x9e, 0x52]))
    );
}

#[test]
fn fastest_listed_algorithm_is_chosen() {
    let headers = headers(&[
        ("x-amz-checksum-sha256", "c2hhMjU2"),
        ("x-amz-checksum-crc32", "i9aeUg=="),
        ("x-amz-checksum-crc32c", "AQID"),
        ("x-amz-checksum-crc64nvme", "BAUG"),
    ]);
    assert_eq!(
        check_headers_for_precalculated_checksum(&headers, &ALL),
        Some((ChecksumAlgorithm::Crc64Nvme, vec![4, 5, 6]))
    );
    assert_eq!(
        check_headers_for_precalculated_checksum(&headers, &["SHA256", "CRC32"]),
        Some((ChecksumAlgorithm::Crc32, vec![0x8b, 0xd6, 0x9e, 0x52]))
    );
    assert_eq!(
        check_headers_for_precalculated_checksum(&headers, &["sha256"]),
        Some((ChecksumAlgorithm::Sha256, b"sha256".to_vec()))
    );
    assert_eq!(check_headers_for_precalculated_checksum(&headers, &["sha1"]), None);
    assert_eq!(check_headers_for_precalculated_checksum(&headers, &[]), None);
    assert_eq!(check_headers_for_precalculated_checksum(&headers, &["md5"]), None);
}

#[test]
fn part_level_and_undecodable_checksums_are_not_validated() {
    let part_level = headers(&[
        ("x-amz-checksum-crc32c", "abcd==-12"),
        ("x-amz-checksum-sha256", "c2hhMjU2"),
    ]);
    assert_eq!(check_headers_for_precalculated_checksum(&part_level, &ALL), None);
    let undecodable = headers(&[("x-amz-checksum-crc32", "not base64!")]);
    assert_eq!(check_headers_for_precalculated_checksum(&undecodable, &ALL), None);
    assert_eq!(checksum_from_header(ChecksumAlgorithm::Sha1, "abcd-1"), None);
    assert_eq!(
        checksum_from_header(ChecksumAlgorithm::Sha1, "AQID"),
        Some((ChecksumAlgorithm::Sha1, vec![1, 2, 3]))
    );
    assert_eq!(accept_decoded(ChecksumAlgorithm::Md5, None), None);
    assert_eq!(
        accept_decoded(ChecksumAlgorithm::Md5, Some(vec![7])),
        Some((ChecksumAlgorithm::Md5, vec![7]))
    );
}

#[test]
fn algorithms_are_listed_whatever_their_case() {
    assert!(is_listed(&["crc32", "SHA256"], "sha256"));
    assert!(!is_listed(&["crc32", "SHA256"], "sha1"));
    assert!(!is_listed(&[], "sha1"));
}

#[test]
fn unrecognized_preference_defaults_to_validating() {
    assert!(validation_enabled(true, WhenRequired));
    assert!(validation_enabled(true, WhenSupported));
    assert!(validation_enabled(true, Unrecognized));
    assert!(!validation_enabled(false, WhenRequired));
    assert!(validation_enabled(false, WhenSupported));
    assert!(validation_enabled(false, Unrecognized));

    assert_eq!(ResponseChecksumValidation::from_entry(None), WhenSupported);
    let text = |s: &str| ConfigValue::Text(s.to_string());
    assert_eq!(ResponseChecksumValidation::from_entry(Some(&text("when_required"))), WhenRequired);
    assert_eq!(ResponseChecksumValidation::from_entry(Some(&text("WHEN_REQUIRED"))), WhenRequired);
    assert_eq!(ResponseChecksumValidation::from_entry(Some(&text("when_supported"))), WhenSupported);
    assert_eq!(ResponseChecksumValidation::from_entry(Some(&text("sometimes"))), Unrecognized);
    assert_eq!(ResponseChecksumValidation::from_entry(Some(&ConfigValue::Bool(true))), Unrecognized);
}

#[test]
fn interceptor_state_round_trips_through_the_bag() {
    for validation_enabled in [true, false] {
        let state = ResponseChecksumInterceptorState { validation_enabled };
        let bag = ConfigBag::base().with(state);
        assert_eq!(ResponseChecksumInterceptorState::load(&bag), Ok(Some(state)));
    }
    assert_eq!(
        ResponseChecksumInterceptorState::load(&ConfigBag::base()),
        Err(MissingConfiguration { kind: RESPONSE_CHECKSUM_STATE })
    );
}

#[test]
fn interceptor_decides_across_the_two_stages() {
    let interceptor = ResponseChecksumInterceptor::new(&ALL, |wanted: &bool| *wanted);
    assert_eq!(interceptor.name(), "ResponseChecksumInterceptor");
    let response = headers(&[("x-amz-checksum-crc32", "i9aeUg==")]);
    let checksum = Some((ChecksumAlgorithm::Crc32, vec![0x8b, 0xd6, 0x9e, 0x52]));

    // the request asked for validation
    let cfg = interceptor.modify_before_serialization(&true, ConfigBag::base());
    assert_eq!(cfg.get::<RESPONSE_CHECKSUM_STATE>(), Some(&ConfigValue::Bool(true)));
    assert_eq!(interceptor.modify_before_deserialization(&response, &cfg), Ok(checksum.clone()));

    // it did not, and the preference decides
    let mut base = ConfigBag::base();
    base.put::<RESPONSE_CHECKSUM_VALIDATION>(ConfigValue::Text("when_required".to_string()));
    let cfg = interceptor.modify_before_serialization(&false, base);
    assert_eq!(interceptor.modify_before_deserialization(&response, &cfg), Ok(None));

    let mut base = ConfigBag::base();
    base.put::<RESPONSE_CHECKSUM_VALIDATION>(ConfigValue::Text("whenever".to_string()));
    let cfg = interceptor.modify_before_serialization(&false, base);
    assert_eq!(interceptor.modify_before_deserialization(&response, &cfg), Ok(checksum.clone()));

    let cfg = interceptor.modify_before_serialization(&false, ConfigBag::base());
    assert_eq!(interceptor.modify_before_deserialization(&response, &cfg), Ok(checksum));

    // the first stage did not run
    assert_eq!(
        interceptor.modify_before_deserialization(&response, &ConfigBag::base()),
        Err(MissingConfiguration { kind: RESPONSE_CHECKSUM_STATE })
    );
}
