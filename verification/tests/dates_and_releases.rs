use kc_overlay::dates::{seconds_of, unix_time_to_date};
use kc_overlay::release::{
    check_updates, find_asset_url, offer_of_document, parse_i32, ReleaseError,
};
use kc_overlay::source::Platform;

const RELEASE: &str = r#"{
    "tag_name": "V1.3.0",
    "assets": [
        {"name": "notes.txt", "browser_download_url": "https://example.org/notes"},
        {"name": "KC-Overlay-Linux", "browser_download_url": "https://example.org/linux"},
        {"name": "KC-Overlay-Windows.exe", "browser_download_url": "https://example.org/win"},
        {"name": "KC-Overlay-Linux-old", "browser_download_url": "https://example.org/old"}
    ]
}"#;

fn number(text: &str) -> Option<i32> {
    parse_i32(&text.chars().collect())
}

#[test]
fn date_of_the_epoch_three_hours_west() {
    assert_eq!(unix_time_to_date(0), Some("31/12/69 às 21:00".to_string()));
}

#[test]
fn date_of_a_login() {
    assert_eq!(unix_time_to_date(1_700_000_000_000), Some("14/11/23 às 19:13".to_string()));
    assert_eq!(unix_time_to_date(1_700_000_000_999), Some("14/11/23 às 19:13".to_string()));
    assert_eq!(unix_time_to_date(951_825_600_000), Some("29/02/00 às 09:00".to_string()));
}

#[test]
fn date_before_the_epoch_rounds_towards_it() {
    assert_eq!(unix_time_to_date(-1), Some("31/12/69 às 21:00".to_string()));
    assert_eq!(unix_time_to_date(-1_500), Some("31/12/69 às 20:59".to_string()));
}

#[test]
fn time_without_a_date() {
    assert_eq!(unix_time_to_date(i64::MAX), None);
    assert_eq!(unix_time_to_date(i64::MIN), None);
}

#[test]
fn whole_seconds_round_towards_zero() {
    assert_eq!(seconds_of(0), 0);
    assert_eq!(seconds_of(999), 0);
    assert_eq!(seconds_of(1_000), 1);
    assert_eq!(seconds_of(-999), 0);
    assert_eq!(seconds_of(-1_000), -1);
    assert_eq!(seconds_of(-1_001), -1);
    assert_eq!(seconds_of(i64::MAX), i64::MAX / 1000);
    assert_eq!(seconds_of(i64::MIN), i64::MIN / 1000);
}

#[test]
fn numbers_are_parsed_like_32_bit_integers() {
    assert_eq!(number("0"), Some(0));
    assert_eq!(number("123"), Some(123));
    assert_eq!(number("+123"), Some(123));
    assert_eq!(number("-123"), Some(-123));
    assert_eq!(number("007"), Some(7));
    assert_eq!(number("2147483647"), Some(i32::MAX));
    assert_eq!(number("-2147483648"), Some(i32::MIN));
    assert_eq!(number("-0"), Some(0));
}

#[test]
fn numbers_are_refused() {
    for text in ["", "+", "-", "12a", "a12", " 12", "1 2", "--1", "+-1", "2147483648",
        "-2147483649", "99999999999999999999999", "١٢"]
    {
        assert_eq!(number(text), None);
    }
}

#[test]
fn newer_release_is_offered_with_the_file_of_the_system() {
    assert_eq!(
        check_updates("1.2.9", RELEASE, Platform::Linux),
        Ok(("https://example.org/linux".to_string(), "V1.3.0".to_string()))
    );
    assert_eq!(
        check_updates("1.2.9", RELEASE, Platform::Windows),
        Ok(("https://example.org/win".to_string(), "V1.3.0".to_string()))
    );
}

#[test]
fn release_that_is_not_newer_is_not_offered() {
    assert_eq!(check_updates("1.3.0", RELEASE, Platform::Linux), Err(ReleaseError::UpToDate));
    assert_eq!(check_updates("1.4.0", RELEASE, Platform::Linux), Err(ReleaseError::UpToDate));
    assert_eq!(check_updates("13.0", RELEASE, Platform::Linux), Err(ReleaseError::UpToDate));
}

#[test]
fn versions_are_compared_as_numbers_without_dots() {
    assert!(check_updates("1.2", RELEASE, Platform::Linux).is_ok());
    assert!(check_updates("0.12.9", RELEASE, Platform::Linux).is_ok());
    assert_eq!(check_updates("0.13.1", RELEASE, Platform::Linux), Err(ReleaseError::UpToDate));
    assert_eq!(check_updates("0.1.3.0", RELEASE, Platform::Linux), Err(ReleaseError::UpToDate));
}

#[test]
fn release_answers_are_refused() {
    assert_eq!(check_updates("1.0.0", "not json", Platform::Linux), Err(ReleaseError::NotJson));
    assert_eq!(check_updates("1.0.0", "{}", Platform::Linux), Err(ReleaseError::NoTag));
    assert_eq!(
        check_updates("1.0.0", r#"{"tag_name": 130}"#, Platform::Linux),
        Err(ReleaseError::NoTag)
    );
    assert_eq!(
        check_updates("1.0.0-beta", RELEASE, Platform::Linux),
        Err(ReleaseError::BadCurrentVersion)
    );
    assert_eq!(
        check_updates("V1.0.0", RELEASE, Platform::Linux),
        Err(ReleaseError::BadCurrentVersion)
    );
    assert_eq!(
        check_updates("1.0.0", r#"{"tag_name": "v1.3.0"}"#, Platform::Linux),
        Err(ReleaseError::BadReleaseVersion)
    );
    assert_eq!(
        check_updates("1.0.0", r#"{"tag_name": ""}"#, Platform::Linux),
        Err(ReleaseError::BadReleaseVersion)
    );
}

#[test]
fn release_without_a_file_for_the_system_has_no_address() {
    let body = r#"{"tag_name": "2.0.0", "assets": [{"name": "KC-Overlay-Mac",
        "browser_download_url": "https://example.org/mac"}]}"#;
    assert_eq!(
        check_updates("1.0.0", body, Platform::Linux),
        Ok((String::new(), "2.0.0".to_string()))
    );
    assert_eq!(
        check_updates("1.0.0", r#"{"tag_name": "2.0.0"}"#, Platform::Windows),
        Ok((String::new(), "2.0.0".to_string()))
    );
    assert_eq!(
        check_updates("1.0.0", r#"{"tag_name": "2.0.0", "assets": {"name": "Linux"}}"#,
            Platform::Linux),
        Ok((String::new(), "2.0.0".to_string()))
    );
}

#[test]
fn files_without_name_or_address_are_passed_over() {
    let document: serde_json::Value = serde_json::from_str(
        r#"[{"browser_download_url": "a"}, {"name": "Linux"}, {"name": 5,
        "browser_download_url": "b"}, {"name": "x-Linux", "browser_download_url": "c"}]"#,
    )
    .unwrap();
    assert_eq!(find_asset_url(document.as_array().unwrap(), "Linux"), "c");
    assert_eq!(find_asset_url(document.as_array().unwrap(), "Windows"), "");
    assert_eq!(find_asset_url(&Vec::new(), "Linux"), "");
}

#[test]
fn offer_of_a_document() {
    let document: serde_json::Value = serde_json::from_str(RELEASE).unwrap();
    assert_eq!(
        offer_of_document("1.2.9", &document, Platform::Linux),
        Ok(("https://example.org/linux".to_string(), "V1.3.0".to_string()))
    );
    assert_eq!(
        offer_of_document("1.2.9", &document["assets"], Platform::Linux),
        Err(ReleaseError::NoTag)
    );
}

#[test]
fn reasons_in_words() {
    assert_eq!(ReleaseError::UpToDate.message(), "KC-Overlay está atualizado.");
    assert_eq!(
        ReleaseError::BadReleaseVersion.message(),
        "Failed to parse latest version number."
    );
    assert_eq!(ReleaseError::NotJson.message(), "Failed to read json.");
}
