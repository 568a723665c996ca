use openusb::certificate::extract_cn;

#[test]
fn test_extract_cn() {
    assert_eq!(
        extract_cn("CN=alice, O=OpenUSB, C=US"),
        Some("alice".to_string())
    );
    assert_eq!(extract_cn("O=OpenUSB"), None);
}

#[test]
fn extract_cn_takes_a_later_part_and_trims_it() {
    assert_eq!(extract_cn("O=OpenUSB,  CN=bob ,C=US"), Some("bob".to_string()));
}

#[test]
fn extract_cn_of_empty_subject_is_none() {
    assert_eq!(extract_cn(""), None);
    assert_eq!(extract_cn("CN="), Some(String::new()));
}
