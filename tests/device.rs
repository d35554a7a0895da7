use hid_battery::{candidate_order, get_config_request, is_supported_identity, PID_USB, PID_WIRELESS, VID};

#[test]
fn allowlist_holds_both_identities() {
    assert!(is_supported_identity(14139, 4397));
    assert!(is_supported_identity(14139, 4472));
    assert!(is_supported_identity(VID, PID_USB));
    assert!(is_supported_identity(VID, PID_WIRELESS));
    assert!(!is_supported_identity(14139, 4398));
    assert!(!is_supported_identity(14138, 4397));
    assert!(!is_supported_identity(4397, 14139));
}

#[test]
fn candidates_keep_enumeration_order() {
    let ids = vec![(1, 2), (14139, 4472), (14139, 1), (14139, 4397), (2, 4397), (14139, 4472)];
    assert_eq!(candidate_order(&ids), vec![1usize, 3, 5]);
    assert_eq!(candidate_order(&[]), Vec::<usize>::new());
    assert_eq!(candidate_order(&[(5, 5)]), Vec::<usize>::new());
}

#[test]
fn query_report_bytes() {
    assert_eq!(get_config_request(), vec![0u8, 130, 0, 0, 0, 0, 0, 0, 0]);
}
