use ctapi_rs::list::data_outcome;
use ctapi_rs::CtApiError;
use ctapi_rs::CtList;

#[test]
fn test_ct_list_debug() {
    // Test struct Debug implementation
    let list = CtList::from_handle(0x40, 0).unwrap();
    let debug_str = format!("{:?}", list);
    assert!(debug_str.contains("CtList"));
    assert_eq!(1 + 1, 2);
}

#[test]
fn test_tag_map_functionality() {
    let mut list = CtList::from_handle(0x40, 0).unwrap();

    // Test empty registry
    assert_eq!(list.tag_count(), 0);

    // Test insertion
    list.add_outcome("test_tag", 0x50, 0).unwrap();

    assert_eq!(list.tag_count(), 1);
    assert!(list.lookup_handle("test_tag").is_ok());
}

#[test]
fn test_tag_not_found_error() {
    // Test error handling logic
    let error_msg = "Tag:nonexistent_tag not found";
    assert!(error_msg.contains("not found"));
    assert!(error_msg.contains("nonexistent_tag"));
}

#[test]
fn null_list_handle_is_system_error() {
    let r = CtList::from_handle(0, 8);
    assert!(matches!(r, Err(CtApiError::System { code: 8 })));
}

#[test]
fn lookup_of_unregistered_tag_names_it() {
    let list = CtList::from_handle(0x40, 0).unwrap();
    match list.lookup_handle("nonexistent_tag") {
        Err(CtApiError::TagNotFound { tag }) => assert_eq!(tag, "nonexistent_tag"),
        other => panic!("expected a tag-not-found error, got {:?}", other),
    }
}

#[test]
fn add_with_null_item_handle_is_system_error() {
    let mut list = CtList::from_handle(0x40, 0).unwrap();
    let r = list.add_outcome("BIT_1", 0, 87);
    assert!(matches!(r, Err(CtApiError::System { code: 87 })));
    assert_eq!(list.tag_count(), 0);
}

#[test]
fn add_replaces_earlier_binding() {
    let mut list = CtList::from_handle(0x40, 0).unwrap();
    list.add_outcome("BIT_1", 0x51, 0).unwrap();
    list.add_outcome("BIT_1", 0x52, 0).unwrap();
    assert_eq!(list.tag_count(), 1);
    assert_eq!(list.lookup_handle("BIT_1").unwrap(), 0x52);
}

#[test]
fn delete_unregisters_the_tag() {
    let mut list = CtList::from_handle(0x40, 0).unwrap();
    list.add_outcome("BIT_1", 0x51, 0).unwrap();
    list.add_outcome("BIT_2", 0x52, 0).unwrap();
    list.delete_outcome("BIT_1", true, 0).unwrap();
    assert_eq!(list.tag_count(), 1);
    assert!(list.lookup_handle("BIT_1").is_err());
    assert_eq!(list.lookup_handle("BIT_2").unwrap(), 0x52);
}

#[test]
fn failed_delete_keeps_the_tag() {
    let mut list = CtList::from_handle(0x40, 0).unwrap();
    list.add_outcome("BIT_1", 0x51, 0).unwrap();
    let r = list.delete_outcome("BIT_1", false, 6);
    assert!(matches!(r, Err(CtApiError::System { code: 6 })));
    assert_eq!(list.lookup_handle("BIT_1").unwrap(), 0x51);
}

#[test]
fn data_outcome_decodes_list_values() {
    let buffer = b"ON\0\0".to_vec();
    assert_eq!(data_outcome(true, 0, &buffer).unwrap(), "ON");

    // An empty value is the empty string, not an error.
    let zeroes = vec![0u8; 4];
    assert_eq!(data_outcome(true, 0, &zeroes).unwrap(), "");

    let r = data_outcome(false, 110, &buffer);
    assert!(matches!(r, Err(CtApiError::System { code: 110 })));

    // No terminator within the buffer: a decoding error.
    let unterminated = b"ABCD".to_vec();
    let r = data_outcome(true, 0, &unterminated);
    assert!(matches!(r, Err(CtApiError::Decoding)));
}
