use ctapi_rs::CtApiError;
use ctapi_rs::CtClient;
use ctapi_rs::FindObject;

#[test]
fn test_find_object_debug() {
    let find_object = FindObject(0x12345678);

    // Test Debug implementation
    let debug_string = format!("{:?}", find_object);
    assert!(debug_string.contains("FindObject"));
}

#[test]
fn test_find_object_property_access() {
    let find_object = FindObject(0);

    // Only test basic functionality of the struct; property retrieval needs
    // the native layer.
    assert_eq!(find_object.handle(), 0);
}

#[test]
fn find_first_carries_the_encoded_query() {
    let client = CtClient::from_handle(0x77, 0).unwrap();
    let find = client.find_first("Tag", "CLUSTER=Cluster1", None);
    assert_eq!(find.table_name().as_slice(), b"Tag");
    assert_eq!(find.filter().as_slice(), b"CLUSTER=Cluster1");
    assert!(find.cluster().is_none());
    assert!(find.needs_start());
    assert!(!find.is_end());
}

#[test]
fn find_walk_ends_on_null_search_handle() {
    let client = CtClient::from_handle(0x77, 0).unwrap();
    let mut find = client.find_first("Tag", "", None);
    let first = find.start_outcome(0, 0);
    assert!(first.is_none());
    assert!(find.is_end());
    assert!(!find.needs_start());
}

#[test]
fn find_walk_hands_out_objects_until_the_native_layer_stops() {
    let client = CtClient::from_handle(0x77, 0).unwrap();
    let mut find = client.find_first("Tag", "", Some("Cluster1"));
    assert_eq!(find.cluster().as_ref().map(|c| c.as_slice()), Some(&b"Cluster1"[..]));

    let first = find.start_outcome(0x90, 0x91);
    assert_eq!(first, Some(FindObject(0x91)));
    assert_eq!(find.handle(), 0x90);
    assert!(!find.needs_start());

    let second = find.next_outcome(true, 0x92);
    assert_eq!(second, Some(FindObject(0x92)));
    assert!(!find.is_end());

    let done = find.next_outcome(false, 0);
    assert!(done.is_none());
    assert!(find.is_end());
}

#[test]
fn property_response_decodes_the_reported_region() {
    let object = FindObject(0x91);
    let buffer = b"Cluster1.BIT_1\0\0".to_vec();
    // The native layer reports how many bytes it wrote; no terminator scan.
    let r = object.property_response(true, 0, &buffer, 14);
    assert_eq!(r.unwrap(), "Cluster1.BIT_1");

    let r = object.property_response(false, 2, &buffer, 0);
    assert!(matches!(r, Err(CtApiError::System { code: 2 })));

    // A reported length beyond the buffer is capped at the buffer size.
    let short = b"AB".to_vec();
    let r = object.property_response(true, 0, &short, 99);
    assert_eq!(r.unwrap(), "AB");
}
