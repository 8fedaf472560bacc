use ctapi_rs::client::encoded_arg;
use ctapi_rs::client::initiation_outcome;
use ctapi_rs::client::read_response;
use ctapi_rs::client::tag_request;
use ctapi_rs::client::write_response;
use ctapi_rs::codec::decode_response_buffer;
use ctapi_rs::codec::extract_string_from_buffer;
use ctapi_rs::CtApiError;
use ctapi_rs::CtClient;

fn assert_send<T: Send>() {}

fn assert_sync<T: Sync>() {}

#[test]
fn test_handle_getter() {
    let handle = 0x12345678usize;
    let client = CtClient::from_handle(handle, 0).unwrap();
    assert_eq!(client.handle(), handle);
}

#[test]
fn test_error_types() {
    // Test error type related functionality
    let error = CtApiError::TagNotFound {
        tag: "test_tag".to_string(),
    };
    assert!(error.is_tag_error());
    assert!(!error.is_connection_error());
}

#[test]
fn test_unsafe_trait_implementations() {
    // Test Send and Sync trait implementations
    assert_send::<CtClient>();
    assert_sync::<CtClient>();
}

#[test]
fn test_client_equality() {
    let client1 = CtClient::from_handle(0x12345678, 0).unwrap();
    let client2 = CtClient::from_handle(0x12345678, 0).unwrap();
    let client3 = CtClient::from_handle(0x87654321, 0).unwrap();

    // Equal handles should be equal
    assert_eq!(client1, client2);
    assert_ne!(client1, client3);

    // Test cloning
    let client1_clone = client1.clone();
    assert_eq!(client1, client1_clone);
}

#[test]
fn test_decode_response_buffer() {
    // Test empty buffer
    let empty_buffer: Vec<u8> = Vec::new();
    let result = decode_response_buffer(&empty_buffer);
    assert!(result.is_err());

    // Test buffer with only null characters
    let null_buffer = vec![0u8; 10];
    let result = decode_response_buffer(&null_buffer);
    assert!(result.is_err());

    // Test valid string buffer
    let test_string = "Hello World";
    let mut buffer: Vec<u8> = Vec::with_capacity(256);
    buffer.extend_from_slice(test_string.as_bytes());
    buffer.push(0); // Null character termination
    buffer.extend_from_slice(&vec![0u8; 256 - buffer.len()]);

    let result = decode_response_buffer(&buffer);
    assert!(result.is_ok());
    assert_eq!(result.unwrap(), test_string);
}

#[test]
fn test_extract_string_from_buffer() {
    // Test empty buffer - should fail as there's no null terminator
    let empty_buffer: Vec<u8> = Vec::new();
    let result = extract_string_from_buffer(&empty_buffer);
    assert!(result.is_err());

    // Test buffer with only null characters
    let null_buffer = vec![0u8; 5];
    let result = extract_string_from_buffer(&null_buffer);
    assert!(result.is_ok());
    assert_eq!(result.unwrap(), "");

    // Test string with null character termination
    let test_string = "Test String";
    let mut buffer: Vec<u8> = Vec::with_capacity(256);
    buffer.extend_from_slice(test_string.as_bytes());
    buffer.push(0); // Null character termination
    buffer.extend_from_slice(&vec![0u8; 256 - buffer.len()]);

    let result = extract_string_from_buffer(&buffer);
    assert!(result.is_ok());
    assert_eq!(result.unwrap(), test_string);
}

#[test]
fn null_open_handle_is_system_error() {
    let r = CtClient::from_handle(0, 1722);
    assert!(matches!(r, Err(CtApiError::System { code: 1722 })));
}

#[test]
fn tag_request_encodes_plain_names() {
    let r = tag_request("BIT_1").unwrap();
    assert_eq!(r, b"BIT_1".to_vec());
}

#[test]
fn tag_request_rejects_embedded_terminator() {
    let r = tag_request("BIT\0_1");
    match r {
        Err(CtApiError::TagNotFound { tag }) => assert_eq!(tag, "BIT\0_1"),
        other => panic!("expected a tag-not-found error, got {:?}", other),
    }
}

#[test]
fn encoded_arg_rejects_embedded_terminator() {
    let r = encoded_arg("cmd", "Time(1)\0");
    match r {
        Err(CtApiError::InvalidParameter { param, value }) => {
            assert_eq!(param, "cmd");
            assert_eq!(value, "Time(1)\0");
        }
        other => panic!("expected an invalid-parameter error, got {:?}", other),
    }
}

#[test]
fn read_response_propagates_native_failure() {
    let buffer = b"ignored\0".to_vec();
    let r = read_response(false, 233, &buffer);
    assert!(matches!(r, Err(CtApiError::System { code: 233 })));
}

#[test]
fn read_response_decodes_on_success() {
    let buffer = b"123.5\0\0\0".to_vec();
    let r = read_response(true, 0, &buffer);
    assert_eq!(r.unwrap(), "123.5");
}

#[test]
fn read_response_reports_empty_reply() {
    let buffer = vec![0u8; 8];
    let r = read_response(true, 0, &buffer);
    match r {
        Err(CtApiError::Other { code, message }) => {
            assert_eq!(code, 0);
            assert_eq!(message, "API returned empty response");
        }
        other => panic!("expected an empty-response error, got {:?}", other),
    }
}

#[test]
fn write_response_normalizes_acknowledgement() {
    assert_eq!(write_response(true, 0), Ok(true));
    let r = write_response(false, 31);
    assert!(matches!(r, Err(CtApiError::System { code: 31 })));
}

#[test]
fn initiation_outcome_accepts_the_pending_sentinel() {
    // An issuing call against an overlapped structure is accepted on
    // success and on the pending sentinel; other codes are hard errors.
    assert_eq!(initiation_outcome(true, 0), Ok(true));
    assert_eq!(initiation_outcome(false, 997), Ok(true));
    let r = initiation_outcome(false, 5);
    assert!(matches!(r, Err(CtApiError::System { code: 5 })));
}
