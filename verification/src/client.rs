//! Connection handle and the decisions of the synchronous call paths.
//!
//! A [`CtClient`] models an open session: a non-zero native handle. Opening,
//! closing and every native call happen outside this crate; the functions
//! here encode the arguments a call needs, turn a returned handle into a
//! client or an error, and turn a call's report and response buffer into the
//! caller's typed outcome.

use vstd::prelude::*;

use crate::async_ops::ERROR_IO_PENDING;
use crate::codec::MAX_CODEC_LEN;
use crate::codec::ascii_bytes;
use crate::codec::chars_of_bytes;
use crate::codec::decode_response_buffer;
use crate::codec::encode_to_gbk_cstring;
use crate::codec::gbk_decode_of;
use crate::codec::gbk_encode_of;
use crate::codec::has_nul;
use crate::codec::nul_prefix;
use crate::error::CtApiError;
use crate::find::CtFind;
use crate::find::FindState;

verus! {

/// An open session with the native API: a non-zero handle, shared freely
/// for concurrent read-style calls; write-style calls are the caller's to
/// serialize.
#[derive(Debug, Clone, PartialEq, Eq, Structural)]
pub struct CtClient {
    handle: usize,
}

impl View for CtClient {
    type V = usize;

    closed spec fn view(&self) -> usize {
        self.handle
    }
}

impl CtClient {
    /// A client over the handle a native open call returned: a client
    /// exactly when the handle is non-zero, else a system error with the
    /// operating-system code reported beside the null handle.
    pub fn from_handle(handle: usize, os_error: u32) -> (r: Result<CtClient, CtApiError>)
        ensures
            handle != 0 ==> (r matches Ok(c) && c@ == handle),
            handle == 0 ==> (r matches Err(e) && e == (CtApiError::System { code: os_error })),
    {
        if handle == 0 {
            Err(CtApiError::System { code: os_error })
        } else {
            Ok(CtClient { handle })
        }
    }

    /// The native handle of this session.
    pub fn handle(&self) -> (r: usize)
        ensures
            r == self@,
    {
        self.handle
    }

    /// A search over the given table, filter and optional cluster, not yet
    /// started. Each argument is carried in its legacy encoding; one whose
    /// encoded form holds an embedded terminator is replaced by the empty
    /// string, as the native call could not carry it.
    pub fn find_first(&self, table_name: &str, filter: &str, cluster: Option<&str>) -> (r: CtFind)
        requires
            table_name@.len() < MAX_CODEC_LEN,
            filter@.len() < MAX_CODEC_LEN,
            cluster matches Some(c) ==> c@.len() < MAX_CODEC_LEN,
        ensures
            r@ =~= (FindState {
                table_name: encoded_or_empty(table_name@),
                filter: encoded_or_empty(filter@),
                cluster: match cluster {
                    Some(c) => Some(encoded_or_empty(c@)),
                    None => None,
                },
                handle: 0,
                ended: false,
            }),
    {
        let table_name = encode_or_empty(table_name);
        let filter = encode_or_empty(filter);
        match cluster {
            Some(cluster) => {
                let cluster = encode_or_empty(cluster);
                CtFind::new(table_name, filter, Some(cluster))
            },
            None => CtFind::new(table_name, filter, None),
        }
    }
}

/// The legacy encoding of the text, or the empty sequence where that
/// encoding holds an embedded terminator byte.
pub open spec fn encoded_or_empty(s: Seq<char>) -> Seq<u8> {
    if has_nul(gbk_encode_of(s)) {
        Seq::empty()
    } else {
        gbk_encode_of(s)
    }
}

/// The legacy encoding of the text, with the empty string standing in for
/// text whose encoding holds an embedded terminator.
fn encode_or_empty(s: &str) -> (r: Vec<u8>)
    requires
        s@.len() < MAX_CODEC_LEN,
    ensures
        r@ == encoded_or_empty(s@),
{
    match encode_to_gbk_cstring(s) {
        Some(v) => v,
        None => Vec::new(),
    }
}

/// A tag name encoded for the native boundary: succeeds exactly when the
/// encoded form holds no embedded terminator, else reports the tag as not
/// found, as the native layer could never be asked about it.
pub fn tag_request(tag: &str) -> (r: Result<Vec<u8>, CtApiError>)
    requires
        tag@.len() < MAX_CODEC_LEN,
    ensures
        r is Ok <==> !has_nul(gbk_encode_of(tag@)),
        r matches Ok(v) ==> v@ == gbk_encode_of(tag@),
        r matches Err(e) ==> (e matches CtApiError::TagNotFound { tag: t } && t@ == tag@),
{
    match encode_to_gbk_cstring(tag) {
        Some(v) => Ok(v),
        None => Err(CtApiError::TagNotFound { tag: tag.to_owned() }),
    }
}

/// A named argument encoded for the native boundary: succeeds exactly when
/// the encoded form holds no embedded terminator, else reports the argument
/// as invalid under its parameter name.
pub fn encoded_arg(param: &str, value: &str) -> (r: Result<Vec<u8>, CtApiError>)
    requires
        value@.len() < MAX_CODEC_LEN,
    ensures
        r is Ok <==> !has_nul(gbk_encode_of(value@)),
        r matches Ok(v) ==> v@ == gbk_encode_of(value@),
        r matches Err(e) ==> (e matches CtApiError::InvalidParameter { param: p, value: v } && p@
            == param@ && v@ == value@),
{
    match encode_to_gbk_cstring(value) {
        Some(v) => Ok(v),
        None => Err(
            CtApiError::InvalidParameter { param: param.to_owned(), value: value.to_owned() },
        ),
    }
}

/// Outcome of a synchronous call that fills a response buffer: a system
/// error with the reported code when the native call failed; else the
/// decoded buffer text, with an empty response reported as an error.
pub fn read_response(native_ok: bool, os_error: u32, buffer: &[u8]) -> (r: Result<
    String,
    CtApiError,
>)
    requires
        buffer@.len() < MAX_CODEC_LEN,
    ensures
        !native_ok ==> (r matches Err(e) && e == (CtApiError::System { code: os_error })),
        native_ok ==> (r is Ok <==> has_nul(buffer@) && gbk_decode_of(nul_prefix(buffer@)).len()
            > 0),
        native_ok ==> (r matches Ok(s) ==> s@ == gbk_decode_of(nul_prefix(buffer@))),
        native_ok ==> (r matches Ok(s) ==> (ascii_bytes(nul_prefix(buffer@)) ==> s@
            == chars_of_bytes(nul_prefix(buffer@)))),
        native_ok && !has_nul(buffer@) ==> (r matches Err(e) && e matches CtApiError::Decoding),
{
    if !native_ok {
        return Err(CtApiError::System { code: os_error });
    }
    decode_response_buffer(buffer)
}

/// Outcome of issuing a request against a caller-owned overlapped
/// structure: accepted when the native call succeeded or failed with
/// exactly the pending sentinel — the request is then underway and its real
/// outcome arrives through the structure — and any other failure code is a
/// hard error.
pub fn initiation_outcome(native_ok: bool, os_error: u32) -> (r: Result<bool, CtApiError>)
    ensures
        native_ok || os_error == ERROR_IO_PENDING ==> r == Ok::<bool, CtApiError>(true),
        !(native_ok || os_error == ERROR_IO_PENDING) ==> (r matches Err(e) && e
            == (CtApiError::System { code: os_error })),
{
    if native_ok || os_error == ERROR_IO_PENDING {
        Ok(true)
    } else {
        Err(CtApiError::System { code: os_error })
    }
}

/// Outcome of a synchronous call that returns no data: acknowledged when
/// the native call succeeded, else a system error with the reported code.
pub fn write_response(native_ok: bool, os_error: u32) -> (r: Result<bool, CtApiError>)
    ensures
        native_ok ==> r == Ok::<bool, CtApiError>(true),
        !native_ok ==> (r matches Err(e) && e == (CtApiError::System { code: os_error })),
{
    if native_ok {
        Ok(true)
    } else {
        Err(CtApiError::System { code: os_error })
    }
}

} // verus!
