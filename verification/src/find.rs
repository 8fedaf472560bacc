//! State machine of an object search and its found objects.
//!
//! A search walks the records of a table that satisfy a filter. The native
//! layer owns the search cursor; a [`CtFind`] models its state — the encoded
//! query, the cursor handle once the search started, and whether the walk
//! ended — and its methods turn each native report into the next state and
//! the object found, if any. A [`FindObject`] is the handle of one found
//! record, whose properties the native layer serves one buffer at a time.

use vstd::prelude::*;

use crate::codec::MAX_CODEC_LEN;
use crate::codec::ascii_bytes;
use crate::codec::chars_of_bytes;
use crate::codec::gbk_decode_of;
use crate::error::CtApiError;

verus! {

/// Handle of one object a search found.
#[derive(Debug, Clone, PartialEq, Eq, Structural)]
pub struct FindObject(pub usize);

impl FindObject {
    /// The native handle of the found object.
    pub fn handle(&self) -> (r: usize)
        ensures
            r == self.0,
    {
        self.0
    }

    /// Outcome of reading one property of this object, given the native
    /// call's report: a system error with the reported code on failure, else
    /// the first `len` buffer bytes — capped at the buffer size — decoded
    /// from the legacy code page.
    pub fn property_response(&self, native_ok: bool, os_error: u32, buffer: &[u8], len: u32) -> (r:
        Result<String, CtApiError>)
        requires
            buffer@.len() < MAX_CODEC_LEN,
        ensures
            !native_ok ==> (r matches Err(e) && e == (CtApiError::System { code: os_error })),
            native_ok ==> (r matches Ok(s) && s@ == gbk_decode_of(
                property_region(buffer@, len),
            )),
            native_ok && ascii_bytes(property_region(buffer@, len)) ==> (r matches Ok(s) && s@
                == chars_of_bytes(property_region(buffer@, len))),
    {
        if !native_ok {
            return Err(CtApiError::System { code: os_error });
        }
        let end = if (len as usize) < buffer.len() {
            len as usize
        } else {
            buffer.len()
        };
        let mut region: Vec<u8> = Vec::new();
        let mut k: usize = 0;
        while k < end
            invariant
                end <= buffer@.len(),
                k <= end,
                region@ == buffer@.take(k as int),
            decreases end - k,
        {
            region.push(buffer[k]);
            k += 1;
            proof {
                assert(region@ =~= buffer@.take(k as int));
            }
        }
        proof {
            assert(region@ =~= property_region(buffer@, len));
        }
        Ok(crate::codec::gbk_decode(region.as_slice()))
    }
}

/// The buffer bytes a property read covers: the reported length, capped at
/// the buffer size.
pub open spec fn property_region(buffer: Seq<u8>, len: u32) -> Seq<u8> {
    if len as int <= buffer.len() {
        buffer.take(len as int)
    } else {
        buffer
    }
}

/// Mathematical state of a search.
#[verifier::ext_equal]
pub struct FindState {
    /// The table name, in its legacy encoding.
    pub table_name: Seq<u8>,
    /// The filter, in its legacy encoding.
    pub filter: Seq<u8>,
    /// The cluster, in its legacy encoding, where one was given.
    pub cluster: Option<Seq<u8>>,
    /// The native search cursor, zero before the search started.
    pub handle: usize,
    /// Whether the walk has ended.
    pub ended: bool,
}

/// An object search: the encoded query, the native cursor once the search
/// started, and whether the walk ended.
#[derive(Debug)]
pub struct CtFind {
    table_name: Vec<u8>,
    filter: Vec<u8>,
    cluster: Option<Vec<u8>>,
    handle: usize,
    is_end: bool,
}

impl View for CtFind {
    type V = FindState;

    closed spec fn view(&self) -> FindState {
        FindState {
            table_name: self.table_name@,
            filter: self.filter@,
            cluster: match self.cluster {
                Some(ref c) => Some(c@),
                None => None,
            },
            handle: self.handle,
            ended: self.is_end,
        }
    }
}

impl CtFind {
    /// A search over the given encoded query, not yet started.
    pub fn new(table_name: Vec<u8>, filter: Vec<u8>, cluster: Option<Vec<u8>>) -> (r: Self)
        ensures
            r@ =~= (FindState {
                table_name: table_name@,
                filter: filter@,
                cluster: match cluster {
                    Some(ref c) => Some(c@),
                    None => None,
                },
                handle: 0,
                ended: false,
            }),
    {
        Self { table_name, filter, cluster, handle: 0, is_end: false }
    }

    /// The encoded table name, as the native first-search call takes it.
    pub fn table_name(&self) -> (r: &Vec<u8>)
        ensures
            r@ == self@.table_name,
    {
        &self.table_name
    }

    /// The encoded filter, as the native first-search call takes it.
    pub fn filter(&self) -> (r: &Vec<u8>)
        ensures
            r@ == self@.filter,
    {
        &self.filter
    }

    /// The encoded cluster, where one was given.
    pub fn cluster(&self) -> (r: &Option<Vec<u8>>)
        ensures
            r matches Some(c) ==> self@.cluster == Some(c@),
            r is None ==> self@.cluster is None,
    {
        &self.cluster
    }

    /// Whether the walk over the found objects has ended.
    pub fn is_end(&self) -> (r: bool)
        ensures
            r == self@.ended,
    {
        self.is_end
    }

    /// Whether the native first-search call is still owed: the search has
    /// neither started nor ended.
    pub fn needs_start(&self) -> (r: bool)
        ensures
            r == (self@.handle == 0 && !self@.ended),
    {
        self.handle == 0 && !self.is_end
    }

    /// Records the native first-search call's report: a null cursor ends
    /// the walk with nothing found; a live cursor is kept and the first
    /// object is handed out.
    pub fn start_outcome(&mut self, search_handle: usize, object_handle: usize) -> (r: Option<
        FindObject,
    >)
        requires
            old(self)@.handle == 0,
            !old(self)@.ended,
        ensures
            search_handle == 0 ==> r is None && final(self)@ =~= (FindState {
                ended: true,
                ..old(self)@
            }),
            search_handle != 0 ==> r == Some(FindObject(object_handle)) && final(self)@
                =~= (FindState { handle: search_handle, ..old(self)@ }),
    {
        if search_handle == 0 {
            self.is_end = true;
            None
        } else {
            self.handle = search_handle;
            Some(FindObject(object_handle))
        }
    }

    /// Records a native next-object call's report: on success the walk goes
    /// on and the object is handed out; on failure the walk ends.
    pub fn next_outcome(&mut self, native_ok: bool, object_handle: usize) -> (r: Option<
        FindObject,
    >)
        requires
            old(self)@.handle != 0,
            !old(self)@.ended,
        ensures
            native_ok ==> r == Some(FindObject(object_handle)) && final(self)@ =~= old(self)@,
            !native_ok ==> r is None && final(self)@ =~= (FindState { ended: true, ..old(self)@ }),
    {
        if native_ok {
            Some(FindObject(object_handle))
        } else {
            self.is_end = true;
            None
        }
    }

    /// The native search cursor, zero before the search started.
    pub fn handle(&self) -> (r: usize)
        ensures
            r == self@.handle,
    {
        self.handle
    }
}

} // verus!
