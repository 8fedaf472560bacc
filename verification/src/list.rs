//! Tag-list registry and the decisions of the list call paths.
//!
//! A list groups tags so the native layer can read them as one request. The
//! native layer hands out an item handle for every tag added to a list; a
//! [`CtList`] models the list as its own handle plus the registry from tag
//! name to item handle, and its methods turn each native report into the
//! next registry state and the caller's typed outcome. The registry is
//! keyed by the tag name's bytes and never holds a key twice.

use vstd::prelude::*;
use vstd::slice::slice_to_vec;
use vstd::string::StringSliceAdditionalSpecFns;

use crate::codec::MAX_CODEC_LEN;
use crate::codec::ascii_bytes;
use crate::codec::chars_of_bytes;
use crate::codec::extract_string_from_buffer;
use crate::codec::gbk_decode_of;
use crate::codec::has_nul;
use crate::codec::nul_prefix;
use crate::error::CtApiError;

verus! {

/// The registry a sequence of entries stands for: each key bound to its
/// latest value.
pub open spec fn tag_map(tags: Seq<(Seq<u8>, usize)>) -> Map<Seq<u8>, usize>
    decreases tags.len(),
{
    if tags.len() == 0 {
        Map::empty()
    } else {
        tag_map(tags.drop_last()).insert(tags.last().0, tags.last().1)
    }
}

/// No key occurs twice among the entries.
pub open spec fn unique_keys(tags: Seq<(Seq<u8>, usize)>) -> bool {
    forall|i: int, j: int| 0 <= i < j < tags.len() ==> tags[i].0 != tags[j].0
}

/// A key is in the registry exactly when some entry holds it.
pub proof fn lemma_tag_map_contains(tags: Seq<(Seq<u8>, usize)>, k: Seq<u8>)
    ensures
        tag_map(tags).contains_key(k) <==> exists|i: int| 0 <= i < tags.len() && tags[i].0 == k,
    decreases tags.len(),
{
    if tags.len() > 0 {
        lemma_tag_map_contains(tags.drop_last(), k);
        if tags.last().0 == k {
            assert(tags[tags.len() - 1].0 == k);
        } else if tag_map(tags).contains_key(k) {
            let i = choose|i: int| 0 <= i < tags.drop_last().len() && tags.drop_last()[i].0 == k;
            assert(tags[i].0 == k);
        } else if exists|i: int| 0 <= i < tags.len() && tags[i].0 == k {
            let i = choose|i: int| 0 <= i < tags.len() && tags[i].0 == k;
            assert(tags.drop_last()[i].0 == k);
        }
    }
}

/// With unique keys, the registry binds each entry's key to that entry's
/// value.
pub proof fn lemma_tag_map_index(tags: Seq<(Seq<u8>, usize)>, i: int)
    requires
        unique_keys(tags),
        0 <= i < tags.len(),
    ensures
        tag_map(tags).contains_key(tags[i].0),
        tag_map(tags)[tags[i].0] == tags[i].1,
    decreases tags.len(),
{
    lemma_tag_map_contains(tags, tags[i].0);
    if i < tags.len() - 1 {
        assert(tags[i].0 != tags.last().0);
        assert(tags.drop_last()[i] == tags[i]);
        lemma_tag_map_index(tags.drop_last(), i);
    }
}

/// With unique keys, overwriting one entry's value rebinds exactly that
/// entry's key.
proof fn lemma_tag_map_update(tags: Seq<(Seq<u8>, usize)>, i: int, v: usize)
    requires
        unique_keys(tags),
        0 <= i < tags.len(),
    ensures
        tag_map(tags.update(i, (tags[i].0, v))) =~= tag_map(tags).insert(tags[i].0, v),
    decreases tags.len(),
{
    let k = tags[i].0;
    let updated = tags.update(i, (k, v));
    if i == tags.len() - 1 {
        assert(updated.drop_last() =~= tags.drop_last());
        assert(updated.last() == (k, v));
    } else {
        assert(updated.drop_last() =~= tags.drop_last().update(i, (k, v)));
        assert(tags.drop_last()[i] == tags[i]);
        lemma_tag_map_update(tags.drop_last(), i, v);
        assert(updated.last() == tags.last());
        assert(k != tags.last().0);
        assert(tag_map(updated) =~= tag_map(tags.drop_last()).insert(k, v).insert(
            tags.last().0,
            tags.last().1,
        ));
    }
}

/// With unique keys, removing one entry unbinds exactly that entry's key.
proof fn lemma_tag_map_remove(tags: Seq<(Seq<u8>, usize)>, i: int)
    requires
        unique_keys(tags),
        0 <= i < tags.len(),
    ensures
        tag_map(tags.remove(i)) =~= tag_map(tags).remove(tags[i].0),
    decreases tags.len(),
{
    let k = tags[i].0;
    let removed = tags.remove(i);
    if i == tags.len() - 1 {
        assert(removed =~= tags.drop_last());
        lemma_tag_map_contains(tags.drop_last(), k);
        assert forall|j: int| 0 <= j < tags.drop_last().len() implies tags.drop_last()[j].0
            != k by {
            assert(tags[j] == tags.drop_last()[j]);
        }
        assert(!tag_map(tags.drop_last()).contains_key(k));
        assert(tag_map(tags.drop_last()).insert(k, tags[i].1).remove(k) =~= tag_map(
            tags.drop_last(),
        ));
    } else {
        assert(removed.drop_last() =~= tags.drop_last().remove(i));
        assert(tags.drop_last()[i] == tags[i]);
        lemma_tag_map_remove(tags.drop_last(), i);
        assert(removed.last() == tags.last());
        assert(k != tags.last().0);
        assert(tag_map(removed) =~= tag_map(tags.drop_last()).remove(k).insert(
            tags.last().0,
            tags.last().1,
        ));
    }
}

/// Mathematical state of a tag list.
#[verifier::ext_equal]
pub struct ListState {
    /// The native list handle.
    pub handle: usize,
    /// The registry entries, each a tag name's bytes and its item handle.
    pub tags: Seq<(Seq<u8>, usize)>,
}

/// A tag list: its native handle and the registry from tag name to the
/// native item handle.
#[derive(Debug)]
pub struct CtList {
    handle: usize,
    tags: Vec<(Vec<u8>, usize)>,
}

impl View for CtList {
    type V = ListState;

    closed spec fn view(&self) -> ListState {
        ListState {
            handle: self.handle,
            tags: self.tags@.map_values(|p: (Vec<u8>, usize)| (p.0@, p.1)),
        }
    }
}

impl CtList {
    /// The registry never holds a key twice.
    pub open spec fn wf(&self) -> bool {
        unique_keys(self@.tags)
    }

    /// The registry this list stands for.
    pub open spec fn map(&self) -> Map<Seq<u8>, usize> {
        tag_map(self@.tags)
    }

    /// A list over the handle a native list-creation call returned: a list
    /// with an empty registry exactly when the handle is non-zero, else a
    /// system error with the operating-system code reported beside the null
    /// handle.
    pub fn from_handle(handle: usize, os_error: u32) -> (r: Result<CtList, CtApiError>)
        ensures
            handle != 0 ==> (r matches Ok(l) && l@.handle == handle && l@.tags.len() == 0 && l.wf()
                && l.map() =~= Map::<Seq<u8>, usize>::empty()),
            handle == 0 ==> (r matches Err(e) && e == (CtApiError::System { code: os_error })),
    {
        if handle == 0 {
            Err(CtApiError::System { code: os_error })
        } else {
            let l = CtList { handle, tags: Vec::new() };
            proof {
                assert(l@.tags =~= Seq::<(Seq<u8>, usize)>::empty());
            }
            Ok(l)
        }
    }

    /// The native list handle.
    pub fn handle(&self) -> (r: usize)
        ensures
            r == self@.handle,
    {
        self.handle
    }

    /// Number of registered tags.
    pub fn tag_count(&self) -> (r: usize)
        ensures
            r == self@.tags.len(),
    {
        self.tags.len()
    }

    /// Index of the entry holding the key, if any.
    fn find_index(&self, key: &Vec<u8>) -> (r: Option<usize>)
        ensures
            r matches Some(i) ==> i < self@.tags.len() && self@.tags[i as int].0 == key@,
            r is None ==> forall|i: int| 0 <= i < self@.tags.len() ==> self@.tags[i].0 != key@,
    {
        let n = self.tags.len();
        for k in 0..n
            invariant
                n == self.tags.len(),
                forall|i: int| 0 <= i < k ==> self@.tags[i].0 != key@,
        {
            if self.tags[k].0 == *key {
                return Some(k);
            }
        }
        None
    }

    /// The item handle registered for the tag: the handle exactly when the
    /// tag is registered, else a not-found error naming the tag.
    pub fn lookup_handle(&self, tag: &str) -> (r: Result<usize, CtApiError>)
        requires
            self.wf(),
        ensures
            r is Ok <==> self.map().contains_key(tag.spec_bytes()),
            r matches Ok(h) ==> self.map()[tag.spec_bytes()] == h,
            r matches Err(e) ==> (e matches CtApiError::TagNotFound { tag: t } && t@ == tag@),
    {
        let key = slice_to_vec(tag.as_bytes());
        proof {
            lemma_tag_map_contains(self@.tags, key@);
        }
        match self.find_index(&key) {
            Some(i) => {
                proof {
                    lemma_tag_map_index(self@.tags, i as int);
                }
                Ok(self.tags[i].1)
            },
            None => Err(CtApiError::TagNotFound { tag: tag.to_owned() }),
        }
    }

    /// Records the native add-tag call's report: a null item handle is a
    /// system error that leaves the registry unchanged; a live handle is
    /// registered under the tag's name, replacing any earlier binding.
    pub fn add_outcome(&mut self, tag: &str, item_handle: usize, os_error: u32) -> (r: Result<
        (),
        CtApiError,
    >)
        requires
            old(self).wf(),
        ensures
            final(self).wf(),
            final(self)@.handle == old(self)@.handle,
            item_handle == 0 ==> (r matches Err(e) && e == (CtApiError::System { code: os_error })
                && final(self)@ =~= old(self)@),
            item_handle != 0 ==> r is Ok && final(self).map() =~= old(self).map().insert(
                tag.spec_bytes(),
                item_handle,
            ),
    {
        if item_handle == 0 {
            return Err(CtApiError::System { code: os_error });
        }
        let key = slice_to_vec(tag.as_bytes());
        let ghost old_tags = self@.tags;
        match self.find_index(&key) {
            Some(i) => {
                proof {
                    lemma_tag_map_update(old_tags, i as int, item_handle);
                }
                self.tags.set(i, (key, item_handle));
                proof {
                    assert(self@.tags =~= old_tags.update(i as int, (tag.spec_bytes(), item_handle)));
                }
            },
            None => {
                self.tags.push((key, item_handle));
                proof {
                    assert(self@.tags =~= old_tags.push((tag.spec_bytes(), item_handle)));
                    assert(self@.tags.drop_last() =~= old_tags);
                }
            },
        }
        Ok(())
    }

    /// Records the native delete-tag call's report for a registered tag: on
    /// success the tag leaves the registry; on failure a system error is
    /// reported and the registry is unchanged, as the native layer still
    /// holds the item.
    pub fn delete_outcome(&mut self, tag: &str, native_ok: bool, os_error: u32) -> (r: Result<
        (),
        CtApiError,
    >)
        requires
            old(self).wf(),
            old(self).map().contains_key(tag.spec_bytes()),
        ensures
            final(self).wf(),
            final(self)@.handle == old(self)@.handle,
            !native_ok ==> (r matches Err(e) && e == (CtApiError::System { code: os_error })
                && final(self)@ =~= old(self)@),
            native_ok ==> r is Ok && final(self).map() =~= old(self).map().remove(
                tag.spec_bytes(),
            ),
    {
        if !native_ok {
            return Err(CtApiError::System { code: os_error });
        }
        let key = slice_to_vec(tag.as_bytes());
        let ghost old_tags = self@.tags;
        proof {
            lemma_tag_map_contains(old_tags, key@);
        }
        match self.find_index(&key) {
            Some(i) => {
                proof {
                    lemma_tag_map_remove(old_tags, i as int);
                }
                self.tags.remove(i);
                proof {
                    assert(self@.tags =~= old_tags.remove(i as int));
                }
                Ok(())
            },
            None => {
                proof {
                    assert(false);
                }
                Err(CtApiError::TagNotFound { tag: tag.to_owned() })
            },
        }
    }
}

/// Outcome of reading one list entry's data, given the native call's
/// report: a system error with the reported code on failure, else the
/// buffer text before the first zero terminator — a missing terminator is a
/// decoding error, and an empty value is simply the empty string.
pub fn data_outcome(native_ok: bool, os_error: u32, buffer: &[u8]) -> (r: Result<
    String,
    CtApiError,
>)
    requires
        buffer@.len() < MAX_CODEC_LEN,
    ensures
        !native_ok ==> (r matches Err(e) && e == (CtApiError::System { code: os_error })),
        native_ok ==> (r is Ok <==> has_nul(buffer@)),
        native_ok ==> (r matches Ok(s) ==> s@ == gbk_decode_of(nul_prefix(buffer@))),
        native_ok ==> (r matches Ok(s) ==> (ascii_bytes(nul_prefix(buffer@)) ==> s@
            == chars_of_bytes(nul_prefix(buffer@)))),
        native_ok && !has_nul(buffer@) ==> (r matches Err(e) && e matches CtApiError::Decoding),
{
    if !native_ok {
        return Err(CtApiError::System { code: os_error });
    }
    extract_string_from_buffer(buffer)
}

} // verus!
