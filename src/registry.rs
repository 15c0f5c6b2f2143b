use vstd::prelude::*;
use crate::text::constant_time_eq;

verus! {

/// The metadata of a stored object, as text and numbers.
pub struct MetadataView {
    pub file_id: Seq<char>,
    pub original_name: Seq<char>,
    pub disk_path: Seq<char>,
    pub mime_type: Seq<char>,
    pub size: u64,
    pub uploaded_at: i64,
    pub owner: Seq<char>,
}

/// Metadata of one stored object.
pub struct FileMetadata {
    /// Unique identifier of the object.
    pub file_id: String,
    /// Sanitized display name; never used as a path.
    pub original_name: String,
    /// Storage location, derived from the identifier alone.
    pub disk_path: String,
    /// Mime type inferred from the display name.
    pub mime_type: String,
    /// Bytes written.
    pub size: u64,
    /// Unix time of publication, in seconds.
    pub uploaded_at: i64,
    /// Owner tag carried in capabilities.
    pub owner: String,
}

impl View for FileMetadata {
    type V = MetadataView;

    open spec fn view(&self) -> MetadataView {
        MetadataView {
            file_id: self.file_id@,
            original_name: self.original_name@,
            disk_path: self.disk_path@,
            mime_type: self.mime_type@,
            size: self.size,
            uploaded_at: self.uploaded_at,
            owner: self.owner@,
        }
    }
}

/// Some entry of `s` has identifier `id`.
pub open spec fn has_id(s: Seq<MetadataView>, id: Seq<char>) -> bool {
    exists|i: int| 0 <= i < s.len() && (#[trigger] s[i]).file_id == id
}

/// The position of the entry with identifier `id`.
pub open spec fn slot(s: Seq<MetadataView>, id: Seq<char>) -> int {
    choose|i: int| 0 <= i < s.len() && (#[trigger] s[i]).file_id == id
}

/// No two entries share an identifier.
pub open spec fn ids_unique(s: Seq<MetadataView>) -> bool {
    forall|i: int, j: int|
        0 <= i < s.len() && 0 <= j < s.len() && i != j ==> (#[trigger] s[i]).file_id != (
        #[trigger] s[j]).file_id
}

/// An object is past its time to live at `now`.
pub open spec fn is_expired(m: MetadataView, now: i64, ttl: u64) -> bool {
    now - m.uploaded_at > ttl
}

/// The identifiers of the expired entries, in registry order.
pub open spec fn expired_ids(s: Seq<MetadataView>, now: i64, ttl: u64) -> Seq<Seq<char>>
    decreases s.len(),
{
    if s.len() == 0 {
        Seq::empty()
    } else {
        let p = expired_ids(s.drop_last(), now, ttl);
        if is_expired(s.last(), now, ttl) {
            p.push(s.last().file_id)
        } else {
            p
        }
    }
}

/// The in-memory map from object identifier to metadata: the one authority
/// on which objects exist.
pub struct Registry {
    entries: Vec<FileMetadata>,
}

impl View for Registry {
    type V = Seq<MetadataView>;

    closed spec fn view(&self) -> Seq<MetadataView> {
        self.entries@.map_values(|m: FileMetadata| m@)
    }
}

impl Registry {
    /// The registry holds each identifier at most once.
    pub open spec fn wf(&self) -> bool {
        ids_unique(self@)
    }

    /// An empty registry.
    pub fn new() -> (r: Registry)
        ensures
            r@ == Seq::<MetadataView>::empty(),
            r.wf(),
    {
        let r = Registry { entries: Vec::new() };
        assert(r@ =~= Seq::<MetadataView>::empty());
        r
    }

    /// Number of entries.
    pub fn len(&self) -> (r: usize)
        ensures
            r == self@.len(),
    {
        self.entries.len()
    }

    /// The position of the entry with identifier `id`, if any.
    fn find(&self, id: &str) -> (r: Option<usize>)
        requires
            self.wf(),
        ensures
            match r {
                Some(i) => i < self@.len() && self@[i as int].file_id == id@ && has_id(self@, id@)
                    && slot(self@, id@) == i,
                None => !has_id(self@, id@),
            },
    {
        let mut i: usize = 0;
        while i < self.entries.len()
            invariant
                self.wf(),
                i <= self@.len(),
                self@.len() == self.entries@.len(),
                forall|k: int| 0 <= k < i ==> (#[trigger] self@[k]).file_id != id@,
            decreases self.entries.len() - i,
        {
            assert(self@[i as int] == self.entries@[i as int]@);
            if constant_time_eq(self.entries[i].file_id.as_str(), id) {
                proof {
                    assert(self@[i as int].file_id == id@);
                    assert(has_id(self@, id@));
                    let k = slot(self@, id@);
                    assert(self@[k].file_id == id@);
                    if k != i {
                        assert(self@[k].file_id != self@[i as int].file_id);
                    }
                }
                return Some(i);
            }
            i = i + 1;
        }
        None
    }

    /// Whether an entry with identifier `id` exists.
    pub fn contains(&self, id: &str) -> (r: bool)
        requires
            self.wf(),
        ensures
            r == has_id(self@, id@),
    {
        self.find(id).is_some()
    }

    /// The entry with identifier `id`, if any.
    pub fn get(&self, id: &str) -> (r: Option<&FileMetadata>)
        requires
            self.wf(),
        ensures
            match r {
                Some(m) => has_id(self@, id@) && m@ == self@[slot(self@, id@)],
                None => !has_id(self@, id@),
            },
    {
        match self.find(id) {
            Some(i) => Some(&self.entries[i]),
            None => None,
        }
    }

    /// Publishes an entry; one with the same identifier is replaced.
    pub fn insert(&mut self, meta: FileMetadata)
        requires
            old(self).wf(),
        ensures
            final(self).wf(),
            has_id(old(self)@, meta@.file_id) ==> final(self)@ == old(self)@.update(
                slot(old(self)@, meta@.file_id),
                meta@,
            ),
            !has_id(old(self)@, meta@.file_id) ==> final(self)@ == old(self)@.push(meta@),
            has_id(final(self)@, meta@.file_id),
            final(self)@[slot(final(self)@, meta@.file_id)] == meta@,
    {
        match self.find(meta.file_id.as_str()) {
            Some(i) => {
                let ghost m = meta@;
                self.entries.set(i, meta);
                assert(self@ =~= old(self)@.update(i as int, m));
                proof {
                    lemma_slot_at(self@, i as int);
                }
            },
            None => {
                let ghost m = meta@;
                self.entries.push(meta);
                assert(self@ =~= old(self)@.push(m));
                proof {
                    assert forall|a: int, b: int|
                        0 <= a < self@.len() && 0 <= b < self@.len() && a != b implies (
                        #[trigger] self@[a]).file_id != (#[trigger] self@[b]).file_id by {
                        if a < old(self)@.len() && b < old(self)@.len() {
                            assert(self@[a] == old(self)@[a]);
                            assert(self@[b] == old(self)@[b]);
                        } else if a < old(self)@.len() {
                            assert(self@[a] == old(self)@[a]);
                        } else {
                            assert(self@[b] == old(self)@[b]);
                        }
                    }
                    lemma_slot_at(self@, old(self)@.len() as int);
                }
            },
        }
    }

    /// Removes the entry with identifier `id`, if any, and hands it back.
    /// Removing an absent identifier changes nothing.
    pub fn remove(&mut self, id: &str) -> (r: Option<FileMetadata>)
        requires
            old(self).wf(),
        ensures
            final(self).wf(),
            match r {
                Some(m) => has_id(old(self)@, id@) && m@ == old(self)@[slot(old(self)@, id@)]
                    && final(self)@ == old(self)@.remove(slot(old(self)@, id@)),
                None => !has_id(old(self)@, id@) && final(self)@ == old(self)@,
            },
    {
        match self.find(id) {
            Some(i) => {
                let m = self.entries.remove(i);
                assert(self@ =~= old(self)@.remove(i as int));
                Some(m)
            },
            None => None,
        }
    }

    /// The identifiers of the entries older than `ttl` seconds at `now`.
    pub fn expired(&self, now: i64, ttl: u64) -> (r: Vec<String>)
        ensures
            r.deep_view() == expired_ids(self@, now, ttl),
    {
        let mut out: Vec<String> = Vec::new();
        let mut i: usize = 0;
        while i < self.entries.len()
            invariant
                i <= self@.len(),
                self@.len() == self.entries@.len(),
                out.deep_view() == expired_ids(self@.take(i as int), now, ttl),
            decreases self.entries.len() - i,
        {
            let m = &self.entries[i];
            assert(self@[i as int] == m@);
            assert(self@.take(i + 1).drop_last() == self@.take(i as int));
            let age: i128 = now as i128 - m.uploaded_at as i128;
            if age > ttl as i128 {
                let ghost before = out.deep_view();
                out.push(m.file_id.clone());
                assert(out.deep_view() =~= before.push(m.file_id@));
            }
            i = i + 1;
        }
        assert(self@.take(i as int) == self@);
        out
    }
}

proof fn lemma_slot_at(s: Seq<MetadataView>, i: int)
    requires
        ids_unique(s),
        0 <= i < s.len(),
    ensures
        has_id(s, s[i].file_id),
        slot(s, s[i].file_id) == i,
{
    assert(has_id(s, s[i].file_id));
    let k = slot(s, s[i].file_id);
    if k != i {
        assert(s[k].file_id != s[i].file_id);
    }
}

/// Deleting is idempotent: once an identifier has been removed, removing it
/// again finds nothing and leaves the registry as it is.
pub proof fn lemma_delete_idempotent(s: Seq<MetadataView>, id: Seq<char>)
    requires
        ids_unique(s),
        has_id(s, id),
    ensures
        !has_id(s.remove(slot(s, id)), id),
        ids_unique(s.remove(slot(s, id))),
{
    let k = slot(s, id);
    let t = s.remove(k);
    assert forall|i: int| 0 <= i < t.len() implies (#[trigger] t[i]).file_id != id by {
        if i < k {
            assert(t[i] == s[i]);
        } else {
            assert(t[i] == s[i + 1]);
        }
    }
    assert forall|i: int, j: int|
        0 <= i < t.len() && 0 <= j < t.len() && i != j implies (#[trigger] t[i]).file_id != (
        #[trigger] t[j]).file_id by {
        let a = if i < k { i } else { i + 1 };
        let b = if j < k { j } else { j + 1 };
        assert(t[i] == s[a]);
        assert(t[j] == s[b]);
    }
}

} // verus!
