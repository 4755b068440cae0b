//! Resource caches: identifier-keyed presence of images and typefaces.
//!
//! The engine treats images and fonts as opaque resources obtained by
//! identifier from the embedding environment.  What the executor needs of
//! them — and all this store records — is which identifiers are present:
//! a missing image degrades to transparent paint, a missing typeface to the
//! built-in font, and a missing sprite sheet skips its batch.  The handles
//! themselves live with the rendering backend, keyed by the same
//! identifiers.

use vstd::prelude::*;

use crate::store::bytes_eq;

verus! {

/// The identifiers present in one cache.
pub struct IdSet {
    ids: Vec<Vec<u8>>,
}

/// The mathematical value of a list of identifiers: the set of their byte
/// strings.
pub open spec fn ids_set(s: Seq<Vec<u8>>) -> Set<Seq<u8>>
    decreases s.len(),
{
    if s.len() == 0 {
        Set::empty()
    } else {
        ids_set(s.drop_last()).insert(s.last()@)
    }
}

/// An identifier that appears nowhere in the list is not in the set.
proof fn lemma_ids_absent(s: Seq<Vec<u8>>, id: Seq<u8>)
    requires
        forall|i: int| 0 <= i < s.len() ==> s[i]@ != id,
    ensures
        !ids_set(s).contains(id),
    decreases s.len(),
{
    if s.len() > 0 {
        lemma_ids_absent(s.drop_last(), id);
    }
}

/// Each listed identifier is in the set.
proof fn lemma_ids_at(s: Seq<Vec<u8>>, i: int)
    requires
        0 <= i < s.len(),
    ensures
        ids_set(s).contains(s[i]@),
    decreases s.len(),
{
    if i < s.len() - 1 {
        lemma_ids_at(s.drop_last(), i);
    }
}

/// Removing one occurrence of an identifier that occurs exactly once
/// removes it from the set.
proof fn lemma_ids_remove(s: Seq<Vec<u8>>, i: int)
    requires
        0 <= i < s.len(),
        forall|a: int, b: int| 0 <= a < b < s.len() ==> s[a]@ != s[b]@,
    ensures
        ids_set(s.remove(i)) == ids_set(s).remove(s[i]@),
    decreases s.len(),
{
    let sr = s.remove(i);
    if i == s.len() - 1 {
        assert(sr =~= s.drop_last());
        lemma_ids_absent(s.drop_last(), s.last()@);
        assert(ids_set(s.drop_last()) =~= ids_set(s).remove(s.last()@));
    } else {
        lemma_ids_remove(s.drop_last(), i);
        assert(sr.drop_last() =~= s.drop_last().remove(i));
        assert(sr.last() == s.last());
        assert(ids_set(s.drop_last()).remove(s[i]@).insert(s.last()@) =~= ids_set(
            s.drop_last(),
        ).insert(s.last()@).remove(s[i]@));
    }
}

impl View for IdSet {
    type V = Set<Seq<u8>>;

    closed spec fn view(&self) -> Set<Seq<u8>> {
        ids_set(self.ids@)
    }
}

impl IdSet {
    /// No identifier is listed twice.
    pub closed spec fn wf(&self) -> bool {
        forall|a: int, b: int| 0 <= a < b < self.ids@.len() ==> self.ids@[a]@ != self.ids@[b]@
    }

    /// An empty cache.
    pub fn new() -> (r: IdSet)
        ensures
            r.wf(),
            r@ == Set::<Seq<u8>>::empty(),
    {
        IdSet { ids: Vec::new() }
    }

    /// The index of an identifier, if present.
    fn find(&self, id: &[u8]) -> (r: Option<usize>)
        ensures
            match r {
                Some(i) => i < self.ids@.len() && self.ids@[i as int]@ == id@,
                None => !self@.contains(id@),
            },
    {
        let n = self.ids.len();
        let mut k: usize = 0;
        while k < n
            invariant
                k <= n,
                n == self.ids@.len(),
                forall|t: int| 0 <= t < k ==> self.ids@[t]@ != id@,
            decreases n - k,
        {
            if bytes_eq(self.ids[k].as_slice(), id) {
                return Some(k);
            }
            k += 1;
        }
        proof {
            lemma_ids_absent(self.ids@, id@);
        }
        None
    }

    /// Whether an identifier is present.
    pub fn contains(&self, id: &[u8]) -> (r: bool)
        ensures
            r == self@.contains(id@),
    {
        match self.find(id) {
            Some(i) => {
                proof {
                    lemma_ids_at(self.ids@, i as int);
                }
                true
            },
            None => false,
        }
    }

    /// Makes an identifier present.
    pub fn insert(&mut self, id: Vec<u8>)
        requires
            old(self).wf(),
        ensures
            final(self).wf(),
            final(self)@ == old(self)@.insert(id@),
    {
        let ghost pre = self.ids@;
        if self.contains(id.as_slice()) {
            proof {
                assert(self@ =~= self@.insert(id@));
            }
            return;
        }
        self.ids.push(id);
        proof {
            assert(self.ids@.drop_last() =~= pre);
            assert forall|a: int, b: int|
                0 <= a < b < self.ids@.len() implies self.ids@[a]@ != self.ids@[b]@ by {
                if b == self.ids@.len() - 1 {
                    lemma_ids_at(pre, a);
                }
            }
        }
    }

    /// Makes an identifier absent.
    pub fn remove(&mut self, id: &[u8])
        requires
            old(self).wf(),
        ensures
            final(self).wf(),
            final(self)@ == old(self)@.remove(id@),
    {
        let ghost pre = self.ids@;
        match self.find(id) {
            Some(i) => {
                proof {
                    lemma_ids_remove(pre, i as int);
                }
                self.ids.remove(i);
                proof {
                    assert(self.ids@ =~= pre.remove(i as int));
                    assert forall|a: int, b: int|
                        0 <= a < b < self.ids@.len() implies self.ids@[a]@ != self.ids@[b]@ by {
                        if a < i as int {
                            if b < i as int {
                                assert(pre[a]@ != pre[b]@);
                            } else {
                                assert(pre[a]@ != pre[b + 1]@);
                            }
                        } else {
                            assert(pre[a + 1]@ != pre[b + 1]@);
                        }
                    }
                }
            },
            None => {
                proof {
                    assert(self@ =~= self@.remove(id@));
                }
            },
        }
    }
}

/// The mathematical value of the resource caches.
pub struct CachesV {
    pub statics: Set<Seq<u8>>,
    pub streams: Set<Seq<u8>>,
    pub fonts: Set<Seq<u8>>,
}

/// The two identifier-keyed image caches (static and streaming) and the
/// typeface cache.  The executor only reads them; insertion and removal are
/// driven from outside the engine.
pub struct ResourceCaches {
    statics: IdSet,
    streams: IdSet,
    fonts: IdSet,
}

impl View for ResourceCaches {
    type V = CachesV;

    closed spec fn view(&self) -> CachesV {
        CachesV { statics: self.statics@, streams: self.streams@, fonts: self.fonts@ }
    }
}

impl ResourceCaches {
    /// All three caches list each identifier at most once.
    pub closed spec fn wf(&self) -> bool {
        self.statics.wf() && self.streams.wf() && self.fonts.wf()
    }

    /// Empty caches.
    pub fn new() -> (r: ResourceCaches)
        ensures
            r.wf(),
            r@.statics == Set::<Seq<u8>>::empty(),
            r@.streams == Set::<Seq<u8>>::empty(),
            r@.fonts == Set::<Seq<u8>>::empty(),
    {
        ResourceCaches { statics: IdSet::new(), streams: IdSet::new(), fonts: IdSet::new() }
    }

    /// Records a decoded static image under an identifier.
    pub fn insert_static_image(&mut self, id: Vec<u8>)
        requires
            old(self).wf(),
        ensures
            final(self).wf(),
            final(self)@.statics == old(self)@.statics.insert(id@),
            final(self)@.streams == old(self)@.streams,
            final(self)@.fonts == old(self)@.fonts,
    {
        self.statics.insert(id);
    }

    /// Records a streaming texture under an identifier.
    pub fn insert_stream_image(&mut self, id: Vec<u8>)
        requires
            old(self).wf(),
        ensures
            final(self).wf(),
            final(self)@.streams == old(self)@.streams.insert(id@),
            final(self)@.statics == old(self)@.statics,
            final(self)@.fonts == old(self)@.fonts,
    {
        self.streams.insert(id);
    }

    /// Drops the streaming texture stored under an identifier.
    pub fn remove_stream_image(&mut self, id: &[u8])
        requires
            old(self).wf(),
        ensures
            final(self).wf(),
            final(self)@.streams == old(self)@.streams.remove(id@),
            final(self)@.statics == old(self)@.statics,
            final(self)@.fonts == old(self)@.fonts,
    {
        self.streams.remove(id);
    }

    /// Records a typeface under an identifier.
    pub fn insert_font(&mut self, id: Vec<u8>)
        requires
            old(self).wf(),
        ensures
            final(self).wf(),
            final(self)@.fonts == old(self)@.fonts.insert(id@),
            final(self)@.statics == old(self)@.statics,
            final(self)@.streams == old(self)@.streams,
    {
        self.fonts.insert(id);
    }

    /// Whether a static image is cached under an identifier.
    pub fn has_static_image(&self, id: &[u8]) -> (r: bool)
        ensures
            r == self@.statics.contains(id@),
    {
        self.statics.contains(id)
    }

    /// Whether a streaming texture is cached under an identifier.
    pub fn has_stream_image(&self, id: &[u8]) -> (r: bool)
        ensures
            r == self@.streams.contains(id@),
    {
        self.streams.contains(id)
    }

    /// Whether a typeface is cached under an identifier.
    pub fn has_font(&self, id: &[u8]) -> (r: bool)
        ensures
            r == self@.fonts.contains(id@),
    {
        self.fonts.contains(id)
    }
}

} // verus!
