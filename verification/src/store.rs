//! The script store: named, decoded scripts, a designated root identifier
//! and a background clear color.
//!
//! Scripts are replaced or removed whole; a submission is decoded first and
//! installed only if the whole buffer decodes, so the store never holds a
//! partial operation list.  Submitting under the reserved root identifier
//! makes that script the frame's root program.

use vstd::pervasive::VecAdditionalExecFns;
use vstd::prelude::*;

use crate::codec::{DecodeError, parse_script, spec_decode};
use crate::color::Color;
use crate::ops::{OpV, ScriptOp, ops_view};

verus! {

/// One stored script: its identifier bytes and its decoded operations.
pub struct ScriptEntry {
    pub id: Vec<u8>,
    pub ops: Vec<ScriptOp>,
}

/// The mathematical value of a list of stored scripts: identifier to
/// operation list.
pub open spec fn table_map(s: Seq<ScriptEntry>) -> Map<Seq<u8>, Seq<OpV>>
    decreases s.len(),
{
    if s.len() == 0 {
        Map::empty()
    } else {
        table_map(s.drop_last()).insert(s.last().id@, ops_view(s.last().ops@))
    }
}

/// No two stored scripts share an identifier.
pub open spec fn distinct_keys(s: Seq<ScriptEntry>) -> bool {
    forall|i: int, j: int| 0 <= i < j < s.len() ==> s[i].id@ != s[j].id@
}

/// An identifier that appears in no entry is not in the table.
proof fn lemma_table_absent(s: Seq<ScriptEntry>, id: Seq<u8>)
    requires
        forall|i: int| 0 <= i < s.len() ==> s[i].id@ != id,
    ensures
        !table_map(s).contains_key(id),
    decreases s.len(),
{
    if s.len() > 0 {
        lemma_table_absent(s.drop_last(), id);
    }
}

/// Each entry is in the table under its identifier.
proof fn lemma_table_at(s: Seq<ScriptEntry>, i: int)
    requires
        distinct_keys(s),
        0 <= i < s.len(),
    ensures
        table_map(s).contains_key(s[i].id@),
        table_map(s)[s[i].id@] == ops_view(s[i].ops@),
    decreases s.len(),
{
    if i < s.len() - 1 {
        lemma_table_at(s.drop_last(), i);
    }
}

/// A table with distinct identifiers holds exactly one entry per key.
proof fn lemma_table_dom(s: Seq<ScriptEntry>)
    requires
        distinct_keys(s),
    ensures
        table_map(s).dom().finite(),
        table_map(s).dom().len() == s.len(),
    decreases s.len(),
{
    if s.len() > 0 {
        lemma_table_dom(s.drop_last());
        lemma_table_absent(s.drop_last(), s.last().id@);
    }
}

/// Replacing the operations of the entry that holds a key updates the table
/// at that key.
proof fn lemma_table_update(s: Seq<ScriptEntry>, i: int, e: ScriptEntry)
    requires
        distinct_keys(s),
        0 <= i < s.len(),
        e.id@ == s[i].id@,
    ensures
        table_map(s.update(i, e)) == table_map(s).insert(e.id@, ops_view(e.ops@)),
    decreases s.len(),
{
    let su = s.update(i, e);
    if i == s.len() - 1 {
        assert(su.drop_last() =~= s.drop_last());
    } else {
        lemma_table_update(s.drop_last(), i, e);
        assert(su.drop_last() =~= s.drop_last().update(i, e));
        assert(su.last() == s.last());
        assert(table_map(s.drop_last()).insert(e.id@, ops_view(e.ops@)).insert(
            s.last().id@,
            ops_view(s.last().ops@),
        ) =~= table_map(s.drop_last()).insert(s.last().id@, ops_view(s.last().ops@)).insert(
            e.id@,
            ops_view(e.ops@),
        ));
    }
}

/// Removing the entry that holds a key removes that key from the table.
proof fn lemma_table_remove(s: Seq<ScriptEntry>, i: int)
    requires
        distinct_keys(s),
        0 <= i < s.len(),
    ensures
        table_map(s.remove(i)) == table_map(s).remove(s[i].id@),
    decreases s.len(),
{
    let sr = s.remove(i);
    if i == s.len() - 1 {
        assert(sr =~= s.drop_last());
        lemma_table_absent(s.drop_last(), s.last().id@);
        assert(table_map(s.drop_last()) =~= table_map(s).remove(s.last().id@));
    } else {
        lemma_table_remove(s.drop_last(), i);
        assert(sr.drop_last() =~= s.drop_last().remove(i));
        assert(sr.last() == s.last());
        assert(table_map(s.drop_last()).remove(s[i].id@).insert(
            s.last().id@,
            ops_view(s.last().ops@),
        ) =~= table_map(s.drop_last()).insert(s.last().id@, ops_view(s.last().ops@)).remove(
            s[i].id@,
        ));
    }
}

/// Whether two byte strings hold the same bytes.
pub fn bytes_eq(a: &[u8], b: &[u8]) -> (r: bool)
    ensures
        r == (a@ == b@),
{
    if a.len() != b.len() {
        proof {
            assert(a@ != b@);
        }
        return false;
    }
    let n = a.len();
    let mut k: usize = 0;
    while k < n
        invariant
            k <= n,
            n == a@.len(),
            n == b@.len(),
            forall|t: int| 0 <= t < k ==> a@[t] == b@[t],
        decreases n - k,
    {
        if a[k] != b[k] {
            return false;
        }
        k += 1;
    }
    proof {
        assert(a@ =~= b@);
    }
    true
}

/// The reserved root identifier's value, as bytes.
pub open spec fn root_id_spec() -> Seq<u8> {
    seq![95u8, 114u8, 111u8, 111u8, 116u8, 95u8]
}

/// The reserved root identifier: a script submitted under it becomes the
/// frame's root program.
pub fn root_id() -> (r: Vec<u8>)
    ensures
        r@ == root_id_spec(),
{
    let r: Vec<u8> = vec![95u8, 114u8, 111u8, 111u8, 116u8, 95u8];
    proof {
        assert(r@ =~= root_id_spec());
    }
    r
}

/// The mathematical value of the render state.
pub struct RenderStateV {
    pub clear_color: Color,
    pub scripts: Map<Seq<u8>, Seq<OpV>>,
    pub root_id: Option<Seq<u8>>,
}

/// Background clear color, the script store, and the root identifier: all
/// the state a redraw reads.
pub struct RenderState {
    pub clear_color: Color,
    entries: Vec<ScriptEntry>,
    root_id: Option<Vec<u8>>,
}

impl View for RenderState {
    type V = RenderStateV;

    closed spec fn view(&self) -> RenderStateV {
        RenderStateV {
            clear_color: self.clear_color,
            scripts: table_map(self.entries@),
            root_id: match self.root_id {
                Some(ref id) => Some(id@),
                None => None,
            },
        }
    }
}

/// Installing one script: the table gains or replaces the entry, and a
/// submission under the reserved root identifier becomes the root program.
pub open spec fn spec_install(st: RenderStateV, id: Seq<u8>, ops: Seq<OpV>) -> RenderStateV {
    RenderStateV {
        clear_color: st.clear_color,
        scripts: st.scripts.insert(id, ops),
        root_id: if id == root_id_spec() {
            Some(id)
        } else {
            st.root_id
        },
    }
}

/// Installing a batch of scripts, first to last.
pub open spec fn spec_install_all(st: RenderStateV, items: Seq<(Seq<u8>, Seq<OpV>)>) -> RenderStateV
    decreases items.len(),
{
    if items.len() == 0 {
        st
    } else {
        spec_install_all(spec_install(st, items[0].0, items[0].1), items.drop_first())
    }
}

/// The identifiers and decoded operation lists of a batch submission.
pub open spec fn staged_views(scripts: Seq<(Vec<u8>, Vec<u8>)>) -> Seq<(Seq<u8>, Seq<OpV>)> {
    Seq::new(scripts.len(), |i: int| (scripts[i].0@, spec_decode(scripts[i].1@).unwrap()))
}

impl RenderState {
    /// No two stored scripts share an identifier.
    pub closed spec fn wf(&self) -> bool {
        distinct_keys(self.entries@)
    }

    /// A fresh scene: white background, no scripts, no root.
    pub fn new() -> (r: RenderState)
        ensures
            r.wf(),
            r@.clear_color == crate::color::spec_white(),
            r@.scripts == Map::<Seq<u8>, Seq<OpV>>::empty(),
            r@.root_id is None,
    {
        RenderState { clear_color: Color::white(), entries: Vec::new(), root_id: None }
    }

    /// The index of the entry holding `id`, if any.
    fn find(&self, id: &[u8]) -> (r: Option<usize>)
        requires
            self.wf(),
        ensures
            match r {
                Some(i) => i < self.entries@.len() && self.entries@[i as int].id@ == id@,
                None => !self@.scripts.contains_key(id@),
            },
    {
        let n = self.entries.len();
        let mut k: usize = 0;
        while k < n
            invariant
                k <= n,
                n == self.entries@.len(),
                forall|t: int| 0 <= t < k ==> self.entries@[t].id@ != id@,
            decreases n - k,
        {
            if bytes_eq(self.entries[k].id.as_slice(), id) {
                return Some(k);
            }
            k += 1;
        }
        proof {
            lemma_table_absent(self.entries@, id@);
        }
        None
    }

    /// The operations stored under `id`, if any.
    pub fn get_script(&self, id: &[u8]) -> (r: Option<&Vec<ScriptOp>>)
        requires
            self.wf(),
        ensures
            match r {
                Some(ops) => self@.scripts.contains_key(id@) && self@.scripts[id@] == ops_view(
                    ops@,
                ),
                None => !self@.scripts.contains_key(id@),
            },
    {
        match self.find(id) {
            Some(i) => {
                proof {
                    lemma_table_at(self.entries@, i as int);
                }
                Some(&self.entries[i].ops)
            },
            None => None,
        }
    }

    /// Inserts or replaces the script stored under `id`; a submission under
    /// the reserved root identifier (re)confirms it as the root program.
    pub fn set_script(&mut self, id: Vec<u8>, ops: Vec<ScriptOp>)
        requires
            old(self).wf(),
        ensures
            final(self).wf(),
            final(self)@ == spec_install(old(self)@, id@, ops_view(ops@)),
    {
        let is_root = bytes_eq(id.as_slice(), root_id().as_slice());
        let ghost pre = self.entries@;
        match self.find(id.as_slice()) {
            Some(i) => {
                let entry = ScriptEntry { id, ops };
                proof {
                    lemma_table_update(pre, i as int, entry);
                }
                self.entries.set(i, entry);
                proof {
                    assert(distinct_keys(self.entries@));
                }
            },
            None => {
                let entry = ScriptEntry { id, ops };
                self.entries.push(entry);
                proof {
                    assert(self.entries@.drop_last() =~= pre);
                    assert forall|i: int, j: int|
                        0 <= i < j < self.entries@.len() implies self.entries@[i].id@
                        != self.entries@[j].id@ by {
                        if j == self.entries@.len() - 1 {
                            lemma_table_at(pre, i);
                        }
                    }
                }
            },
        }
        if is_root {
            self.root_id = Some(root_id());
        }
        proof {
            assert(self@.scripts =~= spec_install(old(self)@, id@, ops_view(ops@)).scripts);
        }
    }

    /// Decodes a buffer and installs it as the root program.  If the buffer
    /// is rejected, the store is unchanged.
    pub fn submit_script(&mut self, script: &[u8]) -> (r: Result<(), DecodeError>)
        requires
            old(self).wf(),
        ensures
            final(self).wf(),
            match r {
                Ok(()) => spec_decode(script@) matches Ok(ops) && final(self)@ == spec_install(
                    old(self)@,
                    root_id_spec(),
                    ops,
                ),
                Err(e) => spec_decode(script@) == Err::<Seq<OpV>, DecodeError>(e) && final(self)@
                    == old(self)@,
            },
    {
        let ops = parse_script(script)?;
        self.set_script(root_id(), ops);
        Ok(())
    }

    /// Decodes a buffer and installs it under `id`.  If the buffer is
    /// rejected, the store is unchanged.
    pub fn submit_script_with_id(&mut self, id: Vec<u8>, script: &[u8]) -> (r: Result<
        (),
        DecodeError,
    >)
        requires
            old(self).wf(),
        ensures
            final(self).wf(),
            match r {
                Ok(()) => spec_decode(script@) matches Ok(ops) && final(self)@ == spec_install(
                    old(self)@,
                    id@,
                    ops,
                ),
                Err(e) => spec_decode(script@) == Err::<Seq<OpV>, DecodeError>(e) && final(self)@
                    == old(self)@,
            },
    {
        let ops = parse_script(script)?;
        self.set_script(id, ops);
        Ok(())
    }

    /// Decodes a batch of buffers and installs them all, or none: if any
    /// buffer is rejected, the store is left exactly as it was.
    pub fn submit_scripts(&mut self, scripts: &Vec<(Vec<u8>, Vec<u8>)>) -> (r: Result<
        (),
        DecodeError,
    >)
        requires
            old(self).wf(),
        ensures
            final(self).wf(),
            match r {
                Ok(()) => (forall|i: int|
                    0 <= i < scripts@.len() ==> spec_decode(#[trigger] scripts@[i].1@) is Ok)
                    && final(self)@ == spec_install_all(old(self)@, staged_views(scripts@)),
                Err(e) => final(self)@ == old(self)@ && exists|i: int|
                    0 <= i < scripts@.len() && spec_decode(#[trigger] scripts@[i].1@) == Err::<
                        Seq<OpV>,
                        DecodeError,
                    >(e) && (forall|j: int|
                        0 <= j < i ==> spec_decode(#[trigger] scripts@[j].1@) is Ok),
            },
    {
        let n = scripts.len();
        let mut staged: Vec<ScriptEntry> = Vec::new();
        let mut k: usize = 0;
        while k < n
            invariant
                k <= n,
                n == scripts@.len(),
                self.wf(),
                self@ == old(self)@,
                staged@.len() == k,
                forall|i: int|
                    0 <= i < k ==> spec_decode(#[trigger] scripts@[i].1@) is Ok,
                forall|i: int|
                    0 <= i < k ==> (#[trigger] staged@[i]).id@ == scripts@[i].0@ && ops_view(
                        staged@[i].ops@,
                    ) == spec_decode(scripts@[i].1@).unwrap(),
            decreases n - k,
        {
            let ops = match parse_script(scripts[k].1.as_slice()) {
                Ok(ops) => ops,
                Err(e) => {
                    return Err(e);
                },
            };
            let id = crate::canvas::clone_bytes(&scripts[k].0);
            staged.push(ScriptEntry { id, ops });
            k += 1;
        }
        let ghost full = staged_views(scripts@);
        proof {
            assert forall|i: int| 0 <= i < full.len() implies full[i] == (
                staged@[i].id@,
                ops_view(staged@[i].ops@),
            ) by {}
        }
        let ghost total = n as int;
        proof {
            assert(full.skip(0) =~= full);
        }
        while staged.len() > 0
            invariant
                self.wf(),
                staged@.len() <= total,
                full.len() == total,
                forall|i: int|
                    0 <= i < staged@.len() ==> full[total - staged@.len() + i] == ((
                    #[trigger] staged@[i]).id@, ops_view(staged@[i].ops@)),
                spec_install_all(old(self)@, full) == spec_install_all(
                    self@,
                    full.skip(total - staged@.len()),
                ),
            decreases staged@.len(),
        {
            let ghost done = total - staged@.len();
            let ghost staged_pre = staged@;
            let entry = staged.remove(0);
            proof {
                assert(staged@ =~= staged_pre.drop_first());
                assert(full.skip(done)[0] == full[done]);
                assert(full.skip(done).drop_first() =~= full.skip(done + 1));
                assert(full[done] == (entry.id@, ops_view(entry.ops@)));
            }
            self.set_script(entry.id, entry.ops);
        }
        proof {
            assert(full.skip(total) =~= Seq::<(Seq<u8>, Seq<OpV>)>::empty());
        }
        Ok(())
    }

    /// Removes the script stored under `id`, clearing the root designation
    /// if that script was the root program.
    pub fn del_script(&mut self, id: &[u8])
        requires
            old(self).wf(),
        ensures
            final(self).wf(),
            final(self)@.clear_color == old(self)@.clear_color,
            final(self)@.scripts == old(self)@.scripts.remove(id@),
            final(self)@.root_id == if old(self)@.root_id == Some(id@) {
                None::<Seq<u8>>
            } else {
                old(self)@.root_id
            },
    {
        let ghost pre = self.entries@;
        match self.find(id) {
            Some(i) => {
                proof {
                    lemma_table_remove(pre, i as int);
                }
                self.entries.remove(i);
                proof {
                    assert(self.entries@ =~= pre.remove(i as int));
                    assert(distinct_keys(self.entries@)) by {
                        assert forall|a: int, b: int|
                            0 <= a < b < self.entries@.len() implies self.entries@[a].id@
                            != self.entries@[b].id@ by {
                            if a < i as int {
                                if b < i as int {
                                    assert(pre[a].id@ != pre[b].id@);
                                } else {
                                    assert(pre[a].id@ != pre[b + 1].id@);
                                }
                            } else {
                                assert(pre[a + 1].id@ != pre[b + 1].id@);
                            }
                        }
                    }
                }
            },
            None => {
                proof {
                    assert(self@.scripts =~= self@.scripts.remove(id@));
                }
            },
        }
        let clear_root = match &self.root_id {
            Some(root) => bytes_eq(root.as_slice(), id),
            None => false,
        };
        if clear_root {
            self.root_id = None;
        }
    }

    /// Empties the script store and clears the root designation.
    pub fn reset_scene(&mut self)
        ensures
            final(self).wf(),
            final(self)@.clear_color == old(self)@.clear_color,
            final(self)@.scripts == Map::<Seq<u8>, Seq<OpV>>::empty(),
            final(self)@.root_id is None,
    {
        self.entries.clear();
        self.root_id = None;
    }

    /// Sets the background clear color from red/green/blue/alpha channels.
    pub fn set_clear_color(&mut self, color: (u8, u8, u8, u8))
        ensures
            final(self)@.clear_color == (Color {
                a: color.3,
                r: color.0,
                g: color.1,
                b: color.2,
            }),
            final(self)@.scripts == old(self)@.scripts,
            final(self)@.root_id == old(self)@.root_id,
            old(self).wf() ==> final(self).wf(),
    {
        self.clear_color = Color::from_argb(color.3, color.0, color.1, color.2);
    }

    /// How many scripts the store holds.
    pub fn script_count(&self) -> (r: u64)
        requires
            self.wf(),
        ensures
            r as nat == self@.scripts.dom().len(),
    {
        proof {
            lemma_table_dom(self.entries@);
        }
        self.entries.len() as u64
    }

    /// A well-formed store holds finitely many scripts.
    pub proof fn lemma_wf_finite(&self)
        requires
            self.wf(),
        ensures
            self@.scripts.dom().finite(),
    {
        lemma_table_dom(self.entries@);
    }

    /// The background clear color.
    pub fn get_clear_color(&self) -> (c: Color)
        ensures
            c == self@.clear_color,
    {
        self.clear_color
    }

    /// The root identifier currently designated, if any.
    pub fn current_root(&self) -> (r: Option<&Vec<u8>>)
        ensures
            match r {
                Some(id) => self@.root_id == Some(id@),
                None => self@.root_id is None,
            },
    {
        match &self.root_id {
            Some(id) => Some(id),
            None => None,
        }
    }
}

} // verus!
