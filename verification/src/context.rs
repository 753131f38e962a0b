//! The document context as the core sees it inside one granted edit session:
//! the content, the current selection, and the attribute property that
//! carries applied style spans.  All mutation of host state that the core
//! ever performs goes through the operations here, each of which refuses
//! ill-matched arguments instead of committing a partial change.

use vstd::prelude::*;
use crate::range::DocRange;

verus! {

/// One styled span in the attribute property: a range and the runtime style
/// handle (atom) applied over it.
#[derive(Clone, Copy, PartialEq, Eq, Structural, Debug)]
pub struct AttrSpan {
    pub range: DocRange,
    pub value: u32,
}

/// The map from ranges to applied style atoms denoted by a list of spans;
/// a later span for the same range supersedes an earlier one.
pub open spec fn attr_entries_map(s: Seq<AttrSpan>) -> Map<DocRange, u32>
    decreases s.len(),
{
    if s.len() == 0 {
        Map::empty()
    } else {
        attr_entries_map(s.drop_last()).insert(s.last().range, s.last().value)
    }
}

/// The ranges of the spans are pairwise distinct.
pub open spec fn attr_ranges_unique(s: Seq<AttrSpan>) -> bool {
    forall|i: int, j: int|
        0 <= i < j < s.len() ==> (#[trigger] s[i]).range != (#[trigger] s[j]).range
}

/// The attribute property of a context.  The host may expose no such
/// property at all (`present == false`); every operation then degrades to a
/// no-op, as the assigner tolerates an absent store.
pub struct PropertyStore {
    pub present: bool,
    pub entries: Vec<AttrSpan>,
}

impl PropertyStore {
    /// Well-formed: no two spans style the same range.
    pub open spec fn wf(self) -> bool {
        attr_ranges_unique(self.entries@)
    }

    /// The styled spans as a map from range to atom.
    pub open spec fn attr_map(self) -> Map<DocRange, u32> {
        attr_entries_map(self.entries@)
    }

    /// A present, empty property store.
    pub fn new() -> (r: PropertyStore)
        ensures
            r.wf(),
            r.present,
            r.attr_map() == Map::<DocRange, u32>::empty(),
    {
        PropertyStore { present: true, entries: Vec::new() }
    }

    /// An absent property store: every operation on it is a no-op.
    pub fn absent() -> (r: PropertyStore)
        ensures
            r.wf(),
            !r.present,
            r.entries@.len() == 0,
    {
        PropertyStore { present: false, entries: Vec::new() }
    }

    /// Writes `value` as the style atom over `range`, superseding any atom
    /// already applied over exactly that range.  Returns whether a store was
    /// present to write to.
    pub fn set_value(&mut self, range: &DocRange, value: u32) -> (applied: bool)
        requires
            old(self).wf(),
        ensures
            final(self).wf(),
            final(self).present == old(self).present,
            applied == old(self).present,
            applied ==> final(self).attr_map() == old(self).attr_map().insert(*range, value),
            !applied ==> final(self).entries@ == old(self).entries@,
    {
        if !self.present {
            return false;
        }
        let n: usize = self.entries.len();
        let mut k: usize = 0;
        while k < n
            invariant
                n == self.entries@.len(),
                k <= n,
                self == old(self),
                self.present,
                attr_ranges_unique(self.entries@),
                forall|j: int| 0 <= j < k ==> (#[trigger] self.entries@[j]).range != *range,
            decreases n - k,
        {
            if self.entries[k].range == *range {
                let ghost prev = self.entries@;
                self.entries.set(k, AttrSpan { range: *range, value });
                proof {
                    lemma_attr_entries_map_update(prev, k as int, value);
                    assert(attr_ranges_unique(self.entries@)) by {
                        assert(forall|j: int|
                            0 <= j < prev.len() && j != k ==> self.entries@[j] == prev[j]);
                    }
                }
                return true;
            }
            k += 1;
        }
        let ghost prev = self.entries@;
        self.entries.push(AttrSpan { range: *range, value });
        proof {
            assert(self.entries@.drop_last() =~= prev);
            assert(attr_ranges_unique(self.entries@)) by {
                assert(forall|j: int| 0 <= j < prev.len() ==> self.entries@[j] == prev[j]);
            }
        }
        true
    }

    /// Removes whatever style atom is applied over exactly `range`.
    /// Returns whether such an atom was present and removed.
    pub fn clear_value(&mut self, range: &DocRange) -> (cleared: bool)
        requires
            old(self).wf(),
        ensures
            final(self).wf(),
            final(self).present == old(self).present,
            old(self).present ==> final(self).attr_map() == old(self).attr_map().remove(*range),
            !old(self).present ==> final(self).entries@ == old(self).entries@,
            cleared ==> old(self).present,
    {
        if !self.present {
            return false;
        }
        let n: usize = self.entries.len();
        let mut k: usize = 0;
        while k < n
            invariant
                n == self.entries@.len(),
                k <= n,
                self == old(self),
                self.present,
                attr_ranges_unique(self.entries@),
                forall|j: int| 0 <= j < k ==> (#[trigger] self.entries@[j]).range != *range,
            decreases n - k,
        {
            if self.entries[k].range == *range {
                let ghost prev = self.entries@;
                self.entries.remove(k);
                proof {
                    lemma_attr_entries_map_remove(prev, k as int);
                    assert(attr_ranges_unique(self.entries@)) by {
                        assert(forall|j: int|
                            0 <= j < self.entries@.len() ==> self.entries@[j] == if j < k {
                                prev[j]
                            } else {
                                prev[j + 1]
                            });
                    }
                }
                return true;
            }
            k += 1;
        }
        proof {
            lemma_attr_entries_map_dom(self.entries@, *range);
            assert(self.attr_map().remove(*range) =~= self.attr_map());
        }
        false
    }
}

/// A range is in the denoted map exactly when some span carries it.
pub proof fn lemma_attr_entries_map_dom(s: Seq<AttrSpan>, r: DocRange)
    ensures
        attr_entries_map(s).dom().contains(r) <==> exists|i: int| 0 <= i < s.len() && s[i].range == r,
    decreases s.len(),
{
    if s.len() == 0 {
    } else {
        lemma_attr_entries_map_dom(s.drop_last(), r);
        if s.last().range == r {
            assert(s[s.len() - 1].range == r);
        } else {
            if attr_entries_map(s).dom().contains(r) {
                let i = choose|i: int| 0 <= i < s.drop_last().len() && s.drop_last()[i].range == r;
                assert(s[i].range == r);
            }
            if exists|i: int| 0 <= i < s.len() && s[i].range == r {
                let i = choose|i: int| 0 <= i < s.len() && s[i].range == r;
                assert(i < s.len() - 1);
                assert(s.drop_last()[i].range == r);
            }
        }
    }
}

/// Overwriting the span at index `i` with a new atom for the same range
/// denotes an insert into the map.
proof fn lemma_attr_entries_map_update(s: Seq<AttrSpan>, i: int, v: u32)
    requires
        attr_ranges_unique(s),
        0 <= i < s.len(),
    ensures
        attr_entries_map(s.update(i, AttrSpan { range: s[i].range, value: v }))
            == attr_entries_map(s).insert(s[i].range, v),
    decreases s.len(),
{
    let r = s[i].range;
    let s2 = s.update(i, AttrSpan { range: r, value: v });
    if i == s.len() - 1 {
        assert(s2.drop_last() =~= s.drop_last());
        assert(attr_entries_map(s2) =~= attr_entries_map(s).insert(r, v));
    } else {
        assert(s2.drop_last() =~= s.drop_last().update(i, AttrSpan { range: r, value: v }));
        assert(attr_ranges_unique(s.drop_last())) by {
            assert(forall|j: int| 0 <= j < s.len() - 1 ==> s.drop_last()[j] == s[j]);
        }
        assert(s.drop_last()[i] == s[i]);
        lemma_attr_entries_map_update(s.drop_last(), i, v);
        assert(s.last().range != r);
        assert(attr_entries_map(s2) =~= attr_entries_map(s).insert(r, v));
    }
}

/// Removing the span at index `i` denotes a removal from the map, provided
/// no other span carries the same range.
proof fn lemma_attr_entries_map_remove(s: Seq<AttrSpan>, i: int)
    requires
        attr_ranges_unique(s),
        0 <= i < s.len(),
    ensures
        attr_entries_map(s.remove(i)) == attr_entries_map(s).remove(s[i].range),
    decreases s.len(),
{
    let r = s[i].range;
    if i == s.len() - 1 {
        assert(s.remove(i) =~= s.drop_last());
        lemma_attr_entries_map_dom(s.drop_last(), r);
        assert(forall|j: int| 0 <= j < s.len() - 1 ==> s.drop_last()[j] == s[j]);
        assert(!attr_entries_map(s.drop_last()).dom().contains(r));
        assert(attr_entries_map(s.drop_last()) =~= attr_entries_map(s).remove(r));
    } else {
        assert(s.remove(i).last() == s.last());
        assert(s.remove(i).drop_last() =~= s.drop_last().remove(i));
        assert(attr_ranges_unique(s.drop_last())) by {
            assert(forall|j: int| 0 <= j < s.len() - 1 ==> s.drop_last()[j] == s[j]);
        }
        assert(s.drop_last()[i] == s[i]);
        lemma_attr_entries_map_remove(s.drop_last(), i);
        assert(s.last().range != r);
        assert(attr_entries_map(s.remove(i)) =~= attr_entries_map(s).remove(r));
    }
}

/// Applying a style atom over a range is idempotent: applying it twice
/// stores exactly what applying it once stores.
pub proof fn lemma_apply_attribute_idempotent(m: Map<DocRange, u32>, r: DocRange, v: u32)
    ensures
        m.insert(r, v).insert(r, v) == m.insert(r, v),
{
    assert(m.insert(r, v).insert(r, v) =~= m.insert(r, v));
}

/// The document context visible inside one edit session: content, selection
/// and the attribute property.  Borrowed for the duration of one host
/// callback; nothing here survives a session except through the values the
/// core explicitly keeps.
pub struct EditContext {
    /// Identity of the document this context belongs to.
    pub doc: u32,
    /// The document content.
    pub text: Vec<u8>,
    /// Selection start anchor (the caret is an empty selection).
    pub sel_start: usize,
    /// Selection end anchor.
    pub sel_end: usize,
    /// The attribute property of this context.
    pub attrs: PropertyStore,
}

impl EditContext {
    /// Well-formed: the selection is an interval inside the content, and the
    /// attribute property is well-formed.
    pub open spec fn wf(self) -> bool {
        &&& self.sel_start <= self.sel_end
    &&& self.sel_end <= self.text@.len()
        &&& self.attrs.wf()
    }

    /// A fresh context over the given content with a collapsed selection at
    /// the start and a present, empty attribute property.
    pub fn new(doc: u32, text: Vec<u8>) -> (r: EditContext)
        ensures
            r.wf(),
            r.doc == doc,
            r.text@ == text@,
            r.sel_start == 0,
            r.sel_end == 0,
            r.attrs.present,
            r.attrs.attr_map() == Map::<DocRange, u32>::empty(),
    {
        EditContext { doc, text, sel_start: 0, sel_end: 0, attrs: PropertyStore::new() }
    }

    /// The current selection as a range of this document.
    pub open spec fn spec_selection(self) -> DocRange {
        DocRange { doc: self.doc, start: self.sel_start as usize, end: self.sel_end as usize }
    }

    /// Reads the current selection.
    pub fn selection_range(&self) -> (r: DocRange)
        requires
            self.wf(),
        ensures
            r == self.spec_selection(),
            r.wf(),
    {
        DocRange { doc: self.doc, start: self.sel_start, end: self.sel_end }
    }

    /// Writes the selection.  Only a well-formed range of this document that
    /// lies within the content is accepted; anything else is refused and the
    /// selection is left as it was, so a failed write never commits a
    /// partial change.
    pub fn set_selection(&mut self, r: &DocRange) -> (ok: bool)
        requires
            old(self).wf(),
        ensures
            final(self).wf(),
            ok == (r.doc == old(self).doc && r.start <= r.end && r.end <= old(self).text@.len()),
            ok ==> final(self).sel_start == r.start && final(self).sel_end == r.end,
            !ok ==> final(self).sel_start == old(self).sel_start && final(self).sel_end == old(
                self,
            ).sel_end,
            final(self).doc == old(self).doc,
            final(self).text@ == old(self).text@,
            final(self).attrs == old(self).attrs,
    {
        if r.doc == self.doc && r.start <= r.end && r.end <= self.text.len() {
            self.sel_start = r.start;
            self.sel_end = r.end;
            true
        } else {
            false
        }
    }

    /// Replaces the bytes of the current selection with the single byte
    /// `b`.  Afterwards the selection covers exactly the new text, the way
    /// the host range that text was set through does.
    pub fn replace_selection_with_byte(&mut self, b: u8)
        requires
            old(self).wf(),
            old(self).text@.len() < usize::MAX,
        ensures
            final(self).wf(),
            final(self).text@ == old(self).text@.subrange(0, old(self).sel_start as int)
                + seq![b] + old(self).text@.subrange(
                old(self).sel_end as int,
                old(self).text@.len() as int,
            ),
            final(self).text@.len() == old(self).text@.len() - (old(self).sel_end - old(
                self,
            ).sel_start) + 1,
            final(self).sel_start == old(self).sel_start,
            final(self).sel_end == old(self).sel_start + 1,
            final(self).doc == old(self).doc,
            final(self).attrs == old(self).attrs,
    {
        let n: usize = self.text.len();
        let start: usize = self.sel_start;
        let end: usize = self.sel_end;
        let mut out: Vec<u8> = Vec::new();
        let mut k: usize = 0;
        while k < start
            invariant
                k <= start,
                start <= end <= n,
                n == self.text@.len(),
                self == old(self),
                out@ == self.text@.subrange(0, k as int),
            decreases start - k,
        {
            let c = self.text[k];
            out.push(c);
            k += 1;
            proof {
                assert(out@ =~= self.text@.subrange(0, k as int));
            }
        }
        out.push(b);
        let mut k2: usize = end;
        while k2 < n
            invariant
                end <= k2 <= n,
                start <= end <= n,
                n == self.text@.len(),
                n < usize::MAX,
                self == old(self),
                out@ == self.text@.subrange(0, start as int) + seq![b] + self.text@.subrange(
                    end as int,
                    k2 as int,
                ),
            decreases n - k2,
        {
            let c = self.text[k2];
            out.push(c);
            k2 += 1;
            proof {
                assert(out@ =~= self.text@.subrange(0, start as int) + seq![b]
                    + self.text@.subrange(end as int, k2 as int));
            }
        }
        self.text = out;
        self.sel_end = start + 1;
    }
}

} // verus!
