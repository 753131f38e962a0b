//! Commit-phase key handling.  An eaten key is committed inside one
//! synchronously scheduled read-write edit session; the session's work is
//! dispatched here by key class: letters insert into the composition,
//! arrows move the selection inside it, Return terminates it, space
//! applies the Converted style over it.  Every handler checks its own
//! preconditions and aborts without mutating anything when they do not
//! hold.

use vstd::prelude::*;
use crate::composition::Composition;
use crate::composition::spec_insertion_probe;
use crate::context::EditContext;
use crate::editsession::EditSessionRequest;
use crate::editsession::request_key_session;
use crate::editsession::spec_key_session_request;
use crate::keyevent::VK_A;
use crate::keyevent::VK_LEFT;
use crate::keyevent::VK_RETURN;
use crate::keyevent::VK_RIGHT;
use crate::keyevent::VK_SPACE;
use crate::keyevent::VK_Z;
use crate::keyevent::spec_letter_key;
use crate::range::DocRange;
use crate::range::is_range_covered;
use crate::range::spec_covered;
use crate::service::TextService;

verus! {

/// Whether a committed letter key actually mutates the document: with an
/// active composition the selection must be covered by the composition's
/// range and that range must lie within the content; with none, the host
/// must have granted a fresh composition, which then trivially covers the
/// probed selection.
pub open spec fn spec_char_key_fires(s: TextService, ctx: EditContext, granted: bool) -> bool {
    match s.composition {
        Some(c) => spec_covered(ctx.spec_selection(), c.range) && c.range.end <= ctx.text@.len(),
        None => granted,
    }
}

/// The selection a letter commit inserts at: the current selection, or,
/// when a composition had to be started first, the probed insertion point
/// the start wrote back as the selection.
pub open spec fn spec_effective_selection(s: TextService, ctx: EditContext) -> DocRange {
    match s.composition {
        Some(_) => ctx.spec_selection(),
        None => spec_insertion_probe(ctx),
    }
}

/// The composition range a letter commit inserts into: the active one, or
/// the freshly started one at the probed insertion point.
pub open spec fn spec_effective_composition(s: TextService, ctx: EditContext) -> DocRange {
    match s.composition {
        Some(c) => c.range,
        None => spec_insertion_probe(ctx),
    }
}

/// The whole effect of committing one letter key: when it fires, the
/// selection's text is replaced by the single uppercase character, the
/// selection collapses to just past it, the composition's end anchor
/// shifts with the edit, the selection stays covered by the composition,
/// and the Input style atom is applied over the whole composition range;
/// when it does not fire, nothing changes.
pub open spec fn spec_character_commit(
    s0: TextService,
    c0: EditContext,
    granted: bool,
    key: u32,
    s1: TextService,
    c1: EditContext,
    inserted: bool,
) -> bool {
    let fires = spec_char_key_fires(s0, c0, granted);
    let sel = spec_effective_selection(s0, c0);
    let comp = spec_effective_composition(s0, c0);
    &&& inserted == fires
    &&& c1.doc == c0.doc
    &&& !fires ==> s1 == s0 && c1.text@ == c0.text@ && c1.sel_start == c0.sel_start && c1.sel_end
        == c0.sel_end && c1.attrs == c0.attrs
    &&& fires ==> {
        let new_comp = DocRange {
            doc: comp.doc,
            start: comp.start,
            end: (comp.end - (sel.end - sel.start) + 1) as usize,
        };
        &&& c1.text@ == c0.text@.subrange(0, sel.start as int) + seq![(key as u8)]
            + c0.text@.subrange(sel.end as int, c0.text@.len() as int)
        &&& c1.sel_start == sel.start + 1
        &&& c1.sel_end == sel.start + 1
        &&& s1 == (TextService { composition: Some(Composition { range: new_comp }), ..s0 })
        &&& spec_covered(c1.spec_selection(), new_comp)
        &&& (match s0.input_atom {
            Some(atom) => {
                if c0.attrs.present {
                    c1.attrs.present && c1.attrs.attr_map() == c0.attrs.attr_map().insert(
                        new_comp,
                        atom,
                    )
                } else {
                    !c1.attrs.present && c1.attrs.entries@ == c0.attrs.entries@
                }
            },
            None => c1.attrs == c0.attrs,
        })
    }
}

/// Where the selection lands after one arrow key inside a composition:
/// one unit toward the requested direction, collapsed to a point, refusing
/// to cross the composition's corresponding boundary; a right shift that
/// would leave the content is refused and leaves the selection unchanged.
pub open spec fn spec_arrow_result(sel: DocRange, comp: DocRange, len: nat, key: u32) -> DocRange {
    if key == VK_LEFT {
        if sel.start == comp.start || sel.start == 0 {
            DocRange { doc: sel.doc, start: sel.start, end: sel.start }
        } else {
            DocRange { doc: sel.doc, start: (sel.start - 1) as usize, end: (sel.start - 1) as usize }
        }
    } else {
        if sel.end == comp.end {
            DocRange { doc: sel.doc, start: sel.end, end: sel.end }
        } else if sel.end < len {
            DocRange { doc: sel.doc, start: (sel.end + 1) as usize, end: (sel.end + 1) as usize }
        } else {
            sel
        }
    }
}

/// The whole effect of committing one arrow key: the session and the
/// content never change; with an active composition of this document the
/// selection moves to [`spec_arrow_result`], otherwise it stays put.
pub open spec fn spec_arrow_commit(
    s0: TextService,
    c0: EditContext,
    key: u32,
    c1: EditContext,
) -> bool {
    &&& c1.doc == c0.doc
    &&& c1.text@ == c0.text@
    &&& c1.attrs == c0.attrs
    &&& (match s0.composition {
        Some(c) => {
            if c.range.doc == c0.doc {
                let sel1 = spec_arrow_result(c0.spec_selection(), c.range, c0.text@.len(), key);
                c1.sel_start == sel1.start && c1.sel_end == sel1.end
            } else {
                c1.sel_start == c0.sel_start && c1.sel_end == c0.sel_end
            }
        },
        None => c1.sel_start == c0.sel_start && c1.sel_end == c0.sel_end,
    })
}

impl TextService {
    /// Requests the one synchronous read-write edit session in which an
    /// eaten keystroke is committed.  Key delivery already executes inside
    /// a host-reentrant-safe call chain, which is the single place where
    /// synchronous scheduling is legal.
    pub fn invoke_key_handler(&self, key: u32) -> (r: EditSessionRequest)
        ensures
            r == spec_key_session_request(self.client_id, key),
    {
        request_key_session(self.client_id, key)
    }

    /// Commits a letter key: starts a composition if none is active, then
    /// verifies the selection is covered by the composition before
    /// replacing the selection's text with the single uppercase character,
    /// collapsing the selection past it, and applying the Input style over
    /// the whole composition range.  Aborts without mutating when coverage
    /// fails or no composition could be established.
    pub fn handle_character_key(&mut self, ctx: &mut EditContext, key: u32, start_granted: bool)
        -> (inserted: bool)
        requires
            old(ctx).wf(),
            old(ctx).text@.len() < usize::MAX,
            spec_letter_key(key),
        ensures
            final(ctx).wf(),
            spec_character_commit(
                *old(self),
                *old(ctx),
                start_granted,
                key,
                *final(self),
                *final(ctx),
                inserted,
            ),
    {
        // start a new composition if there is none
        if !self.is_composing() {
            let started = self.start_composition(ctx, start_granted);
            if !started {
                return false;
            }
        }
        // where would the keystroke go?
        let sel = ctx.selection_range();
        if let Some(c) = &self.composition {
            let comp_range = c.range;
            // is the insertion point covered by the composition?
            if !is_range_covered(&sel, &comp_range) {
                return false;
            }
            if comp_range.end > ctx.text.len() {
                // a composition range that outruns the content is
                // inconsistent; fail closed without mutating
                return false;
            }
            // insert the text over the selection; the selection anchors
            // and the composition's end anchor shift with the edit
            ctx.replace_selection_with_byte(key as u8);
            let caret = ctx.selection_range().collapsed_to_end();
            let wrote = ctx.set_selection(&caret);
            proof {
                assert(wrote);
            }
            let new_end = comp_range.end - (sel.end - sel.start) + 1;
            let new_comp = DocRange { doc: comp_range.doc, start: comp_range.start, end: new_end };
            self.composition = Some(Composition { range: new_comp });
            // set the display attribute over the composition range
            if let Some(atom) = self.input_atom {
                let _applied = self.set_composition_display_attributes(ctx, atom);
            }
            true
        } else {
            false
        }
    }

    /// Commits the Return key: just terminates the composition; no text is
    /// inserted.  The returned range, if any, is the one whose composition
    /// the host should end.
    pub fn handle_return_key(&mut self) -> (ended: Option<DocRange>)
        ensures
            final(self).composition is None,
            *final(self) == (TextService { composition: None, ..*old(self) }),
            ended == (match old(self).composition {
                Some(c) => Some(c.range),
                None => None::<DocRange>,
            }),
    {
        self.terminate_composition()
    }

    /// Commits the space key: applies the Converted style over the whole
    /// composition range; no text mutation, no selection change.  A real
    /// conversion engine would style a narrower range from its own
    /// analysis.
    pub fn handle_space_key(&self, ctx: &mut EditContext) -> (applied: bool)
        requires
            old(ctx).wf(),
        ensures
            final(ctx).wf(),
            final(ctx).doc == old(ctx).doc,
            final(ctx).text@ == old(ctx).text@,
            final(ctx).sel_start == old(ctx).sel_start,
            final(ctx).sel_end == old(ctx).sel_end,
            (match (self.composition, self.converted_atom) {
                (Some(c), Some(atom)) => {
                    if old(ctx).attrs.present {
                        applied && final(ctx).attrs.present && final(ctx).attrs.attr_map() == old(
                            ctx,
                        ).attrs.attr_map().insert(c.range, atom)
                    } else {
                        !applied && !final(ctx).attrs.present && final(ctx).attrs.entries@ == old(
                            ctx,
                        ).attrs.entries@
                    }
                },
                _ => !applied && final(ctx).attrs == old(ctx).attrs,
            }),
    {
        match self.converted_atom {
            Some(atom) => self.set_composition_display_attributes(ctx, atom),
            None => false,
        }
    }

    /// Commits an arrow key: moves the selection one unit toward the
    /// requested direction, collapsed to a point, refusing to cross the
    /// composition's corresponding boundary.  Without an active
    /// composition of this document, nothing moves.
    pub fn handle_arrow_key(&self, ctx: &mut EditContext, key: u32)
        requires
            old(ctx).wf(),
            key == VK_LEFT || key == VK_RIGHT,
        ensures
            final(ctx).wf(),
            spec_arrow_commit(*self, *old(ctx), key, *final(ctx)),
    {
        let sel = ctx.selection_range();
        if let Some(c) = &self.composition {
            let comp = c.range;
            if comp.doc != ctx.doc {
                // anchor comparison against a range of another document
                // fails; leave the selection alone
                return;
            }
            if key == VK_LEFT {
                let p: usize = if sel.start == comp.start || sel.start == 0 {
                    sel.start
                } else {
                    sel.start - 1
                };
                let target = DocRange { doc: sel.doc, start: p, end: p };
                let wrote = ctx.set_selection(&target);
                proof {
                    assert(wrote);
                }
            } else {
                if sel.end == comp.end {
                    let target = DocRange { doc: sel.doc, start: sel.end, end: sel.end };
                    let wrote = ctx.set_selection(&target);
                    proof {
                        assert(wrote);
                    }
                } else if sel.end < ctx.text.len() {
                    let p = sel.end + 1;
                    let target = DocRange { doc: sel.doc, start: p, end: p };
                    let wrote = ctx.set_selection(&target);
                    proof {
                        assert(wrote);
                    }
                }
            }
        }
    }
}

/// The key dispatcher's unit of work: commits one key inside the edit
/// session the host granted for it.
pub struct KeyHandlerEditSession {
    /// The key being committed.
    pub key: u32,
}

impl KeyHandlerEditSession {
    pub fn new(key: u32) -> (r: KeyHandlerEditSession)
        ensures
            r.key == key,
    {
        KeyHandlerEditSession { key }
    }

    /// Runs the granted session: dispatches on the key class.  Letters
    /// insert, arrows move the selection, Return terminates the
    /// composition without inserting text, space restyles the composition,
    /// and any other key does nothing.
    pub fn do_edit_session(
        &self,
        service: &mut TextService,
        ctx: &mut EditContext,
        start_granted: bool,
    ) -> (ended: Option<DocRange>)
        requires
            old(ctx).wf(),
            old(ctx).text@.len() < usize::MAX,
        ensures
            final(ctx).wf(),
            (self.key == VK_LEFT || self.key == VK_RIGHT) ==> *final(service) == *old(service)
                && spec_arrow_commit(*old(service), *old(ctx), self.key, *final(ctx)) && ended
                is None,
            self.key == VK_RETURN ==> *final(service) == (TextService {
                composition: None,
                ..*old(service)
            }) && *final(ctx) == *old(ctx) && ended == (match old(service).composition {
                Some(c) => Some(c.range),
                None => None::<DocRange>,
            }),
            self.key == VK_SPACE ==> *final(service) == *old(service) && final(ctx).text@ == old(
                ctx,
            ).text@ && final(ctx).sel_start == old(ctx).sel_start && final(ctx).sel_end == old(
                ctx,
            ).sel_end && ended is None,
            spec_letter_key(self.key) ==> spec_character_commit(
                *old(service),
                *old(ctx),
                start_granted,
                self.key,
                *final(service),
                *final(ctx),
                spec_char_key_fires(*old(service), *old(ctx), start_granted),
            ) && ended is None,
            (!spec_letter_key(self.key) && self.key != VK_LEFT && self.key != VK_RIGHT && self.key
                != VK_RETURN && self.key != VK_SPACE) ==> *final(service) == *old(service)
                && *final(ctx) == *old(ctx) && ended is None,
    {
        if self.key == VK_LEFT || self.key == VK_RIGHT {
            service.handle_arrow_key(ctx, self.key);
            None
        } else if self.key == VK_RETURN {
            service.handle_return_key()
        } else if self.key == VK_SPACE {
            let _applied = service.handle_space_key(ctx);
            None
        } else if VK_A <= self.key && self.key <= VK_Z {
            let inserted = service.handle_character_key(ctx, self.key, start_granted);
            proof {
                assert(spec_character_commit(
                    *old(service),
                    *old(ctx),
                    start_granted,
                    self.key,
                    *service,
                    *ctx,
                    inserted,
                ));
            }
            None
        } else {
            None
        }
    }
}

/// A letter commit that fired re-establishes the session invariant: a
/// composition is active afterwards and the new selection lies inside its
/// range.
pub proof fn lemma_character_commit_keeps_selection_inside(
    s0: TextService,
    c0: EditContext,
    granted: bool,
    key: u32,
    s1: TextService,
    c1: EditContext,
)
    requires
        spec_character_commit(s0, c0, granted, key, s1, c1, true),
    ensures
        s1.composition is Some,
        spec_covered(c1.spec_selection(), s1.composition->Some_0.range),
{
}

/// An arrow commit keeps the session invariant: a selection inside the
/// active composition's range stays inside it.
pub proof fn lemma_arrow_commit_keeps_selection_inside(
    s0: TextService,
    c0: EditContext,
    key: u32,
    c1: EditContext,
)
    requires
        spec_arrow_commit(s0, c0, key, c1),
        c0.sel_start <= c0.sel_end,
        s0.composition matches Some(c) && spec_covered(c0.spec_selection(), c.range),
    ensures
        spec_covered(c1.spec_selection(), s0.composition->Some_0.range),
{
    let c = s0.composition->Some_0;
    if c.range.doc == c0.doc {
        lemma_arrow_step_stays_inside(c0.spec_selection(), c.range, c0.text@.len(), key);
        assert(c1.spec_selection() == spec_arrow_result(
            c0.spec_selection(),
            c.range,
            c0.text@.len(),
            key,
        ));
    } else {
        assert(c1.spec_selection() == c0.spec_selection());
    }
}

/// One arrow key keeps the selection inside the composition: a covered,
/// well-formed selection is still covered after the move.
pub proof fn lemma_arrow_step_stays_inside(sel: DocRange, comp: DocRange, len: nat, key: u32)
    requires
        sel.wf(),
        spec_covered(sel, comp),
    ensures
        spec_covered(spec_arrow_result(sel, comp, len, key), comp),
        spec_arrow_result(sel, comp, len, key).wf(),
{
}

/// The selection after a whole sequence of arrow keys, each applied to the
/// selection the previous one left.
pub open spec fn spec_arrows_run(sel: DocRange, comp: DocRange, len: nat, keys: Seq<u32>) -> DocRange
    decreases keys.len(),
{
    if keys.len() == 0 {
        sel
    } else {
        spec_arrows_run(spec_arrow_result(sel, comp, len, keys.first()), comp, len, keys.drop_first())
    }
}

/// Arrow keys never move the selection outside the composition's range,
/// however many times they are applied: after any sequence of left and
/// right arrows, a selection that started covered by the composition is
/// still covered by it.
pub proof fn lemma_arrows_never_escape(sel: DocRange, comp: DocRange, len: nat, keys: Seq<u32>)
    requires
        sel.wf(),
        spec_covered(sel, comp),
    ensures
        spec_covered(spec_arrows_run(sel, comp, len, keys), comp),
        spec_arrows_run(sel, comp, len, keys).wf(),
    decreases keys.len(),
{
    if keys.len() == 0 {
    } else {
        lemma_arrow_step_stays_inside(sel, comp, len, keys.first());
        lemma_arrows_never_escape(
            spec_arrow_result(sel, comp, len, keys.first()),
            comp,
            len,
            keys.drop_first(),
        );
    }
}

} // verus!
