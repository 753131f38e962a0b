//! The composition controller: the lifecycle of the single active
//! composition.  States: no composition, composing, and back; a start is
//! valid only with no composition, a termination only while composing, and
//! the host may terminate unilaterally at any time.

use vstd::prelude::*;
use crate::context::EditContext;
use crate::range::DocRange;
use crate::service::TextService;

verus! {

/// The single active composition: the provisional span of text under
/// active editing.  It exists only while the session is composing; its
/// absence is the session's composition field being empty.
#[derive(Clone, Copy, PartialEq, Eq, Structural, Debug)]
pub struct Composition {
    /// The range the composition occupies, owned for the composition's
    /// lifetime.
    pub range: DocRange,
}

/// The range a query-only "insert at selection" probe reports: where an
/// insertion at the current selection would land, collapsed at the
/// selection start, with the host forbidden to auto-adjust surrounding
/// content.
pub open spec fn spec_insertion_probe(ctx: EditContext) -> DocRange {
    DocRange { doc: ctx.doc, start: ctx.sel_start, end: ctx.sel_start }
}

impl TextService {
    /// Starts a composition, valid only with no active composition: probes
    /// where an insertion at the selection would land, begins a composition
    /// bound to that range if the host grants it (`granted`), stores the
    /// composition on the session, and writes the selection to the probed
    /// range.  On any step failing, every state is left exactly as it was.
    pub fn start_composition(&mut self, ctx: &mut EditContext, granted: bool) -> (started: bool)
        requires
            old(ctx).wf(),
        ensures
            final(ctx).wf(),
            started == (old(self).composition is None && granted),
            started ==> final(self).composition == Some(
                Composition { range: spec_insertion_probe(*old(ctx)) },
            ),
            started ==> *final(self) == (TextService {
                composition: final(self).composition,
                ..*old(self)
            }),
            started ==> final(ctx).sel_start == old(ctx).sel_start && final(ctx).sel_end == old(
                ctx,
            ).sel_start,
            final(ctx).doc == old(ctx).doc,
            final(ctx).text@ == old(ctx).text@,
            final(ctx).attrs == old(ctx).attrs,
            !started ==> *final(self) == *old(self) && final(ctx).sel_start == old(ctx).sel_start
                && final(ctx).sel_end == old(ctx).sel_end,
    {
        if self.is_composing() {
            // valid only with no composition
            return false;
        }
        if !granted {
            // the host refused to begin a composition; nothing changed
            return false;
        }
        let probe = ctx.selection_range().collapsed_to_start();
        self.set_composition(Composition { range: probe });
        let wrote = ctx.set_selection(&probe);
        proof {
            assert(wrote);
        }
        true
    }

    /// Terminates the active composition: reports the range whose
    /// composition the host should end, and clears the session's
    /// composition field regardless of how that host call fares.
    pub fn terminate_composition(&mut self) -> (ended: Option<DocRange>)
        ensures
            final(self).composition is None,
            *final(self) == (TextService { composition: None, ..*old(self) }),
            ended == (match old(self).composition {
                Some(c) => Some(c.range),
                None => None::<DocRange>,
            }),
    {
        match self.composition {
            Some(c) => {
                self.composition = None;
                Some(c.range)
            },
            None => None,
        }
    }

    /// Host-initiated termination notification: the host ended the
    /// composition unilaterally, so only the cached composition is
    /// released; no further termination is asked of the host.  Idempotent.
    pub fn on_composition_terminated(&mut self)
        ensures
            *final(self) == (TextService { composition: None, ..*old(self) }),
    {
        if self.composition.is_some() {
            self.composition = None;
        }
    }
}

} // verus!
