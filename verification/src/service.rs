//! The session lifecycle manager: one `TextService` value per activation,
//! holding the subscription cookies, the cached style atoms and the active
//! composition.  The host grants cookies and handles; this module decides
//! what is kept, what is rolled back on a fatal activation failure, and
//! which release calls are owed back to the host.  Subscribe and
//! unsubscribe are paired exactly once per subscription, guarded by the
//! absence of a cookie rather than by a boolean beside a stale handle.

use vstd::prelude::*;
use crate::composition::Composition;
use crate::context::EditContext;
use crate::editsession::EditSessionRequest;
use crate::editsession::request_end_composition;
use crate::editsession::spec_end_composition_request;
use crate::globals::TF_CLIENTID_NULL;
use crate::range::is_range_covered;
use crate::range::spec_covered;

verus! {

/// The two callback sinks whose subscriptions are identified by a
/// host-issued cookie.
#[derive(Clone, Copy, PartialEq, Eq, Structural, Debug)]
pub enum SinkKind {
    /// The thread-event sink, advised on the host thread context.
    ThreadEvents,
    /// The text-edit sink, advised on one document context.
    TextEdit,
}

/// An advised text-edit sink: the document context it is bound to and the
/// cookie the host issued for it.
#[derive(Clone, Copy, PartialEq, Eq, Structural, Debug)]
pub struct EditSinkBinding {
    pub context: u32,
    pub cookie: u32,
}

/// A call the core owes the host to release something it holds.
#[derive(Clone, Copy, PartialEq, Eq, Structural, Debug)]
pub enum HostCall {
    /// Unsubscribe the thread-event sink advised under this cookie.
    UnadviseThreadSink { cookie: u32 },
    /// Unsubscribe the text-edit sink advised under this cookie on this
    /// document context.
    UnadviseTextEditSink { context: u32, cookie: u32 },
    /// Remove the language-bar item.
    RemoveLangBarItem,
    /// Unsubscribe the key-event sink registered for this client.
    UnadviseKeyEventSink { client_id: u32 },
    /// Unregister the preserved hot keys.
    UnpreserveKeys,
}

/// What the host answered during one activation: each field is the outcome
/// of the corresponding host call, in the order activation makes them.
#[derive(Clone, Copy, PartialEq, Eq, Structural, Debug)]
pub struct ActivationResponses {
    /// Cookie from advising the thread-event sink; `None` means the advise
    /// failed, which is fatal.
    pub event_sink_cookie: Option<u32>,
    /// Top context of the focused document, if any document has focus.
    pub focus_context: Option<u32>,
    /// Cookie from advising the text-edit sink on that context; a failure
    /// here is non-fatal and simply leaves the sink unbound.
    pub edit_sink_cookie: Option<u32>,
    /// Whether the language-bar item was added (non-fatal).
    pub langbar_added: bool,
    /// Whether the key-event sink was registered; a failure is fatal.
    pub key_sink_advised: bool,
    /// Whether the preserved hot keys were registered (best effort).
    pub preserved_keys_registered: bool,
}

/// The per-activation session state.
pub struct TextService {
    /// Whether a host thread context is currently bound.
    pub active: bool,
    /// The client identifier the host issued, or [`TF_CLIENTID_NULL`].
    pub client_id: u32,
    /// Cookie of the thread-event sink subscription, when advised.
    pub event_sink_cookie: Option<u32>,
    /// The advised text-edit sink, when bound to a focused context.
    pub edit_sink: Option<EditSinkBinding>,
    /// Whether the language-bar item is installed.
    pub langbar_item: bool,
    /// Whether the key-event sink is registered.
    pub key_sink_advised: bool,
    /// Whether the preserved hot keys are registered.
    pub preserved_keys_registered: bool,
    /// Cached runtime atom of the Input style identity.
    pub input_atom: Option<u32>,
    /// Cached runtime atom of the Converted style identity.
    pub converted_atom: Option<u32>,
    /// The single active composition, if one exists.
    pub composition: Option<Composition>,
}

/// The state of a session that holds nothing: no context, no client id, no
/// subscription, no cached atom, no composition.
pub open spec fn spec_clean() -> TextService {
    TextService {
        active: false,
        client_id: TF_CLIENTID_NULL,
        event_sink_cookie: None,
        edit_sink: None,
        langbar_item: false,
        key_sink_advised: false,
        preserved_keys_registered: false,
        input_atom: None,
        converted_atom: None,
        composition: None,
    }
}

/// An activation is fatal exactly when the thread-event sink or the
/// key-event sink could not be registered.
pub open spec fn spec_activation_fatal(r: ActivationResponses) -> bool {
    r.event_sink_cookie is None || !r.key_sink_advised
}

/// The text-edit sink binding an activation or focus change establishes:
/// bound only when a document has focus and its advise succeeded.
pub open spec fn spec_edit_sink_of(context: Option<u32>, cookie: Option<u32>) -> Option<
    EditSinkBinding,
> {
    match (context, cookie) {
        (Some(c), Some(k)) => Some(EditSinkBinding { context: c, cookie: k }),
        _ => None,
    }
}

/// The session state after a fully successful activation.
pub open spec fn spec_activated(client_id: u32, r: ActivationResponses) -> TextService {
    TextService {
        active: true,
        client_id,
        event_sink_cookie: r.event_sink_cookie,
        edit_sink: spec_edit_sink_of(r.focus_context, r.edit_sink_cookie),
        langbar_item: r.langbar_added,
        key_sink_advised: true,
        preserved_keys_registered: r.preserved_keys_registered,
        input_atom: None,
        converted_atom: None,
        composition: None,
    }
}

/// The partial session state reached when activation fails at the
/// key-event sink: the earlier, non-fatal steps have already taken effect.
pub open spec fn spec_partially_activated(client_id: u32, r: ActivationResponses) -> TextService {
    TextService {
        active: true,
        client_id,
        event_sink_cookie: r.event_sink_cookie,
        edit_sink: spec_edit_sink_of(r.focus_context, r.edit_sink_cookie),
        langbar_item: r.langbar_added,
        key_sink_advised: false,
        preserved_keys_registered: false,
        input_atom: None,
        converted_atom: None,
        composition: None,
    }
}

/// The release calls a deactivation of state `s` owes the host, in the
/// order deactivation makes them.
pub open spec fn spec_deactivate_calls(s: TextService) -> Seq<HostCall> {
    (match s.edit_sink {
        Some(b) => seq![HostCall::UnadviseTextEditSink { context: b.context, cookie: b.cookie }],
        None => Seq::empty(),
    }) + (match s.event_sink_cookie {
        Some(c) => seq![HostCall::UnadviseThreadSink { cookie: c }],
        None => Seq::empty(),
    }) + (if s.langbar_item {
        seq![HostCall::RemoveLangBarItem]
    } else {
        Seq::empty()
    }) + (if s.key_sink_advised {
        seq![HostCall::UnadviseKeyEventSink { client_id: s.client_id }]
    } else {
        Seq::empty()
    }) + (if s.preserved_keys_registered {
        seq![HostCall::UnpreserveKeys]
    } else {
        Seq::empty()
    })
}

/// The state an activation leaves behind: fully activated, or rolled back
/// to clean on a fatal failure.
pub open spec fn spec_activate_state(client_id: u32, r: ActivationResponses) -> TextService {
    if spec_activation_fatal(r) {
        spec_clean()
    } else {
        spec_activated(client_id, r)
    }
}

/// The release calls a fatal activation makes while rolling back.
pub open spec fn spec_activate_calls(client_id: u32, r: ActivationResponses) -> Seq<HostCall> {
    if r.event_sink_cookie is None {
        Seq::empty()
    } else if !r.key_sink_advised {
        spec_deactivate_calls(spec_partially_activated(client_id, r))
    } else {
        Seq::empty()
    }
}

/// The subscription cookies the host actually issued during an activation
/// that answered `r`: the thread-event cookie, and the text-edit cookie
/// when the thread-event advise succeeded and a focused document existed.
pub open spec fn spec_issued(r: ActivationResponses) -> Set<(SinkKind, u32)> {
    (match r.event_sink_cookie {
        Some(c) => Set::empty().insert((SinkKind::ThreadEvents, c)),
        None => Set::empty(),
    }) + (match (r.event_sink_cookie, spec_edit_sink_of(r.focus_context, r.edit_sink_cookie)) {
        (Some(_), Some(b)) => Set::empty().insert((SinkKind::TextEdit, b.cookie)),
        _ => Set::empty(),
    })
}

/// The subscription cookies a sequence of release calls gives back.
pub open spec fn spec_released(calls: Seq<HostCall>) -> Set<(SinkKind, u32)>
    decreases calls.len(),
{
    if calls.len() == 0 {
        Set::empty()
    } else {
        spec_released(calls.drop_last()) + (match calls.last() {
            HostCall::UnadviseThreadSink { cookie } => Set::empty().insert(
                (SinkKind::ThreadEvents, cookie),
            ),
            HostCall::UnadviseTextEditSink { context: _, cookie } => Set::empty().insert(
                (SinkKind::TextEdit, cookie),
            ),
            _ => Set::empty(),
        })
    }
}

impl TextService {
    /// The session holds nothing.
    pub open spec fn is_clean(self) -> bool {
        self == spec_clean()
    }

    /// The subscription cookies this session currently holds.
    pub open spec fn outstanding(self) -> Set<(SinkKind, u32)> {
        (match self.event_sink_cookie {
            Some(c) => Set::empty().insert((SinkKind::ThreadEvents, c)),
            None => Set::empty(),
        }) + (match self.edit_sink {
            Some(b) => Set::empty().insert((SinkKind::TextEdit, b.cookie)),
            None => Set::empty(),
        })
    }

    /// A fresh, never-activated session.
    pub fn new() -> (r: TextService)
        ensures
            r.is_clean(),
    {
        TextService {
            active: false,
            client_id: TF_CLIENTID_NULL,
            event_sink_cookie: None,
            edit_sink: None,
            langbar_item: false,
            key_sink_advised: false,
            preserved_keys_registered: false,
            input_atom: None,
            converted_atom: None,
            composition: None,
        }
    }

    /// Whether a composition is currently active.
    pub fn is_composing(&self) -> (r: bool)
        ensures
            r == (self.composition is Some),
    {
        self.composition.is_some()
    }

    /// Stores a freshly started composition on the session.
    pub fn set_composition(&mut self, composition: Composition)
        ensures
            final(self).composition == Some(composition),
            *final(self) == (TextService { composition: Some(composition), ..*old(self) }),
    {
        self.composition = Some(composition);
    }

    /// Binds the host context and client id, then subscribes and registers
    /// everything the session needs, keeping exactly what the host granted.
    /// A fatal failure (thread-event sink or key-event sink) rolls the
    /// session back through the deactivation path and reports failure; the
    /// returned calls are the releases that rollback owes the host.
    pub fn activate(&mut self, client_id: u32, responses: &ActivationResponses) -> (r: (
        bool,
        Vec<HostCall>,
    ))
        requires
            old(self).is_clean(),
        ensures
            r.0 == !spec_activation_fatal(*responses),
            *final(self) == spec_activate_state(client_id, *responses),
            r.1@ == spec_activate_calls(client_id, *responses),
    {
        self.active = true;
        self.client_id = client_id;
        match responses.event_sink_cookie {
            Some(c) => {
                self.event_sink_cookie = Some(c);
            },
            None => {
                // the whole activation fails with the thread-event sink;
                // roll back the partial binding
                let calls = self.deactivate();
                return (false, calls);
            },
        }
        if let Some(context) = responses.focus_context {
            if let Some(cookie) = responses.edit_sink_cookie {
                self.edit_sink = Some(EditSinkBinding { context, cookie });
            }
        }
        self.langbar_item = responses.langbar_added;
        if !responses.key_sink_advised {
            // fatal: roll back everything acquired so far
            let calls = self.deactivate();
            return (false, calls);
        }
        self.key_sink_advised = true;
        self.preserved_keys_registered = responses.preserved_keys_registered;
        (true, Vec::new())
    }

    /// Releases everything the session holds, each release guarded by the
    /// presence of what it releases, and clears every field.  Idempotent,
    /// and tolerates a session that never fully activated.
    pub fn deactivate(&mut self) -> (calls: Vec<HostCall>)
        ensures
            final(self).is_clean(),
            calls@ == spec_deactivate_calls(*old(self)),
    {
        let mut calls: Vec<HostCall> = Vec::new();
        if let Some(b) = self.edit_sink {
            calls.push(HostCall::UnadviseTextEditSink { context: b.context, cookie: b.cookie });
        }
        if let Some(c) = self.event_sink_cookie {
            calls.push(HostCall::UnadviseThreadSink { cookie: c });
        }
        if self.langbar_item {
            calls.push(HostCall::RemoveLangBarItem);
        }
        if self.key_sink_advised {
            calls.push(HostCall::UnadviseKeyEventSink { client_id: self.client_id });
        }
        if self.preserved_keys_registered {
            calls.push(HostCall::UnpreserveKeys);
        }
        self.active = false;
        self.client_id = TF_CLIENTID_NULL;
        self.event_sink_cookie = None;
        self.edit_sink = None;
        self.langbar_item = false;
        self.key_sink_advised = false;
        self.preserved_keys_registered = false;
        self.input_atom = None;
        self.converted_atom = None;
        self.composition = None;
        proof {
            assert(calls@ =~= spec_deactivate_calls(*old(self)));
        }
        calls
    }

    /// Focus-change notification: rebind the text-edit sink to the newly
    /// focused document's top context, unsubscribing any previous binding
    /// first; with no focused document, just unsubscribe.  `advise_cookie`
    /// is the host's answer to advising the sink on the new context.
    pub fn on_set_focus(&mut self, new_context: Option<u32>, advise_cookie: Option<u32>) -> (calls:
        Vec<HostCall>)
        ensures
            final(self).edit_sink == spec_edit_sink_of(new_context, advise_cookie),
            calls@ == (match old(self).edit_sink {
                Some(b) => seq![
                    HostCall::UnadviseTextEditSink { context: b.context, cookie: b.cookie },
                ],
                None => Seq::<HostCall>::empty(),
            }),
            *final(self) == (TextService { edit_sink: final(self).edit_sink, ..*old(self) }),
    {
        let mut calls: Vec<HostCall> = Vec::new();
        if let Some(b) = self.edit_sink {
            calls.push(HostCall::UnadviseTextEditSink { context: b.context, cookie: b.cookie });
            self.edit_sink = None;
        }
        if let Some(context) = new_context {
            if let Some(cookie) = advise_cookie {
                self.edit_sink = Some(EditSinkBinding { context, cookie });
            }
        }
        proof {
            assert(calls@ =~= (match old(self).edit_sink {
                Some(b) => seq![
                    HostCall::UnadviseTextEditSink { context: b.context, cookie: b.cookie },
                ],
                None => Seq::<HostCall>::empty(),
            }));
        }
        calls
    }

    /// Edit-completion notification: if the notification reports a changed
    /// selection while a composition is active and the live selection has
    /// escaped the composition's range, a fresh edit session is requested
    /// to terminate the composition — never inline work here, to avoid
    /// reentrant lock acquisition inside a notification callback.  A
    /// notification that also reports modified ranges is a hook point with
    /// no mandatory action.
    pub fn on_end_edit(&self, ctx: &EditContext, selection_changed: bool) -> (req: Option<
        EditSessionRequest,
    >)
        requires
            ctx.wf(),
        ensures
            req is Some <==> spec_end_edit_schedules(*self, *ctx, selection_changed),
            req matches Some(r) ==> r == spec_end_composition_request(self.client_id),
    {
        if !selection_changed {
            return None;
        }
        if let Some(c) = &self.composition {
            let sel = ctx.selection_range();
            if !is_range_covered(&sel, &c.range) {
                return Some(request_end_composition(self.client_id));
            }
        }
        None
    }
}

/// Whether an edit-completion notification makes the core schedule a
/// termination: exactly when the selection changed, a composition is
/// active, and the live selection is not covered by the composition's
/// range.
pub open spec fn spec_end_edit_schedules(
    s: TextService,
    ctx: EditContext,
    selection_changed: bool,
) -> bool {
    &&& selection_changed
    &&& match s.composition {
        Some(c) => !spec_covered(ctx.spec_selection(), c.range),
        None => false,
    }
}

/// Self-heal fires exactly once: a notification whose live selection has
/// escaped the active composition schedules a termination session, and
/// once that session has cleared the composition, the same notification
/// schedules nothing further.
pub proof fn lemma_self_heal_exactly_once(s: TextService, ctx: EditContext, healed: TextService)
    requires
        s.composition matches Some(c) && !spec_covered(ctx.spec_selection(), c.range),
        healed == (TextService { composition: None, ..s }),
    ensures
        spec_end_edit_schedules(s, ctx, true),
        !spec_end_edit_schedules(healed, ctx, true),
{
}

/// After a termination, local or host-initiated, the composition is gone
/// and subsequent covered checks are skipped: no edit-completion
/// notification schedules further work.
pub proof fn lemma_terminated_skips_covered_checks(
    s: TextService,
    ctx: EditContext,
    selection_changed: bool,
)
    requires
        s.composition is None,
    ensures
        !spec_end_edit_schedules(s, ctx, selection_changed),
{
}

/// A deactivation releases exactly the cookies the session holds, and each
/// release call appears at most once: no leak and no double release.
pub proof fn lemma_deactivate_releases_outstanding(s: TextService)
    ensures
        spec_released(spec_deactivate_calls(s)) == s.outstanding(),
        forall|i: int, j: int|
            0 <= i < j < spec_deactivate_calls(s).len() ==> #[trigger] spec_deactivate_calls(s)[i]
                != #[trigger] spec_deactivate_calls(s)[j],
{
    let calls = spec_deactivate_calls(s);
    assert(spec_released(calls) =~= s.outstanding()) by {
        reveal_released_prefixes(calls);
    }
}

/// Unrolls [`spec_released`] over every prefix of a short call list.
proof fn reveal_released_prefixes(calls: Seq<HostCall>)
    ensures
        forall|n: int|
            0 < n <= calls.len() ==> #[trigger] spec_released(calls.take(n)) == spec_released(
                calls.take(n - 1),
            ) + (match calls[n - 1] {
                HostCall::UnadviseThreadSink { cookie } => Set::empty().insert(
                    (SinkKind::ThreadEvents, cookie),
                ),
                HostCall::UnadviseTextEditSink { context: _, cookie } => Set::empty().insert(
                    (SinkKind::TextEdit, cookie),
                ),
                _ => Set::<(SinkKind, u32)>::empty(),
            }),
        spec_released(calls.take(0)) == Set::<(SinkKind, u32)>::empty(),
        calls.take(calls.len() as int) == calls,
{
    assert forall|n: int| 0 < n <= calls.len() implies #[trigger] spec_released(calls.take(n))
        == spec_released(calls.take(n - 1)) + (match calls[n - 1] {
        HostCall::UnadviseThreadSink { cookie } => Set::empty().insert(
            (SinkKind::ThreadEvents, cookie),
        ),
        HostCall::UnadviseTextEditSink { context: _, cookie } => Set::empty().insert(
            (SinkKind::TextEdit, cookie),
        ),
        _ => Set::<(SinkKind, u32)>::empty(),
    }) by {
        assert(calls.take(n).drop_last() =~= calls.take(n - 1));
        assert(calls.take(n).last() == calls[n - 1]);
    }
    assert(calls.take(calls.len() as int) =~= calls);
}

/// An activation leaves outstanding exactly what the host issued and was
/// not already given back by rollback: on success the issued cookies are
/// all outstanding and nothing was released; on a fatal failure everything
/// issued was released and nothing is outstanding.
pub proof fn lemma_activation_balance(client_id: u32, r: ActivationResponses)
    ensures
        spec_released(spec_activate_calls(client_id, r)) + spec_activate_state(
            client_id,
            r,
        ).outstanding() == spec_issued(r),
        !spec_activation_fatal(r) ==> spec_released(spec_activate_calls(client_id, r))
            == Set::<(SinkKind, u32)>::empty(),
        spec_activation_fatal(r) ==> spec_activate_state(client_id, r).outstanding()
            == Set::<(SinkKind, u32)>::empty(),
{
    if r.event_sink_cookie is None {
        assert(spec_released(spec_activate_calls(client_id, r)) + spec_activate_state(
            client_id,
            r,
        ).outstanding() =~= spec_issued(r));
    } else if !r.key_sink_advised {
        lemma_deactivate_releases_outstanding(spec_partially_activated(client_id, r));
        assert(spec_partially_activated(client_id, r).outstanding() =~= spec_issued(r));
        assert(spec_released(spec_activate_calls(client_id, r)) + spec_activate_state(
            client_id,
            r,
        ).outstanding() =~= spec_issued(r));
    } else {
        assert(spec_released(spec_activate_calls(client_id, r)) + spec_activate_state(
            client_id,
            r,
        ).outstanding() =~= spec_issued(r));
    }
    if spec_activation_fatal(r) {
        assert(spec_activate_state(client_id, r).outstanding() =~= Set::<(SinkKind, u32)>::empty());
    } else {
        assert(spec_released(spec_activate_calls(client_id, r)) =~= Set::<(
            SinkKind,
            u32,
        )>::empty());
    }
}

/// One step of the session lifecycle as the host drives it: an activation
/// with whatever the host answered, or a deactivation.
pub enum LifecycleEvent {
    Activate { client_id: u32, responses: ActivationResponses },
    Deactivate,
}

/// The session state after one lifecycle event.
pub open spec fn spec_lifecycle_step(s: TextService, e: LifecycleEvent) -> TextService {
    match e {
        LifecycleEvent::Activate { client_id, responses } => spec_activate_state(
            client_id,
            responses,
        ),
        LifecycleEvent::Deactivate => spec_clean(),
    }
}

/// The session state after a whole sequence of lifecycle events.
pub open spec fn spec_lifecycle_run(s: TextService, events: Seq<LifecycleEvent>) -> TextService
    decreases events.len(),
{
    if events.len() == 0 {
        s
    } else {
        spec_lifecycle_run(spec_lifecycle_step(s, events.first()), events.drop_first())
    }
}

/// Over any sequence of activations and deactivations that ends with a
/// deactivation, the set of outstanding subscription cookies afterwards
/// equals the set before the first call: none is leaked, and none is held
/// that was already released.
pub proof fn lemma_subscription_symmetry(s: TextService, events: Seq<LifecycleEvent>)
    requires
        s.is_clean(),
        events.len() > 0,
        events.last() is Deactivate,
    ensures
        spec_lifecycle_run(s, events).outstanding() == s.outstanding(),
        spec_lifecycle_run(s, events).outstanding() == Set::<(SinkKind, u32)>::empty(),
    decreases events.len(),
{
    assert(s.outstanding() =~= Set::<(SinkKind, u32)>::empty());
    if events.len() == 1 {
        assert(spec_lifecycle_run(s, events) == spec_lifecycle_step(s, events.first()));
        assert(spec_lifecycle_run(s, events).outstanding() =~= Set::<(SinkKind, u32)>::empty());
    } else {
        let s1 = spec_lifecycle_step(s, events.first());
        let rest = events.drop_first();
        assert(rest.last() == events.last());
        lemma_lifecycle_run_ends_clean(s1, rest);
    }
}

/// The cookies the host issues during one lifecycle event.
pub open spec fn spec_step_issued(e: LifecycleEvent) -> Set<(SinkKind, u32)> {
    match e {
        LifecycleEvent::Activate { client_id: _, responses } => spec_issued(responses),
        LifecycleEvent::Deactivate => Set::empty(),
    }
}

/// The cookies the core gives back during one lifecycle event: a fatal
/// activation's rollback releases, or a deactivation's releases.
pub open spec fn spec_step_released(s: TextService, e: LifecycleEvent) -> Set<(SinkKind, u32)> {
    match e {
        LifecycleEvent::Activate { client_id, responses } => spec_released(
            spec_activate_calls(client_id, responses),
        ),
        LifecycleEvent::Deactivate => spec_released(spec_deactivate_calls(s)),
    }
}

/// The host's ledger — the cookies it has issued and not yet received
/// back — after a whole sequence of lifecycle events.
pub open spec fn spec_ledger_run(
    ledger: Set<(SinkKind, u32)>,
    s: TextService,
    events: Seq<LifecycleEvent>,
) -> Set<(SinkKind, u32)>
    decreases events.len(),
{
    if events.len() == 0 {
        ledger
    } else {
        spec_ledger_run(
            ledger.union(spec_step_issued(events.first())).difference(
                spec_step_released(s, events.first()),
            ),
            spec_lifecycle_step(s, events.first()),
            events.drop_first(),
        )
    }
}

/// A well-formed lifecycle trace: the host activates only a clean session
/// (it keeps one session alive per thread), and every cookie it issues is
/// fresh — not one it still counts as outstanding.
pub open spec fn spec_wf_trace(
    ledger: Set<(SinkKind, u32)>,
    s: TextService,
    events: Seq<LifecycleEvent>,
) -> bool
    decreases events.len(),
{
    events.len() == 0 || {
        let e = events.first();
        &&& (e is Activate ==> s.is_clean() && spec_step_issued(e).disjoint(ledger))
        &&& spec_wf_trace(
            ledger.union(spec_step_issued(e)).difference(spec_step_released(s, e)),
            spec_lifecycle_step(s, e),
            events.drop_first(),
        )
    }
}

/// Across any well-formed lifecycle trace, the host's ledger is exactly
/// its starting content plus what the session currently holds: every
/// issued cookie is either held or already given back, and nothing is
/// given back twice.
pub proof fn lemma_host_ledger_balance(
    ledger: Set<(SinkKind, u32)>,
    s: TextService,
    events: Seq<LifecycleEvent>,
)
    requires
        spec_wf_trace(ledger, s, events),
        s.outstanding().subset_of(ledger),
    ensures
        spec_ledger_run(ledger, s, events) == ledger.difference(s.outstanding()).union(
            spec_lifecycle_run(s, events).outstanding(),
        ),
    decreases events.len(),
{
    if events.len() == 0 {
        assert(ledger =~= ledger.difference(s.outstanding()).union(s.outstanding()));
    } else {
        let e = events.first();
        let s2 = spec_lifecycle_step(s, e);
        let ledger2 = ledger.union(spec_step_issued(e)).difference(spec_step_released(s, e));
        match e {
            LifecycleEvent::Activate { client_id, responses } => {
                lemma_activation_balance(client_id, responses);
                assert(s.outstanding() =~= Set::<(SinkKind, u32)>::empty());
                if spec_activation_fatal(responses) {
                    assert(spec_step_released(s, e) =~= spec_issued(responses));
                    assert(ledger2 =~= ledger);
                } else {
                    assert(ledger2 =~= ledger.union(s2.outstanding()));
                }
                assert(s2.outstanding().subset_of(ledger2));
                assert(ledger2.difference(s2.outstanding()) =~= ledger.difference(
                    s.outstanding(),
                ));
            },
            LifecycleEvent::Deactivate => {
                lemma_deactivate_releases_outstanding(s);
                assert(ledger2 =~= ledger.difference(s.outstanding()));
                assert(s2.outstanding() =~= Set::<(SinkKind, u32)>::empty());
                assert(s2.outstanding().subset_of(ledger2));
                assert(ledger2.difference(s2.outstanding()) =~= ledger.difference(
                    s.outstanding(),
                ));
            },
        }
        lemma_host_ledger_balance(ledger2, s2, events.drop_first());
        assert(spec_ledger_run(ledger, s, events) =~= ledger.difference(s.outstanding()).union(
            spec_lifecycle_run(s, events).outstanding(),
        ));
    }
}

/// No cookies leak: over any well-formed sequence of activations and
/// deactivations that starts on a clean session and ends with a
/// deactivation, the host's ledger of issued, unreturned cookies ends
/// exactly where it began.
pub proof fn lemma_no_cookie_leaks(
    ledger: Set<(SinkKind, u32)>,
    s: TextService,
    events: Seq<LifecycleEvent>,
)
    requires
        spec_wf_trace(ledger, s, events),
        s.is_clean(),
        events.len() > 0,
        events.last() is Deactivate,
    ensures
        spec_ledger_run(ledger, s, events) == ledger,
{
    lemma_subscription_symmetry(s, events);
    lemma_host_ledger_balance(ledger, s, events);
    assert(s.outstanding() =~= Set::<(SinkKind, u32)>::empty());
    assert(ledger.difference(s.outstanding()).union(
        spec_lifecycle_run(s, events).outstanding(),
    ) =~= ledger);
}

/// Whatever state a lifecycle run starts from, a run that ends with a
/// deactivation ends with no outstanding subscription.
proof fn lemma_lifecycle_run_ends_clean(s: TextService, events: Seq<LifecycleEvent>)
    requires
        events.len() > 0,
        events.last() is Deactivate,
    ensures
        spec_lifecycle_run(s, events).outstanding() == Set::<(SinkKind, u32)>::empty(),
    decreases events.len(),
{
    if events.len() == 1 {
        assert(spec_lifecycle_run(s, events) == spec_lifecycle_step(s, events.first()));
        assert(spec_lifecycle_run(s, events).outstanding() =~= Set::<(SinkKind, u32)>::empty());
    } else {
        let rest = events.drop_first();
        assert(rest.last() == events.last());
        lemma_lifecycle_run_ends_clean(spec_lifecycle_step(s, events.first()), rest);
    }
}

} // verus!
