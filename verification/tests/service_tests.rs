use text_service::composition::Composition;
use text_service::context::EditContext;
use text_service::editsession::Access;
use text_service::editsession::EditWork;
use text_service::editsession::Timing;
use text_service::range::DocRange;
use text_service::service::ActivationResponses;
use text_service::service::HostCall;
use text_service::service::TextService;

fn all_granted() -> ActivationResponses {
    ActivationResponses {
        event_sink_cookie: Some(7),
        focus_context: Some(3),
        edit_sink_cookie: Some(9),
        langbar_added: true,
        key_sink_advised: true,
        preserved_keys_registered: true,
    }
}

#[test]
fn activation_keeps_what_the_host_granted() {
    let mut s = TextService::new();
    let (ok, calls) = s.activate(42, &all_granted());
    assert!(ok);
    assert!(calls.is_empty());
    assert!(s.active);
    assert_eq!(s.client_id, 42);
    assert_eq!(s.event_sink_cookie, Some(7));
    assert!(s.edit_sink.is_some());
    assert!(s.langbar_item);
    assert!(s.key_sink_advised);
    assert!(s.preserved_keys_registered);
    assert!(!s.is_composing());
}

#[test]
fn deactivation_releases_each_subscription_exactly_once() {
    let mut s = TextService::new();
    let (ok, _) = s.activate(42, &all_granted());
    assert!(ok);
    let calls = s.deactivate();
    assert_eq!(
        calls,
        vec![
            HostCall::UnadviseTextEditSink { context: 3, cookie: 9 },
            HostCall::UnadviseThreadSink { cookie: 7 },
            HostCall::RemoveLangBarItem,
            HostCall::UnadviseKeyEventSink { client_id: 42 },
            HostCall::UnpreserveKeys,
        ]
    );
    assert!(!s.active);
    assert_eq!(s.client_id, 0);
    assert_eq!(s.event_sink_cookie, None);
    assert!(s.edit_sink.is_none());
    // a second deactivation has nothing left to release
    let again = s.deactivate();
    assert!(again.is_empty());
}

#[test]
fn fatal_event_sink_failure_rolls_back_cleanly() {
    let mut s = TextService::new();
    let responses = ActivationResponses { event_sink_cookie: None, ..all_granted() };
    let (ok, calls) = s.activate(42, &responses);
    assert!(!ok);
    assert!(calls.is_empty());
    assert!(!s.active);
    assert_eq!(s.client_id, 0);
}

#[test]
fn fatal_key_sink_failure_releases_what_was_acquired() {
    let mut s = TextService::new();
    let responses = ActivationResponses { key_sink_advised: false, ..all_granted() };
    let (ok, calls) = s.activate(42, &responses);
    assert!(!ok);
    assert_eq!(
        calls,
        vec![
            HostCall::UnadviseTextEditSink { context: 3, cookie: 9 },
            HostCall::UnadviseThreadSink { cookie: 7 },
            HostCall::RemoveLangBarItem,
        ]
    );
    assert!(!s.active);
    assert_eq!(s.event_sink_cookie, None);
    assert!(s.edit_sink.is_none());
    assert!(!s.langbar_item);
}

#[test]
fn edit_sink_failure_is_nonfatal() {
    let mut s = TextService::new();
    let responses = ActivationResponses { edit_sink_cookie: None, ..all_granted() };
    let (ok, _) = s.activate(42, &responses);
    assert!(ok);
    assert!(s.edit_sink.is_none());
}

#[test]
fn activation_after_deactivation_balances_again() {
    let mut s = TextService::new();
    let (ok, _) = s.activate(1, &all_granted());
    assert!(ok);
    s.deactivate();
    let (ok, _) = s.activate(2, &all_granted());
    assert!(ok);
    let calls = s.deactivate();
    assert_eq!(calls.len(), 5);
    assert_eq!(s.event_sink_cookie, None);
    assert!(s.edit_sink.is_none());
}

#[test]
fn focus_change_rebinds_the_edit_sink() {
    let mut s = TextService::new();
    let (ok, _) = s.activate(42, &all_granted());
    assert!(ok);
    let calls = s.on_set_focus(Some(8), Some(11));
    assert_eq!(calls, vec![HostCall::UnadviseTextEditSink { context: 3, cookie: 9 }]);
    let b = s.edit_sink.unwrap();
    assert_eq!((b.context, b.cookie), (8, 11));
    // losing focus just unsubscribes
    let calls = s.on_set_focus(None, None);
    assert_eq!(calls, vec![HostCall::UnadviseTextEditSink { context: 8, cookie: 11 }]);
    assert!(s.edit_sink.is_none());
}

#[test]
fn end_edit_schedules_a_fresh_termination_when_selection_escapes() {
    let mut s = TextService::new();
    s.client_id = 42;
    s.composition = Some(Composition { range: DocRange::new(1, 2, 5) });
    let mut ctx = EditContext::new(1, vec![b'x'; 8]);
    assert!(ctx.set_selection(&DocRange::new(1, 6, 7)));
    let req = s.on_end_edit(&ctx, true).expect("an escaped selection must schedule");
    assert_eq!(req.client_id, 42);
    assert_eq!(req.timing, Timing::Async);
    assert_eq!(req.access, Access::ReadWrite);
    assert_eq!(req.work, EditWork::EndComposition);
}

#[test]
fn end_edit_self_heal_fires_exactly_once() {
    let mut s = TextService::new();
    s.composition = Some(Composition { range: DocRange::new(1, 2, 5) });
    let mut ctx = EditContext::new(1, vec![b'x'; 8]);
    assert!(ctx.set_selection(&DocRange::new(1, 6, 7)));
    assert!(s.on_end_edit(&ctx, true).is_some());
    // the scheduled session terminates the composition; the same
    // notification then schedules nothing further
    s.terminate_composition();
    assert!(s.on_end_edit(&ctx, true).is_none());
}

#[test]
fn end_edit_is_quiet_when_covered_or_unchanged() {
    let mut s = TextService::new();
    s.composition = Some(Composition { range: DocRange::new(1, 2, 5) });
    let mut ctx = EditContext::new(1, vec![b'x'; 8]);
    assert!(ctx.set_selection(&DocRange::new(1, 3, 4)));
    assert!(s.on_end_edit(&ctx, true).is_none());
    assert!(ctx.set_selection(&DocRange::new(1, 6, 7)));
    assert!(s.on_end_edit(&ctx, false).is_none());
}

#[test]
fn host_initiated_termination_is_idempotent() {
    let mut s = TextService::new();
    s.composition = Some(Composition { range: DocRange::new(1, 2, 5) });
    s.on_composition_terminated();
    assert!(!s.is_composing());
    s.on_composition_terminated();
    assert!(!s.is_composing());
    // with the composition gone, covered checks are skipped
    let ctx = EditContext::new(1, vec![b'x'; 8]);
    assert!(s.on_end_edit(&ctx, true).is_none());
}

#[test]
fn start_composition_binds_the_probed_range() {
    let mut s = TextService::new();
    let mut ctx = EditContext::new(1, vec![b'a', b'b', b'c']);
    assert!(ctx.set_selection(&DocRange::new(1, 2, 3)));
    assert!(s.start_composition(&mut ctx, true));
    let comp = s.composition.unwrap();
    assert_eq!(comp.range, DocRange::new(1, 2, 2));
    assert_eq!((ctx.sel_start, ctx.sel_end), (2, 2));
    // a second start is refused while composing
    assert!(!s.start_composition(&mut ctx, true));
}

#[test]
fn start_composition_denied_changes_nothing() {
    let mut s = TextService::new();
    let mut ctx = EditContext::new(1, vec![b'a', b'b', b'c']);
    assert!(ctx.set_selection(&DocRange::new(1, 1, 2)));
    assert!(!s.start_composition(&mut ctx, false));
    assert!(!s.is_composing());
    assert_eq!((ctx.sel_start, ctx.sel_end), (1, 2));
}

#[test]
fn terminate_reports_the_ended_range() {
    let mut s = TextService::new();
    let r = DocRange::new(1, 2, 5);
    s.set_composition(Composition { range: r });
    assert!(s.is_composing());
    assert_eq!(s.terminate_composition(), Some(r));
    assert!(!s.is_composing());
    assert_eq!(s.terminate_composition(), None);
}
