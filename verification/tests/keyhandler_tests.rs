use text_service::composition::Composition;
use text_service::context::AttrSpan;
use text_service::context::EditContext;
use text_service::keyevent::VK_LEFT;
use text_service::keyevent::VK_RETURN;
use text_service::keyevent::VK_RIGHT;
use text_service::keyevent::VK_SPACE;
use text_service::keyhandler::KeyHandlerEditSession;
use text_service::range::DocRange;
use text_service::range::is_range_covered;
use text_service::service::TextService;

fn service_with(input_atom: Option<u32>, converted_atom: Option<u32>) -> TextService {
    let mut s = TextService::new();
    s.client_id = 5;
    s.input_atom = input_atom;
    s.converted_atom = converted_atom;
    s
}

#[test]
fn letter_starts_a_composition_and_inserts_uppercase() {
    let mut s = service_with(Some(11), Some(12));
    let mut ctx = EditContext::new(1, vec![b'a', b'b']);
    assert!(ctx.set_selection(&DocRange::new(1, 1, 1)));
    let inserted = s.handle_character_key(&mut ctx, 0x41, true);
    assert!(inserted);
    assert_eq!(ctx.text, vec![b'a', b'A', b'b']);
    assert_eq!((ctx.sel_start, ctx.sel_end), (2, 2));
    let comp = s.composition.unwrap();
    assert_eq!(comp.range, DocRange::new(1, 1, 2));
    // the Input style covers the whole composition range
    assert_eq!(ctx.attrs.entries, vec![AttrSpan { range: DocRange::new(1, 1, 2), value: 11 }]);
    // the selection is still covered by the composition
    assert!(is_range_covered(&ctx.selection_range(), &comp.range));
}

#[test]
fn letters_grow_the_composition() {
    let mut s = service_with(Some(11), None);
    let mut ctx = EditContext::new(1, Vec::new());
    assert!(s.handle_character_key(&mut ctx, 0x48, true));
    assert!(s.handle_character_key(&mut ctx, 0x49, true));
    assert_eq!(ctx.text, vec![b'H', b'I']);
    assert_eq!(s.composition.unwrap().range, DocRange::new(1, 0, 2));
    assert_eq!((ctx.sel_start, ctx.sel_end), (2, 2));
}

#[test]
fn letter_aborts_when_selection_escaped_the_composition() {
    let mut s = service_with(Some(11), None);
    s.composition = Some(Composition { range: DocRange::new(1, 0, 1) });
    let mut ctx = EditContext::new(1, vec![b'a', b'b', b'c']);
    assert!(ctx.set_selection(&DocRange::new(1, 2, 3)));
    let inserted = s.handle_character_key(&mut ctx, 0x41, true);
    assert!(!inserted);
    assert_eq!(ctx.text, vec![b'a', b'b', b'c']);
    assert_eq!((ctx.sel_start, ctx.sel_end), (2, 3));
    assert_eq!(s.composition.unwrap().range, DocRange::new(1, 0, 1));
    assert!(ctx.attrs.entries.is_empty());
}

#[test]
fn letter_without_a_granted_composition_changes_nothing() {
    let mut s = service_with(Some(11), None);
    let mut ctx = EditContext::new(1, vec![b'a']);
    let inserted = s.handle_character_key(&mut ctx, 0x41, false);
    assert!(!inserted);
    assert!(!s.is_composing());
    assert_eq!(ctx.text, vec![b'a']);
}

#[test]
fn enter_terminates_without_inserting_text() {
    let mut s = service_with(Some(11), Some(12));
    let r = DocRange::new(1, 0, 2);
    s.composition = Some(Composition { range: r });
    let mut ctx = EditContext::new(1, vec![b'H', b'I']);
    let session = KeyHandlerEditSession::new(VK_RETURN);
    let ended = session.do_edit_session(&mut s, &mut ctx, false);
    assert_eq!(ended, Some(r));
    assert!(!s.is_composing());
    assert_eq!(ctx.text, vec![b'H', b'I']);
    assert_eq!((ctx.sel_start, ctx.sel_end), (0, 0));
}

#[test]
fn space_applies_the_converted_style_idempotently() {
    let mut s = service_with(Some(11), Some(12));
    let r = DocRange::new(1, 0, 2);
    s.composition = Some(Composition { range: r });
    let mut ctx = EditContext::new(1, vec![b'H', b'I']);
    assert!(s.handle_space_key(&mut ctx));
    assert_eq!(ctx.attrs.entries, vec![AttrSpan { range: r, value: 12 }]);
    // applying the Converted style twice stores the same value as once
    assert!(s.handle_space_key(&mut ctx));
    assert_eq!(ctx.attrs.entries, vec![AttrSpan { range: r, value: 12 }]);
    assert_eq!(ctx.text, vec![b'H', b'I']);
}

#[test]
fn space_without_composition_applies_nothing() {
    let s = service_with(Some(11), Some(12));
    let mut ctx = EditContext::new(1, vec![b'H', b'I']);
    assert!(!s.handle_space_key(&mut ctx));
    assert!(ctx.attrs.entries.is_empty());
}

#[test]
fn arrows_move_one_unit_and_stop_at_the_boundaries() {
    let mut s = service_with(None, None);
    s.composition = Some(Composition { range: DocRange::new(1, 2, 5) });
    let mut ctx = EditContext::new(1, vec![b'x'; 6]);
    assert!(ctx.set_selection(&DocRange::new(1, 3, 3)));
    s.handle_arrow_key(&mut ctx, VK_LEFT);
    assert_eq!((ctx.sel_start, ctx.sel_end), (2, 2));
    // at the start boundary a further left collapses in place
    s.handle_arrow_key(&mut ctx, VK_LEFT);
    assert_eq!((ctx.sel_start, ctx.sel_end), (2, 2));
    s.handle_arrow_key(&mut ctx, VK_RIGHT);
    assert_eq!((ctx.sel_start, ctx.sel_end), (3, 3));
    s.handle_arrow_key(&mut ctx, VK_RIGHT);
    s.handle_arrow_key(&mut ctx, VK_RIGHT);
    assert_eq!((ctx.sel_start, ctx.sel_end), (5, 5));
    // at the end boundary a further right collapses in place
    s.handle_arrow_key(&mut ctx, VK_RIGHT);
    assert_eq!((ctx.sel_start, ctx.sel_end), (5, 5));
    // the selection never left the composition
    assert!(is_range_covered(
        &ctx.selection_range(),
        &DocRange::new(1, 2, 5)
    ));
}

#[test]
fn arrows_without_composition_move_nothing() {
    let s = service_with(None, None);
    let mut ctx = EditContext::new(1, vec![b'x'; 6]);
    assert!(ctx.set_selection(&DocRange::new(1, 3, 3)));
    s.handle_arrow_key(&mut ctx, VK_LEFT);
    assert_eq!((ctx.sel_start, ctx.sel_end), (3, 3));
}

#[test]
fn arrows_fail_closed_across_documents() {
    let mut s = service_with(None, None);
    s.composition = Some(Composition { range: DocRange::new(9, 2, 5) });
    let mut ctx = EditContext::new(1, vec![b'x'; 6]);
    assert!(ctx.set_selection(&DocRange::new(1, 3, 3)));
    s.handle_arrow_key(&mut ctx, VK_RIGHT);
    assert_eq!((ctx.sel_start, ctx.sel_end), (3, 3));
}

#[test]
fn dispatch_commits_an_eaten_letter() {
    let mut s = service_with(Some(11), Some(12));
    let mut ctx = EditContext::new(1, Vec::new());
    let session = KeyHandlerEditSession::new(0x42);
    let ended = session.do_edit_session(&mut s, &mut ctx, true);
    assert_eq!(ended, None);
    assert_eq!(ctx.text, vec![b'B']);
    assert!(s.is_composing());
}

#[test]
fn dispatch_leaves_other_keys_alone() {
    let mut s = service_with(Some(11), Some(12));
    s.composition = Some(Composition { range: DocRange::new(1, 0, 1) });
    let mut ctx = EditContext::new(1, vec![b'q']);
    let session = KeyHandlerEditSession::new(0x30);
    let ended = session.do_edit_session(&mut s, &mut ctx, true);
    assert_eq!(ended, None);
    assert_eq!(ctx.text, vec![b'q']);
    assert!(s.is_composing());
}

#[test]
fn dispatch_space_restyles_the_composition() {
    let mut s = service_with(Some(11), Some(12));
    let r = DocRange::new(1, 0, 1);
    s.composition = Some(Composition { range: r });
    let mut ctx = EditContext::new(1, vec![b'q']);
    let session = KeyHandlerEditSession::new(VK_SPACE);
    session.do_edit_session(&mut s, &mut ctx, false);
    assert_eq!(ctx.attrs.entries, vec![AttrSpan { range: r, value: 12 }]);
}

#[test]
fn committed_letter_keeps_input_style_after_conversion_styling() {
    // typing, converting, then typing again restyles with Input
    let mut s = service_with(Some(11), Some(12));
    let mut ctx = EditContext::new(1, Vec::new());
    assert!(s.handle_character_key(&mut ctx, 0x41, true));
    assert!(s.handle_space_key(&mut ctx));
    assert!(s.handle_character_key(&mut ctx, 0x42, true));
    let comp = s.composition.unwrap().range;
    assert_eq!(comp, DocRange::new(1, 0, 2));
    // the old span's style was superseded only where ranges matched;
    // the whole current range carries Input again
    assert!(ctx.attrs.entries.contains(&AttrSpan { range: comp, value: 11 }));
}
