use text_service::attribute::ATTRIBUTE_RECORD_SIZE;
use text_service::attribute::DisplayAttributeInfo;
use text_service::attribute::EnumDisplayAttributeInfo;
use text_service::attribute::TF_ATTR_INPUT;
use text_service::attribute::TF_ATTR_TARGET_CONVERTED;
use text_service::attribute::TF_CT_COLORREF;
use text_service::attribute::TF_CT_NONE;
use text_service::attribute::TF_LS_NONE;
use text_service::attribute::TF_LS_SOLID;
use text_service::attribute::decode_display_attribute;
use text_service::attribute::default_converted_attribute;
use text_service::attribute::default_input_attribute;
use text_service::attribute::effective_attribute;
use text_service::attribute::encode_display_attribute;
use text_service::attribute::rgb;
use text_service::globals::GUID_DISPLAY_ATTRIBUTE_CONVERTED;
use text_service::globals::GUID_DISPLAY_ATTRIBUTE_INPUT;
use text_service::service::TextService;

#[test]
fn rgb_packs_red_low() {
    assert_eq!(rgb(255, 0, 0), 255);
    assert_eq!(rgb(1, 2, 3), 0x030201);
    assert_eq!(rgb(0, 0, 255), 0xff0000);
}

#[test]
fn default_styles_match_their_identities() {
    let input = default_input_attribute();
    assert_eq!(input.text_color.color_type, TF_CT_COLORREF);
    assert_eq!(input.text_color.color_value, rgb(255, 0, 0));
    assert_eq!(input.back_color.color_type, TF_CT_NONE);
    assert_eq!(input.line_style, TF_LS_SOLID);
    assert_eq!(input.attr_kind, TF_ATTR_INPUT);

    let converted = default_converted_attribute();
    assert_eq!(converted.text_color.color_value, rgb(255, 255, 255));
    assert_eq!(converted.back_color.color_value, rgb(0, 255, 255));
    assert_eq!(converted.line_style, TF_LS_NONE);
    assert_eq!(converted.attr_kind, TF_ATTR_TARGET_CONVERTED);
}

#[test]
fn record_encodes_to_exact_bytes() {
    let bytes = encode_display_attribute(&default_input_attribute());
    assert_eq!(bytes.len(), ATTRIBUTE_RECORD_SIZE);
    // text colour: kind colorref, value red
    assert_eq!(&bytes[0..4], &[2, 0, 0, 0]);
    assert_eq!(&bytes[4..8], &[255, 0, 0, 0]);
    // background: kind none, value zero
    assert_eq!(&bytes[8..12], &[0, 0, 0, 0]);
    // underline style solid
    assert_eq!(&bytes[16..20], &[1, 0, 0, 0]);
    // attribute kind tag: input
    assert_eq!(&bytes[32..36], &[0, 0, 0, 0]);
}

#[test]
fn record_round_trips() {
    let a = default_converted_attribute();
    let bytes = encode_display_attribute(&a);
    assert_eq!(decode_display_attribute(&bytes), Some(a));
}

#[test]
fn wrong_size_record_is_rejected() {
    let mut bytes = encode_display_attribute(&default_input_attribute());
    bytes.pop();
    assert_eq!(decode_display_attribute(&bytes), None);
    let fallback = effective_attribute(Some(&bytes), &default_input_attribute());
    assert_eq!(fallback, default_input_attribute());
}

#[test]
fn valid_override_wins_over_default() {
    let mut custom = default_input_attribute();
    custom.text_color.color_value = rgb(7, 8, 9);
    let bytes = encode_display_attribute(&custom);
    let info = DisplayAttributeInfo::new_input();
    assert_eq!(info.get_attribute_info(Some(&bytes)), custom);
    assert_eq!(info.get_attribute_info(None), default_input_attribute());
}

#[test]
fn descriptor_identities() {
    let input = DisplayAttributeInfo::new_input();
    assert_eq!(input.get_guid(), GUID_DISPLAY_ATTRIBUTE_INPUT);
    assert_eq!(input.name, "DisplayAttributeInput");
    let converted = DisplayAttributeInfo::new_converted();
    assert_eq!(converted.get_guid(), GUID_DISPLAY_ATTRIBUTE_CONVERTED);
    assert_eq!(converted.attribute, default_converted_attribute());
}

#[test]
fn descriptor_persists_and_resets() {
    let info = DisplayAttributeInfo::new_converted();
    let mut custom = default_converted_attribute();
    custom.bold_line = 1;
    let persisted = info.set_attribute_info(&custom);
    assert_eq!(decode_display_attribute(&persisted), Some(custom));
    let restored = info.reset();
    assert_eq!(decode_display_attribute(&restored), Some(default_converted_attribute()));
}

#[test]
fn enumerator_hands_out_both_identities_in_order() {
    let mut it = EnumDisplayAttributeInfo::new();
    let (items, complete) = it.next(1);
    assert!(complete);
    assert_eq!(items.len(), 1);
    assert_eq!(items[0].guid, GUID_DISPLAY_ATTRIBUTE_INPUT);
    let (items, complete) = it.next(5);
    assert!(!complete);
    assert_eq!(items.len(), 1);
    assert_eq!(items[0].guid, GUID_DISPLAY_ATTRIBUTE_CONVERTED);
    let (items, complete) = it.next(1);
    assert!(!complete);
    assert_eq!(items.len(), 0);
}

#[test]
fn enumerator_resets_and_skips_one() {
    let mut it = EnumDisplayAttributeInfo::new();
    let (both, complete) = it.next(2);
    assert!(complete);
    assert_eq!(both.len(), 2);
    it.reset();
    assert_eq!(it.index, 0);
    it.skip(3);
    assert_eq!(it.index, 1);
    it.skip(3);
    assert_eq!(it.index, 1);
    it.skip(0);
    assert_eq!(it.index, 1);
}

#[test]
fn service_answers_descriptor_queries() {
    let service = TextService::new();
    let it = service.enum_display_attribute_info();
    assert_eq!(it.index, 0);
    let info = service.get_display_attribute_info(GUID_DISPLAY_ATTRIBUTE_INPUT);
    assert!(info.is_some());
    assert_eq!(info.unwrap().guid, GUID_DISPLAY_ATTRIBUTE_INPUT);
    assert!(service.get_display_attribute_info(0x1234).is_none());
}
