use text_service::factory::ClassFactory;
use text_service::factory::ClassObjectOutcome;
use text_service::factory::CreateInstanceOutcome;
use text_service::factory::class_object_outcome;
use text_service::globals::CLSID_TEXT_SERVICE;
use text_service::globals::IID_ICLASSFACTORY;
use text_service::globals::IID_ITF_TEXT_INPUT_PROCESSOR;
use text_service::globals::IID_IUNKNOWN;
use text_service::languagebar::IID_ITF_LANGBAR_ITEM_SINK;
use text_service::languagebar::LangBarItemButton;
use text_service::languagebar::LangBarSinkError;
use text_service::languagebar::MENUITEM_INDEX_0;
use text_service::languagebar::MENUITEM_INDEX_OPENCLOSE;
use text_service::languagebar::TEXTSERVICE_LANGBARITEMSINK_COOKIE;
use text_service::languagebar::TF_LBMENUF_CHECKED;
use text_service::languagebar::TF_LBMENUF_GRAYED;

#[test]
fn class_object_is_served_only_for_the_factory_interface() {
    assert_eq!(
        class_object_outcome(CLSID_TEXT_SERVICE, IID_ICLASSFACTORY),
        ClassObjectOutcome::Factory
    );
    assert_eq!(
        class_object_outcome(CLSID_TEXT_SERVICE, IID_IUNKNOWN),
        ClassObjectOutcome::UnexpectedInterface
    );
    assert_eq!(
        class_object_outcome(0x1234, IID_ICLASSFACTORY),
        ClassObjectOutcome::ClassNotAvailable
    );
}

#[test]
fn instances_refuse_aggregation_and_foreign_interfaces() {
    let factory = ClassFactory::new();
    assert_eq!(
        factory.create_instance_outcome(true, IID_ITF_TEXT_INPUT_PROCESSOR),
        CreateInstanceOutcome::NoAggregation
    );
    assert_eq!(
        factory.create_instance_outcome(false, IID_ITF_TEXT_INPUT_PROCESSOR),
        CreateInstanceOutcome::Created
    );
    assert_eq!(
        factory.create_instance_outcome(false, IID_IUNKNOWN),
        CreateInstanceOutcome::NoInterface
    );
}

#[test]
fn langbar_sink_connects_once_under_the_fixed_cookie() {
    let mut button = LangBarItemButton::new();
    assert_eq!(
        button.advise_sink(IID_IUNKNOWN, true),
        Err(LangBarSinkError::CannotConnect)
    );
    assert_eq!(
        button.advise_sink(IID_ITF_LANGBAR_ITEM_SINK, true),
        Ok(TEXTSERVICE_LANGBARITEMSINK_COOKIE)
    );
    assert_eq!(
        button.advise_sink(IID_ITF_LANGBAR_ITEM_SINK, true),
        Err(LangBarSinkError::AdviseLimit)
    );
}

#[test]
fn langbar_sink_without_the_interface_is_refused() {
    let mut button = LangBarItemButton::new();
    assert_eq!(
        button.advise_sink(IID_ITF_LANGBAR_ITEM_SINK, false),
        Err(LangBarSinkError::NoInterface)
    );
    assert!(!button.sink_advised);
}

#[test]
fn langbar_sink_disconnects_exactly_once() {
    let mut button = LangBarItemButton::new();
    assert_eq!(
        button.advise_sink(IID_ITF_LANGBAR_ITEM_SINK, true),
        Ok(TEXTSERVICE_LANGBARITEMSINK_COOKIE)
    );
    assert_eq!(button.unadvise_sink(0xdead), Err(LangBarSinkError::NoConnection));
    assert_eq!(button.unadvise_sink(TEXTSERVICE_LANGBARITEMSINK_COOKIE), Ok(()));
    assert_eq!(
        button.unadvise_sink(TEXTSERVICE_LANGBARITEMSINK_COOKIE),
        Err(LangBarSinkError::NoConnection)
    );
}

#[test]
fn langbar_menu_reflects_the_keyboard_state() {
    let button = LangBarItemButton::new();
    assert_eq!(button.init_menu_openclose_flags(true, true), TF_LBMENUF_GRAYED);
    assert_eq!(button.init_menu_openclose_flags(true, false), TF_LBMENUF_GRAYED);
    assert_eq!(button.init_menu_openclose_flags(false, true), TF_LBMENUF_CHECKED);
    assert_eq!(button.init_menu_openclose_flags(false, false), 0);
}

#[test]
fn langbar_menu_selection_flips_only_the_openclose_item() {
    let button = LangBarItemButton::new();
    assert_eq!(button.on_menu_select(MENUITEM_INDEX_OPENCLOSE, true), Some(false));
    assert_eq!(button.on_menu_select(MENUITEM_INDEX_OPENCLOSE, false), Some(true));
    assert_eq!(button.on_menu_select(MENUITEM_INDEX_0, true), None);
}

#[test]
fn langbar_menu_lists_three_items() {
    let button = LangBarItemButton::new();
    let items = button.init_menu(false, true);
    assert_eq!(items.len(), 3);
    assert_eq!((items[0].id, items[0].flags), (0, 0));
    assert_eq!(items[0].description, "Menu Item Description 0");
    assert_eq!((items[1].id, items[1].flags), (1, 0));
    assert_eq!(
        (items[2].id, items[2].flags, items[2].description),
        (MENUITEM_INDEX_OPENCLOSE, TF_LBMENUF_CHECKED, "Open")
    );
    let grayed = button.init_menu(true, true);
    assert_eq!(grayed[2].flags, TF_LBMENUF_GRAYED);
}

#[test]
fn langbar_item_description() {
    let button = LangBarItemButton::new();
    let info = button.get_info();
    assert_eq!(info.clsid_service, CLSID_TEXT_SERVICE);
    assert_eq!(info.description, "Sample Text Service Button");
    assert_eq!(button.get_status(), 0);
    assert_eq!(button.get_text(), "Sample Text Service Button");
}
