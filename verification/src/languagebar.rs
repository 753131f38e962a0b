//! The language-bar button: the one UI affordance the session installs.
//! It answers the host's item queries, builds its menu from the keyboard
//! state, toggles the open/closed state from its menu, and accepts exactly
//! one item sink at a time under one fixed cookie.

use vstd::prelude::*;
use crate::globals::CLSID_TEXT_SERVICE;
use crate::globals::GUID_LANGBAR_ITEM_BUTTON;
use crate::globals::LANGBAR_ITEM_DESC;

verus! {

/// The fixed cookie handed out for the single language-bar item sink.
pub const TEXTSERVICE_LANGBARITEMSINK_COOKIE: u32 = 0x0fab0fab;

/// Interface identity of the language-bar item sink.
pub const IID_ITF_LANGBAR_ITEM_SINK: u128 = 0x57dbe1a0_de25_11d2_afdd_00105a2799b5;

/// Style flag: the item is a button with a menu.
pub const TF_LBI_STYLE_BTN_MENU: u32 = 0x00020000;

/// Menu item flag: shown checked.
pub const TF_LBMENUF_CHECKED: u32 = 0x1;

/// Menu item flag: shown grayed.
pub const TF_LBMENUF_GRAYED: u32 = 0x10;

/// Identifier of the first plain menu item.
pub const MENUITEM_INDEX_0: u32 = 0;

/// Identifier of the second plain menu item.
pub const MENUITEM_INDEX_1: u32 = 1;

/// Identifier of the open/close menu item.
pub const MENUITEM_INDEX_OPENCLOSE: u32 = 2;

/// Why a sink connection request was refused.
#[derive(Clone, Copy, PartialEq, Eq, Structural, Debug)]
pub enum LangBarSinkError {
    /// The requested interface is not the item sink interface.
    CannotConnect,
    /// A sink is already connected; only one is supported.
    AdviseLimit,
    /// The offered object does not provide the sink interface.
    NoInterface,
    /// No connection exists under the given cookie.
    NoConnection,
}

/// Static description of the language-bar item, as the host queries it.
pub struct LangBarItemInfo {
    /// The text service the item belongs to.
    pub clsid_service: u128,
    /// Identity of the item itself.
    pub guid_item: u128,
    /// Style flags of the item.
    pub style: u32,
    /// Sort position; zero leaves it unspecified.
    pub sort: u32,
    /// Human-readable description.
    pub description: &'static str,
}

/// The flags of the open/close menu item: grayed while the keyboard is
/// disabled, checked while it is open.
pub open spec fn spec_openclose_menu_flags(disabled: bool, open: bool) -> u32 {
    if disabled {
        TF_LBMENUF_GRAYED
    } else if open {
        TF_LBMENUF_CHECKED
    } else {
        0
    }
}

/// One item of the button's menu.
pub struct LangBarMenuItem {
    /// Identifier reported back on selection.
    pub id: u32,
    /// Display flags of the item.
    pub flags: u32,
    /// Human-readable description.
    pub description: &'static str,
}

/// The language-bar button.  Its only state is the one optional item sink
/// connection.
pub struct LangBarItemButton {
    /// Whether an item sink is connected.
    pub sink_advised: bool,
}

impl LangBarItemButton {
    /// A fresh button with no sink connected.
    pub fn new() -> (r: LangBarItemButton)
        ensures
            !r.sink_advised,
    {
        LangBarItemButton { sink_advised: false }
    }

    /// The item's static description.
    pub fn get_info(&self) -> (info: LangBarItemInfo)
        ensures
            info.clsid_service == CLSID_TEXT_SERVICE,
            info.guid_item == GUID_LANGBAR_ITEM_BUTTON,
            info.style == TF_LBI_STYLE_BTN_MENU,
            info.sort == 0,
            info.description@ == LANGBAR_ITEM_DESC@,
    {
        LangBarItemInfo {
            clsid_service: CLSID_TEXT_SERVICE,
            guid_item: GUID_LANGBAR_ITEM_BUTTON,
            style: TF_LBI_STYLE_BTN_MENU,
            sort: 0,
            description: LANGBAR_ITEM_DESC,
        }
    }

    /// The item's status flags; this button reports none.
    pub fn get_status(&self) -> (status: u32)
        ensures
            status == 0,
    {
        0
    }

    /// The item's tooltip and button text.
    pub fn get_text(&self) -> (text: &'static str)
        ensures
            text@ == LANGBAR_ITEM_DESC@,
    {
        LANGBAR_ITEM_DESC
    }

    /// The flags to build the open/close menu item with, from the keyboard
    /// state read at menu time.
    pub fn init_menu_openclose_flags(&self, disabled: bool, open: bool) -> (flags: u32)
        ensures
            flags == spec_openclose_menu_flags(disabled, open),
    {
        if disabled {
            TF_LBMENUF_GRAYED
        } else if open {
            TF_LBMENUF_CHECKED
        } else {
            0
        }
    }

    /// The menu the button opens with: the two plain items, then the
    /// open/close item carrying the flags the keyboard state dictates.
    pub fn init_menu(&self, disabled: bool, open: bool) -> (items: Vec<LangBarMenuItem>)
        ensures
            items@.len() == 3,
            items@[0].id == MENUITEM_INDEX_0 && items@[0].flags == 0 && items@[0].description@
                == "Menu Item Description 0"@,
            items@[1].id == MENUITEM_INDEX_1 && items@[1].flags == 0 && items@[1].description@
                == "Menu Item Description 1"@,
            items@[2].id == MENUITEM_INDEX_OPENCLOSE,
            items@[2].flags == spec_openclose_menu_flags(disabled, open),
            items@[2].description@ == "Open"@,
    {
        let mut items: Vec<LangBarMenuItem> = Vec::new();
        items.push(
            LangBarMenuItem { id: MENUITEM_INDEX_0, flags: 0, description: "Menu Item Description 0" },
        );
        items.push(
            LangBarMenuItem { id: MENUITEM_INDEX_1, flags: 0, description: "Menu Item Description 1" },
        );
        let flags = self.init_menu_openclose_flags(disabled, open);
        items.push(LangBarMenuItem { id: MENUITEM_INDEX_OPENCLOSE, flags, description: "Open" });
        items
    }

    /// Menu selection: choosing the open/close item flips the open/closed
    /// toggle; the other items do nothing.  Returns the new toggle value
    /// to write, if any.
    pub fn on_menu_select(&self, wid: u32, open: bool) -> (toggle: Option<bool>)
        ensures
            toggle == (if wid == MENUITEM_INDEX_OPENCLOSE {
                Some(!open)
            } else {
                None::<bool>
            }),
    {
        if wid == MENUITEM_INDEX_OPENCLOSE {
            Some(!open)
        } else {
            None
        }
    }

    /// Connects an item sink: only the item sink interface is accepted,
    /// only one sink at a time, and only an object that actually provides
    /// the interface (`provides_sink`).  On success the fixed cookie is
    /// returned.
    pub fn advise_sink(&mut self, iid: u128, provides_sink: bool) -> (r: Result<
        u32,
        LangBarSinkError,
    >)
        ensures
            iid != IID_ITF_LANGBAR_ITEM_SINK ==> r == Err::<u32, LangBarSinkError>(
                LangBarSinkError::CannotConnect,
            ) && final(self).sink_advised == old(self).sink_advised,
            iid == IID_ITF_LANGBAR_ITEM_SINK && old(self).sink_advised ==> r == Err::<
                u32,
                LangBarSinkError,
            >(LangBarSinkError::AdviseLimit) && final(self).sink_advised,
            iid == IID_ITF_LANGBAR_ITEM_SINK && !old(self).sink_advised && !provides_sink ==> r
                == Err::<u32, LangBarSinkError>(LangBarSinkError::NoInterface)
                && !final(self).sink_advised,
            iid == IID_ITF_LANGBAR_ITEM_SINK && !old(self).sink_advised && provides_sink ==> r
                == Ok::<u32, LangBarSinkError>(TEXTSERVICE_LANGBARITEMSINK_COOKIE)
                && final(self).sink_advised,
    {
        if iid != IID_ITF_LANGBAR_ITEM_SINK {
            return Err(LangBarSinkError::CannotConnect);
        }
        if self.sink_advised {
            return Err(LangBarSinkError::AdviseLimit);
        }
        if !provides_sink {
            self.sink_advised = false;
            return Err(LangBarSinkError::NoInterface);
        }
        self.sink_advised = true;
        Ok(TEXTSERVICE_LANGBARITEMSINK_COOKIE)
    }

    /// Disconnects the item sink: the cookie must be the one handed out
    /// and a sink must be connected; releasing twice fails, so the
    /// connection is released exactly once.
    pub fn unadvise_sink(&mut self, cookie: u32) -> (r: Result<(), LangBarSinkError>)
        ensures
            cookie != TEXTSERVICE_LANGBARITEMSINK_COOKIE ==> r == Err::<(), LangBarSinkError>(
                LangBarSinkError::NoConnection,
            ) && final(self).sink_advised == old(self).sink_advised,
            cookie == TEXTSERVICE_LANGBARITEMSINK_COOKIE && !old(self).sink_advised ==> r == Err::<
                (),
                LangBarSinkError,
            >(LangBarSinkError::NoConnection) && !final(self).sink_advised,
            cookie == TEXTSERVICE_LANGBARITEMSINK_COOKIE && old(self).sink_advised ==> r == Ok::<
                (),
                LangBarSinkError,
            >(()) && !final(self).sink_advised,
    {
        if cookie != TEXTSERVICE_LANGBARITEMSINK_COOKIE {
            return Err(LangBarSinkError::NoConnection);
        }
        if !self.sink_advised {
            return Err(LangBarSinkError::NoConnection);
        }
        self.sink_advised = false;
        Ok(())
    }
}

} // verus!
