//! Identity constants of this text service: the class and profile
//! identities it registers under, the identities of its two display
//! attributes and of its language-bar button, and the interface identities
//! it answers to.  Each is a 128-bit GUID value held as one integer.

use vstd::prelude::*;

verus! {

/// Class identity of the text service itself.
pub const CLSID_TEXT_SERVICE: u128 = 0xe7ea138e_69f8_11d7_a6ea_00065b84435c;

/// Identity of the language profile the service registers.
pub const GUID_PROFILE: u128 = 0xe7ea138f_69f8_11d7_a6ea_00065b84435c;

/// Identity of the language-bar button item.
pub const GUID_LANGBAR_ITEM_BUTTON: u128 = 0x41f46e67_86d5_49fb_a1d9_3dc0941a66a3;

/// Identity of the Input display attribute.
pub const GUID_DISPLAY_ATTRIBUTE_INPUT: u128 = 0x4e1aa3fe_6c7f_11d7_a6ec_00065b84435c;

/// Identity of the Converted display attribute.
pub const GUID_DISPLAY_ATTRIBUTE_CONVERTED: u128 = 0x4e1aa3ff_6c7f_11d7_a6ec_00065b84435c;

/// Interface identity of the host's class-factory interface.
pub const IID_ICLASSFACTORY: u128 = 0x00000001_0000_0000_c000_000000000046;

/// Interface identity of the base unknown interface.
pub const IID_IUNKNOWN: u128 = 0x00000000_0000_0000_c000_000000000046;

/// Interface identity of the text-input-processor interface the service
/// implements for the host.
pub const IID_ITF_TEXT_INPUT_PROCESSOR: u128 = 0xaa80e7f7_2021_11d2_93e0_0060b067b86e;

/// Human-readable description of the text service.
pub const TEXTSERVICE_DESC: &'static str = "Sample Text Service";

/// Language identifier of the profile.
pub const TEXTSERVICE_LANGID: u16 = 0x0411;

/// Icon index of the profile.
pub const TEXTSERVICE_ICON_INDEX: u32 = 0;

/// Human-readable description of the language-bar button.
pub const LANGBAR_ITEM_DESC: &'static str = "Sample Text Service Button";

/// The null client identifier: no client id has been issued.
pub const TF_CLIENTID_NULL: u32 = 0;

} // verus!
