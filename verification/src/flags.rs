//! The native flag constants and the bitmask an append call is made of.
//!
//! The native append call takes one flag word that is the union of an item
//! kind (string or separator), a status (enabled, disabled, grayed), a check
//! mark (checked, unchecked), and, when the item opens a submenu, the popup
//! bit. The values are the platform's published menu constants.

use vstd::prelude::*;
use crate::menu::MenuCheck;
use crate::menu::MenuStatus;

verus! {

/// Native flag: the item carries a text label.
pub const MF_STRING: u32 = 0x0000;
/// Native flag: the item is a horizontal separator.
pub const MF_SEPARATOR: u32 = 0x0800;
/// Native flag: the item's payload is a submenu handle.
pub const MF_POPUP: u32 = 0x0010;
/// Native flag: the item can be selected.
pub const MF_ENABLED: u32 = 0x0000;
/// Native flag: the item cannot be selected.
pub const MF_DISABLED: u32 = 0x0002;
/// Native flag: the item is shown dimmed and cannot be selected.
pub const MF_GRAYED: u32 = 0x0001;
/// Native flag: the item carries a check mark.
pub const MF_CHECKED: u32 = 0x0008;
/// Native flag: the item carries no check mark.
pub const MF_UNCHECKED: u32 = 0x0000;
/// Native flag for the modal tracking call: return the chosen command
/// identifier instead of posting it as a message.
pub const TPM_RETURNCMD: u32 = 0x0100;

/// The flag bits contributed by the item's status.
pub open spec fn spec_status_flag(status: MenuStatus) -> u32 {
    match status {
        MenuStatus::Enabled => MF_ENABLED,
        MenuStatus::Disabled => MF_DISABLED,
        MenuStatus::Grayed => MF_GRAYED,
    }
}

/// The flag bits contributed by the item's check mark.
pub open spec fn spec_check_flag(check: MenuCheck) -> u32 {
    match check {
        MenuCheck::Checked => MF_CHECKED,
        MenuCheck::Unchecked => MF_UNCHECKED,
    }
}

/// The flag bits contributed by the item's kind.
pub open spec fn spec_item_flag(is_string: bool) -> u32 {
    if is_string {
        MF_STRING
    } else {
        MF_SEPARATOR
    }
}

/// The flag bits contributed by the action: the popup bit exactly when the
/// payload is a submenu handle.
pub open spec fn spec_popup_flag(is_child: bool) -> u32 {
    if is_child {
        MF_POPUP
    } else {
        0
    }
}

/// The whole flag word of one append call: item kind, popup bit, status and
/// check mark, united.
pub open spec fn spec_append_flags(
    is_string: bool,
    is_child: bool,
    status: MenuStatus,
    check: MenuCheck,
) -> u32 {
    spec_item_flag(is_string) | spec_popup_flag(is_child) | spec_status_flag(status)
        | spec_check_flag(check)
}

/// Maps a status to its native flag bits.
pub fn status_flag(status: &MenuStatus) -> (f: u32)
    ensures
        f == spec_status_flag(*status),
{
    match status {
        MenuStatus::Enabled => MF_ENABLED,
        MenuStatus::Disabled => MF_DISABLED,
        MenuStatus::Grayed => MF_GRAYED,
    }
}

/// Maps a check mark to its native flag bits.
pub fn check_flag(check: &MenuCheck) -> (f: u32)
    ensures
        f == spec_check_flag(*check),
{
    match check {
        MenuCheck::Checked => MF_CHECKED,
        MenuCheck::Unchecked => MF_UNCHECKED,
    }
}

/// Builds the whole flag word of one append call.
pub fn append_flags(is_string: bool, is_child: bool, status: &MenuStatus, check: &MenuCheck) -> (f:
    u32)
    ensures
        f == spec_append_flags(is_string, is_child, *status, *check),
{
    let item: u32 = if is_string {
        MF_STRING
    } else {
        MF_SEPARATOR
    };
    let popup: u32 = if is_child {
        MF_POPUP
    } else {
        0
    };
    item | popup | status_flag(status) | check_flag(check)
}

} // verus!
