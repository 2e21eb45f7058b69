//! The popup menu: a handle wrapper that can additionally be displayed as a
//! modal context menu at a screen position.

use vstd::prelude::*;
use crate::error::OsError;
use crate::flags::TPM_RETURNCMD;
use crate::flags::spec_append_flags;
use crate::menu::AppendCall;
use crate::menu::DestroyCall;
use crate::menu::Menu;
use crate::menu::MenuAction;
use crate::menu::MenuCheck;
use crate::menu::MenuItem;
use crate::menu::MenuStatus;
use crate::menu::entry_of;
use crate::menu::spec_payload;
use crate::model::EntryModel;
use crate::model::MenuModel;
use crate::wide::wide_of;

verus! {

/// The native modal tracking call, ready to perform: which menu to show,
/// where, over which window, and with which tracking flags.
pub struct TrackCall {
    pub menu: usize,
    pub flags: u32,
    pub x: i32,
    pub y: i32,
    pub window: usize,
}

/// The two-step native interaction one display consists of: first force
/// `window` to the foreground; only if that succeeded, perform the
/// tracking call.
pub struct DisplayRequest {
    pub window: usize,
    pub track: TrackCall,
}

/// A popup menu: a menu handle wrapper that can be displayed at a screen
/// position.
pub struct PopupMenu(Menu);

impl View for PopupMenu {
    type V = MenuModel;

    closed spec fn view(&self) -> MenuModel {
        self.0@
    }
}

impl PopupMenu {
    /// Interprets the outcome of the native create-popup-menu call: a null
    /// handle is failure carrying the platform's last error; any other
    /// handle becomes a wrapper of a fresh, empty menu.
    pub fn new(handle: usize, last_error: u32) -> (r: Result<PopupMenu, OsError>)
        ensures
            handle == 0 ==> r == Err::<PopupMenu, OsError>(OsError { code: last_error }),
            handle != 0 ==> (r matches Ok(p) && p@.handle == handle && p@.entries == Seq::<
                EntryModel,
            >::empty()),
    {
        if handle == 0 {
            return Err(OsError { code: last_error });
        }
        Ok(PopupMenu(Menu::from_raw(handle)))
    }

    /// Builds the two-step display interaction anchored at `(x, y)` over
    /// `window`: bring the window to the foreground, then track this menu
    /// modally, asking for the chosen command identifier as return value.
    pub fn display(&self, window: usize, x: i32, y: i32) -> (req: DisplayRequest)
        ensures
            req.window == window,
            req.track.menu == self@.handle,
            req.track.flags == TPM_RETURNCMD,
            req.track.x == x,
            req.track.y == y,
            req.track.window == window,
    {
        DisplayRequest {
            window,
            track: TrackCall { menu: self.0.as_raw(), flags: TPM_RETURNCMD, x, y, window },
        }
    }

    /// Extracts the generic wrapper, ownership and contents unchanged; used
    /// when the popup is promoted to a submenu of another menu.
    pub fn into_inner(self) -> (m: Menu)
        ensures
            m@ == self@,
    {
        self.0
    }

    /// Read-only access to the native handle; ownership stays.
    pub fn as_raw(&self) -> (h: usize)
        ensures
            h == self@.handle,
    {
        self.0.as_raw()
    }

    /// Builds the native append call for one entry of this popup menu; see
    /// `Menu::append`.
    pub fn append<'a>(
        &self,
        item: MenuItem<'a>,
        action: MenuAction,
        status: MenuStatus,
        check: MenuCheck,
    ) -> (call: AppendCall)
        ensures
            call.menu == self@.handle,
            call.flags == spec_append_flags(item is String, action is ChildMenu, status, check),
            call.payload == spec_payload(action),
            call.entry@ == entry_of(item, action, status, check),
            (item matches MenuItem::String(s) ==> call.text matches Some(t) && t@ == wide_of(
                s@,
            ).push(0u16)),
            (item is Separator ==> call.text is None),
    {
        self.0.append(item, action, status, check)
    }

    /// Interprets the outcome of one performed append call; see
    /// `Menu::append_outcome`.
    pub fn append_outcome(&mut self, call: &AppendCall, ret: u32, last_error: u32) -> (r: Result<
        (),
        OsError,
    >)
        requires
            call.menu == old(self)@.handle,
        ensures
            final(self)@.handle == old(self)@.handle,
            ret != 0 ==> r == Ok::<(), OsError>(())
                && final(self)@.entries == old(self)@.entries.push(call.entry@),
            ret == 0 ==> r == Err::<(), OsError>(OsError { code: last_error })
                && final(self)@.entries == old(self)@.entries,
    {
        self.0.append_outcome(call, ret, last_error)
    }

    /// Ends ownership by destruction; see `Menu::release`.
    pub fn release(self) -> (d: DestroyCall)
        ensures
            d.handle == self@.handle,
    {
        self.0.release()
    }
}

/// Interprets the outcome of the foreground step of a display: a zero
/// return is failure carrying the platform's last error; the tracking call
/// may be performed only after success.
pub fn foreground_outcome(ret: u32, last_error: u32) -> (r: Result<(), OsError>)
    ensures
        ret == 0 ==> r == Err::<(), OsError>(OsError { code: last_error }),
        ret != 0 ==> r == Ok::<(), OsError>(()),
{
    if ret == 0 {
        Err(OsError { code: last_error })
    } else {
        Ok(())
    }
}

/// Interprets the outcome of the modal tracking call. A zero return is
/// ambiguous by design of the native call: with a non-zero last error it is
/// a genuine failure; with a zero last error it means the menu was
/// dismissed with nothing chosen. Any other return is the chosen entry's
/// command identifier, of which the native call hands back the low 16 bits.
pub fn track_outcome(ret: u32, last_error: u32) -> (r: Result<u16, OsError>)
    ensures
        ret == 0 && last_error != 0 ==> r == Err::<u16, OsError>(OsError { code: last_error }),
        !(ret == 0 && last_error != 0) ==> r == Ok::<u16, OsError>((ret % 0x10000) as u16),
{
    if ret == 0 && last_error != 0 {
        Err(OsError { code: last_error })
    } else {
        Ok((ret % 0x10000) as u16)
    }
}

} // verus!
