//! The menu bar: a handle wrapper meant to be attached to a window's title
//! bar. Attachment itself is the window system's business; handing the
//! handle over goes through `into_raw`, which transfers ownership.

use vstd::prelude::*;
use crate::error::OsError;
use crate::flags::spec_append_flags;
use crate::menu::AppendCall;
use crate::menu::DestroyCall;
use crate::menu::Menu;
use crate::menu::MenuAction;
use crate::menu::MenuCheck;
use crate::menu::MenuItem;
use crate::menu::MenuStatus;
use crate::menu::entry_of;
use crate::menu::spec_payload;
use crate::model::EntryModel;
use crate::model::MenuModel;
use crate::wide::wide_of;

verus! {

/// A menu bar: a menu handle wrapper for title-bar attachment.
pub struct MenuBar(Menu);

impl View for MenuBar {
    type V = MenuModel;

    closed spec fn view(&self) -> MenuModel {
        self.0@
    }
}

impl MenuBar {
    /// Interprets the outcome of the native create-menu call: a null handle
    /// is failure carrying the platform's last error; any other handle
    /// becomes a wrapper of a fresh, empty menu bar.
    pub fn new(handle: usize, last_error: u32) -> (r: Result<MenuBar, OsError>)
        ensures
            handle == 0 ==> r == Err::<MenuBar, OsError>(OsError { code: last_error }),
            handle != 0 ==> (r matches Ok(b) && b@.handle == handle && b@.entries == Seq::<
                EntryModel,
            >::empty()),
    {
        if handle == 0 {
            return Err(OsError { code: last_error });
        }
        Ok(MenuBar(Menu::from_raw(handle)))
    }

    /// Read-only access to the native handle; ownership stays.
    pub fn as_raw(&self) -> (h: usize)
        ensures
            h == self@.handle,
    {
        self.0.as_raw()
    }

    /// Consumes the bar and hands the native handle out without a destroy:
    /// used when the bar is attached to a window, whose window system then
    /// owns and destroys it.
    pub fn into_raw(self) -> (h: usize)
        ensures
            h == self@.handle,
    {
        self.0.into_raw()
    }

    /// Builds the native append call for one entry of this bar; see
    /// `Menu::append`.
    pub fn append<'a>(
        &self,
        item: MenuItem<'a>,
        action: MenuAction,
        status: MenuStatus,
        check: MenuCheck,
    ) -> (call: AppendCall)
        ensures
            call.menu == self@.handle,
            call.flags == spec_append_flags(item is String, action is ChildMenu, status, check),
            call.payload == spec_payload(action),
            call.entry@ == entry_of(item, action, status, check),
            (item matches MenuItem::String(s) ==> call.text matches Some(t) && t@ == wide_of(
                s@,
            ).push(0u16)),
            (item is Separator ==> call.text is None),
    {
        self.0.append(item, action, status, check)
    }

    /// Interprets the outcome of one performed append call; see
    /// `Menu::append_outcome`.
    pub fn append_outcome(&mut self, call: &AppendCall, ret: u32, last_error: u32) -> (r: Result<
        (),
        OsError,
    >)
        requires
            call.menu == old(self)@.handle,
        ensures
            final(self)@.handle == old(self)@.handle,
            ret != 0 ==> r == Ok::<(), OsError>(())
                && final(self)@.entries == old(self)@.entries.push(call.entry@),
            ret == 0 ==> r == Err::<(), OsError>(OsError { code: last_error })
                && final(self)@.entries == old(self)@.entries,
    {
        self.0.append_outcome(call, ret, last_error)
    }

    /// Ends ownership by destruction; see `Menu::release`.
    pub fn release(self) -> (d: DestroyCall)
        ensures
            d.handle == self@.handle,
    {
        self.0.release()
    }
}

} // verus!
