//! The generic menu handle wrapper: it owns one native menu handle, builds
//! the native append call for each item, and ends its ownership either by
//! destruction or by transferring the handle away.

use vstd::prelude::*;
use crate::error::OsError;
use crate::flags::spec_append_flags;
use crate::flags::append_flags;
use crate::model::ActionModel;
use crate::model::EntryModel;
use crate::model::ItemModel;
use crate::model::MenuModel;
use crate::popup::PopupMenu;
use crate::wide::to_wide_null;
use crate::wide::wide_of;

verus! {

/// What one appended entry shows: a text label, or a horizontal separator.
pub enum MenuItem<'a> {
    String(&'a str),
    Separator,
}

/// Whether an entry can be selected; the three states are mutually
/// exclusive in the native flag word.
pub enum MenuStatus {
    Enabled,
    Disabled,
    Grayed,
}

/// Whether an entry carries a check mark.
pub enum MenuCheck {
    Checked,
    Unchecked,
}

/// What selecting an entry does: report a command identifier, or open a
/// child menu. Embedding a child consumes it: the child's handle ownership
/// passes to the parent menu with the append call.
pub enum MenuAction {
    Id(u16),
    ChildMenu(PopupMenu),
}

/// The modelled entry one append call with these parameters puts into the
/// menu.
pub open spec fn entry_of<'a>(
    item: MenuItem<'a>,
    action: MenuAction,
    status: MenuStatus,
    check: MenuCheck,
) -> EntryModel {
    EntryModel {
        item: match item {
            MenuItem::String(s) => ItemModel::Text(s@),
            MenuItem::Separator => ItemModel::Separator,
        },
        action: match action {
            MenuAction::Id(n) => ActionModel::Id(n),
            MenuAction::ChildMenu(p) => ActionModel::Submenu {
                handle: p@.handle,
                entries: p@.entries,
            },
        },
        status,
        check,
    }
}

/// The numeric payload the native append call takes: the plain identifier,
/// or the embedded child's handle.
pub open spec fn spec_payload(action: MenuAction) -> usize {
    match action {
        MenuAction::Id(n) => n as usize,
        MenuAction::ChildMenu(p) => p@.handle,
    }
}

/// One native append call, ready to perform: the parent handle, the flag
/// word, the numeric payload, and the null-terminated wide text for string
/// items. `entry` is the modelled entry the call appends on success.
pub struct AppendCall {
    pub menu: usize,
    pub flags: u32,
    pub payload: usize,
    pub text: Option<Vec<u16>>,
    pub entry: Ghost<EntryModel>,
}

/// The one native destroy call for a handle. Obtaining it consumes the
/// wrapper, so it can be obtained at most once per handle.
pub struct DestroyCall {
    pub handle: usize,
}

/// A wrapper that exclusively owns one native menu handle.
pub struct Menu {
    handle: usize,
    entries: Ghost<Seq<EntryModel>>,
}

impl View for Menu {
    type V = MenuModel;

    closed spec fn view(&self) -> MenuModel {
        MenuModel { handle: self.handle, entries: self.entries@ }
    }
}

impl Menu {
    /// Wraps a freshly created native handle: one that is valid, owned by
    /// nobody else, and whose menu holds no items yet.
    pub(crate) fn from_raw(handle: usize) -> (m: Menu)
        requires
            handle != 0,
        ensures
            m@.handle == handle,
            m@.entries == Seq::<EntryModel>::empty(),
    {
        Menu { handle, entries: Ghost(Seq::empty()) }
    }

    /// Read-only access to the native handle for interop with native calls;
    /// ownership stays with the wrapper.
    pub fn as_raw(&self) -> (h: usize)
        ensures
            h == self@.handle,
    {
        self.handle
    }

    /// Consumes the wrapper and hands the native handle out without a
    /// destroy: the one way to transfer ownership, used when the menu is
    /// embedded as a submenu or attached to a window. No destroy command
    /// can be obtained from the wrapper afterwards.
    pub fn into_raw(self) -> (h: usize)
        ensures
            h == self@.handle,
    {
        self.handle
    }

    /// Builds the native append call for one entry. A string item's text is
    /// encoded as null-terminated wide characters; a child menu is consumed
    /// here, its handle becoming the payload and the popup bit joining the
    /// flag word.
    pub fn append<'a>(
        &self,
        item: MenuItem<'a>,
        action: MenuAction,
        status: MenuStatus,
        check: MenuCheck,
    ) -> (call: AppendCall)
        ensures
            call.menu == self@.handle,
            call.flags == spec_append_flags(item is String, action is ChildMenu, status, check),
            call.payload == spec_payload(action),
            call.entry@ == entry_of(item, action, status, check),
            (item matches MenuItem::String(s) ==> call.text matches Some(t) && t@ == wide_of(
                s@,
            ).push(0u16)),
            (item is Separator ==> call.text is None),
    {
        let ghost entry = entry_of(item, action, status, check);
        let is_string: bool = matches!(item, MenuItem::String(_));
        let text: Option<Vec<u16>> = match &item {
            MenuItem::String(s) => Some(to_wide_null(s)),
            MenuItem::Separator => None,
        };
        let is_child: bool = matches!(action, MenuAction::ChildMenu(_));
        let payload: usize = match action {
            MenuAction::Id(n) => n as usize,
            MenuAction::ChildMenu(child) => child.into_inner().into_raw(),
        };
        let flags: u32 = append_flags(is_string, is_child, &status, &check);
        AppendCall { menu: self.handle, flags, payload, text, entry: Ghost(entry) }
    }

    /// Interprets the outcome of one performed append call: a zero return
    /// is failure carrying the platform's last error and leaves the menu as
    /// it was; any other return appended the entry after all earlier ones.
    pub fn append_outcome(&mut self, call: &AppendCall, ret: u32, last_error: u32) -> (r: Result<
        (),
        OsError,
    >)
        requires
            call.menu == old(self)@.handle,
        ensures
            final(self)@.handle == old(self)@.handle,
            ret != 0 ==> r == Ok::<(), OsError>(())
                && final(self)@.entries == old(self)@.entries.push(call.entry@),
            ret == 0 ==> r == Err::<(), OsError>(OsError { code: last_error })
                && final(self)@.entries == old(self)@.entries,
    {
        if ret == 0 {
            Err(OsError { code: last_error })
        } else {
            self.entries = Ghost(self.entries@.push(call.entry@));
            Ok(())
        }
    }

    /// Ends ownership by destruction: consumes the wrapper and yields the
    /// one destroy command for its handle. Because the wrapper is consumed,
    /// no second destroy command and no further use of the handle can come
    /// from it.
    pub fn release(self) -> (d: DestroyCall)
        ensures
            d.handle == self@.handle,
    {
        DestroyCall { handle: self.handle }
    }
}

} // verus!
