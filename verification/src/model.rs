//! The mathematical model the contracts speak of: what a native menu
//! contains, and the ownership states one handle can pass through.

use vstd::prelude::*;
use crate::menu::MenuCheck;
use crate::menu::MenuStatus;

verus! {

/// The label of one modelled entry.
pub ghost enum ItemModel {
    Text(Seq<char>),
    Separator,
}

/// What selecting one modelled entry does: report a command identifier, or
/// open a submenu (modelled with the submenu's handle and its own entries).
pub ghost enum ActionModel {
    Id(u16),
    Submenu { handle: usize, entries: Seq<EntryModel> },
}

/// One entry of a native menu, as the contracts see it.
pub ghost struct EntryModel {
    pub item: ItemModel,
    pub action: ActionModel,
    pub status: MenuStatus,
    pub check: MenuCheck,
}

/// A whole menu: its native handle and its entries, first-appended first.
pub ghost struct MenuModel {
    pub handle: usize,
    pub entries: Seq<EntryModel>,
}

/// The contents of a menu after a run of successful appends: each appended
/// entry lands at the end, in call order.
pub open spec fn entries_after(init: Seq<EntryModel>, appended: Seq<EntryModel>) -> Seq<EntryModel>
    decreases appended.len(),
{
    if appended.len() == 0 {
        init
    } else {
        entries_after(init.push(appended[0]), appended.drop_first())
    }
}

/// Order preservation: appending a run of entries one by one leaves the menu
/// holding exactly the old entries followed by the appended ones, in the
/// order they were appended.
pub proof fn lemma_append_order(init: Seq<EntryModel>, appended: Seq<EntryModel>)
    ensures
        entries_after(init, appended) == init + appended,
    decreases appended.len(),
{
    if appended.len() == 0 {
        assert(entries_after(init, appended) =~= init + appended);
    } else {
        lemma_append_order(init.push(appended[0]), appended.drop_first());
        assert(init.push(appended[0]) + appended.drop_first() =~= init + appended);
    }
}

/// The states one native menu handle passes through while a wrapper exists
/// for it. `Owned` is the only state a wrapper can act from; releasing the
/// wrapper destroys the handle, and embedding the menu into a parent (or
/// handing it to the window system) transfers the handle away instead.
pub ghost enum HandleState {
    Owned,
    Transferred,
    Destroyed,
}

/// A state is terminal once the wrapper no longer owns the handle.
pub open spec fn is_terminal(s: HandleState) -> bool {
    !(s is Owned)
}

/// The transitions the wrapper API can take: both consume ownership, so both
/// start from `Owned`.
pub open spec fn handle_step(pre: HandleState, post: HandleState) -> bool {
    pre is Owned && (post is Transferred || post is Destroyed)
}

/// Single-destroy law: no transition leaves a terminal state. A handle that
/// was destroyed is never destroyed again, and one whose ownership was
/// transferred is never destroyed by its old owner. In the executable API
/// the two transitions are `release` and `into_raw`, and both consume the
/// wrapper, so each handle takes at most one step out of `Owned`.
pub proof fn lemma_terminal_is_final(pre: HandleState, post: HandleState)
    requires
        is_terminal(pre),
    ensures
        !handle_step(pre, post),
{
}

} // verus!
