use winmenu::error::OsError;
use winmenu::flags::append_flags;
use winmenu::menu::MenuAction;
use winmenu::menu::MenuCheck;
use winmenu::menu::MenuItem;
use winmenu::menu::MenuStatus;
use winmenu::popup::foreground_outcome;
use winmenu::popup::track_outcome;
use winmenu::popup::PopupMenu;

#[test]
fn new_null_handle_is_error() {
    let r = PopupMenu::new(0, 87);
    match r {
        Err(e) => assert_eq!(e.code(), 87),
        Ok(_) => panic!("a null handle must not wrap"),
    }
}

#[test]
fn new_wraps_fresh_handle() {
    let p = PopupMenu::new(0x1234, 0).unwrap();
    assert_eq!(p.as_raw(), 0x1234);
}

#[test]
fn track_zero_return_with_zero_error_is_dismissal() {
    assert_eq!(track_outcome(0, 0), Ok(0));
}

#[test]
fn track_zero_return_with_error_is_failure() {
    assert_eq!(track_outcome(0, 5), Err(OsError { code: 5 }));
}

#[test]
fn track_nonzero_return_is_the_chosen_id() {
    assert_eq!(track_outcome(3, 0), Ok(3));
    assert_eq!(track_outcome(0xFFFF, 0), Ok(0xFFFF));
}

#[test]
fn foreground_outcomes() {
    assert_eq!(foreground_outcome(1, 0), Ok(()));
    assert_eq!(foreground_outcome(0, 31), Err(OsError { code: 31 }));
}

#[test]
fn append_string_call_shape() {
    let p = PopupMenu::new(1, 0).unwrap();
    let call = p.append(
        MenuItem::String("Open"),
        MenuAction::Id(1),
        MenuStatus::Enabled,
        MenuCheck::Unchecked,
    );
    assert_eq!(call.menu, 1);
    assert_eq!(call.flags, 0);
    assert_eq!(call.payload, 1);
    assert_eq!(call.text, Some(vec![0x4F, 0x70, 0x65, 0x6E, 0]));
}

#[test]
fn append_separator_call_shape() {
    let p = PopupMenu::new(1, 0).unwrap();
    let call = p.append(
        MenuItem::Separator,
        MenuAction::Id(0),
        MenuStatus::Enabled,
        MenuCheck::Unchecked,
    );
    assert_eq!(call.flags, 0x0800);
    assert_eq!(call.payload, 0);
    assert_eq!(call.text, None);
}

#[test]
fn append_flag_union() {
    assert_eq!(
        append_flags(true, false, &MenuStatus::Grayed, &MenuCheck::Checked),
        0x0001 | 0x0008
    );
    assert_eq!(
        append_flags(true, false, &MenuStatus::Disabled, &MenuCheck::Unchecked),
        0x0002
    );
    assert_eq!(
        append_flags(false, false, &MenuStatus::Enabled, &MenuCheck::Unchecked),
        0x0800
    );
    assert_eq!(
        append_flags(true, true, &MenuStatus::Enabled, &MenuCheck::Unchecked),
        0x0010
    );
}

#[test]
fn create_then_release_destroys_exactly_once() {
    // A fresh popup released untouched: the one destroy command carries the
    // created handle, and no error arises on the way.
    let mut destroyed: Vec<usize> = Vec::new();
    let p = PopupMenu::new(5, 0).unwrap();
    let d = p.release();
    destroyed.push(d.handle);
    assert_eq!(destroyed, vec![5]);
}

#[test]
fn submenu_embedding_transfers_ownership() {
    // The child's handle becomes the payload of the parent's append call,
    // the popup bit is set, and across the combined lifetime of parent and
    // child only the parent's handle is ever destroyed.
    let mut destroyed: Vec<usize> = Vec::new();
    let child = PopupMenu::new(7, 0).unwrap();
    let mut parent = PopupMenu::new(8, 0).unwrap();
    let call = parent.append(
        MenuItem::String("More"),
        MenuAction::ChildMenu(child),
        MenuStatus::Enabled,
        MenuCheck::Unchecked,
    );
    assert_eq!(call.payload, 7);
    assert_eq!(call.flags & 0x0010, 0x0010);
    assert_eq!(parent.append_outcome(&call, 1, 0), Ok(()));
    let d = parent.release();
    destroyed.push(d.handle);
    assert_eq!(destroyed, vec![8]);
    assert!(!destroyed.contains(&7));
}

#[test]
fn three_appends_in_order() {
    // Append a string, a separator and a second string on a fresh popup:
    // all three succeed and the three prepared calls carry the entries in
    // exactly that order.
    let mut p = PopupMenu::new(1, 0).unwrap();
    let c1 = p.append(
        MenuItem::String("Open"),
        MenuAction::Id(1),
        MenuStatus::Enabled,
        MenuCheck::Unchecked,
    );
    assert_eq!(p.append_outcome(&c1, 1, 0), Ok(()));
    let c2 = p.append(
        MenuItem::Separator,
        MenuAction::Id(0),
        MenuStatus::Enabled,
        MenuCheck::Unchecked,
    );
    assert_eq!(p.append_outcome(&c2, 1, 0), Ok(()));
    let c3 = p.append(
        MenuItem::String("Exit"),
        MenuAction::Id(2),
        MenuStatus::Enabled,
        MenuCheck::Unchecked,
    );
    assert_eq!(p.append_outcome(&c3, 1, 0), Ok(()));
    let calls = vec![c1, c2, c3];
    assert_eq!(calls.len(), 3);
    assert_eq!(
        calls[0].text,
        Some(vec![0x4F, 0x70, 0x65, 0x6E, 0])
    );
    assert_eq!(calls[0].payload, 1);
    assert_eq!(calls[1].text, None);
    assert_eq!(calls[1].payload, 0);
    assert_eq!(
        calls[2].text,
        Some(vec![0x45, 0x78, 0x69, 0x74, 0])
    );
    assert_eq!(calls[2].payload, 2);
}

#[test]
fn failed_append_returns_the_last_error() {
    let mut p = PopupMenu::new(1, 0).unwrap();
    let call = p.append(
        MenuItem::String("Open"),
        MenuAction::Id(1),
        MenuStatus::Enabled,
        MenuCheck::Unchecked,
    );
    assert_eq!(p.append_outcome(&call, 0, 1400), Err(OsError { code: 1400 }));
}

#[test]
fn display_request_carries_menu_and_anchor() {
    let p = PopupMenu::new(9, 0).unwrap();
    let req = p.display(77, -4, 120);
    assert_eq!(req.window, 77);
    assert_eq!(req.track.menu, 9);
    assert_eq!(req.track.flags, 0x0100);
    assert_eq!(req.track.x, -4);
    assert_eq!(req.track.y, 120);
    assert_eq!(req.track.window, 77);
}
