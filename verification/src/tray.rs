//! The system tray menu: its items, their labels, and what choosing one does.

use vstd::prelude::*;
use crate::text::{decimal, push_decimal, text_eq};

verus! {

/// The address of the local overlay page served on `port`.
pub open spec fn local_url_text(port: u16) -> Seq<char> {
    "http://localhost:"@ + decimal(port as nat)
}

/// The address of the local overlay page served on `port`:
/// `http://localhost:` and the port in decimal.
pub fn local_url(port: u16) -> (res: String)
    ensures
        res@ == local_url_text(port),
{
    let mut s = String::from_str("http://localhost:");
    push_decimal(&mut s, port as u64);
    s
}

/// What choosing a tray menu item does.
#[derive(PartialEq, Eq, Structural, Debug, Clone, Copy)]
pub enum TrayAction {
    /// Show the main window.
    ShowWindow,
    /// Open the local overlay page in the browser.
    OpenWeb,
    /// Ask the window to look for an update.
    CheckUpdate,
    /// Quit the application.
    Quit,
    /// Nothing: the item is not one of the menu's.
    Ignore,
}

/// The ids of the tray menu items, in menu order.
pub open spec fn menu_ids() -> Seq<Seq<char>> {
    seq!["show_window"@, "open_web"@, "check_update"@, "quit"@]
}

/// The action of the menu item with id `id`.
pub open spec fn menu_action(id: Seq<char>) -> TrayAction {
    if id == "show_window"@ {
        TrayAction::ShowWindow
    } else if id == "open_web"@ {
        TrayAction::OpenWeb
    } else if id == "check_update"@ {
        TrayAction::CheckUpdate
    } else if id == "quit"@ {
        TrayAction::Quit
    } else {
        TrayAction::Ignore
    }
}

/// The ids of the tray menu items, in menu order.
pub fn menu_item_ids() -> (res: Vec<&'static str>)
    ensures
        res@.len() == menu_ids().len(),
        forall|i: int| 0 <= i < res@.len() ==> (#[trigger] res@[i])@ == menu_ids()[i],
{
    let res = vec!["show_window", "open_web", "check_update", "quit"];
    res
}

/// The action of the menu item with id `id`.
pub fn tray_menu_action(id: &str) -> (res: TrayAction)
    ensures
        res == menu_action(id@),
{
    if text_eq(id, "show_window") {
        TrayAction::ShowWindow
    } else if text_eq(id, "open_web") {
        TrayAction::OpenWeb
    } else if text_eq(id, "check_update") {
        TrayAction::CheckUpdate
    } else if text_eq(id, "quit") {
        TrayAction::Quit
    } else {
        TrayAction::Ignore
    }
}

/// Every item of the menu does something, and no two items do the same.
pub proof fn law_menu_items_handled(i: int, j: int)
    requires
        0 <= i < menu_ids().len(),
        0 <= j < menu_ids().len(),
    ensures
        menu_action(menu_ids()[i]) != TrayAction::Ignore,
        i != j ==> menu_action(menu_ids()[i]) != menu_action(menu_ids()[j]),
{
    reveal_strlit("show_window");
    reveal_strlit("open_web");
    reveal_strlit("check_update");
    reveal_strlit("quit");
    assert("show_window"@.len() == 11 && "open_web"@.len() == 8 && "check_update"@.len() == 12 && "quit"@.len() == 4);
    assert("show_window"@ != "open_web"@ && "show_window"@ != "check_update"@ && "show_window"@ != "quit"@);
    assert("open_web"@ != "check_update"@ && "open_web"@ != "quit"@);
    assert("check_update"@ != "quit"@);
}

/// The labels of the tray menu items.
pub struct TrayLabels {
    pub show_window: String,
    pub open_web: String,
    pub check_update: String,
    pub quit: String,
}

/// The labels of the menu items, in menu order.
pub open spec fn menu_labels(labels: TrayLabels) -> Seq<String> {
    seq![labels.show_window, labels.open_web, labels.check_update, labels.quit]
}

/// The menu items, in menu order: each item's id with its label.
pub fn menu_entries(labels: TrayLabels) -> (res: Vec<(&'static str, String)>)
    ensures
        res@.len() == menu_ids().len(),
        forall|i: int| 0 <= i < res@.len() ==> (#[trigger] res@[i]).0@ == menu_ids()[i]
            && res@[i].1 == menu_labels(labels)[i],
{
    let ghost l = labels;
    let TrayLabels { show_window, open_web, check_update, quit } = labels;
    let res = vec![
        ("show_window", show_window),
        ("open_web", open_web),
        ("check_update", check_update),
        ("quit", quit),
    ];
    assert(menu_labels(l) =~= seq![res@[0].1, res@[1].1, res@[2].1, res@[3].1]);
    res
}

impl TrayLabels {
    /// The labels used when the current language offers none.
    pub fn fallback() -> (res: Self)
        ensures
            res.show_window@ == "显示窗口"@,
            res.open_web@ == "打开网页"@,
            res.check_update@ == "检查更新"@,
            res.quit@ == "退出应用"@,
    {
        TrayLabels {
            show_window: String::from_str("显示窗口"),
            open_web: String::from_str("打开网页"),
            check_update: String::from_str("检查更新"),
            quit: String::from_str("退出应用"),
        }
    }

    /// The labels of the current language where it offers some, else the fallback ones.
    pub fn or_fallback(found: Option<TrayLabels>) -> (res: Self)
        ensures
            found matches Some(l) ==> res == l,
            found is None ==> res.show_window@ == "显示窗口"@ && res.open_web@ == "打开网页"@
                && res.check_update@ == "检查更新"@ && res.quit@ == "退出应用"@,
    {
        match found {
            Some(l) => l,
            None => TrayLabels::fallback(),
        }
    }
}

} // verus!
