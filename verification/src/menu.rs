//! The tray menu: two fixed entries, and the fixed targets they act on.

use vstd::prelude::*;

verus! {

/// Address that the launch entry opens in the default browser.
pub const UI_URL: &'static str = "http://127.0.0.1:1115";

/// Name of the background process that is killed when the session ends.
pub const PROCESS_NAME: &'static str = "wei";

/// Line printed when the icon file could not be applied to the tray.
pub const ICON_WARNING: &'static str = "Warning: Failed to set custom icon, using default";

/// What a menu entry does when clicked.
#[derive(Clone, Copy, Debug, PartialEq, Eq, Structural)]
pub enum MenuAction {
    /// Open the user interface in the default browser.
    Launch,
    /// Stop the background environment and close the tray.
    Quit,
}

/// Text shown for the entry that performs `action`.
pub open spec fn label_of(action: MenuAction) -> Seq<char> {
    match action {
        MenuAction::Launch => "启动界面"@,
        MenuAction::Quit => "退出"@,
    }
}

/// The menu from top to bottom.
pub open spec fn menu_entries() -> Seq<MenuAction> {
    seq![MenuAction::Launch, MenuAction::Quit]
}

impl MenuAction {
    /// Text shown for this entry.
    pub fn label(self) -> (text: &'static str)
        ensures
            text@ == label_of(self),
    {
        match self {
            MenuAction::Launch => "启动界面",
            MenuAction::Quit => "退出",
        }
    }
}

/// The entries of the menu in the order in which they are registered.
pub fn menu() -> (entries: Vec<MenuAction>)
    ensures
        entries@ == menu_entries(),
{
    let entries: Vec<MenuAction> = vec![MenuAction::Launch, MenuAction::Quit];
    assert(entries@ =~= menu_entries());
    entries
}

/// The two entries carry different labels.
pub proof fn lemma_labels_differ()
    ensures
        label_of(MenuAction::Launch) != label_of(MenuAction::Quit),
{
    reveal_strlit("启动界面");
    reveal_strlit("退出");
    assert(label_of(MenuAction::Launch).len() == 4);
    assert(label_of(MenuAction::Quit).len() == 2);
}

} // verus!
