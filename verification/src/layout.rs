//! Where the icon lives: a development checkout keeps it under a resource
//! directory, an installed copy keeps it beside the program.

use vstd::prelude::*;

verus! {

/// File whose presence under the working directory marks a development checkout.
pub const MARKER_PATH: &'static str = "./src/main.rs";

/// Directory that holds the icon in a development checkout.
pub const RESOURCE_DIR: &'static str = "./res";

/// Directory that holds the icon in an installed copy.
pub const INSTALL_DIR: &'static str = ".";

/// Name of the icon file inside its directory.
pub const ICON_FILE_NAME: &'static str = "wei.ico";

/// The two directory layouts the launcher can find itself in.
#[derive(Clone, Copy, Debug, PartialEq, Eq, Structural)]
pub enum Layout {
    /// Installed: the icon is `./wei.ico`.
    Packaged,
    /// Source checkout: the icon is `./res/wei.ico`.
    Development,
}

/// The layout that the marker probe indicates.
pub open spec fn layout_for(marker_found: bool) -> Layout {
    if marker_found {
        Layout::Development
    } else {
        Layout::Packaged
    }
}

/// Path of the icon file in `layout`.
pub open spec fn icon_path_of(layout: Layout) -> Seq<char> {
    match layout {
        Layout::Packaged => "./wei.ico"@,
        Layout::Development => "./res/wei.ico"@,
    }
}

/// Directory that contains the icon file in `layout`.
pub open spec fn icon_directory_of(layout: Layout) -> Seq<char> {
    match layout {
        Layout::Packaged => INSTALL_DIR@,
        Layout::Development => RESOURCE_DIR@,
    }
}

impl Layout {
    /// Chooses the layout from the outcome of the marker probe.
    pub fn detect(marker_found: bool) -> (layout: Layout)
        ensures
            layout == layout_for(marker_found),
    {
        if marker_found {
            Layout::Development
        } else {
            Layout::Packaged
        }
    }

    /// Path of the icon file.
    pub fn icon_path(self) -> (path: &'static str)
        ensures
            path@ == icon_path_of(self),
    {
        match self {
            Layout::Packaged => "./wei.ico",
            Layout::Development => "./res/wei.ico",
        }
    }

    /// Directory that contains the icon file.
    pub fn icon_directory(self) -> (dir: &'static str)
        ensures
            dir@ == icon_directory_of(self),
    {
        match self {
            Layout::Packaged => INSTALL_DIR,
            Layout::Development => RESOURCE_DIR,
        }
    }
}

/// Path of the icon file, given whether the development marker was found.
pub fn resolve_icon_path(marker_found: bool) -> (path: &'static str)
    ensures
        marker_found ==> path@ == "./res/wei.ico"@,
        !marker_found ==> path@ == "./wei.ico"@,
        path@ == icon_path_of(layout_for(marker_found)),
{
    Layout::detect(marker_found).icon_path()
}

/// In either layout the icon path is its directory, a separator, and the
/// file name.
pub proof fn lemma_icon_path_is_directory_and_name(layout: Layout)
    ensures
        icon_path_of(layout) == icon_directory_of(layout) + "/"@ + ICON_FILE_NAME@,
{
    reveal_strlit("./wei.ico");
    reveal_strlit("./res/wei.ico");
    reveal_strlit(".");
    reveal_strlit("./res");
    reveal_strlit("/");
    reveal_strlit("wei.ico");
    assert(icon_path_of(layout) =~= icon_directory_of(layout) + "/"@ + ICON_FILE_NAME@);
}

} // verus!
