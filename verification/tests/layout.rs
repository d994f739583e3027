use wei_tray::layout::resolve_icon_path;
use wei_tray::layout::Layout;
use wei_tray::layout::ICON_FILE_NAME;
use wei_tray::layout::INSTALL_DIR;
use wei_tray::layout::MARKER_PATH;
use wei_tray::layout::RESOURCE_DIR;

#[test]
fn marker_found_selects_the_resource_directory() {
    assert_eq!(resolve_icon_path(true), "./res/wei.ico");
}

#[test]
fn marker_missing_selects_the_plain_path() {
    assert_eq!(resolve_icon_path(false), "./wei.ico");
}

#[test]
fn detect_follows_the_marker() {
    assert_eq!(Layout::detect(true), Layout::Development);
    assert_eq!(Layout::detect(false), Layout::Packaged);
}

#[test]
fn icon_paths_by_layout() {
    assert_eq!(Layout::Packaged.icon_path(), "./wei.ico");
    assert_eq!(Layout::Development.icon_path(), "./res/wei.ico");
}

#[test]
fn icon_directories_by_layout() {
    assert_eq!(Layout::Packaged.icon_directory(), ".");
    assert_eq!(Layout::Development.icon_directory(), "./res");
}

#[test]
fn icon_path_is_directory_and_name() {
    for layout in [Layout::Packaged, Layout::Development] {
        let joined: String = format!("{}/{}", layout.icon_directory(), ICON_FILE_NAME);
        assert_eq!(layout.icon_path(), joined);
    }
}

#[test]
fn icon_directory_is_the_parent_of_the_icon_path() {
    for layout in [Layout::Packaged, Layout::Development] {
        let path = std::path::Path::new(layout.icon_path());
        assert_eq!(path.parent(), Some(std::path::Path::new(layout.icon_directory())));
        assert_eq!(path.file_name().and_then(|n| n.to_str()), Some(ICON_FILE_NAME));
    }
}

#[test]
fn fixed_paths() {
    assert_eq!(MARKER_PATH, "./src/main.rs");
    assert_eq!(RESOURCE_DIR, "./res");
    assert_eq!(INSTALL_DIR, ".");
    assert_eq!(ICON_FILE_NAME, "wei.ico");
}
