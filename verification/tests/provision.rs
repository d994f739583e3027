use std::collections::BTreeMap;
use std::collections::BTreeSet;

use wei_tray::icon::default_icon_bytes;
use wei_tray::layout::MARKER_PATH;
use wei_tray::layout::RESOURCE_DIR;
use wei_tray::menu::MenuAction;
use wei_tray::session::Failure;
use wei_tray::session::Phase;
use wei_tray::session::Reply;
use wei_tray::session::Session;

/// A host that keeps its files in memory and records what it was asked to do.
struct Host {
    files: BTreeMap<String, Vec<u8>>,
    dirs: BTreeSet<String>,
    clicks: Vec<MenuAction>,
    browser_works: bool,
    kill_works: bool,
    log: Vec<String>,
}

fn host() -> Host {
    Host {
        files: BTreeMap::new(),
        dirs: BTreeSet::new(),
        clicks: vec![MenuAction::Quit],
        browser_works: true,
        kill_works: true,
        log: Vec::new(),
    }
}

fn found(present: bool) -> Reply {
    if present {
        Reply::Found
    } else {
        Reply::Missing
    }
}

/// Performs the operation of `phase` and says what came of it.
fn perform(host: &mut Host, phase: Phase) -> Reply {
    match phase {
        Phase::CreatingTray => Reply::Done,
        Phase::ProbingMarker => found(host.files.contains_key(MARKER_PATH)),
        Phase::ProbingResourceDir => found(host.dirs.contains(RESOURCE_DIR)),
        Phase::CreatingResourceDir => {
            host.dirs.insert(RESOURCE_DIR.to_string());
            host.log.push(format!("mkdir {}", RESOURCE_DIR));
            Reply::Done
        }
        Phase::ProbingIcon(layout) => found(host.files.contains_key(layout.icon_path())),
        Phase::WritingIcon(layout) => {
            host.dirs.insert(layout.icon_directory().to_string());
            host.files.insert(layout.icon_path().to_string(), default_icon_bytes());
            host.log.push(format!("write {}", layout.icon_path()));
            Reply::Done
        }
        Phase::ApplyingIcon(layout) => {
            host.log.push(format!("icon {}", layout.icon_path()));
            Reply::Done
        }
        Phase::Warning => Reply::Done,
        Phase::Registering(action) => {
            host.log.push(format!("menu {}", action.label()));
            Reply::Done
        }
        Phase::Waiting => {
            if host.clicks.is_empty() {
                Reply::Done
            } else {
                Reply::Clicked(host.clicks.remove(0))
            }
        }
        Phase::OpeningBrowser => {
            host.log.push("browser".to_string());
            if host.browser_works {
                Reply::Done
            } else {
                Reply::Failed
            }
        }
        Phase::StoppingEnvironment => {
            host.log.push("stop".to_string());
            Reply::Done
        }
        Phase::ClosingWindow => {
            host.log.push("close".to_string());
            Reply::Done
        }
        Phase::Killing => {
            host.log.push("kill".to_string());
            if host.kill_works {
                Reply::Done
            } else {
                Reply::Failed
            }
        }
        Phase::Completed | Phase::Failed(_) | Phase::Aborted(_) => unreachable!(),
    }
}

/// Runs one whole session on `host` and returns the phase it ended in.
fn run(host: &mut Host) -> Phase {
    let mut session = Session::new();
    let mut steps: u32 = 0;
    while !session.phase().is_finished() {
        let reply: Reply = perform(host, session.phase());
        assert!(session.advance(reply));
        steps += 1;
        assert!(steps < 1000);
    }
    session.phase()
}

#[test]
fn missing_icon_is_written_with_the_placeholder_bytes() {
    let mut host = host();
    assert_eq!(run(&mut host), Phase::Completed);
    assert_eq!(host.files.get("./wei.ico"), Some(&default_icon_bytes()));
    assert_eq!(host.files.len(), 1);
}

#[test]
fn present_icon_is_not_overwritten() {
    let mut host = host();
    host.files.insert("./wei.ico".to_string(), vec![1, 2, 3]);
    assert_eq!(run(&mut host), Phase::Completed);
    assert_eq!(host.files.get("./wei.ico"), Some(&vec![1, 2, 3]));
    assert!(!host.log.iter().any(|line| line.starts_with("write")));
}

#[test]
fn second_run_leaves_the_icon_unchanged() {
    let mut host = host();
    assert_eq!(run(&mut host), Phase::Completed);
    let after_first: BTreeMap<String, Vec<u8>> = host.files.clone();
    host.clicks = vec![MenuAction::Quit];
    host.log.clear();
    assert_eq!(run(&mut host), Phase::Completed);
    assert_eq!(host.files, after_first);
    assert!(!host.log.iter().any(|line| line.starts_with("write")));
}

#[test]
fn development_checkout_gets_resource_directory_and_icon() {
    let mut host = host();
    host.files.insert("./src/main.rs".to_string(), Vec::new());
    assert_eq!(run(&mut host), Phase::Completed);
    assert!(host.dirs.contains("./res"));
    assert_eq!(host.files.get("./res/wei.ico"), Some(&default_icon_bytes()));
    assert!(!host.files.contains_key("./wei.ico"));
    assert!(host.log.contains(&"icon ./res/wei.ico".to_string()));
}

#[test]
fn installed_copy_creates_no_resource_directory() {
    let mut host = host();
    assert_eq!(run(&mut host), Phase::Completed);
    assert!(!host.dirs.contains("./res"));
    assert!(!host.log.iter().any(|line| line.starts_with("mkdir")));
    assert!(host.log.contains(&"icon ./wei.ico".to_string()));
}

#[test]
fn existing_resource_directory_is_not_created_again() {
    let mut host = host();
    host.files.insert("./src/main.rs".to_string(), Vec::new());
    host.dirs.insert("./res".to_string());
    assert_eq!(run(&mut host), Phase::Completed);
    assert!(!host.log.iter().any(|line| line.starts_with("mkdir")));
}

#[test]
fn whole_session_in_order() {
    let mut host = host();
    host.clicks = vec![MenuAction::Launch, MenuAction::Quit];
    assert_eq!(run(&mut host), Phase::Completed);
    let expected: Vec<&str> = vec![
        "write ./wei.ico",
        "icon ./wei.ico",
        "menu 启动界面",
        "menu 退出",
        "browser",
        "stop",
        "close",
        "kill",
    ];
    assert_eq!(host.log, expected);
}

#[test]
fn failing_browser_leaves_the_session_running() {
    let mut host = host();
    host.browser_works = false;
    host.clicks = vec![MenuAction::Launch, MenuAction::Launch, MenuAction::Quit];
    assert_eq!(run(&mut host), Phase::Completed);
    let browser_attempts: usize = host.log.iter().filter(|line| *line == "browser").count();
    assert_eq!(browser_attempts, 2);
    assert_eq!(host.log.last(), Some(&"kill".to_string()));
}

#[test]
fn failing_kill_is_returned() {
    let mut host = host();
    host.kill_works = false;
    assert_eq!(run(&mut host), Phase::Failed(Failure::Kill));
    let stop: usize = host.log.iter().position(|line| line == "stop").unwrap();
    let close: usize = host.log.iter().position(|line| line == "close").unwrap();
    let kill: usize = host.log.iter().position(|line| line == "kill").unwrap();
    assert!(stop < close && close < kill);
}
