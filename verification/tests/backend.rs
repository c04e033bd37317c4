use codchi::backend::{listed_names, Instance, Registry};
use codchi::status::PlatformStatus;

#[test]
fn every_name_is_absent_before_any_install() {
    let backend = Registry::new();
    for name in ["foo", "", "codchi-foo", "codchistore", "a b"] {
        assert_eq!(backend.status(name), PlatformStatus::NotInstalled);
    }
}

#[test]
fn a_fresh_import_registers_a_stopped_instance() {
    let mut backend = Registry::new();
    assert!(backend.import("codchi-foo"));
    assert_eq!(backend.status("codchi-foo"), PlatformStatus::Stopped);
    assert_eq!(backend.status("codchi-bar"), PlatformStatus::NotInstalled);
}

#[test]
fn a_second_import_changes_nothing() {
    let mut backend = Registry::new();
    assert!(backend.import("codchi-foo"));
    backend.start("codchi-foo");
    let before = backend.instances.len();
    assert!(!backend.import("codchi-foo"));
    assert_eq!(backend.instances.len(), before);
    assert_eq!(backend.status("codchi-foo"), PlatformStatus::Running);
}

#[test]
fn start_and_terminate_switch_the_run_state() {
    let mut backend = Registry::new();
    backend.import("a");
    backend.import("b");
    backend.start("a");
    assert_eq!(backend.status("a"), PlatformStatus::Running);
    assert_eq!(backend.status("b"), PlatformStatus::Stopped);
    backend.terminate("a");
    assert_eq!(backend.status("a"), PlatformStatus::Stopped);
}

#[test]
fn starting_an_unknown_instance_registers_nothing() {
    let mut backend = Registry::new();
    backend.start("ghost");
    backend.terminate("ghost");
    assert_eq!(backend.status("ghost"), PlatformStatus::NotInstalled);
    assert!(backend.instances.is_empty());
}

#[test]
fn unregister_removes_the_instance_only() {
    let mut backend = Registry::new();
    backend.import("a");
    backend.import("b");
    backend.start("b");
    backend.unregister("a");
    assert_eq!(backend.status("a"), PlatformStatus::NotInstalled);
    assert_eq!(backend.status("b"), PlatformStatus::Running);
    backend.unregister("a");
    assert_eq!(backend.instances.len(), 1);
}

#[test]
fn a_snapshot_answers_status_queries() {
    let backend = Registry {
        instances: vec![
            Instance { name: "codchistore".to_string(), running: true },
            Instance { name: "codchi-foo".to_string(), running: false },
        ],
    };
    assert_eq!(backend.status("codchistore"), PlatformStatus::Running);
    assert_eq!(backend.status("codchi-foo"), PlatformStatus::Stopped);
    assert_eq!(backend.status("codchi-bar"), PlatformStatus::NotInstalled);
}

#[test]
fn the_two_listings_give_the_backend() {
    let all = vec!["codchistore".to_string(), "codchi-foo".to_string(), "Ubuntu".to_string()];
    let running = vec!["Ubuntu".to_string(), "codchistore".to_string(), "gone".to_string()];
    let backend = Registry::from_lists(&all, &running);
    assert_eq!(backend.status("codchistore"), PlatformStatus::Running);
    assert_eq!(backend.status("codchi-foo"), PlatformStatus::Stopped);
    assert_eq!(backend.status("Ubuntu"), PlatformStatus::Running);
    assert_eq!(backend.status("gone"), PlatformStatus::NotInstalled);
    assert_eq!(Registry::from_lists(&Vec::new(), &running), Registry::new());
}

#[test]
fn a_listing_holds_one_name_on_each_line() {
    assert_eq!(
        listed_names("codchistore\r\ncodchi-foo\r\n\r\n  Ubuntu 22.04 \n"),
        vec!["codchistore".to_string(), "codchi-foo".to_string(), "Ubuntu 22.04".to_string()]
    );
    assert_eq!(listed_names("codchistore"), vec!["codchistore".to_string()]);
    assert_eq!(listed_names("\ncodchistore"), vec!["codchistore".to_string()]);
    assert_eq!(listed_names(""), Vec::<String>::new());
    assert_eq!(listed_names("\n \r\n\t\n"), Vec::<String>::new());
}

#[test]
fn the_texts_of_the_two_listings_give_the_backend() {
    let backend = Registry::from_listings("codchistore\r\ncodchi-foo\r\n", "codchistore\r\n");
    assert_eq!(backend.status("codchistore"), PlatformStatus::Running);
    assert_eq!(backend.status("codchi-foo"), PlatformStatus::Stopped);
    assert_eq!(backend.status("codchi-bar"), PlatformStatus::NotInstalled);
    assert_eq!(Registry::from_listings("", ""), Registry::new());
}
