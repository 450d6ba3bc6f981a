use std::collections::HashMap;

use file_sorter::category::{category_key, plan_move};
use file_sorter::config::{WatchConfig, DEFAULT_DEBOUNCE_MS};
use file_sorter::events::{accepted_sources, check_event, ChangeEvent, ChangeKind};
use file_sorter::mover::{
    after_create_dir, categorise, check_before_rename, handle_rename, Action, IoFailure, Outcome,
};
use file_sorter::paths::{
    extension, file_name, find_last, is_absolute_path, is_component_str, join_path,
    parse_path_validity,
};
use file_sorter::service::{descriptor_path, service_descriptor, SERVICE_ID};

#[derive(Clone, Debug, PartialEq)]
enum Node {
    File(String),
    Dir,
}

/// An in-memory volume: paths and what stands at them.
struct Volume {
    nodes: HashMap<String, Node>,
    renames: usize,
}

impl Volume {
    fn new(root: &str) -> Volume {
        let mut nodes = HashMap::new();
        nodes.insert(root.to_string(), Node::Dir);
        Volume { nodes, renames: 0 }
    }

    fn put_file(&mut self, path: &str, content: &str) {
        self.nodes.insert(path.to_string(), Node::File(content.to_string()));
    }

    fn create_dir(&mut self, dir: &str) -> Result<(), IoFailure> {
        match self.nodes.get(dir) {
            Some(Node::Dir) => Ok(()),
            Some(Node::File(_)) => Err(IoFailure::AlreadyExists),
            None => {
                self.nodes.insert(dir.to_string(), Node::Dir);
                Ok(())
            }
        }
    }

    fn rename(&mut self, from: &str, to: &str) -> Result<(), IoFailure> {
        self.renames += 1;
        match self.nodes.remove(from) {
            Some(n) => {
                self.nodes.insert(to.to_string(), n);
                Ok(())
            }
            None => Err(IoFailure::NotFound),
        }
    }

    /// Performs every action that sorting `source` asks for.
    fn sort(&mut self, root: &str, source: &str) -> Outcome {
        let mut action = categorise(root, source);
        loop {
            action = match action {
                Action::EnsureDir(plan) => {
                    let res = self.create_dir(&plan.dir);
                    after_create_dir(plan, res)
                }
                Action::Probe(plan) => {
                    let s = self.nodes.contains_key(&plan.source);
                    let d = self.nodes.contains_key(&plan.dest);
                    check_before_rename(plan, s, d)
                }
                Action::Rename(plan) => {
                    let res = self.rename(&plan.source, &plan.dest);
                    Action::Finish(handle_rename(res))
                }
                Action::Finish(o) => return o,
            }
        }
    }

    /// Sorts every file that a batch of events names.
    fn sort_batch(&mut self, root: &str, events: &Vec<ChangeEvent>) -> Vec<Outcome> {
        accepted_sources(events).iter().map(|s| self.sort(root, s)).collect()
    }
}

fn event(kind: ChangeKind, paths: &[&str]) -> ChangeEvent {
    ChangeEvent { kind, paths: paths.iter().map(|p| p.to_string()).collect() }
}

#[test]
fn only_file_creation_passes_the_filter() {
    assert!(check_event(ChangeKind::CreateFile));
    for k in [
        ChangeKind::Any,
        ChangeKind::Access,
        ChangeKind::CreateAny,
        ChangeKind::CreateFolder,
        ChangeKind::CreateOther,
        ChangeKind::Modify,
        ChangeKind::Remove,
        ChangeKind::Other,
    ] {
        assert!(!check_event(k));
    }
}

#[test]
fn rejected_events_leave_the_volume_alone() {
    let mut v = Volume::new("/data/inbox");
    v.put_file("/data/inbox/a.txt", "x");
    let before = v.nodes.clone();
    let events = vec![
        event(ChangeKind::Modify, &["/data/inbox/a.txt"]),
        event(ChangeKind::CreateFolder, &["/data/inbox/a.txt"]),
        event(ChangeKind::Remove, &["/data/inbox/a.txt"]),
        event(ChangeKind::CreateAny, &["/data/inbox/a.txt"]),
    ];
    assert!(accepted_sources(&events).is_empty());
    assert!(v.sort_batch("/data/inbox", &events).is_empty());
    assert_eq!(v.nodes, before);
    assert_eq!(v.renames, 0);
}

#[test]
fn batch_keeps_order_and_first_path() {
    let events = vec![
        event(ChangeKind::CreateFile, &["/r/b.txt", "/r/other"]),
        event(ChangeKind::Modify, &["/r/c.txt"]),
        event(ChangeKind::CreateFile, &[]),
        event(ChangeKind::CreateFile, &["/r/a.txt"]),
        event(ChangeKind::CreateFile, &["/r/b.txt"]),
    ];
    assert_eq!(accepted_sources(&events), vec!["/r/b.txt".to_string(), "/r/a.txt".to_string()]);
    assert!(accepted_sources(&Vec::new()).is_empty());
}

#[test]
fn report_csv_lands_in_csv() {
    let mut v = Volume::new("/data/inbox");
    v.put_file("/data/inbox/report.csv", "a,b");
    let out = v.sort_batch(
        "/data/inbox",
        &vec![event(ChangeKind::CreateFile, &["/data/inbox/report.csv"])],
    );
    assert_eq!(out, vec![Outcome::Moved]);
    assert_eq!(v.nodes.get("/data/inbox/CSV/report.csv"), Some(&Node::File("a,b".to_string())));
    assert_eq!(v.nodes.get("/data/inbox/CSV"), Some(&Node::Dir));
    assert!(!v.nodes.contains_key("/data/inbox/report.csv"));
}

#[test]
fn two_creations_in_one_window_make_one_move() {
    let mut v = Volume::new("/data/inbox");
    v.put_file("/data/inbox/a.txt", "second");
    let events = vec![
        event(ChangeKind::CreateFile, &["/data/inbox/a.txt"]),
        event(ChangeKind::Modify, &["/data/inbox/a.txt"]),
        event(ChangeKind::CreateFile, &["/data/inbox/a.txt"]),
    ];
    assert_eq!(accepted_sources(&events), vec!["/data/inbox/a.txt".to_string()]);
    assert_eq!(v.sort_batch("/data/inbox", &events), vec![Outcome::Moved]);
    assert_eq!(v.renames, 1);
    assert_eq!(v.nodes.get("/data/inbox/TXT/a.txt"), Some(&Node::File("second".to_string())));
}

#[test]
fn round_trip_keeps_the_name_and_content() {
    let mut v = Volume::new("/w");
    v.put_file("/w/foo.PDF", "pdf bytes");
    assert_eq!(v.sort("/w", "/w/foo.PDF"), Outcome::Moved);
    assert_eq!(v.nodes.get("/w/PDF/foo.PDF"), Some(&Node::File("pdf bytes".to_string())));
    assert!(!v.nodes.contains_key("/w/foo.PDF"));
}

#[test]
fn taken_destination_is_left_alone() {
    let mut v = Volume::new("/w");
    v.nodes.insert("/w/PDF".to_string(), Node::Dir);
    v.put_file("/w/PDF/foo.PDF", "old");
    v.put_file("/w/foo.PDF", "new");
    assert_eq!(v.sort("/w", "/w/foo.PDF"), Outcome::DestinationExists);
    assert_eq!(v.nodes.get("/w/PDF/foo.PDF"), Some(&Node::File("old".to_string())));
    assert_eq!(v.nodes.get("/w/foo.PDF"), Some(&Node::File("new".to_string())));
    assert_eq!(v.renames, 0);
}

#[test]
fn second_delivery_finds_the_source_gone() {
    let mut v = Volume::new("/w");
    v.put_file("/w/notes.md", "n");
    assert_eq!(v.sort("/w", "/w/notes.md"), Outcome::Moved);
    let after = v.nodes.clone();
    assert_eq!(v.sort("/w", "/w/notes.md"), Outcome::SourceNotFound);
    assert_eq!(v.nodes, after);
}

#[test]
fn ensuring_the_directory_twice_is_harmless() {
    let mut v = Volume::new("/w");
    v.put_file("/w/a.txt", "1");
    v.put_file("/w/b.txt", "2");
    assert_eq!(v.sort("/w", "/w/a.txt"), Outcome::Moved);
    assert_eq!(v.sort("/w", "/w/b.txt"), Outcome::Moved);
    assert_eq!(v.nodes.len(), 4);
    assert_eq!(v.nodes.get("/w/TXT"), Some(&Node::Dir));
}

#[test]
fn file_in_place_of_directory_fails_the_event() {
    let mut v = Volume::new("/w");
    v.put_file("/w/TXT", "not a dir");
    v.put_file("/w/a.txt", "1");
    assert_eq!(v.sort("/w", "/w/a.txt"), Outcome::DirectoryFailed);
    assert_eq!(v.nodes.get("/w/a.txt"), Some(&Node::File("1".to_string())));
}

#[test]
fn file_without_extension_stays() {
    let mut v = Volume::new("/w");
    v.put_file("/w/Makefile", "all:");
    v.put_file("/w/.bashrc", "x");
    v.put_file("/w/trailing.", "y");
    assert_eq!(v.sort("/w", "/w/Makefile"), Outcome::NoCategory);
    assert_eq!(v.sort("/w", "/w/.bashrc"), Outcome::NoCategory);
    assert_eq!(v.sort("/w", "/w/trailing."), Outcome::NoCategory);
    assert_eq!(v.nodes.len(), 4);
}

#[test]
fn rename_results_are_classified() {
    assert_eq!(handle_rename(Ok(())), Outcome::Moved);
    assert_eq!(handle_rename(Err(IoFailure::NotFound)), Outcome::SourceNotFound);
    assert_eq!(handle_rename(Err(IoFailure::AlreadyExists)), Outcome::DestinationExists);
    assert_eq!(handle_rename(Err(IoFailure::Other)), Outcome::MoveFailed);
}

#[test]
fn directory_failure_ends_the_event() {
    let plan = plan_move("/w", "/w/a.txt").unwrap();
    assert!(matches!(
        after_create_dir(plan, Err(IoFailure::Other)),
        Action::Finish(Outcome::DirectoryFailed)
    ));
    let plan = plan_move("/w", "/w/a.txt").unwrap();
    match after_create_dir(plan, Ok(())) {
        Action::Probe(p) => assert_eq!(p.dest, "/w/TXT/a.txt"),
        _ => panic!("expected a probe"),
    }
}

#[test]
fn probe_decides_before_any_rename() {
    let plan = || plan_move("/w", "/w/a.txt").unwrap();
    assert!(matches!(
        check_before_rename(plan(), false, false),
        Action::Finish(Outcome::SourceNotFound)
    ));
    assert!(matches!(
        check_before_rename(plan(), false, true),
        Action::Finish(Outcome::SourceNotFound)
    ));
    assert!(matches!(
        check_before_rename(plan(), true, true),
        Action::Finish(Outcome::DestinationExists)
    ));
    assert!(matches!(check_before_rename(plan(), true, false), Action::Rename(_)));
}

#[test]
fn category_is_the_uppercased_extension() {
    assert_eq!(category_key("/data/inbox/report.csv"), Some("CSV".to_string()));
    assert_eq!(category_key("/w/foo.PDF"), Some("PDF".to_string()));
    assert_eq!(category_key("/w/archive.tar.gz"), Some("GZ".to_string()));
    assert_eq!(category_key("/w/straße.straße"), Some("STRASSE".to_string()));
    assert_eq!(category_key("/w/README"), None);
    assert_eq!(category_key("/w/.hidden"), None);
    assert_eq!(category_key("/w/dir.d/README"), None);
}

#[test]
fn plan_stays_under_the_watch_root() {
    let p = plan_move("/data/inbox", "/data/inbox/report.csv").unwrap();
    assert_eq!(p.source, "/data/inbox/report.csv");
    assert_eq!(p.dir, "/data/inbox/CSV");
    assert_eq!(p.dest, "/data/inbox/CSV/report.csv");
    let q = plan_move("/data/inbox/", "/data/inbox/x.Jpg").unwrap();
    assert_eq!(q.dir, "/data/inbox/JPG");
    assert_eq!(q.dest, "/data/inbox/JPG/x.Jpg");
    assert!(plan_move("/data/inbox", "/data/inbox/noext").is_none());
}

#[test]
fn path_pieces() {
    assert_eq!(file_name("/a/b/c.txt"), "c.txt");
    assert_eq!(file_name("c.txt"), "c.txt");
    assert_eq!(file_name("/a/b/"), "");
    assert_eq!(extension("c.txt"), Some("txt".to_string()));
    assert_eq!(extension("a.b.c"), Some("c".to_string()));
    assert_eq!(extension("trailing."), Some("".to_string()));
    assert_eq!(extension(".bashrc"), None);
    assert_eq!(extension("plain"), None);
    assert_eq!(find_last("a/b/c", '/'), Some(3));
    assert_eq!(find_last("abc", '/'), None);
    assert_eq!(join_path("/a", "b"), "/a/b");
    assert_eq!(join_path("/a/", "b"), "/a/b");
    assert_eq!(join_path("/", "b"), "/b");
}

#[test]
fn components() {
    assert!(is_component_str("PDF"));
    assert!(is_component_str("a.b"));
    assert!(!is_component_str(""));
    assert!(!is_component_str("."));
    assert!(!is_component_str(".."));
    assert!(!is_component_str("a/b"));
}

#[test]
fn watch_root_must_be_absolute_and_exist() {
    assert!(is_absolute_path("/data/inbox"));
    assert!(!is_absolute_path("data/inbox"));
    assert!(!is_absolute_path(""));
    assert!(parse_path_validity("/data/inbox", true));
    assert!(!parse_path_validity("/data/inbox", false));
    assert!(!parse_path_validity("inbox", true));
}

#[test]
fn default_config_waits_five_seconds() {
    let c = WatchConfig::new("/data/inbox".to_string());
    assert_eq!(c.debounce_ms, 5000);
    assert_eq!(DEFAULT_DEBOUNCE_MS, 5000);
    assert_eq!(c.root, "/data/inbox");
    let c = c.with_debounce_ms(10);
    assert_eq!(c.debounce_ms, 10);
    assert_eq!(c.root, "/data/inbox");
}

#[test]
fn descriptor_runs_the_binary_on_the_root() {
    let text = service_descriptor(SERVICE_ID, "/usr/local/bin/sorter", "/data/inbox");
    assert!(text.starts_with("<?xml version=\"1.0\" encoding=\"UTF-8\"?>\n"));
    assert!(text.contains("<string>homebrew.mxcl.file_sorter</string>"));
    assert!(text.contains(
        "<string>/usr/local/bin/sorter</string>\n        <string>path</string>\n        <string>/data/inbox</string>"
    ));
    assert!(text.ends_with("</plist>\n"));
    assert_eq!(
        descriptor_path("/Users/me/Library/LaunchAgents", SERVICE_ID),
        "/Users/me/Library/LaunchAgents/homebrew.mxcl.file_sorter.plist"
    );
}
