use ignore::gitignore::{Gitignore, GitignoreBuilder};
use natrix_dev::watcher::{
    forwards, is_matchable, judge, nearest_ignore_file, should_forward, ChangeEvent, ChangeKind,
    ChangedPath, Verdict, IGNORE_FILE,
};
use std::cell::RefCell;

fn matcher(root: &str, lines: &[&str]) -> Gitignore {
    let mut builder = GitignoreBuilder::new(root);
    for line in lines {
        builder.add_line(None, line).unwrap();
    }
    builder.build().unwrap()
}

fn event(kind: ChangeKind, paths: &[(&str, bool)]) -> ChangeEvent {
    ChangeEvent {
        kind,
        paths: paths
            .iter()
            .map(|(path, is_dir)| ChangedPath { path: path.to_string(), is_dir: *is_dir })
            .collect(),
    }
}

#[test]
fn relevant_kinds() {
    assert!(ChangeKind::Create.relevant());
    assert!(ChangeKind::Modify.relevant());
    assert!(ChangeKind::Remove.relevant());
    assert!(!ChangeKind::Access.relevant());
    assert!(!ChangeKind::Any.relevant());
    assert!(!ChangeKind::Other.relevant());
}

#[test]
fn forwards_changes_that_are_not_ignored() {
    let rules = matcher("/project", &["target/", "*.log"]);
    assert!(should_forward(&rules, &event(ChangeKind::Modify, &[("./src/main.rs", false)])));
    assert!(should_forward(&rules, &event(ChangeKind::Create, &[("src/new.rs", false)])));
    assert!(should_forward(&rules, &event(ChangeKind::Remove, &[("./src", true)])));
}

#[test]
fn drops_ignored_paths() {
    let rules = matcher("/project", &["target/", "*.log"]);
    assert!(!should_forward(&rules, &event(ChangeKind::Modify, &[("./target/debug/app", false)])));
    assert!(!should_forward(&rules, &event(ChangeKind::Create, &[("./target", true)])));
    assert!(!should_forward(&rules, &event(ChangeKind::Modify, &[("./build.log", false)])));
}

#[test]
fn directory_rule_needs_directory_flag() {
    let rules = matcher("/project", &["target/"]);
    assert!(should_forward(&rules, &event(ChangeKind::Create, &[("./target", false)])));
    assert!(!should_forward(&rules, &event(ChangeKind::Create, &[("./target", true)])));
}

#[test]
fn drops_kinds_that_change_nothing() {
    let rules = matcher("/project", &["target/"]);
    assert!(!should_forward(&rules, &event(ChangeKind::Access, &[("./src/main.rs", false)])));
    assert!(!should_forward(&rules, &event(ChangeKind::Any, &[("./src/main.rs", false)])));
    assert!(!should_forward(&rules, &event(ChangeKind::Other, &[("./src/main.rs", false)])));
}

#[test]
fn one_ignored_path_drops_the_event() {
    let rules = matcher("/project", &["*.tmp"]);
    let renamed = event(ChangeKind::Modify, &[("./src/a.tmp", false), ("./src/a.rs", false)]);
    assert!(!should_forward(&rules, &renamed));
    let both = event(ChangeKind::Modify, &[("./src/a.rs", false), ("./src/b.rs", false)]);
    assert!(should_forward(&rules, &both));
}

#[test]
fn absolute_paths_under_the_root_are_matched() {
    let rules = matcher("/project", &["target/"]);
    assert!(should_forward(&rules, &event(ChangeKind::Modify, &[("/project/src/main.rs", false)])));
    assert!(!should_forward(
        &rules,
        &event(ChangeKind::Modify, &[("/project/target/debug/app", false)])
    ));
}

#[test]
fn paths_that_cannot_be_matched_drop_the_event() {
    let rules = matcher("/project", &["target/"]);
    assert!(!should_forward(&rules, &event(ChangeKind::Modify, &[("/elsewhere/main.rs", false)])));
    assert!(!should_forward(&rules, &event(ChangeKind::Modify, &[(".//src/main.rs", false)])));
}

#[test]
fn empty_matcher_ignores_nothing() {
    let rules = Gitignore::empty();
    assert!(should_forward(&rules, &event(ChangeKind::Modify, &[("./target/debug/app", false)])));
    assert!(should_forward(&rules, &event(ChangeKind::Modify, &[("/anywhere/file", false)])));
}

#[test]
fn event_without_paths_passes_by_kind() {
    let rules = matcher("/project", &["*"]);
    assert!(should_forward(&rules, &event(ChangeKind::Modify, &[])));
    assert!(!should_forward(&rules, &event(ChangeKind::Access, &[])));
}

#[test]
fn whitelisted_path_is_forwarded() {
    let rules = matcher("/project", &["*.log", "!keep.log"]);
    assert!(!should_forward(&rules, &event(ChangeKind::Modify, &[("./a.log", false)])));
    assert!(should_forward(&rules, &event(ChangeKind::Modify, &[("./keep.log", false)])));
}

#[test]
fn matchable_paths() {
    assert!(is_matchable(Some("/project"), "./src/main.rs"));
    assert!(is_matchable(Some("/project"), "src/main.rs"));
    assert!(is_matchable(Some("/project"), ""));
    assert!(is_matchable(Some("/project"), "/project/src/main.rs"));
    assert!(is_matchable(Some("/project"), "/project"));
    assert!(is_matchable(Some("/project"), "/projects/x"));
    assert!(is_matchable(Some("/project"), "a//b"));
    assert!(is_matchable(Some("/project"), "./a//b"));
    assert!(is_matchable(Some("/project"), "/project/src//main.rs"));
    assert!(is_matchable(None, "src/main.rs"));
    assert!(is_matchable(None, "a//b"));
    assert!(is_matchable(Some(""), "/anywhere"));
    assert!(is_matchable(Some("src"), "src/main.rs"));
    assert!(is_matchable(Some("."), "././/x"));
    assert!(is_matchable(Some("."), "./x"));
    assert!(!is_matchable(Some("/project"), "/other/src/main.rs"));
    assert!(!is_matchable(Some("/project"), "/proj"));
    assert!(!is_matchable(None, "/project/src/main.rs"));
    assert!(!is_matchable(Some("/project"), "/project//src"));
    assert!(!is_matchable(Some("/project"), ".//src"));
    assert!(!is_matchable(Some(""), "//anywhere"));
    assert!(!is_matchable(Some("src"), "src//main.rs"));
    assert!(!is_matchable(Some("."), ".//x"));
    assert!(!is_matchable(Some("."), "/x"));
}

#[test]
fn repeated_separators_inside_a_path_are_answered() {
    let rules = matcher("/project", &["target/", "*.log"]);
    assert!(should_forward(&rules, &event(ChangeKind::Modify, &[("a//b", false)])));
    assert!(should_forward(&rules, &event(ChangeKind::Modify, &[("./src//main.rs", false)])));
    assert!(should_forward(
        &rules,
        &event(ChangeKind::Modify, &[("/project/src//main.rs", false)])
    ));
    assert!(!should_forward(&rules, &event(ChangeKind::Modify, &[("a//b.log", false)])));
    assert!(!should_forward(&rules, &event(ChangeKind::Modify, &[("/project//src", false)])));
}

#[test]
fn matchers_with_other_roots_answer_without_panic() {
    let rootless = matcher("", &["*.log"]);
    assert!(should_forward(&rootless, &event(ChangeKind::Modify, &[("/var/x.rs", false)])));
    assert!(!should_forward(&rootless, &event(ChangeKind::Modify, &[("/var/x.log", false)])));
    assert!(!should_forward(&rootless, &event(ChangeKind::Modify, &[("//var/x.rs", false)])));
    let here = matcher(".", &["*.log"]);
    assert!(should_forward(&here, &event(ChangeKind::Modify, &[("././/x.rs", false)])));
    assert!(should_forward(&here, &event(ChangeKind::Modify, &[("./x.rs", false)])));
    assert!(!should_forward(&here, &event(ChangeKind::Modify, &[("./x.log", false)])));
    assert!(!should_forward(&here, &event(ChangeKind::Modify, &[(".//x.rs", false)])));
    let relative = matcher("src", &["*.log"]);
    assert!(should_forward(&relative, &event(ChangeKind::Modify, &[("src/x.rs", false)])));
    assert!(should_forward(&relative, &event(ChangeKind::Modify, &[("srcs", false)])));
    assert!(!should_forward(&relative, &event(ChangeKind::Modify, &[("src//x.rs", false)])));
}

#[test]
fn empty_matcher_answers_for_every_path() {
    let rules = Gitignore::empty();
    assert!(should_forward(&rules, &event(ChangeKind::Modify, &[("//x", false)])));
    assert!(should_forward(&rules, &event(ChangeKind::Modify, &[(".//x", false)])));
    assert_eq!(
        judge(&rules, &event(ChangeKind::Modify, &[("//x", true), ("y", false)]).paths),
        vec![Verdict::Clear, Verdict::Clear]
    );
}

#[test]
fn judge_gives_one_verdict_per_path() {
    let rules = matcher("/project", &["target/"]);
    let paths = event(
        ChangeKind::Modify,
        &[("./src/a.rs", false), ("./target", true), ("/elsewhere/x", false), ("./target", false)],
    )
    .paths;
    assert_eq!(
        judge(&rules, &paths),
        vec![Verdict::Clear, Verdict::Ignored, Verdict::Unanswerable, Verdict::Clear]
    );
    assert_eq!(judge(&rules, &Vec::new()), Vec::<Verdict>::new());
}

#[test]
fn rule_asks_for_relevant_kind_and_clear_paths() {
    let clear = vec![Verdict::Clear, Verdict::Clear];
    assert!(forwards(ChangeKind::Create, &clear));
    assert!(forwards(ChangeKind::Modify, &clear));
    assert!(forwards(ChangeKind::Remove, &clear));
    assert!(forwards(ChangeKind::Modify, &Vec::new()));
    assert!(!forwards(ChangeKind::Access, &clear));
    assert!(!forwards(ChangeKind::Any, &clear));
    assert!(!forwards(ChangeKind::Other, &Vec::new()));
    assert!(!forwards(ChangeKind::Modify, &vec![Verdict::Clear, Verdict::Ignored]));
    assert!(!forwards(ChangeKind::Modify, &vec![Verdict::Unanswerable, Verdict::Clear]));
    assert!(!forwards(ChangeKind::Create, &vec![Verdict::Ignored]));
}

#[test]
fn ignore_file_name() {
    assert_eq!(IGNORE_FILE, ".gitignore");
}

#[test]
fn nearest_ignore_file_wins() {
    assert_eq!(nearest_ignore_file(4, |level| level == 1 || level == 3), Some(1));
    assert_eq!(nearest_ignore_file(4, |level| level == 0), Some(0));
    assert_eq!(nearest_ignore_file(4, |level| level == 3), Some(3));
    assert_eq!(nearest_ignore_file(4, |_| false), None);
    assert_eq!(nearest_ignore_file(0, |_| true), None);
    assert_eq!(nearest_ignore_file(2, |level| level == 2), None);
}

#[test]
fn nearest_ignore_file_stops_at_first_hit() {
    let looked = RefCell::new(Vec::new());
    let found = nearest_ignore_file(5, |level| {
        looked.borrow_mut().push(level);
        level == 2
    });
    assert_eq!(found, Some(2));
    assert_eq!(looked.into_inner(), vec![0, 1, 2]);
}
