use magoo::git::GitError;
use magoo::status::Status;
use magoo::submodule::{InGitModule, IndexObject, PartsIssue};

const SHA: &str = "abc1234567890123456789012345678901234567";

fn pair(k: &str, v: &str) -> (String, String) {
    (k.to_string(), v.to_string())
}

#[test]
fn gitmodules_reader_groups_by_name() {
    let entries = vec![
        pair("lib.path", "vendor/lib"),
        pair("lib.url", "https://example.com/lib.git"),
        pair("lib.branch", "main"),
        pair("other.url", "https://example.com/other.git"),
        pair("lib.ignored-key", "x"),
    ];
    let records = Status::read_dot_gitmodules(&entries);
    assert_eq!(records.len(), 2);
    assert_eq!(records[0].0, "lib");
    assert_eq!(records[0].1.name, "lib");
    assert_eq!(records[0].1.path.as_deref(), Some("vendor/lib"));
    assert_eq!(records[0].1.url.as_deref(), Some("https://example.com/lib.git"));
    assert_eq!(records[0].1.branch.as_deref(), Some("main"));
    assert_eq!(records[1].0, "other");
    assert_eq!(records[1].1.path, None);
    assert_eq!(records[1].1.url.as_deref(), Some("https://example.com/other.git"));
}

#[test]
fn gitmodules_reader_later_value_wins() {
    let entries = vec![pair("lib.path", "old/spot"), pair("lib.path", "new/spot")];
    let records = Status::read_dot_gitmodules(&entries);
    assert_eq!(records.len(), 1);
    assert_eq!(records[0].1.path.as_deref(), Some("new/spot"));
}

#[test]
fn config_reader_recognizes_only_url() {
    let entries = vec![
        pair("lib.url", "https://example.com/lib.git"),
        pair("lib.path", "vendor/lib"),
        pair("lib.branch", "main"),
    ];
    let records = Status::read_dot_git_config(&entries);
    assert_eq!(records.len(), 1);
    assert_eq!(records[0].0, "lib");
    assert_eq!(records[0].1.url, "https://example.com/lib.git");
}

#[test]
fn index_reader_keeps_only_gitlinks() {
    let lines = vec![
        format!("100644 {} README.md", SHA),
        format!("160000 {} vendor/lib", SHA),
        "irrelevant".to_string(),
    ];
    let entries = Status::read_submodules_in_index(&lines).unwrap();
    assert_eq!(entries.len(), 1);
    assert_eq!(entries[0].path, "vendor/lib");
    assert_eq!(entries[0].sha, SHA);
}

#[test]
fn index_reader_rejects_line_without_path() {
    let lines = vec![format!("160000 {}", SHA)];
    let err = Status::read_submodules_in_index(&lines).unwrap_err();
    assert_eq!(
        err,
        GitError::InvalidIndex("missing path in output".to_string())
    );
    assert_eq!(
        err.describe(),
        "cannot process index: missing path in output"
    );
}

#[test]
fn index_reader_keeps_path_with_spaces() {
    let lines = vec![format!("160000 {} path with spaces", SHA)];
    let entries = Status::read_submodules_in_index(&lines).unwrap();
    assert_eq!(entries[0].path, "path with spaces");
}

#[test]
fn submodule_entries_filter_strips_prefix() {
    let pairs = vec![
        pair("submodule.lib.path", "vendor/lib"),
        pair("core.bare", "false"),
        pair("submodule.lib.url", "https://example.com/lib.git"),
    ];
    let filtered = Status::read_submodule_from_config(&pairs);
    assert_eq!(
        filtered,
        vec![
            pair("lib.path", "vendor/lib"),
            pair("lib.url", "https://example.com/lib.git"),
        ],
    );
}

#[test]
fn merged_record_combines_manifest_and_index() {
    let gitmodules = Status::read_dot_gitmodules(&vec![pair("lib.path", "vendor/lib")]);
    let config = Status::read_dot_git_config(&vec![]);
    let modules: Vec<InGitModule> = vec![];
    let index = vec![IndexObject {
        path: "vendor/lib".to_string(),
        sha: SHA.to_string(),
    }];
    let status = Status::read_from(&gitmodules, &config, &modules, index, false);
    assert_eq!(status.modules.len(), 1);
    assert!(status.nameless.is_empty());
    let record = &status.modules[0].1;
    assert_eq!(record.name(), Some("lib"));
    assert_eq!(record.path(), Some("vendor/lib"));
    assert_eq!(record.index_commit(), Some(SHA));
    assert_eq!(record.find_issue(), PartsIssue::Healthy);
}

#[test]
fn lone_index_entry_is_nameless_only_with_full_trace() {
    let gitmodules = Status::read_dot_gitmodules(&vec![pair("lib.path", "vendor/lib")]);
    let config = Status::read_dot_git_config(&vec![]);
    let modules: Vec<InGitModule> = vec![];
    let index = vec![
        IndexObject {
            path: "vendor/lib".to_string(),
            sha: SHA.to_string(),
        },
        IndexObject {
            path: "lone/path".to_string(),
            sha: SHA.to_string(),
        },
    ];
    let with_all = Status::read_from(&gitmodules, &config, &modules, index.clone(), true);
    assert_eq!(with_all.modules.len(), 1);
    assert_eq!(with_all.nameless.len(), 1);
    assert_eq!(with_all.nameless[0].path(), Some("lone/path"));
    let objects = with_all.nameless_objects();
    assert_eq!(objects.len(), 1);
    assert_eq!(objects[0].path, "lone/path");
    assert_eq!(with_all.flattened().len(), 2);

    let without_all = Status::read_from(&gitmodules, &config, &modules, index, false);
    assert_eq!(without_all.modules.len(), 1);
    assert!(without_all.nameless.is_empty());
    assert_eq!(without_all.flattened().len(), 1);
}

#[test]
fn module_store_records_found_records_only_with_full_trace() {
    let gitmodules = Status::read_dot_gitmodules(&vec![]);
    let config = Status::read_dot_git_config(&vec![]);
    let modules = vec![InGitModule {
        name: "ghost".to_string(),
        worktree: None,
        head_sha: None,
        git_dir: None,
    }];
    let with_all = Status::read_from(&gitmodules, &config, &modules, vec![], true);
    assert_eq!(with_all.modules.len(), 1);
    assert_eq!(with_all.modules[0].0, "ghost");
    let without_all = Status::read_from(&gitmodules, &config, &modules, vec![], false);
    assert!(without_all.modules.is_empty());
}

#[test]
fn manifest_path_update_round_trip() {
    // the reconciliation step writes the index path into the manifest; a
    // re-read of the manifest must yield the updated path
    let mut entries = vec![
        pair("lib.path", "old/location"),
        pair("lib.url", "https://example.com/lib.git"),
    ];
    entries.push(pair("lib.path", "vendor/lib"));
    let records = Status::read_dot_gitmodules(&entries);
    assert_eq!(records.len(), 1);
    assert_eq!(records[0].1.path.as_deref(), Some("vendor/lib"));
    assert_eq!(records[0].1.url.as_deref(), Some("https://example.com/lib.git"));
}

#[test]
fn into_flattened_keeps_order() {
    let gitmodules = Status::read_dot_gitmodules(&vec![
        pair("a.path", "pa"),
        pair("b.path", "pb"),
    ]);
    let config = Status::read_dot_git_config(&vec![]);
    let status = Status::read_from(&gitmodules, &config, &vec![], vec![], false);
    let flat = status.into_flattened();
    assert_eq!(flat.len(), 2);
    assert_eq!(flat[0].name(), Some("a"));
    assert_eq!(flat[1].name(), Some("b"));
}

#[test]
fn status_default_is_empty() {
    let status = Status::default();
    assert!(status.modules.is_empty());
    assert!(status.nameless.is_empty());
    assert!(status.flattened().is_empty());
}
