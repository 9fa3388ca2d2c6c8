use magoo::submodule::{
    InGitConfig, InGitModule, InGitmodules, IndexObject, PartsIssue, Submodule,
};

fn gitmodules_part(name: &str, path: &str) -> InGitmodules {
    InGitmodules {
        name: name.to_string(),
        path: Some(path.to_string()),
        url: Some("https://example.com/lib.git".to_string()),
        branch: None,
    }
}

fn config_part(name: &str) -> InGitConfig {
    InGitConfig {
        name: name.to_string(),
        url: "https://example.com/lib.git".to_string(),
    }
}

fn modules_part(name: &str, worktree: &str) -> InGitModule {
    InGitModule {
        name: name.to_string(),
        worktree: Some(worktree.to_string()),
        head_sha: Some("1234567890123456789012345678901234567890".to_string()),
        git_dir: Some("/repo/.git/modules/lib".to_string()),
    }
}

fn index_part(path: &str) -> IndexObject {
    IndexObject {
        path: path.to_string(),
        sha: "1234567890123456789012345678901234567890".to_string(),
    }
}

#[test]
fn all_four_present_is_healthy() {
    let s = Submodule {
        in_gitmodules: Some(gitmodules_part("lib", "vendor/lib")),
        in_config: Some(config_part("lib")),
        in_modules: Some(modules_part("lib", "../../../vendor/lib")),
        in_index: Some(index_part("vendor/lib")),
    };
    assert_eq!(s.find_issue(), PartsIssue::Healthy);
}

#[test]
fn declared_not_initialized_is_healthy() {
    let s = Submodule {
        in_gitmodules: Some(gitmodules_part("lib", "vendor/lib")),
        in_config: None,
        in_modules: None,
        in_index: Some(index_part("vendor/lib")),
    };
    assert_eq!(s.find_issue(), PartsIssue::Healthy);
}

#[test]
fn missing_index_wins_over_everything() {
    let with_all_others = Submodule {
        in_gitmodules: Some(gitmodules_part("lib", "vendor/lib")),
        in_config: Some(config_part("lib")),
        in_modules: Some(modules_part("lib", "../../../vendor/lib")),
        in_index: None,
    };
    assert_eq!(with_all_others.find_issue(), PartsIssue::MissingIndex);

    let manifest_only = Submodule {
        in_gitmodules: Some(gitmodules_part("lib", "vendor/lib")),
        in_config: None,
        in_modules: None,
        in_index: None,
    };
    assert_eq!(manifest_only.find_issue(), PartsIssue::MissingIndex);

    // even without a manifest entry, the missing index is reported first
    let config_only = Submodule {
        in_gitmodules: None,
        in_config: Some(config_part("lib")),
        in_modules: None,
        in_index: None,
    };
    assert_eq!(config_only.find_issue(), PartsIssue::MissingIndex);
}

#[test]
fn missing_manifest_with_index_present() {
    let s = Submodule {
        in_gitmodules: None,
        in_config: Some(config_part("lib")),
        in_modules: None,
        in_index: Some(index_part("vendor/lib")),
    };
    assert_eq!(s.find_issue(), PartsIssue::MissingInGitModules);

    let index_only = Submodule {
        in_gitmodules: None,
        in_config: None,
        in_modules: None,
        in_index: Some(index_part("vendor/lib")),
    };
    assert_eq!(index_only.find_issue(), PartsIssue::MissingInGitModules);
}

#[test]
fn residue_patterns() {
    let config_residue = Submodule {
        in_gitmodules: Some(gitmodules_part("lib", "vendor/lib")),
        in_config: Some(config_part("lib")),
        in_modules: None,
        in_index: Some(index_part("vendor/lib")),
    };
    assert_eq!(config_residue.find_issue(), PartsIssue::Residue);

    let modules_residue = Submodule {
        in_gitmodules: Some(gitmodules_part("lib", "vendor/lib")),
        in_config: None,
        in_modules: Some(modules_part("lib", "../../../vendor/lib")),
        in_index: Some(index_part("vendor/lib")),
    };
    assert_eq!(modules_residue.find_issue(), PartsIssue::Residue);
}

#[test]
fn issue_descriptions() {
    assert_eq!(PartsIssue::Healthy.describe(), "none");
    assert_eq!(PartsIssue::Residue.describe(), "has residue from removal");
    assert_eq!(PartsIssue::MissingIndex.describe(), "missing in index");
    assert_eq!(
        PartsIssue::MissingInGitModules.describe(),
        "not in .gitmodules"
    );
}

#[test]
fn accessor_precedence() {
    let s = Submodule {
        in_gitmodules: Some(InGitmodules {
            name: "manifest-name".to_string(),
            path: Some("manifest/path".to_string()),
            url: Some("manifest-url".to_string()),
            branch: Some("main".to_string()),
        }),
        in_config: Some(InGitConfig {
            name: "config-name".to_string(),
            url: "config-url".to_string(),
        }),
        in_modules: Some(InGitModule {
            name: "module-name".to_string(),
            worktree: Some("module/worktree".to_string()),
            head_sha: Some("bbbbbbbbbbbbbbbbbbbbbbbbbbbbbbbbbbbbbbbb".to_string()),
            git_dir: None,
        }),
        in_index: Some(IndexObject {
            path: "index/path".to_string(),
            sha: "aaaaaaaaaaaaaaaaaaaaaaaaaaaaaaaaaaaaaaaa".to_string(),
        }),
    };
    assert_eq!(s.name(), Some("manifest-name"));
    assert_eq!(s.path(), Some("manifest/path"));
    assert_eq!(s.url(), Some("config-url"));
    assert_eq!(s.branch(), Some("main"));
    assert_eq!(s.index_commit(), Some("aaaaaaaaaaaaaaaaaaaaaaaaaaaaaaaaaaaaaaaa"));
    assert_eq!(s.index_commit_short(), Some("aaaaaaa"));
    assert_eq!(s.head_commit(), Some("bbbbbbbbbbbbbbbbbbbbbbbbbbbbbbbbbbbbbbbb"));
    assert_eq!(s.head_commit_short(), Some("bbbbbbb"));

    let without_manifest = Submodule {
        in_gitmodules: None,
        ..s.clone()
    };
    assert_eq!(without_manifest.name(), Some("config-name"));
    assert_eq!(without_manifest.path(), Some("index/path"));
    assert_eq!(without_manifest.branch(), None);

    let modules_only = Submodule {
        in_gitmodules: None,
        in_config: None,
        in_index: None,
        ..s.clone()
    };
    assert_eq!(modules_only.name(), Some("module-name"));
    assert_eq!(modules_only.path(), Some("module/worktree"));
    assert_eq!(modules_only.url(), None);
}
