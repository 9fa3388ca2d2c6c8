use magoo::git::GitError;
use magoo::status::Status;
use magoo::submodule::{
    Action, ConfigFile, InGitConfig, InGitModule, InGitmodules, IndexObject, Submodule,
    SubmoduleEnv, SubmodulePaths,
};

const SHA: &str = "1234567890123456789012345678901234567890";

fn full_record() -> Submodule {
    Submodule {
        in_gitmodules: Some(InGitmodules {
            name: "lib".to_string(),
            path: Some("vendor/lib".to_string()),
            url: Some("https://example.com/lib.git".to_string()),
            branch: None,
        }),
        in_config: Some(InGitConfig {
            name: "lib".to_string(),
            url: "https://example.com/lib.git".to_string(),
        }),
        in_modules: Some(InGitModule {
            name: "lib".to_string(),
            worktree: Some("../../../vendor/lib".to_string()),
            head_sha: Some(SHA.to_string()),
            git_dir: Some("/repo/.git/modules/lib".to_string()),
        }),
        in_index: Some(IndexObject {
            path: "vendor/lib".to_string(),
            sha: SHA.to_string(),
        }),
    }
}

fn healthy_env() -> SubmoduleEnv {
    SubmoduleEnv {
        paths: SubmodulePaths {
            in_gitmodules: Some("/repo/vendor/lib".to_string()),
            in_index: Some("/repo/vendor/lib".to_string()),
            in_modules: Some("/repo/vendor/lib".to_string()),
        },
        module_git_dir: Some("/repo/.git/modules/lib".to_string()),
        expected_git_dir: "/repo/.git/modules/lib".to_string(),
    }
}

#[test]
fn fix_healthy_record_is_noop() {
    let mut s = full_record();
    let before = s.clone();
    let env = healthy_env();
    assert_eq!(s.is_healthy(&env), Ok(true));
    let mut actions: Vec<Action> = Vec::new();
    assert!(s.fix(&env, &mut actions).is_ok());
    assert_eq!(s, before);
    assert!(actions.is_empty());
}

#[test]
fn fix_residue_reverts_to_uninitialized() {
    // manifest, config and index present, module store gone: residue
    let mut s = full_record();
    s.in_modules = None;
    let env = SubmoduleEnv {
        paths: SubmodulePaths {
            in_gitmodules: Some("/repo/vendor/lib".to_string()),
            in_index: Some("/repo/vendor/lib".to_string()),
            in_modules: None,
        },
        module_git_dir: None,
        expected_git_dir: "/repo/.git/modules/lib".to_string(),
    };
    assert_eq!(s.is_healthy(&env), Ok(false));
    let mut actions: Vec<Action> = Vec::new();
    assert!(s.fix(&env, &mut actions).is_ok());
    // the submodule reverts to "declared but uninitialized"
    assert!(s.in_gitmodules.is_some());
    assert!(s.in_config.is_none());
    assert!(s.in_modules.is_none());
    assert!(s.in_index.is_some());
    assert_eq!(
        actions,
        vec![Action::RemoveConfigSection {
            file: ConfigFile::GitConfig,
            name: "lib".to_string(),
        }],
    );
}

#[test]
fn fix_missing_index_deletes_everything() {
    let mut s = full_record();
    s.in_index = None;
    let env = healthy_env();
    let mut actions: Vec<Action> = Vec::new();
    assert!(s.fix(&env, &mut actions).is_ok());
    assert!(s.in_gitmodules.is_none());
    assert!(s.in_config.is_none());
    assert!(s.in_modules.is_none());
    assert!(s.in_index.is_none());
    assert_eq!(
        actions,
        vec![
            Action::RemoveModuleDir {
                name: "lib".to_string(),
                worktree: Some("../../../vendor/lib".to_string()),
            },
            Action::RemoveConfigSection {
                file: ConfigFile::GitConfig,
                name: "lib".to_string(),
            },
            Action::RemoveConfigSection {
                file: ConfigFile::Gitmodules,
                name: "lib".to_string(),
            },
            Action::StageGitmodules,
        ],
    );
}

#[test]
fn fix_twice_reaches_the_same_state() {
    // a residue record, a missing-manifest record, and a broken-module
    // record all converge after one pass
    let mut residue = full_record();
    residue.in_modules = None;
    let mut missing_manifest = full_record();
    missing_manifest.in_gitmodules = None;
    let mut bad_module = full_record();
    if let Some(m) = &mut bad_module.in_modules {
        m.head_sha = None;
    }
    let env = healthy_env();
    for s in [&mut residue, &mut missing_manifest, &mut bad_module] {
        let mut actions: Vec<Action> = Vec::new();
        s.fix(&env, &mut actions).unwrap();
        let once = s.clone();
        let mut again: Vec<Action> = Vec::new();
        s.fix(&env, &mut again).unwrap();
        assert_eq!(*s, once);
    }
}

#[test]
fn fix_module_with_wrong_git_dir_deletes_module_store() {
    let mut s = full_record();
    let env = SubmoduleEnv {
        // the recorded git-dir resolves somewhere else entirely
        module_git_dir: Some("/elsewhere/.git/modules/other".to_string()),
        ..healthy_env()
    };
    assert_eq!(s.is_module_consistent(&env), Ok(false));
    assert_eq!(s.is_healthy(&env), Ok(false));
    let mut actions: Vec<Action> = Vec::new();
    assert!(s.fix(&env, &mut actions).is_ok());
    assert!(s.in_modules.is_none());
    assert_eq!(
        actions[0],
        Action::RemoveModuleDir {
            name: "lib".to_string(),
            worktree: Some("../../../vendor/lib".to_string()),
        },
    );
}

#[test]
fn fix_reconciles_manifest_path_with_index() {
    // the manifest path resolves somewhere else than the index path
    let mut s = full_record();
    s.in_modules = None;
    s.in_config = None;
    if let Some(g) = &mut s.in_gitmodules {
        g.path = Some("old/location".to_string());
    }
    let env = SubmoduleEnv {
        paths: SubmodulePaths {
            in_gitmodules: Some("/repo/old/location".to_string()),
            in_index: Some("/repo/vendor/lib".to_string()),
            in_modules: None,
        },
        module_git_dir: None,
        expected_git_dir: "/repo/.git/modules/lib".to_string(),
    };
    let mut actions: Vec<Action> = Vec::new();
    assert!(s.fix(&env, &mut actions).is_ok());
    // the manifest edit is decided on; the in-memory record keeps its path
    assert_eq!(
        actions,
        vec![Action::SetGitmodulesPath {
            name: "lib".to_string(),
            path: "vendor/lib".to_string(),
        }],
    );
}

#[test]
fn unresolvable_git_dir_is_an_error() {
    let mut s = full_record();
    let env = SubmoduleEnv {
        module_git_dir: None,
        ..healthy_env()
    };
    let err = s.is_module_consistent(&env).unwrap_err();
    assert_eq!(
        err,
        GitError::CanonicalizeFail("/repo/.git/modules/lib".to_string())
    );
    assert_eq!(
        err.describe(),
        "fail to read `/repo/.git/modules/lib`"
    );
    let mut actions: Vec<Action> = Vec::new();
    let before = s.clone();
    assert!(s.fix(&env, &mut actions).is_err());
    assert_eq!(s, before);
    assert!(actions.is_empty());
}

#[test]
fn force_delete_clears_all_parts() {
    let mut s = full_record();
    let mut actions: Vec<Action> = Vec::new();
    s.force_delete(&mut actions);
    assert!(s.in_gitmodules.is_none());
    assert!(s.in_config.is_none());
    assert!(s.in_modules.is_none());
    assert!(s.in_index.is_none());
    assert_eq!(
        actions,
        vec![
            Action::RemoveFromIndex {
                path: "vendor/lib".to_string(),
            },
            Action::StageGitmodules,
            Action::RemoveModuleDir {
                name: "lib".to_string(),
                worktree: Some("../../../vendor/lib".to_string()),
            },
            Action::RemoveConfigSection {
                file: ConfigFile::GitConfig,
                name: "lib".to_string(),
            },
            Action::RemoveConfigSection {
                file: ConfigFile::Gitmodules,
                name: "lib".to_string(),
            },
            Action::StageGitmodules,
        ],
    );
}

#[test]
fn inconsistent_paths_are_detected() {
    let consistent = SubmodulePaths {
        in_gitmodules: Some("/a".to_string()),
        in_index: Some("/a".to_string()),
        in_modules: Some("/a".to_string()),
    };
    assert!(consistent.is_consistent());
    let module_absent = SubmodulePaths {
        in_gitmodules: Some("/a".to_string()),
        in_index: Some("/a".to_string()),
        in_modules: None,
    };
    assert!(module_absent.is_consistent());
    let diverged = SubmodulePaths {
        in_gitmodules: Some("/a".to_string()),
        in_index: Some("/b".to_string()),
        in_modules: None,
    };
    assert!(!diverged.is_consistent());
    let all_absent = SubmodulePaths {
        in_gitmodules: None,
        in_index: None,
        in_modules: None,
    };
    assert!(all_absent.is_consistent());
}

#[test]
fn status_is_healthy_checks_every_record() {
    let healthy = full_record();
    let mut broken = full_record();
    broken.in_modules = None;
    let status = Status {
        modules: vec![
            ("lib".to_string(), healthy.clone()),
            ("broken".to_string(), broken),
        ],
        nameless: vec![],
    };
    let envs = vec![healthy_env(), healthy_env()];
    assert_eq!(status.is_healthy(&envs), Ok(false));
    let all_good = Status {
        modules: vec![("lib".to_string(), healthy)],
        nameless: vec![],
    };
    assert_eq!(all_good.is_healthy(&vec![healthy_env()]), Ok(true));
}
