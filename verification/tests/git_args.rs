use magoo::git::{
    first_output_line, i32_to_string, quote_arg, u64_to_string, usize_to_string, GitContext,
    GitError, SUPPORTED_GIT_VERSIONS,
};

fn ctx() -> GitContext {
    GitContext::new(
        "/repo".to_string(),
        "/repo/.git".to_string(),
        "/repo".to_string(),
    )
}

fn strs(v: &[&str]) -> Vec<String> {
    v.iter().map(|s| s.to_string()).collect()
}

#[test]
fn supported_versions_notation() {
    assert_eq!(SUPPORTED_GIT_VERSIONS, ">=2.35.0");
}

#[test]
fn quote_arg_wraps_when_needed() {
    assert_eq!(quote_arg(""), "''");
    assert_eq!(quote_arg("plain"), "plain");
    assert_eq!(quote_arg("has space"), "'has space'");
    assert_eq!(quote_arg("it's"), "'it's'");
}

#[test]
fn decimal_rendering() {
    assert_eq!(u64_to_string(0), "0");
    assert_eq!(u64_to_string(7), "7");
    assert_eq!(u64_to_string(10), "10");
    assert_eq!(u64_to_string(90210), "90210");
    assert_eq!(usize_to_string(12345), "12345");
    assert_eq!(i32_to_string(-42), "-42");
    assert_eq!(i32_to_string(0), "0");
    assert_eq!(i32_to_string(i32::MIN), "-2147483648");
}

#[test]
fn first_output_line_picks_first() {
    let lines = strs(&["one", "two"]);
    assert_eq!(first_output_line(&lines, "missing"), Ok("one".to_string()));
    let err = first_output_line(&Vec::new(), "git said nothing").unwrap_err();
    assert_eq!(err, GitError::UnexpectedOutput("git said nothing".to_string()));
    assert_eq!(err.describe(), "unexpected output: git said nothing");
}

#[test]
fn ls_files_args() {
    let args = ctx().ls_files(&strs(&["--format=%(objectmode) %(objectname) %(path)"]));
    assert_eq!(
        args,
        strs(&[
            "-C",
            "/repo",
            "ls-files",
            "--format=%(objectmode) %(objectname) %(path)",
        ]),
    );
}

#[test]
fn config_args() {
    let c = ctx();
    assert_eq!(
        c.get_config(&"/m/config".to_string(), &"core.worktree".to_string()),
        strs(&["config", "-f", "/m/config", "--get", "core.worktree"]),
    );
    assert_eq!(
        c.set_config(
            &"/repo/.gitmodules".to_string(),
            &"submodule.\"lib\".path".to_string(),
            Some(&"vendor/lib".to_string()),
        ),
        strs(&[
            "config",
            "-f",
            "/repo/.gitmodules",
            "submodule.\"lib\".path",
            "vendor/lib",
        ]),
    );
    assert_eq!(
        c.set_config(
            &"/repo/.gitmodules".to_string(),
            &"submodule.lib.branch".to_string(),
            None,
        ),
        strs(&[
            "config",
            "-f",
            "/repo/.gitmodules",
            "--unset",
            "submodule.lib.branch",
        ]),
    );
    assert_eq!(
        c.remove_config_section(&"/repo/.git/config".to_string(), &"submodule.lib".to_string()),
        strs(&[
            "config",
            "-f",
            "/repo/.git/config",
            "--remove-section",
            "submodule.lib",
        ]),
    );
}

#[test]
fn index_args() {
    let c = ctx();
    assert_eq!(c.add(&".gitmodules".to_string()), strs(&["-C", "/repo", "add", ".gitmodules"]));
    let (rm, add) = c.remove_from_index(&"vendor/lib".to_string());
    assert_eq!(rm, strs(&["-C", "/repo", "rm", "vendor/lib"]));
    assert_eq!(add, strs(&["-C", "/repo", "add", "vendor/lib"]));
}

#[test]
fn submodule_verb_args() {
    let c = ctx();
    let path = "vendor/lib".to_string();
    assert_eq!(
        c.submodule_deinit(Some(&path), true),
        strs(&["-C", "/repo", "submodule", "deinit", "--force", "--", "vendor/lib"]),
    );
    assert_eq!(
        c.submodule_deinit(None, false),
        strs(&["-C", "/repo", "submodule", "deinit", "--all"]),
    );
    assert_eq!(
        c.submodule_init(Some(&path)),
        strs(&["-C", "/repo", "submodule", "init", "--", "vendor/lib"]),
    );
    assert_eq!(c.submodule_init(None), strs(&["-C", "/repo", "submodule", "init"]));
    assert_eq!(
        c.submodule_sync(Some(&path)),
        strs(&["-C", "/repo", "submodule", "sync", "--", "vendor/lib"]),
    );
    assert_eq!(
        c.submodule_set_branch(&path, Some(&"main".to_string())),
        strs(&[
            "-C",
            "/repo",
            "submodule",
            "set-branch",
            "--branch",
            "main",
            "--",
            "vendor/lib",
        ]),
    );
    assert_eq!(
        c.submodule_set_branch(&path, None),
        strs(&["-C", "/repo", "submodule", "set-branch", "--default", "--", "vendor/lib"]),
    );
    assert_eq!(
        c.submodule_set_url(&path, &"https://example.com/lib.git".to_string()),
        strs(&[
            "-C",
            "/repo",
            "submodule",
            "set-url",
            "--",
            "vendor/lib",
            "https://example.com/lib.git",
        ]),
    );
    assert_eq!(
        c.submodule_update(Some(&path), true, true),
        strs(&[
            "-C",
            "/repo",
            "submodule",
            "update",
            "--force",
            "--remote",
            "--",
            "vendor/lib",
        ]),
    );
    assert_eq!(
        c.submodule_update(None, false, false),
        strs(&["-C", "/repo", "submodule", "update"]),
    );
}

#[test]
fn submodule_add_args() {
    let c = ctx();
    let url = "https://example.com/lib.git".to_string();
    assert_eq!(
        c.submodule_add(
            &url,
            Some(&"vendor/lib".to_string()),
            Some(&"main".to_string()),
            Some(&"lib".to_string()),
            Some(3),
            true,
        ),
        strs(&[
            "-C",
            "/repo",
            "submodule",
            "add",
            "--force",
            "--branch",
            "main",
            "--name",
            "lib",
            "--depth",
            "3",
            "--",
            "https://example.com/lib.git",
            "vendor/lib",
        ]),
    );
    assert_eq!(
        c.submodule_add(&url, None, None, None, None, false),
        strs(&["-C", "/repo", "submodule", "add", "--", "https://example.com/lib.git"]),
    );
}

#[test]
fn config_regexp_correlation() {
    let names = strs(&["submodule.lib.path", "submodule.lib.url"]);
    let navs = strs(&[
        "submodule.lib.path vendor/lib",
        "submodule.lib.url https://example.com/lib.git",
    ]);
    let pairs = GitContext::get_config_regexp(&names, &navs).unwrap();
    assert_eq!(
        pairs,
        vec![
            ("submodule.lib.path".to_string(), "vendor/lib".to_string()),
            (
                "submodule.lib.url".to_string(),
                "https://example.com/lib.git".to_string(),
            ),
        ],
    );
}

#[test]
fn config_regexp_mismatch_is_an_error() {
    let names = strs(&["submodule.lib.path"]);
    let navs = strs(&["something.else entirely"]);
    let err = GitContext::get_config_regexp(&names, &navs).unwrap_err();
    assert_eq!(
        err,
        GitError::InvalidConfig("unexpected config key mismatch in git output.".to_string())
    );
    assert_eq!(
        err.describe(),
        "cannot process config: unexpected config key mismatch in git output."
    );
}

#[test]
fn top_level_switch() {
    let c = GitContext::new(
        "/repo/sub".to_string(),
        "/repo/.git".to_string(),
        "/repo/sub/tree".to_string(),
    );
    // already at the top level: no switch needed
    assert_eq!(c.get_top_level_switch(Some(&"/repo/sub/tree".to_string())), None);
    // below the top level: the relative path reaches it
    assert_eq!(
        c.get_top_level_switch(Some(&"/repo/sub".to_string())),
        Some("tree".to_string()),
    );
    // no usable current directory: the absolute top level, quoted if needed
    assert_eq!(c.get_top_level_switch(None), Some("/repo/sub/tree".to_string()));
}

#[test]
fn error_descriptions() {
    assert_eq!(
        GitError::NotInstalled.describe(),
        "git is not installed or not in PATH"
    );
    assert_eq!(
        GitError::CommandFailed("git status".to_string(), "failed to spawn process".to_string())
            .describe(),
        "failed to execute `git status`: failed to spawn process"
    );
    assert_eq!(
        GitError::ExitStatus("git add x".to_string(), 128).describe(),
        "command `git add x` finished with exit code 128"
    );
    assert_eq!(
        GitError::ModuleNotFound("lib".to_string()).describe(),
        "cannot find module `lib`"
    );
    assert_eq!(
        GitError::LockFailed("/repo/.git/magoo.lock".to_string(), "permission denied".to_string())
            .describe(),
        "cannot lock `/repo/.git/magoo.lock`: permission denied"
    );
    assert_eq!(
        GitError::NeedFix(false).describe(),
        "fix the issues above and try again."
    );
}
