//! Low level integration with git: the error taxonomy, shell-argument
//! quoting, and the construction of the argument lists for every git command
//! the library decides to run. Spawning the processes themselves is left to
//! the caller; this module only computes what to run.

use vstd::prelude::*;
use vstd::string::StringExecFns;
use vstd::string::StrSliceExecFns;

use crate::strutil::{contains_char, opt_view};

verus! {

/// The semver notation of the officially supported git versions
///
/// The version is not checked at run time, since unsupported versions might work fine.
pub const SUPPORTED_GIT_VERSIONS: &'static str = ">=2.35.0";

/// Error type for the program
#[derive(Debug, Clone, PartialEq, Eq)]
pub enum GitError {
    /// git is not installed or not in PATH
    NotInstalled,
    /// A path could not be canonicalized; carries the path
    CanonicalizeFail(String),
    /// A query that must return output returned none; carries a description
    UnexpectedOutput(String),
    /// A process could not be executed; carries the command and a message
    CommandFailed(String, String),
    /// A process finished with a non-zero exit status; carries the command
    /// and the status code
    ExitStatus(String, i32),
    /// Malformed key/value correlation from a two-pass config query
    InvalidConfig(String),
    /// Malformed index listing line
    InvalidIndex(String),
    /// A module directory is missing from the module store
    ModuleNotFound(String),
    /// The repository lock could not be acquired; carries the lock path and
    /// a message
    LockFailed(String, String),
    /// Sentinel signaling the caller should inspect and fix the state; the
    /// flag says whether to show the failure as fatal
    NeedFix(bool),
}

/// Decimal digit character for a value below ten.
pub open spec fn spec_digit(d: int) -> char {
    if d == 0 {
        '0'
    } else if d == 1 {
        '1'
    } else if d == 2 {
        '2'
    } else if d == 3 {
        '3'
    } else if d == 4 {
        '4'
    } else if d == 5 {
        '5'
    } else if d == 6 {
        '6'
    } else if d == 7 {
        '7'
    } else if d == 8 {
        '8'
    } else {
        '9'
    }
}

/// Decimal representation of a non-negative integer.
pub open spec fn spec_decimal(n: int) -> Seq<char>
    decreases n,
{
    if n < 10 {
        seq![spec_digit(n)]
    } else {
        spec_decimal(n / 10) + seq![spec_digit(n % 10)]
    }
}

fn digit_str(d: u64) -> (r: &'static str)
    requires
        d < 10,
    ensures
        r@ == seq![spec_digit(d as int)],
{
    if d == 0 {
        proof {
            reveal_strlit("0");
        }
        assert("0"@ =~= seq![spec_digit(0)]);
        "0"
    } else if d == 1 {
        proof {
            reveal_strlit("1");
        }
        assert("1"@ =~= seq![spec_digit(1)]);
        "1"
    } else if d == 2 {
        proof {
            reveal_strlit("2");
        }
        assert("2"@ =~= seq![spec_digit(2)]);
        "2"
    } else if d == 3 {
        proof {
            reveal_strlit("3");
        }
        assert("3"@ =~= seq![spec_digit(3)]);
        "3"
    } else if d == 4 {
        proof {
            reveal_strlit("4");
        }
        assert("4"@ =~= seq![spec_digit(4)]);
        "4"
    } else if d == 5 {
        proof {
            reveal_strlit("5");
        }
        assert("5"@ =~= seq![spec_digit(5)]);
        "5"
    } else if d == 6 {
        proof {
            reveal_strlit("6");
        }
        assert("6"@ =~= seq![spec_digit(6)]);
        "6"
    } else if d == 7 {
        proof {
            reveal_strlit("7");
        }
        assert("7"@ =~= seq![spec_digit(7)]);
        "7"
    } else if d == 8 {
        proof {
            reveal_strlit("8");
        }
        assert("8"@ =~= seq![spec_digit(8)]);
        "8"
    } else {
        proof {
            reveal_strlit("9");
        }
        assert("9"@ =~= seq![spec_digit(9)]);
        "9"
    }
}

/// Render a non-negative integer in decimal.
pub fn u64_to_string(n: u64) -> (r: String)
    ensures
        r@ == spec_decimal(n as int),
    decreases n,
{
    let d = digit_str(n % 10);
    if n < 10 {
        d.to_owned()
    } else {
        assert(n / 10 < n);
        let mut s = u64_to_string(n / 10);
        s.append(d);
        s
    }
}

/// Render a machine-sized integer in decimal.
pub fn usize_to_string(n: usize) -> (r: String)
    ensures
        r@ == spec_decimal(n as int),
{
    u64_to_string(n as u64)
}

/// Decimal representation of a signed integer.
pub open spec fn spec_i32_decimal(n: int) -> Seq<char> {
    if n < 0 {
        seq!['-'] + spec_decimal(-n)
    } else {
        spec_decimal(n)
    }
}

/// Render a signed integer in decimal.
pub fn i32_to_string(n: i32) -> (r: String)
    ensures
        r@ == spec_i32_decimal(n as int),
{
    if n < 0 {
        let m: i64 = n as i64;
        let mag: u64 = (-m) as u64;
        let mut s = "-".to_owned();
        s.append(u64_to_string(mag).as_str());
        proof {
            reveal_strlit("-");
            assert(s@ =~= spec_i32_decimal(n as int));
        }
        s
    } else {
        u64_to_string(n as u64)
    }
}

/// Quote the argument for shell.
pub fn quote_arg(s: &str) -> (r: String)
    ensures
        r@ == spec_quote_arg(s@),
{
    proof {
        reveal_strlit("''");
        reveal_strlit("'");
    }
    if s.unicode_len() == 0 {
        let r = "''".to_owned();
        assert(r@ =~= spec_quote_arg(s@));
        r
    } else if contains_char(s, ' ') || contains_char(s, '\'') {
        let mut r = "'".to_owned();
        r.append(s);
        r.append("'");
        assert(r@ =~= spec_quote_arg(s@));
        r
    } else {
        s.to_owned()
    }
}

/// What `quote_arg` returns: the argument, wrapped in single quotes when it
/// is empty or holds a space or a quote.
pub open spec fn spec_quote_arg(s: Seq<char>) -> Seq<char> {
    if s.len() == 0 {
        seq!['\'', '\'']
    } else if s.contains(' ') || s.contains('\'') {
        seq!['\''] + s + seq!['\'']
    } else {
        s
    }
}

/// The first line of a command's output, or an `UnexpectedOutput` error
/// carrying `message` when the command printed nothing.
pub fn first_output_line(output: &Vec<String>, message: &str) -> (r: Result<String, GitError>)
    ensures
        match r {
            Ok(line) => output@.len() > 0 && line == output@[0],
            Err(e) => output@.len() == 0 && (e matches GitError::UnexpectedOutput(m)
                && m@ == message@),
        },
{
    if output.len() == 0 {
        Err(GitError::UnexpectedOutput(message.to_owned()))
    } else {
        Ok(output[0].clone())
    }
}

} // verus!

use crate::strutil::{is_prefix_of, spec_trim, strip_prefix, trim};

verus! {

/// The messages [`GitError::describe`] renders, one per variant.
pub open spec fn spec_describe(e: GitError) -> Seq<char> {
    match e {
        GitError::NotInstalled => "git is not installed or not in PATH"@,
        GitError::CanonicalizeFail(p) => "fail to read `"@ + p@ + "`"@,
        GitError::UnexpectedOutput(m) => "unexpected output: "@ + m@,
        GitError::CommandFailed(c, m) => "failed to execute `"@ + c@ + "`: "@ + m@,
        GitError::ExitStatus(c, code) => "command `"@ + c@ + "` finished with exit code "@
            + spec_i32_decimal(code as int),
        GitError::InvalidConfig(m) => "cannot process config: "@ + m@,
        GitError::InvalidIndex(m) => "cannot process index: "@ + m@,
        GitError::ModuleNotFound(n) => "cannot find module `"@ + n@ + "`"@,
        GitError::LockFailed(p, m) => "cannot lock `"@ + p@ + "`: "@ + m@,
        GitError::NeedFix(_) => "fix the issues above and try again."@,
    }
}

impl GitError {
    /// Human-readable message for the error.
    pub fn describe(&self) -> (r: String)
        ensures
            r@ == spec_describe(*self),
    {
        match self {
            GitError::NotInstalled => "git is not installed or not in PATH".to_owned(),
            GitError::CanonicalizeFail(p) => {
                let mut s = "fail to read `".to_owned();
                s.append(p.as_str());
                s.append("`");
                assert(s@ =~= spec_describe(*self));
                s
            },
            GitError::UnexpectedOutput(m) => {
                let mut s = "unexpected output: ".to_owned();
                s.append(m.as_str());
                s
            },
            GitError::CommandFailed(c, m) => {
                let mut s = "failed to execute `".to_owned();
                s.append(c.as_str());
                s.append("`: ");
                s.append(m.as_str());
                assert(s@ =~= spec_describe(*self));
                s
            },
            GitError::ExitStatus(c, code) => {
                let mut s = "command `".to_owned();
                s.append(c.as_str());
                s.append("` finished with exit code ");
                s.append(i32_to_string(*code).as_str());
                assert(s@ =~= spec_describe(*self));
                s
            },
            GitError::InvalidConfig(m) => {
                let mut s = "cannot process config: ".to_owned();
                s.append(m.as_str());
                s
            },
            GitError::InvalidIndex(m) => {
                let mut s = "cannot process index: ".to_owned();
                s.append(m.as_str());
                s
            },
            GitError::ModuleNotFound(n) => {
                let mut s = "cannot find module `".to_owned();
                s.append(n.as_str());
                s.append("`");
                assert(s@ =~= spec_describe(*self));
                s
            },
            GitError::LockFailed(p, m) => {
                let mut s = "cannot lock `".to_owned();
                s.append(p.as_str());
                s.append("`: ");
                s.append(m.as_str());
                assert(s@ =~= spec_describe(*self));
                s
            },
            GitError::NeedFix(_) => "fix the issues above and try again.".to_owned(),
        }
    }
}

/// What `pathdiff::diff_paths` returns: the relative path that reaches
/// `path` from `base`, a function of the two paths alone.
pub uninterp spec fn diff_paths_of(path: Seq<char>, base: Seq<char>) -> Option<Seq<char>>;

/// Relies on pathdiff::diff_paths for the relative path from `base` to
/// `path`; the result depends on the two path strings alone.
#[verifier::external_body]
fn diff_paths(path: &String, base: &String) -> (r: Option<String>)
    ensures
        opt_view(r) == diff_paths_of(path@, base@),
{
    pathdiff::diff_paths(std::path::Path::new(path.as_str()), std::path::Path::new(base.as_str()))
        .map(|p| p.display().to_string())
}

/// Context for running git commands: the resolved locations every command
/// is computed against. The caller resolves them once, with
/// `git rev-parse --git-dir` and `git rev-parse --show-toplevel`, when the
/// context is created.
#[derive(Debug, Clone, PartialEq, Eq)]
pub struct GitContext {
    /// The absolute path of the working directory to run the git commands
    pub working_dir: String,
    /// The absolute path to the .git directory
    pub git_dir: String,
    /// The absolute path to the top level directory
    pub top_level_dir: String,
}

impl GitContext {
    /// A context over the three resolved directories.
    pub fn new(working_dir: String, git_dir: String, top_level_dir: String) -> (r: GitContext)
        ensures
            r.working_dir == working_dir,
            r.git_dir == git_dir,
            r.top_level_dir == top_level_dir,
    {
        GitContext { working_dir, git_dir, top_level_dir }
    }

    /// Get the absolute path to the .git directory
    pub fn git_dir(&self) -> (r: &String)
        ensures
            r == &self.git_dir,
    {
        &self.git_dir
    }

    /// Get the absolute path to the top level directory
    pub fn top_level_dir(&self) -> (r: &String)
        ensures
            r == &self.top_level_dir,
    {
        &self.top_level_dir
    }

    /// Get the path in `git -C <path> ...` to run the command in the top
    /// level directory: nothing when the caller's current directory (handed
    /// in resolved) already is the top level, the relative path to it where
    /// one exists, and the absolute top level otherwise.
    pub fn get_top_level_switch(&self, cwd: Option<&String>) -> (r: Option<String>)
        ensures
            ({
                match cwd {
                    Option::Some(c) => if c@ == self.top_level_dir@ {
                        r is None
                    } else {
                        r matches Some(s) && s@ == spec_quote_arg(
                            match diff_paths_of(self.top_level_dir@, c@) {
                                Option::Some(d) => d,
                                Option::None => self.top_level_dir@,
                            },
                        )
                    },
                    Option::None => r matches Some(s) && s@ == spec_quote_arg(self.top_level_dir@),
                }
            }),
    {
        match cwd {
            Option::Some(c) => {
                if c.eq(&self.top_level_dir) {
                    Option::None
                } else {
                    let diff = match diff_paths(&self.top_level_dir, c) {
                        Option::Some(d) => d,
                        Option::None => self.top_level_dir.clone(),
                    };
                    Option::Some(quote_arg(diff.as_str()))
                }
            },
            Option::None => Option::Some(quote_arg(self.top_level_dir.as_str())),
        }
    }
}

} // verus!

verus! {

/// The common `-C <top-level>` preamble of the commands that must run from
/// the repository top level.
pub open spec fn spec_top_args(top: Seq<char>) -> Seq<Seq<char>> {
    seq!["-C"@, top]
}

/// The optional trailing `-- <path>` of the submodule verbs.
pub open spec fn spec_path_suffix(path: Option<Seq<char>>) -> Seq<Seq<char>> {
    match path {
        Option::Some(p) => seq!["--"@, p],
        Option::None => Seq::empty(),
    }
}

/// The view of an optional borrowed string argument.
pub open spec fn opt_arg_view(o: Option<&String>) -> Option<Seq<char>> {
    match o {
        Option::Some(s) => Option::Some(s@),
        Option::None => Option::None,
    }
}

impl GitContext {
    /// Arguments of `git -C <top> ls-files <extra..>`, which lists the index.
    pub fn ls_files(&self, extra_args: &Vec<String>) -> (r: Vec<String>)
        ensures
            r.deep_view() == spec_top_args(self.top_level_dir@) + seq!["ls-files"@]
                + extra_args.deep_view(),
    {
        let mut args: Vec<String> = Vec::new();
        args.push("-C".to_owned());
        args.push(self.top_level_dir.clone());
        args.push("ls-files".to_owned());
        let mut i: usize = 0;
        while i < extra_args.len()
            invariant
                i <= extra_args@.len(),
                args@.len() == 3 + i,
                args@[0]@ == "-C"@,
                args@[1]@ == self.top_level_dir@,
                args@[2]@ == "ls-files"@,
                forall|j: int| 0 <= j < i ==> args@[3 + j]@ == #[trigger] extra_args@[j]@,
            decreases extra_args@.len() - i,
        {
            args.push(extra_args[i].clone());
            i += 1;
        }
        proof {
            assert(args.deep_view() =~= spec_top_args(self.top_level_dir@) + seq!["ls-files"@]
                + extra_args.deep_view());
        }
        args
    }

    /// Arguments of `git config -f <file> --get <key>`, which reads one
    /// config value.
    pub fn get_config(&self, config_path: &String, key: &String) -> (r: Vec<String>)
        ensures
            r.deep_view() == seq!["config"@, "-f"@, config_path@, "--get"@, key@],
    {
        let mut args: Vec<String> = Vec::new();
        args.push("config".to_owned());
        args.push("-f".to_owned());
        args.push(config_path.clone());
        args.push("--get".to_owned());
        args.push(key.clone());
        proof {
            assert(args.deep_view() =~= seq!["config"@, "-f"@, config_path@, "--get"@, key@]);
        }
        args
    }

    /// Arguments of `git config -f <file> <key> <value>` or
    /// `git config -f <file> --unset <key>`, which set or remove one config
    /// value.
    pub fn set_config(&self, config_path: &String, key: &String, value: Option<&String>) -> (r:
        Vec<String>)
        ensures
            r.deep_view() == seq!["config"@, "-f"@, config_path@] + (match value {
                Option::Some(v) => seq![key@, v@],
                Option::None => seq!["--unset"@, key@],
            }),
    {
        let mut args: Vec<String> = Vec::new();
        args.push("config".to_owned());
        args.push("-f".to_owned());
        args.push(config_path.clone());
        match value {
            Option::Some(v) => {
                args.push(key.clone());
                args.push(v.clone());
            },
            Option::None => {
                args.push("--unset".to_owned());
                args.push(key.clone());
            },
        }
        proof {
            assert(args.deep_view() =~= seq!["config"@, "-f"@, config_path@] + (match value {
                Option::Some(v) => seq![key@, v@],
                Option::None => seq!["--unset"@, key@],
            }));
        }
        args
    }

    /// Arguments of `git config -f <file> --remove-section <section>`.
    pub fn remove_config_section(&self, config_path: &String, section: &String) -> (r: Vec<String>)
        ensures
            r.deep_view() == seq![
                "config"@,
                "-f"@,
                config_path@,
                "--remove-section"@,
                section@,
            ],
    {
        let mut args: Vec<String> = Vec::new();
        args.push("config".to_owned());
        args.push("-f".to_owned());
        args.push(config_path.clone());
        args.push("--remove-section".to_owned());
        args.push(section.clone());
        proof {
            assert(args.deep_view() =~= seq![
                "config"@,
                "-f"@,
                config_path@,
                "--remove-section"@,
                section@,
            ]);
        }
        args
    }

    /// Arguments of `git -C <top> add <path>`, which stages one path.
    pub fn add(&self, path: &String) -> (r: Vec<String>)
        ensures
            r.deep_view() == spec_top_args(self.top_level_dir@) + seq!["add"@, path@],
    {
        let mut args: Vec<String> = Vec::new();
        args.push("-C".to_owned());
        args.push(self.top_level_dir.clone());
        args.push("add".to_owned());
        args.push(path.clone());
        proof {
            assert(args.deep_view() =~= spec_top_args(self.top_level_dir@) + seq!["add"@, path@]);
        }
        args
    }

    /// The two commands that drop an object from the index and stage the
    /// change: `git -C <top> rm <path>` followed by `git -C <top> add <path>`.
    /// The first may fail when the file is not in the index; the caller
    /// ignores both failures.
    pub fn remove_from_index(&self, path: &String) -> (r: (Vec<String>, Vec<String>))
        ensures
            r.0.deep_view() == spec_top_args(self.top_level_dir@) + seq!["rm"@, path@],
            r.1.deep_view() == spec_top_args(self.top_level_dir@) + seq!["add"@, path@],
    {
        let mut rm_args: Vec<String> = Vec::new();
        rm_args.push("-C".to_owned());
        rm_args.push(self.top_level_dir.clone());
        rm_args.push("rm".to_owned());
        rm_args.push(path.clone());
        let add_args = self.add(path);
        proof {
            assert(rm_args.deep_view() =~= spec_top_args(self.top_level_dir@) + seq![
                "rm"@,
                path@,
            ]);
        }
        (rm_args, add_args)
    }

    /// Arguments of `git -C <top> submodule deinit [--force] (-- <path> | --all)`.
    pub fn submodule_deinit(&self, path: Option<&String>, force: bool) -> (r: Vec<String>)
        ensures
            r.deep_view() == spec_top_args(self.top_level_dir@) + seq!["submodule"@, "deinit"@]
                + (if force {
                seq!["--force"@]
            } else {
                Seq::empty()
            }) + (match opt_arg_view(path) {
                Option::Some(p) => seq!["--"@, p],
                Option::None => seq!["--all"@],
            }),
    {
        let mut args: Vec<String> = Vec::new();
        args.push("-C".to_owned());
        args.push(self.top_level_dir.clone());
        args.push("submodule".to_owned());
        args.push("deinit".to_owned());
        if force {
            args.push("--force".to_owned());
        }
        match path {
            Option::Some(p) => {
                args.push("--".to_owned());
                args.push(p.clone());
            },
            Option::None => {
                args.push("--all".to_owned());
            },
        }
        proof {
            assert(args.deep_view() =~= spec_top_args(self.top_level_dir@) + seq![
                "submodule"@,
                "deinit"@,
            ] + (if force {
                seq!["--force"@]
            } else {
                Seq::<Seq<char>>::empty()
            }) + (match opt_arg_view(path) {
                Option::Some(p) => seq!["--"@, p],
                Option::None => seq!["--all"@],
            }));
        }
        args
    }

    /// Arguments of `git -C <top> submodule init [-- <path>]`.
    pub fn submodule_init(&self, path: Option<&String>) -> (r: Vec<String>)
        ensures
            r.deep_view() == spec_top_args(self.top_level_dir@) + seq!["submodule"@, "init"@]
                + spec_path_suffix(opt_arg_view(path)),
    {
        let mut args: Vec<String> = Vec::new();
        args.push("-C".to_owned());
        args.push(self.top_level_dir.clone());
        args.push("submodule".to_owned());
        args.push("init".to_owned());
        match path {
            Option::Some(p) => {
                args.push("--".to_owned());
                args.push(p.clone());
            },
            Option::None => {},
        }
        proof {
            assert(args.deep_view() =~= spec_top_args(self.top_level_dir@) + seq![
                "submodule"@,
                "init"@,
            ] + spec_path_suffix(opt_arg_view(path)));
        }
        args
    }

    /// Arguments of `git -C <top> submodule sync [-- <path>]`.
    pub fn submodule_sync(&self, path: Option<&String>) -> (r: Vec<String>)
        ensures
            r.deep_view() == spec_top_args(self.top_level_dir@) + seq!["submodule"@, "sync"@]
                + spec_path_suffix(opt_arg_view(path)),
    {
        let mut args: Vec<String> = Vec::new();
        args.push("-C".to_owned());
        args.push(self.top_level_dir.clone());
        args.push("submodule".to_owned());
        args.push("sync".to_owned());
        match path {
            Option::Some(p) => {
                args.push("--".to_owned());
                args.push(p.clone());
            },
            Option::None => {},
        }
        proof {
            assert(args.deep_view() =~= spec_top_args(self.top_level_dir@) + seq![
                "submodule"@,
                "sync"@,
            ] + spec_path_suffix(opt_arg_view(path)));
        }
        args
    }

    /// Arguments of `git -C <top> submodule set-branch (--branch <b> | --default) -- <path>`.
    pub fn submodule_set_branch(&self, path: &String, branch: Option<&String>) -> (r: Vec<String>)
        ensures
            r.deep_view() == spec_top_args(self.top_level_dir@) + seq![
                "submodule"@,
                "set-branch"@,
            ] + (match opt_arg_view(branch) {
                Option::Some(b) => seq!["--branch"@, b],
                Option::None => seq!["--default"@],
            }) + seq!["--"@, path@],
    {
        let mut args: Vec<String> = Vec::new();
        args.push("-C".to_owned());
        args.push(self.top_level_dir.clone());
        args.push("submodule".to_owned());
        args.push("set-branch".to_owned());
        match branch {
            Option::Some(b) => {
                args.push("--branch".to_owned());
                args.push(b.clone());
            },
            Option::None => {
                args.push("--default".to_owned());
            },
        }
        args.push("--".to_owned());
        args.push(path.clone());
        proof {
            assert(args.deep_view() =~= spec_top_args(self.top_level_dir@) + seq![
                "submodule"@,
                "set-branch"@,
            ] + (match opt_arg_view(branch) {
                Option::Some(b) => seq!["--branch"@, b],
                Option::None => seq!["--default"@],
            }) + seq!["--"@, path@]);
        }
        args
    }

    /// Arguments of `git -C <top> submodule set-url -- <path> <url>`.
    pub fn submodule_set_url(&self, path: &String, url: &String) -> (r: Vec<String>)
        ensures
            r.deep_view() == spec_top_args(self.top_level_dir@) + seq![
                "submodule"@,
                "set-url"@,
                "--"@,
                path@,
                url@,
            ],
    {
        let mut args: Vec<String> = Vec::new();
        args.push("-C".to_owned());
        args.push(self.top_level_dir.clone());
        args.push("submodule".to_owned());
        args.push("set-url".to_owned());
        args.push("--".to_owned());
        args.push(path.clone());
        args.push(url.clone());
        proof {
            assert(args.deep_view() =~= spec_top_args(self.top_level_dir@) + seq![
                "submodule"@,
                "set-url"@,
                "--"@,
                path@,
                url@,
            ]);
        }
        args
    }

    /// Arguments of `git -C <top> submodule update [--force] [--remote] [-- <path>]`.
    pub fn submodule_update(&self, path: Option<&String>, force: bool, remote: bool) -> (r: Vec<
        String,
    >)
        ensures
            r.deep_view() == spec_top_args(self.top_level_dir@) + seq!["submodule"@, "update"@]
                + (if force {
                seq!["--force"@]
            } else {
                Seq::empty()
            }) + (if remote {
                seq!["--remote"@]
            } else {
                Seq::empty()
            }) + spec_path_suffix(opt_arg_view(path)),
    {
        let mut args: Vec<String> = Vec::new();
        args.push("-C".to_owned());
        args.push(self.top_level_dir.clone());
        args.push("submodule".to_owned());
        args.push("update".to_owned());
        if force {
            args.push("--force".to_owned());
        }
        if remote {
            args.push("--remote".to_owned());
        }
        match path {
            Option::Some(p) => {
                args.push("--".to_owned());
                args.push(p.clone());
            },
            Option::None => {},
        }
        proof {
            assert(args.deep_view() =~= spec_top_args(self.top_level_dir@) + seq![
                "submodule"@,
                "update"@,
            ] + (if force {
                seq!["--force"@]
            } else {
                Seq::<Seq<char>>::empty()
            }) + (if remote {
                seq!["--remote"@]
            } else {
                Seq::<Seq<char>>::empty()
            }) + spec_path_suffix(opt_arg_view(path)));
        }
        args
    }

    /// Arguments of `git -C <top> submodule add [--force] [--branch <b>]
    /// [--name <n>] [--depth <d>] -- <url> [<path>]`.
    pub fn submodule_add(
        &self,
        url: &String,
        path: Option<&String>,
        branch: Option<&String>,
        name: Option<&String>,
        depth: Option<usize>,
        force: bool,
    ) -> (r: Vec<String>)
        ensures
            r.deep_view() == spec_top_args(self.top_level_dir@) + seq!["submodule"@, "add"@] + (
            if force {
                seq!["--force"@]
            } else {
                Seq::empty()
            }) + (match opt_arg_view(branch) {
                Option::Some(b) => seq!["--branch"@, b],
                Option::None => Seq::empty(),
            }) + (match opt_arg_view(name) {
                Option::Some(n) => seq!["--name"@, n],
                Option::None => Seq::empty(),
            }) + (match depth {
                Option::Some(d) => seq!["--depth"@, spec_decimal(d as int)],
                Option::None => Seq::empty(),
            }) + seq!["--"@, url@] + (match opt_arg_view(path) {
                Option::Some(p) => seq![p],
                Option::None => Seq::empty(),
            }),
    {
        let mut args: Vec<String> = Vec::new();
        args.push("-C".to_owned());
        args.push(self.top_level_dir.clone());
        args.push("submodule".to_owned());
        args.push("add".to_owned());
        if force {
            args.push("--force".to_owned());
        }
        match branch {
            Option::Some(b) => {
                args.push("--branch".to_owned());
                args.push(b.clone());
            },
            Option::None => {},
        }
        match name {
            Option::Some(n) => {
                args.push("--name".to_owned());
                args.push(n.clone());
            },
            Option::None => {},
        }
        match depth {
            Option::Some(d) => {
                args.push("--depth".to_owned());
                args.push(usize_to_string(d));
            },
            Option::None => {},
        }
        args.push("--".to_owned());
        args.push(url.clone());
        match path {
            Option::Some(p) => {
                args.push(p.clone());
            },
            Option::None => {},
        }
        proof {
            assert(args.deep_view() =~= spec_top_args(self.top_level_dir@) + seq![
                "submodule"@,
                "add"@,
            ] + (if force {
                seq!["--force"@]
            } else {
                Seq::<Seq<char>>::empty()
            }) + (match opt_arg_view(branch) {
                Option::Some(b) => seq!["--branch"@, b],
                Option::None => Seq::<Seq<char>>::empty(),
            }) + (match opt_arg_view(name) {
                Option::Some(n) => seq!["--name"@, n],
                Option::None => Seq::<Seq<char>>::empty(),
            }) + (match depth {
                Option::Some(d) => seq!["--depth"@, spec_decimal(d as int)],
                Option::None => Seq::<Seq<char>>::empty(),
            }) + seq!["--"@, url@] + (match opt_arg_view(path) {
                Option::Some(p) => seq![p],
                Option::None => Seq::<Seq<char>>::empty(),
            }));
        }
        args
    }

    /// Correlate the two passes of a `--get-regexp` config query: the
    /// name-only lines paired with the name-and-value lines. Each value is
    /// what follows the name on its line; both sides are trimmed. A line
    /// that does not start with its name is a malformed correlation.
    pub fn get_config_regexp(name_only: &Vec<String>, name_and_values: &Vec<String>) -> (r: Result<
        Vec<(String, String)>,
        GitError,
    >)
        ensures
            ({
                let names = name_only.deep_view();
                let navs = name_and_values.deep_view();
                let n = if names.len() <= navs.len() {
                    names.len() as int
                } else {
                    navs.len() as int
                };
                match r {
                    Ok(v) => {
                        &&& v@.len() == n
                        &&& forall|i: int|
                            0 <= i < n ==> {
                                &&& is_prefix_of(names[i], navs[i])
                                &&& #[trigger] v@[i].0@ == spec_trim(names[i])
                                &&& v@[i].1@ == spec_trim(navs[i].skip(names[i].len() as int))
                            }
                    },
                    Err(e) => {
                        &&& exists|i: int| 0 <= i < n && !is_prefix_of(names[i], navs[i])
                        &&& e matches GitError::InvalidConfig(m)
                        &&& m@ == "unexpected config key mismatch in git output."@
                    },
                }
            }),
    {
        let n = if name_only.len() <= name_and_values.len() {
            name_only.len()
        } else {
            name_and_values.len()
        };
        let mut r: Vec<(String, String)> = Vec::new();
        let mut i: usize = 0;
        while i < n
            invariant
                i <= n,
                n <= name_only@.len(),
                n <= name_and_values@.len(),
                r@.len() == i,
                forall|j: int| 0 <= j < i ==> is_prefix_of(
                    #[trigger] name_only@[j]@,
                    name_and_values@[j]@,
                ),
                forall|j: int| 0 <= j < i ==> #[trigger] r@[j].0@ == spec_trim(
                    name_only@[j]@,
                ),
                forall|j: int| 0 <= j < i ==> #[trigger] r@[j].1@ == spec_trim(
                    name_and_values@[j]@.skip(name_only@[j]@.len() as int),
                ),
            decreases n - i,
        {
            let name = name_only[i].as_str();
            match strip_prefix(name_and_values[i].as_str(), name) {
                Option::Some(value) => {
                    let ghost r0 = r@;
                    r.push((trim(name), trim(value.as_str())));
                    proof {
                        assert forall|j: int| 0 <= j < i + 1 implies is_prefix_of(
                            #[trigger] name_only@[j]@,
                            name_and_values@[j]@,
                        ) by {
                            if j < i {
                                assert(r0[j] == r0[j]);
                            }
                        }
                        assert forall|j: int| 0 <= j < i + 1 implies #[trigger] r@[j].0@
                            == spec_trim(name_only@[j]@) by {
                            if j < i {
                                assert(r@[j] == r0[j]);
                            }
                        }
                        assert forall|j: int| 0 <= j < i + 1 implies #[trigger] r@[j].1@
                            == spec_trim(
                            name_and_values@[j]@.skip(name_only@[j]@.len() as int),
                        ) by {
                            if j < i {
                                assert(r@[j] == r0[j]);
                            }
                        }
                    }
                },
                Option::None => {
                    proof {
                        let names = name_only.deep_view();
                        let navs = name_and_values.deep_view();
                        assert(names[i as int] == name_only@[i as int]@);
                        assert(navs[i as int] == name_and_values@[i as int]@);
                        assert(!is_prefix_of(names[i as int], navs[i as int]));
                    }
                    return Err(
                        GitError::InvalidConfig(
                            "unexpected config key mismatch in git output.".to_owned(),
                        ),
                    );
                },
            }
            i += 1;
        }
        proof {
            let names = name_only.deep_view();
            let navs = name_and_values.deep_view();
            assert(forall|j: int| 0 <= j < n ==> #[trigger] names[j] == name_only@[j]@);
            assert(forall|j: int| 0 <= j < n ==> #[trigger] navs[j] == name_and_values@[j]@);
        }
        Ok(r)
    }
}

} // verus!

verus! {

impl GitContext {
    /// Arguments of `git config -f <file> --unset <key>`, which removes one
    /// config value.
    pub fn unset_config(&self, config_path: &String, key: &String) -> (r: Vec<String>)
        ensures
            r.deep_view() == seq!["config"@, "-f"@, config_path@, "--unset"@, key@],
    {
        let mut args: Vec<String> = Vec::new();
        args.push("config".to_owned());
        args.push("-f".to_owned());
        args.push(config_path.clone());
        args.push("--unset".to_owned());
        args.push(key.clone());
        proof {
            assert(args.deep_view() =~= seq!["config"@, "-f"@, config_path@, "--unset"@, key@]);
        }
        args
    }
}

} // verus!
