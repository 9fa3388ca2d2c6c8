//! Reading and merging the four sources of truth into a [`Status`]: one
//! record per submodule name, plus the nameless records that exist only in
//! the index.
//!
//! The readers here are pure: they take the raw key/value pairs or output
//! lines that the caller obtained from git and turn them into partial
//! records. The merge unifies the partial records by name, and last by path
//! for the index, which knows no names.

use vstd::prelude::*;
use vstd::string::StrSliceExecFns;

use crate::git::GitError;
use crate::strutil::{opt_view, strip_prefix, strip_suffix, split_once_char, is_prefix_of, is_suffix_of};
use crate::submodule::{
    GitConfigView, GitmodulesView, GitModuleView, InGitConfig, InGitModule, InGitmodules,
    IndexObject, IndexObjectView, Submodule, SubmoduleView,
};

verus! {

/// The views of a vector of key/value pairs.
pub open spec fn pairs_view(v: Seq<(String, String)>) -> Seq<(Seq<char>, Seq<char>)> {
    Seq::new(v.len(), |i: int| (v[i].0@, v[i].1@))
}

/// The views of a vector of output lines.
pub open spec fn lines_view(v: Seq<String>) -> Seq<Seq<char>> {
    Seq::new(v.len(), |i: int| v[i]@)
}

/// The views of a keyed vector of records.
pub open spec fn kv_view<T: View>(v: Seq<(String, T)>) -> Seq<(Seq<char>, T::V)> {
    Seq::new(v.len(), |i: int| (v[i].0@, v[i].1@))
}

/// The views of a vector of index entries.
pub open spec fn index_view(v: Seq<IndexObject>) -> Seq<IndexObjectView> {
    Seq::new(v.len(), |i: int| v[i]@)
}

/// The views of a vector of module-store records.
pub open spec fn modules_view(v: Seq<InGitModule>) -> Seq<GitModuleView> {
    Seq::new(v.len(), |i: int| v[i]@)
}

/// Index of the first entry with the given key, or `-1` if there is none.
pub open spec fn spec_first_key<T>(m: Seq<(Seq<char>, T)>, name: Seq<char>) -> int
    decreases m.len(),
{
    if m.len() == 0 {
        -1
    } else if m[0].0 == name {
        0
    } else {
        let r = spec_first_key(m.drop_first(), name);
        if r < 0 {
            -1
        } else {
            r + 1
        }
    }
}

/// What [`spec_first_key`] returns: either `-1` and no entry has the key, or
/// the first position whose entry has the key.
pub proof fn lemma_first_key_char<T>(m: Seq<(Seq<char>, T)>, name: Seq<char>)
    ensures
        ({
            let r = spec_first_key(m, name);
            ||| (r == -1 && forall|j: int| 0 <= j < m.len() ==> m[j].0 != name)
            ||| (0 <= r < m.len() && m[r].0 == name && forall|j: int| 0 <= j < r ==> m[j].0 != name)
        }),
    decreases m.len(),
{
    if m.len() > 0 && m[0].0 != name {
        lemma_first_key_char(m.drop_first(), name);
        let rr = spec_first_key(m.drop_first(), name);
        if rr >= 0 {
            assert(spec_first_key(m, name) == rr + 1);
            assert(m[rr + 1] == m.drop_first()[rr]);
            assert forall|j: int| 0 <= j < rr + 1 implies m[j].0 != name by {
                if j >= 1 {
                    assert(m[j] == m.drop_first()[j - 1]);
                }
            }
        } else {
            assert(spec_first_key(m, name) == -1);
            assert forall|j: int| 0 <= j < m.len() implies m[j].0 != name by {
                if j >= 1 {
                    assert(m[j] == m.drop_first()[j - 1]);
                }
            }
        }
    }
}

/// Two keyed sequences with pointwise equal keys have the same first
/// position for every key.
pub proof fn lemma_first_key_same_keys<T, U>(
    m1: Seq<(Seq<char>, T)>,
    m2: Seq<(Seq<char>, U)>,
    name: Seq<char>,
)
    requires
        m1.len() == m2.len(),
        forall|i: int| 0 <= i < m1.len() ==> m1[i].0 == m2[i].0,
    ensures
        spec_first_key(m1, name) == spec_first_key(m2, name),
{
    lemma_first_key_char(m1, name);
    lemma_first_key_char(m2, name);
    let r1 = spec_first_key(m1, name);
    let r2 = spec_first_key(m2, name);
    if r1 == -1 && r2 != -1 {
        assert(m1[r2].0 == name);
    } else if r1 != -1 && r2 == -1 {
        assert(m2[r1].0 == name);
    } else if r1 != -1 && r2 != -1 && r1 != r2 {
        if r1 < r2 {
            assert(m2[r1].0 == name);
        } else {
            assert(m1[r2].0 == name);
        }
    }
}

/// Find the first entry with the given key.
fn find_key<T: View>(m: &Vec<(String, T)>, name: &str) -> (r: Option<usize>)
    ensures
        match r {
            Some(i) => {
                &&& spec_first_key(kv_view(m@), name@) == i
                &&& i < m@.len()
                &&& kv_view(m@)[i as int].0 == name@
            },
            None => spec_first_key(kv_view(m@), name@) == -1,
        },
{
    let mut i: usize = 0;
    while i < m.len()
        invariant
            i <= m@.len(),
            forall|j: int| 0 <= j < i ==> kv_view(m@)[j].0 != name@,
        decreases m@.len() - i,
    {
        if crate::strutil::str_eq(m[i].0.as_str(), name) {
            proof {
                assert(kv_view(m@)[i as int].0 == m@[i as int].0@);
                lemma_first_key_char(kv_view(m@), name@);
                let rr = spec_first_key(kv_view(m@), name@);
                if rr == -1 {
                    assert(false);
                } else if rr < i {
                    assert(kv_view(m@)[rr].0 == name@);
                    assert(false);
                } else if rr > i {
                    assert(kv_view(m@)[i as int].0 != name@);
                    assert(false);
                }
            }
            return Some(i);
        }
        proof {
            assert(kv_view(m@)[i as int].0 == m@[i as int].0@);
        }
        i += 1;
    }
    proof {
        lemma_first_key_char(kv_view(m@), name@);
        let rr = spec_first_key(kv_view(m@), name@);
        if rr >= 0 {
            assert(kv_view(m@)[rr].0 == name@);
            assert(false);
        }
    }
    None
}

} // verus!

use crate::strutil::clone_opt;

verus! {

/// A field of a manifest entry that a `submodule.<name>.<field>` key sets.
#[derive(Debug, Clone, Copy, PartialEq, Eq, Structural)]
pub enum GmField {
    /// The `path` suffix
    Path,
    /// The `url` suffix
    Url,
    /// The `branch` suffix
    Branch,
}

/// One manifest record with one field set to `value`, the rest untouched
/// (absent for a fresh record).
pub open spec fn spec_gm_set_field(g: GitmodulesView, value: Seq<char>, field: GmField) -> GitmodulesView {
    match field {
        GmField::Path => GitmodulesView { path: Option::Some(value), ..g },
        GmField::Url => GitmodulesView { url: Option::Some(value), ..g },
        GmField::Branch => GitmodulesView { branch: Option::Some(value), ..g },
    }
}

/// Setting one field of the record named `name`, creating the record if it
/// is new. A later entry for the same name and field wins over an earlier
/// one.
pub open spec fn spec_gm_upsert(
    m: Seq<(Seq<char>, GitmodulesView)>,
    name: Seq<char>,
    value: Seq<char>,
    field: GmField,
) -> Seq<(Seq<char>, GitmodulesView)> {
    let i = spec_first_key(m, name);
    if i >= 0 {
        m.update(i, (m[i].0, spec_gm_set_field(m[i].1, value, field)))
    } else {
        let g0 = GitmodulesView { name: name, path: Option::None, url: Option::None, branch: Option::None };
        m.push((name, spec_gm_set_field(g0, value, field)))
    }
}

/// One key/value pair applied to the manifest map: keys shaped
/// `<name>.path`, `<name>.url` and `<name>.branch` set the respective field;
/// unrecognized suffixes are ignored.
pub open spec fn spec_gm_apply(
    m: Seq<(Seq<char>, GitmodulesView)>,
    key: Seq<char>,
    value: Seq<char>,
) -> Seq<(Seq<char>, GitmodulesView)> {
    if is_suffix_of(".path"@, key) {
        spec_gm_upsert(m, key.take(key.len() - ".path"@.len()), value, GmField::Path)
    } else if is_suffix_of(".url"@, key) {
        spec_gm_upsert(m, key.take(key.len() - ".url"@.len()), value, GmField::Url)
    } else if is_suffix_of(".branch"@, key) {
        spec_gm_upsert(m, key.take(key.len() - ".branch"@.len()), value, GmField::Branch)
    } else {
        m
    }
}

/// The manifest map a list of `submodule.`-stripped key/value pairs
/// describes, grouped by name, later values winning.
pub open spec fn spec_read_gitmodules(entries: Seq<(Seq<char>, Seq<char>)>) -> Seq<
    (Seq<char>, GitmodulesView),
>
    decreases entries.len(),
{
    if entries.len() == 0 {
        Seq::empty()
    } else {
        spec_gm_apply(
            spec_read_gitmodules(entries.drop_last()),
            entries.last().0,
            entries.last().1,
        )
    }
}

fn gm_upsert(r: &mut Vec<(String, InGitmodules)>, name: &str, value: &String, field: GmField)
    ensures
        kv_view(final(r)@) == spec_gm_upsert(kv_view(old(r)@), name@, value@, field),
{
    match find_key(r, name) {
        Some(i) => {
            let updated = match field {
                GmField::Path => InGitmodules {
                    name: r[i].1.name.clone(),
                    path: Option::Some(value.clone()),
                    url: clone_opt(&r[i].1.url),
                    branch: clone_opt(&r[i].1.branch),
                },
                GmField::Url => InGitmodules {
                    name: r[i].1.name.clone(),
                    path: clone_opt(&r[i].1.path),
                    url: Option::Some(value.clone()),
                    branch: clone_opt(&r[i].1.branch),
                },
                GmField::Branch => InGitmodules {
                    name: r[i].1.name.clone(),
                    path: clone_opt(&r[i].1.path),
                    url: clone_opt(&r[i].1.url),
                    branch: Option::Some(value.clone()),
                },
            };
            let k = r[i].0.clone();
            r.set(i, (k, updated));
            assert(kv_view(r@) =~= spec_gm_upsert(kv_view(old(r)@), name@, value@, field));
        },
        None => {
            let fresh = InGitmodules::with_name(name);
            let updated = match field {
                GmField::Path => InGitmodules {
                    path: Option::Some(value.clone()),
                    ..fresh
                },
                GmField::Url => InGitmodules { url: Option::Some(value.clone()), ..fresh },
                GmField::Branch => InGitmodules {
                    branch: Option::Some(value.clone()),
                    ..fresh
                },
            };
            r.push((name.to_owned(), updated));
            assert(kv_view(r@) =~= spec_gm_upsert(kv_view(old(r)@), name@, value@, field));
        },
    }
}

/// The Status data: the named records and the nameless index-only records.
#[derive(Debug, Clone, PartialEq)]
pub struct Status {
    /// The submodule records keyed by name, in order of first appearance
    pub modules: Vec<(String, Submodule)>,
    /// The submodules that only exist in the index (thus don't have a name,
    /// only a path and a commit hash)
    pub nameless: Vec<Submodule>,
}

/// Ghost mirror of [`Status`].
pub ghost struct StatusView {
    pub modules: Seq<(Seq<char>, SubmoduleView)>,
    pub nameless: Seq<SubmoduleView>,
}

impl View for Status {
    type V = StatusView;

    open spec fn view(&self) -> StatusView {
        StatusView {
            modules: kv_view(self.modules@),
            nameless: Seq::new(self.nameless@.len(), |i: int| self.nameless@[i]@),
        }
    }
}

impl Status {
    /// Group `submodule.`-stripped key/value pairs read from the manifest by
    /// submodule name, recognizing the `path`, `url` and `branch` suffixes.
    pub fn read_dot_gitmodules(entries: &Vec<(String, String)>) -> (r: Vec<(String, InGitmodules)>)
        ensures
            kv_view(r@) == spec_read_gitmodules(pairs_view(entries@)),
    {
        let mut r: Vec<(String, InGitmodules)> = Vec::new();
        let mut idx: usize = 0;
        while idx < entries.len()
            invariant
                idx <= entries@.len(),
                kv_view(r@) == spec_read_gitmodules(pairs_view(entries@).take(idx as int)),
            decreases entries@.len() - idx,
        {
            let ghost pre = pairs_view(entries@).take(idx as int);
            let key = entries[idx].0.as_str();
            let value = &entries[idx].1;
            if let Some(name) = strip_suffix(key, ".path") {
                gm_upsert(&mut r, name.as_str(), value, GmField::Path);
            } else if let Some(name) = strip_suffix(key, ".url") {
                gm_upsert(&mut r, name.as_str(), value, GmField::Url);
            } else if let Some(name) = strip_suffix(key, ".branch") {
                gm_upsert(&mut r, name.as_str(), value, GmField::Branch);
            }
            proof {
                assert(pairs_view(entries@).take(idx + 1).drop_last() =~= pre);
                assert(pairs_view(entries@).take(idx + 1).last() == (
                    entries@[idx as int].0@,
                    entries@[idx as int].1@,
                ));
            }
            idx += 1;
        }
        proof {
            assert(pairs_view(entries@).take(entries@.len() as int) =~= pairs_view(entries@));
        }
        r
    }
}

} // verus!

use crate::strutil::{lemma_find_char_char, spec_find_char};
use vstd::prelude::*;

verus! {

/// Setting the resolved URL of the record named `name`, creating the record
/// if it is new. A later entry for the same name wins.
pub open spec fn spec_cfg_upsert(
    m: Seq<(Seq<char>, GitConfigView)>,
    name: Seq<char>,
    value: Seq<char>,
) -> Seq<(Seq<char>, GitConfigView)> {
    let i = spec_first_key(m, name);
    if i >= 0 {
        m.update(i, (m[i].0, GitConfigView { name: m[i].1.name, url: value }))
    } else {
        m.push((name, GitConfigView { name: name, url: value }))
    }
}

/// One key/value pair applied to the local-config map: only keys shaped
/// `<name>.url` are recognized.
pub open spec fn spec_cfg_apply(
    m: Seq<(Seq<char>, GitConfigView)>,
    key: Seq<char>,
    value: Seq<char>,
) -> Seq<(Seq<char>, GitConfigView)> {
    if is_suffix_of(".url"@, key) {
        spec_cfg_upsert(m, key.take(key.len() - ".url"@.len()), value)
    } else {
        m
    }
}

/// The local-config map a list of `submodule.`-stripped key/value pairs
/// describes.
pub open spec fn spec_read_git_config(entries: Seq<(Seq<char>, Seq<char>)>) -> Seq<
    (Seq<char>, GitConfigView),
>
    decreases entries.len(),
{
    if entries.len() == 0 {
        Seq::empty()
    } else {
        spec_cfg_apply(
            spec_read_git_config(entries.drop_last()),
            entries.last().0,
            entries.last().1,
        )
    }
}

fn cfg_upsert(r: &mut Vec<(String, InGitConfig)>, name: &str, value: &String)
    ensures
        kv_view(final(r)@) == spec_cfg_upsert(kv_view(old(r)@), name@, value@),
{
    match find_key(r, name) {
        Some(i) => {
            let k = r[i].0.clone();
            let updated = InGitConfig { name: r[i].1.name.clone(), url: value.clone() };
            r.set(i, (k, updated));
            assert(kv_view(r@) =~= spec_cfg_upsert(kv_view(old(r)@), name@, value@));
        },
        None => {
            let rec = InGitConfig { name: name.to_owned(), url: value.clone() };
            r.push((name.to_owned(), rec));
            assert(kv_view(r@) =~= spec_cfg_upsert(kv_view(old(r)@), name@, value@));
        },
    }
}

impl Status {
    /// Group `submodule.`-stripped key/value pairs read from the local config
    /// by submodule name, recognizing only the `url` suffix.
    pub fn read_dot_git_config(entries: &Vec<(String, String)>) -> (r: Vec<(String, InGitConfig)>)
        ensures
            kv_view(r@) == spec_read_git_config(pairs_view(entries@)),
    {
        let mut r: Vec<(String, InGitConfig)> = Vec::new();
        let mut idx: usize = 0;
        while idx < entries.len()
            invariant
                idx <= entries@.len(),
                kv_view(r@) == spec_read_git_config(pairs_view(entries@).take(idx as int)),
            decreases entries@.len() - idx,
        {
            let ghost pre = pairs_view(entries@).take(idx as int);
            let key = entries[idx].0.as_str();
            let value = &entries[idx].1;
            if let Some(name) = strip_suffix(key, ".url") {
                cfg_upsert(&mut r, name.as_str(), value);
            }
            proof {
                assert(pairs_view(entries@).take(idx + 1).drop_last() =~= pre);
                assert(pairs_view(entries@).take(idx + 1).last() == (
                    entries@[idx as int].0@,
                    entries@[idx as int].1@,
                ));
            }
            idx += 1;
        }
        proof {
            assert(pairs_view(entries@).take(entries@.len() as int) =~= pairs_view(entries@));
        }
        r
    }
}

} // verus!

verus! {

/// Index of the first entry with the given path, or `-1` if there is none.
pub open spec fn spec_first_path(m: Seq<IndexObjectView>, path: Seq<char>) -> int
    decreases m.len(),
{
    if m.len() == 0 {
        -1
    } else if m[0].path == path {
        0
    } else {
        let r = spec_first_path(m.drop_first(), path);
        if r < 0 {
            -1
        } else {
            r + 1
        }
    }
}

/// What [`spec_first_path`] returns: either `-1` and no entry has the path,
/// or the first position whose entry has the path.
pub proof fn lemma_first_path_char(m: Seq<IndexObjectView>, path: Seq<char>)
    ensures
        ({
            let r = spec_first_path(m, path);
            ||| (r == -1 && forall|j: int| 0 <= j < m.len() ==> m[j].path != path)
            ||| (0 <= r < m.len() && m[r].path == path && forall|j: int|
                0 <= j < r ==> m[j].path != path)
        }),
    decreases m.len(),
{
    if m.len() > 0 && m[0].path != path {
        lemma_first_path_char(m.drop_first(), path);
        let rr = spec_first_path(m.drop_first(), path);
        if rr >= 0 {
            assert(m[rr + 1] == m.drop_first()[rr]);
            assert forall|j: int| 0 <= j < rr + 1 implies m[j].path != path by {
                if j >= 1 {
                    assert(m[j] == m.drop_first()[j - 1]);
                }
            }
        } else {
            assert forall|j: int| 0 <= j < m.len() implies m[j].path != path by {
                if j >= 1 {
                    assert(m[j] == m.drop_first()[j - 1]);
                }
            }
        }
    }
}

/// Find the first index entry with the given path.
fn find_path(m: &Vec<IndexObject>, path: &str) -> (r: Option<usize>)
    ensures
        match r {
            Some(i) => {
                &&& spec_first_path(index_view(m@), path@) == i
                &&& i < m@.len()
                &&& index_view(m@)[i as int].path == path@
            },
            None => spec_first_path(index_view(m@), path@) == -1,
        },
{
    let mut i: usize = 0;
    while i < m.len()
        invariant
            i <= m@.len(),
            forall|j: int| 0 <= j < i ==> index_view(m@)[j].path != path@,
        decreases m@.len() - i,
    {
        if crate::strutil::str_eq(m[i].path.as_str(), path) {
            proof {
                assert(index_view(m@)[i as int].path == m@[i as int].path@);
                lemma_first_path_char(index_view(m@), path@);
                let rr = spec_first_path(index_view(m@), path@);
                if rr == -1 {
                    assert(false);
                } else if rr < i {
                    assert(index_view(m@)[rr].path == path@);
                    assert(false);
                } else if rr > i {
                    assert(index_view(m@)[i as int].path != path@);
                    assert(false);
                }
            }
            return Some(i);
        }
        proof {
            assert(index_view(m@)[i as int].path == m@[i as int].path@);
        }
        i += 1;
    }
    proof {
        lemma_first_path_char(index_view(m@), path@);
        let rr = spec_first_path(index_view(m@), path@);
        if rr >= 0 {
            assert(index_view(m@)[rr].path == path@);
            assert(false);
        }
    }
    None
}

/// Adding one index entry: a later entry for the same path replaces an
/// earlier one.
pub open spec fn spec_index_upsert(m: Seq<IndexObjectView>, io: IndexObjectView) -> Seq<
    IndexObjectView,
> {
    let i = spec_first_path(m, io.path);
    if i >= 0 {
        m.update(i, io)
    } else {
        m.push(io)
    }
}

/// One `git ls-files` output line applied to the index map: only lines with
/// the gitlink file mode `160000` denote submodules; the rest of such a line
/// is `<hash> <path>`, and a line with no path is malformed.
pub open spec fn spec_index_apply(m: Seq<IndexObjectView>, line: Seq<char>) -> Result<
    Seq<IndexObjectView>,
    (),
> {
    if !is_prefix_of("160000 "@, line) {
        Ok(m)
    } else {
        let rest = line.skip("160000 "@.len() as int);
        let i = spec_find_char(rest, ' ');
        if i < 0 {
            Err(())
        } else {
            Ok(spec_index_upsert(m, IndexObjectView { path: rest.skip(i + 1), sha: rest.take(i) }))
        }
    }
}

/// The index map a `git ls-files` listing describes: the gitlink entries
/// keyed by path.
pub open spec fn spec_read_index(lines: Seq<Seq<char>>) -> Result<Seq<IndexObjectView>, ()>
    decreases lines.len(),
{
    if lines.len() == 0 {
        Ok(Seq::empty())
    } else {
        match spec_read_index(lines.drop_last()) {
            Err(e) => Err(e),
            Ok(m) => spec_index_apply(m, lines.last()),
        }
    }
}

/// A malformed line poisons the whole listing: once a prefix of the lines
/// fails to parse, the full listing fails too.
proof fn lemma_read_index_err_persists(lines: Seq<Seq<char>>, k: int)
    requires
        0 <= k <= lines.len(),
        spec_read_index(lines.take(k)) is Err,
    ensures
        spec_read_index(lines) is Err,
    decreases lines.len(),
{
    if k == lines.len() {
        assert(lines.take(k) =~= lines);
    } else {
        assert(lines.drop_last().take(k) =~= lines.take(k));
        lemma_read_index_err_persists(lines.drop_last(), k);
    }
}

impl Status {
    /// Parse a `git ls-files` listing into the index entries that denote
    /// submodules: the lines with file mode `160000`, holding `<hash> <path>`.
    pub fn read_submodules_in_index(lines: &Vec<String>) -> (r: Result<Vec<IndexObject>, GitError>)
        ensures
            match r {
                Ok(v) => spec_read_index(lines_view(lines@)) == Ok::<Seq<IndexObjectView>, ()>(
                    index_view(v@),
                ),
                Err(e) => spec_read_index(lines_view(lines@)) is Err && (
                e matches GitError::InvalidIndex(m) && m@ == "missing path in output"@),
            },
    {
        let mut r: Vec<IndexObject> = Vec::new();
        proof {
            assert(lines_view(lines@).take(0) =~= Seq::<Seq<char>>::empty());
            assert(index_view(r@) =~= Seq::<IndexObjectView>::empty());
        }
        let mut idx: usize = 0;
        while idx < lines.len()
            invariant
                idx <= lines@.len(),
                spec_read_index(lines_view(lines@).take(idx as int)) == Ok::<
                    Seq<IndexObjectView>,
                    (),
                >(index_view(r@)),
            decreases lines@.len() - idx,
        {
            let ghost pre = lines_view(lines@).take(idx as int);
            let line = lines[idx].as_str();
            if let Some(rest) = strip_prefix(line, "160000 ") {
                match split_once_char(rest.as_str(), ' ') {
                    Some((sha, path)) => {
                        let io = IndexObject { path, sha };
                        let ghost m0 = index_view(r@);
                        match find_path(&r, io.path.as_str()) {
                            Some(i) => {
                                r.set(i, io);
                                assert(index_view(r@) =~= spec_index_upsert(m0, io@));
                            },
                            None => {
                                r.push(io);
                                assert(index_view(r@) =~= spec_index_upsert(m0, io@));
                            },
                        }
                    },
                    None => {
                        proof {
                            assert(lines_view(lines@).take(idx + 1).drop_last() =~= pre);
                            assert(spec_read_index(lines_view(lines@).take(idx + 1)) is Err);
                            lemma_read_index_err_persists(lines_view(lines@), idx + 1);
                        }
                        return Err(GitError::InvalidIndex("missing path in output".to_owned()));
                    },
                }
            }
            proof {
                assert(lines_view(lines@).take(idx + 1).drop_last() =~= pre);
                assert(lines_view(lines@).take(idx + 1).last() == lines@[idx as int]@);
            }
            idx += 1;
        }
        proof {
            assert(lines_view(lines@).take(lines@.len() as int) =~= lines_view(lines@));
        }
        Ok(r)
    }
}

} // verus!

use crate::submodule::{
    clone_in_config, clone_in_git_module, clone_in_gitmodules, clone_index_object,
    clone_submodule, spec_path,
};

verus! {

/// Phase one of the merge: each manifest record founds a submodule record.
pub open spec fn spec_merge_gitmodules(gm: Seq<(Seq<char>, GitmodulesView)>) -> Seq<
    (Seq<char>, SubmoduleView),
>
    decreases gm.len(),
{
    if gm.len() == 0 {
        Seq::empty()
    } else {
        spec_merge_gitmodules(gm.drop_last()).push(
            (
                gm.last().0,
                SubmoduleView {
                    in_gitmodules: Option::Some(gm.last().1),
                    in_config: Option::None,
                    in_modules: Option::None,
                    in_index: Option::None,
                },
            ),
        )
    }
}

/// Phase two, one record: a local-config record joins the record of its
/// name, or founds a new one.
pub open spec fn spec_merge_config_one(
    m: Seq<(Seq<char>, SubmoduleView)>,
    name: Seq<char>,
    c: GitConfigView,
) -> Seq<(Seq<char>, SubmoduleView)> {
    let i = spec_first_key(m, name);
    if i >= 0 {
        m.update(i, (m[i].0, SubmoduleView { in_config: Option::Some(c), ..m[i].1 }))
    } else {
        m.push(
            (
                name,
                SubmoduleView {
                    in_gitmodules: Option::None,
                    in_config: Option::Some(c),
                    in_modules: Option::None,
                    in_index: Option::None,
                },
            ),
        )
    }
}

/// Phase two of the merge: all local-config records, in order.
pub open spec fn spec_merge_config(
    m: Seq<(Seq<char>, SubmoduleView)>,
    cfgs: Seq<(Seq<char>, GitConfigView)>,
) -> Seq<(Seq<char>, SubmoduleView)>
    decreases cfgs.len(),
{
    if cfgs.len() == 0 {
        m
    } else {
        spec_merge_config_one(
            spec_merge_config(m, cfgs.drop_last()),
            cfgs.last().0,
            cfgs.last().1,
        )
    }
}

/// Phase three, one record: a module-store record joins the record of its
/// name; it founds a new record only when the full trace is requested.
pub open spec fn spec_merge_modules_one(
    m: Seq<(Seq<char>, SubmoduleView)>,
    md: GitModuleView,
    all: bool,
) -> Seq<(Seq<char>, SubmoduleView)> {
    let i = spec_first_key(m, md.name);
    if i >= 0 {
        m.update(i, (m[i].0, SubmoduleView { in_modules: Option::Some(md), ..m[i].1 }))
    } else if all {
        m.push(
            (
                md.name,
                SubmoduleView {
                    in_gitmodules: Option::None,
                    in_config: Option::None,
                    in_modules: Option::Some(md),
                    in_index: Option::None,
                },
            ),
        )
    } else {
        m
    }
}

/// Phase three of the merge: all module-store records, in order.
pub open spec fn spec_merge_modules(
    m: Seq<(Seq<char>, SubmoduleView)>,
    mods: Seq<GitModuleView>,
    all: bool,
) -> Seq<(Seq<char>, SubmoduleView)>
    decreases mods.len(),
{
    if mods.len() == 0 {
        m
    } else {
        spec_merge_modules_one(spec_merge_modules(m, mods.drop_last(), all), mods.last(), all)
    }
}

/// Phase four of the merge: the index knows no names, so each record with a
/// resolvable path takes the index entry of that path out of the pool; what
/// stays in the pool matched no record.
pub open spec fn spec_merge_index(
    m: Seq<(Seq<char>, SubmoduleView)>,
    pool: Seq<IndexObjectView>,
) -> (Seq<(Seq<char>, SubmoduleView)>, Seq<IndexObjectView>)
    decreases m.len(),
{
    if m.len() == 0 {
        (m, pool)
    } else {
        let step = ({
            match spec_path(m[0].1) {
                Option::Some(path) => {
                    let j = spec_first_path(pool, path);
                    if j >= 0 {
                        (
                            (m[0].0, SubmoduleView { in_index: Option::Some(pool[j]), ..m[0].1 }),
                            pool.remove(j),
                        )
                    } else {
                        (m[0], pool)
                    }
                },
                Option::None => (m[0], pool),
            }
        });
        let rest = spec_merge_index(m.drop_first(), step.1);
        (seq![step.0] + rest.0, rest.1)
    }
}

/// The status the four partial views merge into: manifest records first,
/// then local-config records by name, then module-store records by name,
/// then the index entries by path. The index entries that match no record
/// become the nameless records when the full trace is requested, and are
/// dropped otherwise.
pub open spec fn spec_read_from(
    gm: Seq<(Seq<char>, GitmodulesView)>,
    cfgs: Seq<(Seq<char>, GitConfigView)>,
    mods: Seq<GitModuleView>,
    index: Seq<IndexObjectView>,
    all: bool,
) -> StatusView {
    let m0 = spec_merge_gitmodules(gm);
    let m1 = spec_merge_config(m0, cfgs);
    let m2 = spec_merge_modules(m1, mods, all);
    let merged = spec_merge_index(m2, index);
    StatusView {
        modules: merged.0,
        nameless: if all {
            Seq::new(
                merged.1.len(),
                |i: int|
                    SubmoduleView {
                        in_gitmodules: Option::None,
                        in_config: Option::None,
                        in_modules: Option::None,
                        in_index: Option::Some(merged.1[i]),
                    },
            )
        } else {
            Seq::empty()
        },
    }
}

fn merge_config_one(m: &mut Vec<(String, Submodule)>, name: &str, c: &InGitConfig)
    ensures
        kv_view(final(m)@) == spec_merge_config_one(kv_view(old(m)@), name@, c@),
{
    match find_key(m, name) {
        Some(i) => {
            let k = m[i].0.clone();
            let updated = Submodule {
                in_config: Option::Some(clone_in_config(c)),
                ..clone_submodule(&m[i].1)
            };
            m.set(i, (k, updated));
            assert(kv_view(m@) =~= spec_merge_config_one(kv_view(old(m)@), name@, c@));
        },
        None => {
            m.push(
                (
                    name.to_owned(),
                    Submodule {
                        in_gitmodules: Option::None,
                        in_config: Option::Some(clone_in_config(c)),
                        in_modules: Option::None,
                        in_index: Option::None,
                    },
                ),
            );
            assert(kv_view(m@) =~= spec_merge_config_one(kv_view(old(m)@), name@, c@));
        },
    }
}

fn merge_modules_one(m: &mut Vec<(String, Submodule)>, md: &InGitModule, all: bool)
    ensures
        kv_view(final(m)@) == spec_merge_modules_one(kv_view(old(m)@), md@, all),
{
    match find_key(m, md.name.as_str()) {
        Some(i) => {
            let k = m[i].0.clone();
            let updated = Submodule {
                in_modules: Option::Some(clone_in_git_module(md)),
                ..clone_submodule(&m[i].1)
            };
            m.set(i, (k, updated));
            assert(kv_view(m@) =~= spec_merge_modules_one(kv_view(old(m)@), md@, all));
        },
        None => {
            if all {
                m.push(
                    (
                        md.name.clone(),
                        Submodule {
                            in_gitmodules: Option::None,
                            in_config: Option::None,
                            in_modules: Option::Some(clone_in_git_module(md)),
                            in_index: Option::None,
                        },
                    ),
                );
            }
            assert(kv_view(m@) =~= spec_merge_modules_one(kv_view(old(m)@), md@, all));
        },
    }
}

impl Status {
    /// Merge the four partial views into one record per submodule name. The
    /// manifest records come first, then the local-config and module-store
    /// records merge in by name, and the index entries merge in last, by
    /// path, since the index knows no names. With `all`, the index entries
    /// that matched no record become the nameless records, and module-store
    /// records found records of their own.
    pub fn read_from(
        gitmodules: &Vec<(String, InGitmodules)>,
        config: &Vec<(String, InGitConfig)>,
        modules: &Vec<InGitModule>,
        index: Vec<IndexObject>,
        all: bool,
    ) -> (r: Status)
        ensures
            r@ == spec_read_from(
                kv_view(gitmodules@),
                kv_view(config@),
                modules_view(modules@),
                index_view(index@),
                all,
            ),
    {
        let ghost gmv = kv_view(gitmodules@);
        let ghost cfgv = kv_view(config@);
        let ghost modv = modules_view(modules@);
        let ghost idxv = index_view(index@);

        // phase one: manifest records found the map
        let mut m: Vec<(String, Submodule)> = Vec::new();
        proof {
            assert(kv_view(m@) =~= spec_merge_gitmodules(gmv.take(0)));
        }
        let mut i: usize = 0;
        while i < gitmodules.len()
            invariant
                i <= gmv.len(),
                gmv == kv_view(gitmodules@),
                kv_view(m@) == spec_merge_gitmodules(gmv.take(i as int)),
            decreases gmv.len() - i,
        {
            let ghost pre = gmv.take(i as int);
            m.push(
                (
                    gitmodules[i].0.clone(),
                    Submodule {
                        in_gitmodules: Option::Some(clone_in_gitmodules(&gitmodules[i].1)),
                        in_config: Option::None,
                        in_modules: Option::None,
                        in_index: Option::None,
                    },
                ),
            );
            proof {
                assert(gmv.take(i + 1).drop_last() =~= pre);
                assert(gmv.take(i + 1).last() == (
                    gitmodules@[i as int].0@,
                    gitmodules@[i as int].1@,
                ));
                assert(kv_view(m@) =~= spec_merge_gitmodules(gmv.take(i + 1)));
            }
            i += 1;
        }
        proof {
            assert(gmv.take(gmv.len() as int) =~= gmv);
        }

        // phase two: local-config records merge in by name
        let ghost m0 = kv_view(m@);
        proof {
            assert(cfgv.take(0) =~= Seq::<(Seq<char>, GitConfigView)>::empty());
        }
        let mut i: usize = 0;
        while i < config.len()
            invariant
                i <= cfgv.len(),
                cfgv == kv_view(config@),
                kv_view(m@) == spec_merge_config(m0, cfgv.take(i as int)),
            decreases cfgv.len() - i,
        {
            let ghost pre = cfgv.take(i as int);
            merge_config_one(&mut m, config[i].0.as_str(), &config[i].1);
            proof {
                assert(cfgv.take(i + 1).drop_last() =~= pre);
                assert(cfgv.take(i + 1).last() == (config@[i as int].0@, config@[i as int].1@));
            }
            i += 1;
        }
        proof {
            assert(cfgv.take(cfgv.len() as int) =~= cfgv);
        }

        // phase three: module-store records merge in by name
        let ghost m1 = kv_view(m@);
        proof {
            assert(modv.take(0) =~= Seq::<GitModuleView>::empty());
        }
        let mut i: usize = 0;
        while i < modules.len()
            invariant
                i <= modv.len(),
                modv == modules_view(modules@),
                kv_view(m@) == spec_merge_modules(m1, modv.take(i as int), all),
            decreases modv.len() - i,
        {
            let ghost pre = modv.take(i as int);
            merge_modules_one(&mut m, &modules[i], all);
            proof {
                assert(modv.take(i + 1).drop_last() =~= pre);
                assert(modv.take(i + 1).last() == modules@[i as int]@);
            }
            i += 1;
        }
        proof {
            assert(modv.take(modv.len() as int) =~= modv);
        }

        // phase four: index entries merge in by path
        let ghost m2 = kv_view(m@);
        let mut pool = index;
        proof {
            assert(m2.skip(0) =~= m2);
            assert(index_view(pool@) =~= idxv);
            assert(kv_view(m@).take(0) + spec_merge_index(m2, idxv).0 =~= spec_merge_index(
                m2,
                idxv,
            ).0);
        }
        let mut i: usize = 0;
        while i < m.len()
            invariant
                i <= m@.len(),
                m@.len() == m2.len(),
                forall|j: int| i <= j < m2.len() ==> kv_view(m@)[j] == m2[j],
                spec_merge_index(m2, idxv) == (
                    kv_view(m@).take(i as int) + spec_merge_index(
                        m2.skip(i as int),
                        index_view(pool@),
                    ).0,
                    spec_merge_index(m2.skip(i as int), index_view(pool@)).1,
                ),
            decreases m@.len() - i,
        {
            let ghost poolv = index_view(pool@);
            let ghost mv = kv_view(m@);
            let path_owned: Option<String> = match m[i].1.path() {
                Option::Some(p) => Option::Some(p.to_owned()),
                Option::None => Option::None,
            };
            if let Option::Some(path) = path_owned {
                match find_path(&pool, path.as_str()) {
                    Some(j) => {
                        let io = pool.remove(j);
                        let k = m[i].0.clone();
                        let updated = Submodule {
                            in_index: Option::Some(io),
                            ..clone_submodule(&m[i].1)
                        };
                        m.set(i, (k, updated));
                    },
                    None => {},
                }
            }
            proof {
                let sub = m2.skip(i as int);
                assert(sub[0] == m2[i as int]);
                assert(m2[i as int] == mv[i as int]);
                assert(sub.drop_first() =~= m2.skip(i as int + 1));
                let step = ({
                    match spec_path(sub[0].1) {
                        Option::Some(path) => {
                            let j = spec_first_path(poolv, path);
                            if j >= 0 {
                                (
                                    (
                                        sub[0].0,
                                        SubmoduleView {
                                            in_index: Option::Some(poolv[j]),
                                            ..sub[0].1
                                        },
                                    ),
                                    poolv.remove(j),
                                )
                            } else {
                                (sub[0], poolv)
                            }
                        },
                        Option::None => (sub[0], poolv),
                    }
                });
                assert(index_view(pool@) =~= step.1);
                assert(kv_view(m@)[i as int] == step.0);
                assert(spec_merge_index(sub, poolv) == (
                    seq![step.0] + spec_merge_index(sub.drop_first(), step.1).0,
                    spec_merge_index(sub.drop_first(), step.1).1,
                ));
                assert(kv_view(m@).take(i as int + 1) =~= mv.take(i as int).push(
                    kv_view(m@)[i as int],
                ));
                assert(kv_view(m@).take(i as int) =~= mv.take(i as int));
                assert(mv.take(i as int).push(step.0) + spec_merge_index(
                    m2.skip(i as int + 1),
                    index_view(pool@),
                ).0 =~= mv.take(i as int) + (seq![step.0] + spec_merge_index(
                    m2.skip(i as int + 1),
                    index_view(pool@),
                ).0));
                assert(spec_merge_index(m2, idxv) == (
                    kv_view(m@).take(i as int + 1) + spec_merge_index(
                        m2.skip(i as int + 1),
                        index_view(pool@),
                    ).0,
                    spec_merge_index(m2.skip(i as int + 1), index_view(pool@)).1,
                ));
            }
            i += 1;
        }
        proof {
            assert(m2.skip(m@.len() as int) =~= Seq::<(Seq<char>, SubmoduleView)>::empty());
            assert(kv_view(m@).take(m@.len() as int) =~= kv_view(m@));
            assert(kv_view(m@) + Seq::<(Seq<char>, SubmoduleView)>::empty() =~= kv_view(m@));
        }

        // the leftover pool is the nameless set when the full trace is asked
        let mut nameless: Vec<Submodule> = Vec::new();
        if all {
            let ghost leftover = index_view(pool@);
            let mut i: usize = 0;
            while i < pool.len()
                invariant
                    i <= leftover.len(),
                    leftover == index_view(pool@),
                    nameless@.len() == i,
                    forall|j: int|
                        0 <= j < i ==> nameless@[j]@ == (SubmoduleView {
                            in_gitmodules: Option::None,
                            in_config: Option::None,
                            in_modules: Option::None,
                            in_index: Option::Some(leftover[j]),
                        }),
                decreases leftover.len() - i,
            {
                nameless.push(
                    Submodule {
                        in_gitmodules: Option::None,
                        in_config: Option::None,
                        in_modules: Option::None,
                        in_index: Option::Some(clone_index_object(&pool[i])),
                    },
                );
                i += 1;
            }
        }
        let r = Status { modules: m, nameless };
        proof {
            let expected = spec_read_from(gmv, cfgv, modv, idxv, all);
            assert(r@.modules =~= expected.modules);
            assert(r@.nameless =~= expected.nameless);
        }
        r
    }
}

} // verus!

use crate::submodule::{spec_is_healthy, SubmoduleEnv, SubmoduleEnvView};

verus! {

/// The records of a status, the named ones first, then the nameless ones.
pub open spec fn spec_flattened(st: StatusView) -> Seq<SubmoduleView> {
    Seq::new(st.modules.len(), |i: int| st.modules[i].1) + st.nameless
}

/// The views of a vector of environments.
pub open spec fn envs_view(v: Seq<SubmoduleEnv>) -> Seq<SubmoduleEnvView> {
    Seq::new(v.len(), |i: int| v[i]@)
}

/// Whether every record is healthy in its environment, each checked in
/// order; the first failure or resolution error decides.
pub open spec fn spec_status_healthy(
    subs: Seq<SubmoduleView>,
    envs: Seq<SubmoduleEnvView>,
) -> Result<bool, Seq<char>>
    decreases subs.len(),
{
    if subs.len() == 0 {
        Ok(true)
    } else {
        match spec_is_healthy(subs[0], envs[0]) {
            Err(p) => Err(p),
            Ok(b) => if !b {
                Ok(false)
            } else {
                spec_status_healthy(subs.drop_first(), envs.drop_first())
            },
        }
    }
}

/// The index entry a nameless record holds.
pub open spec fn spec_index_of(s: SubmoduleView) -> IndexObjectView {
    match s.in_index {
        Option::Some(i) => i,
        Option::None => IndexObjectView { path: Seq::empty(), sha: Seq::empty() },
    }
}

impl Default for Status {
    /// An empty status: no records at all.
    fn default() -> (r: Self)
        ensures
            r@.modules == Seq::<(Seq<char>, SubmoduleView)>::empty(),
            r@.nameless == Seq::<SubmoduleView>::empty(),
    {
        let r = Status { modules: Vec::new(), nameless: Vec::new() };
        proof {
            assert(r@.modules =~= Seq::<(Seq<char>, SubmoduleView)>::empty());
            assert(r@.nameless =~= Seq::<SubmoduleView>::empty());
        }
        r
    }
}

impl Status {
    /// Return a flattened view of all the submodules
    ///
    /// If the status was created with the `--all` flag, it will also include
    /// the nameless submodules
    pub fn flattened(&self) -> (r: Vec<&Submodule>)
        ensures
            r.deep_view() == spec_flattened(self@),
    {
        let mut r: Vec<&Submodule> = Vec::new();
        let mut i: usize = 0;
        while i < self.modules.len()
            invariant
                i <= self.modules@.len(),
                r@.len() == i,
                forall|k: int| 0 <= k < i ==> r@[k]@ == #[trigger] self@.modules[k].1,
            decreases self.modules@.len() - i,
        {
            r.push(&self.modules[i].1);
            proof {
                assert(self@.modules[i as int].1 == self.modules@[i as int].1@);
            }
            i += 1;
        }
        let base = self.modules.len();
        let mut j: usize = 0;
        while j < self.nameless.len()
            invariant
                j <= self.nameless@.len(),
                base == self.modules@.len(),
                r@.len() == base + j,
                forall|k: int| 0 <= k < base ==> r@[k]@ == #[trigger] self@.modules[k].1,
                forall|k: int| 0 <= k < j ==> r@[base + k]@ == #[trigger] self@.nameless[k],
            decreases self.nameless@.len() - j,
        {
            r.push(&self.nameless[j]);
            proof {
                assert(self@.nameless[j as int] == self.nameless@[j as int]@);
            }
            j += 1;
        }
        proof {
            assert forall|k: int| 0 <= k < r.deep_view().len() implies r.deep_view()[k]
                == spec_flattened(self@)[k] by {
                assert(r.deep_view()[k] == r@[k]@);
            }
            assert(r.deep_view() =~= spec_flattened(self@));
        }
        r
    }

    /// Flattens the submodules into a vector of [`Submodule`]
    ///
    /// If the status was created with the `--all` flag, it will also include
    /// the nameless submodules
    pub fn into_flattened(self) -> (r: Vec<Submodule>)
        ensures
            r.deep_view() == spec_flattened(self@),
    {
        let mut r: Vec<Submodule> = Vec::new();
        let mut i: usize = 0;
        while i < self.modules.len()
            invariant
                i <= self.modules@.len(),
                r@.len() == i,
                forall|k: int| 0 <= k < i ==> r@[k]@ == #[trigger] self@.modules[k].1,
            decreases self.modules@.len() - i,
        {
            r.push(clone_submodule(&self.modules[i].1));
            proof {
                assert(self@.modules[i as int].1 == self.modules@[i as int].1@);
            }
            i += 1;
        }
        let base = self.modules.len();
        let mut j: usize = 0;
        while j < self.nameless.len()
            invariant
                j <= self.nameless@.len(),
                base == self.modules@.len(),
                r@.len() == base + j,
                forall|k: int| 0 <= k < base ==> r@[k]@ == #[trigger] self@.modules[k].1,
                forall|k: int| 0 <= k < j ==> r@[base + k]@ == #[trigger] self@.nameless[k],
            decreases self.nameless@.len() - j,
        {
            r.push(clone_submodule(&self.nameless[j]));
            proof {
                assert(self@.nameless[j as int] == self.nameless@[j as int]@);
            }
            j += 1;
        }
        proof {
            assert forall|k: int| 0 <= k < r.deep_view().len() implies r.deep_view()[k]
                == spec_flattened(self@)[k] by {
                assert(r.deep_view()[k] == r@[k]@);
            }
            assert(r.deep_view() =~= spec_flattened(self@));
        }
        r
    }

    /// Get a view of the submodules that only exist in the index
    pub fn nameless_objects(&self) -> (r: Vec<&IndexObject>)
        requires
            forall|i: int| 0 <= i < self@.nameless.len() ==> self@.nameless[i].in_index is Some,
        ensures
            r@.len() == self@.nameless.len(),
            forall|i: int|
                0 <= i < r@.len() ==> r@[i]@ == #[trigger] spec_index_of(self@.nameless[i]),
    {
        let mut r: Vec<&IndexObject> = Vec::new();
        let mut i: usize = 0;
        while i < self.nameless.len()
            invariant
                i <= self.nameless@.len(),
                forall|k: int| 0 <= k < self@.nameless.len() ==> self@.nameless[k].in_index is Some,
                r@.len() == i,
                forall|k: int|
                    0 <= k < i ==> r@[k]@ == #[trigger] spec_index_of(self@.nameless[k]),
            decreases self.nameless@.len() - i,
        {
            proof {
                assert(self@.nameless[i as int] == self.nameless@[i as int]@);
            }
            match &self.nameless[i].in_index {
                Option::Some(io) => {
                    r.push(io);
                },
                Option::None => {
                    proof {
                        assert(false);
                    }
                },
            }
            i += 1;
        }
        r
    }

    /// Whether every record is healthy, each judged in the environment the
    /// caller resolved for it, in the order [`Status::flattened`] gives.
    pub fn is_healthy(&self, envs: &Vec<SubmoduleEnv>) -> (r: Result<bool, GitError>)
        requires
            envs@.len() == spec_flattened(self@).len(),
        ensures
            (spec_status_healthy(spec_flattened(self@), envs_view(envs@)) matches Ok(b) ==> r
                == Result::<bool, GitError>::Ok(b)),
            (spec_status_healthy(spec_flattened(self@), envs_view(envs@)) matches Err(p) ==> (
            r matches Err(e) && (e matches GitError::CanonicalizeFail(q) && q@ == p))),
    {
        let ghost flat = spec_flattened(self@);
        let ghost ev = envs_view(envs@);
        let n_envs = envs.len();
        proof {
            assert(flat.skip(0) =~= flat);
            assert(ev.skip(0) =~= ev);
        }
        let mut i: usize = 0;
        while i < self.modules.len()
            invariant
                i <= self.modules@.len(),
                n_envs == envs@.len(),
                flat == spec_flattened(self@),
                ev == envs_view(envs@),
                ev.len() == flat.len(),
                flat.len() == self.modules@.len() + self.nameless@.len(),
                spec_status_healthy(flat, ev) == spec_status_healthy(
                    flat.skip(i as int),
                    ev.skip(i as int),
                ),
            decreases self.modules@.len() - i,
        {
            proof {
                assert(flat.skip(i as int)[0] == flat[i as int]);
                assert(flat[i as int] == self@.modules[i as int].1);
                assert(ev.skip(i as int)[0] == ev[i as int]);
            }
            match self.modules[i].1.is_healthy(&envs[i]) {
                Err(e) => {
                    return Err(e);
                },
                Ok(b) => {
                    if !b {
                        return Ok(false);
                    }
                },
            }
            proof {
                assert(flat.skip(i as int).drop_first() =~= flat.skip(i as int + 1));
                assert(ev.skip(i as int).drop_first() =~= ev.skip(i as int + 1));
            }
            i += 1;
        }
        let base = self.modules.len();
        let mut j: usize = 0;
        while j < self.nameless.len()
            invariant
                j <= self.nameless@.len(),
                base == self.modules@.len(),
                n_envs == envs@.len(),
                flat == spec_flattened(self@),
                ev == envs_view(envs@),
                ev.len() == flat.len(),
                flat.len() == self.modules@.len() + self.nameless@.len(),
                spec_status_healthy(flat, ev) == spec_status_healthy(
                    flat.skip(base + j as int),
                    ev.skip(base + j as int),
                ),
            decreases self.nameless@.len() - j,
        {
            proof {
                assert(flat.skip(base + j as int)[0] == flat[base + j as int]);
                assert(flat[base + j as int] == self@.nameless[j as int]);
                assert(ev.skip(base + j as int)[0] == ev[base + j as int]);
            }
            match self.nameless[j].is_healthy(&envs[base + j]) {
                Err(e) => {
                    return Err(e);
                },
                Ok(b) => {
                    if !b {
                        return Ok(false);
                    }
                },
            }
            proof {
                assert(flat.skip(base + j as int).drop_first() =~= flat.skip(base + j as int + 1));
                assert(ev.skip(base + j as int).drop_first() =~= ev.skip(base + j as int + 1));
            }
            j += 1;
        }
        proof {
            assert(flat.skip(flat.len() as int) =~= Seq::<SubmoduleView>::empty());
            assert(ev.skip(ev.len() as int) =~= Seq::<SubmoduleEnvView>::empty());
        }
        Ok(true)
    }
}

/// The manifest record of the given name, if the map holds one.
pub open spec fn spec_gm_lookup(
    m: Seq<(Seq<char>, GitmodulesView)>,
    name: Seq<char>,
) -> Option<GitmodulesView> {
    let i = spec_first_key(m, name);
    if i >= 0 {
        Option::Some(m[i].1)
    } else {
        Option::None
    }
}

/// Round trip through the manifest: after the path update the repair decides
/// on is written as a trailing `<name>.path = <path>` entry, re-reading the
/// manifest yields the updated path for that name.
pub proof fn lemma_manifest_path_round_trip(
    entries: Seq<(Seq<char>, Seq<char>)>,
    name: Seq<char>,
    path: Seq<char>,
)
    ensures
        ({
            let m = spec_read_gitmodules(entries.push((name + ".path"@, path)));
            spec_gm_lookup(m, name) matches Some(g) && g.path == Option::Some(path)
        }),
{
    let updated = entries.push((name + ".path"@, path));
    let key = name + ".path"@;
    assert(updated.drop_last() =~= entries);
    assert(updated.last() == (key, path));
    assert(is_suffix_of(".path"@, key)) by {
        assert(key.subrange(key.len() - ".path"@.len(), key.len() as int) =~= ".path"@);
    }
    assert(key.take(key.len() - ".path"@.len()) =~= name);
    let m0 = spec_read_gitmodules(entries);
    let m = spec_read_gitmodules(updated);
    assert(m == spec_gm_upsert(m0, name, path, GmField::Path));
    let i0 = spec_first_key(m0, name);
    lemma_first_key_char(m0, name);
    if i0 >= 0 {
        let upd = m0.update(i0, (m0[i0].0, spec_gm_set_field(m0[i0].1, path, GmField::Path)));
        assert(m == upd);
        lemma_first_key_same_keys(upd, m0, name);
        assert(spec_first_key(m, name) == i0);
        assert(m[i0].1.path == Option::Some(path));
    } else {
        let g0 = GitmodulesView {
            name: name,
            path: Option::None,
            url: Option::None,
            branch: Option::None,
        };
        assert(m == m0.push((name, spec_gm_set_field(g0, path, GmField::Path))));
        lemma_first_key_char(m, name);
        let r = spec_first_key(m, name);
        assert(m[m0.len() as int].0 == name);
        if r < 0 {
            assert(false);
        } else if r < m0.len() {
            assert(m[r] == m0[r]);
            assert(false);
        } else {
            assert(r == m0.len());
            assert(m[r].1.path == Option::Some(path));
        }
    }
}

} // verus!

verus! {

/// The key/value pairs whose keys carry the `submodule.` prefix, the prefix
/// stripped; pairs with other keys are dropped.
pub open spec fn spec_submodule_entries(pairs: Seq<(Seq<char>, Seq<char>)>) -> Seq<
    (Seq<char>, Seq<char>),
>
    decreases pairs.len(),
{
    if pairs.len() == 0 {
        Seq::empty()
    } else {
        let rest = spec_submodule_entries(pairs.drop_last());
        if is_prefix_of("submodule."@, pairs.last().0) {
            rest.push((pairs.last().0.skip("submodule."@.len() as int), pairs.last().1))
        } else {
            rest
        }
    }
}

impl Status {
    /// Keep the config entries that describe submodules: the keys that start
    /// with `submodule.`, the prefix stripped.
    pub fn read_submodule_from_config(pairs: &Vec<(String, String)>) -> (r: Vec<(String, String)>)
        ensures
            pairs_view(r@) == spec_submodule_entries(pairs_view(pairs@)),
    {
        let mut r: Vec<(String, String)> = Vec::new();
        proof {
            assert(pairs_view(pairs@).take(0) =~= Seq::<(Seq<char>, Seq<char>)>::empty());
            assert(pairs_view(r@) =~= Seq::<(Seq<char>, Seq<char>)>::empty());
        }
        let mut idx: usize = 0;
        while idx < pairs.len()
            invariant
                idx <= pairs@.len(),
                pairs_view(r@) == spec_submodule_entries(pairs_view(pairs@).take(idx as int)),
            decreases pairs@.len() - idx,
        {
            let ghost pre = pairs_view(pairs@).take(idx as int);
            if let Some(name) = strip_prefix(pairs[idx].0.as_str(), "submodule.") {
                let ghost rpre = pairs_view(r@);
                r.push((name, pairs[idx].1.clone()));
                proof {
                    assert(pairs_view(r@) =~= rpre.push(
                        (
                            pairs@[idx as int].0@.skip("submodule."@.len() as int),
                            pairs@[idx as int].1@,
                        ),
                    ));
                }
            }
            proof {
                assert(pairs_view(pairs@).take(idx + 1).drop_last() =~= pre);
                assert(pairs_view(pairs@).take(idx + 1).last() == (
                    pairs@[idx as int].0@,
                    pairs@[idx as int].1@,
                ));
            }
            idx += 1;
        }
        proof {
            assert(pairs_view(pairs@).take(pairs@.len() as int) =~= pairs_view(pairs@));
        }
        r
    }
}

} // verus!
