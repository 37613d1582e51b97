//! Walking a directory tree with pruning, and collecting file paths.
//!
//! The walk itself reads the filesystem, so nothing is assumed about which
//! entries it yields; what is verified is everything decided about those
//! entries: the pruning predicate [`should_ignore`], the emission rule
//! [`collect_files`] (regular files with a textual path, in walk order), and
//! the guarantee of [`scan`] that neither a returned path nor any directory
//! on the way from the root down to it matches an ignore pattern.

use vstd::prelude::*;

use crate::ScanError;
use crate::matcher::Matcher;
use crate::matcher::compile;
use crate::matcher::glob_ok;
use crate::matcher::set_matches;

verus! {

#[verifier::external_type_specification]
#[verifier::external_body]
pub struct ExDirEntry(walkdir::DirEntry);

/// The path of a visited entry as UTF-8 text, or `None` where the path is
/// not valid text.
pub uninterp spec fn dir_entry_path(e: walkdir::DirEntry) -> Option<Seq<char>>;

/// One visited filesystem entry, reduced to what the emission rule reads:
/// its path as text (`None` where the entry could not be read or its path is
/// not valid text) and whether it is a regular file.
pub struct RawEntry {
    pub path: Option<String>,
    pub is_file: bool,
}

/// The mathematical model of a [`RawEntry`].
pub struct EntryModel {
    pub path: Option<Seq<char>>,
    pub is_file: bool,
}

impl View for RawEntry {
    type V = EntryModel;

    open spec fn view(&self) -> EntryModel {
        EntryModel {
            path: match self.path {
                Some(s) => Some(s@),
                None => None,
            },
            is_file: self.is_file,
        }
    }
}

/// The models of a list of entries, in order.
pub open spec fn entry_models(es: Seq<RawEntry>) -> Seq<EntryModel> {
    es.map_values(|e: RawEntry| e@)
}

/// Relies on globset::GlobSet::is_match, applied to the entry's raw path
/// with no text conversion: where the path is valid UTF-8 this agrees with
/// matching on that text, and an empty set matches no path at all.
#[verifier::external_body]
fn entry_is_match(set: &globset::GlobSet, entry: &walkdir::DirEntry) -> (r: bool)
    ensures
        dir_entry_path(*entry) matches Some(p) ==> r == set_matches(
            crate::matcher::globset_pats(*set),
            p,
        ),
        crate::matcher::globset_pats(*set).len() == 0 ==> !r,
{
    set.is_match(entry.path())
}

/// Whether a visited entry is excluded from the walk: true exactly when one
/// of the ignore patterns matches its path. A directory for which this
/// holds is pruned: its subtree is never visited. With zero patterns no
/// entry is ignored. (For the rare path that is not valid text the decision
/// is globset's on the raw bytes, which the model does not speak of.)
pub fn should_ignore(entry: &walkdir::DirEntry, m: &Matcher) -> (r: bool)
    ensures
        dir_entry_path(*entry) matches Some(p) ==> r == set_matches(m@, p),
        m@.len() == 0 ==> !r,
{
    entry_is_match(m.glob_set(), entry)
}

/// Relies on walkdir::WalkDir and its filter_entry iterator: a depth-first
/// walk from root that applies the predicate to every entry it reads, root
/// included, skips every entry the predicate rejects without descending into
/// it, and does not follow symlinked directories. Entries that cannot be
/// read, and entries whose path is not valid text, come back without a path.
///
/// Pruning, as the source shows it: an entry is yielded only if it and every
/// directory on the way from the root down to it passed the predicate. So no
/// yielded path matches the set, and neither does any of its ancestor
/// directory paths from the root on (each such ancestor is the prefix of the
/// path up to a separator). When the root itself is excluded nothing is
/// visited at all, so every entry handed back (an unreadable root, if
/// anything) has no path.
#[verifier::external_body]
fn walk_filtered(root: &String, m: &Matcher) -> (r: Vec<RawEntry>)
    ensures
        forall|i: int|
            0 <= i < r@.len() ==> ((#[trigger] r@[i]).path matches Some(p) ==> !set_matches(
                m@,
                p@,
            )),
        forall|i: int|
            0 <= i < r@.len() ==> ((#[trigger] r@[i]).path matches Some(p) ==> (forall|j: int|
                root@.len() <= j < p@.len() && p@[j] == '/' ==> !set_matches(
                    m@,
                    #[trigger] p@.take(j),
                ))),
        set_matches(m@, root@) ==> forall|i: int|
            0 <= i < r@.len() ==> (#[trigger] r@[i]).path is None,
{
    walkdir::WalkDir::new(root.as_str())
        .into_iter()
        .filter_entry(|e| !should_ignore(e, m))
        .map(
            |res| match res {
                Ok(d) => RawEntry {
                    path: d.path().to_str().map(|s| s.to_string()),
                    is_file: d.file_type().is_file(),
                },
                Err(_) => RawEntry { path: None, is_file: false },
            },
        )
        .collect()
}

/// Relies on walkdir::WalkDir with max_depth(0): yields exactly one entry
/// for the root, or an error where the root cannot be opened at all.
#[verifier::external_body]
fn root_exists(path: &String) -> (r: bool) {
    match walkdir::WalkDir::new(path.as_str()).max_depth(0).into_iter().next() {
        Some(Ok(_)) => true,
        Some(Err(_)) => false,
        None => false,
    }
}

/// The emission rule over a walk's entries: the paths of exactly those
/// entries that are regular files with a textual path, in walk order.
pub open spec fn emitted_paths(es: Seq<EntryModel>) -> Seq<Seq<char>>
    decreases es.len(),
{
    if es.len() == 0 {
        Seq::empty()
    } else {
        let init = emitted_paths(es.drop_last());
        let e = es.last();
        if e.path is Some && e.is_file {
            init.push(e.path->0)
        } else {
            init
        }
    }
}

/// Applies the emission rule: keeps, in order, the path of every entry that
/// is a regular file with a textual path, and nothing else.
pub fn collect_files(entries: &Vec<RawEntry>) -> (r: Vec<String>)
    ensures
        crate::str_views(r@) == emitted_paths(entry_models(entries@)),
{
    let ghost models = entry_models(entries@);
    let mut out: Vec<String> = Vec::new();
    let mut i: usize = 0;
    while i < entries.len()
        invariant
            0 <= i <= entries@.len(),
            models == entry_models(entries@),
            crate::str_views(out@) == emitted_paths(models.take(i as int)),
        decreases entries@.len() - i,
    {
        proof {
            assert(models.take(i + 1).drop_last() =~= models.take(i as int));
            assert(models.take(i + 1).last() == entries@[i as int]@);
        }
        let e = &entries[i];
        let ghost before = out@;
        if e.is_file {
            match &e.path {
                Some(p) => {
                    out.push(p.clone());
                    proof {
                        assert(crate::str_views(out@) =~= crate::str_views(before).push(p@));
                    }
                },
                None => {},
            }
        }
        i = i + 1;
    }
    proof {
        assert(models.take(models.len() as int) =~= models);
    }
    out
}

/// Every path the emission rule keeps is the path of one of the entries,
/// and that entry is a regular file.
pub proof fn lemma_emitted_from_entries(es: Seq<EntryModel>, p: Seq<char>)
    requires
        emitted_paths(es).contains(p),
    ensures
        exists|i: int| 0 <= i < es.len() && (#[trigger] es[i]).path == Some(p) && es[i].is_file,
    decreases es.len(),
{
    let ep = emitted_paths(es);
    let k = choose|k: int| 0 <= k < ep.len() && ep[k] == p;
    if es.len() > 0 {
        let init = emitted_paths(es.drop_last());
        let e = es.last();
        if e.path is Some && e.is_file && k == init.len() {
            assert((es[es.len() - 1]).path == Some(p) && es[es.len() - 1].is_file);
        } else {
            assert(init[k] == p);
            assert(init.contains(p));
            lemma_emitted_from_entries(es.drop_last(), p);
            let i = choose|i: int|
                0 <= i < es.drop_last().len() && (#[trigger] es.drop_last()[i]).path == Some(p)
                    && es.drop_last()[i].is_file;
            assert((es[i]).path == Some(p) && es[i].is_file);
        }
    }
}

/// Entries without a textual path yield no files at all.
pub proof fn lemma_no_paths_no_files(es: Seq<EntryModel>)
    requires
        forall|i: int| 0 <= i < es.len() ==> (#[trigger] es[i]).path is None,
    ensures
        emitted_paths(es).len() == 0,
    decreases es.len(),
{
    if es.len() > 0 {
        lemma_no_paths_no_files(es.drop_last());
    }
}

/// Enumerates the regular files under `root`, excluding every entry (and,
/// for directories, its whole subtree) whose path matches one of the ignore
/// patterns.
///
/// The patterns are compiled first: compilation failure is decided by the
/// patterns alone and reported as [`ScanError::PatternCompile`] before the
/// filesystem is touched, if and only if some pattern is invalid or the set
/// does not build; so on compilable patterns the only possible error is
/// [`ScanError::RootNotFound`], for a root that cannot be opened. On
/// success, no returned path matches any pattern, nor does any directory on
/// the way from the root down to a returned path (subtrees are pruned, not
/// filtered), and an excluded root yields no paths at all. Entries that
/// cannot be read, or whose path is not valid UTF-8 text, are silently
/// omitted.
pub fn scan(root: &String, patterns: &Vec<String>) -> (r: Result<Vec<String>, ScanError>)
    ensures
        r matches Ok(files) ==> forall|j: int|
            0 <= j < files@.len() ==> !set_matches(
                crate::str_views(patterns@),
                (#[trigger] files@[j])@,
            ),
        r matches Ok(files) ==> forall|k: int, j: int|
            0 <= k < files@.len() && root@.len() <= j < files@[k]@.len() && files@[k]@[j] == '/'
                ==> !set_matches(crate::str_views(patterns@), #[trigger] files@[k]@.take(j)),
        r matches Ok(files) ==> (set_matches(crate::str_views(patterns@), root@)
            ==> files@.len() == 0),
        (r is Err && r->Err_0 == ScanError::PatternCompile) <==> !((forall|i: int|
            0 <= i < patterns@.len() ==> #[trigger] glob_ok(patterns@[i]@))
            && crate::matcher::build_ok(crate::str_views(patterns@))),
{
    let m = match compile(patterns) {
        Ok(m) => m,
        Err(e) => {
            return Err(e);
        },
    };
    if !root_exists(root) {
        return Err(ScanError::RootNotFound);
    }
    let entries = walk_filtered(root, &m);
    let files = collect_files(&entries);
    proof {
        let pats = crate::str_views(patterns@);
        let models = entry_models(entries@);
        assert forall|j: int| 0 <= j < files@.len() implies !set_matches(
            pats,
            (#[trigger] files@[j])@,
        ) by {
            let p = files@[j]@;
            assert(crate::str_views(files@)[j] == p);
            assert(emitted_paths(models).contains(p));
            lemma_emitted_from_entries(models, p);
            let i = choose|i: int|
                0 <= i < models.len() && (#[trigger] models[i]).path == Some(p)
                    && models[i].is_file;
            assert(models[i] == entries@[i]@);
            assert(entries@[i].path matches Some(s) && s@ == p);
        }
        assert forall|k: int, j: int|
            0 <= k < files@.len() && root@.len() <= j < files@[k]@.len() && files@[k]@[j] == '/'
                implies !set_matches(pats, #[trigger] files@[k]@.take(j)) by {
            let p = files@[k]@;
            assert(crate::str_views(files@)[k] == p);
            assert(emitted_paths(models).contains(p));
            lemma_emitted_from_entries(models, p);
            let i = choose|i: int|
                0 <= i < models.len() && (#[trigger] models[i]).path == Some(p)
                    && models[i].is_file;
            assert(models[i] == entries@[i]@);
            assert(entries@[i].path matches Some(s) && s@ == p);
            assert((entries@[i].path->0)@.take(j) == files@[k]@.take(j));
        }
        if set_matches(pats, root@) {
            assert forall|i: int| 0 <= i < models.len() implies (#[trigger] models[i]).path
                is None by {
                assert(models[i] == entries@[i]@);
                assert(entries@[i].path is None);
            }
            lemma_no_paths_no_files(models);
        }
    }
    Ok(files)
}

} // verus!
