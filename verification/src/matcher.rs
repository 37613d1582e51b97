//! Compiling a list of glob patterns into one matcher.
//!
//! A [`Matcher`] is modelled in contracts by the sequence of pattern texts it
//! was compiled from (its view). What a single glob pattern accepts is left
//! abstract as [`glob_matches`]; a pattern set accepts a path exactly when
//! one of its patterns does ([`set_matches`]).

use vstd::prelude::*;

use crate::ScanError;

verus! {

#[verifier::external_type_specification]
#[verifier::external_body]
pub struct ExGlob(globset::Glob);

#[verifier::external_type_specification]
#[verifier::external_body]
pub struct ExGlobSet(globset::GlobSet);

#[verifier::external_type_specification]
#[verifier::external_body]
pub struct ExGlobSetBuilder(globset::GlobSetBuilder);

#[verifier::external_type_specification]
#[verifier::external_body]
pub struct ExGlobError(globset::Error);

/// Whether a pattern text is a syntactically valid glob, i.e. whether
/// `globset::Glob::new` accepts it.
pub uninterp spec fn glob_ok(pat: Seq<char>) -> bool;

/// The pattern text a compiled `globset::Glob` was parsed from.
pub uninterp spec fn glob_pat(g: globset::Glob) -> Seq<char>;

/// Whether one glob pattern matches a path, as `globset` decides it.
pub uninterp spec fn glob_matches(pat: Seq<char>, path: Seq<char>) -> bool;

/// The pattern texts a `globset::GlobSetBuilder` holds, in insertion order.
pub uninterp spec fn builder_pats(b: globset::GlobSetBuilder) -> Seq<Seq<char>>;

/// The pattern texts a compiled `globset::GlobSet` was built from.
pub uninterp spec fn globset_pats(s: globset::GlobSet) -> Seq<Seq<char>>;

/// Whether `globset::GlobSetBuilder::build` succeeds on a list of patterns.
/// Building is deterministic in the patterns alone (its only failure is the
/// regex engine's fixed size limits), so success is a function of them.
pub uninterp spec fn build_ok(pats: Seq<Seq<char>>) -> bool;

/// A pattern set accepts a path exactly when at least one of its patterns
/// does: the logical OR of its patterns.
pub open spec fn set_matches(pats: Seq<Seq<char>>, path: Seq<char>) -> bool {
    exists|i: int| 0 <= i < pats.len() && glob_matches(pats[i], path)
}

/// Relies on globset::Glob::new: parses one glob pattern, succeeding exactly
/// on syntactically valid patterns; the compiled glob stands for that
/// pattern text.
#[verifier::external_body]
fn glob_new(pat: &String) -> (r: Result<globset::Glob, globset::Error>)
    ensures
        r is Ok <==> glob_ok(pat@),
        r matches Ok(g) ==> glob_pat(g) == pat@,
{
    globset::Glob::new(pat.as_str())
}

/// Relies on globset::GlobSetBuilder::new: a builder holding no patterns.
#[verifier::external_body]
fn builder_new() -> (r: globset::GlobSetBuilder)
    ensures
        builder_pats(r) == Seq::<Seq<char>>::empty(),
{
    globset::GlobSetBuilder::new()
}

/// Relies on globset::GlobSetBuilder::add: appends one compiled glob to the
/// builder's patterns.
#[verifier::external_body]
fn builder_add(b: &mut globset::GlobSetBuilder, g: globset::Glob)
    ensures
        builder_pats(*final(b)) == builder_pats(*old(b)).push(glob_pat(g)),
{
    b.add(g);
}

/// Relies on globset::GlobSetBuilder::build: succeeds or fails as a function
/// of the added patterns alone (failure comes only from the regex engine's
/// fixed limits), and on success the matcher is over exactly those patterns.
#[verifier::external_body]
fn builder_build(b: &globset::GlobSetBuilder) -> (r: Result<
    globset::GlobSet,
    globset::Error,
>)
    ensures
        r is Ok <==> build_ok(builder_pats(*b)),
        r matches Ok(s) ==> globset_pats(s) == builder_pats(*b),
{
    b.build()
}

/// Relies on globset::GlobSet::is_match: true exactly when at least one glob
/// in the set matches the path.
#[verifier::external_body]
fn set_is_match(s: &globset::GlobSet, path: &String) -> (r: bool)
    ensures
        r == (exists|i: int|
            0 <= i < globset_pats(*s).len() && glob_matches(globset_pats(*s)[i], path@)),
{
    s.is_match(path.as_str())
}

/// A compiled, immutable set of glob patterns.
///
/// Its view is the sequence of pattern texts it was compiled from.
#[derive(Debug)]
pub struct Matcher {
    set: globset::GlobSet,
}

impl View for Matcher {
    type V = Seq<Seq<char>>;

    closed spec fn view(&self) -> Seq<Seq<char>> {
        globset_pats(self.set)
    }
}

impl Matcher {
    /// Whether at least one of the compiled patterns matches the path.
    /// Pure: reads nothing but the path text.
    pub fn matches(&self, path: &String) -> (r: bool)
        ensures
            r == set_matches(self@, path@),
    {
        set_is_match(&self.set, path)
    }

    /// The underlying compiled set, for matching raw (possibly non-text)
    /// paths during a walk.
    pub(crate) fn glob_set(&self) -> (r: &globset::GlobSet)
        ensures
            globset_pats(*r) == self@,
    {
        &self.set
    }
}

/// Compiles a list of glob patterns into a single [`Matcher`].
///
/// Succeeds exactly when every pattern is a valid glob and the combined set
/// builds, and then the matcher stands for exactly the given patterns, in
/// order. Any invalid pattern fails the whole compilation with
/// [`ScanError::PatternCompile`]; no partial matcher is built.
pub fn compile(patterns: &Vec<String>) -> (r: Result<Matcher, ScanError>)
    ensures
        r matches Ok(m) ==> m@ == crate::str_views(patterns@),
        r is Ok <==> (forall|i: int|
            0 <= i < patterns@.len() ==> #[trigger] glob_ok(patterns@[i]@)) && build_ok(
            crate::str_views(patterns@),
        ),
        r is Err ==> r->Err_0 == ScanError::PatternCompile,
{
    let ghost all: Seq<String> = patterns@;
    let mut b = builder_new();
    let mut i: usize = 0;
    while i < patterns.len()
        invariant
            0 <= i <= all.len(),
            all == patterns@,
            builder_pats(b) == crate::str_views(all.take(i as int)),
            forall|j: int| 0 <= j < i ==> #[trigger] glob_ok(all[j]@),
        decreases all.len() - i,
    {
        match glob_new(&patterns[i]) {
            Ok(g) => {
                builder_add(&mut b, g);
                proof {
                    assert(crate::str_views(all.take(i + 1)) =~= crate::str_views(
                        all.take(i as int),
                    ).push(all[i as int]@));
                }
            },
            Err(_) => {
                proof {
                    assert(!glob_ok(all[i as int]@));
                }
                return Err(ScanError::PatternCompile);
            },
        }
        i = i + 1;
    }
    proof {
        assert(all.take(all.len() as int) =~= all);
    }
    match builder_build(&b) {
        Ok(s) => Ok(Matcher { set: s }),
        Err(_) => Err(ScanError::PatternCompile),
    }
}

/// With no patterns, no path is excluded: an empty pattern set matches
/// nothing.
pub proof fn lemma_empty_matches_nothing(path: Seq<char>)
    ensures
        !set_matches(Seq::<Seq<char>>::empty(), path),
{
}

/// Matching against the concatenation of two pattern lists is the union of
/// matching against each: a path is excluded by the combined list exactly
/// when some pattern of either part matches it.
pub proof fn lemma_union_matches(pats1: Seq<Seq<char>>, pats2: Seq<Seq<char>>, path: Seq<char>)
    ensures
        set_matches(pats1 + pats2, path) <==> (set_matches(pats1, path) || set_matches(
            pats2,
            path,
        )),
{
    let both = pats1 + pats2;
    if set_matches(both, path) {
        let i = choose|i: int| 0 <= i < both.len() && glob_matches(both[i], path);
        if i < pats1.len() {
            assert(glob_matches(pats1[i], path));
        } else {
            assert(glob_matches(pats2[i - pats1.len()], path));
        }
    }
    if set_matches(pats1, path) {
        let i = choose|i: int| 0 <= i < pats1.len() && glob_matches(pats1[i], path);
        assert(glob_matches(both[i], path));
    }
    if set_matches(pats2, path) {
        let i = choose|i: int| 0 <= i < pats2.len() && glob_matches(pats2[i], path);
        assert(glob_matches(both[pats1.len() + i], path));
    }
}

} // verus!
