use vstd::prelude::*;

verus! {

/// The glob-set matcher type of the glob engine, declared so that a compiled
/// set can be held in a field; its contents are named by `globset_patterns`.
#[verifier::external_type_specification]
#[verifier::external_body]
pub struct ExGlobSet(globset::GlobSet);

/// The glob-set builder type of the glob engine; its contents are named by
/// `builder_patterns`.
#[verifier::external_type_specification]
#[verifier::external_body]
pub struct ExGlobSetBuilder(globset::GlobSetBuilder);

/// The patterns a glob-set builder has accumulated, oldest first.
pub uninterp spec fn builder_patterns(b: globset::GlobSetBuilder) -> Seq<Seq<char>>;

/// The patterns a compiled glob set was built from, oldest first.
pub uninterp spec fn globset_patterns(s: globset::GlobSet) -> Seq<Seq<char>>;

/// Whether the glob written as `pattern` matches `path`: the result of the
/// glob engine's matcher for a pattern compiled with default settings. It
/// depends on the pattern and the path alone.
pub uninterp spec fn glob_matches(pattern: Seq<char>, path: Seq<char>) -> bool;

/// Whether the glob engine accepts `pattern` as a well-formed glob: the
/// success of compiling it, which depends on the pattern alone.
pub uninterp spec fn glob_ok(pattern: Seq<char>) -> bool;

/// Whether the glob engine can compile the whole pattern list into one
/// matcher: the success of building the set, which depends on the patterns
/// alone.
pub uninterp spec fn glob_set_ok(patterns: Seq<Seq<char>>) -> bool;

/// Relies on globset::GlobSetBuilder::new: the fresh builder holds no
/// patterns.
#[verifier::external_body]
fn globset_builder_new() -> (b: globset::GlobSetBuilder)
    ensures
        builder_patterns(b) == Seq::<Seq<char>>::empty(),
{
    globset::GlobSetBuilder::new()
}

/// Relies on globset::Glob::new (fails exactly on an invalid pattern, a
/// property of the pattern alone) and globset::GlobSetBuilder::add (appends
/// the glob to the builder's list).
#[verifier::external_body]
fn globset_builder_add(b: &mut globset::GlobSetBuilder, pattern: &str) -> (r: Result<
    (),
    globset::Error,
>)
    ensures
        r is Ok <==> glob_ok(pattern@),
        r is Ok ==> builder_patterns(*final(b)) == builder_patterns(*old(b)).push(pattern@),
        r is Err ==> builder_patterns(*final(b)) == builder_patterns(*old(b)),
{
    match globset::Glob::new(pattern) {
        Ok(glob) => {
            b.add(glob);
            Ok(())
        },
        Err(e) => Err(e),
    }
}

/// Relies on globset::GlobSetBuilder::build: succeeds or fails by the
/// accumulated patterns alone, and the compiled set matches with exactly
/// those patterns.
#[verifier::external_body]
fn globset_builder_build(b: &globset::GlobSetBuilder) -> (r: Result<
    globset::GlobSet,
    globset::Error,
>)
    ensures
        r is Ok <==> glob_set_ok(builder_patterns(*b)),
        r matches Ok(s) ==> globset_patterns(s) == builder_patterns(*b),
{
    b.build()
}

/// Relies on globset::GlobSet::is_match: true exactly when some glob in the
/// set matches the path; in particular an empty set matches nothing.
#[verifier::external_body]
fn globset_is_match(s: &globset::GlobSet, path: &str) -> (r: bool)
    ensures
        r == (exists|i: int|
            0 <= i < globset_patterns(*s).len() && glob_matches(globset_patterns(*s)[i], path@)),
{
    s.is_match(path)
}

/// Whether some rule of `rules` matches `path`.
pub open spec fn path_ignored(rules: Seq<Seq<char>>, path: Seq<char>) -> bool {
    exists|i: int| 0 <= i < rules.len() && glob_matches(rules[i], path)
}

/// Whether every path of `paths` matches some rule of `rules`.
pub open spec fn all_ignored(paths: Seq<Seq<char>>, rules: Seq<Seq<char>>) -> bool {
    forall|i: int| 0 <= i < paths.len() ==> path_ignored(rules, paths[i])
}

/// The configured allow-list of conflict paths that may be auto-resolved:
/// an unordered collection of glob patterns, any match sufficing.
pub struct IgnoreRules {
    set: globset::GlobSet,
}

impl IgnoreRules {
    /// The patterns this rule set was built from.
    pub closed spec fn view(&self) -> Seq<Seq<char>> {
        globset_patterns(self.set)
    }

    /// Compiles a rule set from glob patterns; fails exactly when the glob
    /// engine rejects a pattern or the compiled set.
    pub fn new(patterns: &Vec<String>) -> (r: Result<IgnoreRules, globset::Error>)
        ensures
            r matches Ok(rules) ==> rules@ == patterns@.map_values(|p: String| p@),
            r is Ok <==> (forall|i: int|
                0 <= i < patterns@.len() ==> glob_ok(#[trigger] patterns@[i]@)) && glob_set_ok(
                patterns@.map_values(|p: String| p@),
            ),
    {
        let mut b = globset_builder_new();
        let mut i: usize = 0;
        while i < patterns.len()
            invariant
                0 <= i <= patterns@.len(),
                builder_patterns(b) =~= patterns@.take(i as int).map_values(|p: String| p@),
                forall|k: int| 0 <= k < i ==> glob_ok(#[trigger] patterns@[k]@),
            decreases patterns@.len() - i,
        {
            match globset_builder_add(&mut b, patterns[i].as_str()) {
                Ok(()) => {},
                Err(e) => {
                    proof {
                        assert(!glob_ok(patterns@[i as int]@));
                    }
                    return Err(e);
                },
            }
            proof {
                assert(builder_patterns(b) =~= patterns@.take(i + 1).map_values(|p: String| p@));
            }
            i += 1;
        }
        match globset_builder_build(&b) {
            Ok(set) => {
                proof {
                    assert(patterns@.take(patterns@.len() as int) =~= patterns@);
                }
                Ok(IgnoreRules { set })
            },
            Err(e) => Err(e),
        }
    }

    /// True exactly when some rule matches the path.
    pub fn matches(&self, path: &str) -> (r: bool)
        ensures
            r == path_ignored(self@, path@),
    {
        globset_is_match(&self.set, path)
    }
}

/// The classifier's verdict on one merge attempt's conflicting paths.
pub enum Classification {
    /// Every conflicting path matches the ignore rules.
    Allowed,
    /// Some path matches no rule; the first such path is carried.
    Blocked(String),
}

/// Decides whether an entire merge attempt may be auto-resolved: `Allowed`
/// exactly when every conflicting path matches the rules, else `Blocked` with
/// the first offending path. With no rules, any conflict blocks.
pub fn classify(paths: &Vec<String>, rules: &IgnoreRules) -> (c: Classification)
    ensures
        c is Allowed <==> all_ignored(paths@.map_values(|p: String| p@), rules@),
        c matches Classification::Blocked(p) ==> exists|j: int|
            0 <= j < paths@.len() && p@ == paths@[j]@ && !path_ignored(rules@, paths@[j]@) && (
            forall|i: int| 0 <= i < j ==> path_ignored(rules@, paths@[i]@)),
{
    let ghost pview = paths@.map_values(|p: String| p@);
    let mut i: usize = 0;
    while i < paths.len()
        invariant
            0 <= i <= paths@.len(),
            pview == paths@.map_values(|p: String| p@),
            forall|j: int| 0 <= j < i ==> path_ignored(rules@, pview[j]),
        decreases paths@.len() - i,
    {
        if !rules.matches(paths[i].as_str()) {
            let offending = paths[i].clone();
            proof {
                assert forall|k: int| 0 <= k < paths@.len() implies pview[k] == paths@[k]@ by {
                    assert(pview[k] == paths@.map_values(|p: String| p@)[k]);
                }
                assert(!path_ignored(rules@, paths@[i as int]@));
                assert(!path_ignored(rules@, pview[i as int]));
                assert(0 <= i < pview.len());
                assert(!all_ignored(pview, rules@));
                assert forall|k: int| 0 <= k < i implies path_ignored(rules@, paths@[k]@) by {
                    assert(path_ignored(rules@, pview[k]));
                }
                assert(0 <= i < paths@.len() && offending@ == paths@[i as int]@ && !path_ignored(
                    rules@,
                    paths@[i as int]@,
                ));
            }
            return Classification::Blocked(offending);
        }
        i += 1;
    }
    Classification::Allowed
}

} // verus!
