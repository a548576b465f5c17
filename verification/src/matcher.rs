//! Which request paths are left unobserved.
//!
//! A path is excluded when it is listed exactly, or when one of the exclusion
//! patterns matches it. The path is taken as the server gives it: nothing is
//! normalised.
use crate::pattern::{
    any_pattern_matches, compile_set, lemma_texts_push, pattern_list, pattern_matches,
    patterns_compile, regex_set_patterns,
};
use regex::RegexSet;
use vstd::prelude::*;

verus! {

/// Why a configuration could not be built.
pub enum ConfigError {
    /// The exclusion pattern does not compile together with those already
    /// configured. `cause` is what the `regex` crate reported.
    InvalidPattern { pattern: String, cause: regex::Error },
}

/// Some string of the list has the text `path`.
pub open spec fn listed(paths: Seq<String>, path: Seq<char>) -> bool {
    exists|i: int| 0 <= i < paths.len() && (#[trigger] paths[i])@ == path
}

/// A pattern added at the end excludes what it matches and takes nothing
/// back: the lengthened list matches a text exactly if the old list did or
/// the new pattern does.
pub proof fn lemma_added_pattern(patterns: Seq<Seq<char>>, added: Seq<char>, text: Seq<char>)
    ensures
        any_pattern_matches(patterns.push(added), text) <==> any_pattern_matches(patterns, text)
            || pattern_matches(added, text),
{
    let longer = patterns.push(added);
    if any_pattern_matches(patterns, text) {
        let i = choose|i: int| 0 <= i < patterns.len() && pattern_matches(patterns[i], text);
        assert(longer[i] == patterns[i]);
    }
    if pattern_matches(added, text) {
        assert(longer[patterns.len() as int] == added);
    }
    if any_pattern_matches(longer, text) {
        let i = choose|i: int| 0 <= i < longer.len() && pattern_matches(longer[i], text);
        if i < patterns.len() {
            assert(patterns[i] == longer[i]);
        }
    }
}

/// Without patterns nothing is matched.
pub proof fn lemma_no_pattern(text: Seq<char>)
    ensures
        !any_pattern_matches(Seq::<Seq<char>>::empty(), text),
{
}

/// The exclusion rules: a collection of exact paths, none held twice, and a
/// compiled set of patterns.
///
/// The exact paths are a set, kept in a vector: the specifications of the
/// standard hash set hold only for keys whose hashing they model, and
/// strings are not among them. A lookup walks the vector.
pub struct Exclusions {
    paths: Vec<String>,
    patterns: RegexSet,
}

impl Exclusions {
    #[verifier::type_invariant]
    spec fn distinct_paths(self) -> bool {
        forall|i: int, j: int|
            0 <= i < j < self.paths@.len() ==> (#[trigger] self.paths@[i])@ != (
            #[trigger] self.paths@[j])@
    }

    /// The exact paths that are excluded.
    pub closed spec fn exact_paths(&self) -> Set<Seq<char>> {
        Set::new(|path: Seq<char>| listed(self.paths@, path))
    }

    /// The exclusion patterns, in the order they were added.
    pub closed spec fn patterns(&self) -> Seq<Seq<char>> {
        regex_set_patterns(self.patterns)
    }

    /// Whether a request for `path` bypasses observation.
    pub open spec fn excludes(&self, path: Seq<char>) -> bool {
        self.exact_paths().contains(path) || any_pattern_matches(self.patterns(), path)
    }

    /// Rules that exclude nothing.
    pub fn new() -> (rules: Self)
        ensures
            rules.exact_paths() == Set::<Seq<char>>::empty(),
            rules.patterns() == Seq::<Seq<char>>::empty(),
    {
        let rules = Exclusions { paths: Vec::new(), patterns: RegexSet::empty() };
        assert(rules.exact_paths() =~= Set::<Seq<char>>::empty());
        rules
    }

    /// Position of `path` among the exact paths, if it is there.
    fn position(&self, path: &String) -> (found: Option<usize>)
        ensures
            found matches Some(i) ==> i < self.paths@.len() && self.paths@[i as int]@ == path@,
            found is None ==> !listed(self.paths@, path@),
    {
        let mut i: usize = 0;
        while i < self.paths.len()
            invariant
                i <= self.paths@.len(),
                forall|k: int| 0 <= k < i ==> (#[trigger] self.paths@[k])@ != path@,
            decreases self.paths@.len() - i,
        {
            if self.paths[i] == *path {
                return Some(i);
            }
            i += 1;
        }
        None
    }

    /// The same rules with the exact path `path` excluded as well. Adding a
    /// path that is already there changes nothing.
    pub fn with_path(self, path: String) -> (rules: Self)
        ensures
            rules.exact_paths() == self.exact_paths().insert(path@),
            rules.patterns() == self.patterns(),
    {
        proof {
            use_type_invariant(&self);
        }
        if self.position(&path).is_some() {
            assert(self.exact_paths() =~= self.exact_paths().insert(path@));
            return self;
        }
        let Exclusions { paths, patterns } = self;
        let ghost before = paths@;
        let ghost text = path@;
        let mut paths = paths;
        paths.push(path);
        let rules = Exclusions { paths, patterns };
        assert forall|p: Seq<char>| listed(rules.paths@, p) <==> (listed(before, p) || p
            == text) by {
            if listed(rules.paths@, p) {
                let i = choose|i: int| 0 <= i < rules.paths@.len() && rules.paths@[i]@ == p;
                if i < before.len() {
                    assert(before[i]@ == p);
                }
            }
            if listed(before, p) {
                let i = choose|i: int| 0 <= i < before.len() && before[i]@ == p;
                assert(rules.paths@[i]@ == p);
            }
            if p == text {
                assert(rules.paths@[before.len() as int]@ == p);
            }
        }
        assert(rules.exact_paths() =~= self.exact_paths().insert(text));
        rules
    }

    /// The same rules with `pattern` added after the patterns already there.
    /// The caller knows that the lengthened list compiles;
    /// [`Exclusions::try_with_pattern`] is for a caller who does not.
    pub fn with_pattern(self, pattern: String) -> (rules: Self)
        requires
            patterns_compile(self.patterns().push(pattern@)),
        ensures
            rules.patterns() == self.patterns().push(pattern@),
            rules.exact_paths() == self.exact_paths(),
    {
        proof {
            use_type_invariant(&self);
        }
        let Exclusions { paths, patterns } = self;
        let mut list = pattern_list(&patterns);
        proof {
            lemma_texts_push(list@, pattern);
        }
        list.push(pattern);
        let built = compile_set(&list);
        let rules = Exclusions { paths, patterns: built.unwrap() };
        assert(rules.exact_paths() =~= self.exact_paths());
        rules
    }

    /// Whether `pattern` can be added: whether it compiles together with the
    /// patterns already there. If not, the pattern is reported as invalid.
    pub fn check_pattern(&self, pattern: &str) -> (outcome: Result<(), ConfigError>)
        ensures
            outcome is Ok <==> patterns_compile(self.patterns().push(pattern@)),
            outcome matches Err(ConfigError::InvalidPattern { pattern: rejected, .. })
                ==> rejected@ == pattern@,
    {
        let mut list = pattern_list(&self.patterns);
        let added = pattern.to_owned();
        proof {
            lemma_texts_push(list@, added);
        }
        list.push(added);
        match compile_set(&list) {
            Ok(_) => Ok(()),
            Err(cause) => Err(ConfigError::InvalidPattern { pattern: pattern.to_owned(), cause }),
        }
    }

    /// Adds `pattern` if the lengthened list of patterns compiles, and
    /// reports the pattern as invalid if it does not.
    pub fn try_with_pattern(self, pattern: String) -> (outcome: Result<Self, ConfigError>)
        ensures
            outcome is Ok <==> patterns_compile(self.patterns().push(pattern@)),
            outcome matches Ok(rules) ==> rules.patterns() == self.patterns().push(pattern@)
                && rules.exact_paths() == self.exact_paths(),
            outcome matches Err(ConfigError::InvalidPattern { pattern: rejected, .. })
                ==> rejected@ == pattern@,
    {
        match self.check_pattern(pattern.as_str()) {
            Ok(()) => Ok(self.with_pattern(pattern)),
            Err(error) => Err(error),
        }
    }

    /// A second set of rules that excludes exactly the same paths.
    pub fn duplicate(&self) -> (copy: Self)
        ensures
            copy.exact_paths() == self.exact_paths(),
            copy.patterns() == self.patterns(),
    {
        proof {
            use_type_invariant(self);
        }
        let mut paths: Vec<String> = Vec::new();
        let mut i: usize = 0;
        while i < self.paths.len()
            invariant
                i <= self.paths@.len(),
                paths@.len() == i,
                forall|k: int| 0 <= k < i ==> (#[trigger] paths@[k])@ == self.paths@[k]@,
            decreases self.paths@.len() - i,
        {
            paths.push(self.paths[i].clone());
            i += 1;
        }
        let copy = Exclusions { paths, patterns: self.patterns.clone() };
        assert forall|p: Seq<char>| listed(copy.paths@, p) <==> listed(self.paths@, p) by {
            if listed(copy.paths@, p) {
                let i = choose|i: int| 0 <= i < copy.paths@.len() && copy.paths@[i]@ == p;
                assert(self.paths@[i]@ == p);
            }
            if listed(self.paths@, p) {
                let i = choose|i: int| 0 <= i < self.paths@.len() && self.paths@[i]@ == p;
                assert(copy.paths@[i]@ == p);
            }
        }
        assert(copy.exact_paths() =~= self.exact_paths());
        copy
    }

    /// Whether a request for `path` bypasses observation: the path is listed
    /// exactly, or some pattern matches it.
    pub fn is_excluded(&self, path: &str) -> (excluded: bool)
        ensures
            excluded == self.excludes(path@),
    {
        let wanted = path.to_owned();
        self.position(&wanted).is_some() || self.patterns.is_match(path)
    }
}

} // verus!
