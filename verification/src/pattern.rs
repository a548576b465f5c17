//! Regular-expression sets, as the `regex` crate provides them.
//!
//! The set type is opaque to the verifier. What this library relies on is
//! stated here, once, over three uninterpreted functions: the patterns a set
//! was built from, whether a list of patterns compiles, and whether a single
//! pattern matches a text. What is said of the `regex` crate's own functions
//! is taken on trust; the rest of the crate is proved from it.
use regex::RegexSet;
use vstd::prelude::*;

verus! {

/// `regex::RegexSet`, carried as an opaque value.
#[verifier::external_type_specification]
#[verifier::external_body]
pub struct ExRegexSet(regex::RegexSet);

/// `regex::Error`, carried as an opaque value.
#[verifier::external_type_specification]
#[verifier::external_body]
pub struct ExRegexError(regex::Error);

/// The patterns that `set` was built from, in the order they were given.
pub uninterp spec fn regex_set_patterns(set: RegexSet) -> Seq<Seq<char>>;

/// Whether `regex::RegexSet::new` accepts the list `patterns`: every one of
/// them parses and the compiled set stays within the crate's size limit.
pub uninterp spec fn patterns_compile(patterns: Seq<Seq<char>>) -> bool;

/// Whether the regular expression written as `pattern` matches somewhere in
/// `haystack`, as the `regex` crate decides it for a member of a set.
pub uninterp spec fn pattern_matches(pattern: Seq<char>, haystack: Seq<char>) -> bool;

/// The texts of a sequence of strings.
pub open spec fn texts(strings: Seq<String>) -> Seq<Seq<char>> {
    Seq::new(strings.len(), |i: int| strings[i]@)
}

/// Some pattern of the list matches `haystack`.
pub open spec fn any_pattern_matches(patterns: Seq<Seq<char>>, haystack: Seq<char>) -> bool {
    exists|i: int| 0 <= i < patterns.len() && pattern_matches(#[trigger] patterns[i], haystack)
}

/// `RegexSet::empty`: the set built from no pattern at all.
pub assume_specification[ regex::RegexSet::empty ]() -> (set: RegexSet)
    ensures
        regex_set_patterns(set) == Seq::<Seq<char>>::empty(),
;

/// `RegexSet::patterns`: the patterns the set was constructed from, as many
/// as were given and in the same order.
pub assume_specification<'a>[ regex::RegexSet::patterns ](set: &'a RegexSet) -> (listed: &'a [String])
    ensures
        texts(listed@) == regex_set_patterns(*set),
;

/// `RegexSet::is_match`: true if and only if one of the regexes in the set
/// matches the haystack. The search is unanchored unless the pattern anchors
/// itself.
pub assume_specification[ regex::RegexSet::is_match ](set: &RegexSet, haystack: &str) -> (found:
    bool)
    ensures
        found == (exists|i: int|
            0 <= i < regex_set_patterns(*set).len() && pattern_matches(
                #[trigger] regex_set_patterns(*set)[i],
                haystack@,
            )),
;

/// `<RegexSet as Clone>::clone`: the copy is a set of the same patterns.
pub assume_specification[ <RegexSet as Clone>::clone ](set: &RegexSet) -> (copy: RegexSet)
    ensures
        regex_set_patterns(copy) == regex_set_patterns(*set),
;

/// `RegexSet::new` on a list of patterns. It returns a set exactly when the
/// list compiles, and the set then reports the same patterns in the same
/// order; otherwise it returns the crate's error.
#[verifier::external_body]
pub(crate) fn compile_set(patterns: &Vec<String>) -> (built: Result<RegexSet, regex::Error>)
    ensures
        built is Ok <==> patterns_compile(texts(patterns@)),
        built matches Ok(set) ==> regex_set_patterns(set) == texts(patterns@),
{
    RegexSet::new(patterns)
}

/// Appending one string appends its text.
pub proof fn lemma_texts_push(strings: Seq<String>, last: String)
    ensures
        texts(strings.push(last)) == texts(strings).push(last@),
{
    assert(texts(strings.push(last)) =~= texts(strings).push(last@));
}

/// An owned copy of the patterns of `set`, in order.
pub fn pattern_list(set: &RegexSet) -> (list: Vec<String>)
    ensures
        texts(list@) == regex_set_patterns(*set),
{
    let listed = set.patterns();
    let mut list: Vec<String> = Vec::new();
    let mut i: usize = 0;
    while i < listed.len()
        invariant
            i <= listed@.len(),
            list@.len() == i,
            forall|k: int| 0 <= k < i ==> list@[k]@ == listed@[k]@,
        decreases listed@.len() - i,
    {
        list.push(listed[i].clone());
        i += 1;
    }
    assert(texts(list@) =~= texts(listed@));
    list
}

} // verus!
