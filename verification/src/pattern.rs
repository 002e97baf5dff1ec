//! Regular expressions, searched with the `regex` crate.

use vstd::prelude::*;

verus! {

/// Whether the `regex` crate accepts `pattern` and finds a match of it in `text`.
pub uninterp spec fn pattern_found(pattern: Seq<char>, text: Seq<char>) -> bool;

/// Compiles `pattern` with `regex::Regex::new` and searches `text` with `Regex::is_match`. The
/// answer is a function of the two texts; it is `false` for a pattern that does not compile. What
/// the syntax of a pattern means is left to the crate.
#[verifier::external_body]
pub(crate) fn find_pattern(pattern: &str, text: &str) -> (found: bool)
    ensures
        found == pattern_found(pattern@, text@),
{
    match regex::Regex::new(pattern) {
        Ok(compiled) => compiled.is_match(text),
        Err(_) => false,
    }
}

/// Some pattern of the list is found in `text`.
pub open spec fn any_found(patterns: Seq<Seq<char>>, text: Seq<char>) -> bool {
    exists|i: int| 0 <= i < patterns.len() && pattern_found(#[trigger] patterns[i], text)
}

/// The characters of each text of a list.
pub open spec fn views(texts: Seq<&str>) -> Seq<Seq<char>> {
    texts.map_values(|t: &str| t@)
}

/// Whether some pattern of the list is found in `text`.
pub fn find_any(patterns: &Vec<&str>, text: &str) -> (found: bool)
    ensures
        found == any_found(views(patterns@), text@),
{
    let n: usize = patterns.len();
    let mut i: usize = 0;
    while i < n
        invariant
            n == patterns@.len(),
            i <= n,
            forall|j: int|
                0 <= j < i ==> !pattern_found(#[trigger] views(patterns@)[j], text@),
        decreases n - i,
    {
        assert(views(patterns@)[i as int] == patterns@[i as int]@);
        if find_pattern(patterns[i], text) {
            return true;
        }
        i += 1;
    }
    false
}

/// The texts of a list, one behind the other, with `separator` between them.
pub open spec fn joined(texts: Seq<Seq<char>>, separator: Seq<char>) -> Seq<char>
    decreases texts.len(),
{
    if texts.len() == 0 {
        seq![]
    } else if texts.len() == 1 {
        texts[0]
    } else {
        joined(texts.drop_last(), separator) + separator + texts.last()
    }
}

/// Joins the texts of a list.
pub fn join(texts: &Vec<&str>, separator: &str) -> (r: String)
    ensures
        r@ == joined(views(texts@), separator@),
{
    let n: usize = texts.len();
    let mut r = String::new();
    let mut i: usize = 0;
    while i < n
        invariant
            n == texts@.len(),
            i <= n,
            r@ == joined(views(texts@).take(i as int), separator@),
        decreases n - i,
    {
        let ghost next = views(texts@).take(i + 1);
        assert(next.drop_last() =~= views(texts@).take(i as int));
        assert(next.last() == texts@[i as int]@);
        if i > 0 {
            r = crate::text::concat3(r.as_str(), separator, texts[i]);
        } else {
            r = texts[i].to_owned();
        }
        i += 1;
    }
    assert(views(texts@).take(n as int) =~= views(texts@));
    r
}

/// Some text of a list is looked for in a text: it is found where one of the patterns is, and only
/// there.
pub proof fn law_any_pattern_is_enough(patterns: &Vec<&str>, text: &str, i: int, found: bool)
    requires
        call_ensures(find_any, (patterns, text), found),
    ensures
        0 <= i < patterns@.len() && pattern_found(patterns@[i]@, text@) ==> found,
        (forall|k: int|
            0 <= k < patterns@.len() ==> !pattern_found((#[trigger] patterns@[k])@, text@))
            ==> !found,
{
    if 0 <= i < patterns@.len() {
        assert(views(patterns@)[i] == patterns@[i]@);
    }
    if forall|k: int|
        0 <= k < patterns@.len() ==> !pattern_found((#[trigger] patterns@[k])@, text@) {
        assert forall|k: int| 0 <= k < views(patterns@).len() implies !pattern_found(
            #[trigger] views(patterns@)[k],
            text@,
        ) by {
            assert(views(patterns@)[k] == patterns@[k]@);
        }
    }
}

/// No text joined is none, one is itself, and each further one comes behind a separator.
pub proof fn law_texts_are_joined_in_order(
    texts: &Vec<&str>,
    more: &Vec<&str>,
    separator: &str,
    short: String,
    long: String,
)
    requires
        call_ensures(join, (texts, separator), short),
        call_ensures(join, (more, separator), long),
        more@.len() == texts@.len() + 1,
        more@.drop_last() == texts@,
    ensures
        texts@.len() == 0 ==> short@.len() == 0 && long@ == more@[0]@,
        texts@.len() > 0 ==> long@ == short@ + separator@ + more@.last()@,
{
    assert(views(more@).drop_last() =~= views(texts@));
    assert(views(more@).last() == more@.last()@);
}

} // verus!
