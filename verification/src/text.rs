//! Text as sequences of characters: searching, slicing and reading numbers.

use vstd::prelude::*;
use vstd::string::StringExecFns;
use vstd::string::StrSliceExecFns;

verus! {

/// `needle` stands in `hay` at position `i`.
pub open spec fn occurs_at(hay: Seq<char>, needle: Seq<char>, i: int) -> bool {
    &&& 0 <= i
    &&& i + needle.len() <= hay.len()
    &&& hay.subrange(i, i + needle.len()) == needle
}

/// `needle` stands somewhere in `hay`.
pub open spec fn contains_seq(hay: Seq<char>, needle: Seq<char>) -> bool {
    exists|i: int| occurs_at(hay, needle, i)
}

/// The leftmost position of `needle` in `hay` is `i`.
pub open spec fn first_at(hay: Seq<char>, needle: Seq<char>, i: int) -> bool {
    &&& occurs_at(hay, needle, i)
    &&& forall|j: int| 0 <= j < i ==> !occurs_at(hay, needle, j)
}

/// `text` begins with `prefix`.
pub open spec fn begins_with(text: Seq<char>, prefix: Seq<char>) -> bool {
    occurs_at(text, prefix, 0)
}

/// The leftmost position of `needle` in `hay`, where there is one.
pub open spec fn first_index(hay: Seq<char>, needle: Seq<char>) -> Option<int> {
    if contains_seq(hay, needle) {
        Some(choose|i: int| first_at(hay, needle, i))
    } else {
        None
    }
}

/// A leftmost position is the only one.
pub proof fn lemma_first_index(hay: Seq<char>, needle: Seq<char>, i: int)
    requires
        first_at(hay, needle, i),
    ensures
        first_index(hay, needle) == Some(i),
{
    let j = choose|j: int| first_at(hay, needle, j);
    assert(first_at(hay, needle, j));
}

/// An ASCII digit.
pub open spec fn is_ascii_digit(c: char) -> bool {
    '0' <= c <= '9'
}

/// The characters with the Unicode property `White_Space`.
pub open spec fn is_white_space(c: char) -> bool {
    ||| '\u{9}' <= c <= '\u{d}'
    ||| c == '\u{20}'
    ||| c == '\u{85}'
    ||| c == '\u{a0}'
    ||| c == '\u{1680}'
    ||| '\u{2000}' <= c <= '\u{200a}'
    ||| c == '\u{2028}'
    ||| c == '\u{2029}'
    ||| c == '\u{202f}'
    ||| c == '\u{205f}'
    ||| c == '\u{3000}'
}

/// `[from, to)` are the bounds of `text` without the white space at its two ends.
pub open spec fn trimmed_bounds(text: Seq<char>, from: int, to: int) -> bool {
    &&& 0 <= from <= to <= text.len()
    &&& forall|i: int| 0 <= i < from ==> is_white_space(#[trigger] text[i])
    &&& forall|i: int| to <= i < text.len() ==> is_white_space(#[trigger] text[i])
    &&& from < to ==> !is_white_space(text[from]) && !is_white_space(text[to - 1])
    &&& from == to ==> to == text.len()
}

/// What is left of `text` when the white space at its two ends is taken away.
pub open spec fn trimmed(text: Seq<char>) -> Seq<char> {
    let b = choose|b: (int, int)| #[trigger] trimmed_bounds(text, b.0, b.1);
    text.subrange(b.0, b.1)
}

/// Appending one character, as `String::push` documents it.
pub assume_specification[ String::push ](s: &mut String, c: char)
    ensures
        final(s)@ == old(s)@.push(c),
;

/// The characters of a text.
pub fn to_chars(s: &str) -> (v: Vec<char>)
    ensures
        v@ == s@,
{
    let mut v: Vec<char> = Vec::new();
    for c in it: s.chars()
        invariant
            it.seq() == s@,
            v@ == s@.take(it.index()),
    {
        v.push(c);
        assert(v@ =~= s@.take(it.index() + 1));
    }
    assert(s@.take(s@.len() as int) =~= s@);
    v
}

/// Whether two texts hold the same characters.
pub fn same_text(a: &str, b: &str) -> (r: bool)
    ensures
        r == (a@ == b@),
{
    a.to_owned() == b.to_owned()
}

/// Two texts, one behind the other.
pub fn concat2(a: &str, b: &str) -> (r: String)
    ensures
        r@ == a@ + b@,
{
    let mut r = a.to_owned();
    r.append(b);
    r
}

/// Three texts, one behind the other.
pub fn concat3(a: &str, b: &str, c: &str) -> (r: String)
    ensures
        r@ == a@ + b@ + c@,
{
    let mut r = a.to_owned();
    r.append(b);
    r.append(c);
    r
}

/// The part of `s` between two positions, counted in characters.
pub fn slice(s: &str, from: usize, to: usize) -> (r: String)
    requires
        from <= to <= s@.len(),
    ensures
        r@ == s@.subrange(from as int, to as int),
{
    s.substring_char(from, to).to_owned()
}

/// Whether `needle` stands in `hay` at `i`.
pub fn occurs(hay: &Vec<char>, needle: &Vec<char>, i: usize) -> (b: bool)
    requires
        i + needle@.len() <= hay@.len(),
    ensures
        b == occurs_at(hay@, needle@, i as int),
{
    let h: usize = hay.len();
    let n: usize = needle.len();
    let mut k: usize = 0;
    while k < n
        invariant
            h == hay@.len(),
            n == needle@.len(),
            k <= n,
            i + n <= h,
            forall|j: int| 0 <= j < k ==> hay@[i + j] == needle@[j],
        decreases n - k,
    {
        if hay[i + k] != needle[k] {
            assert(hay@.subrange(i as int, i + n)[k as int] != needle@[k as int]);
            return false;
        }
        k += 1;
    }
    assert(hay@.subrange(i as int, i + n) =~= needle@);
    true
}

/// The leftmost position of `needle` in `hay`, counted in characters.
pub fn find_chars(hay: &Vec<char>, needle: &Vec<char>) -> (r: Option<usize>)
    ensures
        match r {
            Some(i) => first_at(hay@, needle@, i as int),
            None => !contains_seq(hay@, needle@),
        },
{
    let h: usize = hay.len();
    let n: usize = needle.len();
    if n > h {
        return None;
    }
    let last: usize = h - n;
    let mut i: usize = 0;
    loop
        invariant
            h == hay@.len(),
            n == needle@.len(),
            n <= h,
            last == h - n,
            i <= last,
            forall|j: int| 0 <= j < i ==> !occurs_at(hay@, needle@, j),
        decreases last - i,
    {
        if occurs(hay, needle, i) {
            return Some(i);
        }
        if i == last {
            return None;
        }
        i += 1;
    }
}

/// Whether `needle` stands in `hay`.
pub fn contains_text(hay: &str, needle: &str) -> (b: bool)
    ensures
        b == contains_seq(hay@, needle@),
{
    let h = to_chars(hay);
    let n = to_chars(needle);
    find_chars(&h, &n).is_some()
}

/// Whether `text` begins with `prefix`.
pub fn starts_with_text(text: &str, prefix: &str) -> (b: bool)
    ensures
        b == begins_with(text@, prefix@),
{
    let t = to_chars(text);
    let p = to_chars(prefix);
    if p.len() > t.len() {
        return false;
    }
    occurs(&t, &p, 0)
}

/// Whether `c` is white space.
pub fn white_space(c: char) -> (b: bool)
    ensures
        b == is_white_space(c),
{
    ('\u{9}' <= c && c <= '\u{d}') || c == '\u{20}' || c == '\u{85}' || c == '\u{a0}' || c
        == '\u{1680}' || ('\u{2000}' <= c && c <= '\u{200a}') || c == '\u{2028}' || c == '\u{2029}'
        || c == '\u{202f}' || c == '\u{205f}' || c == '\u{3000}'
}

/// The bounds of a text without the white space at its ends are unique.
proof fn lemma_trimmed_unique(text: Seq<char>, a: (int, int), b: (int, int))
    requires
        trimmed_bounds(text, a.0, a.1),
        trimmed_bounds(text, b.0, b.1),
    ensures
        text.subrange(a.0, a.1) == text.subrange(b.0, b.1),
{
    if a.0 < a.1 && b.0 < b.1 {
        assert(a.0 == b.0) by {
            if a.0 < b.0 {
                assert(is_white_space(text[a.0]));
            }
            if b.0 < a.0 {
                assert(is_white_space(text[b.0]));
            }
        }
        assert(a.1 == b.1) by {
            if a.1 < b.1 {
                assert(is_white_space(text[b.1 - 1]));
            }
            if b.1 < a.1 {
                assert(is_white_space(text[a.1 - 1]));
            }
        }
    } else if a.0 < a.1 {
        assert(is_white_space(text[a.0]));
    } else if b.0 < b.1 {
        assert(is_white_space(text[b.0]));
    } else {
        assert(text.subrange(a.0, a.1) =~= text.subrange(b.0, b.1));
    }
}

/// The text without the white space at its two ends.
pub fn trim_text(s: &str) -> (r: String)
    ensures
        r@ == trimmed(s@),
{
    let v = to_chars(s);
    let n: usize = v.len();
    let mut from: usize = 0;
    while from < n && white_space(v[from])
        invariant
            n == v@.len(),
            from <= n,
            forall|i: int| 0 <= i < from ==> is_white_space(#[trigger] v@[i]),
        ensures
            from <= n,
            forall|i: int| 0 <= i < from ==> is_white_space(#[trigger] v@[i]),
            from < n ==> !is_white_space(v@[from as int]),
        decreases n - from,
    {
        from += 1;
    }
    let mut to: usize = n;
    while to > from && white_space(v[to - 1])
        invariant
            n == v@.len(),
            from <= to <= n,
            from < n ==> !is_white_space(v@[from as int]),
            forall|i: int| to <= i < n ==> is_white_space(#[trigger] v@[i]),
        ensures
            from <= to <= n,
            forall|i: int| to <= i < n ==> is_white_space(#[trigger] v@[i]),
            to > from ==> !is_white_space(v@[to - 1]),
        decreases to,
    {
        to -= 1;
    }
    proof {
        let mine = (from as int, to as int);
        assert(trimmed_bounds(s@, mine.0, mine.1));
        let b = choose|b: (int, int)| #[trigger] trimmed_bounds(s@, b.0, b.1);
        lemma_trimmed_unique(s@, mine, b);
    }
    slice(s, from, to)
}

/// The small letter of an ASCII capital, any other character unchanged.
pub open spec fn ascii_lower_char(c: char) -> char {
    if 'A' <= c <= 'Z' {
        ((c as int) + 32) as char
    } else {
        c
    }
}

/// A text with its ASCII capitals made small.
pub open spec fn ascii_lower(text: Seq<char>) -> Seq<char> {
    text.map_values(|c: char| ascii_lower_char(c))
}

/// The text with its ASCII capitals made small.
pub fn to_ascii_lower(s: &str) -> (r: String)
    ensures
        r@ == ascii_lower(s@),
{
    let mut r = String::new();
    for c in it: s.chars()
        invariant
            it.seq() == s@,
            r@ == ascii_lower(s@).take(it.index()),
    {
        let lower: char = if 'A' <= c && c <= 'Z' {
            (c as u8 + 32) as char
        } else {
            c
        };
        r.push(lower);
        assert(r@ =~= ascii_lower(s@).take(it.index() + 1));
    }
    assert(ascii_lower(s@).take(s@.len() as int) =~= ascii_lower(s@));
    r
}

/// The position of the first character from `from` on that is no white space.
pub open spec fn skip_white(s: Seq<char>, from: int) -> int
    decreases s.len() - from,
{
    if from < s.len() && is_white_space(s[from]) {
        skip_white(s, from + 1)
    } else {
        from
    }
}

/// The position of the first white space from `from` on.
pub open spec fn skip_word(s: Seq<char>, from: int) -> int
    decreases s.len() - from,
{
    if from < s.len() && !is_white_space(s[from]) {
        skip_word(s, from + 1)
    } else {
        from
    }
}

/// The first word of a text, where there is one.
pub open spec fn first_word(s: Seq<char>) -> Option<Seq<char>> {
    let a = skip_white(s, 0);
    if a < s.len() {
        Some(s.subrange(a, skip_word(s, a)))
    } else {
        None
    }
}

/// The first word of a text.
pub fn first_word_of(s: &str) -> (r: Option<String>)
    ensures
        match first_word(s@) {
            Some(w) => r is Some && r->0@ == w,
            None => r is None,
        },
{
    let v = to_chars(s);
    let n: usize = v.len();
    let mut a: usize = 0;
    while a < n && white_space(v[a])
        invariant
            n == v@.len(),
            a <= n,
            skip_white(v@, 0) == skip_white(v@, a as int),
        ensures
            a <= n,
            skip_white(v@, 0) == a,
        decreases n - a,
    {
        a += 1;
    }
    if a == n {
        return None;
    }
    let mut b: usize = a;
    while b < n && !white_space(v[b])
        invariant
            n == v@.len(),
            a <= b <= n,
            skip_word(v@, a as int) == skip_word(v@, b as int),
        ensures
            a <= b <= n,
            skip_word(v@, a as int) == b,
        decreases n - b,
    {
        b += 1;
    }
    Some(slice(s, a, b))
}

// ---------------------------------------------------------------------------
// What the operations promise
// ---------------------------------------------------------------------------

/// White space is the tab and the four characters behind it, the spaces and the separators of lines
/// and paragraphs, and nothing else.
pub proof fn law_white_space_is_known(c: char, r: bool)
    requires
        call_ensures(white_space, (c,), r),
    ensures
        ({
            let n = c as int;
            r <==> 9 <= n <= 13 || n == 0x20 || n == 0x85 || n == 0xa0 || n == 0x1680 || 0x2000 <= n
                <= 0x200a || n == 0x2028 || n == 0x2029 || n == 0x202f || n == 0x205f || n == 0x3000
        }),
{
}

/// A trimmed text is the text without white space before and behind it: only white space is taken
/// away, and none is left at the ends.
pub proof fn law_only_outer_white_space_is_trimmed(s: &str, r: String)
    requires
        call_ensures(trim_text, (s,), r),
    ensures
        exists|from: int, to: int|
            0 <= from <= to <= s@.len() && r@ == #[trigger] s@.subrange(from, to) && (forall|k: int|
                0 <= k < from || to <= k < s@.len() ==> is_white_space(#[trigger] s@[k])),
        r@.len() > 0 ==> !is_white_space(r@[0]) && !is_white_space(r@.last()),
{
    let t = s@;
    lemma_trimmed_exists(t);
    let b = choose|b: (int, int)| #[trigger] trimmed_bounds(t, b.0, b.1);
    assert(trimmed_bounds(t, b.0, b.1));
    assert(r@ == t.subrange(b.0, b.1));
    if b.0 < b.1 {
        assert(r@[0] == t[b.0]);
        assert(r@.last() == t[b.1 - 1]);
    }
}

spec fn first_dark(t: Seq<char>, from: int) -> int
    decreases t.len() - from,
{
    if from < t.len() && is_white_space(t[from]) {
        first_dark(t, from + 1)
    } else {
        from
    }
}

spec fn last_dark(t: Seq<char>, to: int) -> int
    decreases to,
{
    if to > 0 && is_white_space(t[to - 1]) {
        last_dark(t, to - 1)
    } else {
        to
    }
}

proof fn lemma_first_dark(t: Seq<char>, from: int)
    requires
        0 <= from <= t.len(),
    ensures
        from <= first_dark(t, from) <= t.len(),
        forall|k: int| from <= k < first_dark(t, from) ==> is_white_space(#[trigger] t[k]),
        first_dark(t, from) < t.len() ==> !is_white_space(t[first_dark(t, from)]),
    decreases t.len() - from,
{
    if from < t.len() && is_white_space(t[from]) {
        lemma_first_dark(t, from + 1);
    }
}

proof fn lemma_last_dark(t: Seq<char>, to: int)
    requires
        0 <= to <= t.len(),
    ensures
        0 <= last_dark(t, to) <= to,
        forall|k: int| last_dark(t, to) <= k < to ==> is_white_space(#[trigger] t[k]),
        last_dark(t, to) > 0 ==> !is_white_space(t[last_dark(t, to) - 1]),
    decreases to,
{
    if to > 0 && is_white_space(t[to - 1]) {
        lemma_last_dark(t, to - 1);
    }
}

/// Every text has bounds without white space at its ends.
proof fn lemma_trimmed_exists(t: Seq<char>)
    ensures
        exists|b: (int, int)| #[trigger] trimmed_bounds(t, b.0, b.1),
{
    let n = t.len() as int;
    lemma_first_dark(t, 0);
    lemma_last_dark(t, n);
    let from = first_dark(t, 0);
    let to = last_dark(t, n);
    if from == n {
        let b = (n, n);
        assert(trimmed_bounds(t, b.0, b.1));
    } else {
        assert(!is_white_space(t[from]));
        assert(to > from) by {
            if to <= from {
                assert(is_white_space(t[from]));
            }
        }
        let b = (from, to);
        assert(trimmed_bounds(t, b.0, b.1));
    }
}

/// A capital ASCII letter becomes the small one; every other character stays.
pub proof fn law_only_capitals_are_made_small(s: &str, r: String, i: int)
    requires
        call_ensures(to_ascii_lower, (s,), r),
        0 <= i < s@.len(),
    ensures
        r@.len() == s@.len(),
        0x41 <= s@[i] as int <= 0x5a ==> r@[i] as int == s@[i] as int + 0x20,
        !(0x41 <= s@[i] as int <= 0x5a) ==> r@[i] == s@[i],
{
}

/// What is found is there, and nowhere before; what is not found is nowhere.
pub proof fn law_the_leftmost_is_found(
    hay: &Vec<char>,
    needle: &Vec<char>,
    r: Option<usize>,
    before: Seq<char>,
    behind: Seq<char>,
)
    requires
        call_ensures(find_chars, (hay, needle), r),
    ensures
        r matches Some(i) ==> i + needle@.len() <= hay@.len() && (forall|k: int|
            0 <= k < needle@.len() ==> #[trigger] needle@[k] == hay@[i + k]),
        hay@ == before + needle@ + behind ==> r is Some && r->0 <= before.len(),
{
    if let Some(i) = r {
        let part = hay@.subrange(i as int, i + needle@.len());
        assert forall|k: int| 0 <= k < needle@.len() implies #[trigger] needle@[k] == hay@[i
            + k] by {
            assert(part[k] == hay@[i + k]);
        }
    }
    if hay@ == before + needle@ + behind {
        assert(hay@.subrange(before.len() as int, before.len() as int + needle@.len()) =~= needle@);
        assert(occurs_at(hay@, needle@, before.len() as int));
    }
}

/// A text holds what stands between two parts of it, and what it holds stands so.
pub proof fn law_a_text_holds_its_parts(
    hay: &str,
    needle: &str,
    before: Seq<char>,
    behind: Seq<char>,
    r: bool,
)
    requires
        call_ensures(contains_text, (hay, needle), r),
    ensures
        hay@ == before + needle@ + behind ==> r,
        r ==> exists|i: int|
            0 <= i && i + needle@.len() <= hay@.len() && hay@ == #[trigger] hay@.take(i) + needle@
                + hay@.skip(i + needle@.len()),
{
    if hay@ == before + needle@ + behind {
        assert(hay@.subrange(before.len() as int, before.len() as int + needle@.len()) =~= needle@);
        assert(occurs_at(hay@, needle@, before.len() as int));
    }
    if r {
        let i = choose|i: int| occurs_at(hay@, needle@, i);
        let n = needle@.len() as int;
        assert(occurs_at(hay@, needle@, i));
        let whole = hay@.take(i) + needle@ + hay@.skip(i + n);
        assert forall|k: int| 0 <= k < hay@.len() implies #[trigger] hay@[k] == whole[k] by {
            if i <= k < i + n {
                assert(hay@.subrange(i, i + n)[k - i] == hay@[k]);
            }
        }
        assert(hay@ =~= whole);
    }
}

/// A text begins with a prefix exactly where it is the prefix and something behind it.
pub proof fn law_a_text_begins_with_its_prefix(text: &str, prefix: &str, rest: Seq<char>, r: bool)
    requires
        call_ensures(starts_with_text, (text, prefix), r),
    ensures
        text@ == prefix@ + rest ==> r,
        r ==> prefix@.len() <= text@.len() && text@ == prefix@ + text@.skip(prefix@.len() as int),
{
    let n = prefix@.len() as int;
    if text@ == prefix@ + rest {
        assert(text@.subrange(0, n) =~= prefix@);
    }
    if r {
        let whole = prefix@ + text@.skip(n);
        assert forall|k: int| 0 <= k < text@.len() implies #[trigger] text@[k] == whole[k] by {
            if k < n {
                assert(text@.subrange(0, n)[k] == text@[k]);
            }
        }
        assert(text@ =~= whole);
    }
}

/// Texts put behind one another keep their characters and their order, and a slice gives each back.
pub proof fn law_joined_texts_are_sliced_apart(
    a: &str,
    b: &str,
    c: &str,
    two: String,
    three: String,
    joined: &str,
    middle: String,
)
    requires
        call_ensures(concat2, (a, b), two),
        call_ensures(concat3, (a, b, c), three),
        joined@ == three@,
        a@.len() + b@.len() <= usize::MAX,
        call_ensures(
            slice,
            (joined, a@.len() as usize, (a@.len() + b@.len()) as usize),
            middle,
        ),
    ensures
        two@ + c@ == three@,
        two@.len() == a@.len() + b@.len(),
        two@.take(a@.len() as int) == a@,
        middle@ == b@,
{
    assert(two@.take(a@.len() as int) =~= a@);
    assert(middle@ =~= b@);
}

proof fn lemma_skip_white(s: Seq<char>, from: int)
    requires
        0 <= from <= s.len(),
    ensures
        from <= skip_white(s, from) <= s.len(),
        forall|k: int| from <= k < skip_white(s, from) ==> is_white_space(#[trigger] s[k]),
        skip_white(s, from) < s.len() ==> !is_white_space(s[skip_white(s, from)]),
    decreases s.len() - from,
{
    if from < s.len() && is_white_space(s[from]) {
        lemma_skip_white(s, from + 1);
    }
}

proof fn lemma_skip_word(s: Seq<char>, from: int)
    requires
        0 <= from <= s.len(),
    ensures
        from <= skip_word(s, from) <= s.len(),
        forall|k: int| from <= k < skip_word(s, from) ==> !is_white_space(#[trigger] s[k]),
        skip_word(s, from) < s.len() ==> is_white_space(s[skip_word(s, from)]),
    decreases s.len() - from,
{
    if from < s.len() && !is_white_space(s[from]) {
        lemma_skip_word(s, from + 1);
    }
}

/// The first word stands behind white space alone, holds none and ends at white space or with the
/// text; a text of white space alone has none.
pub proof fn law_the_first_word_is_a_whole_word(s: &str, r: Option<String>)
    requires
        call_ensures(first_word_of, (s,), r),
    ensures
        r is None <==> (forall|k: int| 0 <= k < s@.len() ==> is_white_space(#[trigger] s@[k])),
        r matches Some(w) ==> w@.len() > 0 && (forall|k: int|
            0 <= k < w@.len() ==> !is_white_space(#[trigger] w@[k])) && exists|at: int|
            0 <= at && at + w@.len() <= s@.len() && w@ == #[trigger] s@.subrange(at, at + w@.len()) && (
            forall|k: int| 0 <= k < at ==> is_white_space(#[trigger] s@[k])) && (at + w@.len()
                < s@.len() ==> is_white_space(s@[at + w@.len()])),
{
    let t = s@;
    lemma_skip_white(t, 0);
    let a = skip_white(t, 0);
    if a < t.len() {
        lemma_skip_word(t, a);
        let b = skip_word(t, a);
        assert(!is_white_space(t[a]));
        assert(b > a);
        let w = r->0;
        assert(w@ == t.subrange(a, b));
        assert forall|k: int| 0 <= k < w@.len() implies !is_white_space(#[trigger] w@[k]) by {
            assert(w@[k] == t[a + k]);
        }
        assert(w@ == t.subrange(a, a + w@.len()));
    }
}

} // verus!
