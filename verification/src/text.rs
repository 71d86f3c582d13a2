//! Case-insensitive wording matches: lowercasing, substring search, and
//! first-match rule tables of needles.

use vstd::prelude::*;

verus! {

/// What `str::to_lowercase` returns for a text: its lowercase form as the
/// Unicode `Lowercase` property defines it. It depends on the text alone.
pub uninterp spec fn lowercase_of(s: Seq<char>) -> Seq<char>;

/// The ASCII lowercase of a character: `A` to `Z` become `a` to `z`;
/// every other character stays.
pub open spec fn ascii_lower_char(c: char) -> char {
    if 'A' <= c && c <= 'Z' {
        ((c as int) + 32) as char
    } else {
        c
    }
}

/// The ASCII uppercase of a character: `a` to `z` become `A` to `Z`;
/// every other character stays.
pub open spec fn ascii_upper_char(c: char) -> char {
    if 'a' <= c && c <= 'z' {
        ((c as int) - 32) as char
    } else {
        c
    }
}

/// The ASCII lowercase of a text, character by character.
pub open spec fn ascii_lower(s: Seq<char>) -> Seq<char> {
    s.map_values(|c: char| ascii_lower_char(c))
}

/// The ASCII uppercase of a text, character by character.
pub open spec fn ascii_upper(s: Seq<char>) -> Seq<char> {
    s.map_values(|c: char| ascii_upper_char(c))
}

/// Calls `str::to_lowercase`. Claimed: the result is `lowercase_of` of the
/// argument's characters, and for an ASCII text it is the text with `A` to
/// `Z` lowercased (the lowercase mapping of the Unicode `Lowercase`
/// property on ASCII). What a non-ASCII character maps to is left unsaid.
#[verifier::external_body]
pub(crate) fn to_lowercase(s: &str) -> (r: String)
    ensures
        r@ == lowercase_of(s@),
        vstd::utf8::is_ascii_chars(s@) ==> r@ == ascii_lower(s@),
{
    s.to_lowercase()
}

/// `needle` occurs in `hay` starting at position `i`.
pub open spec fn occurs_at(hay: Seq<char>, needle: Seq<char>, i: int) -> bool {
    0 <= i && i + needle.len() <= hay.len() && hay.subrange(i, i + needle.len()) == needle
}

/// `needle` occurs somewhere in `hay`.
pub open spec fn contains_text(hay: Seq<char>, needle: Seq<char>) -> bool {
    exists|i: int| occurs_at(hay, needle, i)
}

/// One of `needles` occurs in `hay`.
pub open spec fn contains_any(hay: Seq<char>, needles: Seq<Seq<char>>) -> bool {
    exists|j: int| 0 <= j < needles.len() && contains_text(hay, #[trigger] needles[j])
}

/// The characters of `s`, in order.
pub fn chars_of(s: &str) -> (v: Vec<char>)
    ensures
        v@ == s@,
{
    broadcast use vstd::string::group_string_axioms;

    let mut v: Vec<char> = Vec::new();
    for c in it: s.chars()
        invariant
            v@ == it.seq().take(it.index() as int),
    {
        v.push(c);
    }
    v
}

/// Whether `needle` occurs in `hay` starting at `i`.
fn matches_at(hay: &Vec<char>, needle: &Vec<char>, i: usize) -> (b: bool)
    requires
        i + needle@.len() <= hay@.len(),
    ensures
        b == occurs_at(hay@, needle@, i as int),
{
    let n = needle.len();
    let h = hay.len();
    let mut j: usize = 0;
    while j < n
        invariant
            n == needle@.len(),
            h == hay@.len(),
            i + n <= hay@.len(),
            j <= n,
            forall|t: int| 0 <= t < j ==> hay@[i + t] == needle@[t],
        decreases n - j,
    {
        if hay[i + j] != needle[j] {
            assert(hay@.subrange(i as int, i + n)[j as int] != needle@[j as int]);
            return false;
        }
        j = j + 1;
    }
    assert(hay@.subrange(i as int, i + n) =~= needle@);
    true
}

/// Substring search: whether `needle` occurs in `hay`.
pub fn contains_chars(hay: &Vec<char>, needle: &Vec<char>) -> (b: bool)
    ensures
        b == contains_text(hay@, needle@),
{
    let h = hay.len();
    let n = needle.len();
    if n > h {
        assert forall|i: int| !occurs_at(hay@, needle@, i) by {}
        return false;
    }
    if n == 0 {
        assert(hay@.subrange(0, 0) =~= needle@);
        assert(occurs_at(hay@, needle@, 0));
        return true;
    }
    let last = h - n;
    let mut i: usize = 0;
    while i <= last
        invariant
            h == hay@.len(),
            n == needle@.len(),
            last == h - n,
            0 < n <= h,
            i <= last + 1,
            forall|k: int| 0 <= k < i ==> !occurs_at(hay@, needle@, k),
        decreases last + 1 - i,
    {
        if matches_at(hay, needle, i) {
            return true;
        }
        i = i + 1;
    }
    assert forall|k: int| !occurs_at(hay@, needle@, k) by {
        if 0 <= k < i {
        }
    }
    false
}

/// A rule of a wording table, as a mathematical value: the needles, and
/// the class and subclass it assigns when one of them occurs.
pub type RuleView = (Seq<Seq<char>>, Seq<char>, Seq<char>);

/// The class and subclass of the first rule of which a needle occurs in
/// `text`, or `None` when no rule matches.
pub open spec fn first_match(rules: Seq<RuleView>, text: Seq<char>) -> Option<(Seq<char>, Seq<char>)>
    decreases rules.len(),
{
    if rules.len() == 0 {
        None
    } else if contains_any(text, rules[0].0) {
        Some((rules[0].1, rules[0].2))
    } else {
        first_match(rules.drop_first(), text)
    }
}

/// A rule of a wording table: if one of `needles` occurs in the
/// (lowercased) text, the failure is `class.subclass`.
pub struct NeedleRule {
    pub needles: Vec<&'static str>,
    pub class: &'static str,
    pub subclass: &'static str,
}

impl View for NeedleRule {
    type V = RuleView;

    open spec fn view(&self) -> RuleView {
        (self.needles@.map_values(|n: &'static str| n@), self.class@, self.subclass@)
    }
}

/// The views of a table of rules.
pub open spec fn rules_view(rules: Seq<NeedleRule>) -> Seq<RuleView> {
    rules.map_values(|r: NeedleRule| r@)
}

/// Whether one of `needles` occurs in `text`.
pub fn mentions_any(text: &Vec<char>, needles: &Vec<&'static str>) -> (b: bool)
    ensures
        b == contains_any(text@, needles@.map_values(|n: &'static str| n@)),
{
    let ghost views = needles@.map_values(|n: &'static str| n@);
    let mut j: usize = 0;
    while j < needles.len()
        invariant
            views == needles@.map_values(|n: &'static str| n@),
            j <= needles@.len(),
            forall|k: int| 0 <= k < j ==> !contains_text(text@, #[trigger] views[k]),
        decreases needles@.len() - j,
    {
        let needle = chars_of(needles[j]);
        if contains_chars(text, &needle) {
            assert(contains_text(text@, views[j as int]));
            return true;
        }
        j = j + 1;
    }
    false
}

/// Applies a first-match wording table to `text`: the classification of
/// the first rule with a needle that occurs in `text`, if any.
pub fn first_matching_rule(text: &Vec<char>, rules: &Vec<NeedleRule>) -> (r: Option<crate::error::Error>)
    ensures
        crate::error::option_view(r) == first_match(rules_view(rules@), text@),
{
    let ghost all = rules_view(rules@);
    assert(all.skip(0) =~= all);
    let mut i: usize = 0;
    while i < rules.len()
        invariant
            all == rules_view(rules@),
            i <= rules@.len(),
            first_match(all, text@) == first_match(all.skip(i as int), text@),
        decreases rules@.len() - i,
    {
        let rule = &rules[i];
        assert(all.skip(i as int)[0] == rule@);
        if mentions_any(text, &rule.needles) {
            return Some(crate::error::Error::new(rule.class, rule.subclass));
        }
        assert(all.skip(i as int).drop_first() =~= all.skip(i + 1));
        i = i + 1;
    }
    assert(all.skip(i as int).len() == 0);
    None
}

} // verus!
