//! How option names are read: surrounding Unicode white space is dropped,
//! ASCII letters are folded to one case, and (for method names) hyphens are
//! read as underscores.
use vstd::prelude::*;

verus! {

/// The characters with the Unicode `White_Space` property, which is what
/// `str::trim` removes.
pub open spec fn is_white_space(c: char) -> bool {
    let u = c as u32;
    ||| 0x9 <= u <= 0xD
    ||| u == 0x20
    ||| u == 0x85
    ||| u == 0xA0
    ||| u == 0x1680
    ||| 0x2000 <= u <= 0x200A
    ||| u == 0x2028
    ||| u == 0x2029
    ||| u == 0x202F
    ||| u == 0x205F
    ||| u == 0x3000
}

/// `s` without its leading white space.
pub open spec fn trim_start(s: Seq<char>) -> Seq<char>
    decreases s.len(),
{
    if s.len() > 0 && is_white_space(s[0]) {
        trim_start(s.drop_first())
    } else {
        s
    }
}

/// `s` without its trailing white space.
pub open spec fn trim_end(s: Seq<char>) -> Seq<char>
    decreases s.len(),
{
    if s.len() > 0 && is_white_space(s.last()) {
        trim_end(s.drop_last())
    } else {
        s
    }
}

/// `s` without leading and trailing white space.
pub open spec fn trim(s: Seq<char>) -> Seq<char> {
    trim_end(trim_start(s))
}

pub open spec fn is_ascii_upper(c: char) -> bool {
    'A' <= c && c <= 'Z'
}

pub open spec fn is_ascii_lower(c: char) -> bool {
    'a' <= c && c <= 'z'
}

/// The ASCII lower-case form of one character; every other character is kept.
pub open spec fn ascii_lower_char(c: char) -> char {
    if is_ascii_upper(c) {
        ((c as u32) + 32) as char
    } else {
        c
    }
}

/// The ASCII upper-case form of one character; every other character is kept.
pub open spec fn ascii_upper_char(c: char) -> char {
    if is_ascii_lower(c) {
        ((c as u32) - 32) as char
    } else {
        c
    }
}

pub open spec fn ascii_lower(s: Seq<char>) -> Seq<char> {
    s.map_values(|c: char| ascii_lower_char(c))
}

pub open spec fn ascii_upper(s: Seq<char>) -> Seq<char> {
    s.map_values(|c: char| ascii_upper_char(c))
}

/// `s` with every hyphen written as an underscore.
pub open spec fn hyphens_to_underscores(s: Seq<char>) -> Seq<char> {
    s.map_values(|c: char| if c == '-' { '_' } else { c })
}

/// Calls `str::trim`, which returns the slice without leading and trailing
/// characters of the Unicode `White_Space` property.
#[verifier::external_body]
pub(crate) fn trim_str(s: &str) -> (r: &str)
    ensures
        r@ == trim(s@),
{
    s.trim()
}

/// Calls `str::to_ascii_lowercase`, which maps 'A'..='Z' to 'a'..='z' and keeps
/// every other character.
#[verifier::external_body]
pub(crate) fn to_ascii_lowercase_str(s: &str) -> (r: String)
    ensures
        r@ == ascii_lower(s@),
{
    s.to_ascii_lowercase()
}

/// Calls `str::to_ascii_uppercase`, which maps 'a'..='z' to 'A'..='Z' and keeps
/// every other character.
#[verifier::external_body]
pub(crate) fn to_ascii_uppercase_str(s: &str) -> (r: String)
    ensures
        r@ == ascii_upper(s@),
{
    s.to_ascii_uppercase()
}

/// Calls `str::replace` with the pattern `'-'` and the replacement `"_"`, which
/// writes an underscore in place of each hyphen and keeps the rest.
#[verifier::external_body]
pub(crate) fn hyphens_to_underscores_str(s: &str) -> (r: String)
    ensures
        r@ == hyphens_to_underscores(s@),
{
    s.replace('-', "_")
}

/// Calls `PartialEq::eq` on two string slices, which holds exactly when they
/// hold the same characters.
#[verifier::external_body]
pub(crate) fn str_eq(a: &str, b: &str) -> (r: bool)
    ensures
        r == (a@ == b@),
{
    a == b
}

/// All characters of `s` are white space.
pub open spec fn all_white_space(s: Seq<char>) -> bool {
    forall|k: int| 0 <= k < s.len() ==> #[trigger] is_white_space(s[k])
}

/// A map of characters that sends white space to white space and everything
/// else to something else.
pub open spec fn keeps_white_space(f: spec_fn(char) -> char) -> bool {
    forall|c: char| #[trigger] is_white_space(f(c)) == is_white_space(c)
}

/// ASCII case folding neither makes nor removes white space.
pub proof fn lemma_case_folding_keeps_white_space()
    ensures
        keeps_white_space(|c: char| ascii_lower_char(c)),
        keeps_white_space(|c: char| ascii_upper_char(c)),
{
    assert forall|c: char| #[trigger] is_white_space(ascii_lower_char(c)) == is_white_space(c) by {
        if is_ascii_upper(c) {
            assert(((c as u32) + 32) as char as u32 == (c as u32) + 32);
        }
    }
    assert forall|c: char| #[trigger] is_white_space(ascii_upper_char(c)) == is_white_space(c) by {
        if is_ascii_lower(c) {
            assert(((c as u32) - 32) as char as u32 == (c as u32) - 32);
        }
    }
}

/// Mapping characters that keep white space commutes with dropping leading
/// white space.
pub proof fn lemma_trim_start_map(s: Seq<char>, f: spec_fn(char) -> char)
    requires
        keeps_white_space(f),
    ensures
        trim_start(s.map_values(f)) == trim_start(s).map_values(f),
    decreases s.len(),
{
    if s.len() > 0 {
        assert(is_white_space(f(s[0])) == is_white_space(s[0]));
        if is_white_space(s[0]) {
            assert(s.map_values(f).drop_first() =~= s.drop_first().map_values(f));
            lemma_trim_start_map(s.drop_first(), f);
        }
    }
}

/// Mapping characters that keep white space commutes with dropping trailing
/// white space.
pub proof fn lemma_trim_end_map(s: Seq<char>, f: spec_fn(char) -> char)
    requires
        keeps_white_space(f),
    ensures
        trim_end(s.map_values(f)) == trim_end(s).map_values(f),
    decreases s.len(),
{
    if s.len() > 0 {
        assert(is_white_space(f(s.last())) == is_white_space(s.last()));
        if is_white_space(s.last()) {
            assert(s.map_values(f).drop_last() =~= s.drop_last().map_values(f));
            lemma_trim_end_map(s.drop_last(), f);
        }
    }
}

/// Mapping characters that keep white space commutes with trimming.
pub proof fn lemma_trim_map(s: Seq<char>, f: spec_fn(char) -> char)
    requires
        keeps_white_space(f),
    ensures
        trim(s.map_values(f)) == trim(s).map_values(f),
{
    lemma_trim_start_map(s, f);
    lemma_trim_end_map(trim_start(s), f);
}

/// Leading white space does not survive `trim_start`.
pub proof fn lemma_trim_start_skips_white_space(w: Seq<char>, t: Seq<char>)
    requires
        all_white_space(w),
    ensures
        trim_start(w + t) == trim_start(t),
    decreases w.len(),
{
    if w.len() > 0 {
        assert((w + t)[0] == w[0]);
        assert((w + t).drop_first() =~= w.drop_first() + t);
        lemma_trim_start_skips_white_space(w.drop_first(), t);
    } else {
        assert(w + t =~= t);
    }
}

/// Trailing white space does not survive `trim_end`.
pub proof fn lemma_trim_end_skips_white_space(t: Seq<char>, w: Seq<char>)
    requires
        all_white_space(w),
    ensures
        trim_end(t + w) == trim_end(t),
    decreases w.len(),
{
    if w.len() > 0 {
        assert((t + w).last() == w.last());
        assert((t + w).drop_last() =~= t + w.drop_last());
        lemma_trim_end_skips_white_space(t, w.drop_last());
    } else {
        assert(t + w =~= t);
    }
}

/// Dropping the leading white space of `t + w`, where `w` is all white space,
/// either keeps `w` behind what is left of `t`, or leaves nothing when `t` is
/// all white space too.
pub proof fn lemma_trim_start_append_white_space(t: Seq<char>, w: Seq<char>)
    requires
        all_white_space(w),
    ensures
        trim_start(t).len() > 0 ==> trim_start(t + w) == trim_start(t) + w,
        trim_start(t).len() == 0 ==> trim_start(t + w).len() == 0,
    decreases t.len(),
{
    if t.len() == 0 {
        assert(t + w =~= w);
        lemma_trim_start_skips_white_space(w, Seq::<char>::empty());
        assert(w + Seq::<char>::empty() =~= w);
    } else {
        assert((t + w)[0] == t[0]);
        if is_white_space(t[0]) {
            assert((t + w).drop_first() =~= t.drop_first() + w);
            lemma_trim_start_append_white_space(t.drop_first(), w);
        }
    }
}

/// White space around a text does not change it once trimmed.
pub proof fn lemma_trim_ignores_padding(before: Seq<char>, s: Seq<char>, after: Seq<char>)
    requires
        all_white_space(before),
        all_white_space(after),
    ensures
        trim(before + s + after) == trim(s),
{
    assert(before + s + after =~= before + (s + after));
    lemma_trim_start_skips_white_space(before, s + after);
    lemma_trim_start_append_white_space(s, after);
    if trim_start(s).len() > 0 {
        lemma_trim_end_skips_white_space(trim_start(s), after);
    } else {
        let e = trim_start(s + after);
        assert(e.len() == 0);
        assert(trim_start(s).len() == 0);
    }
}

/// Texts that agree once ASCII letters are upper-cased also agree once they
/// are trimmed and then upper-cased.
pub proof fn lemma_upper_key_agrees(s1: Seq<char>, s2: Seq<char>)
    requires
        ascii_upper(s1) == ascii_upper(s2),
    ensures
        ascii_upper(trim(s1)) == ascii_upper(trim(s2)),
{
    lemma_case_folding_keeps_white_space();
    lemma_trim_map(s1, |c: char| ascii_upper_char(c));
    lemma_trim_map(s2, |c: char| ascii_upper_char(c));
}

/// Texts that agree once ASCII letters are lower-cased also agree once they
/// are trimmed and then lower-cased.
pub proof fn lemma_lower_key_agrees(s1: Seq<char>, s2: Seq<char>)
    requires
        ascii_lower(s1) == ascii_lower(s2),
    ensures
        ascii_lower(trim(s1)) == ascii_lower(trim(s2)),
{
    lemma_case_folding_keeps_white_space();
    lemma_trim_map(s1, |c: char| ascii_lower_char(c));
    lemma_trim_map(s2, |c: char| ascii_lower_char(c));
}

} // verus!
