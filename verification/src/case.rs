//! Letter case.
use crate::text::{chars_of, occurs_in, white_space};
use vstd::prelude::*;

verus! {

/// `c` with the letters `A` to `Z` turned into `a` to `z`.
pub open spec fn ascii_lower(c: char) -> char {
    if 'A' <= c <= 'Z' {
        (c as int + 32) as char
    } else {
        c
    }
}

/// `c` with the letters `a` to `z` turned into `A` to `Z`.
pub open spec fn ascii_upper(c: char) -> char {
    if 'a' <= c <= 'z' {
        (c as int - 32) as char
    } else {
        c
    }
}

/// `s` with the letters `A` to `Z` turned into `a` to `z`.
pub open spec fn ascii_lowered(s: Seq<char>) -> Seq<char> {
    s.map_values(|c: char| ascii_lower(c))
}

/// `s` with the letters `a` to `z` turned into `A` to `Z`.
pub open spec fn ascii_uppered(s: Seq<char>) -> Seq<char> {
    s.map_values(|c: char| ascii_upper(c))
}

/// `c` is an ASCII character.
pub open spec fn ascii(c: char) -> bool {
    c <= '\u{7f}'
}

/// Every character of `s` is ASCII.
pub open spec fn all_ascii(s: Seq<char>) -> bool {
    forall|i: int| 0 <= i < s.len() ==> ascii(#[trigger] s[i])
}

/// Characters without letter case: CJK punctuation and kana, the CJK ideographs, the full-width
/// forms of ASCII punctuation and digits, the minus sign, and the musical notes.
pub open spec fn caseless(c: char) -> bool {
    ||| '\u{3000}' <= c <= '\u{30ff}'
    ||| '\u{4e00}' <= c <= '\u{9fff}'
    ||| '\u{ff01}' <= c <= '\u{ff20}'
    ||| '\u{ff3b}' <= c <= '\u{ff40}'
    ||| '\u{ff5b}' <= c <= '\u{ff65}'
    ||| c == '\u{2212}'
    ||| '\u{266a}' <= c <= '\u{266c}'
}

/// `c` is no letter: white space, an ASCII character other than a letter, or a character without
/// letter case.
pub open spec fn letterless(c: char) -> bool {
    ||| white_space(c)
    ||| ascii(c) && !('A' <= c <= 'Z') && !('a' <= c <= 'z')
    ||| caseless(c)
}

/// Every character of `s` is ASCII or has no letter case.
pub open spec fn plain_case(s: Seq<char>) -> bool {
    forall|i: int| 0 <= i < s.len() ==> ascii(#[trigger] s[i]) || caseless(s[i])
}

/// What `str::to_lowercase` makes of a text.
pub uninterp spec fn lowercase(text: Seq<char>) -> Seq<char>;

/// `str::to_lowercase`, which maps a text to lower case by the Unicode rules.
///
/// Of what those rules give, this is stated. A text of ASCII characters and characters without
/// letter case keeps all but the letters `A` to `Z`. A stretch of such characters comes out the
/// same way, whatever stands around it. Lowering the letters `A` to `Z` first makes no
/// difference. Something comes of every character, so that only the empty text gives the empty
/// text. What comes out is in lower case, and stays as it is when it is lowered again. A
/// character that is no letter comes out only where it went in.
#[verifier::external_body]
pub(crate) fn to_lowercase(text: &str) -> (r: String)
    ensures
        r@ == lowercase(text@),
        r@ == lowercase(ascii_lowered(text@)),
        plain_case(text@) ==> r@ == ascii_lowered(text@),
        forall|i: int, j: int|
            #![trigger text@.subrange(i, j)]
            0 <= i <= j <= text@.len() && plain_case(text@.subrange(i, j)) ==> occurs_in(
                ascii_lowered(text@.subrange(i, j)),
                r@,
            ),
        text@.len() > 0 ==> r@.len() > 0,
        text@.len() == 0 ==> r@.len() == 0,
        ascii_lowered(r@) == r@,
        lowercase(r@) == r@,
        forall|i: int| 0 <= i < r@.len() && letterless(#[trigger] r@[i]) ==> text@.contains(r@[i]),
        r@.len() > 0 && letterless(r@.last()) ==> text@.last() == r@.last(),
{
    text.to_lowercase()
}

/// What `char::to_uppercase` makes of a character.
pub uninterp spec fn char_uppercase(c: char) -> Seq<char>;

/// `char::to_uppercase`, which maps a character to upper case by the Unicode rules.
///
/// Of what those rules give, the result for ASCII characters is stated.
#[verifier::external_body]
pub(crate) fn char_to_uppercase(c: char) -> (r: String)
    ensures
        r@ == char_uppercase(c),
        ascii(c) ==> r@ == seq![ascii_upper(c)],
{
    c.to_uppercase().to_string()
}

/// `text` with the letters `a` to `z` turned into `A` to `Z`.
pub fn to_ascii_uppercase(text: &str) -> (r: String)
    ensures
        r@ == ascii_uppered(text@),
{
    let v = chars_of(text);
    let mut r = String::new();
    for i in 0..v.len()
        invariant
            v@ == text@,
            r@ == ascii_uppered(text@.take(i as int)),
    {
        let c: char = v[i];
        let u: char = if 'a' <= c && c <= 'z' {
            (c as u8 - 32) as char
        } else {
            c
        };
        r.push(u);
        assert(u == ascii_upper(c));
        assert(r@ =~= ascii_uppered(text@.take(i + 1)));
    }
    assert(text@.take(text@.len() as int) =~= text@);
    r
}

/// The letters `A` to `Z` and the letters `a` to `z` are each other's counterparts, in the order
/// of the alphabet; every other character is its own.
pub proof fn law_ascii_letters_are_counterparts(c: char)
    ensures
        'a' <= c <= 'z' ==> 'A' <= ascii_upper(c) <= 'Z' && ascii_upper(c) as int - 'A' as int == c as int
            - 'a' as int && ascii_lower(ascii_upper(c)) == c && ascii_lower(c) == c,
        'A' <= c <= 'Z' ==> 'a' <= ascii_lower(c) <= 'z' && ascii_lower(c) as int - 'a' as int == c as int
            - 'A' as int && ascii_upper(ascii_lower(c)) == c && ascii_upper(c) == c,
        !('a' <= c <= 'z') && !('A' <= c <= 'Z') ==> ascii_lower(c) == c && ascii_upper(c) == c,
{
}

/// Letter case is a matter of each character by itself: a text is lowered and raised piece by
/// piece.
pub proof fn law_ascii_case_goes_piece_by_piece(a: Seq<char>, c: char, b: Seq<char>)
    ensures
        ascii_lowered(a + seq![c] + b) == ascii_lowered(a) + seq![ascii_lower(c)] + ascii_lowered(b),
        ascii_uppered(a + seq![c] + b) == ascii_uppered(a) + seq![ascii_upper(c)] + ascii_uppered(b),
        ascii_lowered(Seq::<char>::empty()) == Seq::<char>::empty(),
        ascii_uppered(Seq::<char>::empty()) == Seq::<char>::empty(),
        all_ascii(a + seq![c] + b) <==> (all_ascii(a) && (c as int) < 128 && all_ascii(b)),
        plain_case(a + seq![c] + b) <==> (plain_case(a) && ((c as int) < 128 || caseless(c))
            && plain_case(b)),
{
    let all = a + seq![c] + b;
    assert(ascii_lowered(all) =~= ascii_lowered(a) + seq![ascii_lower(c)] + ascii_lowered(b));
    assert(ascii_uppered(all) =~= ascii_uppered(a) + seq![ascii_upper(c)] + ascii_uppered(b));
    assert(ascii_lowered(Seq::<char>::empty()) =~= Seq::<char>::empty());
    assert(ascii_uppered(Seq::<char>::empty()) =~= Seq::<char>::empty());
    assert(forall|i: int| 0 <= i < a.len() ==> all[i] == a[i]);
    assert(all[a.len() as int] == c);
    assert forall|i: int| 0 <= i < b.len() implies #[trigger] b[i] == all[a.len() + 1 + i] by {}
    if all_ascii(all) {
        assert forall|i: int| 0 <= i < b.len() implies ascii(#[trigger] b[i]) by {
            assert(ascii(all[a.len() + 1 + i]));
        }
        assert forall|i: int| 0 <= i < a.len() implies ascii(#[trigger] a[i]) by {
            assert(ascii(all[i]));
        }
    }
    if plain_case(all) {
        assert forall|i: int| 0 <= i < b.len() implies ascii(#[trigger] b[i]) || caseless(b[i]) by {
            assert(ascii(all[a.len() + 1 + i]) || caseless(all[a.len() + 1 + i]));
        }
        assert forall|i: int| 0 <= i < a.len() implies ascii(#[trigger] a[i]) || caseless(a[i]) by {
            assert(ascii(all[i]) || caseless(all[i]));
        }
    }
}

} // verus!
