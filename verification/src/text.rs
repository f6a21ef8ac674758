//! Texts as rows of characters: comparing, searching, trimming, splitting, writing numbers.
use vstd::prelude::*;
use vstd::string::*;

verus! {

/// `String::push` appends the given character to the end of the string.
pub assume_specification[ String::push ](s: &mut String, c: char)
    ensures
        final(s)@ == old(s)@.push(c),
;

/// The characters with the Unicode property `White_Space`.
pub open spec fn white_space(c: char) -> bool {
    ||| '\u{9}' <= c <= '\u{d}'
    ||| c == ' '
    ||| c == '\u{85}'
    ||| c == '\u{a0}'
    ||| c == '\u{1680}'
    ||| '\u{2000}' <= c <= '\u{200a}'
    ||| c == '\u{2028}'
    ||| c == '\u{2029}'
    ||| c == '\u{202f}'
    ||| c == '\u{205f}'
    ||| c == '\u{3000}'
}

/// Whether `c` is white space.
pub fn is_whitespace(c: char) -> (r: bool)
    ensures
        r == white_space(c),
{
    ('\u{9}' <= c && c <= '\u{d}') || c == ' ' || c == '\u{85}' || c == '\u{a0}' || c == '\u{1680}'
        || ('\u{2000}' <= c && c <= '\u{200a}') || c == '\u{2028}' || c == '\u{2029}'
        || c == '\u{202f}' || c == '\u{205f}' || c == '\u{3000}'
}

/// The characters of `text`, in order.
pub fn chars_of(text: &str) -> (r: Vec<char>)
    ensures
        r@ == text@,
{
    let mut r: Vec<char> = Vec::new();
    for c in it: text.chars()
        invariant
            r@ == it.seq().take(it.index()),
            it.seq() == text@,
    {
        r.push(c);
    }
    assert(text@.take(text@.len() as int) == text@);
    r
}

/// The text made of `chars`, in order.
pub fn text_of(chars: &Vec<char>) -> (r: String)
    ensures
        r@ == chars@,
{
    let mut r = String::new();
    for i in 0..chars.len()
        invariant
            r@ == chars@.take(i as int),
    {
        r.push(chars[i]);
        assert(chars@.take(i + 1) == chars@.take(i as int).push(chars@[i as int]));
    }
    assert(chars@.take(chars@.len() as int) == chars@);
    r
}

/// Whether `a` and `b` hold the same characters.
pub fn same_text(a: &str, b: &str) -> (r: bool)
    ensures
        r == (a@ == b@),
{
    a.to_owned() == b.to_owned()
}

/// `needle` stands somewhere in `hay` as an unbroken run of characters.
pub open spec fn occurs_in(needle: Seq<char>, hay: Seq<char>) -> bool {
    exists|i: int|
        0 <= i <= hay.len() - needle.len() && #[trigger] hay.subrange(i, i + needle.len())
            == needle
}

/// Whether `needle` stands in `hay` at position `at`.
fn matches_at(hay: &Vec<char>, needle: &Vec<char>, at: usize) -> (r: bool)
    requires
        at + needle@.len() <= hay@.len(),
    ensures
        r == (hay@.subrange(at as int, at + needle@.len()) == needle@),
{
    let len: usize = hay.len();
    for k in 0..needle.len()
        invariant
            len == hay@.len(),
            at + needle@.len() <= len,
            forall|m: int| 0 <= m < k ==> hay@[at + m] == needle@[m],
    {
        if hay[at + k] != needle[k] {
            proof {
                assert(hay@.subrange(at as int, at + needle@.len())[k as int] != needle@[k as int]);
            }
            return false;
        }
    }
    assert(hay@.subrange(at as int, at + needle@.len()) =~= needle@);
    true
}

/// Whether `needle` stands somewhere in `hay`.
pub fn contains_text(hay: &str, needle: &str) -> (r: bool)
    ensures
        r == occurs_in(needle@, hay@),
{
    let h = chars_of(hay);
    let n = chars_of(needle);
    if n.len() > h.len() {
        return false;
    }
    let last: usize = h.len() - n.len();
    let mut at: usize = 0;
    while at <= last
        invariant
            h@ == hay@,
            n@ == needle@,
            last + n@.len() == h@.len(),
            at <= last + 1,
            forall|i: int|
                0 <= i < at ==> #[trigger] hay@.subrange(i, i + needle@.len()) != needle@,
        decreases last + 1 - at,
    {
        if matches_at(&h, &n, at) {
            return true;
        }
        if at == last {
            return false;
        }
        at = at + 1;
    }
    false
}

/// `s` without the longest run of characters at its end that all satisfy `drop`.
pub open spec fn without_trailing(s: Seq<char>, drop: spec_fn(char) -> bool) -> Seq<char>
    decreases s.len(),
{
    if s.len() > 0 && drop(s.last()) {
        without_trailing(s.drop_last(), drop)
    } else {
        s
    }
}

/// `s` without the longest run of characters at its start that all satisfy `drop`.
pub open spec fn without_leading(s: Seq<char>, drop: spec_fn(char) -> bool) -> Seq<char>
    decreases s.len(),
{
    if s.len() > 0 && drop(s.first()) {
        without_leading(s.drop_first(), drop)
    } else {
        s
    }
}

/// `s` without the white space at its start and its end.
pub open spec fn trimmed(s: Seq<char>) -> Seq<char> {
    without_leading(without_trailing(s, |c: char| white_space(c)), |c: char| white_space(c))
}

/// `s` holds nothing but white space.
pub open spec fn blank(s: Seq<char>) -> bool {
    forall|i: int| 0 <= i < s.len() ==> white_space(#[trigger] s[i])
}

/// `text` without the white space at its start and its end.
pub fn trim(text: &str) -> (r: String)
    ensures
        r@ == trimmed(text@),
{
    let ghost ws = |c: char| white_space(c);
    let mut v = chars_of(text);
    while v.len() > 0 && is_whitespace(v[v.len() - 1])
        invariant
            ws == (|c: char| white_space(c)),
            without_trailing(v@, ws) == without_trailing(text@, ws),
        decreases v@.len(),
    {
        v.pop();
    }
    let mut r = String::new();
    let mut i: usize = 0;
    assert(v@.skip(0) =~= v@);
    while i < v.len() && is_whitespace(v[i])
        invariant
            ws == (|c: char| white_space(c)),
            i <= v@.len(),
            without_leading(v@.skip(i as int), ws) == without_leading(v@, ws),
        decreases v@.len() - i,
    {
        assert(v@.skip(i as int).drop_first() =~= v@.skip(i + 1));
        i = i + 1;
    }
    let ghost start = i as int;
    while i < v.len()
        invariant
            0 <= start <= i <= v@.len(),
            r@ == v@.subrange(start, i as int),
        decreases v@.len() - i,
    {
        r.push(v[i]);
        i = i + 1;
        assert(r@ =~= v@.subrange(start, i as int));
    }
    assert(r@ =~= v@.skip(start));
    r
}

/// Whether `text` holds nothing but white space.
pub fn is_blank(text: &str) -> (r: bool)
    ensures
        r == blank(text@),
{
    let v = chars_of(text);
    for i in 0..v.len()
        invariant
            v@ == text@,
            forall|k: int| 0 <= k < i ==> white_space(#[trigger] text@[k]),
    {
        if !is_whitespace(v[i]) {
            return false;
        }
    }
    true
}

/// The pieces of `s` between the separators, in order; there is always at least one.
pub open spec fn split(s: Seq<char>, sep: char) -> Seq<Seq<char>>
    decreases s.len(),
{
    if s.len() == 0 {
        seq![Seq::empty()]
    } else {
        let before = split(s.drop_last(), sep);
        if s.last() == sep {
            before.push(Seq::empty())
        } else {
            before.drop_last().push(before.last().push(s.last()))
        }
    }
}

/// The pieces one after the other, with a separator between any two.
pub open spec fn joined(pieces: Seq<Seq<char>>, sep: char) -> Seq<char>
    decreases pieces.len(),
{
    if pieces.len() == 0 {
        Seq::empty()
    } else if pieces.len() == 1 {
        pieces[0]
    } else {
        joined(pieces.drop_last(), sep).push(sep) + pieces.last()
    }
}

/// No piece holds a separator.
pub open spec fn separator_free(pieces: Seq<Seq<char>>, sep: char) -> bool {
    forall|i: int, j: int|
        0 <= i < pieces.len() && 0 <= j < pieces[i].len() ==> #[trigger] pieces[i][j] != sep
}

/// Splitting loses nothing: the pieces hold no separator and join to what was split.
pub proof fn law_split_then_join(s: Seq<char>, sep: char)
    ensures
        split(s, sep).len() > 0,
        separator_free(split(s, sep), sep),
        joined(split(s, sep), sep) == s,
    decreases s.len(),
{
    if s.len() > 0 {
        let before = split(s.drop_last(), sep);
        let after = split(s, sep);
        law_split_then_join(s.drop_last(), sep);
        if s.last() == sep {
            assert(after.drop_last() =~= before);
            assert(joined(after, sep) =~= s.drop_last().push(sep));
        } else {
            assert(after.drop_last() =~= before.drop_last());
            assert forall|i: int, j: int| 0 <= i < after.len() && 0 <= j < after[i].len() implies
                #[trigger] after[i][j] != sep by {
                if i < before.len() - 1 {
                    assert(after[i] == before[i]);
                } else if j < before.last().len() {
                    assert(after[i][j] == before[before.len() - 1][j]);
                }
            }
            if before.len() == 1 {
                assert(joined(after, sep) =~= s.drop_last().push(s.last()));
            } else {
                assert(joined(before, sep) == joined(before.drop_last(), sep).push(sep)
                    + before.last());
                assert(joined(after, sep) =~= s.drop_last().push(s.last()));
            }
        }
        assert(s.drop_last().push(s.last()) =~= s);
    }
}

proof fn lemma_split_append(s: Seq<char>, piece: Seq<char>, sep: char)
    requires
        forall|j: int| 0 <= j < piece.len() ==> #[trigger] piece[j] != sep,
    ensures
        split(s + piece, sep) == split(s, sep).drop_last().push(split(s, sep).last() + piece),
        split(s, sep).len() > 0,
    decreases piece.len(),
{
    law_split_then_join(s, sep);
    if piece.len() == 0 {
        assert(s + piece =~= s);
        assert(split(s, sep).last() + piece =~= split(s, sep).last());
        assert(split(s, sep).drop_last().push(split(s, sep).last()) =~= split(s, sep));
    } else {
        let shorter = piece.drop_last();
        assert(forall|j: int| 0 <= j < shorter.len() ==> shorter[j] == piece[j]);
        lemma_split_append(s, shorter, sep);
        assert((s + piece).drop_last() =~= s + shorter);
        assert(piece[piece.len() - 1] != sep);
        let before = split(s + shorter, sep);
        assert(before.drop_last() =~= split(s, sep).drop_last());
        assert((split(s, sep).last() + shorter).push(piece.last()) =~= split(s, sep).last() + piece);
    }
}

/// Joining loses nothing: pieces without a separator come back when what they join to is split.
pub proof fn law_join_then_split(pieces: Seq<Seq<char>>, sep: char)
    requires
        pieces.len() > 0,
        separator_free(pieces, sep),
    ensures
        split(joined(pieces, sep), sep) == pieces,
    decreases pieces.len(),
{
    let last = pieces.last();
    assert forall|j: int| 0 <= j < last.len() implies #[trigger] last[j] != sep by {
        assert(pieces[pieces.len() - 1][j] != sep);
    }
    if pieces.len() == 1 {
        lemma_split_append(Seq::empty(), last, sep);
        assert(Seq::<char>::empty() + last =~= last);
        assert(split(joined(pieces, sep), sep) =~= pieces);
    } else {
        let front = pieces.drop_last();
        assert forall|i: int, j: int| 0 <= i < front.len() && 0 <= j < front[i].len() implies
            #[trigger] front[i][j] != sep by {
            assert(pieces[i][j] != sep);
        }
        law_join_then_split(front, sep);
        let head = joined(front, sep).push(sep);
        assert(head.drop_last() =~= joined(front, sep));
        lemma_split_append(head, last, sep);
        assert(split(head, sep) == front.push(Seq::empty()));
        assert(front.push(Seq::<char>::empty()).drop_last() =~= front);
        assert(Seq::<char>::empty() + last =~= last);
        assert(split(joined(pieces, sep), sep) =~= pieces);
    }
}

/// The pieces of `text` between the separators, in order.
pub fn split_text(text: &str, sep: char) -> (r: Vec<String>)
    ensures
        r.deep_view() == split(text@, sep),
{
    let v = chars_of(text);
    let mut pieces: Vec<String> = Vec::new();
    let mut piece = String::new();
    assert(pieces.deep_view().push(piece@) =~= split(text@.take(0), sep));
    for i in 0..v.len()
        invariant
            v@ == text@,
            pieces.deep_view().push(piece@) == split(text@.take(i as int), sep),
    {
        let ghost before = pieces.deep_view();
        assert(text@.take(i + 1).drop_last() =~= text@.take(i as int));
        assert(before.push(piece@).drop_last() =~= before);
        if v[i] == sep {
            pieces.push(piece);
            assert(pieces.deep_view() =~= before.push(piece@));
            piece = String::new();
        } else {
            piece.push(v[i]);
        }
        assert(pieces.deep_view().push(piece@) =~= split(text@.take(i + 1), sep));
    }
    assert(text@.take(text@.len() as int) =~= text@);
    let ghost before = pieces.deep_view();
    pieces.push(piece);
    assert(pieces.deep_view() =~= before.push(piece@));
    pieces
}

/// The decimal digit that writes `n`.
pub open spec fn decimal_digit(n: nat) -> char {
    ('0' as int + n) as char
}

/// `n` written in decimal, without leading zeros.
pub open spec fn decimal(n: nat) -> Seq<char>
    decreases n,
{
    if n < 10 {
        seq![decimal_digit(n)]
    } else {
        decimal(n / 10).push(decimal_digit(n % 10))
    }
}

/// `n` written in decimal.
pub fn decimal_text(n: u64) -> (r: String)
    ensures
        r@ == decimal(n as nat),
    decreases n,
{
    let last: char = (48 + (n % 10) as u8) as char;
    assert(last == decimal_digit((n % 10) as nat));
    if n < 10 {
        let mut r = String::new();
        r.push(last);
        assert(r@ =~= decimal(n as nat));
        r
    } else {
        let mut r = decimal_text(n / 10);
        r.push(last);
        r
    }
}

/// A text stands in another exactly where that one is made of something, the text, and something
/// more.
pub proof fn law_occurring_is_standing_between(needle: Seq<char>, hay: Seq<char>)
    ensures
        occurs_in(needle, hay) <==> exists|before: Seq<char>, after: Seq<char>|
            hay == #[trigger] (before + needle + after),
{
    if occurs_in(needle, hay) {
        let i = choose|i: int|
            0 <= i <= hay.len() - needle.len() && #[trigger] hay.subrange(i, i + needle.len())
                == needle;
        let before = hay.take(i);
        let after = hay.skip(i + needle.len());
        assert(hay =~= before + needle + after) by {
            assert(hay.subrange(i, i + needle.len()) =~= needle);
            assert forall|k: int| 0 <= k < hay.len() implies hay[k] == (before + needle + after)[k] by {
                if i <= k < i + needle.len() {
                    assert(hay.subrange(i, i + needle.len())[k - i] == hay[k]);
                }
            }
        }
    }
    if exists|before: Seq<char>, after: Seq<char>| hay == #[trigger] (before + needle + after) {
        let (before, after) = choose|before: Seq<char>, after: Seq<char>|
            hay == #[trigger] (before + needle + after);
        let i = before.len() as int;
        assert(hay.subrange(i, i + needle.len()) =~= needle);
    }
}

proof fn lemma_trim_end(s: Seq<char>, space: Seq<char>, drop: spec_fn(char) -> bool)
    requires
        forall|i: int| 0 <= i < space.len() ==> drop(#[trigger] space[i]),
        s.len() > 0 ==> !drop(s.last()),
    ensures
        without_trailing(s + space, drop) == s,
    decreases space.len(),
{
    if space.len() > 0 {
        assert((s + space).drop_last() =~= s + space.drop_last());
        assert((s + space).last() == space[space.len() - 1]);
        assert forall|i: int| 0 <= i < space.drop_last().len() implies drop(
            #[trigger] space.drop_last()[i],
        ) by {
            assert(space.drop_last()[i] == space[i]);
        }
        lemma_trim_end(s, space.drop_last(), drop);
    } else {
        assert(s + space =~= s);
    }
}

proof fn lemma_trim_start(space: Seq<char>, s: Seq<char>, drop: spec_fn(char) -> bool)
    requires
        forall|i: int| 0 <= i < space.len() ==> drop(#[trigger] space[i]),
        s.len() > 0 ==> !drop(s.first()),
    ensures
        without_leading(space + s, drop) == s,
    decreases space.len(),
{
    if space.len() > 0 {
        assert((space + s).drop_first() =~= space.drop_first() + s);
        assert((space + s).first() == space[0]);
        assert forall|i: int| 0 <= i < space.drop_first().len() implies drop(
            #[trigger] space.drop_first()[i],
        ) by {
            assert(space.drop_first()[i] == space[i + 1]);
        }
        lemma_trim_start(space.drop_first(), s, drop);
    } else {
        assert(space + s =~= s);
    }
}

/// Trimming takes away the white space around a text, whatever stands inside it, and nothing
/// else.
pub proof fn law_trimming_frees_what_is_inside(before: Seq<char>, text: Seq<char>, after: Seq<char>)
    requires
        blank(before),
        blank(after),
        text.len() > 0 ==> !white_space(text.first()) && !white_space(text.last()),
    ensures
        trimmed(before + text + after) == text,
{
    let ws = |c: char| white_space(c);
    let all = before + text + after;
    if text.len() == 0 {
        let space = before + after;
        assert(all =~= Seq::<char>::empty() + space);
        assert forall|i: int| 0 <= i < space.len() implies ws(#[trigger] space[i]) by {
            if i < before.len() {
                assert(space[i] == before[i]);
            } else {
                assert(space[i] == after[i - before.len()]);
            }
        }
        lemma_trim_end(Seq::empty(), space, ws);
        assert(without_leading(Seq::<char>::empty(), ws) =~= Seq::<char>::empty());
        assert(text =~= Seq::<char>::empty());
    } else {
        assert((before + text).last() == text.last());
        lemma_trim_end(before + text, after, ws);
        lemma_trim_start(before, text, ws);
    }
}

/// A text is blank exactly when nothing is left of it once it is trimmed.
pub proof fn law_blank_is_nothing_once_trimmed(text: Seq<char>)
    ensures
        blank(text) <==> trimmed(text).len() == 0,
    decreases text.len(),
{
    let ws = |c: char| white_space(c);
    if blank(text) {
        law_trimming_frees_what_is_inside(text, Seq::empty(), Seq::empty());
        assert(text + Seq::<char>::empty() + Seq::<char>::empty() =~= text);
    } else {
        let i = choose|i: int| 0 <= i < text.len() && !white_space(#[trigger] text[i]);
        lemma_trailing_keeps(text, i, ws);
        lemma_leading_keeps(without_trailing(text, ws), i, ws);
    }
}

proof fn lemma_trailing_keeps(s: Seq<char>, i: int, drop: spec_fn(char) -> bool)
    requires
        0 <= i < s.len(),
        !drop(s[i]),
    ensures
        without_trailing(s, drop).len() > i,
        without_trailing(s, drop)[i] == s[i],
    decreases s.len(),
{
    if drop(s.last()) {
        lemma_trailing_keeps(s.drop_last(), i, drop);
    }
}

proof fn lemma_leading_keeps(s: Seq<char>, i: int, drop: spec_fn(char) -> bool)
    requires
        0 <= i < s.len(),
        !drop(s[i]),
    ensures
        without_leading(s, drop).len() > 0,
    decreases s.len(),
{
    if drop(s.first()) {
        assert(s.drop_first()[i - 1] == s[i]);
        lemma_leading_keeps(s.drop_first(), i - 1, drop);
    }
}

/// What is joined stands there one piece after the other, with one separator between two.
pub proof fn law_joining_puts_one_separator_between(
    pieces: Seq<Seq<char>>,
    piece: Seq<char>,
    sep: char,
)
    ensures
        joined(seq![piece], sep) == piece,
        pieces.len() > 0 ==> joined(pieces.push(piece), sep) == joined(pieces, sep) + seq![sep]
            + piece,
{
    assert(pieces.push(piece).drop_last() =~= pieces);
    assert(joined(pieces, sep).push(sep) =~= joined(pieces, sep) + seq![sep]);
}

/// The characters that are white space, by their numbers.
pub proof fn law_white_space_by_number(c: char)
    ensures
        white_space(c) <==> (9 <= c as int <= 13 || c as int == 32 || c as int == 133 || c as int
            == 160 || c as int == 5760 || 8192 <= c as int <= 8202 || c as int == 8232 || c as int
            == 8233 || c as int == 8239 || c as int == 8287 || c as int == 12288),
{
}

/// A number is written with the digits `0` to `9`, with no zero in front of others, and each
/// digit counts ten times the one behind it.
pub proof fn law_decimal_is_read_back(n: nat)
    ensures
        decimal(n).len() > 0,
        forall|i: int| 0 <= i < decimal(n).len() ==> '0' <= #[trigger] decimal(n)[i] <= '9',
        n > 0 ==> decimal(n)[0] != '0',
        n == 0 ==> decimal(n) == seq!['0'],
        place_value(decimal(n)) == n,
    decreases n,
{
    if n >= 10 {
        law_decimal_is_read_back(n / 10);
        let front = decimal(n / 10);
        let all = decimal(n);
        assert(all.drop_last() =~= front);
        assert(all[0] == front[0]);
        assert forall|i: int| 0 <= i < all.len() implies '0' <= #[trigger] all[i] <= '9' by {
            if i < front.len() {
                assert(all[i] == front[i]);
            }
        }
    } else {
        let all = decimal(n);
        assert(all.drop_last() =~= Seq::<char>::empty());
        assert(place_value(all.drop_last()) == 0);
    }
}

/// What a row of digits is worth.
pub open spec fn place_value(digits: Seq<char>) -> int
    decreases digits.len(),
{
    if digits.len() == 0 {
        0
    } else {
        place_value(digits.drop_last()) * 10 + (digits.last() as int - 48)
    }
}

/// The piece before the first separator is split off, and the rest is split on its own.
pub proof fn law_splitting_goes_piece_by_piece(piece: Seq<char>, rest: Seq<char>, sep: char)
    requires
        !piece.contains(sep),
    ensures
        split(piece, sep) == seq![piece],
        split(piece + seq![sep] + rest, sep) == seq![piece] + split(rest, sep),
    decreases rest.len(),
{
    assert forall|j: int| 0 <= j < piece.len() implies #[trigger] piece[j] != sep by {
        assert(piece.contains(piece[j]));
    }
    lemma_split_append(Seq::empty(), piece, sep);
    assert(Seq::<char>::empty() + piece =~= piece);
    assert(split(piece, sep) =~= seq![piece]);
    let all = piece + seq![sep] + rest;
    if rest.len() == 0 {
        assert(all.drop_last() =~= piece);
        assert(all.last() == sep);
        assert(split(all, sep) =~= seq![piece] + split(rest, sep));
    } else {
        law_splitting_goes_piece_by_piece(piece, rest.drop_last(), sep);
        law_split_then_join(rest.drop_last(), sep);
        let before = split(rest.drop_last(), sep);
        assert(all.drop_last() =~= piece + seq![sep] + rest.drop_last());
        assert(all.last() == rest.last());
        assert((seq![piece] + before).drop_last() =~= seq![piece] + before.drop_last());
        assert((seq![piece] + before).last() == before.last());
        assert(split(all, sep) =~= seq![piece] + split(rest, sep));
    }
}

/// The first piece of several is followed by a separator and by what the others join to.
pub proof fn law_joining_goes_piece_by_piece(piece: Seq<char>, pieces: Seq<Seq<char>>, sep: char)
    requires
        pieces.len() > 0,
    ensures
        joined(seq![piece] + pieces, sep) == piece + seq![sep] + joined(pieces, sep),
    decreases pieces.len(),
{
    let all = seq![piece] + pieces;
    assert(all.last() == pieces.last());
    if pieces.len() == 1 {
        assert(all.drop_last() =~= seq![piece]);
        assert(joined(all, sep) == joined(seq![piece], sep).push(sep) + pieces.last());
        assert(piece.push(sep) =~= piece + seq![sep]);
    } else {
        law_joining_goes_piece_by_piece(piece, pieces.drop_last(), sep);
        let front = joined(pieces.drop_last(), sep);
        assert(all.drop_last() =~= seq![piece] + pieces.drop_last());
        assert(joined(all, sep) == joined(all.drop_last(), sep).push(sep) + all.last());
        assert(joined(pieces, sep) == front.push(sep) + pieces.last());
        assert((piece + seq![sep] + front).push(sep) + pieces.last() =~= piece + seq![sep] + (
        front.push(sep) + pieces.last()));
    }
}

} // verus!
