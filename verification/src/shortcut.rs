//! Hotkey strings and the shortcuts they stand for.
use crate::case::{
    all_ascii, ascii, ascii_lower, ascii_lowered, ascii_upper, ascii_uppered, char_to_uppercase,
    char_uppercase, lowercase, plain_case, to_ascii_uppercase, to_lowercase,
};
use crate::text::{
    chars_of, joined, law_join_then_split, law_joining_goes_piece_by_piece, law_split_then_join,
    law_splitting_goes_piece_by_piece, same_text, separator_free, split, split_text,
};
use vstd::prelude::*;
use vstd::string::*;

verus! {

/// `c` is one of the digits `0` to `9`.
pub open spec fn digit(c: char) -> bool {
    '0' <= c <= '9'
}

/// The number that a row of digits writes.
pub open spec fn digits_value(s: Seq<char>) -> nat
    decreases s.len(),
{
    if s.len() == 0 {
        0
    } else {
        digits_value(s.drop_last()) * 10 + (s.last() as int - '0' as int) as nat
    }
}

/// `s` is digits only, at least one of them, and the number they write fits in 32 bits.
pub open spec fn u32_digits(s: Seq<char>) -> bool {
    &&& s.len() > 0
    &&& forall|i: int| 0 <= i < s.len() ==> digit(#[trigger] s[i])
    &&& digits_value(s) <= u32::MAX
}

/// `s` reads as an unsigned 32-bit number: a plus sign or none, then such digits.
pub open spec fn u32_text(s: Seq<char>) -> bool {
    if s.len() > 0 && s[0] == '+' {
        u32_digits(s.skip(1))
    } else {
        u32_digits(s)
    }
}

proof fn lemma_digits_value_grows(s: Seq<char>, i: int)
    requires
        0 <= i <= s.len(),
        forall|k: int| 0 <= k < s.len() ==> digit(#[trigger] s[k]),
    ensures
        digits_value(s.take(i)) <= digits_value(s),
    decreases s.len() - i,
{
    if i < s.len() {
        lemma_digits_value_grows(s, i + 1);
        assert(s.take(i + 1).drop_last() =~= s.take(i));
    } else {
        assert(s.take(i) =~= s);
    }
}

/// Whether the characters from `from` on are digits of a number that fits in 32 bits.
fn is_u32_digits(v: &Vec<char>, from: usize) -> (r: bool)
    requires
        from <= v@.len(),
    ensures
        r == u32_digits(v@.skip(from as int)),
{
    let ghost s = v@.skip(from as int);
    if from == v.len() {
        return false;
    }
    for i in from..v.len()
        invariant
            from <= v@.len(),
            s == v@.skip(from as int),
            forall|k: int| 0 <= k < i - from ==> digit(#[trigger] s[k]),
    {
        let c: char = v[i];
        assert(s[i - from] == c);
        if !('0' <= c && c <= '9') {
            return false;
        }
    }
    let mut value: u64 = 0;
    for i in from..v.len()
        invariant
            from <= v@.len(),
            s == v@.skip(from as int),
            forall|k: int| 0 <= k < s.len() ==> digit(#[trigger] s[k]),
            value == digits_value(s.take(i - from)),
            value <= u32::MAX,
    {
        let c: char = v[i];
        proof {
            assert(s[i - from] == c);
            assert(s.take(i - from + 1).drop_last() =~= s.take(i - from));
            lemma_digits_value_grows(s, i - from + 1);
        }
        value = value * 10 + (c as u64 - '0' as u64);
        if value > 0xffff_ffff {
            return false;
        }
    }
    assert(s.take(s.len() as int) =~= s);
    true
}

/// Whether the characters from `from` on read as an unsigned 32-bit number.
fn is_u32_text(v: &Vec<char>, from: usize) -> (r: bool)
    requires
        from <= v@.len(),
    ensures
        r == u32_text(v@.skip(from as int)),
{
    if from < v.len() && v[from] == '+' {
        assert(v@.skip(from as int).skip(1) =~= v@.skip(from + 1));
        is_u32_digits(v, from + 1)
    } else {
        is_u32_digits(v, from)
    }
}

/// The name of a key that is written `p` in lower case, given how a character is written in
/// upper case.
pub open spec fn key_name(p: Seq<char>, up: spec_fn(char) -> Seq<char>) -> Seq<char> {
    if p.len() > 0 && p[0] == 'f' && u32_text(p.skip(1)) {
        ascii_uppered(p)
    } else if p == "space"@ {
        "Space"@
    } else if p == "enter"@ {
        "Enter"@
    } else if p == "backspace"@ {
        "Backspace"@
    } else if p == "tab"@ {
        "Tab"@
    } else if p.len() == 1 && ascii(p[0]) {
        ascii_uppered(p)
    } else if p.len() == 0 {
        p
    } else {
        up(p[0]) + p.skip(1)
    }
}

/// One part of a shortcut, from the part as it was written and the same part in lower case.
pub open spec fn shortcut_part(
    part: Seq<char>,
    lowered: Seq<char>,
    is_last: bool,
    up: spec_fn(char) -> Seq<char>,
) -> Seq<char> {
    if lowered == "ctrl"@ || lowered == "meta"@ || lowered == "cmd"@ {
        "CmdOrCtrl"@
    } else if lowered == "shift"@ {
        "Shift"@
    } else if lowered == "alt"@ {
        "Alt"@
    } else if is_last {
        key_name(lowered, up)
    } else {
        part
    }
}

/// The parts of the shortcut that `key` stands for.
pub open spec fn shortcut_parts(
    key: Seq<char>,
    low: spec_fn(Seq<char>) -> Seq<char>,
    up: spec_fn(char) -> Seq<char>,
) -> Seq<Seq<char>> {
    let parts = split(key, '+');
    Seq::new(
        parts.len(),
        |i: int| shortcut_part(parts[i], low(parts[i]), i == parts.len() - 1, up),
    )
}

/// The shortcut that `key` stands for, given how a text is written in lower case and a
/// character in upper case.
pub open spec fn shortcut_by(
    key: Seq<char>,
    low: spec_fn(Seq<char>) -> Seq<char>,
    up: spec_fn(char) -> Seq<char>,
) -> Seq<char> {
    joined(shortcut_parts(key, low, up), '+')
}

/// The shortcut that `key` stands for.
pub open spec fn shortcut_text(key: Seq<char>) -> Seq<char> {
    shortcut_by(key, |t: Seq<char>| lowercase(t), |c: char| char_uppercase(c))
}

/// The shortcut that `key` stands for when every character of it is ASCII.
pub open spec fn ascii_shortcut_text(key: Seq<char>) -> Seq<char> {
    shortcut_by(key, |t: Seq<char>| ascii_lowered(t), |c: char| seq![ascii_upper(c)])
}

/// Names the key that is written `lowered` in lower case.
pub fn convert_key(lowered: &str) -> (r: String)
    ensures
        r@ == key_name(lowered@, |c: char| char_uppercase(c)),
        all_ascii(lowered@) ==> r@ == key_name(lowered@, |c: char| seq![ascii_upper(c)]),
{
    let v = chars_of(lowered);
    if v.len() > 0 && v[0] == 'f' && is_u32_text(&v, 1) {
        return to_ascii_uppercase(lowered);
    }
    if same_text(lowered, "space") {
        "Space".to_owned()
    } else if same_text(lowered, "enter") {
        "Enter".to_owned()
    } else if same_text(lowered, "backspace") {
        "Backspace".to_owned()
    } else if same_text(lowered, "tab") {
        "Tab".to_owned()
    } else if v.len() == 1 && v[0] <= '\u{7f}' {
        to_ascii_uppercase(lowered)
    } else if v.len() == 0 {
        lowered.to_owned()
    } else {
        let mut r = char_to_uppercase(v[0]);
        let ghost first = r@;
        assert(first + lowered@.subrange(1, 1) =~= first);
        for i in 1..v.len()
            invariant
                v@ == lowered@,
                r@ == first + lowered@.subrange(1, i as int),
        {
            r.push(v[i]);
            assert(r@ =~= first + lowered@.subrange(1, i + 1));
        }
        assert(lowered@.subrange(1, lowered@.len() as int) =~= lowered@.skip(1));
        r
    }
}

/// Converts one part of a hotkey string, given the same part in lower case.
pub fn convert_part(part: &str, lowered: &str, is_last: bool) -> (r: String)
    ensures
        r@ == shortcut_part(part@, lowered@, is_last, |c: char| char_uppercase(c)),
        all_ascii(lowered@) ==> r@ == shortcut_part(
            part@,
            lowered@,
            is_last,
            |c: char| seq![ascii_upper(c)],
        ),
{
    if same_text(lowered, "ctrl") || same_text(lowered, "meta") || same_text(lowered, "cmd") {
        "CmdOrCtrl".to_owned()
    } else if same_text(lowered, "shift") {
        "Shift".to_owned()
    } else if same_text(lowered, "alt") {
        "Alt".to_owned()
    } else if is_last {
        convert_key(lowered)
    } else {
        part.to_owned()
    }
}

proof fn lemma_pieces_ascii(s: Seq<char>, sep: char)
    requires
        all_ascii(s),
    ensures
        forall|i: int| 0 <= i < split(s, sep).len() ==> all_ascii(#[trigger] split(s, sep)[i]),
    decreases s.len(),
{
    if s.len() > 0 {
        let d = s.drop_last();
        assert(forall|i: int| 0 <= i < d.len() ==> d[i] == s[i]);
        lemma_pieces_ascii(d, sep);
        law_split_then_join(d, sep);
        let before = split(d, sep);
        let after = split(s, sep);
        assert forall|i: int| 0 <= i < after.len() implies all_ascii(#[trigger] after[i]) by {
            if i < before.len() {
                assert(all_ascii(before[i]));
            }
            assert(ascii(s[s.len() - 1]));
        }
    }
}

/// Turns a hotkey string such as `ctrl+shift+a` into a shortcut such as `CmdOrCtrl+Shift+A`.
pub fn parse_shortcut(key: &str) -> (r: String)
    ensures
        r@ == shortcut_text(key@),
        all_ascii(key@) ==> r@ == ascii_shortcut_text(key@),
{
    let parts = split_text(key, '+');
    let ghost low = |t: Seq<char>| lowercase(t);
    let ghost up = |c: char| char_uppercase(c);
    let ghost alow = |t: Seq<char>| ascii_lowered(t);
    let ghost aup = |c: char| seq![ascii_upper(c)];
    let ghost pieces = split(key@, '+');
    let ghost out = shortcut_parts(key@, low, up);
    let ghost aout = shortcut_parts(key@, alow, aup);
    proof {
        law_split_then_join(key@, '+');
        if all_ascii(key@) {
            lemma_pieces_ascii(key@, '+');
        }
    }
    let mut r = String::new();
    for i in 0..parts.len()
        invariant
            parts.deep_view() == pieces,
            pieces.len() == parts@.len(),
            pieces.len() > 0,
            pieces == split(key@, '+'),
            low == (|t: Seq<char>| lowercase(t)),
            up == (|c: char| char_uppercase(c)),
            alow == (|t: Seq<char>| ascii_lowered(t)),
            aup == (|c: char| seq![ascii_upper(c)]),
            out == shortcut_parts(key@, low, up),
            aout == shortcut_parts(key@, alow, aup),
            all_ascii(key@) ==> forall|k: int|
                0 <= k < pieces.len() ==> all_ascii(#[trigger] pieces[k]),
            r@ == joined(out.take(i as int), '+'),
            all_ascii(key@) ==> out.take(i as int) == aout.take(i as int),
    {
        assert(parts.deep_view()[i as int] == parts@[i as int]@);
        let part = parts[i].as_str();
        let lowered = to_lowercase(part);
        let is_last = i == parts.len() - 1;
        let converted = convert_part(part, lowered.as_str(), is_last);
        proof {
            assert(part@ == pieces[i as int]);
            assert(converted@ == out[i as int]);
            if all_ascii(key@) {
                assert(all_ascii(pieces[i as int]));
                assert(plain_case(part@));
                assert(lowered@ == ascii_lowered(part@));
                assert(all_ascii(lowered@));
                assert(converted@ == aout[i as int]);
                assert(out.take(i + 1) =~= aout.take(i + 1));
            }
            assert(out.take(i + 1).drop_last() =~= out.take(i as int));
        }
        if i > 0 {
            r.push('+');
        }
        r.append(converted.as_str());
        assert(r@ =~= joined(out.take(i + 1), '+'));
    }
    assert(out.take(pieces.len() as int) =~= out);
    assert(aout.take(pieces.len() as int) =~= aout);
    r
}

/// The part stands for the command key of the platform.
pub open spec fn command_part(lowered: Seq<char>) -> bool {
    lowered == "ctrl"@ || lowered == "meta"@ || lowered == "cmd"@
}

proof fn lemma_lowered_ascii(c: char)
    requires
        ascii(c),
    ensures
        ascii(ascii_lower(c)),
        ascii_lower(ascii_lower(c)) == ascii_lower(c),
        ascii_lower(c) == '+' ==> c == '+',
        ascii(ascii_upper(c)),
        ascii_lower(ascii_upper(c)) == ascii_lower(c),
        ascii_upper(c) == '+' ==> c == '+',
{
}

proof fn lemma_shortcut_words()
    ensures
        ascii_lowered("CmdOrCtrl"@) == "cmdorctrl"@,
        ascii_lowered("Shift"@) == "shift"@,
        ascii_lowered("Alt"@) == "alt"@,
        ascii_lowered("Space"@) == "space"@,
        ascii_lowered("Enter"@) == "enter"@,
        ascii_lowered("Backspace"@) == "backspace"@,
        ascii_lowered("Tab"@) == "tab"@,
        all_ascii("CmdOrCtrl"@) && all_ascii("Shift"@) && all_ascii("Alt"@) && all_ascii("Space"@)
            && all_ascii("Enter"@) && all_ascii("Backspace"@) && all_ascii("Tab"@),
        !"CmdOrCtrl"@.contains('+') && !"Shift"@.contains('+') && !"Alt"@.contains('+')
            && !"Space"@.contains('+') && !"Enter"@.contains('+') && !"Backspace"@.contains('+')
            && !"Tab"@.contains('+'),
        "cmdorctrl"@ != "ctrl"@ && "cmdorctrl"@ != "meta"@ && "cmdorctrl"@ != "cmd"@
            && "cmdorctrl"@ != "shift"@ && "cmdorctrl"@ != "alt"@,
{
    reveal_strlit("CmdOrCtrl");
    reveal_strlit("cmdorctrl");
    reveal_strlit("Shift");
    reveal_strlit("shift");
    reveal_strlit("Alt");
    reveal_strlit("alt");
    reveal_strlit("Space");
    reveal_strlit("space");
    reveal_strlit("Enter");
    reveal_strlit("enter");
    reveal_strlit("Backspace");
    reveal_strlit("backspace");
    reveal_strlit("Tab");
    reveal_strlit("tab");
    reveal_strlit("ctrl");
    reveal_strlit("meta");
    reveal_strlit("cmd");
    assert(ascii_lowered("CmdOrCtrl"@) =~= "cmdorctrl"@);
    assert(ascii_lowered("Shift"@) =~= "shift"@);
    assert(ascii_lowered("Alt"@) =~= "alt"@);
    assert(ascii_lowered("Space"@) =~= "space"@);
    assert(ascii_lowered("Enter"@) =~= "enter"@);
    assert(ascii_lowered("Backspace"@) =~= "backspace"@);
    assert(ascii_lowered("Tab"@) =~= "tab"@);
    assert("cmdorctrl"@[0] == 'c' && "shift"@[0] == 's');
}

/// A key name in lower case is the name that it was made from.
proof fn lemma_key_name_lowered(p: Seq<char>)
    requires
        all_ascii(p),
        ascii_lowered(p) == p,
        !p.contains('+'),
    ensures
        ascii_lowered(key_name(p, |c: char| seq![ascii_upper(c)])) == p,
        all_ascii(key_name(p, |c: char| seq![ascii_upper(c)])),
        !key_name(p, |c: char| seq![ascii_upper(c)]).contains('+'),
{
    lemma_shortcut_words();
    let name = key_name(p, |c: char| seq![ascii_upper(c)]);
    assert forall|i: int| 0 <= i < p.len() implies ascii_lower(#[trigger] p[i]) == p[i] && p[i]
        != '+' && ascii(p[i]) by {
        assert(ascii_lowered(p)[i] == ascii_lower(p[i]));
        assert(p.contains(p[i]));
    }
    if p == "space"@ || p == "enter"@ || p == "backspace"@ || p == "tab"@ {
        if p[0] == 'f' && u32_text(p.skip(1)) {
            reveal_strlit("space");
            reveal_strlit("enter");
            reveal_strlit("backspace");
            reveal_strlit("tab");
            assert(false);
        }
    } else {
        assert(name.len() == p.len());
        assert forall|i: int| 0 <= i < p.len() implies ascii_lower(#[trigger] name[i]) == p[i]
            && name[i] != '+' && ascii(name[i]) by {
            lemma_lowered_ascii(p[i]);
            assert(name[i] == p[i] || name[i] == ascii_upper(p[i]));
        }
        assert(ascii_lowered(name) =~= p);
    }
}

/// Converting a part a second time changes nothing, unless it is the last and the command key.
proof fn lemma_part_is_stable(part: Seq<char>, is_last: bool)
    requires
        all_ascii(part),
        !part.contains('+'),
        is_last ==> !command_part(ascii_lowered(part)),
    ensures
        ({
            let up = |c: char| seq![ascii_upper(c)];
            let once = shortcut_part(part, ascii_lowered(part), is_last, up);
            &&& all_ascii(once)
            &&& !once.contains('+')
            &&& shortcut_part(once, ascii_lowered(once), is_last, up) == once
        }),
{
    lemma_shortcut_words();
    let up = |c: char| seq![ascii_upper(c)];
    let p = ascii_lowered(part);
    let once = shortcut_part(part, p, is_last, up);
    if command_part(p) || p == "shift"@ || p == "alt"@ {
    } else if is_last {
        assert forall|i: int| 0 <= i < p.len() implies ascii(#[trigger] p[i]) && ascii_lower(p[i])
            == p[i] && p[i] != '+' by {
            assert(ascii(part[i]));
            assert(part.contains(part[i]));
            lemma_lowered_ascii(part[i]);
        }
        assert(ascii_lowered(p) =~= p);
        lemma_key_name_lowered(p);
        assert(once == key_name(p, up));
    }
}

/// A shortcut stands for itself: turning it into a shortcut again changes nothing. A key
/// whose last part is the command key is left out, since it is no shortcut.
pub proof fn law_shortcut_is_stable(key: Seq<char>)
    requires
        all_ascii(key),
        !command_part(ascii_lowered(split(key, '+').last())),
    ensures
        all_ascii(ascii_shortcut_text(key)),
        ascii_shortcut_text(ascii_shortcut_text(key)) == ascii_shortcut_text(key),
{
    let low = |t: Seq<char>| ascii_lowered(t);
    let up = |c: char| seq![ascii_upper(c)];
    let pieces = split(key, '+');
    let once = shortcut_parts(key, low, up);
    law_split_then_join(key, '+');
    lemma_pieces_ascii(key, '+');
    assert forall|i: int| 0 <= i < pieces.len() implies all_ascii(#[trigger] once[i])
        && !once[i].contains('+') && shortcut_part(
        once[i],
        ascii_lowered(once[i]),
        i == pieces.len() - 1,
        up,
    ) == once[i] by {
        assert(all_ascii(pieces[i]));
        assert forall|j: int| 0 <= j < pieces[i].len() implies pieces[i][j] != '+' by {}
        lemma_part_is_stable(pieces[i], i == pieces.len() - 1);
    }
    assert forall|i: int, j: int| 0 <= i < once.len() && 0 <= j < once[i].len() implies
        #[trigger] once[i][j] != '+' by {
        assert(once[i].contains(once[i][j]));
    }
    assert(separator_free(once, '+'));
    law_join_then_split(once, '+');
    assert(shortcut_parts(joined(once, '+'), low, up) =~= once);
    lemma_joined_ascii(once, '+');
}

proof fn lemma_joined_ascii(pieces: Seq<Seq<char>>, sep: char)
    requires
        ascii(sep),
        forall|i: int| 0 <= i < pieces.len() ==> all_ascii(#[trigger] pieces[i]),
    ensures
        all_ascii(joined(pieces, sep)),
    decreases pieces.len(),
{
    if pieces.len() > 0 {
        assert(all_ascii(pieces[pieces.len() - 1]));
        if pieces.len() > 1 {
            let front = pieces.drop_last();
            assert(forall|i: int| 0 <= i < front.len() ==> front[i] == pieces[i]);
            lemma_joined_ascii(front, sep);
        }
    }
}

/// What a part of a hotkey string that is not the last becomes.
proof fn lemma_first_part(
    part: Seq<char>,
    rest: Seq<char>,
    low: spec_fn(Seq<char>) -> Seq<char>,
    up: spec_fn(char) -> Seq<char>,
)
    requires
        !part.contains('+'),
    ensures
        shortcut_by(part + seq!['+'] + rest, low, up) == shortcut_part(part, low(part), false, up)
            + seq!['+'] + shortcut_by(rest, low, up),
        shortcut_by(part, low, up) == shortcut_part(part, low(part), true, up),
{
    let all = part + seq!['+'] + rest;
    law_splitting_goes_piece_by_piece(part, rest, '+');
    law_split_then_join(rest, '+');
    let tail = shortcut_parts(rest, low, up);
    let head = shortcut_part(part, low(part), false, up);
    assert(shortcut_parts(all, low, up) =~= seq![head] + tail);
    law_joining_goes_piece_by_piece(head, tail, '+');
    assert(shortcut_parts(part, low, up) =~= seq![shortcut_part(part, low(part), true, up)]);
}

/// A hotkey string becomes a shortcut part by part: what stands before a plus sign becomes the
/// modifier that it names, or stays as it is, and what follows becomes a shortcut on its own.
pub proof fn law_shortcut_goes_part_by_part(part: Seq<char>, rest: Seq<char>)
    requires
        !part.contains('+'),
    ensures
        ({
            let l = lowercase(part);
            let r = shortcut_text(part + seq!['+'] + rest);
            let tail = seq!['+'] + shortcut_text(rest);
            &&& l == "ctrl"@ || l == "meta"@ || l == "cmd"@ ==> r == "CmdOrCtrl"@ + tail
            &&& l == "shift"@ ==> r == "Shift"@ + tail
            &&& l == "alt"@ ==> r == "Alt"@ + tail
            &&& l != "ctrl"@ && l != "meta"@ && l != "cmd"@ && l != "shift"@ && l != "alt"@ ==> r
                == part + tail
        }),
        ({
            let l = ascii_lowered(part);
            let r = ascii_shortcut_text(part + seq!['+'] + rest);
            let tail = seq!['+'] + ascii_shortcut_text(rest);
            &&& l == "ctrl"@ || l == "meta"@ || l == "cmd"@ ==> r == "CmdOrCtrl"@ + tail
            &&& l == "shift"@ ==> r == "Shift"@ + tail
            &&& l == "alt"@ ==> r == "Alt"@ + tail
            &&& l != "ctrl"@ && l != "meta"@ && l != "cmd"@ && l != "shift"@ && l != "alt"@ ==> r
                == part + tail
        }),
{
    let (low, up) = (|t: Seq<char>| lowercase(t), |c: char| char_uppercase(c));
    let (alow, aup) = (|t: Seq<char>| ascii_lowered(t), |c: char| seq![ascii_upper(c)]);
    lemma_first_part(part, rest, low, up);
    lemma_first_part(part, rest, alow, aup);
    let head = shortcut_part(part, lowercase(part), false, up);
    assert(head + seq!['+'] + shortcut_text(rest) =~= head + (seq!['+'] + shortcut_text(rest)));
    let ahead = shortcut_part(part, ascii_lowered(part), false, aup);
    assert(ahead + seq!['+'] + ascii_shortcut_text(rest) =~= ahead + (seq!['+']
        + ascii_shortcut_text(rest)));
    lemma_modifier_words_differ();
}

proof fn lemma_modifier_words_differ()
    ensures
        "shift"@ != "ctrl"@ && "shift"@ != "meta"@ && "shift"@ != "cmd"@ && "shift"@ != "alt"@,
        "alt"@ != "ctrl"@ && "alt"@ != "meta"@ && "alt"@ != "cmd"@,
{
    reveal_strlit("ctrl");
    reveal_strlit("meta");
    reveal_strlit("cmd");
    reveal_strlit("shift");
    reveal_strlit("alt");
    assert("shift"@.len() == 5 && "ctrl"@.len() == 4 && "meta"@.len() == 4);
    assert("cmd"@[0] == 'c' && "alt"@[0] == 'a');
}

proof fn lemma_digits_uppered(s: Seq<char>)
    requires
        u32_text(s),
    ensures
        ascii_uppered(s) == s,
{
    assert forall|i: int| 0 <= i < s.len() implies ascii_upper(#[trigger] s[i]) == s[i] by {
        if s[0] == '+' && i > 0 {
            assert(digit(s.skip(1)[i - 1]));
        } else if s[0] != '+' {
            assert(digit(s[i]));
        }
    }
    assert(ascii_uppered(s) =~= s);
}

/// A key name is the key with its first letter large, however the key is called.
proof fn lemma_key_is_capitalized(p: Seq<char>, up: spec_fn(char) -> Seq<char>)
    requires
        p.len() > 0,
    ensures
        key_name(p, up) == up(p[0]) + p.skip(1) || (ascii(p[0]) && key_name(p, up) == seq![
            ascii_upper(p[0]),
        ] + p.skip(1)),
{
    let capital = seq![ascii_upper(p[0])] + p.skip(1);
    reveal_strlit("space");
    reveal_strlit("Space");
    reveal_strlit("enter");
    reveal_strlit("Enter");
    reveal_strlit("backspace");
    reveal_strlit("Backspace");
    reveal_strlit("tab");
    reveal_strlit("Tab");
    if p[0] == 'f' && u32_text(p.skip(1)) {
        lemma_digits_uppered(p.skip(1));
        assert forall|i: int| 0 <= i < p.len() implies #[trigger] ascii_uppered(p)[i] == capital[i] by {
            if i > 0 {
                assert(p[i] == p.skip(1)[i - 1]);
                assert(ascii_uppered(p.skip(1))[i - 1] == ascii_upper(p[i]));
            }
        }
        assert(ascii_uppered(p) =~= capital);
    } else if p == "space"@ {
        assert("Space"@ =~= capital);
    } else if p == "enter"@ {
        assert("Enter"@ =~= capital);
    } else if p == "backspace"@ {
        assert("Backspace"@ =~= capital);
    } else if p == "tab"@ {
        assert("Tab"@ =~= capital);
    } else if p.len() == 1 && ascii(p[0]) {
        assert(ascii_uppered(p) =~= capital);
    }
}

/// A hotkey string without a plus sign becomes the modifier that it names, or else the key in
/// lower case with its first letter large.
pub proof fn law_lone_key_is_capitalized(key: Seq<char>)
    requires
        !key.contains('+'),
    ensures
        ({
            let l = lowercase(key);
            let r = shortcut_text(key);
            &&& l == "ctrl"@ || l == "meta"@ || l == "cmd"@ ==> r == "CmdOrCtrl"@
            &&& l == "shift"@ ==> r == "Shift"@
            &&& l == "alt"@ ==> r == "Alt"@
            &&& l.len() == 0 ==> r.len() == 0
            &&& l.len() > 0 && l != "ctrl"@ && l != "meta"@ && l != "cmd"@ && l != "shift"@ && l
                != "alt"@ ==> r == char_uppercase(l[0]) + l.skip(1) || ((l[0] as int) < 128 && r
                == seq![ascii_upper(l[0])] + l.skip(1))
        }),
        ({
            let l = ascii_lowered(key);
            let r = ascii_shortcut_text(key);
            &&& l == "ctrl"@ || l == "meta"@ || l == "cmd"@ ==> r == "CmdOrCtrl"@
            &&& l == "shift"@ ==> r == "Shift"@
            &&& l == "alt"@ ==> r == "Alt"@
            &&& l.len() == 0 ==> r.len() == 0
            &&& l.len() > 0 && l != "ctrl"@ && l != "meta"@ && l != "cmd"@ && l != "shift"@ && l
                != "alt"@ ==> r == seq![ascii_upper(l[0])] + l.skip(1)
        }),
{
    let (low, up) = (|t: Seq<char>| lowercase(t), |c: char| char_uppercase(c));
    let (alow, aup) = (|t: Seq<char>| ascii_lowered(t), |c: char| seq![ascii_upper(c)]);
    lemma_first_part(key, Seq::empty(), low, up);
    lemma_first_part(key, Seq::empty(), alow, aup);
    lemma_modifier_words_differ();
    reveal_strlit("ctrl");
    reveal_strlit("meta");
    reveal_strlit("cmd");
    reveal_strlit("shift");
    reveal_strlit("alt");
    reveal_strlit("space");
    reveal_strlit("enter");
    reveal_strlit("backspace");
    reveal_strlit("tab");
    if lowercase(key).len() > 0 {
        lemma_key_is_capitalized(lowercase(key), up);
    }
    if ascii_lowered(key).len() > 0 {
        lemma_key_is_capitalized(ascii_lowered(key), aup);
    }
}

} // verus!
