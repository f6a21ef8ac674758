//! Telling what a speech model makes up on silence from what was said.
use crate::case::{
    ascii, ascii_lower, ascii_lowered, caseless, letterless, lowercase, plain_case, to_lowercase,
};
use crate::text::{
    blank, chars_of, contains_text, is_whitespace, occurs_in, same_text, text_of, white_space,
    without_trailing,
};
use vstd::prelude::*;

verus! {

/// Phrases that count only when they are the whole utterance: each could also stand inside
/// something that was really dictated.
pub open spec fn exact_phrases() -> Seq<Seq<char>> {
    seq![
        "ありがとうございました"@,
        "ありがとうございます"@,
        "お疲れ様でした"@,
        "おやすみなさい"@,
        "Thank you."@,
        "Goodbye."@,
        "you"@,
        "ご覧いただきありがとうございました"@,
        "ご覧いただきありがとうございます"@,
        "最後までご覧いただきありがとうございました"@,
        "最後までご覧いただきありがとうございます"@,
        "次回もお楽しみに"@,
        "チャンネル登録お願いします"@,
        "チャンネル登録をお願いします"@,
        "字幕作成"@,
        "Please subscribe."@,
        "子供のお話を聞いてみると 子供にとっての気持ちがいいです"@,
        "音声入力による文章の書き取りです"@,
        "This is a voice dictation transcription."@,
    ]
}

/// Fragments that count wherever they stand: none of them is ever dictated.
pub open spec fn marker_phrases() -> Seq<Seq<char>> {
    seq![
        "視聴ありがとう"@,
        "清聴ありがとう"@,
        "視聴してくださって"@,
        "視聴してくださり"@,
        "最後までご視聴"@,
        "チャンネル登録と高評価"@,
        "高評価とチャンネル"@,
        "字幕をご覧"@,
        "字幕作成者"@,
        "字幕提供"@,
        "thank you for watching"@,
        "thanks for watching"@,
        "subscribe to my channel"@,
        "amara.org"@,
    ]
}

/// The punctuation that ends a sentence.
pub open spec fn end_mark(c: char) -> bool {
    c == '.' || c == '!' || c == '?' || c == '。' || c == '！' || c == '？'
}

/// `text` without its white space, and then without the end marks at its end.
pub open spec fn stripped(text: Seq<char>) -> Seq<char> {
    without_trailing(text.filter(|c: char| !white_space(c)), |c: char| end_mark(c))
}

/// The form in which a text is compared with the phrases: its stripped form, in lower case. The
/// letters `A` to `Z` are lowered first, which makes no difference to the outcome.
pub open spec fn normalized(text: Seq<char>) -> Seq<char> {
    lowercase(ascii_lowered(stripped(text)))
}

proof fn lemma_filter_step(text: Seq<char>, i: int)
    requires
        0 <= i < text.len(),
    ensures
        text.take(i + 1).filter(|c: char| !white_space(c)) == if white_space(text[i]) {
            text.take(i).filter(|c: char| !white_space(c))
        } else {
            text.take(i).filter(|c: char| !white_space(c)).push(text[i])
        },
{
    reveal(Seq::filter);
    assert(text.take(i + 1).drop_last() =~= text.take(i));
}

proof fn lemma_filter_all_kept(s: Seq<char>, keep: spec_fn(char) -> bool)
    requires
        forall|i: int| 0 <= i < s.len() ==> keep(#[trigger] s[i]),
    ensures
        s.filter(keep) == s,
    decreases s.len(),
{
    reveal(Seq::filter);
    if s.len() > 0 {
        let d = s.drop_last();
        assert(forall|i: int| 0 <= i < d.len() ==> d[i] == s[i]);
        lemma_filter_all_kept(d, keep);
        assert(keep(s[s.len() - 1]));
        assert(d.push(s.last()) =~= s);
    }
}

/// A text without white space and without an end mark at its end is its own stripped form.
proof fn lemma_stripped_already(s: Seq<char>)
    requires
        no_white_space(s),
        !ends_in_mark(s),
    ensures
        stripped(s) == s,
{
    let keep = |c: char| !white_space(c);
    assert forall|i: int| 0 <= i < s.len() implies keep(#[trigger] s[i]) by {}
    lemma_filter_all_kept(s, keep);
}

/// A stripped form holds no white space and ends in no end mark.
proof fn lemma_stripped_is_stripped(text: Seq<char>)
    ensures
        no_white_space(stripped(text)),
        !ends_in_mark(stripped(text)),
{
    let keep = |c: char| !white_space(c);
    let mark = |c: char| end_mark(c);
    let f = text.filter(keep);
    lemma_filter_keeps_only(text, keep);
    lemma_without_trailing_is_prefix(f, mark);
    lemma_without_trailing_end(f, mark);
    assert forall|i: int| 0 <= i < stripped(text).len() implies !white_space(
        #[trigger] stripped(text)[i],
    ) by {
        assert(stripped(text)[i] == f[i]);
        assert(keep(f[i]));
    }
}

proof fn lemma_filter_keeps_only(s: Seq<char>, keep: spec_fn(char) -> bool)
    ensures
        forall|i: int| 0 <= i < s.filter(keep).len() ==> keep(#[trigger] s.filter(keep)[i]),
    decreases s.len(),
{
    reveal(Seq::filter);
    if s.len() > 0 {
        lemma_filter_keeps_only(s.drop_last(), keep);
    }
}

proof fn lemma_without_trailing_end(s: Seq<char>, drop: spec_fn(char) -> bool)
    ensures
        without_trailing(s, drop).len() > 0 ==> !drop(without_trailing(s, drop).last()),
    decreases s.len(),
{
    if s.len() > 0 && drop(s.last()) {
        lemma_without_trailing_end(s.drop_last(), drop);
    }
}

/// No character of `s` is white space.
pub open spec fn no_white_space(s: Seq<char>) -> bool {
    forall|i: int| 0 <= i < s.len() ==> !white_space(#[trigger] s[i])
}

/// The last character of `s` is an end mark.
pub open spec fn ends_in_mark(s: Seq<char>) -> bool {
    s.len() > 0 && end_mark(s.last())
}

/// Lowercases `text`, strips all its white space and drops the end marks at its end. What comes
/// out holds no white space, ends in no end mark, and stays as it is when it is normalized again.
pub fn normalize_for_match(text: &str) -> (r: String)
    ensures
        r@ == normalized(text@),
        r@ == lowercase(stripped(text@)),
        plain_case(stripped(text@)) ==> r@ == ascii_lowered(stripped(text@)),
        forall|i: int, j: int|
            #![trigger stripped(text@).subrange(i, j)]
            0 <= i <= j <= stripped(text@).len() && plain_case(stripped(text@).subrange(i, j))
                ==> occurs_in(ascii_lowered(stripped(text@).subrange(i, j)), r@),
        r@.len() == 0 <==> stripped(text@).len() == 0,
        no_white_space(r@),
        !ends_in_mark(r@),
        stripped(r@) == r@,
        normalized(r@) == r@,
{
    let v = chars_of(text);
    let mut kept: Vec<char> = Vec::new();
    assert(text@.take(0).filter(|c: char| !white_space(c)) =~= Seq::<char>::empty()) by {
        reveal(Seq::filter);
    }
    for i in 0..v.len()
        invariant
            v@ == text@,
            kept@ == text@.take(i as int).filter(|c: char| !white_space(c)),
    {
        proof {
            lemma_filter_step(text@, i as int);
        }
        if !is_whitespace(v[i]) {
            kept.push(v[i]);
        }
    }
    assert(text@.take(text@.len() as int) =~= text@);
    let ghost mark = |c: char| end_mark(c);
    while kept.len() > 0 && is_end_mark(kept[kept.len() - 1])
        invariant
            mark == (|c: char| end_mark(c)),
            without_trailing(kept@, mark) == stripped(text@),
        decreases kept@.len(),
    {
        kept.pop();
    }
    let r = to_lowercase(text_of(&kept).as_str());
    proof {
        let s = stripped(text@);
        assert(kept@ == s);
        lemma_stripped_is_stripped(text@);
        assert forall|i: int| 0 <= i < r@.len() implies !white_space(#[trigger] r@[i]) by {
            if white_space(r@[i]) {
                assert(letterless(r@[i]));
                assert(s.contains(r@[i]));
            }
        }
        if ends_in_mark(r@) {
            assert(letterless(r@.last()));
        }
        lemma_stripped_already(r@);
    }
    r
}

/// Whether `c` is punctuation that ends a sentence.
fn is_end_mark(c: char) -> (r: bool)
    ensures
        r == end_mark(c),
{
    c == '.' || c == '!' || c == '?' || c == '。' || c == '！' || c == '？'
}

/// The opening and the closing bracket of one kind.
pub open spec fn bracket_pair(open: char, close: char) -> bool {
    ||| open == '(' && close == ')'
    ||| open == '（' && close == '）'
    ||| open == '[' && close == ']'
    ||| open == '［' && close == '］'
    ||| open == '【' && close == '】'
    ||| open == '〔' && close == '〕'
}

/// A bracket of any of those kinds.
pub open spec fn bracket(c: char) -> bool {
    ||| exists|close: char| bracket_pair(c, close)
    ||| exists|open: char| bracket_pair(open, c)
}

/// A symbol written for music or for a drawn-out sound.
pub open spec fn music_mark(c: char) -> bool {
    c == '♪' || c == '♬' || c == '♫' || c == '〜' || c == '～' || c == '~' || c == '-' || c == '−'
        || c == 'ー' || c == '.' || c == '。'
}

/// A short note in brackets, with no further bracket inside it.
pub open spec fn bracketed_note(t: Seq<char>) -> bool {
    &&& 2 <= t.len() <= 12
    &&& bracket_pair(t.first(), t.last())
    &&& forall|i: int| 0 < i < t.len() - 1 ==> !bracket(#[trigger] t[i])
}

/// Nothing but music marks, and at least one.
pub open spec fn only_music(t: Seq<char>) -> bool {
    &&& t.len() > 0
    &&& forall|i: int| 0 <= i < t.len() ==> music_mark(#[trigger] t[i])
}

/// What a speech model writes for music, applause and the like.
pub open spec fn non_speech_annotation(t: Seq<char>) -> bool {
    bracketed_note(t) || only_music(t)
}

/// Whether `open` and `close` are brackets of one kind.
fn is_bracket_pair(open: char, close: char) -> (r: bool)
    ensures
        r == bracket_pair(open, close),
{
    (open == '(' && close == ')') || (open == '（' && close == '）') || (open == '[' && close == ']')
        || (open == '［' && close == '］') || (open == '【' && close == '】') || (open == '〔'
        && close == '〕')
}

/// Whether `c` is a bracket.
fn is_bracket(c: char) -> (r: bool)
    ensures
        r == bracket(c),
{
    let opens = is_bracket_pair(c, ')') || is_bracket_pair(c, '）') || is_bracket_pair(c, ']')
        || is_bracket_pair(c, '］') || is_bracket_pair(c, '】') || is_bracket_pair(c, '〕');
    let closes = is_bracket_pair('(', c) || is_bracket_pair('（', c) || is_bracket_pair('[', c)
        || is_bracket_pair('［', c) || is_bracket_pair('【', c) || is_bracket_pair('〔', c);
    opens || closes
}

/// Whether `c` is a music mark.
fn is_music_mark(c: char) -> (r: bool)
    ensures
        r == music_mark(c),
{
    matches!(c, '♪' | '♬' | '♫' | '〜' | '～' | '~' | '-' | '−' | 'ー' | '.' | '。')
}

/// Whether `v` is a short note in brackets.
fn is_bracketed_note(v: &Vec<char>) -> (r: bool)
    ensures
        r == bracketed_note(v@),
{
    let len: usize = v.len();
    if len < 2 || len > 12 || !is_bracket_pair(v[0], v[len - 1]) {
        return false;
    }
    for i in 1..len - 1
        invariant
            len == v@.len(),
            2 <= len,
            forall|k: int| 0 < k < i ==> !bracket(#[trigger] v@[k]),
    {
        if is_bracket(v[i]) {
            return false;
        }
    }
    true
}

/// Whether a normalized text is a note that stands for a sound: "(音楽)", "［拍手］", "♪～♪".
pub fn is_non_speech_annotation(normalized: &str) -> (r: bool)
    ensures
        r == non_speech_annotation(normalized@),
{
    let v = chars_of(normalized);
    if is_bracketed_note(&v) {
        return true;
    }
    for i in 0..v.len()
        invariant
            v@ == normalized@,
            !bracketed_note(v@),
            forall|k: int| 0 <= k < i ==> music_mark(#[trigger] v@[k]),
    {
        if !is_music_mark(v[i]) {
            return false;
        }
    }
    v.len() > 0
}

/// A normalized text that the model made up: nothing at all, one of the exact phrases as a
/// whole, anything with one of the marker phrases in it, or a note that stands for a sound.
pub open spec fn made_up(n: Seq<char>) -> bool {
    ||| n.len() == 0
    ||| exists|i: int|
        0 <= i < exact_phrases().len() && n == ascii_lowered(stripped(#[trigger] exact_phrases()[i]))
    ||| exists|i: int|
        0 <= i < marker_phrases().len() && occurs_in(
            ascii_lowered(stripped(#[trigger] marker_phrases()[i])),
            n,
        )
    ||| non_speech_annotation(n)
}

/// The exact phrases.
fn exact_phrase_list() -> (r: Vec<&'static str>)
    ensures
        r@.len() == exact_phrases().len(),
        forall|i: int| 0 <= i < r@.len() ==> (#[trigger] r@[i])@ == exact_phrases()[i],
{
    vec![
        "ありがとうございました",
        "ありがとうございます",
        "お疲れ様でした",
        "おやすみなさい",
        "Thank you.",
        "Goodbye.",
        "you",
        "ご覧いただきありがとうございました",
        "ご覧いただきありがとうございます",
        "最後までご覧いただきありがとうございました",
        "最後までご覧いただきありがとうございます",
        "次回もお楽しみに",
        "チャンネル登録お願いします",
        "チャンネル登録をお願いします",
        "字幕作成",
        "Please subscribe.",
        "子供のお話を聞いてみると 子供にとっての気持ちがいいです",
        "音声入力による文章の書き取りです",
        "This is a voice dictation transcription.",
    ]
}

/// The marker phrases.
fn marker_phrase_list() -> (r: Vec<&'static str>)
    ensures
        r@.len() == marker_phrases().len(),
        forall|i: int| 0 <= i < r@.len() ==> (#[trigger] r@[i])@ == marker_phrases()[i],
{
    vec![
        "視聴ありがとう",
        "清聴ありがとう",
        "視聴してくださって",
        "視聴してくださり",
        "最後までご視聴",
        "チャンネル登録と高評価",
        "高評価とチャンネル",
        "字幕をご覧",
        "字幕作成者",
        "字幕提供",
        "thank you for watching",
        "thanks for watching",
        "subscribe to my channel",
        "amara.org",
    ]
}

proof fn lemma_exact_phrases_plain()
    ensures
        forall|i: int| 0 <= i < exact_phrases().len() ==> plain_case(#[trigger] exact_phrases()[i]),
{
    reveal_strlit("ありがとうございました");
    reveal_strlit("ありがとうございます");
    reveal_strlit("お疲れ様でした");
    reveal_strlit("おやすみなさい");
    reveal_strlit("Thank you.");
    reveal_strlit("Goodbye.");
    reveal_strlit("you");
    reveal_strlit("ご覧いただきありがとうございました");
    reveal_strlit("ご覧いただきありがとうございます");
    reveal_strlit("最後までご覧いただきありがとうございました");
    reveal_strlit("最後までご覧いただきありがとうございます");
    reveal_strlit("次回もお楽しみに");
    reveal_strlit("チャンネル登録お願いします");
    reveal_strlit("チャンネル登録をお願いします");
    reveal_strlit("字幕作成");
    reveal_strlit("Please subscribe.");
    reveal_strlit("子供のお話を聞いてみると 子供にとっての気持ちがいいです");
    reveal_strlit("音声入力による文章の書き取りです");
    reveal_strlit("This is a voice dictation transcription.");
}

proof fn lemma_marker_phrases_plain()
    ensures
        forall|i: int|
            0 <= i < marker_phrases().len() ==> plain_case(#[trigger] marker_phrases()[i]),
{
    reveal_strlit("視聴ありがとう");
    reveal_strlit("清聴ありがとう");
    reveal_strlit("視聴してくださって");
    reveal_strlit("視聴してくださり");
    reveal_strlit("最後までご視聴");
    reveal_strlit("チャンネル登録と高評価");
    reveal_strlit("高評価とチャンネル");
    reveal_strlit("字幕をご覧");
    reveal_strlit("字幕作成者");
    reveal_strlit("字幕提供");
    reveal_strlit("thank you for watching");
    reveal_strlit("thanks for watching");
    reveal_strlit("subscribe to my channel");
    reveal_strlit("amara.org");
}

proof fn lemma_without_trailing_is_prefix(s: Seq<char>, drop: spec_fn(char) -> bool)
    ensures
        without_trailing(s, drop).len() <= s.len(),
        without_trailing(s, drop) == s.take(without_trailing(s, drop).len() as int),
    decreases s.len(),
{
    if s.len() > 0 && drop(s.last()) {
        lemma_without_trailing_is_prefix(s.drop_last(), drop);
        let k = without_trailing(s, drop).len() as int;
        assert(s.drop_last().take(k) =~= s.take(k));
    } else {
        assert(s.take(s.len() as int) =~= s);
    }
}

proof fn lemma_filter_plain(s: Seq<char>, keep: spec_fn(char) -> bool)
    requires
        plain_case(s),
    ensures
        plain_case(s.filter(keep)),
    decreases s.len(),
{
    reveal(Seq::filter);
    if s.len() > 0 {
        let d = s.drop_last();
        assert(forall|i: int| 0 <= i < d.len() ==> d[i] == s[i]);
        lemma_filter_plain(d, keep);
        assert(ascii(s[s.len() - 1]) || caseless(s[s.len() - 1]));
    }
}

proof fn lemma_stripped_plain(s: Seq<char>)
    requires
        plain_case(s),
    ensures
        plain_case(stripped(s)),
{
    let f = s.filter(|c: char| !white_space(c));
    lemma_filter_plain(s, |c: char| !white_space(c));
    lemma_without_trailing_is_prefix(f, |c: char| end_mark(c));
    assert(forall|i: int| 0 <= i < stripped(s).len() ==> stripped(s)[i] == f[i]);
}

/// Whether the model made up a text that comes out of [`normalize_for_match`] as `normalized`.
pub fn is_normalized_hallucination(normalized: &str) -> (r: bool)
    ensures
        r == made_up(normalized@),
{
    if normalized.is_empty() {
        return true;
    }
    let exact = exact_phrase_list();
    proof {
        lemma_exact_phrases_plain();
        lemma_marker_phrases_plain();
    }
    for i in 0..exact.len()
        invariant
            exact@.len() == exact_phrases().len(),
            forall|k: int|
                0 <= k < exact@.len() ==> (#[trigger] exact@[k])@ == exact_phrases()[k],
            forall|k: int|
                0 <= k < exact_phrases().len() ==> plain_case(#[trigger] exact_phrases()[k]),
            forall|k: int|
                0 <= k < i ==> normalized@ != ascii_lowered(stripped(#[trigger] exact_phrases()[k])),
    {
        proof {
            lemma_stripped_plain(exact_phrases()[i as int]);
        }
        if same_text(normalized, normalize_for_match(exact[i]).as_str()) {
            assert(normalized@ == ascii_lowered(stripped(exact_phrases()[i as int])));
            return true;
        }
    }
    let markers = marker_phrase_list();
    for i in 0..markers.len()
        invariant
            markers@.len() == marker_phrases().len(),
            forall|k: int|
                0 <= k < markers@.len() ==> (#[trigger] markers@[k])@ == marker_phrases()[k],
            forall|k: int|
                0 <= k < marker_phrases().len() ==> plain_case(#[trigger] marker_phrases()[k]),
            forall|k: int|
                0 <= k < i ==> !occurs_in(
                    ascii_lowered(stripped(#[trigger] marker_phrases()[k])),
                    normalized@,
                ),
    {
        proof {
            lemma_stripped_plain(marker_phrases()[i as int]);
        }
        if contains_text(normalized, normalize_for_match(markers[i]).as_str()) {
            assert(occurs_in(ascii_lowered(stripped(marker_phrases()[i as int])), normalized@));
            return true;
        }
    }
    is_non_speech_annotation(normalized)
}

/// `text`, with its white space left out and the letters `A` to `Z` taken for `a` to `z`, holds
/// one of the marker phrases.
pub open spec fn speaks_marker(text: Seq<char>) -> bool {
    exists|k: int, i: int, j: int|
        #![trigger marker_phrases()[k], stripped(text).subrange(i, j)]
        0 <= k < marker_phrases().len() && 0 <= i <= j <= stripped(text).len() && ascii_lowered(
            stripped(text).subrange(i, j),
        ) == ascii_lowered(stripped(marker_phrases()[k]))
}

/// Whether the speech model made `text` up.
pub fn is_hallucination(text: &str) -> (r: bool)
    ensures
        r == made_up(normalized(text@)),
        r == made_up(lowercase(stripped(text@))),
        plain_case(stripped(text@)) ==> r == made_up(ascii_lowered(stripped(text@))),
        speaks_marker(text@) ==> r,
{
    let normalized = normalize_for_match(text);
    proof {
        lemma_marker_phrases_plain();
        if speaks_marker(text@) {
            let (k, i, j) = choose|k: int, i: int, j: int|
                #![trigger marker_phrases()[k], stripped(text@).subrange(i, j)]
                0 <= k < marker_phrases().len() && 0 <= i <= j <= stripped(text@).len()
                    && ascii_lowered(stripped(text@).subrange(i, j)) == ascii_lowered(
                    stripped(marker_phrases()[k]),
                );
            let run = stripped(text@).subrange(i, j);
            let m = stripped(marker_phrases()[k]);
            lemma_stripped_plain(marker_phrases()[k]);
            assert(ascii_lowered(run).len() == run.len() && ascii_lowered(m).len() == m.len());
            assert forall|x: int| 0 <= x < run.len() implies ascii(#[trigger] run[x]) || caseless(
                run[x],
            ) by {
                assert(ascii_lowered(run)[x] == ascii_lower(run[x]));
                assert(ascii_lowered(m)[x] == ascii_lower(m[x]));
                assert(ascii(m[x]) || caseless(m[x]));
            }
            assert(plain_case(run));
            assert(occurs_in(ascii_lowered(stripped(marker_phrases()[k])), normalized@));
        }
    }
    is_normalized_hallucination(normalized.as_str())
}

proof fn lemma_filter_all_dropped(s: Seq<char>, keep: spec_fn(char) -> bool)
    requires
        forall|i: int| 0 <= i < s.len() ==> !keep(#[trigger] s[i]),
    ensures
        s.filter(keep).len() == 0,
    decreases s.len(),
{
    reveal(Seq::filter);
    if s.len() > 0 {
        assert(forall|i: int| 0 <= i < s.drop_last().len() ==> s.drop_last()[i] == s[i]);
        lemma_filter_all_dropped(s.drop_last(), keep);
        assert(!keep(s[s.len() - 1]));
    }
}

proof fn lemma_without_trailing_run(s: Seq<char>, run: Seq<char>, drop: spec_fn(char) -> bool)
    requires
        forall|i: int| 0 <= i < run.len() ==> drop(#[trigger] run[i]),
    ensures
        without_trailing(s + run, drop) == without_trailing(s, drop),
    decreases run.len(),
{
    if run.len() > 0 {
        assert((s + run).drop_last() =~= s + run.drop_last());
        assert(drop(run[run.len() - 1]));
        assert((s + run).last() == run.last());
        assert(forall|i: int| 0 <= i < run.drop_last().len() ==> run.drop_last()[i] == run[i]);
        lemma_without_trailing_run(s, run.drop_last(), drop);
    } else {
        assert(s + run =~= s);
    }
}

proof fn lemma_without_trailing_keeps(s: Seq<char>, rest: Seq<char>, drop: spec_fn(char) -> bool)
    requires
        s.len() > 0,
        !drop(s.last()),
    ensures
        without_trailing(s + rest, drop) == s + without_trailing(rest, drop),
    decreases rest.len(),
{
    if rest.len() > 0 {
        assert((s + rest).last() == rest.last());
        if drop(rest.last()) {
            assert((s + rest).drop_last() =~= s + rest.drop_last());
            lemma_without_trailing_keeps(s, rest.drop_last(), drop);
        }
    } else {
        assert(s + rest =~= s);
        assert(s + without_trailing(rest, drop) =~= s);
    }
}

/// White space makes no difference, wherever it stands.
pub proof fn law_white_space_is_ignored(before: Seq<char>, space: Seq<char>, after: Seq<char>)
    requires
        blank(space),
    ensures
        stripped(before + space + after) == stripped(before + after),
        normalized(before + space + after) == normalized(before + after),
{
    let keep = |c: char| !white_space(c);
    assert forall|i: int| 0 <= i < space.len() implies !keep(#[trigger] space[i]) by {}
    lemma_filter_all_dropped(space, keep);
    Seq::filter_distributes_over_add(before + space, after, keep);
    Seq::filter_distributes_over_add(before, space, keep);
    Seq::filter_distributes_over_add(before, after, keep);
    assert((before + space + after).filter(keep) =~= (before + after).filter(keep));
}

/// End marks and white space at the end make no difference.
pub proof fn law_trailing_marks_are_ignored(text: Seq<char>, tail: Seq<char>)
    requires
        forall|i: int| 0 <= i < tail.len() ==> white_space(#[trigger] tail[i]) || end_mark(tail[i]),
    ensures
        stripped(text + tail) == stripped(text),
        normalized(text + tail) == normalized(text),
{
    let keep = |c: char| !white_space(c);
    let mark = |c: char| end_mark(c);
    Seq::filter_distributes_over_add(text, tail, keep);
    lemma_filter_marks(tail, keep);
    lemma_without_trailing_run(text.filter(keep), tail.filter(keep), mark);
}

proof fn lemma_filter_marks(tail: Seq<char>, keep: spec_fn(char) -> bool)
    requires
        keep == (|c: char| !white_space(c)),
        forall|i: int| 0 <= i < tail.len() ==> white_space(#[trigger] tail[i]) || end_mark(tail[i]),
    ensures
        forall|i: int|
            0 <= i < tail.filter(keep).len() ==> end_mark(#[trigger] tail.filter(keep)[i]),
    decreases tail.len(),
{
    reveal(Seq::filter);
    if tail.len() > 0 {
        let d = tail.drop_last();
        assert(forall|i: int| 0 <= i < d.len() ==> d[i] == tail[i]);
        lemma_filter_marks(d, keep);
        assert(white_space(tail[tail.len() - 1]) || end_mark(tail[tail.len() - 1]));
        let kept = tail.filter(keep);
        assert forall|i: int| 0 <= i < kept.len() implies end_mark(#[trigger] kept[i]) by {
            if i < d.filter(keep).len() {
                assert(kept[i] == d.filter(keep)[i]);
            } else {
                assert(kept[i] == tail[tail.len() - 1] && keep(tail[tail.len() - 1]));
            }
        }
    }
}

/// A text that says no more than one of the exact phrases is made up, however it is spaced and
/// punctuated.
pub proof fn law_exact_phrase_is_made_up(text: Seq<char>, k: int)
    requires
        0 <= k < exact_phrases().len(),
        stripped(text) == stripped(exact_phrases()[k]),
    ensures
        plain_case(stripped(text)),
        made_up(ascii_lowered(stripped(text))),
{
    lemma_exact_phrases_plain();
    lemma_stripped_plain(exact_phrases()[k]);
}

proof fn lemma_marker_phrases_end()
    ensures
        forall|i: int|
            #![trigger marker_phrases()[i]]
            0 <= i < marker_phrases().len() ==> marker_phrases()[i].len() > 0 && !white_space(
                marker_phrases()[i].last(),
            ) && !end_mark(marker_phrases()[i].last()),
{
    reveal_strlit("視聴ありがとう");
    reveal_strlit("清聴ありがとう");
    reveal_strlit("視聴してくださって");
    reveal_strlit("視聴してくださり");
    reveal_strlit("最後までご視聴");
    reveal_strlit("チャンネル登録と高評価");
    reveal_strlit("高評価とチャンネル");
    reveal_strlit("字幕をご覧");
    reveal_strlit("字幕作成者");
    reveal_strlit("字幕提供");
    reveal_strlit("thank you for watching");
    reveal_strlit("thanks for watching");
    reveal_strlit("subscribe to my channel");
    reveal_strlit("amara.org");
}

/// A marker phrase is caught whatever is said before and after it.
pub proof fn law_marker_is_caught_anywhere(before: Seq<char>, k: int, after: Seq<char>)
    requires
        0 <= k < marker_phrases().len(),
    ensures
        speaks_marker(before + marker_phrases()[k] + after),
{
    let keep = |c: char| !white_space(c);
    let mark = |c: char| end_mark(c);
    let m = marker_phrases()[k];
    let text = before + m + after;
    lemma_marker_phrases_end();
    Seq::filter_distributes_over_add(before + m, after, keep);
    Seq::filter_distributes_over_add(before, m, keep);
    assert(m.filter(keep).len() > 0 && m.filter(keep).last() == m.last()) by {
        reveal(Seq::filter);
    }
    let head = before.filter(keep) + m.filter(keep);
    assert(head.last() == m.last());
    lemma_without_trailing_keeps(head, after.filter(keep), mark);
    assert(stripped(m) == m.filter(keep));
    let i = before.filter(keep).len() as int;
    let j = i + m.filter(keep).len();
    assert(stripped(text).subrange(i, j) =~= stripped(m));
    assert(marker_phrases()[k] == m);
}

proof fn lemma_lowered_stripped(s: Seq<char>, t: Seq<char>)
    requires
        ascii_lowered(s) == ascii_lowered(t),
    ensures
        ascii_lowered(s.filter(|c: char| !white_space(c))) == ascii_lowered(
            t.filter(|c: char| !white_space(c)),
        ),
    decreases s.len(),
{
    reveal(Seq::filter);
    assert(s.len() == ascii_lowered(s).len() && t.len() == ascii_lowered(t).len());
    if s.len() > 0 {
        let n = s.len() - 1;
        assert(ascii_lowered(s)[n] == ascii_lower(s[n]) && ascii_lowered(t)[n] == ascii_lower(t[n]));
        assert(ascii_lowered(s.drop_last()) =~= ascii_lowered(s).drop_last());
        assert(ascii_lowered(t.drop_last()) =~= ascii_lowered(t).drop_last());
        lemma_lowered_stripped(s.drop_last(), t.drop_last());
        let keep = |c: char| !white_space(c);
        let fs = s.drop_last().filter(keep);
        let ft = t.drop_last().filter(keep);
        assert(ascii_lowered(fs.push(s[n])) =~= ascii_lowered(fs).push(ascii_lower(s[n])));
        assert(ascii_lowered(ft.push(t[n])) =~= ascii_lowered(ft).push(ascii_lower(t[n])));
        assert(white_space(s[n]) == white_space(t[n]));
    }
}

proof fn lemma_lowered_without_trailing(s: Seq<char>, t: Seq<char>)
    requires
        ascii_lowered(s) == ascii_lowered(t),
    ensures
        ascii_lowered(without_trailing(s, |c: char| end_mark(c))) == ascii_lowered(
            without_trailing(t, |c: char| end_mark(c)),
        ),
    decreases s.len(),
{
    assert(s.len() == ascii_lowered(s).len() && t.len() == ascii_lowered(t).len());
    if s.len() > 0 {
        let n = s.len() - 1;
        assert(ascii_lowered(s)[n] == ascii_lower(s[n]) && ascii_lowered(t)[n] == ascii_lower(t[n]));
        assert(ascii_lowered(s.drop_last()) =~= ascii_lowered(s).drop_last());
        assert(ascii_lowered(t.drop_last()) =~= ascii_lowered(t).drop_last());
        lemma_lowered_without_trailing(s.drop_last(), t.drop_last());
        assert(end_mark(s[n]) == end_mark(t[n]));
    }
}

/// Whether the letters `A` to `Z` are written large or small makes no difference, whatever else
/// stands in the text.
pub proof fn law_ascii_case_is_ignored(s: Seq<char>, t: Seq<char>)
    requires
        ascii_lowered(s) == ascii_lowered(t),
    ensures
        ascii_lowered(stripped(s)) == ascii_lowered(stripped(t)),
        normalized(s) == normalized(t),
        made_up(normalized(s)) == made_up(normalized(t)),
{
    lemma_lowered_stripped(s, t);
    lemma_lowered_without_trailing(
        s.filter(|c: char| !white_space(c)),
        t.filter(|c: char| !white_space(c)),
    );
}

/// What a text gains by one more character at its end: nothing by white space or by an end mark,
/// else that character, behind everything but the white space that stood before it.
pub proof fn law_stripping_goes_by_character(text: Seq<char>, c: char)
    ensures
        stripped(Seq::<char>::empty()) == Seq::<char>::empty(),
        white_space(c) ==> stripped(text.push(c)) == stripped(text),
        c == '.' || c == '!' || c == '?' || c == '。' || c == '！' || c == '？' ==> stripped(
            text.push(c),
        ) == stripped(text),
        !white_space(c) && c != '.' && c != '!' && c != '?' && c != '。' && c != '！' && c != '？'
            ==> stripped(text.push(c)) == text.filter(|x: char| !white_space(x)).push(c),
{
    reveal(Seq::filter);
    assert(text.push(c).drop_last() =~= text);
    assert(stripped(Seq::<char>::empty()) =~= Seq::<char>::empty());
    let kept = text.filter(|x: char| !white_space(x));
    assert(kept.push(c).drop_last() =~= kept);
}

/// The whole utterances that are made up, as they are compared: in lower case, without white
/// space, without an end mark.
pub open spec fn stock_phrases() -> Seq<Seq<char>> {
    seq![
        "ありがとうございました"@,
        "ありがとうございます"@,
        "お疲れ様でした"@,
        "おやすみなさい"@,
        "thankyou"@,
        "goodbye"@,
        "you"@,
        "ご覧いただきありがとうございました"@,
        "ご覧いただきありがとうございます"@,
        "最後までご覧いただきありがとうございました"@,
        "最後までご覧いただきありがとうございます"@,
        "次回もお楽しみに"@,
        "チャンネル登録お願いします"@,
        "チャンネル登録をお願いします"@,
        "字幕作成"@,
        "pleasesubscribe"@,
        "子供のお話を聞いてみると子供にとっての気持ちがいいです"@,
        "音声入力による文章の書き取りです"@,
        "thisisavoicedictationtranscription"@,
    ]
}

/// The fragments that are made up wherever they stand, as they are compared.
pub open spec fn sign_offs() -> Seq<Seq<char>> {
    seq![
        "視聴ありがとう"@,
        "清聴ありがとう"@,
        "視聴してくださって"@,
        "視聴してくださり"@,
        "最後までご視聴"@,
        "チャンネル登録と高評価"@,
        "高評価とチャンネル"@,
        "字幕をご覧"@,
        "字幕作成者"@,
        "字幕提供"@,
        "thankyouforwatching"@,
        "thanksforwatching"@,
        "subscribetomychannel"@,
        "amara.org"@,
    ]
}

proof fn lemma_gap(whole: Seq<char>, before: Seq<char>, after: Seq<char>, closed: Seq<char>)
    requires
        whole =~= before + seq![' '] + after,
        closed =~= before + after,
    ensures
        stripped(whole) == stripped(closed),
{
    law_white_space_is_ignored(before, seq![' '], after);
}

proof fn lemma_full_stop(whole: Seq<char>, before: Seq<char>)
    requires
        whole =~= before + seq!['.'],
    ensures
        stripped(whole) == stripped(before),
{
    law_trailing_marks_are_ignored(before, seq!['.']);
}

proof fn lemma_bare(text: Seq<char>, lowered: Seq<char>)
    requires
        no_white_space(text),
        !ends_in_mark(text),
        lowered.len() == text.len(),
        forall|i: int| 0 <= i < text.len() ==> ascii_lower(#[trigger] text[i]) == lowered[i],
    ensures
        ascii_lowered(stripped(text)) == lowered,
{
    lemma_stripped_already(text);
    assert(ascii_lowered(text) =~= lowered);
}

proof fn lemma_stock_0()
    ensures
        ascii_lowered(stripped("ありがとうございました"@)) == "ありがとうございました"@,
{
    reveal_strlit("ありがとうございました");
    lemma_bare("ありがとうございました"@, "ありがとうございました"@);
}

proof fn lemma_stock_1()
    ensures
        ascii_lowered(stripped("ありがとうございます"@)) == "ありがとうございます"@,
{
    reveal_strlit("ありがとうございます");
    lemma_bare("ありがとうございます"@, "ありがとうございます"@);
}

proof fn lemma_stock_2()
    ensures
        ascii_lowered(stripped("お疲れ様でした"@)) == "お疲れ様でした"@,
{
    reveal_strlit("お疲れ様でした");
    lemma_bare("お疲れ様でした"@, "お疲れ様でした"@);
}

proof fn lemma_stock_3()
    ensures
        ascii_lowered(stripped("おやすみなさい"@)) == "おやすみなさい"@,
{
    reveal_strlit("おやすみなさい");
    lemma_bare("おやすみなさい"@, "おやすみなさい"@);
}

proof fn lemma_stock_4()
    ensures
        ascii_lowered(stripped("Thank you."@)) == "thankyou"@,
{
    reveal_strlit("Thank");
    reveal_strlit("Thank you.");
    reveal_strlit("Thankyou");
    reveal_strlit("Thankyou.");
    reveal_strlit("thankyou");
    reveal_strlit("you.");
    lemma_gap("Thank you."@, "Thank"@, "you."@, "Thankyou."@);
    lemma_full_stop("Thankyou."@, "Thankyou"@);
    lemma_bare("Thankyou"@, "thankyou"@);
}

proof fn lemma_stock_5()
    ensures
        ascii_lowered(stripped("Goodbye."@)) == "goodbye"@,
{
    reveal_strlit("Goodbye");
    reveal_strlit("Goodbye.");
    reveal_strlit("goodbye");
    lemma_full_stop("Goodbye."@, "Goodbye"@);
    lemma_bare("Goodbye"@, "goodbye"@);
}

proof fn lemma_stock_6()
    ensures
        ascii_lowered(stripped("you"@)) == "you"@,
{
    reveal_strlit("you");
    lemma_bare("you"@, "you"@);
}

proof fn lemma_stock_7()
    ensures
        ascii_lowered(stripped("ご覧いただきありがとうございました"@)) == "ご覧いただきありがとうございました"@,
{
    reveal_strlit("ご覧いただきありがとうございました");
    lemma_bare("ご覧いただきありがとうございました"@, "ご覧いただきありがとうございました"@);
}

proof fn lemma_stock_8()
    ensures
        ascii_lowered(stripped("ご覧いただきありがとうございます"@)) == "ご覧いただきありがとうございます"@,
{
    reveal_strlit("ご覧いただきありがとうございます");
    lemma_bare("ご覧いただきありがとうございます"@, "ご覧いただきありがとうございます"@);
}

proof fn lemma_stock_9()
    ensures
        ascii_lowered(stripped("最後までご覧いただきありがとうございました"@)) == "最後までご覧いただきありがとうございました"@,
{
    reveal_strlit("最後までご覧いただきありがとうございました");
    lemma_bare("最後までご覧いただきありがとうございました"@, "最後までご覧いただきありがとうございました"@);
}

proof fn lemma_stock_10()
    ensures
        ascii_lowered(stripped("最後までご覧いただきありがとうございます"@)) == "最後までご覧いただきありがとうございます"@,
{
    reveal_strlit("最後までご覧いただきありがとうございます");
    lemma_bare("最後までご覧いただきありがとうございます"@, "最後までご覧いただきありがとうございます"@);
}

proof fn lemma_stock_11()
    ensures
        ascii_lowered(stripped("次回もお楽しみに"@)) == "次回もお楽しみに"@,
{
    reveal_strlit("次回もお楽しみに");
    lemma_bare("次回もお楽しみに"@, "次回もお楽しみに"@);
}

proof fn lemma_stock_12()
    ensures
        ascii_lowered(stripped("チャンネル登録お願いします"@)) == "チャンネル登録お願いします"@,
{
    reveal_strlit("チャンネル登録お願いします");
    lemma_bare("チャンネル登録お願いします"@, "チャンネル登録お願いします"@);
}

proof fn lemma_stock_13()
    ensures
        ascii_lowered(stripped("チャンネル登録をお願いします"@)) == "チャンネル登録をお願いします"@,
{
    reveal_strlit("チャンネル登録をお願いします");
    lemma_bare("チャンネル登録をお願いします"@, "チャンネル登録をお願いします"@);
}

proof fn lemma_stock_14()
    ensures
        ascii_lowered(stripped("字幕作成"@)) == "字幕作成"@,
{
    reveal_strlit("字幕作成");
    lemma_bare("字幕作成"@, "字幕作成"@);
}

proof fn lemma_stock_15()
    ensures
        ascii_lowered(stripped("Please subscribe."@)) == "pleasesubscribe"@,
{
    reveal_strlit("Please");
    reveal_strlit("Please subscribe.");
    reveal_strlit("Pleasesubscribe");
    reveal_strlit("Pleasesubscribe.");
    reveal_strlit("pleasesubscribe");
    reveal_strlit("subscribe.");
    lemma_gap("Please subscribe."@, "Please"@, "subscribe."@, "Pleasesubscribe."@);
    lemma_full_stop("Pleasesubscribe."@, "Pleasesubscribe"@);
    lemma_bare("Pleasesubscribe"@, "pleasesubscribe"@);
}

proof fn lemma_stock_16()
    ensures
        ascii_lowered(stripped("子供のお話を聞いてみると 子供にとっての気持ちがいいです"@)) == "子供のお話を聞いてみると子供にとっての気持ちがいいです"@,
{
    reveal_strlit("子供にとっての気持ちがいいです");
    reveal_strlit("子供のお話を聞いてみると");
    reveal_strlit("子供のお話を聞いてみると 子供にとっての気持ちがいいです");
    reveal_strlit("子供のお話を聞いてみると子供にとっての気持ちがいいです");
    lemma_gap("子供のお話を聞いてみると 子供にとっての気持ちがいいです"@, "子供のお話を聞いてみると"@, "子供にとっての気持ちがいいです"@, "子供のお話を聞いてみると子供にとっての気持ちがいいです"@);
    lemma_bare("子供のお話を聞いてみると子供にとっての気持ちがいいです"@, "子供のお話を聞いてみると子供にとっての気持ちがいいです"@);
}

proof fn lemma_stock_17()
    ensures
        ascii_lowered(stripped("音声入力による文章の書き取りです"@)) == "音声入力による文章の書き取りです"@,
{
    reveal_strlit("音声入力による文章の書き取りです");
    lemma_bare("音声入力による文章の書き取りです"@, "音声入力による文章の書き取りです"@);
}

proof fn lemma_stock_18()
    ensures
        ascii_lowered(stripped("This is a voice dictation transcription."@)) == "thisisavoicedictationtranscription"@,
{
    reveal_strlit("This");
    reveal_strlit("This is a voice dictation transcription.");
    reveal_strlit("Thisis");
    reveal_strlit("Thisis a voice dictation transcription.");
    reveal_strlit("Thisisa");
    reveal_strlit("Thisisa voice dictation transcription.");
    reveal_strlit("Thisisavoice");
    reveal_strlit("Thisisavoice dictation transcription.");
    reveal_strlit("Thisisavoicedictation");
    reveal_strlit("Thisisavoicedictation transcription.");
    reveal_strlit("Thisisavoicedictationtranscription");
    reveal_strlit("Thisisavoicedictationtranscription.");
    reveal_strlit("a voice dictation transcription.");
    reveal_strlit("dictation transcription.");
    reveal_strlit("is a voice dictation transcription.");
    reveal_strlit("thisisavoicedictationtranscription");
    reveal_strlit("transcription.");
    reveal_strlit("voice dictation transcription.");
    lemma_gap("This is a voice dictation transcription."@, "This"@, "is a voice dictation transcription."@, "Thisis a voice dictation transcription."@);
    lemma_gap("Thisis a voice dictation transcription."@, "Thisis"@, "a voice dictation transcription."@, "Thisisa voice dictation transcription."@);
    lemma_gap("Thisisa voice dictation transcription."@, "Thisisa"@, "voice dictation transcription."@, "Thisisavoice dictation transcription."@);
    lemma_gap("Thisisavoice dictation transcription."@, "Thisisavoice"@, "dictation transcription."@, "Thisisavoicedictation transcription."@);
    lemma_gap("Thisisavoicedictation transcription."@, "Thisisavoicedictation"@, "transcription."@, "Thisisavoicedictationtranscription."@);
    lemma_full_stop("Thisisavoicedictationtranscription."@, "Thisisavoicedictationtranscription"@);
    lemma_bare("Thisisavoicedictationtranscription"@, "thisisavoicedictationtranscription"@);
}

proof fn lemma_sign_0()
    ensures
        ascii_lowered(stripped("視聴ありがとう"@)) == "視聴ありがとう"@,
{
    reveal_strlit("視聴ありがとう");
    lemma_bare("視聴ありがとう"@, "視聴ありがとう"@);
}

proof fn lemma_sign_1()
    ensures
        ascii_lowered(stripped("清聴ありがとう"@)) == "清聴ありがとう"@,
{
    reveal_strlit("清聴ありがとう");
    lemma_bare("清聴ありがとう"@, "清聴ありがとう"@);
}

proof fn lemma_sign_2()
    ensures
        ascii_lowered(stripped("視聴してくださって"@)) == "視聴してくださって"@,
{
    reveal_strlit("視聴してくださって");
    lemma_bare("視聴してくださって"@, "視聴してくださって"@);
}

proof fn lemma_sign_3()
    ensures
        ascii_lowered(stripped("視聴してくださり"@)) == "視聴してくださり"@,
{
    reveal_strlit("視聴してくださり");
    lemma_bare("視聴してくださり"@, "視聴してくださり"@);
}

proof fn lemma_sign_4()
    ensures
        ascii_lowered(stripped("最後までご視聴"@)) == "最後までご視聴"@,
{
    reveal_strlit("最後までご視聴");
    lemma_bare("最後までご視聴"@, "最後までご視聴"@);
}

proof fn lemma_sign_5()
    ensures
        ascii_lowered(stripped("チャンネル登録と高評価"@)) == "チャンネル登録と高評価"@,
{
    reveal_strlit("チャンネル登録と高評価");
    lemma_bare("チャンネル登録と高評価"@, "チャンネル登録と高評価"@);
}

proof fn lemma_sign_6()
    ensures
        ascii_lowered(stripped("高評価とチャンネル"@)) == "高評価とチャンネル"@,
{
    reveal_strlit("高評価とチャンネル");
    lemma_bare("高評価とチャンネル"@, "高評価とチャンネル"@);
}

proof fn lemma_sign_7()
    ensures
        ascii_lowered(stripped("字幕をご覧"@)) == "字幕をご覧"@,
{
    reveal_strlit("字幕をご覧");
    lemma_bare("字幕をご覧"@, "字幕をご覧"@);
}

proof fn lemma_sign_8()
    ensures
        ascii_lowered(stripped("字幕作成者"@)) == "字幕作成者"@,
{
    reveal_strlit("字幕作成者");
    lemma_bare("字幕作成者"@, "字幕作成者"@);
}

proof fn lemma_sign_9()
    ensures
        ascii_lowered(stripped("字幕提供"@)) == "字幕提供"@,
{
    reveal_strlit("字幕提供");
    lemma_bare("字幕提供"@, "字幕提供"@);
}

proof fn lemma_sign_10()
    ensures
        ascii_lowered(stripped("thank you for watching"@)) == "thankyouforwatching"@,
{
    reveal_strlit("for watching");
    reveal_strlit("thank");
    reveal_strlit("thank you for watching");
    reveal_strlit("thankyou");
    reveal_strlit("thankyou for watching");
    reveal_strlit("thankyoufor");
    reveal_strlit("thankyoufor watching");
    reveal_strlit("thankyouforwatching");
    reveal_strlit("watching");
    reveal_strlit("you for watching");
    lemma_gap("thank you for watching"@, "thank"@, "you for watching"@, "thankyou for watching"@);
    lemma_gap("thankyou for watching"@, "thankyou"@, "for watching"@, "thankyoufor watching"@);
    lemma_gap("thankyoufor watching"@, "thankyoufor"@, "watching"@, "thankyouforwatching"@);
    lemma_bare("thankyouforwatching"@, "thankyouforwatching"@);
}

proof fn lemma_sign_11()
    ensures
        ascii_lowered(stripped("thanks for watching"@)) == "thanksforwatching"@,
{
    reveal_strlit("for watching");
    reveal_strlit("thanks");
    reveal_strlit("thanks for watching");
    reveal_strlit("thanksfor");
    reveal_strlit("thanksfor watching");
    reveal_strlit("thanksforwatching");
    reveal_strlit("watching");
    lemma_gap("thanks for watching"@, "thanks"@, "for watching"@, "thanksfor watching"@);
    lemma_gap("thanksfor watching"@, "thanksfor"@, "watching"@, "thanksforwatching"@);
    lemma_bare("thanksforwatching"@, "thanksforwatching"@);
}

proof fn lemma_sign_12()
    ensures
        ascii_lowered(stripped("subscribe to my channel"@)) == "subscribetomychannel"@,
{
    reveal_strlit("channel");
    reveal_strlit("my channel");
    reveal_strlit("subscribe");
    reveal_strlit("subscribe to my channel");
    reveal_strlit("subscribeto");
    reveal_strlit("subscribeto my channel");
    reveal_strlit("subscribetomy");
    reveal_strlit("subscribetomy channel");
    reveal_strlit("subscribetomychannel");
    reveal_strlit("to my channel");
    lemma_gap("subscribe to my channel"@, "subscribe"@, "to my channel"@, "subscribeto my channel"@);
    lemma_gap("subscribeto my channel"@, "subscribeto"@, "my channel"@, "subscribetomy channel"@);
    lemma_gap("subscribetomy channel"@, "subscribetomy"@, "channel"@, "subscribetomychannel"@);
    lemma_bare("subscribetomychannel"@, "subscribetomychannel"@);
}

proof fn lemma_sign_13()
    ensures
        ascii_lowered(stripped("amara.org"@)) == "amara.org"@,
{
    reveal_strlit("amara.org");
    lemma_bare("amara.org"@, "amara.org"@);
}

proof fn lemma_stock_phrases()
    ensures
        exact_phrases().len() == stock_phrases().len(),
        forall|i: int|
            0 <= i < exact_phrases().len() ==> ascii_lowered(stripped(#[trigger] exact_phrases()[i]))
                == stock_phrases()[i],
{
    lemma_stock_0();
    lemma_stock_1();
    lemma_stock_2();
    lemma_stock_3();
    lemma_stock_4();
    lemma_stock_5();
    lemma_stock_6();
    lemma_stock_7();
    lemma_stock_8();
    lemma_stock_9();
    lemma_stock_10();
    lemma_stock_11();
    lemma_stock_12();
    lemma_stock_13();
    lemma_stock_14();
    lemma_stock_15();
    lemma_stock_16();
    lemma_stock_17();
    lemma_stock_18();
}

proof fn lemma_sign_offs()
    ensures
        marker_phrases().len() == sign_offs().len(),
        forall|i: int|
            0 <= i < marker_phrases().len() ==> ascii_lowered(
                stripped(#[trigger] marker_phrases()[i]),
            ) == sign_offs()[i],
{
    lemma_sign_0();
    lemma_sign_1();
    lemma_sign_2();
    lemma_sign_3();
    lemma_sign_4();
    lemma_sign_5();
    lemma_sign_6();
    lemma_sign_7();
    lemma_sign_8();
    lemma_sign_9();
    lemma_sign_10();
    lemma_sign_11();
    lemma_sign_12();
    lemma_sign_13();
}


/// `n` is a note of at most ten characters in one pair of brackets, none of them a bracket.
pub open spec fn short_note(n: Seq<char>) -> bool {
    exists|open: char, inside: Seq<char>, close: char|
        n == #[trigger] (seq![open] + inside + seq![close]) && inside.len() <= 10 && (exists|k: int|
            0 <= k < "(（[［【〔"@.len() && #[trigger] "(（[［【〔"@[k] == open && ")）]］】〕"@[k] == close)
            && (forall|i: int|
            0 <= i < inside.len() ==> !"(（[［【〔"@.contains(#[trigger] inside[i])
                && !")）]］】〕"@.contains(inside[i]))
}

/// `n` is made of the symbols for music and drawn-out sounds, and of at least one.
pub open spec fn nothing_but_music(n: Seq<char>) -> bool {
    n.len() > 0 && forall|i: int|
        0 <= i < n.len() ==> "♪♬♫〜～~-−ー.。"@.contains(#[trigger] n[i])
}

proof fn lemma_brackets(open: char, close: char)
    ensures
        bracket_pair(open, close) <==> exists|k: int|
            0 <= k < "(（[［【〔"@.len() && #[trigger] "(（[［【〔"@[k] == open && ")）]］】〕"@[k] == close,
        bracket(open) <==> ("(（[［【〔"@.contains(open) || ")）]］】〕"@.contains(open)),
{
    reveal_strlit("(（[［【〔");
    reveal_strlit(")）]］】〕");
    let opens = "(（[［【〔"@;
    let closes = ")）]］】〕"@;
    assert(opens.len() == 6 && closes.len() == 6);
    assert(opens[0] == '(' && closes[0] == ')');
    assert(opens[1] == '（' && closes[1] == '）');
    assert(opens[2] == '[' && closes[2] == ']');
    assert(opens[3] == '［' && closes[3] == '］');
    assert(opens[4] == '【' && closes[4] == '】');
    assert(opens[5] == '〔' && closes[5] == '〕');
    assert(bracket(open) ==> (opens.contains(open) || closes.contains(open)));
    if opens.contains(open) {
        let k = choose|k: int| 0 <= k < opens.len() && opens[k] == open;
        assert(bracket_pair(opens[k], closes[k]));
    }
    if closes.contains(open) {
        let k = choose|k: int| 0 <= k < closes.len() && closes[k] == open;
        assert(bracket_pair(opens[k], closes[k]));
    }
}

proof fn lemma_music(c: char)
    ensures
        music_mark(c) <==> "♪♬♫〜～~-−ー.。"@.contains(c),
{
    reveal_strlit("♪♬♫〜～~-−ー.。");
    let marks = "♪♬♫〜～~-−ー.。"@;
    assert(marks.len() == 11);
    assert(marks[0] == '♪' && marks[1] == '♬' && marks[2] == '♫' && marks[3] == '〜' && marks[4]
        == '～' && marks[5] == '~' && marks[6] == '-' && marks[7] == '−' && marks[8] == 'ー'
        && marks[9] == '.' && marks[10] == '。');
}

/// The notes that stand for a sound are the short ones in brackets and those of music marks.
pub proof fn law_notes_for_sounds(n: Seq<char>)
    ensures
        non_speech_annotation(n) <==> (short_note(n) || nothing_but_music(n)),
{
    assert(only_music(n) <==> nothing_but_music(n)) by {
        assert forall|i: int| 0 <= i < n.len() implies (music_mark(#[trigger] n[i])
            <==> "♪♬♫〜～~-−ー.。"@.contains(n[i])) by {
            lemma_music(n[i]);
        }
        if only_music(n) {
            assert forall|i: int| 0 <= i < n.len() implies "♪♬♫〜～~-−ー.。"@.contains(
                #[trigger] n[i],
            ) by {
                assert(music_mark(n[i]));
            }
        }
        if nothing_but_music(n) {
            assert forall|i: int| 0 <= i < n.len() implies music_mark(#[trigger] n[i]) by {
                assert("♪♬♫〜～~-−ー.。"@.contains(n[i]));
            }
        }
    }
    if bracketed_note(n) {
        let (open, close) = (n.first(), n.last());
        let inside = n.subrange(1, n.len() - 1);
        assert(n =~= seq![open] + inside + seq![close]);
        lemma_brackets(open, close);
        assert forall|i: int| 0 <= i < inside.len() implies !"(（[［【〔"@.contains(
            #[trigger] inside[i],
        ) && !")）]］】〕"@.contains(inside[i]) by {
            assert(inside[i] == n[i + 1]);
            lemma_brackets(inside[i], inside[i]);
        }
        assert(short_note(n));
    }
    if short_note(n) {
        let (open, inside, close) = choose|open: char, inside: Seq<char>, close: char|
            n == #[trigger] (seq![open] + inside + seq![close]) && inside.len() <= 10 && (exists|
                k: int,
            |
                0 <= k < "(（[［【〔"@.len() && #[trigger] "(（[［【〔"@[k] == open && ")）]］】〕"@[k]
                    == close) && (forall|i: int|
                0 <= i < inside.len() ==> !"(（[［【〔"@.contains(#[trigger] inside[i])
                    && !")）]］】〕"@.contains(inside[i]));
        assert(n.first() == open && n.last() == close);
        lemma_brackets(open, close);
        assert forall|i: int| 0 < i < n.len() - 1 implies !bracket(#[trigger] n[i]) by {
            assert(n[i] == inside[i - 1]);
            lemma_brackets(inside[i - 1], inside[i - 1]);
        }
        assert(bracketed_note(n));
    }
}

/// Real speech is kept: a text whose form for comparison is not empty, is none of the stock
/// phrases as a whole, holds none of the sign-offs, and is no note for a sound, is not taken for
/// made up. What is one of these is.
pub proof fn law_real_speech_is_kept(text: Seq<char>)
    ensures
        made_up(normalized(text)) <==> {
            let n = normalized(text);
            ||| n.len() == 0
            ||| stock_phrases().contains(n)
            ||| exists|k: int| 0 <= k < sign_offs().len() && occurs_in(#[trigger] sign_offs()[k], n)
            ||| short_note(n)
            ||| nothing_but_music(n)
        },
{
    law_made_up_forms(normalized(text));
}

/// Of the forms in which texts are compared, exactly these are taken for made up.
pub proof fn law_made_up_forms(n: Seq<char>)
    ensures
        made_up(n) <==> {
            ||| n.len() == 0
            ||| stock_phrases().contains(n)
            ||| exists|k: int| 0 <= k < sign_offs().len() && occurs_in(#[trigger] sign_offs()[k], n)
            ||| short_note(n)
            ||| nothing_but_music(n)
        },
{
    lemma_stock_phrases();
    lemma_sign_offs();
    law_notes_for_sounds(n);
    if stock_phrases().contains(n) {
        let k = choose|k: int| 0 <= k < stock_phrases().len() && stock_phrases()[k] == n;
        assert(n == ascii_lowered(stripped(exact_phrases()[k])));
    }
    if exists|k: int| 0 <= k < sign_offs().len() && occurs_in(#[trigger] sign_offs()[k], n) {
        let k = choose|k: int| 0 <= k < sign_offs().len() && occurs_in(#[trigger] sign_offs()[k], n);
        assert(occurs_in(ascii_lowered(stripped(marker_phrases()[k])), n));
    }
    if exists|i: int|
        0 <= i < exact_phrases().len() && n == ascii_lowered(
            stripped(#[trigger] exact_phrases()[i]),
        ) {
        let i = choose|i: int|
            0 <= i < exact_phrases().len() && n == ascii_lowered(
                stripped(#[trigger] exact_phrases()[i]),
            );
        assert(stock_phrases()[i] == n);
    }
    if exists|i: int|
        0 <= i < marker_phrases().len() && occurs_in(
            ascii_lowered(stripped(#[trigger] marker_phrases()[i])),
            n,
        ) {
        let i = choose|i: int|
            0 <= i < marker_phrases().len() && occurs_in(
                ascii_lowered(stripped(#[trigger] marker_phrases()[i])),
                n,
            );
        assert(occurs_in(sign_offs()[i], n));
    }
}

/// A part of a stock phrase is real speech, unless it is a stock phrase itself or made up for
/// another reason; so is a stock phrase with more said before or after it.
pub proof fn law_only_whole_stock_phrases_count(n: Seq<char>, k: int)
    requires
        0 <= k < stock_phrases().len(),
        n.len() > 0,
        occurs_in(n, stock_phrases()[k]) || occurs_in(stock_phrases()[k], n),
        !stock_phrases().contains(n),
        forall|j: int| 0 <= j < sign_offs().len() ==> !occurs_in(#[trigger] sign_offs()[j], n),
        !short_note(n),
        !nothing_but_music(n),
    ensures
        !made_up(n),
{
    law_made_up_forms(n);
}

} // verus!
