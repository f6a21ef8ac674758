use flow::case::to_ascii_uppercase;
use flow::hallucination::{
    is_hallucination, is_non_speech_annotation, is_normalized_hallucination, normalize_for_match,
};
use flow::text::{
    chars_of, contains_text, decimal_text, is_blank, is_whitespace, same_text, split_text, text_of,
    trim,
};

#[test]
fn filters_video_signoff_variants() {
    for text in [
        "ご視聴ありがとうございました。",
        "最後まで視聴してくださって ありがとうございました。",
        "最後までご視聴いただきありがとうございます",
        "チャンネル登録と高評価をお願いします",
        "字幕をご覧いただきまして、ご視聴ありがとうございました。",
        "Thanks for watching!",
        "Subtitles by the Amara.org community",
        "子供のお話を聞いてみると 子供にとっての気持ちがいいです",
    ] {
        assert!(is_hallucination(text), "should be filtered: {text}");
    }
}

#[test]
fn ambiguous_prefixed_signoffs_are_knowingly_kept() {
    assert!(!is_hallucination("本日もご覧いただきありがとうございました！"));
    // The bare phrase, with no prefix, is still filtered.
    assert!(is_hallucination("ご覧いただきありがとうございました"));
}

#[test]
fn filters_non_speech_annotations() {
    for text in ["(音楽)", "［拍手］", "【BGM】", "♪～♪", "...", "  "] {
        assert!(is_hallucination(text), "should be filtered: {text}");
    }
}

#[test]
fn filters_echoed_prompt_and_bare_pleasantries() {
    for text in [
        "音声入力による文章の書き取りです。",
        "ありがとうございました",
        "Thank you.",
    ] {
        assert!(is_hallucination(text), "should be filtered: {text}");
    }
}

#[test]
fn keeps_real_dictation() {
    for text in [
        "今日はいい天気ですね。少し散歩に行こうと思います。",
        "明日の会議の資料をまとめておいてもらえますか。",
        "先ほどの件、ありがとうございました。助かりました。",
        "字幕の位置を少し下げたいので調整をお願いします",
        "この動画の音量を上げてください",
        "Please review the pull request when you get a chance.",
        "ご覧のとおり、テストはすべて通っています",
        "資料をご覧いただきありがとうございます。",
        "デモ動画を視聴いただき、ご意見をお聞かせください。",
        "添付を最後までご覧ください。",
        "動画を最後まで視聴した人の割合を教えて",
        "アプリストアで高評価をお願いします",
        "子供のお話を聞いてみると面白いですね",
        "このチャンネル登録しておいて",
        "字幕作成ツールを探しています",
        "The subtitles by default are turned off.",
        "Please subscribe to the newsletter before Friday.",
        "(笑)そうですね、それでいきましょう(かっこ)",
        "<div>を使ってレイアウトしてください</div>",
        "(これは重要な補足事項です)",
    ] {
        assert!(!is_hallucination(text), "should be kept: {text}");
    }
}

#[test]
fn normal_form_is_lowered_and_stripped() {
    assert_eq!(normalize_for_match(" Thank  YOU. "), "thankyou");
    assert_eq!(normalize_for_match("ありがとう\u{3000}ございます。！？"), "ありがとうございます");
    assert_eq!(normalize_for_match("a.b.!?"), "a.b");
    assert_eq!(normalize_for_match("ÄÖÜ"), "äöü");
    assert_eq!(normalize_for_match(""), "");
}

#[test]
fn white_space_and_trailing_marks_make_no_difference() {
    for text in ["ありがとうございました", "Please subscribe.", "資料を見てください", "amara.org"] {
        let expected = is_hallucination(text);
        assert_eq!(is_hallucination(&format!("{text} 。\u{3000}!?")), expected);
        let spaced: String = text.chars().flat_map(|c| [c, '\u{2003}']).collect();
        assert_eq!(is_hallucination(&spaced), expected);
        assert_eq!(normalize_for_match(&spaced), normalize_for_match(text));
    }
}

#[test]
fn markers_are_caught_in_any_company() {
    for marker in ["視聴ありがとう", "字幕提供", "thank you for watching", "amara.org"] {
        for (before, after) in [("", ""), ("Σ", "Σ"), ("えーと、", "でした。"), ("ÄΣ ", "...")] {
            assert!(is_hallucination(&format!("{before}{marker}{after}")));
        }
    }
    assert!(is_hallucination("well, THANK You for WATCHING this"));
}

#[test]
fn exact_phrases_count_only_as_a_whole() {
    assert!(is_hallucination("YOU"));
    assert!(is_hallucination("this is a voice dictation transcription"));
    assert!(!is_hallucination("you know"));
    assert!(is_normalized_hallucination("goodbye"));
    assert!(!is_normalized_hallucination("goodbyes"));
    assert!(is_normalized_hallucination(""));
}

#[test]
fn annotations_are_short_and_hold_no_bracket() {
    assert!(is_non_speech_annotation("()"));
    assert!(is_non_speech_annotation("[0123456789]"));
    assert!(!is_non_speech_annotation("[01234567890]"));
    assert!(!is_non_speech_annotation("(a]"));
    assert!(!is_non_speech_annotation("(a(b)"));
    assert!(!is_non_speech_annotation("<a>"));
    assert!(!is_non_speech_annotation("("));
    assert!(!is_non_speech_annotation(""));
    assert!(is_non_speech_annotation("♬~ー"));
    assert!(!is_non_speech_annotation("♬a"));
}

#[test]
fn white_space_is_that_of_unicode() {
    for n in 0..=0x10_ffffu32 {
        if let Some(c) = char::from_u32(n) {
            assert_eq!(is_whitespace(c), c.is_whitespace(), "{n:x}");
        }
    }
}

fn in_plain_case(c: char) -> bool {
    c.is_ascii()
        || ('\u{3000}'..='\u{30ff}').contains(&c)
        || ('\u{4e00}'..='\u{9fff}').contains(&c)
        || ('\u{ff01}'..='\u{ff20}').contains(&c)
        || ('\u{ff3b}'..='\u{ff40}').contains(&c)
        || ('\u{ff5b}'..='\u{ff65}').contains(&c)
        || c == '\u{2212}'
        || ('\u{266a}'..='\u{266c}').contains(&c)
}

fn is_letterless(c: char) -> bool {
    c.is_whitespace() || (in_plain_case(c) && !c.is_ascii_alphabetic())
}

#[test]
fn lower_case_is_settled_and_brings_nothing_in() {
    for n in 0..=0x10_ffffu32 {
        let Some(c) = char::from_u32(n) else {
            continue;
        };
        for text in [c.to_string(), format!("A{c}"), format!("{c}Z"), format!("aΣ{c}Σ")] {
            let lowered = text.to_lowercase();
            assert!(!lowered.is_empty());
            assert_eq!(lowered.to_lowercase(), lowered, "{n:x}");
            assert_eq!(text.to_ascii_lowercase().to_lowercase(), lowered, "{n:x}");
            assert!(!lowered.contains(|x: char| x.is_ascii_uppercase()), "{n:x}");
            for x in lowered.chars().filter(|x| is_letterless(*x)) {
                assert!(text.contains(x), "{n:x}");
            }
            let last = lowered.chars().last().unwrap();
            assert!(!is_letterless(last) || text.ends_with(last), "{n:x}");
        }
    }
    assert_eq!("".to_lowercase(), "");
}

#[test]
fn a_normal_form_is_normal() {
    for text in ["Thank you. ", "ΑΣ ΟΔΟΣ!", "İ。", " . . ", "♪～♪", "...x!?", "ẞ\u{2003}K"] {
        let once = normalize_for_match(text);
        assert_eq!(normalize_for_match(&once), once, "{text}");
        assert!(!once.contains(char::is_whitespace), "{text}");
        assert!(!once.ends_with(['.', '!', '?', '。', '！', '？']), "{text}");
    }
}

#[test]
fn letter_case_makes_no_difference_beside_other_letters() {
    for text in ["Thank you for watching ΑΣ", "ÄÖ Subscribe to my channel", "Ünd you", "ΟΔΟΣ"] {
        let lower = text.to_ascii_lowercase();
        let upper = text.to_ascii_uppercase();
        assert_eq!(normalize_for_match(&lower), normalize_for_match(&upper));
        assert_eq!(is_hallucination(&lower), is_hallucination(&upper));
    }
}

#[test]
fn plain_characters_keep_all_but_ascii_capitals() {
    let plain: String = (0..=0xffffu32).filter_map(char::from_u32).filter(|c| in_plain_case(*c)).collect();
    let lowered: String = plain.chars().map(|c| c.to_ascii_lowercase()).collect();
    assert_eq!(plain.to_lowercase(), lowered);
    for around in ["Σ", "ΑΣ", "Σ Σ", "İ", "ß"] {
        assert!(format!("{around}{plain}{around}").to_lowercase().contains(&lowered));
    }
    for n in 0..128u8 {
        let c = n as char;
        assert_eq!(c.to_uppercase().to_string(), c.to_ascii_uppercase().to_string());
    }
}

#[test]
fn small_text_tools() {
    assert_eq!(chars_of("aあ"), vec!['a', 'あ']);
    assert_eq!(text_of(&vec!['a', 'あ']), "aあ");
    assert!(same_text("aあ", "aあ") && !same_text("a", "ab"));
    assert!(contains_text("abc", "") && contains_text("abc", "bc") && !contains_text("abc", "ac"));
    assert!(!contains_text("a", "ab"));
    assert_eq!(trim(" \t a b\u{3000}"), "a b");
    assert_eq!(trim("  "), "");
    assert!(is_blank(" \n") && is_blank("") && !is_blank(" x "));
    assert_eq!(split_text("a++b", '+'), vec!["a", "", "b"]);
    assert_eq!(split_text("", '+'), vec![""]);
    assert_eq!(split_text("x+", '+').join("+"), "x+");
    assert_eq!(decimal_text(0), "0");
    assert_eq!(decimal_text(u64::MAX), u64::MAX.to_string());
    assert_eq!(to_ascii_uppercase("f5ß"), "F5ß");
}
