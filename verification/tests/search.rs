use ib_everything_ext::app::App;
use ib_everything_ext::config::Config;
use ib_everything_ext::search::report_match;
use ib_everything_ext::search::search_compile;
use ib_everything_ext::search::search_exec;
use ib_everything_ext::search::search_exec_text;
use ib_everything_ext::search::search_free;
use ib_everything_ext::search::Regmatch;
use ib_everything_ext::search::MATCH_FOUND;
use ib_everything_ext::search::MATCH_WRITTEN;
use ib_everything_ext::search::NO_MATCH;

const UNTOUCHED: Regmatch = Regmatch { rm_so: -7, rm_eo: -9 };

fn app_of(config: Config) -> App<()> {
    App::new(Some(config), None, None, None)
}

fn default_app() -> App<()> {
    app_of(Config::default())
}

#[test]
fn result_codes() {
    assert_eq!(MATCH_WRITTEN, 1);
    assert_eq!(MATCH_FOUND, 0);
    assert_eq!(NO_MATCH, -1);
}

#[test]
fn compile_then_free() {
    let app = default_app();
    let engine = search_compile(&app, b"abc", 0, 0);
    search_free(engine);
}

#[test]
fn exec_writes_the_offsets() {
    let app = default_app();
    let engine = search_compile(&app, b"abc", 0, 0);
    let mut slot = UNTOUCHED;
    assert_eq!(search_exec(&engine, b"xabcx", 1, &mut slot, 0), 1);
    assert_eq!(slot, Regmatch { rm_so: 1, rm_eo: 4 });
    search_free(engine);
}

#[test]
fn exec_without_a_match() {
    let app = default_app();
    let engine = search_compile(&app, b"abc", 0, 0);
    let mut slot = UNTOUCHED;
    assert_eq!(search_exec(&engine, b"xyz", 1, &mut slot, 0), -1);
    assert_eq!(slot, UNTOUCHED);
    search_free(engine);
}

#[test]
fn exec_without_a_slot() {
    let app = default_app();
    let engine = search_compile(&app, b"abc", 0, 0);
    let mut slot = UNTOUCHED;
    assert_eq!(search_exec(&engine, b"xabcx", 0, &mut slot, 0), 0);
    assert_eq!(slot, UNTOUCHED);
    search_free(engine);
}

#[test]
fn exec_with_many_slots_writes_the_first() {
    let app = default_app();
    let engine = search_compile(&app, b"abc", 0, 0);
    let mut slot = UNTOUCHED;
    assert_eq!(search_exec(&engine, b"abcabc", 8, &mut slot, 0), 1);
    assert_eq!(slot, Regmatch { rm_so: 0, rm_eo: 3 });
}

#[test]
fn flags_are_not_read() {
    let app = default_app();
    let plain = search_compile(&app, b"abc", 0, 0);
    let flagged = search_compile(&app, b"abc", 0xffff_ffff, 0x1234);
    for haystack in [&b"xabcx"[..], &b"xyz"[..], &b"ABC"[..]] {
        let mut a = UNTOUCHED;
        let mut b = UNTOUCHED;
        let code = search_exec(&plain, haystack, 1, &mut a, 0);
        assert_eq!(search_exec(&flagged, haystack, 1, &mut b, 0xffff_ffff), code);
        assert_eq!(a, b);
    }
}

#[test]
fn exec_is_repeatable_over_many_haystacks() {
    let app = default_app();
    let engine = search_compile(&app, b"abc", 0, 0);
    let mut first = Vec::new();
    for i in 0..24usize {
        let haystack = format!("{}abc{}", "x".repeat(i), "y".repeat(24 - i));
        let mut slot = UNTOUCHED;
        let code = search_exec(&engine, haystack.as_bytes(), 1, &mut slot, 0);
        assert_eq!(code, 1);
        assert_eq!(slot, Regmatch { rm_so: i as i32, rm_eo: i as i32 + 3 });
        first.push((code, slot));
    }
    for round in 0..3 {
        for i in (0..24usize).rev() {
            let haystack = format!("{}abc{}", "x".repeat(i), "y".repeat(24 - i));
            let mut slot = UNTOUCHED;
            let code = search_exec(&engine, haystack.as_bytes(), 1, &mut slot, round);
            assert_eq!((code, slot), first[i]);
        }
    }
}

#[test]
fn haystack_may_hold_zero_bytes() {
    let app = default_app();
    let engine = search_compile(&app, b"abc", 0, 0);
    let mut slot = UNTOUCHED;
    assert_eq!(search_exec(&engine, b"a\0\0abc\0", 1, &mut slot, 0), 1);
    assert_eq!(slot, Regmatch { rm_so: 3, rm_eo: 6 });
}

#[test]
fn empty_haystack() {
    let app = default_app();
    let engine = search_compile(&app, b"abc", 0, 0);
    let mut slot = UNTOUCHED;
    assert_eq!(search_exec(&engine, b"", 1, &mut slot, 0), -1);
    assert_eq!(slot, UNTOUCHED);
}

#[test]
fn empty_pattern_matches_at_the_start() {
    let app = default_app();
    let engine = search_compile(&app, b"", 0, 0);
    let mut slot = UNTOUCHED;
    assert_eq!(search_exec(&engine, b"xyz", 1, &mut slot, 0), 1);
    assert_eq!(slot, Regmatch { rm_so: 0, rm_eo: 0 });
}

#[test]
fn malformed_haystack_is_searched_as_repaired() {
    let app = default_app();
    let engine = search_compile(&app, b"abc", 0, 0);
    let mut slot = UNTOUCHED;
    // The byte 0xff is read as U+FFFD, which takes three bytes.
    assert_eq!(search_exec(&engine, b"x\xffabc", 1, &mut slot, 0), 1);
    assert_eq!(slot, Regmatch { rm_so: 4, rm_eo: 7 });

    let mut slot = UNTOUCHED;
    assert_eq!(search_exec(&engine, b"\xff\xfe\xfd", 1, &mut slot, 0), -1);
    assert_eq!(slot, UNTOUCHED);
}

#[test]
fn malformed_pattern_is_compiled_as_repaired() {
    let app = default_app();
    let engine = search_compile(&app, b"a\xffb", 0, 0);
    let mut slot = UNTOUCHED;
    assert_eq!(search_exec_text(&engine, "xa\u{fffd}bx", 1, &mut slot, 0), 1);
    assert_eq!(slot, Regmatch { rm_so: 1, rm_eo: 6 });
    let mut slot = UNTOUCHED;
    assert_eq!(search_exec_text(&engine, "xabx", 1, &mut slot, 0), -1);
    assert_eq!(slot, UNTOUCHED);
}

#[test]
fn text_and_bytes_agree_on_text() {
    let app = default_app();
    let engine = search_compile(&app, "搜索".as_bytes(), 0, 0);
    let haystack = "拼音搜索Everything";
    let mut a = UNTOUCHED;
    let mut b = UNTOUCHED;
    assert_eq!(search_exec_text(&engine, haystack, 1, &mut a, 0), 1);
    assert_eq!(search_exec(&engine, haystack.as_bytes(), 1, &mut b, 0), 1);
    assert_eq!(a, Regmatch { rm_so: 6, rm_eo: 12 });
    assert_eq!(a, b);
}

#[test]
fn pinyin_pattern_matches_hanzi() {
    let app = default_app();
    let engine = search_compile(&app, b"pysousuoeve", 0, 0);
    let mut slot = UNTOUCHED;
    assert_eq!(search_exec(&engine, "拼音搜索Everything".as_bytes(), 1, &mut slot, 0), 1);
    assert_eq!(slot, Regmatch { rm_so: 0, rm_eo: 15 });
}

#[test]
fn pinyin_off_matches_letters_only() {
    let mut config = Config::default();
    config.pinyin_search.enable = false;
    let app = app_of(config);
    let engine = search_compile(&app, b"pysousuoeve", 0, 0);
    let mut slot = UNTOUCHED;
    assert_eq!(search_exec(&engine, "拼音搜索Everything".as_bytes(), 1, &mut slot, 0), -1);
    assert_eq!(slot, UNTOUCHED);
    let mut slot = UNTOUCHED;
    assert_eq!(search_exec(&engine, b"a pysousuoeve b", 1, &mut slot, 0), 1);
    assert_eq!(slot, Regmatch { rm_so: 2, rm_eo: 13 });
}

#[test]
fn pinyin_notations_follow_the_settings() {
    let mut config = Config::default();
    config.pinyin_search.initial_letter = false;
    let app = app_of(config);
    let letters = search_compile(&app, b"pyss", 0, 0);
    let full = search_compile(&app, b"pinyinsousuo", 0, 0);
    let mut slot = UNTOUCHED;
    assert_eq!(search_exec(&letters, "拼音搜索".as_bytes(), 1, &mut slot, 0), -1);
    assert_eq!(search_exec(&full, "拼音搜索".as_bytes(), 1, &mut slot, 0), 1);
    assert_eq!(slot, Regmatch { rm_so: 0, rm_eo: 12 });

    let app = default_app();
    let letters = search_compile(&app, b"pyss", 0, 0);
    let mut slot = UNTOUCHED;
    assert_eq!(search_exec(&letters, "拼音搜索".as_bytes(), 1, &mut slot, 0), 1);
    assert_eq!(slot, Regmatch { rm_so: 0, rm_eo: 12 });
}

#[test]
fn romaji_pattern_matches_kana_where_it_is_on() {
    let mut config = Config::default();
    config.romaji_search.enable = true;
    let app = app_of(config);
    let engine = search_compile(&app, b"ohayo", 0, 0);
    let mut slot = UNTOUCHED;
    assert_eq!(search_exec(&engine, "おはよう".as_bytes(), 1, &mut slot, 0), 1);
    assert_eq!(slot, Regmatch { rm_so: 0, rm_eo: 9 });

    let app = default_app();
    let engine = search_compile(&app, b"ohayo", 0, 0);
    let mut slot = UNTOUCHED;
    assert_eq!(search_exec(&engine, "おはよう".as_bytes(), 1, &mut slot, 0), -1);
    assert_eq!(slot, UNTOUCHED);
}

#[test]
fn letters_match_without_regard_to_case() {
    let app = default_app();
    let engine = search_compile(&app, b"abc", 0, 0);
    let mut slot = UNTOUCHED;
    assert_eq!(search_exec(&engine, b"xABCx", 1, &mut slot, 0), 1);
    assert_eq!(slot, Regmatch { rm_so: 1, rm_eo: 4 });
}

#[test]
fn engine_find_gives_the_span() {
    let app = default_app();
    let engine = app.factory().compile("abc");
    assert_eq!(engine.find("xabcx"), Some((1, 4)));
    assert_eq!(engine.find("xyz"), None);
}

#[test]
fn report_of_a_match() {
    let mut slot = UNTOUCHED;
    assert_eq!(report_match(Some((1, 4)), 1, &mut slot), 1);
    assert_eq!(slot, Regmatch { rm_so: 1, rm_eo: 4 });
}

#[test]
fn report_without_a_slot() {
    let mut slot = UNTOUCHED;
    assert_eq!(report_match(Some((1, 4)), 0, &mut slot), 0);
    assert_eq!(slot, UNTOUCHED);
}

#[test]
fn report_of_no_match() {
    let mut slot = UNTOUCHED;
    assert_eq!(report_match(None, 3, &mut slot), -1);
    assert_eq!(slot, UNTOUCHED);
    assert_eq!(report_match(None, 0, &mut slot), -1);
    assert_eq!(slot, UNTOUCHED);
}

#[test]
fn report_keeps_the_low_32_bits() {
    let mut slot = UNTOUCHED;
    assert_eq!(report_match(Some((0x7fff_ffff, 0x7fff_ffff)), 1, &mut slot), 1);
    assert_eq!(slot, Regmatch { rm_so: i32::MAX, rm_eo: i32::MAX });
    assert_eq!(report_match(Some((0x8000_0000, 0xffff_ffff)), 1, &mut slot), 1);
    assert_eq!(slot, Regmatch { rm_so: i32::MIN, rm_eo: -1 });
}

#[test]
fn pattern_whose_fold_changes_width_is_compiled() {
    // U+212A KELVIN SIGN takes three bytes and folds to "k", which takes one.
    let app = default_app();
    let engine = search_compile(&app, "\u{212a}ab".as_bytes(), 0, 0);
    let mut slot = UNTOUCHED;
    assert_eq!(search_exec(&engine, b"xkabx", 1, &mut slot, 0), 1);
    assert_eq!(slot, Regmatch { rm_so: 1, rm_eo: 4 });
    let mut slot = UNTOUCHED;
    assert_eq!(search_exec(&engine, b"xKABx", 1, &mut slot, 0), 1);
    assert_eq!(slot, Regmatch { rm_so: 1, rm_eo: 4 });
    let mut slot = UNTOUCHED;
    assert_eq!(search_exec(&engine, "x\u{212a}abx".as_bytes(), 1, &mut slot, 0), 1);
    assert_eq!(slot, Regmatch { rm_so: 1, rm_eo: 6 });
    let mut slot = UNTOUCHED;
    assert_eq!(search_exec(&engine, b"xabx", 1, &mut slot, 0), -1);
    assert_eq!(slot, UNTOUCHED);
    search_free(engine);
}

#[test]
fn patterns_with_other_such_letters_are_compiled() {
    let app = default_app();
    for (pattern, haystack, span) in [
        ("\u{212a}a", "ka", (0, 2)),
        ("\u{17f}ab", "xsab", (1, 4)),
        ("a\u{1e9e}b", "a\u{df}b", (0, 4)),
        ("\u{2126}\u{212b}\u{23a}x", "\u{3c9}\u{e5}\u{2c65}x", (0, 8)),
        ("\u{212a}\u{212a}\u{212a}", "kkk", (0, 3)),
    ] {
        let engine = search_compile(&app, pattern.as_bytes(), 0, 0);
        let mut slot = UNTOUCHED;
        assert_eq!(search_exec(&engine, haystack.as_bytes(), 1, &mut slot, 0), 1);
        assert_eq!(slot, Regmatch { rm_so: span.0, rm_eo: span.1 });
    }
}

#[test]
fn such_a_letter_at_the_end_is_kept_as_written() {
    let app = default_app();
    let engine = search_compile(&app, "ab\u{212a}".as_bytes(), 0, 0);
    let mut slot = UNTOUCHED;
    assert_eq!(search_exec(&engine, "xab\u{212a}y".as_bytes(), 1, &mut slot, 0), 1);
    assert_eq!(slot, Regmatch { rm_so: 1, rm_eo: 6 });
    // The engine's own rule for a haystack of ASCII alone: a pattern that
    // holds other letters is not looked for in it.
    let mut slot = UNTOUCHED;
    assert_eq!(search_exec(&engine, b"xabk", 1, &mut slot, 0), -1);
    assert_eq!(slot, UNTOUCHED);
}

#[test]
fn a_long_pattern_is_compiled_up_to_the_limit() {
    let app = default_app();
    let haystack = "a".repeat(1024);
    let long = format!("{}b", "a".repeat(1024));
    let engine = search_compile(&app, long.as_bytes(), 0, 0);
    let mut slot = UNTOUCHED;
    assert_eq!(search_exec(&engine, haystack.as_bytes(), 1, &mut slot, 0), 1);
    assert_eq!(slot, Regmatch { rm_so: 0, rm_eo: 1024 });

    let whole = format!("{}b", "a".repeat(1023));
    let engine = search_compile(&app, whole.as_bytes(), 0, 0);
    let mut slot = UNTOUCHED;
    assert_eq!(search_exec(&engine, haystack.as_bytes(), 1, &mut slot, 0), -1);
    assert_eq!(slot, UNTOUCHED);

    let huge = "ab".repeat(10_000_000);
    let engine = search_compile(&app, huge.as_bytes(), 0, 0);
    let mut slot = UNTOUCHED;
    assert_eq!(search_exec(&engine, "xab".repeat(600).as_bytes(), 1, &mut slot, 0), -1);
    assert_eq!(search_exec(&engine, huge.as_bytes(), 1, &mut slot, 0), 1);
    assert_eq!(slot, Regmatch { rm_so: 0, rm_eo: 1024 });
    search_free(engine);
}
