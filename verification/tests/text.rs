use soundboard::paths::{
    extension, file_name, file_stem, final_component, path_extension, path_stem,
};
use soundboard::text::{
    chars_are, chars_of, contains, fields, lines, same_text, scan, split, trim, whitespace, Stop,
};

const SAMPLES: [&str; 14] = [
    "",
    " ",
    "abc",
    "  abc  ",
    "\t a b \n",
    "42\n43\n\n 44 \n",
    "one\ntwo",
    "\n",
    "\n\n",
    "a\u{a0}b\u{2003}c",
    "\u{3000}wide\u{3000}",
    "0\tdevice.one\tmodule\ts16le\tRUNNING",
    "x\u{85}y",
    "trailing\n",
];

#[test]
fn whitespace_is_the_unicode_property() {
    let mut n: u32 = 0;
    while n <= 0x11000 {
        if let Some(c) = char::from_u32(n) {
            assert_eq!(whitespace(c), c.is_whitespace(), "U+{:04X}", n);
        }
        n += 1;
    }
}

#[test]
fn trim_removes_whitespace_at_both_ends() {
    assert_eq!(trim("  abc  "), "abc");
    assert_eq!(trim("\t a b \n"), "a b");
    assert_eq!(trim("   "), "");
    assert_eq!(trim(""), "");
    assert_eq!(trim("\u{3000}wide\u{3000}"), "wide");
    for s in SAMPLES {
        assert_eq!(trim(s), s.trim());
    }
}

#[test]
fn lines_end_at_line_feeds() {
    assert_eq!(lines("one\ntwo"), vec!["one".to_string(), "two".to_string()]);
    assert_eq!(lines("one\ntwo\n"), vec!["one".to_string(), "two".to_string()]);
    assert_eq!(lines(""), Vec::<String>::new());
    assert_eq!(lines("\n"), vec!["".to_string()]);
    assert_eq!(lines("a\n\nb"), vec!["a".to_string(), "".to_string(), "b".to_string()]);
    assert_eq!(lines("a\r\nb"), vec!["a\r".to_string(), "b".to_string()]);
    for s in SAMPLES {
        let want: Vec<String> = s.lines().map(|l| l.to_string()).collect();
        assert_eq!(lines(s), want);
    }
}

#[test]
fn fields_are_the_runs_between_whitespace() {
    assert_eq!(fields("  a  bc\td "), vec!["a".to_string(), "bc".to_string(), "d".to_string()]);
    assert_eq!(fields("   "), Vec::<String>::new());
    for s in SAMPLES {
        let want: Vec<String> = s.split_whitespace().map(|l| l.to_string()).collect();
        assert_eq!(fields(s), want);
    }
}

#[test]
fn split_cuts_at_every_separator() {
    assert_eq!(split("a+b", '+'), vec!["a".to_string(), "b".to_string()]);
    assert_eq!(split("", '+'), vec!["".to_string()]);
    assert_eq!(split("+", '+'), vec!["".to_string(), "".to_string()]);
    assert_eq!(split("a+", '+'), vec!["a".to_string(), "".to_string()]);
    assert_eq!(split("a++b", '+'), vec!["a".to_string(), "".to_string(), "b".to_string()]);
    for s in SAMPLES {
        let want: Vec<String> = s.split('\n').map(|l| l.to_string()).collect();
        assert_eq!(split(s, '\n'), want);
    }
}

#[test]
fn contains_finds_a_text_anywhere() {
    assert!(contains("abcabd", "abd"));
    assert!(contains("abc", ""));
    assert!(contains("", ""));
    assert!(!contains("", "a"));
    assert!(!contains("ab", "abc"));
    assert!(!contains("aaab", "aba"));
    assert!(contains("12\tSoundboardMic\tmodule", "SoundboardMic"));
    assert!(!contains("12\tSoundboard\tmodule", "SoundboardMic"));
    for hay in SAMPLES {
        for needle in SAMPLES {
            assert_eq!(contains(hay, needle), hay.contains(needle));
        }
    }
}

#[test]
fn texts_compare_by_their_characters() {
    assert!(same_text("abc", "abc"));
    assert!(!same_text("abc", "abd"));
    assert!(!same_text("abc", "ab"));
    assert!(same_text("", ""));
    assert!(chars_are(&vec!['h', 'i'], "hi"));
    assert!(!chars_are(&vec!['h', 'i'], "ho"));
    assert_eq!(chars_of("h\u{e9}!"), vec!['h', '\u{e9}', '!']);
}

#[test]
fn scan_stops_where_it_is_told() {
    let chars = chars_of("ab cd+e");
    assert_eq!(scan(&chars, 0, Stop::AtWhitespace), 2);
    assert_eq!(scan(&chars, 2, Stop::AtInk), 3);
    assert_eq!(scan(&chars, 0, Stop::At('+')), 5);
    assert_eq!(scan(&chars, 6, Stop::At('+')), 7);
    assert_eq!(scan(&chars, 7, Stop::At('+')), 7);
}

#[test]
fn file_names_follow_the_last_slash() {
    assert_eq!(file_name("/home/me/sounds/a.mp3"), "a.mp3");
    assert_eq!(file_name("a.mp3"), "a.mp3");
    assert_eq!(file_name("dir/"), "");
    assert_eq!(file_name(""), "");
    assert_eq!(file_name("a/b.c/d"), "d");
}

#[test]
fn stems_and_extensions_divide_at_the_last_dot() {
    assert_eq!(extension("a.mp3"), Some("mp3"));
    assert_eq!(file_stem("a.mp3"), "a");
    assert_eq!(extension("a.b.c"), Some("c"));
    assert_eq!(file_stem("a.b.c"), "a.b");
    assert_eq!(extension("noext"), None);
    assert_eq!(file_stem("noext"), "noext");
    assert_eq!(extension(".hidden"), None);
    assert_eq!(file_stem(".hidden"), ".hidden");
    assert_eq!(extension("a."), Some(""));
    assert_eq!(file_stem("a."), "a");
    assert_eq!(extension(".."), None);
    assert_eq!(file_stem(".."), "..");
    assert_eq!(extension("..."), Some(""));
    assert_eq!(extension(""), None);
    assert_eq!(file_stem(""), "");
}

#[test]
fn stems_and_extensions_agree_with_the_path_type() {
    let names = ["a.mp3", "a.b.c", "noext", ".hidden", "a.", ".a.b", "x.WAV", "...", "a..b"];
    for name in names {
        let path = std::path::Path::new(name);
        let want_ext = path.extension().map(|e| e.to_string_lossy().to_string());
        let want_stem = path.file_stem().unwrap_or_default().to_string_lossy().to_string();
        assert_eq!(extension(name).map(|e| e.to_string()), want_ext, "{}", name);
        assert_eq!(file_stem(name), want_stem, "{}", name);
    }
}

#[test]
fn final_components_pass_over_slashes_and_single_dots() {
    assert_eq!(final_component("/home/me/a.mp3"), Some("a.mp3"));
    assert_eq!(final_component("sounds/"), Some("sounds"));
    assert_eq!(final_component("sounds///"), Some("sounds"));
    assert_eq!(final_component("sounds/."), Some("sounds"));
    assert_eq!(final_component("sounds/./"), Some("sounds"));
    assert_eq!(final_component("a/./b"), Some("b"));
    assert_eq!(final_component("a/.."), None);
    assert_eq!(final_component(".."), None);
    assert_eq!(final_component("."), None);
    assert_eq!(final_component("./"), None);
    assert_eq!(final_component("/"), None);
    assert_eq!(final_component("//"), None);
    assert_eq!(final_component(""), None);
    assert_eq!(final_component("..."), Some("..."));
    assert_eq!(final_component(".hidden"), Some(".hidden"));
    assert_eq!(final_component("a/..b"), Some("..b"));
}

#[test]
fn path_stems_and_extensions() {
    assert_eq!(path_stem("/x/y/z.tar.gz"), "z.tar");
    assert_eq!(path_extension("/x/y/z.tar.gz"), Some("gz"));
    assert_eq!(path_stem("sounds/"), "sounds");
    assert_eq!(path_extension("sounds/"), None);
    assert_eq!(path_stem("a/.."), "");
    assert_eq!(path_extension("a/.."), None);
    assert_eq!(path_stem("clips/boom.wav/"), "boom");
    assert_eq!(path_extension("clips/boom.wav/."), Some("wav"));
    assert_eq!(path_stem(""), "");
}

#[test]
fn path_stems_and_extensions_agree_with_the_path_type() {
    let paths = [
        "",
        "/",
        "//",
        ".",
        "..",
        "./",
        "../",
        "./.",
        "a",
        "a/",
        "a//",
        "a/.",
        "a/./",
        "a/./.",
        "a/..",
        "a/../",
        "a/b",
        "/a/b.c",
        "/a/b.c/",
        "/a/b.c/.",
        "/a/.b",
        "/a/.b.c",
        "/a/b.",
        "/a/b..c",
        "a/...",
        "a/..b",
        "./a.mp3",
        "/.",
        "/..",
        "sounds/clip one.WAV",
        "x/y.tar.gz//./",
        ".a/.",
        "a.b/c/..",
    ];
    for text in paths {
        let path = std::path::Path::new(text);
        let want_name = path.file_name().map(|n| n.to_string_lossy().to_string());
        let want_stem = path.file_stem().unwrap_or_default().to_string_lossy().to_string();
        let want_ext = path.extension().map(|e| e.to_string_lossy().to_string());
        assert_eq!(final_component(text).map(|n| n.to_string()), want_name, "{:?}", text);
        assert_eq!(path_stem(text), want_stem, "{:?}", text);
        assert_eq!(path_extension(text).map(|e| e.to_string()), want_ext, "{:?}", text);
    }
}
