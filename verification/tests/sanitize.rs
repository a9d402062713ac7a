use keyroost::sanitize::{
    is_broken_pipe_panic, is_spoofing_char, is_white_space, sanitize_multiline, sanitize_terminal, trim, trim_line_end,
    trim_one_newline,
};

#[test]
fn sanitize_terminal_flattens_all_control_chars() {
    let dirty = "a\x1b[31mb\x1b]0;t\x07c\x7fd\u{9b}e";
    let clean = sanitize_terminal(dirty);
    assert!(!clean.chars().any(|c| c.is_control()));
    assert_eq!(clean.chars().count(), dirty.chars().count());
    assert!(clean.starts_with("a "));
}

#[test]
fn sanitize_multiline_keeps_newline_tab_but_strips_escapes() {
    let dirty = "line1\n\tcol\x1b[2Jx\r";
    let clean = sanitize_multiline(dirty);
    assert!(clean.contains('\n'), "newline preserved");
    assert!(clean.contains('\t'), "tab preserved");
    assert!(!clean.contains('\x1b'), "ESC flattened");
    assert!(!clean.contains('\r'), "other control (CR) flattened");
}

#[test]
fn sanitize_terminal_neutralizes_all_hostile_chars() {
    for c in [
        '\u{001B}', '\u{061C}', '\u{200B}', '\u{202E}', '\u{2069}', '\u{FEFF}', '\u{2028}', '\u{2029}', '\u{2060}',
        '\u{00AD}', '\u{180E}', '\u{E007F}',
    ] {
        let s = sanitize_terminal(&format!("x{c}y"));
        assert!(
            !s.chars().any(|ch| ch == c),
            "U+{:04X} survived sanitize_terminal",
            c as u32
        );
        assert_eq!(s.chars().count(), 3, "length must be preserved");
    }
    let line = sanitize_terminal("app:acct\u{2028}injected");
    assert!(!line.contains('\u{2028}'));
    assert!(!line.contains('\n'));
}

#[test]
fn sanitize_flattens_bidi_and_zero_width_format_chars() {
    let dirty = "ser\u{202E}321\u{2066}x\u{200B}y\u{061C}z\u{FEFF}";
    for clean in [sanitize_terminal(dirty), sanitize_multiline(dirty)] {
        for hostile in ['\u{202E}', '\u{2066}', '\u{200B}', '\u{061C}', '\u{FEFF}'] {
            assert!(!clean.contains(hostile), "bidi/ZW flattened");
        }
        assert!(!clean.chars().any(|c| c.is_control()));
        assert_eq!(clean.chars().count(), dirty.chars().count());
    }
    assert_eq!(sanitize_terminal("Ĺéttèrs 123"), "Ĺéttèrs 123");
}

#[test]
fn broken_pipe_panic_detection() {
    assert!(is_broken_pipe_panic(
        "failed printing to stdout: Broken pipe (os error 32)"
    ));
    assert!(is_broken_pipe_panic(
        "failed to write completion file: Os { code: 32, kind: BrokenPipe, message: \"Broken pipe\" }"
    ));
    assert!(is_broken_pipe_panic(
        "failed printing to stdout: Rohrbruch (os error 32)"
    ));
    assert!(is_broken_pipe_panic(
        "failed to write completion file: Os { code: 32, kind: BrokenPipe, message: \"Rohrbruch\" }"
    ));
    assert!(!is_broken_pipe_panic(
        "failed printing to stdout: No space left on device (os error 28)"
    ));
    assert!(!is_broken_pipe_panic(
        "index out of bounds: the len is 3 but the index is 5"
    ));
}

/// Texts that mix every low character, and some hostile ones, with letters.
fn hostile_texts() -> Vec<String> {
    let mut all = vec![String::new()];
    let salt = ['\x1b', '\u{202E}', '\u{200B}', '\u{FEFF}', '\n', '\t'];
    for n in (0u32..0x3000).chain(0xE000..0xE100).chain(0xFE00..0x10000).chain(0xE0000..0xE0200) {
        if let Some(c) = char::from_u32(n) {
            let s = salt[n as usize % salt.len()];
            all.push(format!("{s}a{c}{s}b{c}"));
        }
    }
    all
}

#[test]
fn sanitize_terminal_output_is_always_inert() {
    for s in hostile_texts() {
        let out = sanitize_terminal(&s);
        assert!(!out.chars().any(is_spoofing_char));
        assert_eq!(out.chars().count(), s.chars().count());
        for (o, i) in out.chars().zip(s.chars()) {
            if is_spoofing_char(i) {
                assert_eq!(o, ' ');
            } else {
                assert_eq!(o, i);
            }
        }
        assert_eq!(sanitize_terminal(&out), out);
    }
}

#[test]
fn sanitize_multiline_keeps_only_newline_and_tab() {
    for s in hostile_texts() {
        let out = sanitize_multiline(&s);
        assert!(!out.chars().any(|c| is_spoofing_char(c) && c != '\n' && c != '\t'));
        assert_eq!(out.chars().count(), s.chars().count());
        for (o, i) in out.chars().zip(s.chars()) {
            if i == '\n' || i == '\t' {
                assert_eq!(o, i);
            } else if is_spoofing_char(i) {
                assert_eq!(o, ' ');
            } else {
                assert_eq!(o, i);
            }
        }
    }
}

#[test]
fn every_control_character_is_a_spoofing_one() {
    for n in 0u32..0x110000 {
        if let Some(c) = char::from_u32(n) {
            if c.is_control() {
                assert!(is_spoofing_char(c), "U+{n:04X}");
            }
            assert_eq!(is_white_space(c), c.is_whitespace(), "U+{n:04X}");
        }
    }
}

#[test]
fn white_space_is_trimmed_as_a_line_needs_it() {
    for s in ["", " ", " a b\t", "\u{a0}x\u{3000}", "none", "\n\nx\n"] {
        assert_eq!(trim(s), s.trim());
    }
    assert_eq!(trim_line_end("secret\r\n\n"), "secret".to_string());
    assert_eq!(trim_line_end(" secret "), " secret ".to_string());
    assert_eq!(trim_one_newline("note\n\n"), "note\n".to_string());
    assert_eq!(trim_one_newline("note"), "note".to_string());
}
