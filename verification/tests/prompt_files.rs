use pi_sessions::prompts::{
    codex_home_setting, default_prompts_dir, parse_frontmatter, resolve_codex_home,
    resolve_home_dir, CustomPromptEntry, DirPath, PathProbe,
};

fn parsed(content: &str) -> (Option<&'static str>, Option<&'static str>, &'static str) {
    let (d, h, b) = parse_frontmatter(content);
    let leak = |s: String| -> &'static str { Box::leak(s.into_boxed_str()) };
    (d.map(leak), h.map(leak), leak(b))
}

/// The same splitting, written with the string methods of the standard library.
fn by_std(content: &str) -> (Option<String>, Option<String>, String) {
    let mut segments = content.split_inclusive('\n');
    let Some(first) = segments.next() else {
        return (None, None, String::new());
    };
    if first.trim() != "---" {
        return (None, None, content.to_string());
    }
    let mut description = None;
    let mut hint = None;
    let mut consumed = first.len();
    for segment in segments {
        let trimmed = segment.trim();
        consumed += segment.len();
        if trimmed == "---" {
            return (description, hint, content[consumed..].to_string());
        }
        if trimmed.is_empty() || trimmed.starts_with('#') {
            continue;
        }
        if let Some((key, value)) = trimmed.split_once(':') {
            let mut val = value.trim();
            if val.len() >= 2
                && ((val.starts_with('"') && val.ends_with('"'))
                    || (val.starts_with('\'') && val.ends_with('\'')))
            {
                val = &val[1..val.len() - 1];
            }
            match key.trim().to_ascii_lowercase().as_str() {
                "description" => description = Some(val.to_string()),
                "argument-hint" | "argument_hint" => hint = Some(val.to_string()),
                _ => {}
            }
        }
    }
    (None, None, content.to_string())
}

#[test]
fn frontmatter_absent() {
    assert_eq!(parsed(""), (None, None, ""));
    assert_eq!(parsed("hello\nworld"), (None, None, "hello\nworld"));
    assert_eq!(parsed("\n---\ndescription: x\n---\n"), (None, None, "\n---\ndescription: x\n---\n"));
    assert_eq!(parsed("----\na: b\n----\n"), (None, None, "----\na: b\n----\n"));
    assert_eq!(parsed("- - -\n---\n"), (None, None, "- - -\n---\n"));
}

#[test]
fn frontmatter_unclosed() {
    assert_eq!(parsed("---\ndescription: x\n"), (None, None, "---\ndescription: x\n"));
    assert_eq!(parsed("---"), (None, None, "---"));
    assert_eq!(parsed("---\n"), (None, None, "---\n"));
}

#[test]
fn frontmatter_fields_and_body() {
    assert_eq!(
        parsed("---\ndescription: Hi there\nargument-hint: <file>\n---\nBody line\nmore\n"),
        (Some("Hi there"), Some("<file>"), "Body line\nmore\n")
    );
    assert_eq!(parsed("---\nargument_hint: n\n---"), (None, Some("n"), ""));
    assert_eq!(parsed("---\n---\nrest"), (None, None, "rest"));
    assert_eq!(parsed("---\n---\n"), (None, None, ""));
}

#[test]
fn frontmatter_quotes() {
    assert_eq!(parsed("---\ndescription: \"Quoted\"\n---\n").0, Some("Quoted"));
    assert_eq!(parsed("---\ndescription: 'single'\n---\n").0, Some("single"));
    assert_eq!(parsed("---\ndescription: \"a'\n---\n").0, Some("\"a'"));
    assert_eq!(parsed("---\ndescription: \"\n---\n").0, Some("\""));
    assert_eq!(parsed("---\ndescription: \"\"\n---\n").0, Some(""));
    assert_eq!(parsed("---\ndescription: \"\"x\"\"\n---\n").0, Some("\"x\""));
    assert_eq!(parsed("---\ndescription: \" padded \"\n---\n").0, Some(" padded "));
}

#[test]
fn frontmatter_skips_and_overrides() {
    let text = "---\n# description: no\n\nDescription : first\nother: x\nno colon here\nDESCRIPTION: second\nArgument-Hint: a: b\n---\nbody";
    assert_eq!(parsed(text), (Some("second"), Some("a: b"), "body"));
    assert_eq!(parsed("---\ndescription:\n---\n").0, Some(""));
    assert_eq!(parsed("---\n: v\ndescription\n---\n"), (None, None, ""));
}

#[test]
fn frontmatter_white_space() {
    assert_eq!(
        parsed(" --- \t\r\n  description:   spaced out \r\n\t---\r\nbody\r\n"),
        (Some("spaced out"), None, "body\r\n")
    );
    assert_eq!(
        parsed("---\ndescription:\u{a0}caf\u{e9}\u{3000}\n\u{2003}---\u{85}\n\u{3b2}ody"),
        (Some("caf\u{e9}"), None, "\u{3b2}ody")
    );
}

#[test]
fn frontmatter_agrees_with_std() {
    let samples = [
        "",
        "\n",
        "---",
        "---\n---",
        "---\r\n---\r\n",
        "---\ndescription: x\n---\nbody",
        "---\ndescription: x",
        "---\nDescription: 'y'\nargument-hint: \"z\"\n---\n\nbody\n---\n",
        "---\n#c\n\n \nk:v\nargument_hint :  q  \n ---\nb",
        "--- \ndescription: \u{1f600} smile\n---\n\u{1f600}",
        "---\ndescription:'\n---\n",
        "---\ndescription: 'a\"\n---\n",
        "---\nargument-hint:\u{2028}x\u{2029}\n---\n",
        "---\nDESCRIPTION\u{a0}: v\n---\n",
        "---\ndescription: \u{c9}\nD\u{c9}SCRIPTION: no\n---\n",
        "x---\n---\n",
        "---\n--- x\ndescription: late\n---\ntail",
        "---\rdescription: x\r---\r",
    ];
    for s in samples {
        assert_eq!(parse_frontmatter(s), by_std(s), "on {:?}", s);
    }
}

#[test]
fn entry_from_file() {
    let e = CustomPromptEntry::from_file(
        "review".to_string(),
        "/p/review.md".to_string(),
        "---\ndescription: Review\n---\nDo it",
    );
    assert_eq!(e.name, "review");
    assert_eq!(e.path, "/p/review.md");
    assert_eq!(e.description.as_deref(), Some("Review"));
    assert_eq!(e.argument_hint, None);
    assert_eq!(e.content, "Do it");
}

#[test]
fn home_dir_choice() {
    assert_eq!(resolve_home_dir(Some("/home/u"), Some("C:\\u")).as_deref(), Some("/home/u"));
    assert_eq!(resolve_home_dir(Some("  "), Some("C:\\u")).as_deref(), Some("C:\\u"));
    assert_eq!(resolve_home_dir(None, Some(" /x ")).as_deref(), Some(" /x "));
    assert_eq!(resolve_home_dir(Some(""), None), None);
    assert_eq!(resolve_home_dir(None, Some("\t\n")), None);
    assert_eq!(resolve_home_dir(None, None), None);
}

#[test]
fn codex_home_setting_is_trimmed() {
    assert_eq!(codex_home_setting(Some("  /opt/codex \n")).as_deref(), Some("/opt/codex"));
    assert_eq!(codex_home_setting(Some("/a b")).as_deref(), Some("/a b"));
    assert_eq!(codex_home_setting(Some(" \t")), None);
    assert_eq!(codex_home_setting(None), None);
}

fn dir(d: Option<DirPath>) -> Option<(String, Vec<String>)> {
    d.map(|d| (d.base, d.below))
}

#[test]
fn codex_home_choice() {
    let present = |c: Option<&str>| PathProbe::Present { canonical: c.map(|s| s.to_string()) };
    assert_eq!(
        dir(resolve_codex_home(Some(" /c "), present(Some("/real/c")), Some("/home/u"), None)),
        Some(("/real/c".to_string(), vec![]))
    );
    assert_eq!(
        dir(resolve_codex_home(Some(" /c "), present(None), Some("/home/u"), None)),
        Some(("/c".to_string(), vec![]))
    );
    assert_eq!(dir(resolve_codex_home(Some("/c"), PathProbe::Missing, Some("/home/u"), None)), None);
    assert_eq!(
        dir(resolve_codex_home(Some("  "), PathProbe::Missing, Some("/home/u"), None)),
        Some(("/home/u".to_string(), vec![".codex".to_string()]))
    );
    assert_eq!(
        dir(resolve_codex_home(None, present(Some("/ignored")), None, Some("C:\\u"))),
        Some(("C:\\u".to_string(), vec![".codex".to_string()]))
    );
    assert_eq!(dir(resolve_codex_home(None, PathProbe::Missing, None, None)), None);
}

#[test]
fn prompts_dir_is_below_codex_home() {
    let home = resolve_codex_home(None, PathProbe::Missing, Some("/home/u"), None);
    assert_eq!(
        dir(default_prompts_dir(home)),
        Some(("/home/u".to_string(), vec![".codex".to_string(), "prompts".to_string()]))
    );
    assert_eq!(dir(default_prompts_dir(None)), None);
}
