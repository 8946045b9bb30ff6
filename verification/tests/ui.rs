use rgc::ui::gemtext::{next_preformatted, read_line, read_page, Line};
use rgc::ui::{App, AppState, Command, UserAction};

fn fetch(command: Option<Command>) -> (String, String) {
    match command {
        Some(Command::Fetch { base, target }) => (base, target),
        other => panic!("{:?}", other),
    }
}

fn visit(app: &mut App, url: &str) {
    app.deliver(url.to_string(), "text/gemini".to_string(), format!("# {}", url));
    assert!(!app.poll());
}

#[test]
fn a_new_browser_shows_nothing() {
    let mut app = App::default();
    assert_eq!(app.url(), "");
    assert_eq!(app.contents(), "");
    assert_eq!(app.mimetype(), "");
    assert_eq!(app.history_len(), 0);
    assert!(!app.can_go_back());
    assert!(!app.is_loading());
    assert!(!app.is_gemtext());
    assert!(!app.poll());
    assert_eq!(app.name(), "RGC Gemini Browser");
    assert!(matches!(AppState::default(), AppState::Browsing));
}

#[test]
fn the_first_page_is_requested_without_a_base() {
    let mut app = App::default();
    app.set_url("example.org".to_string());
    let (base, target) = fetch(app.act(UserAction::Submit));
    assert_eq!(base, "");
    assert_eq!(target, "example.org");
    assert!(app.is_loading());
    assert!(app.poll());
    assert_eq!(app.history_len(), 0);
}

#[test]
fn a_page_that_arrives_is_taken_up() {
    let mut app = App::default();
    match app.go_to_url("example.org".to_string()) {
        Command::Fetch { base, target } => {
            assert_eq!(base, "");
            assert_eq!(target, "example.org");
        }
        other => panic!("{:?}", other),
    }
    app.deliver(
        "gemini://example.org".to_string(),
        "text/gemini".to_string(),
        "# Welcome".to_string(),
    );
    assert!(!app.is_loading());
    assert!(!app.poll());
    assert_eq!(app.url(), "gemini://example.org");
    assert_eq!(app.mimetype(), "text/gemini");
    assert_eq!(app.contents(), "# Welcome");
    assert_eq!(app.history_len(), 1);
    assert!(app.is_gemtext());
    assert!(!app.poll());
    assert_eq!(app.history_len(), 1);
}

#[test]
fn a_link_is_requested_from_the_page_it_is_on() {
    let mut app = App::default();
    visit(&mut app, "gemini://example.org/a/b");
    let (base, target) = fetch(app.act(UserAction::Follow("c".to_string())));
    assert_eq!(base, "gemini://example.org/a/b");
    assert_eq!(target, "c");
    assert!(app.is_loading());
    assert_eq!(app.url(), "gemini://example.org/a/b");
}

#[test]
fn a_web_link_goes_to_the_web_browser() {
    let mut app = App::default();
    visit(&mut app, "gemini://example.org/");
    for url in ["https://example.org/", "http://example.org/", "httpx", "http"] {
        match app.act(UserAction::Follow(url.to_string())) {
            Some(Command::OpenExternal { url: opened }) => assert_eq!(opened, url),
            other => panic!("{:?}", other),
        }
        assert!(!app.is_loading());
    }
    let (_, target) = fetch(app.act(UserAction::Follow("htt".to_string())));
    assert_eq!(target, "htt");
    let (_, target) = fetch(app.act(UserAction::Follow("HTTP://example.org".to_string())));
    assert_eq!(target, "HTTP://example.org");
}

#[test]
fn the_address_bar_is_submitted_as_it_stands() {
    let mut app = App::default();
    visit(&mut app, "gemini://example.org/");
    app.set_url("https://example.org/".to_string());
    let (base, target) = fetch(app.act(UserAction::Submit));
    assert_eq!(base, "gemini://example.org/");
    assert_eq!(target, "https://example.org/");
}

#[test]
fn going_back_drops_the_last_page_and_asks_for_the_one_before() {
    let mut app = App::default();
    visit(&mut app, "gemini://example.org/one");
    visit(&mut app, "gemini://example.org/two");
    assert!(app.can_go_back());
    assert_eq!(app.history_len(), 2);
    let (base, target) = fetch(app.act(UserAction::Back));
    assert_eq!(base, "gemini://example.org/one");
    assert_eq!(target, "gemini://example.org/one");
    assert_eq!(app.history_len(), 1);
    assert!(app.is_loading());
    assert!(!app.can_go_back());
}

#[test]
fn going_back_from_the_only_page_asks_for_nothing() {
    let mut app = App::default();
    assert!(app.act(UserAction::Back).is_none());
    assert_eq!(app.history_len(), 0);
    visit(&mut app, "gemini://example.org/one");
    assert!(app.act(UserAction::Back).is_none());
    assert_eq!(app.history_len(), 0);
    assert!(!app.is_loading());
    assert_eq!(app.url(), "gemini://example.org/one");
}

#[test]
fn going_back_to_a_web_page_opens_it_outside() {
    let mut app = App::default();
    visit(&mut app, "https://example.org/");
    visit(&mut app, "gemini://example.org/");
    match app.act(UserAction::Back) {
        Some(Command::OpenExternal { url }) => assert_eq!(url, "https://example.org/"),
        other => panic!("{:?}", other),
    }
    assert_eq!(app.history_len(), 1);
}

#[test]
fn only_text_gemini_is_read_line_by_line() {
    let mut app = App::default();
    for (mimetype, gemtext) in [
        ("text/gemini", true),
        ("text/plain", false),
        ("text/gemini; lang=en", false),
        ("text/gemin", false),
        ("Text/Gemini", false),
        ("", false),
    ] {
        app.deliver("gemini://example.org/".to_string(), mimetype.to_string(), String::new());
        app.poll();
        assert_eq!(app.is_gemtext(), gemtext, "{:?}", mimetype);
    }
}

fn read_with_std(line: &str, preformatted: bool) -> Line<'_> {
    if line.starts_with("#") {
        Line::Heading(line.trim_start_matches('#').trim_start())
    } else if line.starts_with("=>") {
        let mut splits = line.splitn(3, |c: char| c.is_whitespace());
        let _ = splits.next();
        let url = splits.next().unwrap_or_default().trim();
        let label = splits.next().unwrap_or(url).trim();
        Line::Link { label, url }
    } else if line.starts_with("```") {
        Line::Toggle
    } else if preformatted {
        Line::Preformatted(line)
    } else {
        Line::Text(line)
    }
}

#[test]
fn lines_read_as_the_standard_library_splits_them() {
    let lines = [
        "",
        " ",
        "plain text",
        "# Heading",
        "#",
        "###   Deep\theading  ",
        "#no space",
        "# # two",
        " # not a heading",
        "=> gemini://example.org/ Example site",
        "=> gemini://example.org/",
        "=>gemini://example.org/ Example",
        "=>",
        "=> ",
        "=>  gemini://example.org/ two spaces",
        "=>\tgemini://example.org/\tTabbed  label \t",
        "=> /relative   padded label   ",
        "=> a b c d",
        "=>\u{a0}x\u{3000}y z",
        "= > not a link",
        "```",
        "```rust",
        "`` two ticks",
        "  indented",
        "caf\u{e9} \u{1F600}",
    ];
    for line in lines {
        for preformatted in [false, true] {
            assert_eq!(read_line(line, preformatted), read_with_std(line, preformatted), "{:?}", line);
        }
    }
}

#[test]
fn a_link_line_gives_its_location_and_its_label() {
    assert_eq!(
        read_line("=> gemini://example.org/ Example site", false),
        Line::Link { label: "Example site", url: "gemini://example.org/" }
    );
    assert_eq!(
        read_line("=> gemini://example.org/", false),
        Line::Link { label: "gemini://example.org/", url: "gemini://example.org/" }
    );
    assert_eq!(read_line("=>", true), Line::Link { label: "", url: "" });
    assert_eq!(read_line("=>  x", true), Line::Link { label: "x", url: "" });
    assert_eq!(read_line("=>x y", false), Line::Link { label: "y", url: "y" });
}

#[test]
fn a_heading_loses_its_marks() {
    assert_eq!(read_line("# Title", false), Line::Heading("Title"));
    assert_eq!(read_line("###  Sub title ", false), Line::Heading("Sub title "));
    assert_eq!(read_line("#", false), Line::Heading(""));
    assert_eq!(read_line("## # x", true), Line::Heading("# x"));
}

#[test]
fn a_fence_turns_preformatting_on_and_off() {
    let page = "intro\n```\ncode  here\n=> link text\n```\noutro";
    let mut preformatted = false;
    let mut seen = Vec::new();
    for line in page.lines() {
        let read = read_line(line, preformatted);
        preformatted = next_preformatted(&read, preformatted);
        seen.push((read, preformatted));
    }
    assert_eq!(
        seen,
        vec![
            (Line::Text("intro"), false),
            (Line::Toggle, true),
            (Line::Preformatted("code  here"), true),
            (Line::Link { label: "text", url: "link" }, true),
            (Line::Toggle, false),
            (Line::Text("outro"), false),
        ]
    );
}

#[test]
fn a_page_is_read_line_after_line() {
    let page = "# Title\n\nSome text\n=> /next Next page\n```\n# not a comment\n  code\n```\nend";
    let lines: Vec<&str> = page.lines().collect();
    assert_eq!(
        read_page(&lines),
        vec![
            Line::Heading("Title"),
            Line::Text(""),
            Line::Text("Some text"),
            Line::Link { label: "Next page", url: "/next" },
            Line::Toggle,
            Line::Heading("not a comment"),
            Line::Preformatted("  code"),
            Line::Toggle,
            Line::Text("end"),
        ]
    );
    assert_eq!(read_page(&[]), Vec::<Line>::new());
    assert_eq!(read_page(&["```", "```", "```", "x"]), vec![
        Line::Toggle,
        Line::Toggle,
        Line::Toggle,
        Line::Preformatted("x"),
    ]);
}
