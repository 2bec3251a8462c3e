//! Tests of the client state around the editor and of the stored-message
//! format's parsing and rendering.

use hermes::app::{App, Mode};
use hermes::backend::{
    parse_email_lines, parse_mailbox_lines, render_email_record, EmailSummary, FileBackend,
};

fn summary(subject: &str, from: &str, body: &str) -> EmailSummary {
    EmailSummary {
        subject: subject.to_string(),
        from: from.to_string(),
        body: body.to_string(),
        file_path: None,
    }
}

fn lines(ls: &[&str]) -> Vec<String> {
    ls.iter().map(|s| s.to_string()).collect()
}

#[test]
fn selection_moves_and_stops_at_ends() {
    let mut app = App::new(vec![
        summary("a", "x@y", "1"),
        summary("b", "x@y", "2"),
        summary("c", "x@y", "3"),
    ]);
    assert_eq!(app.selected, 0);
    app.on_up();
    assert_eq!(app.selected, 0);
    app.on_down();
    app.on_down();
    assert_eq!(app.selected, 2);
    app.on_down();
    assert_eq!(app.selected, 2);
    app.on_up();
    assert_eq!(app.selected, 1);
}

#[test]
fn open_and_close_overlay() {
    let mut app = App::new(vec![summary("a", "x@y", "1")]);
    app.open_selected();
    assert!(matches!(app.mode, Mode::Viewing));
    app.close_overlay();
    assert!(matches!(app.mode, Mode::Normal));

    let mut empty = App::new(Vec::new());
    empty.open_selected();
    assert!(matches!(empty.mode, Mode::Normal));
}

#[test]
fn view_scrolling_clamps_to_content() {
    let mut app = App::new(Vec::new());
    app.view_scroll_down(10, 4);
    app.view_scroll_down(10, 4);
    assert_eq!(app.view_offset, 2);
    for _ in 0..20 {
        app.view_scroll_down(10, 4);
    }
    assert_eq!(app.view_offset, 6, "last line at the bottom of the view");
    app.view_scroll_down(0, 4);
    assert_eq!(app.view_offset, 6);
    app.view_scroll_up();
    assert_eq!(app.view_offset, 5);
}

#[test]
fn delete_confirmation_flow() {
    let mut app = App::new(vec![summary("a", "x@y", "1"), summary("b", "x@y", "2")]);
    app.on_down();
    app.show_delete_confirm();
    assert!(matches!(app.mode, Mode::DeleteConfirm));
    let kept = app.email_to_delete.as_ref().expect("an email is remembered");
    assert_eq!(kept.subject, "b");

    app.confirm_delete();
    assert!(matches!(app.mode, Mode::Normal));
    assert_eq!(app.inbox.len(), 1);
    assert_eq!(app.inbox[0].subject, "a");
    assert_eq!(app.selected, 0, "selection pulled back from the end");
    assert!(app.needs_refresh);
}

#[test]
fn confirm_delete_out_of_range_only_closes() {
    let mut app = App::new(Vec::new());
    app.confirm_delete();
    assert!(matches!(app.mode, Mode::Normal));
    assert!(!app.needs_refresh);
}

#[test]
fn command_buffer_and_submit() {
    let mut app = App::new(Vec::new());
    app.start_command();
    assert!(matches!(app.mode, Mode::Command));
    for ch in "  help ".chars() {
        app.push_command_char(ch);
    }
    app.submit_command();
    assert!(matches!(app.mode, Mode::Help), "whitespace around the command is ignored");
    assert!(app.command_buf.is_empty());

    app.start_command();
    for ch in "helpx".chars() {
        app.push_command_char(ch);
    }
    app.pop_command_char();
    app.submit_command();
    assert!(matches!(app.mode, Mode::Help));

    app.start_command();
    for ch in "quit".chars() {
        app.push_command_char(ch);
    }
    app.submit_command();
    assert!(matches!(app.mode, Mode::Normal), "an unknown command returns to the inbox");

    app.start_command();
    app.submit_command();
    assert!(matches!(app.mode, Mode::Normal), "an empty command returns to the inbox");
}

#[test]
fn parse_mailbox_with_separators() {
    let input = lines(&[
        "FROM: alice@example.org",
        "TO: me@hermes.local",
        "SUBJECT: greetings",
        "BODY:",
        "hello there",
        "second line",
        "---",
        "FROM: bob@example.org",
        "SUBJECT: re: greetings",
        "BODY:",
        "hi back",
        "---",
    ]);
    let inbox = parse_mailbox_lines(&input);
    assert_eq!(inbox.len(), 2);
    assert_eq!(inbox[0].from, "alice@example.org");
    assert_eq!(inbox[0].subject, "greetings");
    assert_eq!(inbox[0].body, "hello there\nsecond line");
    assert!(inbox[0].file_path.is_none());
    assert_eq!(inbox[1].from, "bob@example.org");
    assert_eq!(inbox[1].subject, "re: greetings");
    assert_eq!(inbox[1].body, "hi back");
}

#[test]
fn parse_mailbox_keeps_unterminated_final_record() {
    let input = lines(&[
        "FROM: a@b",
        "SUBJECT: one",
        "BODY:",
        "x",
        "---",
        "FROM: c@d",
        "SUBJECT: two",
        "BODY:",
        "y",
    ]);
    let inbox = parse_mailbox_lines(&input);
    assert_eq!(inbox.len(), 2);
    assert_eq!(inbox[1].from, "c@d");
    assert_eq!(inbox[1].body, "y");
}

#[test]
fn parse_mailbox_of_empty_input_is_empty() {
    let inbox = parse_mailbox_lines(&Vec::new());
    assert!(inbox.is_empty());
    // Lines outside any body are ignored.
    let inbox = parse_mailbox_lines(&lines(&["stray", "lines"]));
    assert!(inbox.is_empty());
}

#[test]
fn parse_single_email_trims_blank_body_edges() {
    let input = lines(&[
        "FROM: alice@example.org",
        "SUBJECT: hi",
        "BODY:",
        "",
        "  ",
        "first",
        "",
        "last",
        "   ",
    ]);
    let email = parse_email_lines(&input);
    assert_eq!(email.from, "alice@example.org");
    assert_eq!(email.subject, "hi");
    assert_eq!(email.body, "first\n\nlast");
    assert!(email.file_path.is_none());
}

#[test]
fn parse_single_email_without_body_marker_has_empty_body() {
    let input = lines(&["FROM: a@b", "SUBJECT: s", "not body"]);
    let email = parse_email_lines(&input);
    assert_eq!(email.from, "a@b");
    assert_eq!(email.subject, "s");
    assert_eq!(email.body, "");
}

#[test]
fn render_record_lines() {
    let r = render_email_record("me@hermes.local", "you@example.org", "hi", "a\nb", false);
    assert_eq!(
        r,
        vec![
            "FROM: me@hermes.local".to_string(),
            "TO: you@example.org".to_string(),
            "SUBJECT: hi".to_string(),
            "BODY:".to_string(),
            "a\nb".to_string(),
        ]
    );
    let r = render_email_record("me@hermes.local", "you@example.org", "hi", "a", true);
    assert_eq!(r.len(), 6);
    assert_eq!(r[5], "---");
}

#[test]
fn rendered_record_parses_back() {
    let rendered = render_email_record("me@x", "you@y", "subject here", "body text", false);
    let email = parse_email_lines(&rendered);
    assert_eq!(email.from, "me@x");
    assert_eq!(email.subject, "subject here");
    assert_eq!(email.body, "body text");
}

#[test]
fn file_backend_keeps_its_identity() {
    let b = FileBackend::new("sample".to_string(), "me@hermes.local".to_string());
    assert_eq!(b.path(), "sample");
    assert_eq!(b.user_email(), "me@hermes.local");
}

#[test]
fn email_summary_clone_is_deep() {
    let e = EmailSummary {
        subject: "s".to_string(),
        from: "f".to_string(),
        body: "b".to_string(),
        file_path: Some("dir/mail.txt".to_string()),
    };
    let c = e.clone();
    assert_eq!(c.subject, e.subject);
    assert_eq!(c.from, e.from);
    assert_eq!(c.body, e.body);
    assert_eq!(c.file_path, e.file_path);
}
