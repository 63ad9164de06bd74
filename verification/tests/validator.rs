use hedgehog::ui::url_input::{UrlInput, UrlInputAction, UrlInputMessage, QUIET_PERIOD_MS};
use hedgehog::utils::debounce::{Debounced, DebouncedInput};
use hedgehog::utils::http::{
    get_downloadable_content_type, is_absolute_url, scheme_is_web, text_like, REDIRECT_LIMIT,
};

fn edit(input: &mut UrlInput, text: &str) -> u64 {
    match input.update(UrlInputMessage::Edit(text.to_string())) {
        UrlInputAction::Schedule { token, url, delay_ms, .. } => {
            assert_eq!(url, text);
            assert_eq!(delay_ms, QUIET_PERIOD_MS);
            token
        }
        other => panic!("unexpected action {:?}", other),
    }
}

#[test]
fn empty_field_waits_for_nothing() {
    let input = UrlInput::default();
    assert_eq!(input.value, "");
    assert_eq!(input.content_type, None);
    assert!(!input.is_validating);
    assert_eq!(input.validation, None);
    assert_eq!(input.debouncer, DebouncedInput::new(500));
    assert!(!input.add_enabled());
    assert_eq!(QUIET_PERIOD_MS, 500);
}

#[test]
fn burst_of_edits_probes_only_the_last() {
    let mut input = UrlInput::default();
    let a = edit(&mut input, "a");
    let ab = edit(&mut input, "ab");
    let abc = edit(&mut input, "abc");
    assert!(a != ab && ab != abc && a != abc);
    assert_eq!(input.value, "abc");
    assert!(input.is_validating);

    let before = input.clone();
    assert_eq!(
        input.update(UrlInputMessage::CheckValidation(a, "a".to_string())),
        UrlInputAction::Nothing
    );
    assert_eq!(
        input.update(UrlInputMessage::CheckValidation(ab, "ab".to_string())),
        UrlInputAction::Nothing
    );
    assert_eq!(input, before);

    assert_eq!(
        input.update(UrlInputMessage::CheckValidation(abc, "abc".to_string())),
        UrlInputAction::Probe { token: abc, url: "abc".to_string() }
    );
    assert_eq!(input.validation, Some(abc));

    let probing = input.clone();
    for stale in [a, ab] {
        assert_eq!(
            input.update(UrlInputMessage::Validated(stale, Some("image/png".to_string()))),
            UrlInputAction::Nothing
        );
    }
    assert_eq!(input, probing);
    assert_eq!(input.content_type, None);

    assert_eq!(
        input.update(UrlInputMessage::Validated(abc, Some("application/pdf".to_string()))),
        UrlInputAction::Nothing
    );
    assert_eq!(input.content_type, Some("application/pdf".to_string()));
    assert!(!input.is_validating);
    assert_eq!(input.validation, None);
    assert!(input.add_enabled());

    assert_eq!(
        input.update(UrlInputMessage::CheckValidation(abc, "abc".to_string())),
        UrlInputAction::Nothing
    );
}

#[test]
fn edit_names_what_is_to_be_stopped() {
    let mut input = UrlInput::default();
    assert_eq!(
        input.update(UrlInputMessage::Edit("x".to_string())),
        UrlInputAction::Schedule {
            abort_timer: None,
            abort_probe: None,
            token: 0,
            delay_ms: 500,
            url: "x".to_string()
        }
    );
    assert_eq!(
        input.update(UrlInputMessage::Edit("xy".to_string())),
        UrlInputAction::Schedule {
            abort_timer: Some(0),
            abort_probe: None,
            token: 1,
            delay_ms: 500,
            url: "xy".to_string()
        }
    );
    input.update(UrlInputMessage::CheckValidation(1, "xy".to_string()));
    assert_eq!(
        input.update(UrlInputMessage::Edit("xyz".to_string())),
        UrlInputAction::Schedule {
            abort_timer: None,
            abort_probe: Some(1),
            token: 2,
            delay_ms: 500,
            url: "xyz".to_string()
        }
    );
}

#[test]
fn answer_of_a_superseded_probe_is_dropped() {
    let mut input = UrlInput::default();
    let first = edit(&mut input, "http://a/");
    input.update(UrlInputMessage::CheckValidation(first, "http://a/".to_string()));
    let second = edit(&mut input, "http://a/b");
    let waiting = input.clone();
    assert_eq!(
        input.update(UrlInputMessage::Validated(first, Some("application/zip".to_string()))),
        UrlInputAction::Nothing
    );
    assert_eq!(input, waiting);
    assert!(!input.add_enabled());
    input.update(UrlInputMessage::CheckValidation(second, "http://a/b".to_string()));
    input.update(UrlInputMessage::Validated(second, None));
    assert_eq!(input.content_type, None);
    assert!(!input.is_validating);
    assert!(!input.add_enabled());
}

#[test]
fn edit_forgets_the_last_answer() {
    let mut input = UrlInput::default();
    let token = edit(&mut input, "http://a/x.zip");
    input.update(UrlInputMessage::CheckValidation(token, "http://a/x.zip".to_string()));
    input.update(UrlInputMessage::Validated(token, Some("application/zip".to_string())));
    assert!(input.add_enabled());
    edit(&mut input, "http://a/x.zi");
    assert_eq!(input.content_type, None);
    assert!(input.is_validating);
    assert!(!input.add_enabled());
}

#[test]
fn add_needs_a_value() {
    let mut input = UrlInput::default();
    let token = edit(&mut input, "");
    input.update(UrlInputMessage::CheckValidation(token, String::new()));
    input.update(UrlInputMessage::Validated(token, Some("application/zip".to_string())));
    assert!(!input.add_enabled());
    assert_eq!(input.update(UrlInputMessage::Add), UrlInputAction::Nothing);
}

#[test]
fn clipboard_with_a_web_url_is_submitted() {
    for text in
        ["http://example.com/a.bin", "https://example.com/a.bin", "HTTPS://EXAMPLE.COM/A.BIN"]
    {
        let mut input = UrlInput::default();
        assert_eq!(
            input.update(UrlInputMessage::ClipboardContent(Some(text.to_string()))),
            UrlInputAction::Schedule {
                abort_timer: None,
                abort_probe: None,
                token: 0,
                delay_ms: 500,
                url: text.to_string()
            }
        );
        assert_eq!(input.value, text);
        assert!(input.is_validating);
    }
}

#[test]
fn clipboard_with_anything_else_is_passed_over() {
    for content in [
        None,
        Some(""),
        Some("just some words"),
        Some("ftp://example.com/a.bin"),
        Some("file:///etc/hosts"),
        Some("mailto:someone@example.com"),
        Some("/relative/path"),
        Some("example.com/a.bin"),
        Some("http"),
        Some("https"),
    ] {
        let mut input = UrlInput::default();
        let before = input.clone();
        assert_eq!(
            input.update(UrlInputMessage::ClipboardContent(content.map(|s| s.to_string()))),
            UrlInputAction::Nothing,
            "{:?}",
            content
        );
        assert_eq!(input, before);
    }
}

#[test]
fn clipboard_takes_the_place_of_what_was_under_way() {
    let mut input = UrlInput::default();
    let token = edit(&mut input, "http://a/x");
    input.update(UrlInputMessage::CheckValidation(token, "http://a/x".to_string()));
    input.update(UrlInputMessage::Validated(token, Some("application/zip".to_string())));
    let second = edit(&mut input, "http://a/xy");
    input.update(UrlInputMessage::CheckValidation(second, "http://a/xy".to_string()));
    assert_eq!(
        input.update(UrlInputMessage::ClipboardContent(Some("https://b/y".to_string()))),
        UrlInputAction::Schedule {
            abort_timer: None,
            abort_probe: Some(second),
            token: 2,
            delay_ms: 500,
            url: "https://b/y".to_string()
        }
    );
    assert_eq!(input.content_type, None);
    assert_eq!(input.validation, None);
}

#[test]
fn update_with_takes_the_scheme_as_given() {
    let mut input = UrlInput::default();
    assert_eq!(
        input.update_with(
            UrlInputMessage::ClipboardContent(Some("anything".to_string())),
            Some("https".to_string())
        ),
        UrlInputAction::Schedule {
            abort_timer: None,
            abort_probe: None,
            token: 0,
            delay_ms: 500,
            url: "anything".to_string()
        }
    );
    let mut input = UrlInput::default();
    assert_eq!(
        input.update_with(
            UrlInputMessage::ClipboardContent(Some("http://a/".to_string())),
            Some("ftp".to_string())
        ),
        UrlInputAction::Nothing
    );
    assert_eq!(
        input.update_with(UrlInputMessage::ClipboardContent(Some(String::new())), Some("http".to_string())),
        UrlInputAction::Nothing
    );
    assert_eq!(
        input.update_with(UrlInputMessage::ClipboardContent(Some("http://a/".to_string())), None),
        UrlInputAction::Nothing
    );
}

#[test]
fn debouncer_issues_tokens_in_turn() {
    let mut debouncer = DebouncedInput::new(250);
    assert_eq!(debouncer, DebouncedInput { delay_ms: 250, next: 0, pending: None });
    assert_eq!(
        debouncer.debounce("a"),
        Debounced { abort: None, token: 0, delay_ms: 250, value: "a" }
    );
    assert_eq!(
        debouncer.debounce("b"),
        Debounced { abort: Some(0), token: 1, delay_ms: 250, value: "b" }
    );
    assert_eq!(debouncer, DebouncedInput { delay_ms: 250, next: 2, pending: Some(1) });
    assert!(!debouncer.fire(0));
    assert!(!debouncer.fire(2));
    assert_eq!(debouncer, DebouncedInput { delay_ms: 250, next: 2, pending: Some(1) });
    assert!(debouncer.fire(1));
    assert_eq!(debouncer, DebouncedInput { delay_ms: 250, next: 2, pending: None });
    assert!(!debouncer.fire(1));
    assert_eq!(
        debouncer.debounce(7u8),
        Debounced { abort: None, token: 2, delay_ms: 250, value: 7u8 }
    );
}

#[test]
fn debouncer_tokens_wrap_around() {
    let mut debouncer = DebouncedInput { delay_ms: 1, next: u64::MAX, pending: None };
    assert_eq!(debouncer.debounce(()).token, u64::MAX);
    let timer = debouncer.debounce(());
    assert_eq!(timer.abort, Some(u64::MAX));
    assert_eq!(timer.token, 0);
    assert_eq!(debouncer, DebouncedInput { delay_ms: 1, next: 1, pending: Some(0) });
    assert!(!debouncer.fire(u64::MAX));
    assert!(debouncer.fire(0));
}

#[test]
fn pdf_is_downloadable_under_its_type() {
    assert_eq!(
        get_downloadable_content_type(Some("application/pdf"), None),
        Some("application/pdf".to_string())
    );
}

#[test]
fn html_without_attachment_is_not_downloadable() {
    assert_eq!(get_downloadable_content_type(Some("text/html"), None), None);
    assert_eq!(get_downloadable_content_type(Some("text/html"), Some("inline")), None);
}

#[test]
fn text_with_attachment_is_downloadable_under_the_marker() {
    assert_eq!(
        get_downloadable_content_type(Some("text/plain"), Some("attachment; filename=x")),
        Some("attachment".to_string())
    );
}

#[test]
fn classification_follows_the_rule_in_order() {
    let cases: [(Option<&str>, Option<&str>, Option<&str>); 14] = [
        (None, None, None),
        (None, Some("attachment"), Some("attachment")),
        (None, Some("inline"), None),
        (Some("application/octet-stream"), Some("attachment"), Some("application/octet-stream")),
        (Some("application/javascript"), None, None),
        (Some("application/json"), None, None),
        (Some("application/xml"), None, None),
        (Some("application/json"), Some("x; attachment"), Some("attachment")),
        (Some("application/json; charset=utf-8"), None, Some("application/json; charset=utf-8")),
        (Some("text/"), None, None),
        (Some("text"), None, Some("text")),
        (Some("Text/html"), None, Some("Text/html")),
        (Some(""), None, Some("")),
        (Some("text/csv"), Some("Attachment"), None),
    ];
    for (content_type, disposition, expected) in cases {
        assert_eq!(
            get_downloadable_content_type(content_type, disposition),
            expected.map(|s| s.to_string()),
            "{:?} {:?}",
            content_type,
            disposition
        );
    }
}

#[test]
fn text_like_types() {
    assert!(text_like("text/html"));
    assert!(text_like("text/"));
    assert!(text_like("application/javascript"));
    assert!(text_like("application/json"));
    assert!(text_like("application/xml"));
    assert!(!text_like("application/xml+rss"));
    assert!(!text_like("image/png"));
    assert!(!text_like(""));
}

#[test]
fn absolute_urls_have_a_scheme() {
    assert!(is_absolute_url("http://example.com"));
    assert!(is_absolute_url("ftp://example.com/x"));
    assert!(is_absolute_url("mailto:someone@example.com"));
    assert!(!is_absolute_url("example.com"));
    assert!(!is_absolute_url("/a/b"));
    assert!(!is_absolute_url(""));
}

#[test]
fn scheme_is_web_for_http_and_https_only() {
    assert!(scheme_is_web(&Some("http".to_string())));
    assert!(scheme_is_web(&Some("https".to_string())));
    assert!(!scheme_is_web(&Some("HTTP".to_string())));
    assert!(!scheme_is_web(&Some("ftp".to_string())));
    assert!(!scheme_is_web(&Some("https://example.com".to_string())));
    assert!(!scheme_is_web(&Some(String::new())));
    assert!(!scheme_is_web(&None));
    assert_eq!(REDIRECT_LIMIT, 5);
}
