use opencami::label::{secondary_label, PRIMARY_LABEL, SECONDARY_PREFIX, TOKEN_LEN};
use opencami::window::{CloseDecision, Role, Visibility, WindowError, WindowManager};

const TOKEN_A: &str = "936da01f9abd4d9d80c702af85c822a8";
const TOKEN_B: &str = "0123456789ab4def8123456789abcdef";

fn started(url: &str) -> WindowManager {
    match WindowManager::create_primary(url) {
        Ok(windows) => windows,
        Err(e) => panic!("{}", e.message()),
    }
}

#[test]
fn startup_makes_exactly_one_primary_window() {
    let windows = started("https://example.test");
    assert_eq!(windows.live_count(), 1);
    assert_eq!(windows.secondary_count(), 0);
    assert_eq!(windows.labels(), vec!["main".to_string()]);
    assert!(windows.is_live("main"));
    assert_eq!(windows.role("main"), Some(Role::Primary));
    assert_eq!(windows.visibility("main"), Some(Visibility::Visible));
    assert_eq!(windows.url("main"), Some("https://example.test".to_string()));
}

#[test]
fn primary_label_is_main() {
    assert_eq!(PRIMARY_LABEL, "main");
}

#[test]
fn create_primary_rejects_what_is_no_url() {
    match WindowManager::create_primary("not a url") {
        Ok(_) => panic!("made a window at what is no URL"),
        Err(e) => {
            assert_eq!(
                e,
                WindowError::InvalidUrl { reason: "relative URL without a base".to_string() }
            );
            assert_eq!(e.message(), "Invalid URL: relative URL without a base");
        },
    }
}

#[test]
fn create_primary_rejects_the_empty_text() {
    assert!(matches!(
        WindowManager::create_primary(""),
        Err(WindowError::InvalidUrl { .. })
    ));
}

#[test]
fn create_primary_reports_the_parsers_reason() {
    match WindowManager::create_primary("http://[::1") {
        Ok(_) => panic!("made a window at what is no URL"),
        Err(e) => assert_eq!(e.message(), "Invalid URL: invalid IPv6 address"),
    }
    match WindowManager::create_primary("https://example.test:99999") {
        Ok(_) => panic!("made a window at what is no URL"),
        Err(e) => assert_eq!(e.message(), "Invalid URL: invalid port number"),
    }
    match WindowManager::create_primary("https://") {
        Ok(_) => panic!("made a window at what is no URL"),
        Err(e) => assert_eq!(e.message(), "Invalid URL: empty host"),
    }
}

#[test]
fn create_primary_takes_the_fallback() {
    let windows = started("http://localhost:3003");
    assert_eq!(windows.url("main"), Some("http://localhost:3003".to_string()));
}

#[test]
fn open_primary_goes_by_the_given_verdict() {
    assert!(WindowManager::open_primary("not a url", None).is_ok());
    assert_eq!(
        WindowManager::open_primary("https://example.test", Some("no".to_string())).err(),
        Some(WindowError::InvalidUrl { reason: "no".to_string() })
    );
}

#[test]
fn close_request_on_primary_hides_it() {
    let mut windows = started("https://example.test");
    let decision = windows.close_request("main");
    assert_eq!(decision, CloseDecision::HideInstead);
    assert_eq!(windows.live_count(), 1);
    assert!(windows.is_live("main"));
    assert_eq!(windows.visibility("main"), Some(Visibility::Hidden));
    assert_eq!(windows.role("main"), Some(Role::Primary));
    assert_eq!(windows.url("main"), Some("https://example.test".to_string()));
}

#[test]
fn close_request_on_primary_twice_keeps_it_hidden() {
    let mut windows = started("https://example.test");
    assert_eq!(windows.close_request("main"), CloseDecision::HideInstead);
    assert_eq!(windows.close_request("main"), CloseDecision::HideInstead);
    assert_eq!(windows.live_count(), 1);
    assert_eq!(windows.visibility("main"), Some(Visibility::Hidden));
}

#[test]
fn close_request_on_primary_leaves_secondary_windows_alone() {
    let mut windows = started("https://example.test");
    let label = windows.register_secondary("https://a.test", None, TOKEN_A).unwrap();
    assert_eq!(windows.close_request("main"), CloseDecision::HideInstead);
    assert_eq!(windows.live_count(), 2);
    assert_eq!(windows.visibility(&label), Some(Visibility::Visible));
}

#[test]
fn show_after_hide_makes_primary_visible_again() {
    let mut windows = started("https://example.test");
    windows.hide_window("main");
    assert_eq!(windows.visibility("main"), Some(Visibility::Hidden));
    windows.show("main");
    assert_eq!(windows.visibility("main"), Some(Visibility::Visible));
    assert_eq!(windows.live_count(), 1);
}

#[test]
fn show_and_hide_on_absent_label_do_nothing() {
    let mut windows = started("https://example.test");
    windows.show("window-gone");
    windows.hide_window("window-gone");
    windows.hide_window("");
    assert_eq!(windows.live_count(), 1);
    assert_eq!(windows.labels(), vec!["main".to_string()]);
    assert_eq!(windows.visibility("main"), Some(Visibility::Visible));
    assert_eq!(windows.visibility("window-gone"), None);
    assert!(!windows.was_issued("window-gone"));
}

#[test]
fn secondary_label_is_prefix_and_token() {
    assert_eq!(secondary_label(TOKEN_A), "window-936da01f9abd4d9d80c702af85c822a8");
    assert_eq!(secondary_label("abc"), "window-abc");
    assert_eq!(secondary_label(""), "window-");
    assert_eq!(SECONDARY_PREFIX, "window-");
}

#[test]
fn register_secondary_adds_a_visible_window() {
    let mut windows = started("https://example.test");
    let made = windows.register_secondary("https://a.test", None, TOKEN_A);
    assert_eq!(made, Ok("window-936da01f9abd4d9d80c702af85c822a8".to_string()));
    let label = made.unwrap();
    assert_eq!(windows.live_count(), 2);
    assert_eq!(windows.secondary_count(), 1);
    assert!(windows.is_live(&label));
    assert!(windows.was_issued(&label));
    assert_eq!(windows.role(&label), Some(Role::Secondary));
    assert_eq!(windows.visibility(&label), Some(Visibility::Visible));
    assert_eq!(windows.url(&label), Some("https://a.test".to_string()));
    let labels = windows.labels();
    assert_eq!(labels.len(), 2);
    assert_eq!(labels[0], "main");
    assert!(labels.contains(&label));
}

#[test]
fn register_secondary_with_objection_changes_nothing() {
    let mut windows = started("https://example.test");
    let made = windows.register_secondary("nonsense", Some("empty host".to_string()), TOKEN_A);
    assert_eq!(made, Err(WindowError::InvalidUrl { reason: "empty host".to_string() }));
    assert_eq!(windows.live_count(), 1);
    assert!(!windows.was_issued("window-936da01f9abd4d9d80c702af85c822a8"));
}

#[test]
fn register_secondary_refuses_a_label_given_out_before() {
    let mut windows = started("https://example.test");
    let label = windows.register_secondary("https://a.test", None, TOKEN_A).unwrap();
    let again = windows.register_secondary("https://b.test", None, TOKEN_A);
    assert_eq!(again, Err(WindowError::LabelTaken { label: label.clone() }));
    assert_eq!(
        again.unwrap_err().message(),
        "a window with label `window-936da01f9abd4d9d80c702af85c822a8` already exists"
    );
    assert_eq!(windows.live_count(), 2);
    assert_eq!(windows.url(&label), Some("https://a.test".to_string()));
}

#[test]
fn objection_comes_before_label_check() {
    let mut windows = started("https://example.test");
    windows.register_secondary("https://a.test", None, TOKEN_A).unwrap();
    let objection = Some("relative URL without a base".to_string());
    let again = windows.register_secondary("x", objection, TOKEN_A);
    assert_eq!(
        again,
        Err(WindowError::InvalidUrl { reason: "relative URL without a base".to_string() })
    );
}

#[test]
fn close_request_on_secondary_removes_it() {
    let mut windows = started("https://example.test");
    let a = windows.register_secondary("https://a.test", None, TOKEN_A).unwrap();
    let b = windows.register_secondary("https://b.test", None, TOKEN_B).unwrap();
    assert_eq!(windows.live_count(), 3);
    assert_eq!(windows.close_request(&a), CloseDecision::Proceed);
    assert_eq!(windows.live_count(), 2);
    assert_eq!(windows.secondary_count(), 1);
    assert!(!windows.is_live(&a));
    assert!(windows.is_live(&b));
    assert!(windows.is_live("main"));
    assert_eq!(windows.visibility(&a), None);
    assert_eq!(windows.url(&b), Some("https://b.test".to_string()));
    let labels = windows.labels();
    assert_eq!(labels.len(), 2);
    assert_eq!(labels[0], "main");
    assert!(labels.contains(&b));
    assert!(!labels.contains(&a));
}

#[test]
fn closed_label_is_never_used_again() {
    let mut windows = started("https://example.test");
    let a = windows.register_secondary("https://a.test", None, TOKEN_A).unwrap();
    assert_eq!(windows.close_request(&a), CloseDecision::Proceed);
    assert!(windows.was_issued(&a));
    let again = windows.register_secondary("https://a.test", None, TOKEN_A);
    assert_eq!(again, Err(WindowError::LabelTaken { label: a.clone() }));
    assert!(!windows.is_live(&a));
    assert_eq!(windows.live_count(), 1);
}

#[test]
fn close_request_on_unknown_label_proceeds_and_changes_nothing() {
    let mut windows = started("https://example.test");
    let a = windows.register_secondary("https://a.test", None, TOKEN_A).unwrap();
    assert_eq!(windows.close_request("window-unknown"), CloseDecision::Proceed);
    assert_eq!(windows.close_request("Main"), CloseDecision::Proceed);
    assert_eq!(windows.live_count(), 2);
    assert!(windows.is_live(&a));
}

#[test]
fn close_request_on_closed_secondary_changes_nothing() {
    let mut windows = started("https://example.test");
    let a = windows.register_secondary("https://a.test", None, TOKEN_A).unwrap();
    assert_eq!(windows.close_request(&a), CloseDecision::Proceed);
    assert_eq!(windows.close_request(&a), CloseDecision::Proceed);
    assert_eq!(windows.live_count(), 1);
}

#[test]
fn hidden_secondary_can_be_shown_and_closed() {
    let mut windows = started("https://example.test");
    let a = windows.register_secondary("https://a.test", None, TOKEN_A).unwrap();
    windows.hide_window(&a);
    assert_eq!(windows.visibility(&a), Some(Visibility::Hidden));
    assert_eq!(windows.visibility("main"), Some(Visibility::Visible));
    windows.show(&a);
    assert_eq!(windows.visibility(&a), Some(Visibility::Visible));
    windows.hide_window(&a);
    assert_eq!(windows.close_request(&a), CloseDecision::Proceed);
    assert!(!windows.is_live(&a));
}

#[test]
fn discard_takes_back_a_secondary_window() {
    let mut windows = started("https://example.test");
    let a = windows.register_secondary("https://a.test", None, TOKEN_A).unwrap();
    windows.discard(&a);
    assert!(!windows.is_live(&a));
    assert!(windows.was_issued(&a));
    assert_eq!(windows.live_count(), 1);
}

#[test]
fn discard_never_takes_the_primary_window() {
    let mut windows = started("https://example.test");
    windows.discard("main");
    assert!(windows.is_live("main"));
    assert_eq!(windows.visibility("main"), Some(Visibility::Visible));
    assert_eq!(windows.live_count(), 1);
}

#[test]
fn create_secondary_draws_a_generated_label() {
    let mut windows = started("https://example.test");
    let label = windows.create_secondary("https://a.test").unwrap();
    assert_eq!(label.len(), SECONDARY_PREFIX.len() + TOKEN_LEN);
    assert_eq!(label.len(), 39);
    assert!(label.starts_with("window-"));
    let token = &label[7..];
    assert!(token.chars().all(|c| matches!(c, '0'..='9' | 'a'..='f')));
    assert_eq!(token.as_bytes()[12], b'4');
    assert!(matches!(token.as_bytes()[16], b'8' | b'9' | b'a' | b'b'));
    assert!(windows.is_live(&label));
    assert!(windows.was_issued(&label));
    assert_eq!(windows.url(&label), Some("https://a.test".to_string()));
    assert_eq!(windows.role(&label), Some(Role::Secondary));
    assert_eq!(windows.visibility(&label), Some(Visibility::Visible));
}

#[test]
fn create_secondary_twice_gives_two_distinct_labels() {
    let mut windows = started("https://example.test");
    let a = windows.create_secondary("https://a.test").unwrap();
    let b = windows.create_secondary("https://a.test").unwrap();
    assert_ne!(a, b);
    assert_ne!(a, "main");
    assert_ne!(b, "main");
    assert_eq!(windows.live_count(), 3);
    assert_eq!(windows.secondary_count(), 2);
    assert!(windows.is_live("main"));
    let labels = windows.labels();
    assert_eq!(labels.len(), 3);
    assert_eq!(labels[0], "main");
    assert!(labels.contains(&a));
    assert!(labels.contains(&b));
}

#[test]
fn create_secondary_rejects_what_is_no_url() {
    let mut windows = started("https://example.test");
    let made = windows.create_secondary("::not a url::");
    assert_eq!(
        made,
        Err(WindowError::InvalidUrl { reason: "relative URL without a base".to_string() })
    );
    assert_eq!(windows.live_count(), 1);
    assert_eq!(windows.secondary_count(), 0);
    assert_eq!(windows.labels(), vec!["main".to_string()]);
}

#[test]
fn create_secondary_many_labels_are_all_distinct() {
    let mut windows = started("https://example.test");
    let mut seen: Vec<String> = Vec::new();
    for _ in 0..50 {
        let label = windows.create_secondary("https://a.test").unwrap();
        assert!(!seen.contains(&label));
        seen.push(label);
    }
    assert_eq!(windows.secondary_count(), 50);
    assert_eq!(windows.live_count(), 51);
    for label in &seen {
        assert_eq!(windows.close_request(label), CloseDecision::Proceed);
    }
    assert_eq!(windows.live_count(), 1);
    for label in &seen {
        assert!(windows.was_issued(label));
        assert!(!windows.is_live(label));
    }
}
