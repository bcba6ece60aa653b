use gh_notifier::{wants_open, Notification, Reason, Repository, Subject};

fn review(latest: Option<&str>) -> Notification {
    Notification {
        id: "123".to_string(),
        reason: Reason::ReviewRequested,
        repository: Repository {
            id: 1,
            name: "widgets".to_string(),
            full_name: "acme/widgets".to_string(),
        },
        subject: Subject {
            title: "Fix the frobnicator".to_string(),
            url: "https://api.example.com/repos/acme/widgets/pulls/9".to_string(),
            latest_comment_url: latest.map(|s| s.to_string()),
            subject_type: "PullRequest".to_string(),
        },
        updated_at: "2024-01-01T00:00:00Z".to_string(),
    }
}

#[test]
fn target_prefers_latest_comment() {
    let n = review(Some("https://api.example.com/repos/acme/widgets/issues/comments/5"));
    assert_eq!(n.subject.target_url(), "https://api.example.com/repos/acme/widgets/issues/comments/5");
}

#[test]
fn target_falls_back_to_subject() {
    let n = review(None);
    assert_eq!(n.subject.target_url(), "https://api.example.com/repos/acme/widgets/pulls/9");
}

#[test]
fn alert_text() {
    let n = review(None);
    assert_eq!(n.alert_summary(), "acme/widgets");
    assert_eq!(n.alert_body(), "Fix the frobnicator (PullRequest/ReviewRequested)");
}

#[test]
fn reason_labels() {
    assert_eq!(Reason::CiActivity.label(), "CiActivity");
    assert_eq!(Reason::SecurityAlert.label(), "SecurityAlert");
    assert_eq!(Reason::TeamMention.label(), "TeamMention");
    assert_eq!(Reason::Assign.label(), "Assign");
}

#[test]
fn only_default_action_opens() {
    assert!(wants_open("default"));
    assert!(!wants_open("dismiss"));
    assert!(!wants_open(""));
    assert!(!wants_open("Default"));
}
