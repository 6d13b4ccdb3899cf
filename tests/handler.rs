use review_bridge::handler::{Action, Handler, Reply};
use review_bridge::tracker::IssueReply;

fn found(code: &str) -> Reply {
    Reply::Issue(IssueReply {
        code: Some(code.to_string()),
        id: Some(31),
        project_id: "8".to_string(),
        description: Some("desc".to_string()),
    })
}

fn comment_handler(body: &str) -> (Handler, Action) {
    Handler::start_comment(
        true,
        body,
        "PR_n1",
        4,
        "Title".to_string(),
        "https://github.com/o/r/pull/4".to_string(),
    )
}

#[test]
fn comment_with_reference_runs_the_whole_review() {
    let (h, a) = comment_handler("please review LigaAI#ABC-123");
    match a {
        Action::Remember { key, reference } => {
            assert_eq!(key, "PR_n1:issue");
            assert_eq!(reference, "ABC-123");
        }
        _ => panic!("expected the record to be kept"),
    }
    let (h, a) = h.step(Reply::Remembered);
    assert!(matches!(a, Action::FetchIssue { ref reference } if reference == "ABC-123"));
    let (h, a) = h.step(found("0"));
    assert!(matches!(a, Action::FetchPatch { number: 4 }));
    let (h, a) = h.step(Reply::Patch(Some("From x\n".to_string())));
    match &a {
        Action::Review { title, number, patch } => {
            assert_eq!(title, "Title");
            assert_eq!(*number, 4);
            assert_eq!(patch, "From x\n");
        }
        _ => panic!("expected a review"),
    }
    let (h, a) = h.step(Reply::Reviewed(Some("body".to_string())));
    match &a {
        Action::Update { issue_id, description } => {
            assert_eq!(*issue_id, 31);
            assert_eq!(description, "desc\n> ref: https://github.com/o/r/pull/4\nbody");
        }
        _ => panic!("expected an update"),
    }
    let (h, a) = h.step(Reply::Updated { success: Some(true), raw: "{}".to_string() });
    match &a {
        Action::Comment { number, body } => {
            assert_eq!(*number, 4);
            assert_eq!(
                body,
                "Review sent!\nPlease visit [LigaAI](https://ligai.cn/app/work/table?pid=8&issueid=31) to check it out."
            );
        }
        _ => panic!("expected a comment"),
    }
    let (_, a) = h.step(Reply::Commented);
    assert!(matches!(a, Action::Finish));
}

#[test]
fn comment_without_reference_makes_no_call() {
    let (_, a) = comment_handler("nice work");
    assert!(matches!(a, Action::Finish));
}

#[test]
fn comment_on_plain_issue_makes_no_call() {
    let (_, a) = Handler::start_comment(
        false,
        "LigaAI#ABC-123",
        "I_n",
        4,
        "t".to_string(),
        String::new(),
    );
    assert!(matches!(a, Action::Finish));
}

#[test]
fn failed_tracker_lookup_stops() {
    let (h, _) = comment_handler("LigaAI#ABC-123");
    let (h, _) = h.step(Reply::Remembered);
    let (_, a) = h.step(found("-1"));
    assert!(matches!(a, Action::Finish));
}

#[test]
fn refused_update_reports_raw_answer() {
    let (h, _) = comment_handler("LigaAI#ABC-123");
    let (h, _) = h.step(Reply::Remembered);
    let (h, _) = h.step(found("0"));
    let (h, _) = h.step(Reply::Patch(Some("From x\n".to_string())));
    let (h, _) = h.step(Reply::Reviewed(Some("b".to_string())));
    let raw = "{\"data\":{\"success\":false}}".to_string();
    let (_, a) = h.step(Reply::Updated { success: Some(false), raw: raw.clone() });
    match a {
        Action::Comment { body, .. } => {
            assert_eq!(body, format!("failed...\n{}", raw));
            assert!(!body.contains("ligai.cn"));
        }
        _ => panic!("expected a comment"),
    }
}

#[test]
fn comment_path_without_review_stops() {
    let (h, _) = comment_handler("LigaAI#ABC-123");
    let (h, _) = h.step(Reply::Remembered);
    let (h, _) = h.step(found("0"));
    let (h, _) = h.step(Reply::Patch(Some(String::new())));
    let (_, a) = h.step(Reply::Reviewed(None));
    assert!(matches!(a, Action::Finish));
}

#[test]
fn missing_patch_stops() {
    let (h, _) = comment_handler("LigaAI#ABC-123");
    let (h, _) = h.step(Reply::Remembered);
    let (h, _) = h.step(found("0"));
    let (_, a) = h.step(Reply::Patch(None));
    assert!(matches!(a, Action::Finish));
}

#[test]
fn unexpected_reply_stops() {
    let (h, _) = comment_handler("LigaAI#ABC-123");
    let (_, a) = h.step(Reply::Commented);
    assert!(matches!(a, Action::Finish));
}

fn sync_handler() -> (Handler, Action) {
    Handler::start_sync(
        true,
        Some("aaa".to_string()),
        Some("bbb".to_string()),
        Some("PR_s".to_string()),
        9,
        None,
        "https://api.github.com/repos/o/r/pulls/9".to_string(),
    )
}

#[test]
fn sync_without_record_stops_before_patch() {
    let (h, a) = sync_handler();
    assert!(matches!(a, Action::Recall { ref key } if key == "PR_s:issue"));
    let (_, a) = h.step(Reply::Recalled(None));
    assert!(matches!(a, Action::Finish));
}

#[test]
fn sync_with_record_updates_silently() {
    let (h, _) = sync_handler();
    let (h, a) = h.step(Reply::Recalled(Some("ABC-123".to_string())));
    assert!(matches!(a, Action::FetchIssue { ref reference } if reference == "ABC-123"));
    let (h, a) = h.step(found("0"));
    match &a {
        Action::ComparePatch { before, after } => {
            assert_eq!(before, "aaa");
            assert_eq!(after, "bbb");
        }
        _ => panic!("expected the revisions to be compared"),
    }
    let (h, a) = h.step(Reply::Patch(Some("From y\n".to_string())));
    assert!(matches!(a, Action::Review { ref title, number: 9, .. } if title == "UNTITLED"));
    let (h, a) = h.step(Reply::Reviewed(Some("rev".to_string())));
    match &a {
        Action::Update { issue_id, description } => {
            assert_eq!(*issue_id, 31);
            assert_eq!(description, "desc\n> ref: https://api.github.com/repos/o/r/pulls/9\nrev");
        }
        _ => panic!("expected an update"),
    }
    let (_, a) = h.step(Reply::Updated { success: Some(true), raw: String::new() });
    assert!(matches!(a, Action::Finish));
}

#[test]
fn sync_without_review_leaves_the_issue_alone() {
    let (h, _) = sync_handler();
    let (h, _) = h.step(Reply::Recalled(Some("ABC-123".to_string())));
    let (h, _) = h.step(found("0"));
    let (h, _) = h.step(Reply::Patch(Some("  \n".to_string())));
    let (_, a) = h.step(Reply::Reviewed(None));
    assert!(matches!(a, Action::Finish));
}

#[test]
fn sync_without_node_id_makes_no_call() {
    let (_, a) = Handler::start_sync(
        true,
        Some("aaa".to_string()),
        Some("bbb".to_string()),
        None,
        9,
        None,
        String::new(),
    );
    assert!(matches!(a, Action::Finish));
}

#[test]
fn other_pull_request_actions_make_no_call() {
    let (_, a) = Handler::start_sync(
        false,
        Some("aaa".to_string()),
        Some("bbb".to_string()),
        None,
        9,
        None,
        String::new(),
    );
    assert!(matches!(a, Action::Finish));
    let (_, a) = Handler::start_sync(true, None, Some("bbb".to_string()), None, 9, None, String::new());
    assert!(matches!(a, Action::Finish));
}
