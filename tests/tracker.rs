use review_bridge::router::{correlation_key, extract_reference, route_comment, route_sync};
use review_bridge::text::{push_decimal, string_of};
use review_bridge::tracker::{
    accept_issue, link_of, outcome_of, updated_description, IssueReply, SyncOutcome, TrackerIssue,
};

fn reply(code: Option<&str>, id: Option<u64>) -> IssueReply {
    IssueReply {
        code: code.map(|c| c.to_string()),
        id,
        project_id: "\"77\"".to_string(),
        description: Some("old".to_string()),
    }
}

fn issue() -> TrackerIssue {
    TrackerIssue { issue_id: 5, project_id: "9".to_string(), description: "d".to_string() }
}

#[test]
fn reference_is_extracted_from_comment() {
    assert_eq!(extract_reference("please review LigaAI#ABC-123"), Some("ABC-123".to_string()));
}

#[test]
fn reference_key_is_at_most_five_word_characters() {
    assert_eq!(extract_reference("LigaAI#ABCDEFG-1"), None);
    assert_eq!(extract_reference("see LigaAI#x_1-9 and LigaAI#B-2"), Some("x_1-9".to_string()));
}

#[test]
fn comment_without_reference_is_ignored() {
    assert!(route_comment(true, "looks good to me", "PR_node").is_none());
    assert!(route_comment(true, "LigaAI ABC-123", "PR_node").is_none());
}

#[test]
fn comment_on_plain_issue_is_ignored() {
    assert!(route_comment(false, "please review LigaAI#ABC-123", "I_node").is_none());
}

#[test]
fn comment_on_pull_request_is_routed() {
    let t = route_comment(true, "please review LigaAI#ABC-123", "PR_kw").unwrap();
    assert_eq!(t.reference, "ABC-123");
    assert_eq!(t.key, "PR_kw:issue");
}

#[test]
fn sync_with_both_revisions_is_routed() {
    let t = route_sync(
        true,
        Some("aaa".to_string()),
        Some("bbb".to_string()),
        Some("PR_x".to_string()),
    )
    .unwrap();
    assert_eq!(t.key, "PR_x:issue");
    assert_eq!(t.before, "aaa");
    assert_eq!(t.after, "bbb");
}

#[test]
fn sync_without_node_id_is_ignored() {
    assert!(route_sync(true, Some("aaa".to_string()), Some("bbb".to_string()), None).is_none());
}

#[test]
fn sync_needs_both_revisions_and_the_action() {
    assert!(route_sync(true, None, Some("bbb".to_string()), None).is_none());
    assert!(route_sync(true, Some("aaa".to_string()), None, None).is_none());
    assert!(route_sync(false, Some("aaa".to_string()), Some("bbb".to_string()), None).is_none());
}

#[test]
fn correlation_key_appends_suffix() {
    assert_eq!(correlation_key("abc"), "abc:issue");
}

#[test]
fn issue_with_success_code_is_accepted() {
    let i = accept_issue(reply(Some("0"), Some(12))).unwrap();
    assert_eq!(i.issue_id, 12);
    assert_eq!(i.project_id, "\"77\"");
    assert_eq!(i.description, "old");
}

#[test]
fn issue_with_other_code_is_refused() {
    assert!(accept_issue(reply(Some("1"), Some(12))).is_none());
    assert!(accept_issue(reply(Some("00"), Some(12))).is_none());
    assert!(accept_issue(reply(None, Some(12))).is_none());
}

#[test]
fn issue_without_id_is_refused() {
    assert!(accept_issue(reply(Some("0"), None)).is_none());
}

#[test]
fn issue_id_is_cut_to_32_bits() {
    let i = accept_issue(reply(Some("0"), Some((1u64 << 32) + 3))).unwrap();
    assert_eq!(i.issue_id, 3);
}

#[test]
fn missing_description_reads_empty() {
    let mut r = reply(Some("0"), Some(1));
    r.description = None;
    assert_eq!(accept_issue(r).unwrap().description, "");
}

#[test]
fn description_gets_review_under_reference() {
    assert_eq!(
        updated_description("old", "https://github.com/o/r/pull/1", "body"),
        "old\n> ref: https://github.com/o/r/pull/1\nbody"
    );
}

#[test]
fn link_names_project_and_issue() {
    assert_eq!(link_of("\"77\"", 4021), "https://ligai.cn/app/work/table?pid=\"77\"&issueid=4021");
}

#[test]
fn successful_update_comments_with_link() {
    let o = outcome_of(Some(true), &issue(), "{}".to_string());
    assert!(matches!(o, SyncOutcome::Applied { issue_id: 5, .. }));
    assert_eq!(
        o.comment(),
        "Review sent!\nPlease visit [LigaAI](https://ligai.cn/app/work/table?pid=9&issueid=5) to check it out."
    );
}

#[test]
fn refused_update_comments_with_raw_answer() {
    let raw = "{\"data\":{\"success\":false}}".to_string();
    let o = outcome_of(Some(false), &issue(), raw.clone());
    let c = o.comment();
    assert_eq!(c, format!("failed...\n{}", raw));
    assert!(!c.contains("ligai.cn"));
}

#[test]
fn update_without_flag_comments_with_raw_answer() {
    let o = outcome_of(None, &issue(), "{\"data\":{}}".to_string());
    assert_eq!(o.comment(), "failed...\n{\"data\":{}}");
}

#[test]
fn decimal_digits() {
    let mut s = String::from("n=");
    push_decimal(&mut s, 0);
    push_decimal(&mut s, 1234567890);
    assert_eq!(s, "n=01234567890");
    push_decimal(&mut s, u64::MAX);
    assert!(s.ends_with("18446744073709551615"));
}

#[test]
fn string_of_characters() {
    assert_eq!(string_of(&vec!['a', 'é', '\n']), "aé\n");
}
