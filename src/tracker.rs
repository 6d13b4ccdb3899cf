use vstd::prelude::*;

use crate::text::{decimal, opt_view, push_decimal, push_str};

verus! {

/// Where the tracker shows an issue, before the project id.
pub const LINK_HEAD: &'static str = "https://ligai.cn/app/work/table?pid=";

/// Where the tracker shows an issue, between the project id and the issue id.
pub const LINK_ISSUE: &'static str = "&issueid=";

/// Opens the comment that confirms an update.
pub const SENT_HEAD: &'static str = "Review sent!\nPlease visit [LigaAI](";

/// Closes the comment that confirms an update.
pub const SENT_TAIL: &'static str = ") to check it out.";

/// Opens the comment that reports a failed update.
pub const FAILED_HEAD: &'static str = "failed...\n";

/// Before the pull request's address in an updated description.
pub const REF_HEAD: &'static str = "\n> ref: ";

/// What the tracker answered to a lookup of an issue, as far as it is read.
pub struct IssueReply {
    /// The status code; `"0"` is success.
    pub code: Option<String>,
    /// The issue's id.
    pub id: Option<u64>,
    /// The project's id, as the tracker wrote it.
    pub project_id: String,
    /// The issue's description.
    pub description: Option<String>,
}

/// An issue fetched from the tracker.
pub struct TrackerIssue {
    pub issue_id: u32,
    pub project_id: String,
    pub description: String,
}

/// What became of an update of an issue.
pub enum SyncOutcome {
    /// The tracker took the update.
    Applied { issue_id: u32, project_id: String },
    /// It did not; its raw answer.
    Failed { raw: String },
}

/// A status code that means success.
pub open spec fn is_success_code(code: Seq<char>) -> bool {
    code == "0"@
}

/// A lookup reply holds an issue: its status code is success and it has an id.
pub open spec fn accepted(code: Option<Seq<char>>, id: Option<u64>) -> bool {
    &&& code matches Some(c) && is_success_code(c)
    &&& id is Some
}

/// The address of an issue in the tracker.
pub open spec fn issue_link(project_id: Seq<char>, issue_id: u32) -> Seq<char> {
    LINK_HEAD@ + project_id + LINK_ISSUE@ + decimal(issue_id as nat)
}

/// A description with a review appended under a reference to the pull request.
pub open spec fn appended(description: Seq<char>, pr_url: Seq<char>, body: Seq<char>) -> Seq<char> {
    description + REF_HEAD@ + pr_url + "\n"@ + body
}

/// The comment that confirms an update of an issue.
pub open spec fn sent_comment(project_id: Seq<char>, issue_id: u32) -> Seq<char> {
    SENT_HEAD@ + issue_link(project_id, issue_id) + SENT_TAIL@
}

/// The comment that reports an outcome.
pub open spec fn comment_of(outcome: SyncOutcome) -> Seq<char> {
    match outcome {
        SyncOutcome::Applied { issue_id, project_id } => sent_comment(project_id@, issue_id),
        SyncOutcome::Failed { raw } => FAILED_HEAD@ + raw@,
    }
}

/// The comment that reports an update of an issue from the tracker's success
/// flag and raw answer: a link to the issue only where the flag is present
/// and true.
pub open spec fn report(success: Option<bool>, issue_id: u32, project_id: Seq<char>, raw: Seq<char>) -> Seq<char> {
    if success == Some(true) {
        sent_comment(project_id, issue_id)
    } else {
        FAILED_HEAD@ + raw
    }
}

fn success_code(code: &str) -> (r: bool)
    ensures
        r == is_success_code(code@),
{
    proof {
        reveal_strlit("0");
    }
    if code.unicode_len() == 1 {
        let c = code.get_char(0);
        proof {
            if c == '0' {
                assert(code@ =~= "0"@);
            }
        }
        c == '0'
    } else {
        false
    }
}

/// The issue of a lookup reply: present exactly when the status code is
/// `"0"` and an id came back, the id cut to 32 bits, a missing description
/// read as empty.
pub fn accept_issue(reply: IssueReply) -> (r: Option<TrackerIssue>)
    ensures
        r is Some <==> accepted(opt_view(reply.code), reply.id),
        r matches Some(i) ==> {
            &&& i.issue_id == reply.id->0 as u32
            &&& i.project_id@ == reply.project_id@
            &&& i.description@ == match reply.description {
                Some(d) => d@,
                None => Seq::<char>::empty(),
            }
        },
{
    let ok = match &reply.code {
        Some(c) => success_code(c.as_str()),
        None => false,
    };
    if !ok {
        return None;
    }
    match reply.id {
        Some(id) => {
            let description = match reply.description {
                Some(d) => d,
                None => String::new(),
            };
            Some(TrackerIssue { issue_id: id as u32, project_id: reply.project_id, description })
        },
        None => None,
    }
}

/// The address of an issue in the tracker.
pub fn link_of(project_id: &str, issue_id: u32) -> (r: String)
    ensures
        r@ == issue_link(project_id@, issue_id),
{
    let mut r = String::new();
    push_str(&mut r, LINK_HEAD);
    push_str(&mut r, project_id);
    push_str(&mut r, LINK_ISSUE);
    push_decimal(&mut r, issue_id as u64);
    r
}

/// The issue's description with `body` appended under a reference to the
/// pull request at `pr_url`.
pub fn updated_description(description: &str, pr_url: &str, body: &str) -> (r: String)
    ensures
        r@ == appended(description@, pr_url@, body@),
{
    let mut r = String::new();
    push_str(&mut r, description);
    push_str(&mut r, REF_HEAD);
    push_str(&mut r, pr_url);
    push_str(&mut r, "\n");
    push_str(&mut r, body);
    r
}

/// The outcome of an update of `issue` from the tracker's `success` flag:
/// applied only where the flag is present and true; otherwise failed, with
/// the tracker's raw answer.
pub fn outcome_of(success: Option<bool>, issue: &TrackerIssue, raw: String) -> (r: SyncOutcome)
    ensures
        success == Some(true) ==> r == (SyncOutcome::Applied {
            issue_id: issue.issue_id,
            project_id: issue.project_id,
        }),
        success != Some(true) ==> r == (SyncOutcome::Failed { raw }),
{
    match success {
        Some(true) => SyncOutcome::Applied {
            issue_id: issue.issue_id,
            project_id: issue.project_id.clone(),
        },
        _ => SyncOutcome::Failed { raw },
    }
}

impl SyncOutcome {
    /// The one comment that reports this outcome on the pull request: a link
    /// to the issue, or the tracker's raw answer.
    pub fn comment(&self) -> (r: String)
        ensures
            r@ == comment_of(*self),
    {
        let mut r = String::new();
        match self {
            SyncOutcome::Applied { issue_id, project_id } => {
                push_str(&mut r, SENT_HEAD);
                let link = link_of(project_id.as_str(), *issue_id);
                push_str(&mut r, link.as_str());
                push_str(&mut r, SENT_TAIL);
            },
            SyncOutcome::Failed { raw } => {
                push_str(&mut r, FAILED_HEAD);
                push_str(&mut r, raw.as_str());
            },
        }
        r
    }
}

} // verus!
