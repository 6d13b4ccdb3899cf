use vstd::prelude::*;

use crate::router::{correlation_key_of, reference_in, route_comment, route_sync};
use crate::tracker::{
    accept_issue, accepted, appended, outcome_of, report, updated_description, IssueReply,
    TrackerIssue,
};
use crate::text::opt_view;

verus! {

/// What the handling of an event waits for.
#[derive(PartialEq, Eq, Structural, Clone, Copy)]
pub enum Phase {
    Remembering,
    Recalling,
    FetchingIssue,
    FetchingPatch,
    Reviewing,
    Updating,
    Commenting,
    Finished,
}

/// What the handling of an event asks its runner to do next.
pub enum Action {
    /// Keep the correlation record `key` → `reference`.
    Remember { key: String, reference: String },
    /// Read the correlation record `key`.
    Recall { key: String },
    /// Look the issue `reference` up in the tracker.
    FetchIssue { reference: String },
    /// Fetch the patch of pull request `number`.
    FetchPatch { number: u64 },
    /// Fetch the patch between two revisions.
    ComparePatch { before: String, after: String },
    /// Review `patch` of pull request `number` titled `title`.
    Review { title: String, number: u64, patch: String },
    /// Set the description of issue `issue_id`.
    Update { issue_id: u32, description: String },
    /// Post `body` as a comment on pull request `number`.
    Comment { number: u64, body: String },
    /// Nothing is left to do.
    Finish,
}

/// What came of the last action.
pub enum Reply {
    /// The record was kept.
    Remembered,
    /// The record read, if there was one.
    Recalled(Option<String>),
    /// The tracker's answer to the lookup.
    Issue(IssueReply),
    /// The patch, if it could be fetched.
    Patch(Option<String>),
    /// The review, if one was made.
    Reviewed(Option<String>),
    /// The tracker's answer to the update: its success flag and its raw text.
    Updated { success: Option<bool>, raw: String },
    /// The comment was posted.
    Commented,
}

/// The handling of one event, one action at a time.
pub struct Handler {
    on_comment: bool,
    number: u64,
    title: String,
    pr_url: String,
    key: String,
    reference: String,
    before: String,
    after: String,
    issue: TrackerIssue,
    phase: Phase,
}

impl Handler {
    /// What the handling waits for.
    pub closed spec fn phase(&self) -> Phase {
        self.phase
    }

    /// The event is a comment (else a pull request update).
    pub closed spec fn on_comment(&self) -> bool {
        self.on_comment
    }

    /// The number of the pull request.
    pub closed spec fn number(&self) -> u64 {
        self.number
    }

    /// The title of the pull request.
    pub closed spec fn title_view(&self) -> Seq<char> {
        self.title@
    }

    /// The address of the pull request that an updated description refers to.
    pub closed spec fn pr_url_view(&self) -> Seq<char> {
        self.pr_url@
    }

    /// The key of the correlation record.
    pub closed spec fn key_view(&self) -> Seq<char> {
        self.key@
    }

    /// The issue reference, once known.
    pub closed spec fn reference_view(&self) -> Seq<char> {
        self.reference@
    }

    /// The revision before the update.
    pub closed spec fn before_view(&self) -> Seq<char> {
        self.before@
    }

    /// The revision after the update.
    pub closed spec fn after_view(&self) -> Seq<char> {
        self.after@
    }

    /// The id of the issue read.
    pub closed spec fn issue_id(&self) -> u32 {
        self.issue.issue_id
    }

    /// The project of the issue read.
    pub closed spec fn project_view(&self) -> Seq<char> {
        self.issue.project_id@
    }

    /// The description of the issue read.
    pub closed spec fn description_view(&self) -> Seq<char> {
        self.issue.description@
    }

    /// `next` and `a` end the handling.
    pub open spec fn ends(next: Handler, a: Action) -> bool {
        next.phase() == Phase::Finished && a is Finish
    }

    /// What is fixed by the event itself stays.
    pub open spec fn same_event(&self, next: Handler) -> bool {
        &&& next.on_comment() == self.on_comment()
        &&& next.number() == self.number()
        &&& next.title_view() == self.title_view()
        &&& next.pr_url_view() == self.pr_url_view()
        &&& next.key_view() == self.key_view()
        &&& next.before_view() == self.before_view()
        &&& next.after_view() == self.after_view()
    }

    /// The issue that was read stays.
    pub open spec fn same_issue(&self, next: Handler) -> bool {
        &&& next.issue_id() == self.issue_id()
        &&& next.project_view() == self.project_view()
        &&& next.description_view() == self.description_view()
    }

    /// From this state, `reply` leads to `next` and to the action `a`. A reply
    /// that does not answer the phase's action ends the handling.
    pub open spec fn transition(&self, reply: Reply, next: Handler, a: Action) -> bool {
        match (self.phase(), reply) {
            (Phase::Remembering, Reply::Remembered) => {
                &&& next.phase() == Phase::FetchingIssue
                &&& next.reference_view() == self.reference_view()
                &&& a matches Action::FetchIssue { reference } && reference@ == self.reference_view()
            },
            (Phase::Recalling, Reply::Recalled(Some(r))) => {
                &&& next.phase() == Phase::FetchingIssue
                &&& next.reference_view() == r@
                &&& a matches Action::FetchIssue { reference } && reference@ == r@
            },
            (Phase::FetchingIssue, Reply::Issue(rep)) => {
                if accepted(opt_view(rep.code), rep.id) {
                    &&& next.phase() == Phase::FetchingPatch
                    &&& next.reference_view() == self.reference_view()
                    &&& next.issue_id() == rep.id->0 as u32
                    &&& next.project_view() == rep.project_id@
                    &&& next.description_view() == match rep.description {
                        Some(d) => d@,
                        None => Seq::<char>::empty(),
                    }
                    &&& if self.on_comment() {
                        a matches Action::FetchPatch { number } && number == self.number()
                    } else {
                        a matches Action::ComparePatch { before, after } && before@
                            == self.before_view() && after@ == self.after_view()
                    }
                } else {
                    Self::ends(next, a)
                }
            },
            (Phase::FetchingPatch, Reply::Patch(Some(p))) => {
                &&& next.phase() == Phase::Reviewing
                &&& next.reference_view() == self.reference_view()
                &&& self.same_issue(next)
                &&& a matches Action::Review { title, number, patch } && title@ == self.title_view()
                    && number == self.number() && patch@ == p@
            },
            (Phase::Reviewing, Reply::Reviewed(Some(b))) => {
                &&& next.phase() == Phase::Updating
                &&& next.reference_view() == self.reference_view()
                &&& self.same_issue(next)
                &&& a matches Action::Update { issue_id, description } && issue_id
                    == self.issue_id() && description@ == appended(
                    self.description_view(),
                    self.pr_url_view(),
                    b@,
                )
            },
            (Phase::Updating, Reply::Updated { success, raw }) => {
                if self.on_comment() {
                    &&& next.phase() == Phase::Commenting
                    &&& next.reference_view() == self.reference_view()
                    &&& self.same_issue(next)
                    &&& a matches Action::Comment { number, body } && number == self.number()
                        && body@ == report(success, self.issue_id(), self.project_view(), raw@)
                } else {
                    Self::ends(next, a)
                }
            },
            _ => Self::ends(next, a),
        }
    }

    fn finished(self) -> (r: (Handler, Action))
        ensures
            Self::ends(r.0, r.1),
            self.same_event(r.0),
    {
        (Handler { phase: Phase::Finished, ..self }, Action::Finish)
    }

    /// Starts the handling of a comment: a comment on a pull request that
    /// names an issue first keeps the correlation record; any other comment
    /// ends the handling at once, with no call made.
    pub fn start_comment(
        on_pull_request: bool,
        body: &str,
        node_id: &str,
        number: u64,
        title: String,
        pr_url: String,
    ) -> (r: (Handler, Action))
        ensures
            !(on_pull_request && reference_in(body@) is Some) ==> Self::ends(r.0, r.1),
            on_pull_request && reference_in(body@) is Some ==> {
                &&& r.0.phase() == Phase::Remembering
                &&& r.0.on_comment()
                &&& r.0.number() == number
                &&& r.0.title_view() == title@
                &&& r.0.pr_url_view() == pr_url@
                &&& Some(r.0.reference_view()) == reference_in(body@)
                &&& r.0.key_view() == correlation_key_of(node_id@)
                &&& r.1 matches Action::Remember { key, reference } && key@ == correlation_key_of(
                    node_id@,
                ) && Some(reference@) == reference_in(body@)
            },
    {
        let target = route_comment(on_pull_request, body, node_id);
        let (phase, key, reference) = match target {
            Some(t) => (Phase::Remembering, t.key, t.reference),
            None => (Phase::Finished, String::new(), String::new()),
        };
        let action = match phase {
            Phase::Remembering => Action::Remember { key: key.clone(), reference: reference.clone() },
            _ => Action::Finish,
        };
        let h = Handler {
            on_comment: true,
            number,
            title,
            pr_url,
            key,
            reference,
            before: String::new(),
            after: String::new(),
            issue: TrackerIssue { issue_id: 0, project_id: String::new(), description: String::new() },
            phase,
        };
        (h, action)
    }

    /// Starts the handling of a pull request event: a synchronize event that
    /// carries both revisions and the pull request's id first reads the
    /// correlation record; any other event ends the handling at once, with no
    /// call made.
    pub fn start_sync(
        is_synchronize: bool,
        before: Option<String>,
        after: Option<String>,
        node_id: Option<String>,
        number: u64,
        title: Option<String>,
        url: String,
    ) -> (r: (Handler, Action))
        ensures
            !(is_synchronize && before is Some && after is Some && node_id is Some) ==> Self::ends(
                r.0,
                r.1,
            ),
            is_synchronize && before is Some && after is Some && node_id is Some ==> {
                &&& r.0.phase() == Phase::Recalling
                &&& !r.0.on_comment()
                &&& r.0.number() == number
                &&& r.0.title_view() == match title {
                    Some(t) => t@,
                    None => "UNTITLED"@,
                }
                &&& r.0.pr_url_view() == url@
                &&& r.0.before_view() == before->0@
                &&& r.0.after_view() == after->0@
                &&& r.0.key_view() == correlation_key_of(node_id->0@)
                &&& r.1 matches Action::Recall { key } && key@ == r.0.key_view()
            },
    {
        let target = route_sync(is_synchronize, before, after, node_id);
        let title = match title {
            Some(t) => t,
            None => "UNTITLED".to_string(),
        };
        let (phase, key, before, after) = match target {
            Some(t) => (Phase::Recalling, t.key, t.before, t.after),
            None => (Phase::Finished, String::new(), String::new(), String::new()),
        };
        let action = match phase {
            Phase::Recalling => Action::Recall { key: key.clone() },
            _ => Action::Finish,
        };
        let h = Handler {
            on_comment: false,
            number,
            title,
            pr_url: url,
            key,
            reference: String::new(),
            before,
            after,
            issue: TrackerIssue { issue_id: 0, project_id: String::new(), description: String::new() },
            phase,
        };
        (h, action)
    }

    /// Takes the reply to the last action and gives the next one, as
    /// `transition` says.
    pub fn step(self, reply: Reply) -> (r: (Handler, Action))
        ensures
            self.transition(reply, r.0, r.1),
            self.same_event(r.0),
    {
        match (self.phase, reply) {
            (Phase::Remembering, Reply::Remembered) => {
                let a = Action::FetchIssue { reference: self.reference.clone() };
                (Handler { phase: Phase::FetchingIssue, ..self }, a)
            },
            (Phase::Recalling, Reply::Recalled(Some(r))) => {
                let a = Action::FetchIssue { reference: r.clone() };
                (Handler { phase: Phase::FetchingIssue, reference: r, ..self }, a)
            },
            (Phase::FetchingIssue, Reply::Issue(rep)) => {
                match accept_issue(rep) {
                    Some(issue) => {
                        let a = if self.on_comment {
                            Action::FetchPatch { number: self.number }
                        } else {
                            Action::ComparePatch {
                                before: self.before.clone(),
                                after: self.after.clone(),
                            }
                        };
                        (Handler { phase: Phase::FetchingPatch, issue, ..self }, a)
                    },
                    None => self.finished(),
                }
            },
            (Phase::FetchingPatch, Reply::Patch(Some(p))) => {
                let a = Action::Review { title: self.title.clone(), number: self.number, patch: p };
                (Handler { phase: Phase::Reviewing, ..self }, a)
            },
            (Phase::Reviewing, Reply::Reviewed(Some(body))) => {
                let description = updated_description(
                    self.issue.description.as_str(),
                    self.pr_url.as_str(),
                    body.as_str(),
                );
                let a = Action::Update { issue_id: self.issue.issue_id, description };
                (Handler { phase: Phase::Updating, ..self }, a)
            },
            (Phase::Updating, Reply::Updated { success, raw }) => {
                if self.on_comment {
                    let outcome = outcome_of(success, &self.issue, raw);
                    let a = Action::Comment { number: self.number, body: outcome.comment() };
                    (Handler { phase: Phase::Commenting, ..self }, a)
                } else {
                    self.finished()
                }
            },
            _ => self.finished(),
        }
    }
}

} // verus!
