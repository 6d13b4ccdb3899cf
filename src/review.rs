use vstd::prelude::*;

use crate::segment::views;
use crate::text::{decimal, opt_view, push_decimal, push_str};

verus! {

/// Opens every review: who writes it.
pub const PREAMBLE: &'static str = "Hello, I am a [serverless review bot](https://github.com/flows-network/github-pr-summary/) on [flows.network](https://flows.network/). Here are my reviews of code commits in this PR.\n\n------\n\n";

/// Closes the overall summary, before the reviews of single commits.
pub const DETAILS: &'static str = "\n\n## Details\n\n";

/// Opens the review of one commit; its 1-based number follows.
pub const COMMIT_HEAD: &'static str = "### Commit ";

/// Opens each commit review inside the text of the overall request.
pub const SUMMARY_DELIM: &'static str = "------\n";

/// The system prompt before the pull request's title.
pub const SYSTEM_HEAD: &'static str = "An experienced software developer reviews the GitHub Pull Request titled \"";

/// The system prompt after the pull request's title.
pub const SYSTEM_TAIL: &'static str = "\".";

/// The request for one commit, before its patch text.
pub const CHUNK_INSTRUCTION: &'static str = "The following is a GitHub patch. Please summarize the key changes and identify potential problems. Start with the most important findings.\n\n";

/// The request for the overall summary, before the commit reviews.
pub const AGGREGATE_INSTRUCTION: &'static str = "Here is a set of summaries for software source code patches. Each summary starts with a ------ line. Please write an overall summary considering all the individual summary. Please present the potential issues and errors first, following by the most important findings, in your summary.\n\n";

/// The chat session of a pull request, before its number.
pub const SESSION_HEAD: &'static str = "PR#";

/// The replies that came back, in order, the failed calls left out.
pub open spec fn kept(replies: Seq<Option<Seq<char>>>) -> Seq<Seq<char>>
    decreases replies.len(),
{
    if replies.len() == 0 {
        Seq::empty()
    } else {
        let k = kept(replies.drop_last());
        match replies.last() {
            Some(r) => k.push(r),
            None => k,
        }
    }
}

/// The commit reviews as the overall request shows them: each after a
/// delimiter line, and only while the text so far is shorter than `budget`.
pub open spec fn review_text(reviews: Seq<Seq<char>>, budget: nat) -> Seq<char>
    decreases reviews.len(),
{
    if reviews.len() == 0 {
        Seq::empty()
    } else {
        let t = review_text(reviews.drop_last(), budget);
        if t.len() < budget {
            t + SUMMARY_DELIM@ + reviews.last() + "\n"@
        } else {
            t
        }
    }
}

/// The section of commit number `n`.
pub open spec fn commit_section(n: nat, review: Seq<char>) -> Seq<char> {
    COMMIT_HEAD@ + decimal(n) + "\n"@ + review + "\n\n"@
}

/// The sections of all commit reviews, numbered from 1 in order.
pub open spec fn commit_sections(reviews: Seq<Seq<char>>) -> Seq<char>
    decreases reviews.len(),
{
    if reviews.len() == 0 {
        Seq::empty()
    } else {
        commit_sections(reviews.drop_last()) + commit_section(reviews.len(), reviews.last())
    }
}

/// The review text: the preamble, the overall summary if there is one, and
/// the section of each commit review.
pub open spec fn review_body(reviews: Seq<Seq<char>>, aggregate: Option<Seq<char>>) -> Seq<char> {
    PREAMBLE@ + match aggregate {
        Some(a) => a + DETAILS@,
        None => Seq::empty(),
    } + commit_sections(reviews)
}

/// The review made from the replies to the commit requests and the reply to
/// the overall request: the overall summary counts only where more than one
/// commit review came back.
pub open spec fn summary(replies: Seq<Option<Seq<char>>>, aggregate: Option<Seq<char>>) -> Seq<char> {
    review_body(kept(replies), if kept(replies).len() > 1 { aggregate } else { None })
}

proof fn lemma_kept_all(replies: Seq<Seq<char>>)
    ensures
        kept(replies.map_values(|r: Seq<char>| Some(r))) == replies,
    decreases replies.len(),
{
    if replies.len() > 0 {
        let all = replies.map_values(|r: Seq<char>| Some(r));
        assert(all.drop_last() == replies.drop_last().map_values(|r: Seq<char>| Some(r)));
        lemma_kept_all(replies.drop_last());
        assert(replies.drop_last().push(replies.last()) == replies);
    }
}

/// With a single chunk whose request succeeded, the review holds no overall
/// summary, whatever the overall request returned: the preamble, then that
/// chunk's review as commit 1.
pub proof fn lemma_single_chunk_review(reply: Seq<char>, aggregate: Option<Seq<char>>)
    ensures
        summary(seq![Some(reply)], aggregate) == PREAMBLE@ + commit_section(1, reply),
{
    let replies = seq![Some(reply)];
    assert(replies.drop_last() =~= Seq::empty());
    assert(kept(Seq::<Option<Seq<char>>>::empty()) == Seq::<Seq<char>>::empty());
    assert(replies.last() == Some(reply));
    assert(Seq::<Seq<char>>::empty().push(reply) =~= seq![reply]);
    assert(kept(replies) == seq![reply]);
    assert(seq![reply].drop_last() =~= Seq::<Seq<char>>::empty());
    assert(commit_sections(Seq::<Seq<char>>::empty()) == Seq::<char>::empty());
    assert(Seq::<char>::empty() + commit_section(1, reply) =~= commit_section(1, reply));
    assert(commit_sections(seq![reply]) == commit_section(1, reply));
    assert(PREAMBLE@ + Seq::<char>::empty() =~= PREAMBLE@);
}

/// With two or more chunks whose requests all succeeded and an overall
/// summary that came back, the review is the preamble, the overall summary
/// once, then one section per chunk, in chunk order.
pub proof fn lemma_full_review(replies: Seq<Seq<char>>, aggregate: Seq<char>)
    requires
        replies.len() >= 2,
    ensures
        summary(replies.map_values(|r: Seq<char>| Some(r)), Some(aggregate)) == PREAMBLE@
            + aggregate + DETAILS@ + commit_sections(replies),
{
    lemma_kept_all(replies);
    assert(PREAMBLE@ + (aggregate + DETAILS@) == PREAMBLE@ + aggregate + DETAILS@);
}

/// The system prompt for a pull request's title.
pub open spec fn system_prompt(title: Seq<char>) -> Seq<char> {
    SYSTEM_HEAD@ + title + SYSTEM_TAIL@
}

/// The chat session of a pull request.
pub open spec fn session_key(pull_number: nat) -> Seq<char> {
    SESSION_HEAD@ + decimal(pull_number)
}

/// How many times the chat client tries a request again before it counts
/// as failed.
pub const RETRY_TIMES: u8 = 3;

/// The chat models a request can name.
#[derive(PartialEq, Eq, Structural, Clone, Copy)]
pub enum Model {
    Gpt35Turbo,
}

/// One request to the chat service.
pub struct ChatRequest {
    /// The session that the request belongs to.
    pub session: String,
    /// The system prompt.
    pub system: String,
    /// The user prompt.
    pub question: String,
    /// The model to ask.
    pub model: Model,
    /// The session's earlier conversation is forgotten before the request.
    pub restart: bool,
    /// How many times the client tries the request again.
    pub retries: u8,
}

/// The review of one pull request, driven one chat reply at a time: first a
/// request for each chunk, then, where more than one came back, one for the
/// overall summary.
pub struct Summarizer {
    chunks: Vec<String>,
    system: String,
    session: String,
    budget: usize,
    asked: usize,
    reviews: Vec<String>,
    reviews_text: String,
    text_len: usize,
    aggregate_asked: bool,
    aggregate: Option<String>,
    replies: Ghost<Seq<Option<Seq<char>>>>,
}

impl Summarizer {
    /// The chunks under review.
    pub closed spec fn chunks_view(&self) -> Seq<Seq<char>> {
        views(self.chunks@)
    }

    /// The replies to the chunk requests so far, one per chunk asked.
    pub closed spec fn replies(&self) -> Seq<Option<Seq<char>>> {
        self.replies@
    }

    /// The overall request has been made.
    pub closed spec fn aggregate_asked(&self) -> bool {
        self.aggregate_asked
    }

    /// The reply to the overall request.
    pub closed spec fn aggregate_reply(&self) -> Option<Seq<char>> {
        opt_view(self.aggregate)
    }

    /// The system prompt of every request.
    pub closed spec fn system_view(&self) -> Seq<char> {
        self.system@
    }

    /// The chat session of every request.
    pub closed spec fn session_view(&self) -> Seq<char> {
        self.session@
    }

    /// The limit on the commit reviews gathered into the overall request.
    pub closed spec fn budget_view(&self) -> nat {
        self.budget as nat
    }

    /// The state is consistent.
    pub closed spec fn wf(&self) -> bool {
        &&& self.chunks.len() > 0
        &&& self.replies@.len() <= self.chunks.len()
        &&& self.asked == self.replies@.len()
        &&& views(self.reviews@) == kept(self.replies@)
        &&& self.reviews_text@ == review_text(kept(self.replies@), self.budget as nat)
        &&& self.text_len as int == if self.reviews_text@.len() < self.budget {
            self.reviews_text@.len() as int
        } else {
            self.budget as int
        }
        &&& self.aggregate_asked ==> self.replies@.len() == self.chunks.len() && kept(
            self.replies@,
        ).len() > 1
        &&& !self.aggregate_asked ==> self.aggregate is None
    }

    /// No request is left.
    pub open spec fn is_done(&self) -> bool {
        &&& self.replies().len() == self.chunks_view().len()
        &&& kept(self.replies()).len() <= 1 || self.aggregate_asked()
    }

    /// `r` is a request of this review with this question: to GPT-3.5 Turbo,
    /// with the session restarted, and tried again up to `RETRY_TIMES` times.
    pub open spec fn asks(&self, r: ChatRequest, question: Seq<char>) -> bool {
        &&& r.session@ == self.session_view()
        &&& r.system@ == self.system_view()
        &&& r.question@ == question
        &&& r.model == Model::Gpt35Turbo
        &&& r.restart
        &&& r.retries == RETRY_TIMES
    }

    /// Starts the review of `chunks`; there is none to make of no chunks.
    pub fn new(title: &str, pull_number: u64, chunks: Vec<String>, budget: usize) -> (r: Option<
        Summarizer,
    >)
        ensures
            chunks.len() == 0 <==> r is None,
            r matches Some(s) ==> {
                &&& s.wf()
                &&& s.chunks_view() == views(chunks@)
                &&& s.replies().len() == 0
                &&& !s.aggregate_asked()
                &&& s.system_view() == system_prompt(title@)
                &&& s.session_view() == session_key(pull_number as nat)
                &&& s.budget_view() == budget as nat
            },
    {
        if chunks.len() == 0 {
            return None;
        }
        let mut system = String::new();
        push_str(&mut system, SYSTEM_HEAD);
        push_str(&mut system, title);
        push_str(&mut system, SYSTEM_TAIL);
        let mut session = String::new();
        push_str(&mut session, SESSION_HEAD);
        push_decimal(&mut session, pull_number);
        let s = Summarizer {
            chunks,
            system,
            session,
            budget,
            asked: 0,
            reviews: Vec::new(),
            reviews_text: String::new(),
            text_len: 0,
            aggregate_asked: false,
            aggregate: None,
            replies: Ghost(Seq::empty()),
        };
        assert(views(s.reviews@) =~= kept(Seq::empty()));
        Some(s)
    }

    fn request(&self, question: String) -> (r: ChatRequest)
        ensures
            self.asks(r, question@),
    {
        ChatRequest {
            session: self.session.clone(),
            system: self.system.clone(),
            question,
            model: Model::Gpt35Turbo,
            restart: true,
            retries: RETRY_TIMES,
        }
    }

    /// The next request to send, if any: the one for the next chunk, else the
    /// one for the overall summary where more than one chunk review came back
    /// and it has not been asked yet.
    pub fn next_request(&self) -> (r: Option<ChatRequest>)
        requires
            self.wf(),
        ensures
            self.replies().len() < self.chunks_view().len() ==> r is Some && self.asks(
                r->0,
                CHUNK_INSTRUCTION@ + self.chunks_view()[self.replies().len() as int],
            ),
            self.replies().len() == self.chunks_view().len() && kept(self.replies()).len() > 1
                && !self.aggregate_asked() ==> r is Some && self.asks(
                r->0,
                AGGREGATE_INSTRUCTION@ + review_text(kept(self.replies()), self.budget_view()),
            ),
            self.is_done() <==> r is None,
    {
        let next = self.asked;
        if next < self.chunks.len() {
            let mut q = String::new();
            push_str(&mut q, CHUNK_INSTRUCTION);
            push_str(&mut q, self.chunks[next].as_str());
            Some(self.request(q))
        } else if self.reviews.len() > 1 && !self.aggregate_asked {
            let mut q = String::new();
            push_str(&mut q, AGGREGATE_INSTRUCTION);
            push_str(&mut q, self.reviews_text.as_str());
            Some(self.request(q))
        } else {
            None
        }
    }

    /// Takes the reply to the request that `next_request` gave: `None` where
    /// the call failed. A reply to a chunk request joins the replies; any
    /// other is the reply to the overall request.
    pub fn record(&mut self, reply: Option<String>)
        requires
            old(self).wf(),
            !old(self).is_done(),
        ensures
            final(self).wf(),
            final(self).chunks_view() == old(self).chunks_view(),
            final(self).system_view() == old(self).system_view(),
            final(self).session_view() == old(self).session_view(),
            final(self).budget_view() == old(self).budget_view(),
            old(self).replies().len() < old(self).chunks_view().len() ==> {
                &&& final(self).replies() == old(self).replies().push(opt_view(reply))
                &&& !final(self).aggregate_asked()
            },
            old(self).replies().len() == old(self).chunks_view().len() ==> {
                &&& final(self).replies() == old(self).replies()
                &&& final(self).aggregate_asked()
                &&& final(self).aggregate_reply() == opt_view(reply)
            },
    {
        if self.asked < self.chunks.len() {
            let ghost old_replies = self.replies@;
            let ghost new_replies = old_replies.push(opt_view(reply));
            assert(new_replies.drop_last() == old_replies);
            match reply {
                Some(r) => {
                    assert(kept(new_replies).drop_last() == kept(old_replies));
                    assert(kept(new_replies).last() == r@);
                    if self.text_len < self.budget {
                        let n = r.as_str().unicode_len();
                        push_str(&mut self.reviews_text, SUMMARY_DELIM);
                        push_str(&mut self.reviews_text, r.as_str());
                        push_str(&mut self.reviews_text, "\n");
                        proof {
                            reveal_strlit("------\n");
                            reveal_strlit("\n");
                            assert(self.reviews_text@.len() == self.text_len + n + 8);
                        }
                        let room = self.budget - self.text_len;
                        if n.saturating_add(8) >= room {
                            self.text_len = self.budget;
                        } else {
                            self.text_len = self.text_len + n + 8;
                        }
                    }
                    self.reviews.push(r);
                },
                None => {
                    assert(kept(new_replies) == kept(old_replies));
                },
            }
            self.asked = self.asked + 1;
            self.replies = Ghost(new_replies);
            assert(views(self.reviews@) =~= kept(new_replies));
        } else {
            self.aggregate_asked = true;
            self.aggregate = reply;
        }
    }

    /// The review, once no request is left: the preamble, the overall summary
    /// where more than one chunk review came back and the overall request
    /// succeeded, then every chunk review under its number.
    pub fn finish(&self) -> (r: String)
        requires
            self.wf(),
            self.is_done(),
        ensures
            r@ == summary(self.replies(), self.aggregate_reply()),
    {
        let mut r = String::new();
        push_str(&mut r, PREAMBLE);
        if self.reviews.len() > 1 {
            match &self.aggregate {
                Some(a) => {
                    push_str(&mut r, a.as_str());
                    push_str(&mut r, DETAILS);
                },
                None => {},
            }
        }
        let ghost reviews = kept(self.replies@);
        let ghost head = r@;
        assert(head == PREAMBLE@ + match (if reviews.len() > 1 { self.aggregate_reply() } else { None }) {
            Some(a) => a + DETAILS@,
            None => Seq::<char>::empty(),
        });
        let mut i: usize = 0;
        while i < self.reviews.len()
            invariant
                self.wf(),
                reviews == kept(self.replies@),
                i <= self.reviews.len(),
                r@ == head + commit_sections(reviews.take(i as int)),
            decreases self.reviews.len() - i,
        {
            let ghost before = r@;
            assert(reviews.take(i + 1).drop_last() == reviews.take(i as int));
            assert(views(self.reviews@)[i as int] == self.reviews[i as int]@);
            push_str(&mut r, COMMIT_HEAD);
            push_decimal(&mut r, (i + 1) as u64);
            push_str(&mut r, "\n");
            push_str(&mut r, self.reviews[i].as_str());
            push_str(&mut r, "\n\n");
            assert(r@ == before + commit_section((i + 1) as nat, reviews[i as int]));
            i = i + 1;
        }
        assert(reviews.take(self.reviews.len() as int) == reviews);
        r
    }
}

} // verus!
