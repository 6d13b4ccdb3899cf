use vstd::prelude::*;

use crate::text::{opt_view, push_str};

verus! {

/// Marks an issue reference in a comment: `LigaAI#` and then a project key of
/// one to five word characters, a dash and a number, the reference itself
/// being the first group.
pub const REFERENCE_PATTERN: &'static str = r"LigaAI#(\w{1,5}-\d+)";

/// Follows a pull request's id in the key of its correlation record.
pub const KEY_SUFFIX: &'static str = ":issue";

/// The text of the first group of the leftmost match of `pattern` in `text`
/// under the `regex` crate's syntax; `None` where nothing matches, the group
/// took part in no match, or the pattern is refused.
pub uninterp spec fn regex_group_of(pattern: Seq<char>, text: Seq<char>) -> Option<Seq<char>>;

/// Relies on regex::Regex::new to compile `pattern` and on Regex::captures
/// for the leftmost match in `text`, whose group 1 is returned.
#[verifier::external_body]
fn first_group(pattern: &str, text: &str) -> (r: Option<String>)
    ensures
        opt_view(r) == regex_group_of(pattern@, text@),
{
    match regex::Regex::new(pattern) {
        Ok(re) => match re.captures(text) {
            Some(caps) => match caps.get(1) {
                Some(m) => Some(m.as_str().to_string()),
                None => None,
            },
            None => None,
        },
        Err(_) => None,
    }
}

/// The issue reference that a comment names, if any.
pub open spec fn reference_in(comment: Seq<char>) -> Option<Seq<char>> {
    regex_group_of(REFERENCE_PATTERN@, comment)
}

/// The key of the correlation record of the pull request with id `node_id`.
pub open spec fn correlation_key_of(node_id: Seq<char>) -> Seq<char> {
    node_id + KEY_SUFFIX@
}

/// What a comment that names an issue asks for.
pub struct CommentTarget {
    /// The issue reference, such as `ABC-123`.
    pub reference: String,
    /// The key under which the pull request's correlation record is kept.
    pub key: String,
}

/// What a synchronize event asks for.
pub struct SyncTarget {
    /// The key of the pull request's correlation record.
    pub key: String,
    /// The revision before the update.
    pub before: String,
    /// The revision after the update.
    pub after: String,
}

/// The issue reference that `comment` names, if any.
pub fn extract_reference(comment: &str) -> (r: Option<String>)
    ensures
        opt_view(r) == reference_in(comment@),
{
    first_group(REFERENCE_PATTERN, comment)
}

/// The key of the correlation record of the pull request with id `node_id`.
pub fn correlation_key(node_id: &str) -> (r: String)
    ensures
        r@ == correlation_key_of(node_id@),
{
    let mut r = String::new();
    push_str(&mut r, node_id);
    push_str(&mut r, KEY_SUFFIX);
    r
}

/// Decides on a comment event: it asks for a review only where it is on a
/// pull request and names an issue; the record key comes from the pull
/// request's id.
pub fn route_comment(on_pull_request: bool, body: &str, node_id: &str) -> (r: Option<CommentTarget>)
    ensures
        r is Some <==> on_pull_request && reference_in(body@) is Some,
        r matches Some(t) ==> {
            &&& Some(t.reference@) == reference_in(body@)
            &&& t.key@ == correlation_key_of(node_id@)
        },
{
    if !on_pull_request {
        return None;
    }
    match extract_reference(body) {
        Some(reference) => Some(CommentTarget { reference, key: correlation_key(node_id) }),
        None => None,
    }
}

/// Decides on a pull request event: it asks for a review only where it is a
/// synchronize event that carries both revisions and the pull request's id,
/// which keys the correlation record.
pub fn route_sync(
    is_synchronize: bool,
    before: Option<String>,
    after: Option<String>,
    node_id: Option<String>,
) -> (r: Option<SyncTarget>)
    ensures
        r is Some <==> is_synchronize && before is Some && after is Some && node_id is Some,
        r matches Some(t) ==> {
            &&& t.before@ == before->0@
            &&& t.after@ == after->0@
            &&& t.key@ == correlation_key_of(node_id->0@)
        },
{
    if !is_synchronize {
        return None;
    }
    match (before, after, node_id) {
        (Some(before), Some(after), Some(n)) => {
            Some(SyncTarget { key: correlation_key(n.as_str()), before, after })
        },
        _ => None,
    }
}

} // verus!
