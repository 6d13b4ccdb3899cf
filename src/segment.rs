use vstd::prelude::*;

use crate::text::{blank, chars_of, is_blank, line_scan, lines_of, split_lines, string_of};

verus! {

/// A line that opens a new commit of a patch: it starts with `From `.
pub open spec fn is_marker(line: Seq<char>) -> bool {
    line.len() >= 5 && line.take(5) == seq!['F', 'r', 'o', 'm', ' ']
}

/// Scans `lines` from the first: the chunks sealed so far and the chunk
/// still open. A marker line seals a non-empty open chunk and starts a new
/// one; a line (with its newline) joins the open chunk only while that chunk
/// is shorter than `budget`.
pub open spec fn segment_scan(lines: Seq<Seq<char>>, budget: nat) -> (Seq<Seq<char>>, Seq<char>)
    decreases lines.len(),
{
    if lines.len() == 0 {
        (Seq::empty(), Seq::empty())
    } else {
        let (sealed, open) = segment_scan(lines.drop_last(), budget);
        let line = lines.last();
        let (sealed, open) = if is_marker(line) {
            (if open.len() > 0 { sealed.push(open) } else { sealed }, Seq::<char>::empty())
        } else {
            (sealed, open)
        };
        (sealed, if open.len() < budget { open + line.push('\n') } else { open })
    }
}

/// The chunks of `patch` under `budget`: none for a blank patch, else the
/// sealed chunks of the scan followed by the last one if it is non-empty.
pub open spec fn segments(patch: Seq<char>, budget: nat) -> Seq<Seq<char>> {
    if is_blank(patch) {
        Seq::empty()
    } else {
        let (sealed, open) = segment_scan(lines_of(patch), budget);
        if open.len() > 0 {
            sealed.push(open)
        } else {
            sealed
        }
    }
}

/// The number of marker lines among `lines`.
pub open spec fn count_markers(lines: Seq<Seq<char>>) -> nat
    decreases lines.len(),
{
    if lines.len() == 0 {
        0
    } else {
        count_markers(lines.drop_last()) + if is_marker(lines.last()) { 1nat } else { 0nat }
    }
}

/// The views of a sequence of strings.
pub open spec fn views(v: Seq<String>) -> Seq<Seq<char>> {
    v.map_values(|s: String| s@)
}

fn starts_with_marker(line: &Vec<char>) -> (r: bool)
    ensures
        r == is_marker(line@),
{
    if line.len() >= 5 && line[0] == 'F' && line[1] == 'r' && line[2] == 'o' && line[3] == 'm'
        && line[4] == ' ' {
        assert(line@.take(5) =~= seq!['F', 'r', 'o', 'm', ' ']);
        true
    } else {
        proof {
            if line@.len() >= 5 && line@.take(5) == seq!['F', 'r', 'o', 'm', ' '] {
                assert(line@.take(5)[0] == 'F');
                assert(line@.take(5)[1] == 'r');
                assert(line@.take(5)[2] == 'o');
                assert(line@.take(5)[3] == 'm');
                assert(line@.take(5)[4] == ' ');
            }
        }
        false
    }
}

/// Splits a patch into one chunk per commit, each cut to about `budget`
/// characters, exactly as `segments` says.
pub fn segment(patch: &str, budget: usize) -> (r: Vec<String>)
    ensures
        views(r@) == segments(patch@, budget as nat),
{
    let text = chars_of(patch);
    if blank(&text) {
        let r: Vec<String> = Vec::new();
        assert(views(r@) =~= Seq::empty());
        return r;
    }
    let lines = split_lines(&text);
    let ghost lv = lines@.map_values(|l: Vec<char>| l@);
    let mut sealed: Vec<String> = Vec::new();
    let mut open: Vec<char> = Vec::new();
    let mut i: usize = 0;
    while i < lines.len()
        invariant
            i <= lines.len(),
            lv == lines_of(patch@),
            lv == lines@.map_values(|l: Vec<char>| l@),
            segment_scan(lv.take(i as int), budget as nat) == (views(sealed@), open@),
        decreases lines.len() - i,
    {
        assert(lv.take(i + 1).drop_last() == lv.take(i as int));
        let line = &lines[i];
        if starts_with_marker(line) {
            if open.len() > 0 {
                sealed.push(string_of(&open));
            }
            open = Vec::new();
        }
        if open.len() < budget {
            let mut k: usize = 0;
            let ghost before = open@;
            while k < line.len()
                invariant
                    k <= line.len(),
                    open@ == before + line@.take(k as int),
                decreases line.len() - k,
            {
                open.push(line[k]);
                assert(line@.take(k + 1) == line@.take(k as int).push(line@[k as int]));
                k = k + 1;
            }
            assert(line@.take(line.len() as int) == line@);
            open.push('\n');
        }
        assert(views(sealed@) == segment_scan(lv.take(i + 1), budget as nat).0);
        i = i + 1;
    }
    assert(lv.take(lines.len() as int) == lv);
    if open.len() > 0 {
        sealed.push(string_of(&open));
    }
    assert(views(sealed@) == segments(patch@, budget as nat));
    sealed
}

proof fn lemma_nonempty_lines(s: Seq<char>)
    requires
        s.len() > 0,
    ensures
        lines_of(s).len() > 0,
{
    if s.last() == '\n' {
        assert(line_scan(s).0.len() > 0);
    } else {
        assert(line_scan(s).1.len() > 0);
    }
}

proof fn lemma_first_marker_counted(lines: Seq<Seq<char>>)
    requires
        lines.len() > 0,
        is_marker(lines[0]),
    ensures
        count_markers(lines) >= 1,
    decreases lines.len(),
{
    if lines.len() > 1 {
        assert(lines.drop_last()[0] == lines[0]);
        lemma_first_marker_counted(lines.drop_last());
    }
}

proof fn lemma_scan_count(lines: Seq<Seq<char>>, budget: nat)
    requires
        budget > 0,
        lines.len() > 0,
        count_markers(lines) == 0 || is_marker(lines[0]),
    ensures
        segment_scan(lines, budget).1.len() > 0,
        segment_scan(lines, budget).0.len() + 1 == if count_markers(lines) == 0 {
            1
        } else {
            count_markers(lines)
        },
    decreases lines.len(),
{
    let prefix = lines.drop_last();
    if prefix.len() == 0 {
        assert(segment_scan(prefix, budget) == (Seq::<Seq<char>>::empty(), Seq::<char>::empty()));
        assert(count_markers(prefix) == 0);
    } else {
        assert(prefix[0] == lines[0]);
        lemma_scan_count(prefix, budget);
        if count_markers(lines) > 0 {
            lemma_first_marker_counted(prefix);
        }
    }
}

/// A patch whose first line opens a commit (or that has no such line at
/// all), and that is not blank, falls into as many chunks as it has `From `
/// lines, or into one chunk when it has none; a blank patch into none.
pub proof fn lemma_chunk_count(patch: Seq<char>, budget: nat)
    requires
        budget > 0,
        count_markers(lines_of(patch)) == 0 || is_marker(lines_of(patch)[0]),
    ensures
        is_blank(patch) ==> segments(patch, budget).len() == 0,
        !is_blank(patch) ==> segments(patch, budget).len() == if count_markers(lines_of(patch))
            == 0 {
            1
        } else {
            count_markers(lines_of(patch))
        },
{
    if !is_blank(patch) {
        lemma_nonempty_lines(patch);
        lemma_scan_count(lines_of(patch), budget);
    }
}

proof fn lemma_scan_bound(lines: Seq<Seq<char>>, budget: nat, width: nat)
    requires
        forall|i: int| 0 <= i < lines.len() ==> (#[trigger] lines[i]).len() <= width,
    ensures
        segment_scan(lines, budget).1.len() <= budget + width,
        forall|j: int|
            0 <= j < segment_scan(lines, budget).0.len() ==> (#[trigger] segment_scan(
                lines,
                budget,
            ).0[j]).len() <= budget + width,
    decreases lines.len(),
{
    if lines.len() > 0 {
        let prefix = lines.drop_last();
        assert forall|i: int| 0 <= i < prefix.len() implies (#[trigger] prefix[i]).len()
            <= width by {
            assert(prefix[i] == lines[i]);
        }
        lemma_scan_bound(prefix, budget, width);
        assert(lines.last() == lines[lines.len() - 1]);
    }
}

/// When no line of the patch is longer than `width`, no chunk is longer than
/// `budget + width`: a line joins a chunk only while the chunk is under
/// budget, so the one line that crosses the budget (with its newline) is the
/// only excess.
pub proof fn lemma_chunk_bound(patch: Seq<char>, budget: nat, width: nat)
    requires
        forall|i: int|
            0 <= i < lines_of(patch).len() ==> (#[trigger] lines_of(patch)[i]).len() <= width,
    ensures
        forall|j: int|
            0 <= j < segments(patch, budget).len() ==> (#[trigger] segments(patch, budget)[j]).len()
                <= budget + width,
{
    lemma_scan_bound(lines_of(patch), budget, width);
}

/// Two calls of `segment` on the same patch and budget give the same chunks.
pub proof fn lemma_segment_deterministic(patch: Seq<char>, budget: nat, a: Seq<String>, b: Seq<String>)
    requires
        views(a) == segments(patch, budget),
        views(b) == segments(patch, budget),
    ensures
        a.len() == b.len(),
        forall|i: int| 0 <= i < a.len() ==> (#[trigger] a[i])@ == b[i]@,
{
    assert(views(a).len() == a.len());
    assert(views(b).len() == b.len());
    assert forall|i: int| 0 <= i < a.len() implies (#[trigger] a[i])@ == b[i]@ by {
        assert(views(a)[i] == a[i]@);
        assert(views(b)[i] == b[i]@);
    }
}

} // verus!
