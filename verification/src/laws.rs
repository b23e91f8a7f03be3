//! What holds of the patch engine for every patch and every content.

use vstd::prelude::*;
use crate::lines::lemma_line_feeds_add;
use crate::lines::lemma_line_feeds_lines;
use crate::lines::lemma_line_feeds_one;
use crate::lines::lemma_line_feeds_terminated;
use crate::lines::lemma_terminated_lines_len;
use crate::lines::lemma_unlines_lines;
use crate::lines::lemma_unlines_terminated;
use crate::lines::line_feeds;
use crate::lines::lines;
use crate::lines::plain_line_endings;
use crate::lines::terminated;
use crate::patches::appended;
use crate::patches::appended_line;
use crate::patches::content_after;
use crate::patches::is_comment;
use crate::patches::planned;
use crate::patches::uncommented_line;
use crate::patches::uncommented_lines;
use crate::patches::ActionModel;
use crate::patches::PatchError;
use crate::patches::PatchModel;
use crate::patches::SkipReason;
use crate::text::contains;
use crate::text::lemma_replace_all_leaves_insert;
use crate::text::lemma_replace_all_without_occurrence;
use crate::text::replace_all;

verus! {

/// An `Append` with anchor `after` has nothing to change in `t`: no line of
/// `t` contains the anchor, and no line of `t` ends with a carriage return
/// and a line feed.
pub open spec fn append_settled(t: Seq<char>, after: Seq<char>) -> bool {
    &&& plain_line_endings(t)
    &&& forall|k: int| 0 <= k < lines(t).len() ==> !contains(#[trigger] lines(t)[k], after)
}

/// An `Append` whose marker is in the content leaves the target alone: the
/// content stays as it is, whatever the anchor and the insert are.
pub proof fn lemma_append_skips_marked_content(patch: PatchModel, content: Seq<char>)
    requires
        patch matches PatchModel::Append { marker, .. } && contains(content, marker),
    ensures
        planned(patch, content) == Ok::<ActionModel, PatchError>(
            ActionModel::Skip(SkipReason::AlreadyApplied),
        ),
        content_after(patch, content) == content,
{
}

/// An `Append` rewrites a text in which it has nothing to change to the same
/// text, if the text ends with a line feed.
pub proof fn lemma_appended_settled(t: Seq<char>, after: Seq<char>, insert: Seq<char>)
    requires
        t.len() > 0,
        t.last() == '\n',
        append_settled(t, after),
    ensures
        appended(t, after, insert) == t,
{
    lemma_unlines_lines(t);
    assert(lines(t).map_values(|l: Seq<char>| appended_line(l, after, insert)) =~= lines(t));
}

/// Applying a `Replace` twice gives what applying it once gives.
pub proof fn lemma_replace_idempotent(patch: PatchModel, content: Seq<char>)
    requires
        patch is Replace,
    ensures
        content_after(patch, content_after(patch, content)) == content_after(patch, content),
{
    let find = patch->Replace_find;
    let insert = patch->Replace_insert;
    if !contains(content, insert) {
        let once = replace_all(content, find, insert);
        if !contains(once, insert) {
            if contains(content, find) {
                lemma_replace_all_leaves_insert(content, find, insert);
            }
            lemma_replace_all_without_occurrence(content, find, insert);
        }
    }
}

/// Applying an `Append` twice gives what applying it once gives, if the
/// marker is in the content before the first application or after it, or if
/// the first application leaves nothing for the second to change.
pub proof fn lemma_append_idempotent(patch: PatchModel, content: Seq<char>)
    requires
        patch matches PatchModel::Append { after, insert, marker, .. } && (contains(content, marker)
            || contains(appended(content, after, insert), marker) || append_settled(
            appended(content, after, insert),
            after,
        )),
    ensures
        content_after(patch, content_after(patch, content)) == content_after(patch, content),
{
    let after = patch->Append_after;
    let insert = patch->Append_insert;
    let marker = patch->Append_marker;
    let once = appended(content, after, insert);
    if !contains(content, marker) && !contains(once, marker) {
        lemma_appended_settled(once, after, insert);
    }
}

/// Applying an `Append` twice does not give what applying it once gives on
/// any other content: where the marker is in the content neither before the
/// first application nor after it, and the first application leaves
/// something for the second to change, the second changes it.
pub proof fn lemma_append_repeats(patch: PatchModel, content: Seq<char>)
    requires
        patch matches PatchModel::Append { after, insert, marker, .. } && !contains(content, marker)
            && !contains(appended(content, after, insert), marker) && !append_settled(
            appended(content, after, insert),
            after,
        ),
    ensures
        content_after(patch, content_after(patch, content)) != content_after(patch, content),
{
    let after = patch->Append_after;
    let insert = patch->Append_insert;
    let once = appended(content, after, insert);
    let ls = lines(once);
    let changed = ls.map_values(|l: Seq<char>| appended_line(l, after, insert));
    assert(once.len() > 0 && once.last() == '\n');
    lemma_line_feeds_lines(once);
    lemma_unlines_terminated(changed);
    assert(appended(once, after, insert) == terminated(changed));
    if exists|k: int| 0 <= k < ls.len() && contains(#[trigger] ls[k], after) {
        let k = choose|k: int| 0 <= k < ls.len() && contains(#[trigger] ls[k], after);
        lemma_line_feeds_terminated(changed, k);
        lemma_line_feeds_add(ls[k], seq!['\n']);
        lemma_line_feeds_add(ls[k] + seq!['\n'], insert);
        lemma_line_feeds_one();
        assert(line_feeds(changed[k]) >= 1);
        assert(line_feeds(terminated(changed)) > line_feeds(once));
    } else {
        assert(changed =~= ls);
        lemma_terminated_lines_len(once);
        assert(!plain_line_endings(once));
        assert(terminated(ls).len() != once.len());
    }
}

/// The index of the first line of `ls` that contains `marker`, or the number
/// of lines if none does.
pub open spec fn block_start(ls: Seq<Seq<char>>, marker: Seq<char>) -> int
    decreases ls.len(),
{
    if ls.len() == 0 || contains(ls[0], marker) {
        0
    } else {
        1 + block_start(ls.skip(1), marker)
    }
}

/// The number of lines at the start of `ls` that are comments or contain
/// `marker`: the length of a block that starts with the first line.
pub open spec fn block_len(ls: Seq<Seq<char>>, marker: Seq<char>) -> int
    decreases ls.len(),
{
    if ls.len() == 0 || (!contains(ls[0], marker) && !is_comment(ls[0])) {
        0
    } else {
        1 + block_len(ls.skip(1), marker)
    }
}

/// The line at `i` belongs to the block of `ls`: it is the first line that
/// contains `marker`, or it follows that line with nothing between them but
/// comments and lines that contain `marker`.
pub open spec fn in_block(ls: Seq<Seq<char>>, marker: Seq<char>, i: int) -> bool {
    let start = block_start(ls, marker);
    start <= i < start + block_len(ls.skip(start), marker)
}

/// The first line that contains the marker is one of the lines, if there is
/// one.
pub proof fn lemma_block_start(ls: Seq<Seq<char>>, marker: Seq<char>)
    ensures
        0 <= block_start(ls, marker) <= ls.len(),
    decreases ls.len(),
{
    if !(ls.len() == 0 || contains(ls[0], marker)) {
        lemma_block_start(ls.skip(1), marker);
    }
}

/// A block is no longer than the lines it is part of.
pub proof fn lemma_block_len(ls: Seq<Seq<char>>, marker: Seq<char>)
    ensures
        0 <= block_len(ls, marker) <= ls.len(),
    decreases ls.len(),
{
    if !(ls.len() == 0 || (!contains(ls[0], marker) && !is_comment(ls[0]))) {
        lemma_block_len(ls.skip(1), marker);
    }
}

/// `UncommentBlock` keeps the number of lines.
pub proof fn lemma_uncommented_lines_len(ls: Seq<Seq<char>>, marker: Seq<char>, inside: bool)
    ensures
        uncommented_lines(ls, marker, inside).len() == ls.len(),
    decreases ls.len(),
{
    if ls.len() > 0 {
        lemma_uncommented_lines_len(ls.skip(1), marker, true);
        lemma_uncommented_lines_len(ls.skip(1), marker, false);
    }
}

/// Once a line with the marker was passed, `UncommentBlock` takes the
/// comment sign off the comment lines without the marker up to the first
/// line that is neither a comment nor contains the marker, and changes no
/// other line.
pub proof fn lemma_uncommented_lines_inside(ls: Seq<Seq<char>>, marker: Seq<char>, i: int)
    requires
        0 <= i < ls.len(),
    ensures
        uncommented_lines(ls, marker, true)[i] == if i < block_len(ls, marker) && !contains(
            ls[i],
            marker,
        ) {
            uncommented_line(ls[i])
        } else {
            ls[i]
        },
    decreases ls.len(),
{
    let rest = ls.skip(1);
    let out = uncommented_lines(ls, marker, true);
    lemma_uncommented_lines_len(rest, marker, true);
    if contains(ls[0], marker) || is_comment(ls[0]) {
        let head = if contains(ls[0], marker) {
            ls[0]
        } else {
            uncommented_line(ls[0])
        };
        assert(out == seq![head] + uncommented_lines(rest, marker, true));
        assert(block_len(ls, marker) == 1 + block_len(rest, marker));
        if i > 0 {
            lemma_uncommented_lines_inside(rest, marker, i - 1);
            assert(rest[i - 1] == ls[i]);
            assert(out[i] == uncommented_lines(rest, marker, true)[i - 1]);
        } else {
            lemma_block_len(rest, marker);
            assert(out[0] == head);
        }
    } else {
        assert(out == ls);
        assert(block_len(ls, marker) == 0);
    }
}

/// `UncommentBlock` takes the comment sign off the lines of the block that
/// do not contain the marker, and changes no other line. The block starts
/// with the first line that contains the marker and ends before the first
/// line after it that is neither a comment nor contains the marker.
pub proof fn lemma_uncommented_lines_block(ls: Seq<Seq<char>>, marker: Seq<char>, i: int)
    requires
        0 <= i < ls.len(),
    ensures
        uncommented_lines(ls, marker, false).len() == ls.len(),
        uncommented_lines(ls, marker, false)[i] == if in_block(ls, marker, i) && !contains(
            ls[i],
            marker,
        ) {
            uncommented_line(ls[i])
        } else {
            ls[i]
        },
    decreases ls.len(),
{
    let rest = ls.skip(1);
    let out = uncommented_lines(ls, marker, false);
    lemma_uncommented_lines_len(ls, marker, false);
    lemma_uncommented_lines_len(rest, marker, false);
    if contains(ls[0], marker) {
        assert(block_start(ls, marker) == 0);
        assert(ls.skip(0) =~= ls);
        assert(out == uncommented_lines(ls, marker, true));
        lemma_uncommented_lines_inside(ls, marker, i);
    } else {
        lemma_block_start(rest, marker);
        assert(block_start(ls, marker) == 1 + block_start(rest, marker));
        assert(out == seq![ls[0]] + uncommented_lines(rest, marker, false));
        if i > 0 {
            lemma_uncommented_lines_block(rest, marker, i - 1);
            assert(rest[i - 1] == ls[i]);
            assert(out[i] == uncommented_lines(rest, marker, false)[i - 1]);
            assert(rest.skip(block_start(rest, marker)) =~= ls.skip(block_start(ls, marker)));
        } else {
            assert(out[0] == ls[0]);
        }
    }
}

} // verus!
