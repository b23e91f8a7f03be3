//! The patch engine: four small edits of a text file, each a function from
//! the file's content to what should be done with the file.
//!
//! The engine never touches a file. Its caller reads the target, hands over
//! what it found as a [`Source`], and carries out the [`Action`] that comes
//! back.

use vstd::prelude::*;
use crate::lines::join_lines;
use crate::lines::line_views;
use crate::lines::lines;
use crate::lines::split_lines;
use crate::lines::unlines;
use crate::pattern::pattern_compiles;
use crate::pattern::pattern_matches;
use crate::pattern::pattern_replaced;
use crate::pattern::search;
use crate::pattern::substitute;
use crate::text::contains;
use crate::text::contains_chars;
use crate::text::contains_str;
use crate::text::from_chars;
use crate::text::is_space;
use crate::text::is_whitespace;
use crate::text::push_all;
use crate::text::replace_all;
use crate::text::replace_str;
use crate::text::slice;
use crate::text::to_chars;

verus! {

/// One edit of one text file.
#[derive(Debug, PartialEq, Eq)]
pub enum Patch {
    /// After every line that contains `after`, add `insert` as new lines,
    /// unless the content already contains `marker`.
    Append { file: String, after: String, insert: String, marker: String },
    /// Replace every occurrence of `find` by `insert`, unless the content
    /// already contains `insert`.
    Replace { file: String, find: String, insert: String },
    /// Replace every match of the regular expression `pattern` by `insert`,
    /// unless the pattern matches and the content already contains `insert`.
    RegexReplace { file: String, pattern: String, insert: String },
    /// From the line that contains `marker` on, take the comment sign off the
    /// comment lines that follow, up to the first line that is no comment.
    UncommentBlock { file: String, marker: String },
}

/// A patch as plain texts.
pub enum PatchModel {
    Append { file: Seq<char>, after: Seq<char>, insert: Seq<char>, marker: Seq<char> },
    Replace { file: Seq<char>, find: Seq<char>, insert: Seq<char> },
    RegexReplace { file: Seq<char>, pattern: Seq<char>, insert: Seq<char> },
    UncommentBlock { file: Seq<char>, marker: Seq<char> },
}

impl View for Patch {
    type V = PatchModel;

    open spec fn view(&self) -> PatchModel {
        match self {
            Patch::Append { file, after, insert, marker } => PatchModel::Append {
                file: file@,
                after: after@,
                insert: insert@,
                marker: marker@,
            },
            Patch::Replace { file, find, insert } => PatchModel::Replace {
                file: file@,
                find: find@,
                insert: insert@,
            },
            Patch::RegexReplace { file, pattern, insert } => PatchModel::RegexReplace {
                file: file@,
                pattern: pattern@,
                insert: insert@,
            },
            Patch::UncommentBlock { file, marker } => PatchModel::UncommentBlock {
                file: file@,
                marker: marker@,
            },
        }
    }
}

/// What reading the target file gave.
#[derive(Debug, PartialEq, Eq)]
pub enum Source {
    /// There is no such file.
    Missing,
    /// The file is there and could not be read as text.
    Unreadable,
    /// The file's whole content.
    Text(String),
}

/// Why a patch leaves its target alone.
#[derive(Debug, Clone, Copy, PartialEq, Eq, Structural)]
pub enum SkipReason {
    /// There is no target file, and a patch never creates one.
    Missing,
    /// The target could not be read; it is treated like a missing one.
    Unreadable,
    /// The content shows that the patch was applied before.
    AlreadyApplied,
}

/// What is to be done with the target file.
#[derive(Debug, PartialEq, Eq)]
pub enum Action {
    /// Leave the file as it is; do not create it.
    Skip(SkipReason),
    /// Overwrite the whole file with this content.
    Write(String),
}

/// An action as plain text.
pub enum ActionModel {
    Skip(SkipReason),
    Write(Seq<char>),
}

impl View for Action {
    type V = ActionModel;

    open spec fn view(&self) -> ActionModel {
        match self {
            Action::Skip(reason) => ActionModel::Skip(*reason),
            Action::Write(content) => ActionModel::Write(content@),
        }
    }
}

/// Why a patch cannot be applied.
#[derive(Debug, Clone, Copy, PartialEq, Eq, Structural)]
pub enum PatchError {
    /// The pattern of a `RegexReplace` does not compile: it is no regular
    /// expression, or one that is too large.
    MalformedPattern,
}

/// The line `l` as `Append` leaves it: followed by `insert` on lines of its
/// own if it contains `after`, unchanged if not.
pub open spec fn appended_line(l: Seq<char>, after: Seq<char>, insert: Seq<char>) -> Seq<char> {
    if contains(l, after) {
        l + seq!['\n'] + insert
    } else {
        l
    }
}

/// The content that `Append` writes.
pub open spec fn appended(content: Seq<char>, after: Seq<char>, insert: Seq<char>) -> Seq<char> {
    unlines(lines(content).map_values(|l: Seq<char>| appended_line(l, after, insert)))
}

/// Whether the line `l` is a comment: it starts with `#`.
pub open spec fn is_comment(l: Seq<char>) -> bool {
    l.len() > 0 && l[0] == '#'
}

/// The comment line `l` without its comment sign: one `#` is taken off, and
/// one white space character after it if there is one.
pub open spec fn uncommented_line(l: Seq<char>) -> Seq<char> {
    let rest = l.skip(1);
    if rest.len() > 0 && is_whitespace(rest[0]) {
        rest.skip(1)
    } else {
        rest
    }
}

/// The lines `ls` as `UncommentBlock` leaves them, read in one pass from the
/// first line on; `inside` says whether a line with the marker was passed.
///
/// A line that contains `marker` stays as it is and opens the block. Inside
/// the block a comment line loses its comment sign, and the first line that
/// is neither ends the pass: it and all lines after it stay as they are.
pub open spec fn uncommented_lines(ls: Seq<Seq<char>>, marker: Seq<char>, inside: bool) -> Seq<
    Seq<char>,
>
    decreases ls.len(),
{
    if ls.len() == 0 {
        ls
    } else if contains(ls[0], marker) {
        seq![ls[0]] + uncommented_lines(ls.skip(1), marker, true)
    } else if !inside {
        seq![ls[0]] + uncommented_lines(ls.skip(1), marker, false)
    } else if is_comment(ls[0]) {
        seq![uncommented_line(ls[0])] + uncommented_lines(ls.skip(1), marker, true)
    } else {
        ls
    }
}

/// The content that `UncommentBlock` writes.
pub open spec fn uncommented(content: Seq<char>, marker: Seq<char>) -> Seq<char> {
    unlines(uncommented_lines(lines(content), marker, false))
}

/// What `RegexReplace` does with `content`, given what the regular
/// expression made of it: `found` says whether the pattern matches anywhere,
/// `replaced` is the content with every match replaced.
///
/// The file is left alone only if the pattern matches and the content
/// already contains `insert`.
pub open spec fn regex_planned(
    content: Seq<char>,
    insert: Seq<char>,
    found: bool,
    replaced: Seq<char>,
) -> ActionModel {
    if found && contains(content, insert) {
        ActionModel::Skip(SkipReason::AlreadyApplied)
    } else {
        ActionModel::Write(replaced)
    }
}

/// What a `RegexReplace` of `pattern` by `insert` does with `content`: an
/// error if the pattern does not compile, else what [`regex_planned`] says of
/// the regular expression's answers.
pub open spec fn regex_replace_planned(content: Seq<char>, pattern: Seq<char>, insert: Seq<char>) -> Result<
    ActionModel,
    PatchError,
> {
    if pattern_compiles(pattern) {
        Ok(
            regex_planned(
                content,
                insert,
                pattern_matches(pattern, content),
                pattern_replaced(pattern, content, insert),
            ),
        )
    } else {
        Err(PatchError::MalformedPattern)
    }
}

/// What `patch` does with a target whose content is `content`.
pub open spec fn planned(patch: PatchModel, content: Seq<char>) -> Result<ActionModel, PatchError> {
    match patch {
        PatchModel::Append { after, insert, marker, .. } => Ok(
            if contains(content, marker) {
                ActionModel::Skip(SkipReason::AlreadyApplied)
            } else {
                ActionModel::Write(appended(content, after, insert))
            },
        ),
        PatchModel::Replace { find, insert, .. } => Ok(
            if contains(content, insert) {
                ActionModel::Skip(SkipReason::AlreadyApplied)
            } else {
                ActionModel::Write(replace_all(content, find, insert))
            },
        ),
        PatchModel::RegexReplace { pattern, insert, .. } => regex_replace_planned(
            content,
            pattern,
            insert,
        ),
        PatchModel::UncommentBlock { marker, .. } => Ok(
            ActionModel::Write(uncommented(content, marker)),
        ),
    }
}

/// The content of the target after `patch` was applied to a target whose
/// content was `content`.
pub open spec fn content_after(patch: PatchModel, content: Seq<char>) -> Seq<char> {
    match planned(patch, content) {
        Ok(ActionModel::Write(written)) => written,
        _ => content,
    }
}

impl Patch {
    /// An `Append` patch of these texts.
    pub fn append(file: &str, after: &str, insert: &str, marker: &str) -> (p: Patch)
        ensures
            p@ == (PatchModel::Append {
                file: file@,
                after: after@,
                insert: insert@,
                marker: marker@,
            }),
    {
        Patch::Append {
            file: file.to_owned(),
            after: after.to_owned(),
            insert: insert.to_owned(),
            marker: marker.to_owned(),
        }
    }

    /// A `Replace` patch of these texts.
    pub fn replace(file: &str, find: &str, insert: &str) -> (p: Patch)
        ensures
            p@ == (PatchModel::Replace { file: file@, find: find@, insert: insert@ }),
    {
        Patch::Replace { file: file.to_owned(), find: find.to_owned(), insert: insert.to_owned() }
    }

    /// A `RegexReplace` patch of these texts. The pattern is compiled when
    /// the patch is applied, not here.
    pub fn regex_replace(file: &str, pattern: &str, insert: &str) -> (p: Patch)
        ensures
            p@ == (PatchModel::RegexReplace { file: file@, pattern: pattern@, insert: insert@ }),
    {
        Patch::RegexReplace {
            file: file.to_owned(),
            pattern: pattern.to_owned(),
            insert: insert.to_owned(),
        }
    }

    /// An `UncommentBlock` patch of these texts.
    pub fn uncomment_block(file: &str, marker: &str) -> (p: Patch)
        ensures
            p@ == (PatchModel::UncommentBlock { file: file@, marker: marker@ }),
    {
        Patch::UncommentBlock { file: file.to_owned(), marker: marker.to_owned() }
    }
}

/// What each patch of `ps` is, as plain texts.
pub open spec fn patch_views(ps: Seq<Patch>) -> Seq<PatchModel> {
    ps.map_values(|p: Patch| p@)
}

/// The result of applying a patch, as plain text.
pub open spec fn outcome_view(r: Result<Action, PatchError>) -> Result<ActionModel, PatchError> {
    match r {
        Ok(action) => Ok(action@),
        Err(e) => Err(e),
    }
}

/// The target of `patch`, as a path relative to the working directory.
pub fn get_file(patch: &Patch) -> (file: &str)
    ensures
        file@ == match patch@ {
            PatchModel::Append { file, .. } => file,
            PatchModel::Replace { file, .. } => file,
            PatchModel::RegexReplace { file, .. } => file,
            PatchModel::UncommentBlock { file, .. } => file,
        },
{
    match patch {
        Patch::Append { file, .. } => file.as_str(),
        Patch::Replace { file, .. } => file.as_str(),
        Patch::RegexReplace { file, .. } => file.as_str(),
        Patch::UncommentBlock { file, .. } => file.as_str(),
    }
}

/// `content` with `insert` added after every line that contains `after`.
/// Every line of the result ends with a line feed.
pub fn append_after(content: &str, after: &str, insert: &str) -> (r: String)
    ensures
        r@ == appended(content@, after@, insert@),
{
    let text = to_chars(content);
    let anchor = to_chars(after);
    let addition = to_chars(insert);
    let ls = split_lines(&text);
    let mut out: Vec<Vec<char>> = Vec::new();
    let mut i: usize = 0;
    while i < ls.len()
        invariant
            i <= ls.len(),
            out.len() == i,
            forall|j: int|
                0 <= j < i ==> (#[trigger] out@[j])@ == appended_line(
                    ls@[j]@,
                    anchor@,
                    addition@,
                ),
        decreases ls.len() - i,
    {
        let mut line = slice(&ls[i], 0, ls[i].len());
        assert(line@ =~= ls@[i as int]@);
        if contains_chars(&line, &anchor) {
            line.push('\n');
            push_all(&mut line, &addition);
        }
        out.push(line);
        i = i + 1;
    }
    assert(line_views(out@) =~= line_views(ls@).map_values(
        |l: Seq<char>| appended_line(l, anchor@, addition@),
    ));
    let joined = join_lines(&out);
    from_chars(&joined)
}

/// The comment line `l` without its comment sign.
fn strip_comment_sign(l: &Vec<char>) -> (r: Vec<char>)
    requires
        is_comment(l@),
    ensures
        r@ == uncommented_line(l@),
{
    let from: usize = if l.len() > 1 && is_space(l[1]) {
        2
    } else {
        1
    };
    let r = slice(l, from, l.len());
    assert(r@ =~= uncommented_line(l@)) by {
        let rest = l@.skip(1);
        if rest.len() > 0 {
            assert(rest[0] == l@[1]);
        }
    }
    r
}

/// `content` with the comment block after the line that contains `marker`
/// uncommented. Every line of the result ends with a line feed.
pub fn uncomment_block(content: &str, marker: &str) -> (r: String)
    ensures
        r@ == uncommented(content@, marker@),
{
    let text = to_chars(content);
    let mark = to_chars(marker);
    let ls = split_lines(&text);
    let ghost all = line_views(ls@);
    let mut out: Vec<Vec<char>> = Vec::new();
    let mut inside = false;
    let mut open = true;
    let mut i: usize = 0;
    assert(all.skip(0) =~= all);
    assert(line_views(out@) + all =~= all);
    while i < ls.len()
        invariant
            i <= ls.len(),
            all == line_views(ls@),
            open ==> uncommented_lines(all, mark@, false) == line_views(out@) + uncommented_lines(
                all.skip(i as int),
                mark@,
                inside,
            ),
            !open ==> uncommented_lines(all, mark@, false) == line_views(out@) + all.skip(i as int),
        decreases ls.len() - i,
    {
        let ghost rest = all.skip(i as int);
        let ghost before = line_views(out@);
        assert(rest[0] == ls@[i as int]@);
        assert(rest.skip(1) =~= all.skip(i + 1));
        assert(rest =~= seq![rest[0]] + rest.skip(1));
        let line = &ls[i];
        if !open {
            out.push(slice(line, 0, line.len()));
        } else if contains_chars(line, &mark) {
            inside = true;
            out.push(slice(line, 0, line.len()));
        } else if !inside {
            out.push(slice(line, 0, line.len()));
        } else if line.len() > 0 && line[0] == '#' {
            out.push(strip_comment_sign(line));
        } else {
            open = false;
            out.push(slice(line, 0, line.len()));
        }
        assert(out@.last()@ =~= if open && inside && !contains(rest[0], mark@) && is_comment(
            rest[0],
        ) {
            uncommented_line(rest[0])
        } else {
            rest[0]
        });
        assert(line_views(out@) =~= before + seq![out@.last()@]);
        i = i + 1;
    }
    assert(all.skip(ls.len() as int) =~= Seq::<Seq<char>>::empty());
    assert(line_views(out@) + Seq::<Seq<char>>::empty() =~= line_views(out@));
    let joined = join_lines(&out);
    from_chars(&joined)
}

/// Whether `patch` can be applied at all, whatever its target holds: every
/// patch can, but for a `RegexReplace` whose pattern does not compile. No
/// content is needed to tell, so a caller can ask before it reads any file.
pub fn check_pattern(patch: &Patch) -> (r: Result<(), PatchError>)
    ensures
        r is Err <==> (patch@ matches PatchModel::RegexReplace { pattern, .. } && !pattern_compiles(
            pattern,
        )),
        r matches Err(e) ==> e == PatchError::MalformedPattern,
{
    match patch {
        Patch::RegexReplace { pattern, .. } => match search(pattern.as_str(), "") {
            Ok(_) => Ok(()),
            Err(_) => Err(PatchError::MalformedPattern),
        },
        _ => Ok(()),
    }
}

/// Whether a `RegexReplace` with replacement `insert` finds its work done in
/// `content`; `found` says whether its pattern matches anywhere in `content`.
pub fn already_replaced(content: &str, insert: &str, found: bool) -> (done: bool)
    ensures
        done == (found && contains(content@, insert@)),
{
    found && contains_str(content, insert)
}

/// What a `RegexReplace` of `pattern` by `insert` does with `content`.
pub fn regex_replace(content: &str, pattern: &str, insert: &str) -> (r: Result<Action, PatchError>)
    ensures
        outcome_view(r) == regex_replace_planned(content@, pattern@, insert@),
{
    match search(pattern, content) {
        Err(_) => Err(PatchError::MalformedPattern),
        Ok(found) => {
            if already_replaced(content, insert, found) {
                Ok(Action::Skip(SkipReason::AlreadyApplied))
            } else {
                match substitute(pattern, content, insert) {
                    Ok(replaced) => Ok(Action::Write(replaced)),
                    Err(_) => Err(PatchError::MalformedPattern),
                }
            }
        },
    }
}

/// What `patch` does with a target whose content is `content`.
pub fn plan(patch: &Patch, content: &str) -> (r: Result<Action, PatchError>)
    ensures
        outcome_view(r) == planned(patch@, content@),
{
    match patch {
        Patch::Append { after, insert, marker, .. } => {
            if contains_str(content, marker.as_str()) {
                Ok(Action::Skip(SkipReason::AlreadyApplied))
            } else {
                Ok(Action::Write(append_after(content, after.as_str(), insert.as_str())))
            }
        },
        Patch::Replace { find, insert, .. } => {
            if contains_str(content, insert.as_str()) {
                Ok(Action::Skip(SkipReason::AlreadyApplied))
            } else {
                Ok(Action::Write(replace_str(content, find.as_str(), insert.as_str())))
            }
        },
        Patch::RegexReplace { pattern, insert, .. } => regex_replace(
            content,
            pattern.as_str(),
            insert.as_str(),
        ),
        Patch::UncommentBlock { marker, .. } => Ok(
            Action::Write(uncomment_block(content, marker.as_str())),
        ),
    }
}

/// What is to be done with the target of `patch`, given what reading it
/// gave.
///
/// A target that is missing or cannot be read is left alone, and that is no
/// error: nothing is created and the patch is not looked at any further. A
/// target with content gets what [`planned`] says; the only error is a
/// `RegexReplace` whose pattern does not compile, and then nothing is
/// written.
pub fn apply_patch(patch: &Patch, source: &Source) -> (r: Result<Action, PatchError>)
    ensures
        match source {
            Source::Missing => outcome_view(r) == Ok::<ActionModel, PatchError>(
                ActionModel::Skip(SkipReason::Missing),
            ),
            Source::Unreadable => outcome_view(r) == Ok::<ActionModel, PatchError>(
                ActionModel::Skip(SkipReason::Unreadable),
            ),
            Source::Text(content) => outcome_view(r) == planned(patch@, content@),
        },
{
    match source {
        Source::Missing => Ok(Action::Skip(SkipReason::Missing)),
        Source::Unreadable => Ok(Action::Skip(SkipReason::Unreadable)),
        Source::Text(content) => plan(patch, content.as_str()),
    }
}

} // verus!
