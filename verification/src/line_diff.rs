//! The line by line difference between two texts, from the `similar` crate.
use vstd::prelude::*;

verus! {

/// One line of a line by line difference, with its line break if it has one.
#[derive(Debug, PartialEq, Eq)]
pub enum LineDiff {
    Equal(String),
    Delete(String),
    Insert(String),
}

/// The mathematical value of a `LineDiff`.
pub enum LineDiffView {
    Equal(Seq<char>),
    Delete(Seq<char>),
    Insert(Seq<char>),
}

impl View for LineDiff {
    type V = LineDiffView;

    open spec fn view(&self) -> LineDiffView {
        match self {
            LineDiff::Equal(t) => LineDiffView::Equal(t@),
            LineDiff::Delete(t) => LineDiffView::Delete(t@),
            LineDiff::Insert(t) => LineDiffView::Insert(t@),
        }
    }
}

/// The views of a sequence of line changes.
pub open spec fn lineDiffViews(changes: Seq<LineDiff>) -> Seq<LineDiffView> {
    changes.map_values(|change: LineDiff| change@)
}

/// The text on the old side of line changes: the kept and deleted lines.
pub open spec fn oldSide(changes: Seq<LineDiffView>) -> Seq<char>
    decreases changes.len(),
{
    if changes.len() == 0 {
        Seq::empty()
    } else {
        oldSide(changes.drop_last()) + match changes.last() {
            LineDiffView::Equal(t) => t,
            LineDiffView::Delete(t) => t,
            LineDiffView::Insert(_) => Seq::empty(),
        }
    }
}

/// The text on the new side of line changes: the kept and inserted lines.
pub open spec fn newSide(changes: Seq<LineDiffView>) -> Seq<char>
    decreases changes.len(),
{
    if changes.len() == 0 {
        Seq::empty()
    } else {
        newSide(changes.drop_last()) + match changes.last() {
            LineDiffView::Equal(t) => t,
            LineDiffView::Insert(t) => t,
            LineDiffView::Delete(_) => Seq::empty(),
        }
    }
}

/// The line changes that `similar` computes between two texts.
pub uninterp spec fn lineChanges(old: Seq<char>, new: Seq<char>) -> Seq<LineDiffView>;

/// Calls `similar::TextDiff::configure().diff_lines(old, new)` and walks
/// `iter_all_changes`, keeping each change's tag and line. Trusted to give
/// `lineChanges` of the two texts, whose kept and deleted lines make up the
/// old text and whose kept and inserted lines make up the new one.
#[verifier::external_body]
pub fn diffLines(old: &str, new: &str) -> (changes: Vec<LineDiff>)
    ensures
        lineDiffViews(changes@) == lineChanges(old@, new@),
        oldSide(lineDiffViews(changes@)) == old@,
        newSide(lineDiffViews(changes@)) == new@,
{
    let diff = similar::TextDiff::configure().diff_lines(old, new);
    diff.iter_all_changes().map(|change| match change.tag() {
        similar::ChangeTag::Equal => LineDiff::Equal(change.to_string_lossy().into_owned()),
        similar::ChangeTag::Delete => LineDiff::Delete(change.to_string_lossy().into_owned()),
        similar::ChangeTag::Insert => LineDiff::Insert(change.to_string_lossy().into_owned()),
    }).collect()
}

/// An edit of the lines of a text view: a line inserted before the given
/// line, or the given line removed.
#[derive(Debug, PartialEq, Eq)]
pub enum LineEdit {
    Insert { line: usize, text: String },
    Remove { line: usize },
}

/// The mathematical value of a `LineEdit`.
pub enum LineEditView {
    Insert { line: nat, text: Seq<char> },
    Remove { line: nat },
}

impl View for LineEdit {
    type V = LineEditView;

    open spec fn view(&self) -> LineEditView {
        match self {
            LineEdit::Insert { line, text } => LineEditView::Insert { line: *line as nat, text: text@ },
            LineEdit::Remove { line } => LineEditView::Remove { line: *line as nat },
        }
    }
}

/// The edits that turn the lines of the old side of `changes`, from line
/// `line` on, into those of the new side: a kept line is passed over, a
/// deleted one removed and an inserted one put in its place.
pub open spec fn lineEdits(changes: Seq<LineDiffView>, line: nat) -> Seq<LineEditView>
    decreases changes.len(),
{
    if changes.len() == 0 {
        Seq::empty()
    } else {
        match changes[0] {
            LineDiffView::Equal(_) => lineEdits(changes.drop_first(), line + 1),
            LineDiffView::Delete(_) => seq![LineEditView::Remove { line }] + lineEdits(changes.drop_first(), line),
            LineDiffView::Insert(t) => seq![LineEditView::Insert { line, text: t }] + lineEdits(
                changes.drop_first(),
                line + 1,
            ),
        }
    }
}

/// The lines of the old side of line changes: the kept and deleted ones.
pub open spec fn oldLines(changes: Seq<LineDiffView>) -> Seq<Seq<char>>
    decreases changes.len(),
{
    if changes.len() == 0 {
        Seq::empty()
    } else {
        match changes[0] {
            LineDiffView::Equal(t) => seq![t] + oldLines(changes.drop_first()),
            LineDiffView::Delete(t) => seq![t] + oldLines(changes.drop_first()),
            LineDiffView::Insert(_) => oldLines(changes.drop_first()),
        }
    }
}

/// The lines of the new side of line changes: the kept and inserted ones.
pub open spec fn newLines(changes: Seq<LineDiffView>) -> Seq<Seq<char>>
    decreases changes.len(),
{
    if changes.len() == 0 {
        Seq::empty()
    } else {
        match changes[0] {
            LineDiffView::Equal(t) => seq![t] + newLines(changes.drop_first()),
            LineDiffView::Insert(t) => seq![t] + newLines(changes.drop_first()),
            LineDiffView::Delete(_) => newLines(changes.drop_first()),
        }
    }
}

/// The lines after the edits, applied in order.
pub open spec fn applyLineEdits(lines: Seq<Seq<char>>, edits: Seq<LineEditView>) -> Seq<Seq<char>>
    decreases edits.len(),
{
    if edits.len() == 0 {
        lines
    } else {
        let edited = match edits[0] {
            LineEditView::Insert { line, text } => lines.insert(line as int, text),
            LineEditView::Remove { line } => lines.remove(line as int),
        };
        applyLineEdits(edited, edits.drop_first())
    }
}

/// The edits of line changes, from the line that follows the lines `done`
/// on, turn `done` followed by the old lines into `done` followed by the new ones.
proof fn lemma_lineEdits_from(done: Seq<Seq<char>>, changes: Seq<LineDiffView>)
    ensures
        applyLineEdits(done + oldLines(changes), lineEdits(changes, done.len())) == done + newLines(changes),
    decreases changes.len(),
{
    if changes.len() == 0 {
        assert(done + Seq::<Seq<char>>::empty() =~= done);
    } else {
        let rest = changes.drop_first();
        match changes[0] {
            LineDiffView::Equal(t) => {
                lemma_lineEdits_from(done.push(t), rest);
                assert(done.push(t) + oldLines(rest) =~= done + oldLines(changes));
                assert(done.push(t) + newLines(rest) =~= done + newLines(changes));
            },
            LineDiffView::Delete(t) => {
                lemma_lineEdits_from(done, rest);
                let edits = lineEdits(changes, done.len());
                assert(edits.drop_first() =~= lineEdits(rest, done.len()));
                assert((done + oldLines(changes)).remove(done.len() as int) =~= done + oldLines(rest));
                assert(done + newLines(rest) =~= done + newLines(changes));
            },
            LineDiffView::Insert(t) => {
                lemma_lineEdits_from(done.push(t), rest);
                let edits = lineEdits(changes, done.len());
                assert(edits.drop_first() =~= lineEdits(rest, done.len() + 1));
                assert((done + oldLines(changes)).insert(done.len() as int, t) =~= done.push(t) + oldLines(rest));
                assert(done.push(t) + newLines(rest) =~= done + newLines(changes));
            },
        }
    }
}

/// Applying the edits of line changes to the old lines gives the new lines.
pub proof fn lemma_line_edits_turn_old_into_new(changes: Seq<LineDiffView>)
    ensures
        applyLineEdits(oldLines(changes), lineEdits(changes, 0)) == newLines(changes),
{
    lemma_lineEdits_from(Seq::empty(), changes);
    assert(Seq::<Seq<char>>::empty() + oldLines(changes) =~= oldLines(changes));
    assert(Seq::<Seq<char>>::empty() + newLines(changes) =~= newLines(changes));
}

/// The edits that turn the lines of a text view, which show the old side of
/// `changes`, into the lines of the new side.
pub fn lineEditsOf(changes: &[LineDiff]) -> (edits: Vec<LineEdit>)
    ensures
        edits@.map_values(|e: LineEdit| e@) == lineEdits(lineDiffViews(changes@), 0),
        applyLineEdits(oldLines(lineDiffViews(changes@)), edits@.map_values(|e: LineEdit| e@))
            == newLines(lineDiffViews(changes@)),
{
    let ghost views = lineDiffViews(changes@);
    let mut edits: Vec<LineEdit> = Vec::new();
    let mut line: usize = 0;
    let mut i: usize = 0;
    assert(views.skip(0) =~= views);
    assert(edits@.map_values(|e: LineEdit| e@) + lineEdits(views.skip(0), 0) =~= lineEdits(views, 0));
    while i < changes.len()
        invariant
            views == lineDiffViews(changes@),
            i <= changes@.len(),
            line <= i,
            edits@.map_values(|e: LineEdit| e@) + lineEdits(views.skip(i as int), line as nat) == lineEdits(views, 0),
        decreases changes@.len() - i,
    {
        let ghost rest = views.skip(i as int);
        let ghost before = edits@.map_values(|e: LineEdit| e@);
        assert(rest[0] == changes@[i as int]@);
        assert(rest.drop_first() =~= views.skip(i + 1));
        match &changes[i] {
            LineDiff::Equal(_) => {
                line = line + 1;
            },
            LineDiff::Delete(_) => {
                edits.push(LineEdit::Remove { line });
                assert(edits@.map_values(|e: LineEdit| e@) =~= before.push(LineEditView::Remove { line: line as nat }));
            },
            LineDiff::Insert(text) => {
                let ghost e = LineEditView::Insert { line: line as nat, text: text@ };
                edits.push(LineEdit::Insert { line, text: text.clone() });
                assert(edits@.map_values(|e: LineEdit| e@) =~= before.push(e));
                line = line + 1;
            },
        }
        i = i + 1;
    }
    assert(views.skip(i as int) =~= Seq::<LineDiffView>::empty());
    assert(edits@.map_values(|e: LineEdit| e@) + Seq::<LineEditView>::empty() =~= edits@.map_values(|e: LineEdit| e@));
    proof {
        lemma_line_edits_turn_old_into_new(views);
    }
    edits
}

} // verus!
