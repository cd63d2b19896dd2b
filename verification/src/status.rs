//! Status names of changed files and the labels the file change lists show.
use vstd::prelude::*;
use crate::text::textEq;

verus! {

/// The label shown for a status name, or `None` for a name that has no label.
pub open spec fn statusLabel(status: Seq<char>) -> Option<Seq<char>> {
    if status == "WT_NEW"@ || status == "INDEX_NEW"@ {
        Some("New"@)
    } else if status == "WT_MODIFIED"@ || status == "INDEX_MODIFIED"@ {
        Some("Modified"@)
    } else if status == "WT_DELETED"@ || status == "INDEX_DELETED"@ {
        Some("Deleted"@)
    } else if status == "WT_RENAMED"@ || status == "INDEX_RENAMED"@ {
        Some("Renamed"@)
    } else if status == "Added"@ {
        Some("New"@)
    } else if status == "Modified"@ {
        Some("Modified"@)
    } else {
        None
    }
}

/// Whether a status name has a label.
pub open spec fn isKnown(status: Seq<char>) -> bool {
    statusLabel(status) is Some
}

/// The label of a status name, if it has one.
pub fn tryFormatStatus(status: &str) -> (label: Option<&'static str>)
    ensures
        label is Some <==> isKnown(status@),
        label matches Some(l) ==> l@ == statusLabel(status@)->0,
{
    if textEq(status, "WT_NEW") || textEq(status, "INDEX_NEW") {
        Some("New")
    } else if textEq(status, "WT_MODIFIED") || textEq(status, "INDEX_MODIFIED") {
        Some("Modified")
    } else if textEq(status, "WT_DELETED") || textEq(status, "INDEX_DELETED") {
        Some("Deleted")
    } else if textEq(status, "WT_RENAMED") || textEq(status, "INDEX_RENAMED") {
        Some("Renamed")
    } else if textEq(status, "Added") {
        Some("New")
    } else if textEq(status, "Modified") {
        Some("Modified")
    } else {
        None
    }
}

/// Whether a status name has a label.
pub fn isKnownStatus(status: &str) -> (known: bool)
    ensures
        known == isKnown(status@),
{
    tryFormatStatus(status).is_some()
}

/// The label of a status name that has one.
pub fn formatStatus(status: &str) -> (label: &'static str)
    requires
        isKnown(status@),
    ensures
        label@ == statusLabel(status@)->0,
{
    match tryFormatStatus(status) {
        Some(label) => label,
        None => "",
    }
}

/// The character `c` in lower case, for an ASCII capital letter; `c` itself otherwise.
pub open spec fn asciiLower(c: char) -> char {
    if 'A' <= c && c <= 'Z' {
        ((c as u32) + 32) as char
    } else {
        c
    }
}

/// `text` with its first character kept and the others in lower case.
pub open spec fn titleCase(text: Seq<char>) -> Seq<char> {
    if text.len() == 0 {
        text
    } else {
        seq![text[0]] + text.drop_first().map_values(|c: char| asciiLower(c))
    }
}

/// `prefix` followed by one text equals `prefix` followed by another only
/// where the two texts are equal.
proof fn lemma_prefix_cancels(prefix: Seq<char>, a: Seq<char>, b: Seq<char>)
    ensures
        (prefix + a == prefix + b) == (a == b),
{
    if prefix + a == prefix + b {
        assert((prefix + a).subrange(prefix.len() as int, (prefix + a).len() as int) =~= a);
        assert((prefix + b).subrange(prefix.len() as int, (prefix + b).len() as int) =~= b);
    }
}

/// A working directory status name and the index status name with the same
/// suffix have the same label; the label of a name with a label is the
/// name's suffix with its first letter kept and the rest in lower case, so
/// that a deletion is labelled "Deleted" and a rename "Renamed".
pub proof fn lemma_status_labels_follow_the_suffix(suffix: Seq<char>)
    ensures
        statusLabel("WT_"@ + suffix) == statusLabel("INDEX_"@ + suffix),
        statusLabel("WT_"@ + suffix) matches Some(label) ==> label == titleCase(suffix),
{
    reveal_strlit("WT_");
    reveal_strlit("INDEX_");
    reveal_strlit("WT_NEW");
    reveal_strlit("INDEX_NEW");
    reveal_strlit("WT_MODIFIED");
    reveal_strlit("INDEX_MODIFIED");
    reveal_strlit("WT_DELETED");
    reveal_strlit("INDEX_DELETED");
    reveal_strlit("WT_RENAMED");
    reveal_strlit("INDEX_RENAMED");
    reveal_strlit("Added");
    reveal_strlit("Modified");
    reveal_strlit("New");
    reveal_strlit("Deleted");
    reveal_strlit("Renamed");
    reveal_strlit("NEW");
    reveal_strlit("MODIFIED");
    reveal_strlit("DELETED");
    reveal_strlit("RENAMED");
    let wt = "WT_"@;
    let index = "INDEX_"@;
    assert("WT_NEW"@ =~= wt + "NEW"@);
    assert("WT_MODIFIED"@ =~= wt + "MODIFIED"@);
    assert("WT_DELETED"@ =~= wt + "DELETED"@);
    assert("WT_RENAMED"@ =~= wt + "RENAMED"@);
    assert("INDEX_NEW"@ =~= index + "NEW"@);
    assert("INDEX_MODIFIED"@ =~= index + "MODIFIED"@);
    assert("INDEX_DELETED"@ =~= index + "DELETED"@);
    assert("INDEX_RENAMED"@ =~= index + "RENAMED"@);
    lemma_prefix_cancels(wt, suffix, "NEW"@);
    lemma_prefix_cancels(wt, suffix, "MODIFIED"@);
    lemma_prefix_cancels(wt, suffix, "DELETED"@);
    lemma_prefix_cancels(wt, suffix, "RENAMED"@);
    lemma_prefix_cancels(index, suffix, "NEW"@);
    lemma_prefix_cancels(index, suffix, "MODIFIED"@);
    lemma_prefix_cancels(index, suffix, "DELETED"@);
    lemma_prefix_cancels(index, suffix, "RENAMED"@);
    let w = wt + suffix;
    let i = index + suffix;
    assert(w[0] == 'W');
    assert(i[0] == 'I');
    assert(w != "INDEX_NEW"@ && w != "INDEX_MODIFIED"@ && w != "INDEX_DELETED"@ && w != "INDEX_RENAMED"@) by {
        assert("INDEX_NEW"@[0] == 'I');
    }
    assert(w != "Added"@ && w != "Modified"@);
    assert(i != "WT_NEW"@ && i != "WT_MODIFIED"@ && i != "WT_DELETED"@ && i != "WT_RENAMED"@);
    assert(i != "Added"@ && i != "Modified"@);
    assert(titleCase("NEW"@) =~= "New"@);
    assert(titleCase("MODIFIED"@) =~= "Modified"@);
    assert(titleCase("DELETED"@) =~= "Deleted"@);
    assert(titleCase("RENAMED"@) =~= "Renamed"@);
}

/// The status names of the changes of a commit get the labels of the flag
/// names of the same kind of change: "Added" that of a new file and
/// "Modified" that of a modified one.
pub proof fn lemma_commit_statuses_label_like_flags()
    ensures
        statusLabel("Added"@) == statusLabel("WT_NEW"@),
        statusLabel("Added"@) == statusLabel("INDEX_NEW"@),
        statusLabel("Modified"@) == statusLabel("WT_MODIFIED"@),
        statusLabel("Modified"@) == statusLabel("INDEX_MODIFIED"@),
        statusLabel("Added"@) is Some,
        statusLabel("Modified"@) is Some,
{
    reveal_strlit("WT_NEW");
    reveal_strlit("INDEX_NEW");
    reveal_strlit("WT_MODIFIED");
    reveal_strlit("INDEX_MODIFIED");
    reveal_strlit("WT_DELETED");
    reveal_strlit("INDEX_DELETED");
    reveal_strlit("WT_RENAMED");
    reveal_strlit("INDEX_RENAMED");
    reveal_strlit("Added");
    reveal_strlit("Modified");
    let added = "Added"@;
    assert(added[0] != "WT_NEW"@[0] && added[0] != "INDEX_NEW"@[0] && added[0] != "Modified"@[0]);
    assert(added != "WT_NEW"@ && added != "INDEX_NEW"@ && added != "WT_MODIFIED"@ && added != "INDEX_MODIFIED"@);
    assert(added != "WT_DELETED"@ && added != "INDEX_DELETED"@ && added != "WT_RENAMED"@ && added != "INDEX_RENAMED"@);
    let modified = "Modified"@;
    assert(modified[0] != "WT_NEW"@[0] && modified[0] != "INDEX_NEW"@[0]);
    assert(modified != "WT_NEW"@ && modified != "INDEX_NEW"@ && modified != "WT_MODIFIED"@ && modified != "INDEX_MODIFIED"@);
    assert(modified != "WT_DELETED"@ && modified != "INDEX_DELETED"@ && modified != "WT_RENAMED"@
        && modified != "INDEX_RENAMED"@);
    assert(modified != added);
    assert("WT_MODIFIED"@.len() == 11);
    assert("WT_NEW"@.len() == 6);
    assert("WT_MODIFIED"@ != "WT_NEW"@ && "WT_MODIFIED"@ != "INDEX_NEW"@);
    assert("INDEX_MODIFIED"@.len() == 14);
    assert("INDEX_NEW"@.len() == 9);
    assert("INDEX_MODIFIED"@ != "WT_NEW"@ && "INDEX_MODIFIED"@ != "INDEX_NEW"@);
}

} // verus!
