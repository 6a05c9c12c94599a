use crate::ledger::{
    after_append, entry_line, entry_lines, history, texts_of, EntryView, Shelves, WarningEntry,
    WarningRecord,
};
use crate::text::{chars_of, push_char, text_of};
use crate::timestamp::{is_civil, time_text, Civil};
use crate::FailureKind;
use vstd::prelude::*;

verus! {

/// Where the record of `key` is kept: one text file for each key, in the
/// directory of warnings.
pub open spec fn path_text(key: Seq<char>) -> Seq<char> {
    "warnings/"@ + key + ".txt"@
}

/// Names the file that holds the record of `target_key`.
pub fn record_path(target_key: &str) -> (path: String)
    ensures
        path@ == path_text(target_key@),
{
    let mut path = "warnings/".to_owned();
    path.append(target_key);
    path.append(".txt");
    path
}

/// Different keys are kept in different files.
pub proof fn lemma_paths_differ(a: Seq<char>, b: Seq<char>)
    requires
        a != b,
    ensures
        path_text(a) != path_text(b),
{
    let head = "warnings/"@;
    let tail = ".txt"@;
    if path_text(a) == path_text(b) {
        assert(path_text(b).len() == head.len() + b.len() + tail.len());
        assert forall|i: int| 0 <= i < a.len() implies a[i] == b[i] by {
            assert(path_text(b)[head.len() + i] == b[i]);
        }
        assert(a =~= b);
    }
}

/// The text of a record's file: each warning's line, oldest first, each closed
/// by a line feed.
pub open spec fn stored_text(entries: Seq<EntryView>) -> Seq<char>
    decreases entries.len(),
{
    if entries.len() == 0 {
        Seq::empty()
    } else {
        stored_text(entries.drop_last()) + entry_line(entries.last()).push('\n')
    }
}

/// Filing a warning adds its closed line to the end of the record's file and
/// changes nothing that the file held.
pub proof fn lemma_append_extends_the_file(shelves: Shelves, key: Seq<char>, entry: EntryView)
    ensures
        stored_text(history(after_append(shelves, key, entry), key)) == stored_text(
            history(shelves, key),
        ) + entry_line(entry).push('\n'),
{
    let longer = history(shelves, key).push(entry);
    assert(longer.drop_last() =~= history(shelves, key));
}

/// The pieces between the line feeds of `text`: one more than it has line
/// feeds, some of them perhaps empty.
pub open spec fn pieces(text: Seq<char>) -> Seq<Seq<char>>
    decreases text.len(),
{
    if text.len() == 0 {
        seq![Seq::empty()]
    } else if text.last() == '\n' {
        pieces(text.drop_last()).push(Seq::empty())
    } else {
        let earlier = pieces(text.drop_last());
        earlier.update(earlier.len() - 1, earlier.last().push(text.last()))
    }
}

/// A line without the carriage return that may close it.
pub open spec fn without_return(line: Seq<char>) -> Seq<char> {
    if line.len() > 0 && line.last() == '\r' {
        line.drop_last()
    } else {
        line
    }
}

/// The lines of `text`. A line ends at a line feed, or at a carriage return
/// right before one; neither is part of the line. What follows the last line
/// feed is a line too, as it stands, unless it is empty.
pub open spec fn lines_of(text: Seq<char>) -> Seq<Seq<char>> {
    let parts = pieces(text);
    let closed = parts.drop_last().map_values(|line: Seq<char>| without_return(line));
    if parts.last().len() == 0 {
        closed
    } else {
        closed.push(parts.last())
    }
}

/// Whether `reason` can stand in a line of a record: it holds no line feed
/// and does not end in a carriage return.
pub open spec fn fits_one_line(reason: Seq<char>) -> bool {
    &&& forall|i: int| 0 <= i < reason.len() ==> #[trigger] reason[i] != '\n'
    &&& reason.len() > 0 ==> reason.last() != '\r'
}

proof fn lemma_pieces_nonempty(text: Seq<char>)
    ensures
        pieces(text).len() > 0,
    decreases text.len(),
{
    if text.len() > 0 {
        lemma_pieces_nonempty(text.drop_last());
    }
}

proof fn lemma_pieces_extend(text: Seq<char>, more: Seq<char>)
    requires
        forall|i: int| 0 <= i < more.len() ==> #[trigger] more[i] != '\n',
    ensures
        pieces(text).len() > 0,
        pieces(text + more) == pieces(text).update(
            pieces(text).len() - 1,
            pieces(text).last() + more,
        ),
    decreases more.len(),
{
    lemma_pieces_nonempty(text);
    let parts = pieces(text);
    if more.len() > 0 {
        let shorter = more.drop_last();
        lemma_pieces_extend(text, shorter);
        assert((text + more).drop_last() =~= text + shorter);
        assert((parts.last() + shorter).push(more.last()) =~= parts.last() + more);
    }
}

proof fn lemma_time_text_has_no_line_feed(at: Civil)
    requires
        is_civil(at),
    ensures
        time_text(at).len() == 19,
        forall|i: int| 0 <= i < 19 ==> #[trigger] time_text(at)[i] != '\n',
{
}

proof fn lemma_line_of_fitting_entry(entry: EntryView)
    requires
        is_civil(entry.at),
        fits_one_line(entry.reason),
    ensures
        forall|i: int| 0 <= i < entry_line(entry).len() ==> #[trigger] entry_line(entry)[i] != '\n',
        entry_line(entry).len() > 0,
        entry_line(entry).last() != '\r',
{
    lemma_time_text_has_no_line_feed(entry.at);
}

proof fn lemma_pieces_of_stored_text(entries: Seq<EntryView>)
    requires
        forall|i: int|
            0 <= i < entries.len() ==> is_civil((#[trigger] entries[i]).at) && fits_one_line(
                entries[i].reason,
            ),
    ensures
        pieces(stored_text(entries)) == entry_lines(entries).push(Seq::empty()),
    decreases entries.len(),
{
    if entries.len() > 0 {
        let earlier = entries.drop_last();
        let line = entry_line(entries.last());
        lemma_pieces_of_stored_text(earlier);
        lemma_line_of_fitting_entry(entries.last());
        lemma_pieces_extend(stored_text(earlier), line);
        assert(stored_text(entries).drop_last() =~= stored_text(earlier) + line);
    }
}

/// What is written is what is read: the lines of a record's file are the lines
/// of its warnings, one for one and in their order, as long as every reason
/// fits one line.
pub proof fn lemma_stored_record_lists_its_lines(entries: Seq<EntryView>)
    requires
        forall|i: int|
            0 <= i < entries.len() ==> is_civil((#[trigger] entries[i]).at) && fits_one_line(
                entries[i].reason,
            ),
    ensures
        lines_of(stored_text(entries)) == entry_lines(entries),
{
    lemma_pieces_of_stored_text(entries);
    assert forall|i: int| 0 <= i < entries.len() implies without_return(
        #[trigger] entry_lines(entries)[i],
    ) == entry_lines(entries)[i] by {
        lemma_line_of_fitting_entry(entries[i]);
    }
}

/// Splits the text of a record's file into its lines.
pub fn stored_lines(text: &str) -> (lines: Vec<String>)
    ensures
        texts_of(lines@) == lines_of(text@),
{
    let chars = chars_of(text);
    let mut lines: Vec<String> = Vec::new();
    let mut open: Vec<char> = Vec::new();
    let mut i: usize = 0;
    while i < chars.len()
        invariant
            i <= chars.len(),
            pieces(chars@.take(i as int)).len() > 0,
            pieces(chars@.take(i as int)).last() == open@,
            texts_of(lines@) == pieces(chars@.take(i as int)).drop_last().map_values(
                |line: Seq<char>| without_return(line),
            ),
        decreases chars.len() - i,
    {
        let c = chars[i];
        let ghost before = pieces(chars@.take(i as int));
        let ghost read = texts_of(lines@);
        proof {
            assert(chars@.take(i + 1).drop_last() =~= chars@.take(i as int));
        }
        if c == '\n' {
            if open.len() > 0 && open[open.len() - 1] == '\r' {
                open.pop();
            }
            lines.push(text_of(&open));
            open = Vec::new();
            proof {
                assert(texts_of(lines@) =~= read.push(without_return(before.last())));
                assert(texts_of(lines@) =~= pieces(chars@.take(i + 1)).drop_last().map_values(
                    |line: Seq<char>| without_return(line),
                ));
            }
        } else {
            open.push(c);
        }
        i += 1;
    }
    proof {
        assert(chars@.take(i as int) =~= chars@);
    }
    if open.len() > 0 {
        lines.push(text_of(&open));
    }
    lines
}

/// Writes what an append adds to the record's file: the warning's line and
/// the line feed that closes it.
pub fn stored_line(entry: &WarningEntry) -> (s: String)
    ensures
        s@ == entry_line(entry@).push('\n'),
{
    let mut s = entry.line();
    push_char(&mut s, '\n');
    s
}

/// Writes the whole text of a record's file.
pub fn record_text(record: &WarningRecord) -> (text: String)
    ensures
        text@ == stored_text(record@),
{
    let lines = record.lines();
    let mut text = String::new();
    let mut i: usize = 0;
    proof {
        assert(texts_of(lines@).len() == lines.len());
    }
    while i < lines.len()
        invariant
            i <= lines.len() == record@.len(),
            texts_of(lines@) == entry_lines(record@),
            text@ == stored_text(record@.take(i as int)),
        decreases lines.len() - i,
    {
        proof {
            assert(entry_lines(record@)[i as int] == entry_line(record@[i as int]));
            assert(record@.take(i + 1).drop_last() =~= record@.take(i as int));
        }
        text.append(lines[i].as_str());
        push_char(&mut text, '\n');
        i += 1;
    }
    proof {
        assert(record@.take(i as int) =~= record@);
    }
    text
}

/// What the reading of a record's file came to.
pub enum StoredRecord {
    /// There is no such file.
    Missing,
    /// The file could not be read.
    Unreadable,
    /// The file holds this text.
    Text(String),
}

/// What listing a key gives, from what reading its file came to.
pub open spec fn listed(stored: StoredRecord) -> Result<Seq<Seq<char>>, FailureKind> {
    match stored {
        StoredRecord::Missing => Err(FailureKind::NotFound),
        StoredRecord::Unreadable => Err(FailureKind::StorageUnavailable),
        StoredRecord::Text(text) => Ok(lines_of(text@)),
    }
}

/// Lists the warnings of the key whose file was read: its lines in the file's
/// order, `NotFound` where the key has no file, `StorageUnavailable` where the
/// file was there and could not be read.
pub fn list_stored(stored: &StoredRecord) -> (r: Result<Vec<String>, FailureKind>)
    ensures
        match r {
            Ok(lines) => listed(*stored) == Ok::<Seq<Seq<char>>, FailureKind>(texts_of(lines@)),
            Err(kind) => listed(*stored) == Err::<Seq<Seq<char>>, FailureKind>(kind),
        },
{
    match stored {
        StoredRecord::Missing => Err(FailureKind::NotFound),
        StoredRecord::Unreadable => Err(FailureKind::StorageUnavailable),
        StoredRecord::Text(text) => Ok(stored_lines(text.as_str())),
    }
}

/// What an append comes to, once storage has said whether the line was
/// written and flushed: success if it was, `StorageUnavailable` if not.
pub fn append_outcome(written: bool) -> (r: Result<(), FailureKind>)
    ensures
        written ==> r is Ok,
        !written ==> r == Err::<(), FailureKind>(FailureKind::StorageUnavailable),
{
    if written {
        Ok(())
    } else {
        Err(FailureKind::StorageUnavailable)
    }
}

} // verus!
