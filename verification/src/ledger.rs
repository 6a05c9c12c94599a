use crate::text::same_text;
use crate::timestamp::{not_after, time_text, Civil, Timestamp};
use crate::FailureKind;
use vstd::prelude::*;

verus! {

/// What one warning says: when it was given and why.
pub struct EntryView {
    pub at: Civil,
    pub reason: Seq<char>,
}

/// The reason that goes on file: the one given or, where none is given, the
/// standing phrase.
pub open spec fn effective_reason(reason: Seq<char>) -> Seq<char> {
    if reason.len() == 0 {
        "No reason provided."@
    } else {
        reason
    }
}

/// The line that a warning makes in its record: the instant in square
/// brackets, one space, and the reason.
pub open spec fn entry_line(e: EntryView) -> Seq<char> {
    seq!['['] + time_text(e.at) + seq![']', ' '] + e.reason
}

/// The lines of a run of warnings, in their order.
pub open spec fn entry_lines(entries: Seq<EntryView>) -> Seq<Seq<char>> {
    entries.map_values(|e: EntryView| entry_line(e))
}

/// The reason to put on file for what a moderator wrote.
pub fn reason_or_placeholder(reason: &str) -> (r: String)
    ensures
        r@ == effective_reason(reason@),
{
    if reason.is_empty() {
        "No reason provided.".to_owned()
    } else {
        reason.to_owned()
    }
}

/// One warning. Nothing changes it once it is made.
pub struct WarningEntry {
    at: Timestamp,
    reason: String,
}

impl View for WarningEntry {
    type V = EntryView;

    closed spec fn view(&self) -> EntryView {
        EntryView { at: self.at@, reason: self.reason@ }
    }
}

impl WarningEntry {
    /// The warning given at `at` for `reason`; an empty reason is replaced by
    /// the standing phrase.
    pub fn new(at: Timestamp, reason: &str) -> (e: WarningEntry)
        ensures
            e@ == (EntryView { at: at@, reason: effective_reason(reason@) }),
    {
        WarningEntry { at, reason: reason_or_placeholder(reason) }
    }

    /// When the warning was given.
    pub fn at(&self) -> (at: Timestamp)
        ensures
            at@ == self@.at,
    {
        self.at
    }

    /// Why the warning was given.
    pub fn reason(&self) -> (reason: &str)
        ensures
            reason@ == self@.reason,
    {
        self.reason.as_str()
    }

    /// Writes the warning's line.
    pub fn line(&self) -> (s: String)
        ensures
            s@ == entry_line(self@),
    {
        proof {
            reveal_strlit("[");
            reveal_strlit("] ");
        }
        let mut s = "[".to_owned();
        s.append(self.at.text().as_str());
        s.append("] ");
        s.append(self.reason.as_str());
        s
    }
}

/// The warnings of one user, oldest first.
pub struct WarningRecord {
    key: String,
    entries: Vec<WarningEntry>,
}

impl View for WarningRecord {
    type V = Seq<EntryView>;

    closed spec fn view(&self) -> Seq<EntryView> {
        self.entries@.map_values(|e: WarningEntry| e@)
    }
}

impl WarningRecord {
    /// The key that the record is filed under.
    pub closed spec fn key_text(&self) -> Seq<char> {
        self.key@
    }

    /// The key that the record is filed under.
    pub fn key(&self) -> (key: &str)
        ensures
            key@ == self.key_text(),
    {
        self.key.as_str()
    }

    /// The number of warnings in the record.
    pub fn len(&self) -> (n: usize)
        ensures
            n == self@.len(),
    {
        self.entries.len()
    }

    /// Writes the record's lines, oldest first.
    pub fn lines(&self) -> (lines: Vec<String>)
        ensures
            texts_of(lines@) == entry_lines(self@),
    {
        let mut lines: Vec<String> = Vec::new();
        let mut i: usize = 0;
        while i < self.entries.len()
            invariant
                i <= self.entries.len(),
                lines.len() == i,
                forall|j: int| 0 <= j < i ==> (#[trigger] lines[j])@ == entry_line(self@[j]),
            decreases self.entries.len() - i,
        {
            lines.push(self.entries[i].line());
            i += 1;
        }
        lines
    }
}

/// What a ledger holds: for each key with warnings on file, the warnings, oldest
/// first.
pub type Shelves = Map<Seq<char>, Seq<EntryView>>;

/// The warnings on file under `key`; none where the key has no record.
pub open spec fn history(shelves: Shelves, key: Seq<char>) -> Seq<EntryView> {
    if shelves.contains_key(key) {
        shelves[key]
    } else {
        Seq::empty()
    }
}

/// The shelves after one more warning is filed under `key`: that key's record,
/// made now if it did not exist, holds the warning after all that it held, and
/// every other record is as it was.
pub open spec fn after_append(shelves: Shelves, key: Seq<char>, entry: EntryView) -> Shelves {
    shelves.insert(key, history(shelves, key).push(entry))
}

/// What listing `key` gives: the lines of its record, oldest first, or nothing
/// where no record exists.
pub open spec fn listing(shelves: Shelves, key: Seq<char>) -> Option<Seq<Seq<char>>> {
    if shelves.contains_key(key) {
        Some(entry_lines(shelves[key]))
    } else {
        None
    }
}

/// The characters of each string of `lines`.
pub open spec fn texts_of(lines: Seq<String>) -> Seq<Seq<char>> {
    lines.map_values(|s: String| s@)
}

spec fn shelves_of(records: Seq<WarningRecord>) -> Shelves
    decreases records.len(),
{
    if records.len() == 0 {
        Map::empty()
    } else {
        shelves_of(records.drop_last()).insert(records.last().key@, records.last()@)
    }
}

spec fn keys_differ(records: Seq<WarningRecord>) -> bool {
    forall|i: int, j: int|
        0 <= i < j < records.len() ==> (#[trigger] records[i]).key@ != (#[trigger] records[j]).key@
}

proof fn lemma_absent_key(records: Seq<WarningRecord>, key: Seq<char>)
    requires
        forall|i: int| 0 <= i < records.len() ==> (#[trigger] records[i]).key@ != key,
    ensures
        !shelves_of(records).contains_key(key),
    decreases records.len(),
{
    if records.len() > 0 {
        lemma_absent_key(records.drop_last(), key);
    }
}

proof fn lemma_present_key(records: Seq<WarningRecord>, at: int)
    requires
        keys_differ(records),
        0 <= at < records.len(),
    ensures
        shelves_of(records).contains_key(records[at].key@),
        shelves_of(records)[records[at].key@] == records[at]@,
    decreases records.len(),
{
    if at < records.len() - 1 {
        lemma_present_key(records.drop_last(), at);
    }
}

proof fn lemma_replaced_record(records: Seq<WarningRecord>, at: int, record: WarningRecord)
    requires
        keys_differ(records),
        0 <= at < records.len(),
        record.key@ == records[at].key@,
    ensures
        keys_differ(records.update(at, record)),
        shelves_of(records.update(at, record)) == shelves_of(records).insert(
            record.key@,
            record@,
        ),
    decreases records.len(),
{
    let changed = records.update(at, record);
    let rest = records.drop_last();
    if at == records.len() - 1 {
        assert(changed.drop_last() =~= rest);
    } else {
        lemma_replaced_record(rest, at, record);
        assert(changed.drop_last() =~= rest.update(at, record));
    }
}

/// The warnings on file, by the key of the user they were given to.
pub struct WarningLedger {
    records: Vec<WarningRecord>,
}

impl View for WarningLedger {
    type V = Shelves;

    closed spec fn view(&self) -> Shelves {
        shelves_of(self.records@)
    }
}

impl WarningLedger {
    #[verifier::type_invariant]
    spec fn is_well_kept(self) -> bool {
        &&& keys_differ(self.records@)
        &&& forall|i: int| 0 <= i < self.records.len() ==> (#[trigger] self.records[i])@.len() > 0
    }

    /// A ledger with nothing on file.
    pub fn new() -> (ledger: WarningLedger)
        ensures
            ledger@ == Map::<Seq<char>, Seq<EntryView>>::empty(),
    {
        WarningLedger { records: Vec::new() }
    }

    fn position(&self, key: &str) -> (at: Option<usize>)
        ensures
            match at {
                Some(i) => i < self.records.len() && self.records[i as int].key@ == key@,
                None => forall|i: int|
                    0 <= i < self.records.len() ==> (#[trigger] self.records[i]).key@ != key@,
            },
    {
        let mut i: usize = 0;
        while i < self.records.len()
            invariant
                i <= self.records.len(),
                forall|j: int| 0 <= j < i ==> (#[trigger] self.records[j]).key@ != key@,
            decreases self.records.len() - i,
        {
            if same_text(self.records[i].key.as_str(), key) {
                return Some(i);
            }
            i += 1;
        }
        None
    }

    /// Files a warning for `reason`, given at `at`, under `target_key`. The
    /// record under that key is made if this is its first warning. A ledger
    /// kept in memory can always be written, so this succeeds.
    pub fn append(&mut self, target_key: &str, reason: &str, at: Timestamp) -> (r: Result<
        (),
        FailureKind,
    >)
        requires
            target_key@.len() > 0,
        ensures
            r is Ok,
            final(self)@ == after_append(
                old(self)@,
                target_key@,
                (EntryView { at: at@, reason: effective_reason(reason@) }),
            ),
    {
        proof {
            use_type_invariant(&*self);
        }
        let entry = WarningEntry::new(at, reason);
        let found = self.position(target_key);
        let mut records: Vec<WarningRecord> = Vec::new();
        core::mem::swap(&mut self.records, &mut records);
        let ghost before = records@;
        match found {
            Some(i) => {
                proof {
                    lemma_present_key(before, i as int);
                }
                records[i].entries.push(entry);
                proof {
                    let record = records@[i as int];
                    assert(record@ =~= before[i as int]@.push(entry@));
                    lemma_replaced_record(before, i as int, record);
                }
            },
            None => {
                proof {
                    lemma_absent_key(before, target_key@);
                }
                let mut entries: Vec<WarningEntry> = Vec::new();
                entries.push(entry);
                let record = WarningRecord { key: target_key.to_owned(), entries };
                records.push(record);
                proof {
                    assert(records@.drop_last() =~= before);
                    assert(record@ =~= Seq::<EntryView>::empty().push(entry@));
                }
            },
        }
        self.records = records;
        Ok(())
    }

    /// The record on file under `target_key`, where there is one. A record
    /// that exists holds at least one warning.
    pub fn record(&self, target_key: &str) -> (found: Option<&WarningRecord>)
        ensures
            match found {
                Some(record) => self@.contains_key(target_key@) && record@ == self@[target_key@]
                    && record.key_text() == target_key@ && record@.len() > 0,
                None => !self@.contains_key(target_key@),
            },
    {
        proof {
            use_type_invariant(self);
        }
        match self.position(target_key) {
            Some(i) => {
                proof {
                    lemma_present_key(self.records@, i as int);
                }
                Some(&self.records[i])
            },
            None => {
                proof {
                    lemma_absent_key(self.records@, target_key@);
                }
                None
            },
        }
    }

    /// Lists the lines of the warnings on file under `target_key`, oldest
    /// first. Fails with `NotFound` exactly when the key has no record.
    pub fn list(&self, target_key: &str) -> (r: Result<Vec<String>, FailureKind>)
        ensures
            match r {
                Ok(lines) => listing(self@, target_key@) == Some(texts_of(lines@)) && lines.len()
                    > 0,
                Err(kind) => kind == FailureKind::NotFound && listing(self@, target_key@) is None,
            },
    {
        proof {
            use_type_invariant(self);
        }
        match self.position(target_key) {
            Some(i) => {
                proof {
                    lemma_present_key(self.records@, i as int);
                }
                let lines = self.records[i].lines();
                assert(texts_of(lines@).len() == lines.len());
                Ok(lines)
            },
            None => {
                proof {
                    lemma_absent_key(self.records@, target_key@);
                }
                Err(FailureKind::NotFound)
            },
        }
    }
}

/// Whether no warning of `entries` is older than one before it.
pub open spec fn chronological(entries: Seq<EntryView>) -> bool {
    forall|i: int, j: int|
        0 <= i <= j < entries.len() ==> not_after(
            (#[trigger] entries[i]).at,
            (#[trigger] entries[j]).at,
        )
}

/// A record that is in the order of time stays so when the warning filed is
/// not older than its last.
pub proof fn lemma_later_warning_keeps_order(entries: Seq<EntryView>, entry: EntryView)
    requires
        chronological(entries),
        entries.len() > 0 ==> not_after(entries.last().at, entry.at),
    ensures
        chronological(entries.push(entry)),
{
    let longer = entries.push(entry);
    assert forall|i: int, j: int| 0 <= i <= j < longer.len() implies not_after(
        (#[trigger] longer[i]).at,
        (#[trigger] longer[j]).at,
    ) by {
        if i < entries.len() <= j {
            assert(not_after(entries[i].at, entries.last().at));
        }
    }
}

/// One filing: a warning and the key that it goes under.
pub struct Filing {
    pub key: Seq<char>,
    pub entry: EntryView,
}

/// The shelves after a run of filings, taken one after the other.
pub open spec fn after_appends(shelves: Shelves, filings: Seq<Filing>) -> Shelves
    decreases filings.len(),
{
    if filings.len() == 0 {
        shelves
    } else {
        after_append(
            after_appends(shelves, filings.drop_last()),
            filings.last().key,
            filings.last().entry,
        )
    }
}

/// The warnings that a run of filings puts under `key`, in the order of the run.
pub open spec fn filed_under(filings: Seq<Filing>, key: Seq<char>) -> Seq<EntryView>
    decreases filings.len(),
{
    if filings.len() == 0 {
        Seq::empty()
    } else if filings.last().key == key {
        filed_under(filings.drop_last(), key).push(filings.last().entry)
    } else {
        filed_under(filings.drop_last(), key)
    }
}

/// A record is its history and nothing else: after any run of filings, in
/// whatever order filings for different keys take their turns, the record
/// under a key holds what it held before, then exactly the warnings filed under
/// that key, in the order in which they were filed. A key has a record exactly
/// if it had one or a warning was filed under it.
pub proof fn lemma_record_is_its_history(shelves: Shelves, filings: Seq<Filing>, key: Seq<char>)
    ensures
        history(after_appends(shelves, filings), key) == history(shelves, key) + filed_under(
            filings,
            key,
        ),
        after_appends(shelves, filings).contains_key(key) <==> shelves.contains_key(key)
            || filed_under(filings, key).len() > 0,
    decreases filings.len(),
{
    if filings.len() > 0 {
        let earlier = filings.drop_last();
        lemma_record_is_its_history(shelves, earlier, key);
        lemma_record_is_its_history(shelves, earlier, filings.last().key);
        if filings.last().key == key {
            assert(history(shelves, key) + filed_under(earlier, key).push(filings.last().entry)
                =~= (history(shelves, key) + filed_under(earlier, key)).push(
                filings.last().entry,
            ));
        }
    }
}

/// Filing `n` warnings under one key and then listing it gives `n` lines more
/// than before, those of the warnings, in the order in which they were filed;
/// on a key that had no record, exactly those `n` lines.
pub proof fn lemma_appends_then_list(shelves: Shelves, key: Seq<char>, filings: Seq<Filing>)
    requires
        filings.len() > 0,
        forall|i: int| 0 <= i < filings.len() ==> (#[trigger] filings[i]).key == key,
    ensures
        filed_under(filings, key) == filings.map_values(|f: Filing| f.entry),
        listing(after_appends(shelves, filings), key) == Some(
            entry_lines(history(shelves, key) + filings.map_values(|f: Filing| f.entry)),
        ),
        !shelves.contains_key(key) ==> listing(after_appends(shelves, filings), key) == Some(
            entry_lines(filings.map_values(|f: Filing| f.entry)),
        ),
        listing(after_appends(shelves, filings), key)->0.len() == history(shelves, key).len()
            + filings.len(),
{
    lemma_all_filed_under(filings, key);
    lemma_record_is_its_history(shelves, filings, key);
}

proof fn lemma_all_filed_under(filings: Seq<Filing>, key: Seq<char>)
    requires
        forall|i: int| 0 <= i < filings.len() ==> (#[trigger] filings[i]).key == key,
    ensures
        filed_under(filings, key) == filings.map_values(|f: Filing| f.entry),
    decreases filings.len(),
{
    if filings.len() > 0 {
        lemma_all_filed_under(filings.drop_last(), key);
    }
}

/// A key under which nothing was ever filed has no record: listing it finds
/// nothing, on a new ledger and after any filings under other keys.
pub proof fn lemma_unfiled_key_lists_nothing(filings: Seq<Filing>, key: Seq<char>)
    requires
        forall|i: int| 0 <= i < filings.len() ==> (#[trigger] filings[i]).key != key,
    ensures
        listing(Map::empty(), key) is None,
        listing(after_appends(Map::empty(), filings), key) is None,
{
    lemma_none_filed_under(filings, key);
    lemma_record_is_its_history(Map::empty(), filings, key);
}

proof fn lemma_none_filed_under(filings: Seq<Filing>, key: Seq<char>)
    requires
        forall|i: int| 0 <= i < filings.len() ==> (#[trigger] filings[i]).key != key,
    ensures
        filed_under(filings, key) == Seq::<EntryView>::empty(),
    decreases filings.len(),
{
    if filings.len() > 0 {
        lemma_none_filed_under(filings.drop_last(), key);
    }
}

/// Filings under other keys leave a key's record alone: whatever is filed
/// elsewhere, and in whatever order, listing the key gives what it gave.
pub proof fn lemma_other_keys_stay_apart(shelves: Shelves, filings: Seq<Filing>, key: Seq<char>)
    requires
        forall|i: int| 0 <= i < filings.len() ==> (#[trigger] filings[i]).key != key,
    ensures
        listing(after_appends(shelves, filings), key) == listing(shelves, key),
{
    lemma_none_filed_under(filings, key);
    lemma_record_is_its_history(shelves, filings, key);
}

/// No filing is lost: after any run of filings, a key under which at least one
/// went has a record, and the record has one line for each of them on top of
/// those it had.
pub proof fn lemma_no_filing_is_lost(shelves: Shelves, filings: Seq<Filing>, key: Seq<char>)
    requires
        filed_under(filings, key).len() > 0,
    ensures
        listing(after_appends(shelves, filings), key) matches Some(lines) && lines.len()
            == history(shelves, key).len() + filed_under(filings, key).len(),
{
    lemma_record_is_its_history(shelves, filings, key);
}

} // verus!
