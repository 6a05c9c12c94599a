use crate::text::{decimal_string, decimal_text, same_text};
use vstd::prelude::*;

verus! {

/// How often one command was used.
pub struct Tally {
    pub name: Seq<char>,
    pub count: nat,
}

/// The place of the tally of `name` among `tallies`, or their number where the
/// command has none.
pub open spec fn place_of(tallies: Seq<Tally>, name: Seq<char>, from: int) -> int
    decreases tallies.len() - from,
{
    if from >= tallies.len() {
        tallies.len() as int
    } else if tallies[from].name == name {
        from
    } else {
        place_of(tallies, name, from + 1)
    }
}

/// How often `name` was used; zero for a command that never was.
pub open spec fn count_of(tallies: Seq<Tally>, name: Seq<char>) -> nat {
    let place = place_of(tallies, name, 0);
    if place < tallies.len() {
        tallies[place].count
    } else {
        0
    }
}

/// The tallies after one more use of `name`: its tally is one higher, or is
/// new, at the end, with a count of one. No other tally changes or moves.
pub open spec fn after_use(tallies: Seq<Tally>, name: Seq<char>) -> Seq<Tally> {
    let place = place_of(tallies, name, 0);
    if place < tallies.len() {
        tallies.update(place, Tally { name, count: tallies[place].count + 1 })
    } else {
        tallies.push(Tally { name, count: 1 })
    }
}

/// The report on `tallies`: a heading, then a line for each command in the
/// order of first use.
pub open spec fn report_text(tallies: Seq<Tally>) -> Seq<char>
    decreases tallies.len(),
{
    if tallies.len() == 0 {
        "Commands used:\n"@
    } else {
        report_text(tallies.drop_last()) + "- "@ + tallies.last().name + ": "@ + decimal_text(
            tallies.last().count,
        ) + "\n"@
    }
}

proof fn lemma_place_of(tallies: Seq<Tally>, name: Seq<char>, from: int)
    requires
        0 <= from <= tallies.len(),
    ensures
        from <= place_of(tallies, name, from) <= tallies.len(),
        place_of(tallies, name, from) < tallies.len() ==> tallies[place_of(
            tallies,
            name,
            from,
        )].name == name,
        forall|i: int| from <= i < place_of(tallies, name, from) ==> tallies[i].name != name,
    decreases tallies.len() - from,
{
    if from < tallies.len() && tallies[from].name != name {
        lemma_place_of(tallies, name, from + 1);
    }
}

proof fn lemma_place_found(tallies: Seq<Tally>, name: Seq<char>, from: int, at: int)
    requires
        0 <= from <= at <= tallies.len(),
        forall|i: int| from <= i < at ==> tallies[i].name != name,
        at < tallies.len() ==> tallies[at].name == name,
    ensures
        place_of(tallies, name, from) == at,
    decreases at - from,
{
    if from < at {
        lemma_place_found(tallies, name, from + 1, at);
    }
}

/// One use counts once, and for its own command only.
pub proof fn lemma_use_counts_once(tallies: Seq<Tally>, used: Seq<char>, name: Seq<char>)
    ensures
        count_of(after_use(tallies, used), used) == count_of(tallies, used) + 1,
        name != used ==> count_of(after_use(tallies, used), name) == count_of(tallies, name),
{
    let place = place_of(tallies, used, 0);
    let after = after_use(tallies, used);
    lemma_place_of(tallies, used, 0);
    lemma_place_found(after, used, 0, place);
    if name != used {
        let other = place_of(tallies, name, 0);
        lemma_place_of(tallies, name, 0);
        if other < tallies.len() {
            lemma_place_found(after, name, 0, other);
        } else {
            lemma_place_found(after, name, 0, after.len() as int);
        }
    }
}

/// One command and the number of its uses.
struct Usage {
    name: String,
    count: u64,
}

impl View for Usage {
    type V = Tally;

    closed spec fn view(&self) -> Tally {
        Tally { name: self.name@, count: self.count as nat }
    }
}

/// Counts the uses of each command.
pub struct CommandCounter {
    usages: Vec<Usage>,
}

impl View for CommandCounter {
    type V = Seq<Tally>;

    closed spec fn view(&self) -> Seq<Tally> {
        self.usages@.map_values(|u: Usage| u@)
    }
}

impl CommandCounter {
    /// A counter that has seen no command.
    pub fn new() -> (counter: CommandCounter)
        ensures
            counter@ == Seq::<Tally>::empty(),
    {
        let counter = CommandCounter { usages: Vec::new() };
        counter
    }

    fn place(&self, name: &str) -> (at: usize)
        ensures
            at == place_of(self@, name@, 0),
            at <= self.usages.len(),
            self.usages.len() == self@.len(),
    {
        let mut at: usize = 0;
        while at < self.usages.len()
            invariant
                at <= self.usages.len(),
                self.usages.len() == self@.len(),
                forall|i: int| 0 <= i < at ==> self@[i].name != name@,
            decreases self.usages.len() - at,
        {
            if same_text(self.usages[at].name.as_str(), name) {
                proof {
                    lemma_place_found(self@, name@, 0, at as int);
                }
                return at;
            }
            at += 1;
        }
        proof {
            lemma_place_found(self@, name@, 0, at as int);
        }
        at
    }

    /// How often `name` was used.
    pub fn count(&self, name: &str) -> (count: u64)
        ensures
            count == count_of(self@, name@),
    {
        let at = self.place(name);
        if at < self.usages.len() {
            self.usages[at].count
        } else {
            0
        }
    }

    /// Counts one use of `name`.
    pub fn record(&mut self, name: &str)
        requires
            count_of(old(self)@, name@) < u64::MAX,
        ensures
            final(self)@ == after_use(old(self)@, name@),
    {
        let at = self.place(name);
        if at < self.usages.len() {
            proof {
                lemma_place_of(self@, name@, 0);
            }
            let more = self.usages[at].count + 1;
            self.usages[at].count = more;
        } else {
            self.usages.push(Usage { name: name.to_owned(), count: 1 });
        }
    }

    /// The tallies as they stand: each command with the number of its uses, in
    /// the order of first use.
    pub fn snapshot(&self) -> (tallies: Vec<(String, u64)>)
        ensures
            tallies.len() == self@.len(),
            forall|i: int|
                0 <= i < tallies.len() ==> (#[trigger] tallies[i]).0@ == self@[i].name
                    && tallies[i].1 == self@[i].count,
    {
        let mut tallies: Vec<(String, u64)> = Vec::new();
        let mut i: usize = 0;
        while i < self.usages.len()
            invariant
                i <= self.usages.len(),
                self.usages.len() == self@.len(),
                tallies.len() == i,
                forall|j: int|
                    0 <= j < i ==> (#[trigger] tallies[j]).0@ == self@[j].name && tallies[j].1
                        == self@[j].count,
            decreases self.usages.len() - i,
        {
            tallies.push((self.usages[i].name.clone(), self.usages[i].count));
            i += 1;
        }
        tallies
    }

    /// Writes the report that `commands` answers with.
    pub fn report(&self) -> (report: String)
        ensures
            report@ == report_text(self@),
    {
        let mut report = "Commands used:\n".to_owned();
        let mut i: usize = 0;
        while i < self.usages.len()
            invariant
                i <= self.usages.len(),
                self.usages.len() == self@.len(),
                report@ == report_text(self@.take(i as int)),
            decreases self.usages.len() - i,
        {
            proof {
                assert(self@.take(i + 1).drop_last() =~= self@.take(i as int));
            }
            report.append("- ");
            report.append(self.usages[i].name.as_str());
            report.append(": ");
            report.append(decimal_string(self.usages[i].count).as_str());
            report.append("\n");
            i += 1;
        }
        proof {
            assert(self@.take(i as int) =~= self@);
        }
        report
    }
}

} // verus!
