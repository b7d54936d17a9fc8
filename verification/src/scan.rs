//! Scanning a foreign table: the rows are fetched from the emulator once, on
//! the first request for a row, and then handed out one by one.

use vstd::prelude::*;
use crate::fdw::{table_named, ForeignRow, Table};
use crate::messages::{Event, InventoryItem, Pokemon};

verus! {

/// The state of a scan of one table.
pub struct PokemonFDW {
    table: Table,
    retrieved: bool,
    items: Vec<ForeignRow>,
}

/// The mathematical state of a scan: which table, whether its rows have been
/// fetched, and the rows not yet handed out.
pub struct ScanState {
    pub table: Table,
    pub retrieved: bool,
    pub items: Seq<ForeignRow>,
}

impl View for PokemonFDW {
    type V = ScanState;

    closed spec fn view(&self) -> ScanState {
        ScanState { table: self.table, retrieved: self.retrieved, items: self.items@ }
    }
}

/// What the scan asks for next.
#[derive(Clone, Copy, Debug, PartialEq, Eq, Structural)]
pub enum ScanStep {
    /// The rows of this table must be fetched and delivered first.
    Fetch(Table),
    /// The next row.
    Row(ForeignRow),
    /// There are no more rows.
    Done,
}

/// One step of a scan: until the rows are fetched, ask for them and change
/// nothing; then hand out the last remaining row, and once none is left,
/// report the end.
pub open spec fn scan_next(s: ScanState) -> (ScanState, ScanStep) {
    if !s.retrieved {
        (s, ScanStep::Fetch(s.table))
    } else if s.items.len() == 0 {
        (s, ScanStep::Done)
    } else {
        (ScanState { items: s.items.drop_last(), ..s }, ScanStep::Row(s.items.last()))
    }
}

/// The steps of `n` successive requests for a row.
pub open spec fn scan_run(s: ScanState, n: nat) -> Seq<ScanStep>
    decreases n,
{
    if n == 0 {
        Seq::empty()
    } else {
        seq![scan_next(s).1] + scan_run(scan_next(s).0, (n - 1) as nat)
    }
}

/// The state right after the rows of the table were delivered.
pub open spec fn delivered(s: ScanState, rows: Seq<ForeignRow>) -> ScanState {
    ScanState { table: s.table, retrieved: true, items: rows }
}

impl PokemonFDW {
    /// Starts a scan of the table called `table_name`. A name that is not one
    /// of ours is an error, whose message `unknown_table_message` gives and
    /// which the caller raises; the state returned for such a name scans the
    /// party.
    pub fn begin(table_name: &str) -> (f: PokemonFDW)
        ensures
            f@ == (ScanState {
                table: match table_named(table_name@) {
                    Some(t) => t,
                    None => Table::Party,
                },
                retrieved: false,
                items: Seq::empty(),
            }),
    {
        let table = match Table::from_name(table_name) {
            Some(t) => t,
            None => Table::Party,
        };
        PokemonFDW { table, retrieved: false, items: Vec::new() }
    }

    /// The table being scanned.
    pub fn table(&self) -> (t: Table)
        ensures
            t == self@.table,
    {
        self.table
    }

    /// Asks for the next row.
    pub fn next(&mut self) -> (step: ScanStep)
        ensures
            (final(self)@, step) == scan_next(old(self)@),
    {
        if !self.retrieved {
            return ScanStep::Fetch(self.table);
        }
        match self.items.pop() {
            Some(r) => ScanStep::Row(r),
            None => ScanStep::Done,
        }
    }

    /// The message that reports a table name that is not one of ours, or
    /// `None` for a name that is.
    pub fn unknown_table_message(table_name: &str) -> (m: Option<String>)
        ensures
            (m is Some) <==> table_named(table_name@) is None,
            m matches Some(s) ==> s@ == "Unknown table: "@ + table_name@,
    {
        match Table::from_name(table_name) {
            Some(_) => None,
            None => {
                let mut s = String::from_str("Unknown table: ");
                s.append(table_name);
                Some(s)
            },
        }
    }

    /// Takes the failure of the fetch of the rows, given the error text: the
    /// scan hands out no row this time, the error text is what is reported,
    /// and the scan stays as it was, so the next request asks for the rows
    /// again.
    pub fn fetch_failed(&mut self, detail: &str) -> (res: (Option<ForeignRow>, String))
        ensures
            final(self)@ == old(self)@,
            res.0 is None,
            res.1@ == detail@,
    {
        (None, String::from_str(detail))
    }

    /// Hands the scan the rows fetched for its table.
    pub fn deliver(&mut self, rows: Vec<ForeignRow>)
        ensures
            final(self)@ == delivered(old(self)@, rows@),
    {
        self.items = rows;
        self.retrieved = true;
    }
}

/// The rows of the `party` table for the fetched party.
pub fn party_rows(party: &Vec<Pokemon>) -> (rows: Vec<ForeignRow>)
    ensures
        rows@ == party@.map_values(|p: Pokemon| ForeignRow::Pokemon(p)),
{
    let mut rows: Vec<ForeignRow> = Vec::new();
    let n = party.len();
    for i in 0..n
        invariant
            n == party@.len(),
            rows@ == party@.take(i as int).map_values(|p: Pokemon| ForeignRow::Pokemon(p)),
    {
        rows.push(ForeignRow::Pokemon(party[i]));
        assert(party@.take(i + 1) =~= party@.take(i as int).push(party@[i as int]));
        assert(rows@ =~= party@.take(i + 1).map_values(|p: Pokemon| ForeignRow::Pokemon(p)));
    }
    assert(party@.take(n as int) =~= party@);
    rows
}

/// The rows of the `inventory` table for the fetched bag.
pub fn inventory_rows(items: &Vec<InventoryItem>) -> (rows: Vec<ForeignRow>)
    ensures
        rows@ == items@.map_values(|i: InventoryItem| ForeignRow::Inventory(i)),
{
    let mut rows: Vec<ForeignRow> = Vec::new();
    let n = items.len();
    for i in 0..n
        invariant
            n == items@.len(),
            rows@ == items@.take(i as int).map_values(|x: InventoryItem| ForeignRow::Inventory(x)),
    {
        rows.push(ForeignRow::Inventory(items[i]));
        assert(items@.take(i + 1) =~= items@.take(i as int).push(items@[i as int]));
        assert(rows@ =~= items@.take(i + 1).map_values(|x: InventoryItem| ForeignRow::Inventory(x)));
    }
    assert(items@.take(n as int) =~= items@);
    rows
}

/// The rows of the `story` table for the fetched events.
pub fn story_rows(events: &Vec<Event>) -> (rows: Vec<ForeignRow>)
    ensures
        rows@ == events@.map_values(|e: Event| ForeignRow::Event(e)),
{
    let mut rows: Vec<ForeignRow> = Vec::new();
    let n = events.len();
    for i in 0..n
        invariant
            n == events@.len(),
            rows@ == events@.take(i as int).map_values(|e: Event| ForeignRow::Event(e)),
    {
        rows.push(ForeignRow::Event(events[i]));
        assert(events@.take(i + 1) =~= events@.take(i as int).push(events@[i as int]));
        assert(rows@ =~= events@.take(i + 1).map_values(|e: Event| ForeignRow::Event(e)));
    }
    assert(events@.take(n as int) =~= events@);
    rows
}

/// Until its rows are delivered, a scan asks for them at every step and
/// stays as it is.
pub proof fn lemma_scan_waits_for_rows(s: ScanState, n: nat)
    requires
        !s.retrieved,
    ensures
        scan_run(s, n) == Seq::new(n, |i: int| ScanStep::Fetch(s.table)),
    decreases n,
{
    if n > 0 {
        lemma_scan_waits_for_rows(s, (n - 1) as nat);
    }
    assert(scan_run(s, n) =~= Seq::new(n, |i: int| ScanStep::Fetch(s.table)));
}

/// Once its rows are delivered, a scan never asks for them again: it hands
/// out the rows last first, each exactly once, and then reports the end at
/// every further step.
pub proof fn lemma_scan_drains_in_reverse(s: ScanState, n: nat)
    requires
        s.retrieved,
    ensures
        scan_run(s, n).len() == n,
        forall|i: int|
            0 <= i < n ==> #[trigger] scan_run(s, n)[i] == (if i < s.items.len() {
                ScanStep::Row(s.items[s.items.len() - 1 - i])
            } else {
                ScanStep::Done
            }),
    decreases n,
{
    if n > 0 {
        let t = scan_next(s).0;
        lemma_scan_drains_in_reverse(t, (n - 1) as nat);
        let run = scan_run(s, n);
        assert forall|i: int| 0 <= i < n implies #[trigger] run[i] == (if i < s.items.len() {
            ScanStep::Row(s.items[s.items.len() - 1 - i])
        } else {
            ScanStep::Done
        }) by {
            if i > 0 {
                assert(run[i] == scan_run(t, (n - 1) as nat)[i - 1]);
            }
        }
    }
}

/// Delivering rows and then asking for `rows.len() + extra` rows gives the
/// rows in reverse order followed by `extra` ends of the scan.
pub proof fn lemma_delivered_scan(s: ScanState, rows: Seq<ForeignRow>, extra: nat)
    ensures
        scan_run(delivered(s, rows), rows.len() + extra) == rows.reverse().map_values(
            |r: ForeignRow| ScanStep::Row(r),
        ) + Seq::new(extra, |i: int| ScanStep::Done),
{
    let d = delivered(s, rows);
    let n = rows.len() + extra;
    lemma_scan_drains_in_reverse(d, n);
    assert(scan_run(d, n) =~= rows.reverse().map_values(|r: ForeignRow| ScanStep::Row(r)) + Seq::new(
        extra,
        |i: int| ScanStep::Done,
    ));
}

} // verus!
