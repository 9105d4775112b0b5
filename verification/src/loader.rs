//! Reading the catalog: the rows of a delimited text file become two pools,
//! one of scrolls and one of graded wares.

use vstd::prelude::*;

use crate::item::{entries, fields_view, record_entry, Entry, StockItem};
use crate::text::trimmed;

verus! {

/// Why a catalog could not be loaded.
#[derive(Debug, Clone, Copy, PartialEq, Eq, Structural)]
pub enum LoadError {
    /// The catalog could not be read at all.
    SourceUnavailable,
    /// The row with this index, counted from 0, is not a row of five
    /// readable fields.
    MalformedRow(usize),
}

/// The error type of the `csv` crate, carried through without looking inside.
#[verifier::external_type_specification]
#[verifier::external_body]
pub struct ExCsvError(csv::Error);

/// A row of a catalog as plain values: its fields, or `None` for a row that
/// could not be read.
pub open spec fn row_view(row: Option<Vec<String>>) -> Option<Seq<Seq<char>>> {
    match row {
        Some(fields) => Some(fields_view(fields@)),
        None => None,
    }
}

/// The rows of a catalog as plain values.
pub open spec fn rows_view(rows: Seq<Option<Vec<String>>>) -> Seq<Option<Seq<Seq<char>>>> {
    rows.map_values(|row: Option<Vec<String>>| row_view(row))
}

/// A record as the reader hands it out, as plain values: its fields, or
/// `None` in place of the reader's error.
pub open spec fn record_view(record: Result<Vec<String>, csv::Error>) -> Option<Seq<Seq<char>>> {
    match record {
        Ok(fields) => Some(fields_view(fields@)),
        Err(_) => None,
    }
}

/// The records that the reader hands out, as plain values.
pub open spec fn records_view(records: Seq<Result<Vec<String>, csv::Error>>) -> Seq<
    Option<Seq<Seq<char>>>,
> {
    records.map_values(|record: Result<Vec<String>, csv::Error>| record_view(record))
}

/// The records that the `csv` crate reads from `data`, with no header row and
/// with any number of fields in a record.
pub uninterp spec fn csv_records(data: Seq<u8>) -> Seq<Option<Seq<Seq<char>>>>;

/// Reads `data` with `csv::Reader::into_records`. The reader is built by
/// `csv::ReaderBuilder` with `has_headers(false)` and `flexible(true)`, so
/// every record is handed out, whatever its number of fields. The result
/// holds, for each record in order, its fields, or the reader's error where
/// the record is not valid UTF-8. What comes back depends on `data` alone.
#[verifier::external_body]
fn read_records(data: &[u8]) -> (records: Vec<Result<Vec<String>, csv::Error>>)
    ensures
        records_view(records@) == csv_records(data@),
{
    let mut builder = csv::ReaderBuilder::new();
    builder.has_headers(false).flexible(true);
    builder.from_reader(data).into_records().map(
        |row| row.map(|record| record.iter().map(String::from).collect()),
    ).collect()
}

/// Turns the records that the reader handed out into rows: the fields of
/// each record that could be read, `None` for each that could not.
fn rows_of(records: Vec<Result<Vec<String>, csv::Error>>) -> (rows: Vec<Option<Vec<String>>>)
    ensures
        rows_view(rows@) == records_view(records@),
{
    let mut rows: Vec<Option<Vec<String>>> = Vec::new();
    for record in it: records
        invariant
            it.seq() == records@,
            rows_view(rows@) == records_view(it.seq().take(it.index())),
    {
        let row = match record {
            Ok(fields) => Some(fields),
            Err(_) => None,
        };
        assert(records_view(it.seq().take(it.index() + 1)) =~= records_view(
            it.seq().take(it.index()),
        ).push(record_view(record)));
        assert(rows_view(rows@.push(row)) =~= rows_view(rows@).push(row_view(row)));
        rows.push(row);
    }
    assert(records@.take(records@.len() as int) =~= records@);
    rows
}

/// The entry that a row gives, if it could be read and has five fields.
pub open spec fn row_entry(row: Option<Seq<Seq<char>>>) -> Option<Entry> {
    match row {
        Some(fields) => record_entry(fields),
        None => None,
    }
}

/// Whether row `i` is the first of `rows` that gives no entry.
pub open spec fn is_first_malformed(rows: Seq<Option<Seq<Seq<char>>>>, i: int) -> bool {
    &&& 0 <= i < rows.len()
    &&& row_entry(rows[i]) is None
    &&& forall|j: int| 0 <= j < i ==> (#[trigger] row_entry(rows[j])) is Some
}

/// The entries of the rows, in order.
pub open spec fn row_entries(rows: Seq<Option<Seq<Seq<char>>>>) -> Seq<Entry> {
    rows.map_values(|row: Option<Seq<Seq<char>>>| row_entry(row).unwrap())
}

/// The test that tells scrolls from graded wares.
pub open spec fn scroll_test() -> spec_fn(Entry) -> bool {
    |entry: Entry| entry.kind is Scroll
}

/// The test that tells graded wares from scrolls.
pub open spec fn graded_test() -> spec_fn(Entry) -> bool {
    |entry: Entry| !(entry.kind is Scroll)
}

/// The two pools as plain values.
pub struct Catalog {
    pub scrolls: Seq<Entry>,
    pub items: Seq<Entry>,
}

/// The pools that a sequence of entries is split into: the scrolls, and the
/// rest, each in the order in which they came.
pub open spec fn partition(all: Seq<Entry>) -> Catalog {
    Catalog { scrolls: all.filter(scroll_test()), items: all.filter(graded_test()) }
}

/// What loading `rows` gives: the two pools, or the first row that gives no
/// entry.
pub open spec fn load_outcome(rows: Seq<Option<Seq<Seq<char>>>>) -> Result<Catalog, LoadError> {
    if exists|i: int| is_first_malformed(rows, i) {
        Err(LoadError::MalformedRow((choose|i: int| is_first_malformed(rows, i)) as usize))
    } else {
        Ok(partition(row_entries(rows)))
    }
}

/// The pools of candidates: scrolls in one, graded wares in the other.
#[derive(Debug)]
pub struct StockPools {
    scrolls: Vec<StockItem>,
    items: Vec<StockItem>,
}

impl View for StockPools {
    type V = Catalog;

    closed spec fn view(&self) -> Catalog {
        Catalog { scrolls: entries(self.scrolls@), items: entries(self.items@) }
    }
}

/// Whether every entry of `pool` is a scroll.
pub open spec fn all_scrolls(pool: Seq<Entry>) -> bool {
    forall|i: int| 0 <= i < pool.len() ==> (#[trigger] pool[i]).kind is Scroll
}

/// Whether no entry of `pool` is a scroll.
pub open spec fn no_scrolls(pool: Seq<Entry>) -> bool {
    forall|i: int| 0 <= i < pool.len() ==> !((#[trigger] pool[i]).kind is Scroll)
}

/// The outcome of a load as plain values.
pub open spec fn outcome_view(outcome: Result<StockPools, LoadError>) -> Result<
    Catalog,
    LoadError,
> {
    match outcome {
        Ok(pools) => Ok(pools@),
        Err(error) => Err(error),
    }
}

impl StockPools {
    #[verifier::type_invariant]
    spec fn partitioned(&self) -> bool {
        all_scrolls(entries(self.scrolls@)) && no_scrolls(entries(self.items@))
    }

    /// Returns two empty pools.
    pub fn new() -> (pools: StockPools)
        ensures
            pools@ == (Catalog { scrolls: Seq::empty(), items: Seq::empty() }),
    {
        let pools = StockPools { scrolls: Vec::new(), items: Vec::new() };
        assert(pools@.scrolls =~= Seq::empty() && pools@.items =~= Seq::empty());
        pools
    }

    /// Returns the pool of scrolls.
    pub fn scrolls(&self) -> (pool: &Vec<StockItem>)
        ensures
            entries(pool@) == self@.scrolls,
            all_scrolls(self@.scrolls),
    {
        proof {
            use_type_invariant(self);
        }
        &self.scrolls
    }

    /// Returns the pool of graded wares.
    pub fn items(&self) -> (pool: &Vec<StockItem>)
        ensures
            entries(pool@) == self@.items,
            no_scrolls(self@.items),
    {
        proof {
            use_type_invariant(self);
        }
        &self.items
    }

    /// Builds the pools from the rows of a catalog, each given by its fields,
    /// or as `None` where it could not be read. Every row must give an
    /// entry; the first that does not is reported, and no pools are built.
    /// An entry with a level goes to the scrolls, any other to the graded
    /// wares, each pool in the order of the rows.
    pub fn from_rows(rows: &Vec<Option<Vec<String>>>) -> (outcome: Result<StockPools, LoadError>)
        ensures
            outcome_view(outcome) == load_outcome(rows_view(rows@)),
            outcome matches Ok(pools) ==> all_scrolls(pools@.scrolls) && no_scrolls(pools@.items),
    {
        let ghost all = rows_view(rows@);
        let mut scrolls: Vec<StockItem> = Vec::new();
        let mut items: Vec<StockItem> = Vec::new();
        let mut i: usize = 0;
        proof {
            reveal(Seq::filter);
        }
        while i < rows.len()
            invariant
                i <= rows.len(),
                all == rows_view(rows@),
                forall|j: int| 0 <= j < i ==> (#[trigger] row_entry(all[j])) is Some,
                entries(scrolls@) == row_entries(all.take(i as int)).filter(scroll_test()),
                entries(items@) == row_entries(all.take(i as int)).filter(graded_test()),
                all_scrolls(entries(scrolls@)),
                no_scrolls(entries(items@)),
            decreases rows.len() - i,
        {
            let parsed = match &rows[i] {
                Some(fields) => StockItem::from_record(fields),
                None => None,
            };
            match parsed {
                None => {
                    assert(is_first_malformed(all, i as int));
                    return Err(LoadError::MalformedRow(i));
                },
                Some(item) => {
                    proof {
                        let before = row_entries(all.take(i as int));
                        assert(row_entries(all.take(i + 1)) =~= before.push(item@));
                        before.lemma_filter_push(item@, scroll_test());
                        before.lemma_filter_push(item@, graded_test());
                    }
                    if item.is_scroll() {
                        assert(entries(scrolls@.push(item)) =~= entries(scrolls@).push(item@));
                        scrolls.push(item);
                    } else {
                        assert(entries(items@.push(item)) =~= entries(items@).push(item@));
                        items.push(item);
                    }
                },
            }
            i += 1;
        }
        assert(all.take(i as int) =~= all);
        Ok(StockPools { scrolls, items })
    }

    /// Reads a catalog from the bytes of a delimited text file: one entry to
    /// a row, no header row.
    pub fn read(data: &[u8]) -> (outcome: Result<StockPools, LoadError>)
        ensures
            outcome_view(outcome) == load_outcome(csv_records(data@)),
            outcome matches Ok(pools) ==> all_scrolls(pools@.scrolls) && no_scrolls(pools@.items),
    {
        let rows = rows_of(read_records(data));
        StockPools::from_rows(&rows)
    }
}

/// Loading succeeds exactly where every row gives an entry, and else reports
/// the first row that gives none.
pub proof fn lemma_load_reports_first_malformed(rows: Seq<Option<Seq<Seq<char>>>>)
    ensures
        load_outcome(rows) is Ok <==> forall|i: int|
            0 <= i < rows.len() ==> (#[trigger] row_entry(rows[i])) is Some,
        forall|i: int|
            0 <= i <= usize::MAX && is_first_malformed(rows, i) ==> load_outcome(rows) == Err::<
                Catalog,
                LoadError,
            >(LoadError::MalformedRow(i as usize)),
{
    if exists|i: int| 0 <= i < rows.len() && (#[trigger] row_entry(rows[i])) is None {
        let i = choose|i: int| 0 <= i < rows.len() && (#[trigger] row_entry(rows[i])) is None;
        lemma_some_row_is_first_malformed(rows, i);
    }
}

/// The pools of a catalog keep scrolls and graded wares apart.
pub proof fn lemma_pools_are_partitioned(rows: Seq<Option<Seq<Seq<char>>>>)
    requires
        load_outcome(rows) is Ok,
    ensures
        all_scrolls(load_outcome(rows).unwrap().scrolls),
        no_scrolls(load_outcome(rows).unwrap().items),
{
    let all = row_entries(rows);
    assert forall|i: int| 0 <= i < all.filter(scroll_test()).len() implies (#[trigger] all.filter(
        scroll_test(),
    )[i]).kind is Scroll by {
        all.lemma_filter_pred(scroll_test(), i);
    }
    assert forall|i: int| 0 <= i < all.filter(graded_test()).len() implies !((#[trigger] all.filter(
        graded_test(),
    )[i]).kind is Scroll) by {
        all.lemma_filter_pred(graded_test(), i);
    }
}

/// Whether a row that gives an entry gives a scroll: its level field is not
/// blank.
pub open spec fn has_level(row: Option<Seq<Seq<char>>>) -> bool {
    row matches Some(fields) && fields.len() == 5 && trimmed(fields[4]).len() > 0
}

/// Every row of a catalog that was loaded goes to exactly one pool: the
/// entry of a row with a level is among the scrolls and not among the graded
/// wares, and the entry of a row without a level is among the graded wares
/// and not among the scrolls.
pub proof fn lemma_each_row_in_one_pool(rows: Seq<Option<Seq<Seq<char>>>>, i: int)
    requires
        load_outcome(rows) is Ok,
        0 <= i < rows.len(),
    ensures
        row_entry(rows[i]) is Some,
        has_level(rows[i]) ==> {
            &&& load_outcome(rows).unwrap().scrolls.contains(row_entry(rows[i]).unwrap())
            &&& !load_outcome(rows).unwrap().items.contains(row_entry(rows[i]).unwrap())
        },
        !has_level(rows[i]) ==> {
            &&& load_outcome(rows).unwrap().items.contains(row_entry(rows[i]).unwrap())
            &&& !load_outcome(rows).unwrap().scrolls.contains(row_entry(rows[i]).unwrap())
        },
{
    let all = row_entries(rows);
    let entry = row_entry(rows[i]).unwrap();
    if row_entry(rows[i]) is None {
        lemma_some_row_is_first_malformed(rows, i);
    }
    lemma_pools_are_partitioned(rows);
    if has_level(rows[i]) {
        all.lemma_filter_contains(scroll_test(), i);
    } else {
        all.lemma_filter_contains(graded_test(), i);
    }
}

/// Where some row gives no entry, some row is the first to give none.
proof fn lemma_some_row_is_first_malformed(rows: Seq<Option<Seq<Seq<char>>>>, i: int)
    requires
        0 <= i < rows.len(),
        row_entry(rows[i]) is None,
    ensures
        exists|k: int| is_first_malformed(rows, k),
    decreases i,
{
    if exists|j: int| 0 <= j < i && (#[trigger] row_entry(rows[j])) is None {
        let j = choose|j: int| 0 <= j < i && (#[trigger] row_entry(rows[j])) is None;
        lemma_some_row_is_first_malformed(rows, j);
    } else {
        assert(is_first_malformed(rows, i));
    }
}

} // verus!
