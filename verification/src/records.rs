//! The comma-separated record layer under the grid codec. Records are written
//! and read by the `csv` crate; this module states what the codec relies on.

use vstd::prelude::*;
use crate::decimal::{all_digits, decimal, is_digit};
use crate::text::join;

verus! {

/// The decimal numerals of the cells of a row.
pub open spec fn cell_texts(row: Seq<u32>) -> Seq<Seq<char>> {
    row.map_values(|cell: u32| decimal(cell as nat))
}

/// A row as one record without its terminator: the numerals of its cells with
/// a comma between neighbours. A row without cells is a pair of double quotes.
pub open spec fn row_text(row: Seq<u32>) -> Seq<char> {
    if row.len() == 0 {
        seq!['"', '"']
    } else {
        join(cell_texts(row), seq![','])
    }
}

/// The records that the `csv` reader finds in a text, each as the list of its
/// fields, or nothing where the reader reports an error.
pub uninterp spec fn csv_records(text: Seq<char>) -> Option<Seq<Seq<Seq<char>>>>;

/// A table whose records all have the same, non-zero number of fields, each
/// field a non-empty run of digits.
pub open spec fn plain_table(table: Seq<Seq<Seq<char>>>) -> bool {
    &&& forall|i: int|
        0 <= i < table.len() ==> (#[trigger] table[i]).len() == table[0].len() && table[i].len()
            > 0
    &&& forall|i: int, j: int|
        0 <= i < table.len() && 0 <= j < table[i].len() ==> (#[trigger] table[i][j]).len() > 0
            && all_digits(table[i][j])
}

/// A table as text: commas between the fields of a record, a line feed
/// between records, nothing after the last field.
pub open spec fn table_text(table: Seq<Seq<Seq<char>>>) -> Seq<char> {
    join(table.map_values(|record: Seq<Seq<char>>| join(record, seq![','])), seq!['\n'])
}

/// Whether a text spells out a plain table.
pub open spec fn spells(text: Seq<char>, table: Seq<Seq<Seq<char>>>) -> bool {
    plain_table(table) && table_text(table) == text
}

/// The records of a text: the plain table that the text spells out, if it
/// spells one, and else whatever the `csv` reader finds in it.
pub open spec fn records_of(text: Seq<char>) -> Option<Seq<Seq<Seq<char>>>> {
    if exists|table: Seq<Seq<Seq<char>>>| spells(text, table) {
        Some(choose|table: Seq<Seq<Seq<char>>>| spells(text, table))
    } else {
        csv_records(text)
    }
}

/// Writes one row with `csv::Writer::serialize`, on a fresh writer into a
/// byte vector, without headers, whose record terminator is a comma.
///
/// Not proved: that the row comes out as the decimal numerals of its cells
/// with commas between them (an empty row as two double quotes), followed by
/// the terminating comma; and that the writer does not fail. It reports
/// errors of the sink, of values that have no field form and of records of
/// unequal length, and a byte vector, a list of integers and a first record
/// give it none of these.
#[verifier::external_body]
pub(crate) fn write_record(row: &Vec<u32>) -> (r: Option<String>)
    ensures
        r is Some,
        r->0@ == row_text(row@).push(','),
{
    let mut writer = csv::WriterBuilder::new()
        .has_headers(false)
        .terminator(csv::Terminator::Any(b','))
        .from_writer(Vec::new());
    writer.serialize(row).ok()?;
    String::from_utf8(writer.into_inner().ok()?).ok()
}

/// Reads every record of a text with `csv::Reader::records`, on a reader
/// without headers and otherwise default settings.
///
/// Not proved: that the outcome is a function of the text alone, named
/// `csv_records`; and that a text which spells out a plain table (runs of
/// digits, commas between fields, single line feeds between records) is read
/// as that table, the empty text as no record at all. `None` stands for any
/// error of the reader.
#[verifier::external_body]
fn read_all(text: &str) -> (r: Option<Vec<Vec<String>>>)
    ensures
        match r {
            Some(records) => csv_records(text@) == Some(records.deep_view()),
            None => csv_records(text@) is None,
        },
        forall|table: Seq<Seq<Seq<char>>>|
            #[trigger] spells(text@, table) ==> r is Some && r->0.deep_view() == table,
{
    let mut reader = csv::ReaderBuilder::new().has_headers(false).from_reader(text.as_bytes());
    let mut records: Vec<Vec<String>> = Vec::new();
    for record in reader.records() {
        records.push(record.ok()?.iter().map(|field| field.to_string()).collect());
    }
    Some(records)
}

/// The records of a text.
pub fn read_records(text: &str) -> (r: Option<Vec<Vec<String>>>)
    ensures
        match r {
            Some(records) => records_of(text@) == Some(records.deep_view()),
            None => records_of(text@) is None,
        },
{
    read_all(text)
}

/// Non-empty runs of digits joined by commas hold only digits and commas,
/// and end in a digit.
pub proof fn lemma_record_shape(fields: Seq<Seq<char>>)
    requires
        fields.len() > 0,
        forall|j: int|
            0 <= j < fields.len() ==> (#[trigger] fields[j]).len() > 0 && all_digits(fields[j]),
    ensures
        join(fields, seq![',']).len() > 0,
        is_digit(join(fields, seq![',']).last()),
        forall|i: int|
            0 <= i < join(fields, seq![',']).len() ==> is_digit(join(fields, seq![','])[i]) || join(
                fields,
                seq![','],
            )[i] == ',',
    decreases fields.len(),
{
    if fields.len() >= 2 {
        lemma_record_shape(fields.drop_last());
    }
}

/// Non-empty parts that do not hold the separator can be told from their
/// joined text: two such lists with the same text are the same list.
pub proof fn lemma_join_unique(a: Seq<Seq<char>>, b: Seq<Seq<char>>, sep: char)
    requires
        forall|i: int|
            0 <= i < a.len() ==> (#[trigger] a[i]).len() > 0 && (forall|j: int|
                0 <= j < a[i].len() ==> a[i][j] != sep),
        forall|i: int|
            0 <= i < b.len() ==> (#[trigger] b[i]).len() > 0 && (forall|j: int|
                0 <= j < b[i].len() ==> b[i][j] != sep),
        join(a, seq![sep]) == join(b, seq![sep]),
    ensures
        a == b,
    decreases a.len(),
{
    let text = join(a, seq![sep]);
    if a.len() <= 1 || b.len() <= 1 {
        // A list of two or more parts has the separator in its text, a list
        // of one part does not, and only the empty list has the empty text.
        if a.len() >= 2 {
            let front = join(a.drop_last(), seq![sep]);
            assert(text[front.len() as int] == sep);
        } else if b.len() >= 2 {
            let front = join(b.drop_last(), seq![sep]);
            assert(text[front.len() as int] == sep);
        }
    } else {
        // The last parts are what follows the last separator of the text.
        let front_a = join(a.drop_last(), seq![sep]);
        let front_b = join(b.drop_last(), seq![sep]);
        let last_a = a.last();
        let last_b = b.last();
        assert(text.len() == front_b.len() + 1 + last_b.len());
        if last_a.len() < last_b.len() {
            let p = front_a.len() as int;
            assert(text[p] == last_b[p - front_b.len() - 1]);
        } else if last_b.len() < last_a.len() {
            let p = front_b.len() as int;
            assert(text[p] == last_a[p - front_a.len() - 1]);
        }
        assert(front_a =~= text.take(front_a.len() as int));
        assert(front_b =~= text.take(front_b.len() as int));
        assert(last_a =~= text.skip(front_a.len() as int + 1));
        assert(last_b =~= text.skip(front_b.len() as int + 1));
        lemma_join_unique(a.drop_last(), b.drop_last(), sep);
        assert(b =~= b.drop_last().push(last_b));
    }
}

/// A text spells out at most one plain table.
pub proof fn lemma_plain_table_unique(a: Seq<Seq<Seq<char>>>, b: Seq<Seq<Seq<char>>>)
    requires
        plain_table(a),
        plain_table(b),
        table_text(a) == table_text(b),
    ensures
        a == b,
{
    let lines_a = a.map_values(|record: Seq<Seq<char>>| join(record, seq![',']));
    let lines_b = b.map_values(|record: Seq<Seq<char>>| join(record, seq![',']));
    assert forall|i: int| 0 <= i < lines_a.len() implies (#[trigger] lines_a[i]).len() > 0 && (
    forall|j: int| 0 <= j < lines_a[i].len() ==> lines_a[i][j] != '\n') by {
        lemma_record_shape(a[i]);
    }
    assert forall|i: int| 0 <= i < lines_b.len() implies (#[trigger] lines_b[i]).len() > 0 && (
    forall|j: int| 0 <= j < lines_b[i].len() ==> lines_b[i][j] != '\n') by {
        lemma_record_shape(b[i]);
    }
    lemma_join_unique(lines_a, lines_b, '\n');
    assert forall|i: int| 0 <= i < a.len() implies a[i] == b[i] by {
        assert(lines_a[i] == lines_b[i]);
        assert forall|k: int| 0 <= k < a[i].len() implies (#[trigger] a[i][k]).len() > 0 && (
        forall|j: int| 0 <= j < a[i][k].len() ==> a[i][k][j] != ',') by {
            assert forall|j: int| 0 <= j < a[i][k].len() implies a[i][k][j] != ',' by {}
        }
        assert forall|k: int| 0 <= k < b[i].len() implies (#[trigger] b[i][k]).len() > 0 && (
        forall|j: int| 0 <= j < b[i][k].len() ==> b[i][k][j] != ',') by {
            assert forall|j: int| 0 <= j < b[i][k].len() implies b[i][k][j] != ',' by {}
        }
        lemma_join_unique(a[i], b[i], ',');
    }
}

/// The records of the text of a plain table are that table.
pub proof fn lemma_records_of_plain(table: Seq<Seq<Seq<char>>>)
    requires
        plain_table(table),
    ensures
        records_of(table_text(table)) == Some(table),
{
    let text = table_text(table);
    assert(spells(text, table));
    let found = choose|found: Seq<Seq<Seq<char>>>| spells(text, found);
    lemma_plain_table_unique(found, table);
}

} // verus!
