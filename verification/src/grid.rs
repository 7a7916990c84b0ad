//! The text codec of a tile grid: rows of cells to text and back.

use vstd::prelude::*;
use crate::decimal::{
    all_digits, is_digit, lemma_decimal_number, lemma_parse_decimal, parse_spec, parse_u32,
};
use crate::records::{
    cell_texts, lemma_record_shape, lemma_records_of_plain, plain_table, read_records, records_of,
    row_text, table_text, write_record,
};
use crate::text::{chars_of, join};

verus! {

/// Why a grid could not be written or read.
#[derive(Debug, Clone, Copy, PartialEq, Eq, Structural)]
pub enum GridError {
    /// The record writer refused a row. The contracts of this library rest
    /// on a writer that refuses no row of numbers; a caller who sees this
    /// error has met a writer that does.
    Write,
    /// The record reader refused a chunk of the text.
    Record,
    /// A field is not an unsigned 32-bit number.
    Cell,
}

/// The text of a grid: its rows as records, a line feed between neighbours,
/// and nothing after the last cell.
pub open spec fn encode_text(grid: Seq<Seq<u32>>) -> Seq<char> {
    join(grid.map_values(|row: Seq<u32>| row_text(row)), seq!['\n'])
}

/// A record as written without its last character, the terminator.
pub open spec fn unterminated(record: Seq<char>) -> Seq<char> {
    if record.len() > 0 {
        record.drop_last()
    } else {
        record
    }
}

/// Written records as one text: each loses its terminator, and a line feed
/// stands between neighbours.
pub open spec fn framed(records: Seq<Seq<char>>) -> Seq<char> {
    join(records.map_values(|record: Seq<char>| unterminated(record)), seq!['\n'])
}

/// Whether a comma directly followed by a line feed starts at a position.
pub open spec fn at_row_break(text: Seq<char>, i: int) -> bool {
    0 <= i && i + 1 < text.len() && text[i] == ',' && text[i + 1] == '\n'
}

/// A chunk list with some characters put in front of its first chunk.
pub open spec fn glue(head: Seq<char>, chunks: Seq<Seq<char>>) -> Seq<Seq<char>> {
    seq![head + chunks[0]] + chunks.skip(1)
}

/// The chunks of a text between its row breaks, from left to right. A text
/// with n breaks has n + 1 chunks, some of which may be empty.
pub open spec fn split_rows_spec(text: Seq<char>) -> Seq<Seq<char>>
    decreases text.len(),
{
    if text.len() == 0 {
        seq![Seq::empty()]
    } else if at_row_break(text, 0) {
        seq![Seq::empty()] + split_rows_spec(text.skip(2))
    } else {
        glue(seq![text[0]], split_rows_spec(text.skip(1)))
    }
}

/// The numbers of a record's fields, if every field is a number.
pub open spec fn parse_row(fields: Seq<Seq<char>>) -> Option<Seq<u32>> {
    if forall|j: int| 0 <= j < fields.len() ==> parse_spec(#[trigger] fields[j]) is Some {
        Some(fields.map_values(|field: Seq<char>| parse_spec(field)->0))
    } else {
        None
    }
}

/// The rows of a table of fields, if every field is a number.
pub open spec fn parse_table(records: Seq<Seq<Seq<char>>>) -> Option<Seq<Seq<u32>>> {
    if forall|i: int| 0 <= i < records.len() ==> parse_row(#[trigger] records[i]) is Some {
        Some(records.map_values(|fields: Seq<Seq<char>>| parse_row(fields)->0))
    } else {
        None
    }
}

/// The rows that one chunk holds.
pub open spec fn decode_chunk(chunk: Seq<char>) -> Result<Seq<Seq<u32>>, GridError> {
    match records_of(chunk) {
        None => Err(GridError::Record),
        Some(records) => match parse_table(records) {
            None => Err(GridError::Cell),
            Some(rows) => Ok(rows),
        },
    }
}

/// The rows of all chunks in order, or the error of the first chunk that has
/// one.
pub open spec fn decode_chunks(chunks: Seq<Seq<char>>) -> Result<Seq<Seq<u32>>, GridError>
    decreases chunks.len(),
{
    if chunks.len() == 0 {
        Ok(Seq::empty())
    } else {
        match decode_chunks(chunks.drop_last()) {
            Err(e) => Err(e),
            Ok(rows) => match decode_chunk(chunks.last()) {
                Err(e) => Err(e),
                Ok(more) => Ok(rows + more),
            },
        }
    }
}

/// The grid that a text holds.
pub open spec fn decode_spec(text: Seq<char>) -> Result<Seq<Seq<u32>>, GridError> {
    decode_chunks(split_rows_spec(text))
}

/// Joins written records into the text of a grid: the terminator of each
/// record goes, and every record but the last is followed by a line feed.
pub fn frame_rows(records: &Vec<String>) -> (text: String)
    ensures
        text@ == framed(records.deep_view()),
{
    let mut text = String::new();
    let n = records.len();
    let ghost parts = records.deep_view().map_values(|record: Seq<char>| unterminated(record));
    for i in 0..n
        invariant
            n == records.len(),
            parts == records.deep_view().map_values(|record: Seq<char>| unterminated(record)),
            i == 0 ==> text@ == Seq::<char>::empty(),
            0 < i < n ==> text@ == join(parts.take(i as int), seq!['\n']) + seq!['\n'],
            0 < i && i == n ==> text@ == join(parts.take(i as int), seq!['\n']),
    {
        let mut row = records[i].clone();
        row.pop();
        if i != n - 1 {
            row.push('\n');
        }
        text.append(row.as_str());
        proof {
            let done = parts.take(i + 1);
            assert(done.drop_last() == parts.take(i as int));
            if i > 0 {
                assert(join(done, seq!['\n']) == join(parts.take(i as int), seq!['\n']) + seq![
                    '\n',
                ] + parts[i as int]);
            }
        }
    }
    proof {
        assert(parts.take(n as int) == parts);
    }
    text
}

/// Renders a grid as text.
///
/// Each row is written as one record, and the records are framed by
/// `frame_rows`.
pub fn encode(grid: &Vec<Vec<u32>>) -> (r: Result<String, GridError>)
    ensures
        r is Ok,
        r->Ok_0@ == encode_text(grid.deep_view()),
{
    let mut records: Vec<String> = Vec::new();
    let n = grid.len();
    for i in 0..n
        invariant
            n == grid.len(),
            records.len() == i,
            forall|k: int| 0 <= k < i ==> (#[trigger] records[k])@ == row_text(grid[k]@).push(','),
    {
        match write_record(&grid[i]) {
            None => {
                return Err(GridError::Write);
            },
            Some(record) => {
                records.push(record);
            },
        }
    }
    let text = frame_rows(&records);
    proof {
        let written = records.deep_view().map_values(|record: Seq<char>| unterminated(record));
        let rows = grid.deep_view().map_values(|row: Seq<u32>| row_text(row));
        assert forall|k: int| 0 <= k < written.len() implies written[k] == rows[k] by {
            assert(grid.deep_view()[k] == grid[k]@);
        }
        assert(written == rows);
    }
    Ok(text)
}

/// Splits a text at its row breaks.
pub fn split_rows(text: &str) -> (chunks: Vec<String>)
    ensures
        chunks.deep_view() == split_rows_spec(text@),
{
    let chars = chars_of(text);
    let n = chars.len();
    let mut chunks: Vec<String> = Vec::new();
    let mut current = String::new();
    let mut i: usize = 0;
    proof {
        lemma_split_rows_len(text@);
        assert(text@.skip(0) == text@);
    }
    while i < n
        invariant
            i <= n,
            n == chars@.len(),
            chars@ == text@,
            split_rows_spec(text@) == chunks.deep_view() + glue(
                current@,
                split_rows_spec(text@.skip(i as int)),
            ),
        decreases n - i,
    {
        let ghost rest = text@.skip(i as int);
        if chars[i] == ',' && i + 1 < n && chars[i + 1] == '\n' {
            proof {
                assert(rest.skip(2) == text@.skip(i + 2));
                lemma_split_rows_len(text@.skip(i + 2));
            }
            chunks.push(current);
            current = String::new();
            i += 2;
        } else {
            proof {
                assert(rest.skip(1) == text@.skip(i + 1));
                lemma_split_rows_len(text@.skip(i + 1));
                let next = split_rows_spec(text@.skip(i + 1));
                assert(current@ + (seq![rest[0]] + next[0]) == current@.push(rest[0]) + next[0]);
                assert(glue(current@, glue(seq![rest[0]], next)) == glue(
                    current@.push(rest[0]),
                    next,
                ));
            }
            current.push(chars[i]);
            i += 1;
        }
    }
    chunks.push(current);
    chunks
}

/// Reads every field of a table of fields as a number.
pub fn parse_records(records: &Vec<Vec<String>>) -> (r: Result<Vec<Vec<u32>>, GridError>)
    ensures
        match parse_table(records.deep_view()) {
            Some(rows) => r is Ok && r->Ok_0.deep_view() == rows,
            None => r == Err::<Vec<Vec<u32>>, GridError>(GridError::Cell),
        },
{
    let mut rows: Vec<Vec<u32>> = Vec::new();
    let ghost table = records.deep_view();
    for i in 0..records.len()
        invariant
            table == records.deep_view(),
            rows.len() == i,
            forall|k: int| 0 <= k < i ==> parse_row(#[trigger] table[k]) == Some(rows[k]@),
    {
        let record = &records[i];
        let ghost fields = record.deep_view();
        let mut row: Vec<u32> = Vec::new();
        for j in 0..record.len()
            invariant
                fields == record.deep_view(),
                fields == table[i as int],
                table == records.deep_view(),
                0 <= i < table.len(),
                row.len() == j,
                forall|k: int| 0 <= k < j ==> parse_spec(#[trigger] fields[k]) == Some(row[k]),
        {
            assert(fields[j as int] == record[j as int]@);
            match parse_u32(record[j].as_str()) {
                None => {
                    return Err(GridError::Cell);
                },
                Some(cell) => {
                    row.push(cell);
                },
            }
        }
        rows.push(row);
    }
    proof {
        let parsed = parse_table(table)->0;
        assert forall|k: int| 0 <= k < parsed.len() implies rows.deep_view()[k] == parsed[k] by {}
    }
    Ok(rows)
}

/// Reads the text of a grid.
///
/// The text is split at its row breaks, the records of each chunk are read,
/// and every field is read as a number.
pub fn decode(text: &str) -> (r: Result<Vec<Vec<u32>>, GridError>)
    ensures
        match decode_spec(text@) {
            Ok(rows) => r is Ok && r->Ok_0.deep_view() == rows,
            Err(e) => r == Err::<Vec<Vec<u32>>, GridError>(e),
        },
{
    let chunks = split_rows(text);
    let ghost parts = chunks.deep_view();
    let mut rows: Vec<Vec<u32>> = Vec::new();
    proof {
        lemma_split_rows_len(text@);
        assert(rows.deep_view() == Seq::<Seq<u32>>::empty());
    }
    for i in 0..chunks.len()
        invariant
            parts == chunks.deep_view(),
            parts == split_rows_spec(text@),
            parts.len() > 0,
            decode_chunks(parts.take(i as int)) == Ok::<Seq<Seq<u32>>, GridError>(
                rows.deep_view(),
            ),
    {
        let ghost before = rows.deep_view();
        proof {
            let done = parts.take(i + 1);
            assert(done.drop_last() == parts.take(i as int));
        }
        match read_records(chunks[i].as_str()) {
            None => {
                proof {
                    assert(decode_chunks(parts.take(i + 1)) == Err::<Seq<Seq<u32>>, GridError>(
                        GridError::Record,
                    ));
                    lemma_decode_chunks_error(parts, i + 1);
                }
                return Err(GridError::Record);
            },
            Some(records) => {
                match parse_records(&records) {
                    Err(e) => {
                        proof {
                            assert(decode_chunks(parts.take(i + 1)) == Err::<
                                Seq<Seq<u32>>,
                                GridError,
                            >(GridError::Cell));
                            lemma_decode_chunks_error(parts, i + 1);
                        }
                        return Err(e);
                    },
                    Ok(mut more) => {
                        let ghost added = more.deep_view();
                        rows.append(&mut more);
                        proof {
                            assert(rows.deep_view() == before + added);
                        }
                    },
                }
            },
        }
    }
    proof {
        assert(parts.take(chunks.len() as int) == parts);
    }
    Ok(rows)
}

/// Whether all rows of a grid are as long as the first, and not empty.
pub open spec fn rectangular(grid: Seq<Seq<u32>>) -> bool {
    forall|i: int|
        0 <= i < grid.len() ==> (#[trigger] grid[i]).len() == grid[0].len() && grid[i].len() > 0
}

/// Every text has at least one chunk.
pub proof fn lemma_split_rows_len(text: Seq<char>)
    ensures
        split_rows_spec(text).len() > 0,
    decreases text.len(),
{
    if text.len() > 0 && !at_row_break(text, 0) {
        lemma_split_rows_len(text.skip(1));
    }
}

/// Once a prefix of the chunks has an error, the whole list has that error.
proof fn lemma_decode_chunks_error(chunks: Seq<Seq<char>>, k: int)
    requires
        0 <= k <= chunks.len(),
        decode_chunks(chunks.take(k)) is Err,
    ensures
        decode_chunks(chunks) == decode_chunks(chunks.take(k)),
    decreases chunks.len(),
{
    if k == chunks.len() {
        assert(chunks.take(k) == chunks);
    } else {
        assert(chunks.drop_last().take(k) == chunks.take(k));
        lemma_decode_chunks_error(chunks.drop_last(), k);
    }
}

/// A text without a row break is its own single chunk.
pub proof fn lemma_split_unbroken(text: Seq<char>)
    requires
        forall|i: int| !at_row_break(text, i),
    ensures
        split_rows_spec(text) == seq![text],
    decreases text.len(),
{
    if text.len() == 0 {
        assert(text == Seq::<char>::empty());
    } else {
        let rest = text.skip(1);
        assert forall|i: int| !at_row_break(rest, i) by {
            if at_row_break(rest, i) {
                assert(at_row_break(text, i + 1));
            }
        }
        lemma_split_unbroken(rest);
        assert(seq![text[0]] + rest == text);
    }
}

/// Lines that hold no line feed and end in something other than a comma,
/// joined by line feeds, hold no row break.
proof fn lemma_lines_unbroken(lines: Seq<Seq<char>>)
    requires
        forall|k: int|
            0 <= k < lines.len() ==> (#[trigger] lines[k]).len() > 0 && lines[k].last() != ','
                && (forall|j: int| 0 <= j < lines[k].len() ==> lines[k][j] != '\n'),
    ensures
        forall|i: int| !at_row_break(join(lines, seq!['\n']), i),
        lines.len() > 0 ==> join(lines, seq!['\n']).len() > 0 && join(lines, seq!['\n']).last()
            != ',' && join(lines, seq!['\n']).last() != '\n',
    decreases lines.len(),
{
    let text = join(lines, seq!['\n']);
    if lines.len() >= 2 {
        let front = join(lines.drop_last(), seq!['\n']);
        lemma_lines_unbroken(lines.drop_last());
        assert forall|i: int| !at_row_break(text, i) by {
            if at_row_break(text, i) && i + 1 < front.len() {
                assert(at_row_break(front, i));
            }
        }
    }
}

/// The text of a grid holds no row break, so that a reader who splits it at
/// row breaks gets it back in one piece; and the text of a grid with at least
/// one row ends neither in a comma nor in a line feed.
pub proof fn lemma_encode_text_ends_clean(grid: Seq<Seq<u32>>)
    ensures
        forall|i: int| !at_row_break(encode_text(grid), i),
        split_rows_spec(encode_text(grid)) == seq![encode_text(grid)],
        grid.len() > 0 ==> encode_text(grid).len() > 0 && encode_text(grid).last() != ','
            && encode_text(grid).last() != '\n',
{
    let lines = grid.map_values(|row: Seq<u32>| row_text(row));
    assert forall|k: int| 0 <= k < lines.len() implies (#[trigger] lines[k]).len() > 0
        && lines[k].last() != ',' && (forall|j: int|
        0 <= j < lines[k].len() ==> lines[k][j] != '\n') by {
        let row = grid[k];
        if row.len() > 0 {
            let fields = cell_texts(row);
            assert forall|j: int| 0 <= j < fields.len() implies (#[trigger] fields[j]).len() > 0
                && all_digits(fields[j]) by {
                lemma_decimal_number(row[j] as nat);
            }
            lemma_record_shape(fields);
            assert forall|j: int| 0 <= j < lines[k].len() implies lines[k][j] != '\n' by {}
        }
    }
    lemma_lines_unbroken(lines);
    lemma_split_unbroken(encode_text(grid));
}

/// Reading the text of a grid gives the grid back, for every grid whose rows
/// all have the same number of cells and at least one.
pub proof fn lemma_decode_encode(grid: Seq<Seq<u32>>)
    requires
        rectangular(grid),
    ensures
        decode_spec(encode_text(grid)) == Ok::<Seq<Seq<u32>>, GridError>(grid),
{
    let text = encode_text(grid);
    let table = grid.map_values(|row: Seq<u32>| cell_texts(row));
    let lines = grid.map_values(|row: Seq<u32>| row_text(row));
    assert forall|i: int, j: int| 0 <= i < table.len() && 0 <= j < table[i].len() implies (
    #[trigger] table[i][j]).len() > 0 && all_digits(table[i][j]) && parse_spec(table[i][j])
        == Some(grid[i][j]) by {
        lemma_decimal_number(grid[i][j] as nat);
        lemma_parse_decimal(grid[i][j]);
    }
    assert(table.map_values(|record: Seq<Seq<char>>| join(record, seq![','])) == lines);
    lemma_records_of_plain(table);
    lemma_encode_text_ends_clean(grid);
    let chunks = split_rows_spec(text);
    assert forall|i: int| 0 <= i < table.len() implies parse_row(#[trigger] table[i]) == Some(
        grid[i],
    ) by {}
    assert(parse_table(table) == Some(grid));
    assert(decode_chunks(chunks.drop_last()) == Ok::<Seq<Seq<u32>>, GridError>(Seq::empty()));
}

} // verus!
