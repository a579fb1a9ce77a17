//! CSV export: each layer becomes one document with a record for every row
//! and a field for every cell.
//!
//! The encoding itself is the work of the `csv` crate. This module decides
//! what is handed to it, in what order, and proves that the writer accepts
//! every record of a well-formed grid.

use vstd::prelude::*;
use crate::brush::Layer;
use crate::grid::LevelEditor;

verus! {

/// The error type of the `csv` crate.
#[verifier::external_type_specification]
#[verifier::external_body]
pub struct ExCsvError(csv::Error);

/// A `csv::Writer` in its default configuration that writes into memory.
///
/// Values of this type are made by `new_writer` and handed on by
/// `write_record` alone, so every one of them stands between two records.
/// (`csv::Writer<W>` is bounded by `std::io::Write`, which keeps it from
/// being declared to the verifier as it is.)
#[verifier::external_body]
pub struct RecordWriter {
    inner: csv::Writer<Vec<u8>>,
}

/// The records that a writer has accepted so far, oldest first, each as the
/// sequence of its fields.
pub uninterp spec fn written_records(writer: RecordWriter) -> Seq<Seq<Seq<char>>>;

/// The bytes that a `csv::Writer` in its default configuration produces for a
/// sequence of records that it accepted.
pub uninterp spec fn csv_text(records: Seq<Seq<Seq<char>>>) -> Seq<u8>;

/// Whether a writer that holds `records` accepts `record`: the first record
/// fixes the number of fields of all that follow.
pub open spec fn writer_accepts(records: Seq<Seq<Seq<char>>>, record: Seq<Seq<char>>) -> bool {
    records.len() == 0 || records[0].len() == record.len()
}

/// The records that one layer is exported as: a record for each row, top to
/// bottom, with a field for each cell, left to right, that holds the cell's
/// character and nothing else.
pub open spec fn layer_records(rows: Seq<Seq<char>>) -> Seq<Seq<Seq<char>>> {
    Seq::new(rows.len(), |r: int| row_record(rows[r]))
}

/// The record that one row is exported as.
pub open spec fn row_record(cells: Seq<char>) -> Seq<Seq<char>> {
    Seq::new(cells.len(), |c: int| seq![cells[c]])
}

/// The cells that a sequence of records stands for: the first character of
/// each field.
pub open spec fn cells_of_records(records: Seq<Seq<Seq<char>>>) -> Seq<Seq<char>> {
    Seq::new(records.len(), |r: int| Seq::new(records[r].len(), |c: int| records[r][c][0]))
}

/// A layer of `rows` by `cols` cells is exported as exactly `rows` records
/// of exactly `cols` fields, each field one character long, and the records
/// give back the layer, cell for cell.
pub proof fn lemma_layer_records_reproduce_layer(layer: Seq<Seq<char>>, rows: nat, cols: nat)
    requires
        layer.len() == rows,
        forall|r: int| 0 <= r < rows ==> (#[trigger] layer[r]).len() == cols,
    ensures
        layer_records(layer).len() == rows,
        forall|r: int| 0 <= r < rows ==> (#[trigger] layer_records(layer)[r]).len() == cols,
        forall|r: int, c: int|
            0 <= r < rows && 0 <= c < cols ==> (#[trigger] layer_records(layer)[r][c]) == seq![
                layer[r][c],
            ],
        cells_of_records(layer_records(layer)) == layer,
{
    let back = cells_of_records(layer_records(layer));
    assert forall|r: int| 0 <= r < rows implies #[trigger] back[r] == layer[r] by {
        assert(layer[r].len() == cols);
        assert(back[r] =~= layer[r]);
    }
    assert(back =~= layer);
}

/// Why an export did not succeed.
#[derive(Clone, Copy, Debug, PartialEq, Eq, Structural)]
pub enum ExportError {
    /// The CSV writer refused a record.
    Encode,
    /// A file could not be created or written.
    Io,
}

/// The name of the file that holds the textures layer.
pub const TEXTURES_FILE: &'static str = "textures.csv";

/// The name of the file that holds the entities layer.
pub const ENTITIES_FILE: &'static str = "entities.csv";

/// The contents of the two files of one export.
pub struct ExportedFiles {
    pub textures: Vec<u8>,
    pub entities: Vec<u8>,
}

/// `csv::Writer::from_writer` on an empty `Vec<u8>`: a writer with the
/// default configuration that has accepted no record yet.
#[verifier::external_body]
fn new_writer() -> (writer: RecordWriter)
    ensures
        written_records(writer) == Seq::<Seq<Seq<char>>>::empty(),
{
    RecordWriter { inner: csv::Writer::from_writer(Vec::new()) }
}

/// `csv::Writer::write_record`. With the default configuration the writer
/// refuses a record only if its number of fields differs from that of the
/// first record; writing into a `Vec<u8>` does not fail. An accepted record
/// joins those the writer holds; a writer that refused one is dropped.
#[verifier::external_body]
fn write_record(writer: RecordWriter, record: &Vec<String>) -> (result: Result<
    RecordWriter,
    csv::Error,
>)
    ensures
        result is Ok <==> writer_accepts(written_records(writer), record.deep_view()),
        result matches Ok(next) ==> written_records(next) == written_records(writer).push(
            record.deep_view(),
        ),
{
    let mut writer = writer;
    writer.inner.write_record(record)?;
    Ok(writer)
}

/// `csv::Writer::into_inner`: flushes the writer and hands out the `Vec<u8>`
/// it wrote into, which then holds the CSV text of the accepted records.
/// Flushing into a `Vec<u8>` does not fail.
#[verifier::external_body]
fn into_bytes(writer: RecordWriter) -> (result: Result<Vec<u8>, csv::Error>)
    ensures
        result is Ok,
        result matches Ok(bytes) ==> bytes@ == csv_text(written_records(writer)),
{
    writer.inner.into_inner().map_err(|e| csv::Error::from(e.into_error()))
}

/// `char::to_string`: the string that holds `c` and nothing else.
#[verifier::external_body]
fn char_to_string(c: char) -> (s: String)
    ensures
        s@ == seq![c],
{
    c.to_string()
}

impl LevelEditor {
    /// The record for row `row` of `layer`: one single-character field for
    /// each cell, left to right.
    pub fn record_of_row(&self, layer: Layer, row: usize) -> (record: Vec<String>)
        requires
            self.wf(),
            row < self.spec_rows(),
        ensures
            record.deep_view() == row_record(self@.layer(layer)[row as int]),
    {
        let cols = self.cols();
        let mut record: Vec<String> = Vec::new();
        let mut col: usize = 0;
        while col < cols
            invariant
                self.wf(),
                row < self.spec_rows(),
                cols == self.spec_cols(),
                col <= cols,
                record@.len() == col,
                forall|c: int|
                    0 <= c < col ==> (#[trigger] record@[c])@ == seq![
                        self@.cell(layer, row as int, c),
                    ],
            decreases cols - col,
        {
            let field = char_to_string(self.get(layer, row, col));
            record.push(field);
            col += 1;
        }
        assert(record.deep_view() =~= row_record(self@.layer(layer)[row as int]));
        record
    }

    /// The CSV text of one layer. The writer accepts every record, because
    /// all rows of a grid have the same number of cells.
    pub fn layer_to_csv(&self, layer: Layer) -> (result: Result<Vec<u8>, ExportError>)
        requires
            self.wf(),
        ensures
            result is Ok,
            result matches Ok(bytes) ==> bytes@ == csv_text(layer_records(self@.layer(layer))),
    {
        let rows = self.rows();
        let mut writer = new_writer();
        let mut row: usize = 0;
        while row < rows
            invariant
                self.wf(),
                rows == self.spec_rows(),
                row <= rows,
                written_records(writer) == layer_records(self@.layer(layer)).take(row as int),
            decreases rows - row,
        {
            let record = self.record_of_row(layer, row);
            proof {
                let all = layer_records(self@.layer(layer));
                assert(all.take(row as int).push(all[row as int]) =~= all.take(row as int + 1));
            }
            match write_record(writer, &record) {
                Ok(next) => {
                    writer = next;
                },
                Err(_) => {
                    return Err(ExportError::Encode);
                },
            }
            row += 1;
        }
        assert(layer_records(self@.layer(layer)).take(row as int) =~= layer_records(
            self@.layer(layer),
        ));
        match into_bytes(writer) {
            Ok(bytes) => Ok(bytes),
            Err(_) => Err(ExportError::Encode),
        }
    }

    /// The contents of the two export files: the textures layer and the
    /// entities layer, each as CSV text. Nothing is written anywhere; the
    /// caller stores the bytes under `TEXTURES_FILE` and `ENTITIES_FILE`.
    pub fn export_to_csv(&self) -> (result: Result<ExportedFiles, ExportError>)
        requires
            self.wf(),
        ensures
            result is Ok,
            result matches Ok(files) ==> files.textures@ == csv_text(
                layer_records(self@.textures),
            ) && files.entities@ == csv_text(layer_records(self@.entities)),
    {
        let textures = match self.layer_to_csv(Layer::Textures) {
            Ok(bytes) => bytes,
            Err(e) => {
                return Err(e);
            },
        };
        let entities = match self.layer_to_csv(Layer::Entities) {
            Ok(bytes) => bytes,
            Err(e) => {
                return Err(e);
            },
        };
        Ok(ExportedFiles { textures, entities })
    }
}

} // verus!
