//! Building the document one data row at a time against a fixed header and
//! column request.
use vstd::prelude::*;
use crate::cell::{infer, infer_cell, lower_of, NumberModel, NumberParse};
use crate::json::{document_model, document_text, write_document, Field, RecordModel};
use crate::projection::{as_ints, lemma_projection_bounds, names, project, projection};

verus! {

/// Why a data row was refused.
#[derive(Debug, PartialEq, Eq, Structural)]
pub enum RowError {
    /// The row has another number of cells than the header.
    FieldCount,
    /// The number parses given do not line up with the row's cells.
    NumberCount,
}

/// What the number parser made of each cell of a row.
pub open spec fn number_models(v: Seq<NumberParse>) -> Seq<NumberModel> {
    v.map_values(|n: NumberParse| n@)
}

/// The record for one data row: for each selected position, in order, the
/// column's name and its typed cell.
pub open spec fn record_of(
    header: Seq<Seq<char>>,
    positions: Seq<int>,
    row: Seq<Seq<char>>,
    numbers: Seq<NumberModel>,
) -> RecordModel {
    Seq::new(
        positions.len(),
        |j: int|
            (
                header[positions[j]],
                infer(
                    header[positions[j]],
                    row[positions[j]],
                    numbers[positions[j]],
                    lower_of(row[positions[j]]),
                ),
            ),
    )
}

/// The list of column names that `serde_json::from_str` decodes from a text,
/// or `None` where the text is not a JSON array of strings.
pub uninterp spec fn column_list_of(s: Seq<char>) -> Option<Seq<Seq<char>>>;

/// Relies on serde_json::from_str into a `Vec<String>`: it succeeds exactly on a
/// JSON array of strings, and the result depends on the text alone.
#[verifier::external_body]
fn decode_column_list(s: &str) -> (r: Option<Vec<String>>)
    ensures
        match r {
            Some(v) => column_list_of(s@) == Some(names(v@)),
            None => column_list_of(s@) is None,
        },
{
    serde_json::from_str::<Vec<String>>(s).ok()
}

/// Decodes the column request from JSON text; `None` where the text is not a
/// JSON array of strings.
pub fn parse_column_list(columns_json: &str) -> (r: Option<Vec<String>>)
    ensures
        r is Some <==> column_list_of(columns_json@) is Some,
        r is Some ==> names(r->0@) == column_list_of(columns_json@)->0,
{
    decode_column_list(columns_json)
}

fn copy_string(s: &String) -> (r: String)
    ensures
        r@ == s@,
{
    String::from_str(s.as_str())
}

/// Holds the header, the column index set computed once from the request, and
/// the records built so far.
pub struct Converter {
    header: Vec<String>,
    positions: Vec<usize>,
    records: Vec<Vec<Field>>,
    request: Ghost<Seq<Seq<char>>>,
}

impl Converter {
    /// The header's column names.
    pub closed spec fn header_view(&self) -> Seq<Seq<char>> {
        names(self.header@)
    }

    /// The requested column names.
    pub closed spec fn request_view(&self) -> Seq<Seq<char>> {
        self.request@
    }

    /// The records built so far, in row order.
    pub closed spec fn records_view(&self) -> Seq<RecordModel> {
        document_model(self.records@)
    }

    /// The stored column index set is the projection of the request.
    pub closed spec fn wf(&self) -> bool {
        as_ints(self.positions@) == projection(names(self.header@), self.request@)
    }

    /// The column index set that every row is projected through.
    pub open spec fn positions_view(&self) -> Seq<int> {
        projection(self.header_view(), self.request_view())
    }

    /// Starts a document for a table with this header, keeping the requested
    /// columns.
    pub fn new(header: Vec<String>, request: &Vec<String>) -> (r: Self)
        ensures
            r.wf(),
            r.header_view() == names(header@),
            r.request_view() == names(request@),
            r.records_view() == Seq::<RecordModel>::empty(),
    {
        let positions = project(&header, request);
        let r = Converter {
            header,
            positions,
            records: Vec::new(),
            request: Ghost(names(request@)),
        };
        assert(r.records_view() =~= Seq::<RecordModel>::empty());
        r
    }

    /// Types the selected cells of one data row and appends them as a record.
    pub fn push_row(&mut self, row: &Vec<String>, numbers: &Vec<NumberParse>) -> (r: Result<
        (),
        RowError,
    >)
        requires
            old(self).wf(),
        ensures
            final(self).wf(),
            final(self).header_view() == old(self).header_view(),
            final(self).request_view() == old(self).request_view(),
            r == Ok::<(), RowError>(()) <==> row@.len() == old(self).header_view().len()
                && numbers@.len() == row@.len(),
            r == Err::<(), RowError>(RowError::FieldCount) <==> row@.len() != old(
                self,
            ).header_view().len(),
            r is Ok ==> final(self).records_view() == old(self).records_view().push(
                record_of(
                    old(self).header_view(),
                    old(self).positions_view(),
                    names(row@),
                    number_models(numbers@),
                ),
            ),
            r is Err ==> final(self).records_view() == old(self).records_view(),
    {
        if row.len() != self.header.len() {
            return Err(RowError::FieldCount);
        }
        if numbers.len() != row.len() {
            return Err(RowError::NumberCount);
        }
        let ghost h = names(self.header@);
        let ghost ps = as_ints(self.positions@);
        let ghost want = record_of(h, ps, names(row@), number_models(numbers@));
        proof {
            lemma_projection_bounds(h, self.request@);
        }
        let mut fields: Vec<Field> = Vec::new();
        let mut j: usize = 0;
        while j < self.positions.len()
            invariant
                self.wf(),
                h == names(self.header@),
                ps == as_ints(self.positions@),
                want == record_of(h, ps, names(row@), number_models(numbers@)),
                row@.len() == h.len(),
                numbers@.len() == row@.len(),
                forall|k: int| 0 <= k < ps.len() ==> 0 <= #[trigger] ps[k] < h.len(),
                0 <= j <= self.positions.len(),
                crate::json::record_model(fields@) == want.take(j as int),
            decreases self.positions.len() - j,
        {
            let p = self.positions[j];
            assert(ps[j as int] == p as int);
            let value = infer_cell(&self.header[p], &row[p], &numbers[p]);
            let f = Field { name: copy_string(&self.header[p]), value };
            let ghost before = fields@;
            fields.push(f);
            assert(crate::json::record_model(fields@) =~= crate::json::record_model(before).push(
                crate::json::field_model(f),
            ));
            assert(want.take(j as int + 1) =~= want.take(j as int).push(want[j as int]));
            j = j + 1;
        }
        assert(want.take(ps.len() as int) =~= want);
        let ghost old_records = self.records@;
        self.records.push(fields);
        assert(document_model(self.records@) =~= document_model(old_records).push(want));
        Ok(())
    }

    /// The number of records built so far.
    pub fn record_count(&self) -> (r: usize)
        ensures
            r == self.records_view().len(),
    {
        self.records.len()
    }

    /// The document built so far, as a JSON array of objects.
    pub fn to_json(&self) -> (r: String)
        ensures
            r@ == document_text(self.records_view()),
    {
        write_document(&self.records)
    }
}

} // verus!
