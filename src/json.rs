//! The JSON text of a document of records.
use vstd::prelude::*;
use crate::cell::{Cell, CellModel};

verus! {

/// A record's fields, each a column name and its typed cell, in order.
pub type RecordModel = Seq<(Seq<char>, CellModel)>;

/// A JSON string literal holding `s`, quoted and escaped as
/// `serde_json::to_string` writes it.
pub uninterp spec fn json_string_of(s: Seq<char>) -> Seq<char>;

/// Relies on serde_json::to_string on a `str`: it writes the quoted, escaped
/// literal into a buffer in memory, which cannot fail.
#[verifier::external_body]
fn json_string(s: &str) -> (r: String)
    ensures
        r@ == json_string_of(s@),
{
    match serde_json::to_string(s) {
        Ok(t) => t,
        Err(_) => String::new(),
    }
}

/// The parts joined with commas between them.
pub open spec fn join(parts: Seq<Seq<char>>) -> Seq<char>
    decreases parts.len(),
{
    if parts.len() == 0 {
        Seq::empty()
    } else if parts.len() == 1 {
        parts[0]
    } else {
        join(parts.drop_last()) + ","@ + parts.last()
    }
}

/// A typed cell as a JSON value.
pub open spec fn cell_text(c: CellModel) -> Seq<char> {
    match c {
        CellModel::Text(s) => json_string_of(s),
        CellModel::Number(t) => t,
        CellModel::Bool(b) => if b { "true"@ } else { "false"@ },
        CellModel::Null => "null"@,
    }
}

/// A field as a JSON object member.
pub open spec fn field_text(f: (Seq<char>, CellModel)) -> Seq<char> {
    json_string_of(f.0) + ":"@ + cell_text(f.1)
}

/// A record as a JSON object, its members in the record's order.
pub open spec fn record_text(r: RecordModel) -> Seq<char> {
    "{"@ + join(r.map_values(|f: (Seq<char>, CellModel)| field_text(f))) + "}"@
}

/// A document as a JSON array of objects, in the document's order.
pub open spec fn document_text(d: Seq<RecordModel>) -> Seq<char> {
    "["@ + join(d.map_values(|r: RecordModel| record_text(r))) + "]"@
}

/// One field of a record.
#[derive(Debug)]
pub struct Field {
    pub name: String,
    pub value: Cell,
}

/// The name and typed cell of a field.
pub open spec fn field_model(f: Field) -> (Seq<char>, CellModel) {
    (f.name@, f.value@)
}

/// The fields of a record, in order.
pub open spec fn record_model(r: Seq<Field>) -> RecordModel {
    r.map_values(|f: Field| field_model(f))
}

/// The records of a document, in order.
pub open spec fn document_model(d: Seq<Vec<Field>>) -> Seq<RecordModel> {
    d.map_values(|r: Vec<Field>| record_model(r@))
}

fn write_cell(out: &mut String, c: &Cell)
    ensures
        final(out)@ == old(out)@ + cell_text(c@),
{
    match c {
        Cell::Text(s) => {
            let t = json_string(s.as_str());
            out.append(t.as_str());
        },
        Cell::Number(t) => out.append(t.as_str()),
        Cell::Bool(b) => {
            if *b {
                out.append("true");
            } else {
                out.append("false");
            }
        },
        Cell::Null => out.append("null"),
    }
}

fn write_record(out: &mut String, r: &Vec<Field>)
    ensures
        final(out)@ == old(out)@ + record_text(record_model(r@)),
{
    let ghost start = out@;
    let ghost parts = record_model(r@).map_values(|f: (Seq<char>, CellModel)| field_text(f));
    out.append("{");
    let mut i: usize = 0;
    while i < r.len()
        invariant
            0 <= i <= r.len(),
            parts == record_model(r@).map_values(|f: (Seq<char>, CellModel)| field_text(f)),
            parts.len() == r@.len(),
            out@ == start + "{"@ + join(parts.take(i as int)),
        decreases r.len() - i,
    {
        let ghost before = out@;
        assert(parts.take(i as int + 1).drop_last() =~= parts.take(i as int));
        if i > 0 {
            out.append(",");
        }
        let name = json_string(r[i].name.as_str());
        out.append(name.as_str());
        out.append(":");
        write_cell(out, &r[i].value);
        assert(parts[i as int] == field_text(field_model(r@[i as int])));
        if i == 0 {
            assert(parts.take(1) =~= seq![parts[0]]);
        }
        assert(out@ =~= start + "{"@ + join(parts.take(i as int + 1)));
        i = i + 1;
    }
    assert(parts.take(r.len() as int) =~= parts);
    out.append("}");
    assert(out@ =~= start + record_text(record_model(r@)));
}

/// Writes the document as a JSON array of objects.
pub fn write_document(d: &Vec<Vec<Field>>) -> (r: String)
    ensures
        r@ == document_text(document_model(d@)),
{
    let ghost parts = document_model(d@).map_values(|x: RecordModel| record_text(x));
    let mut out = String::new();
    out.append("[");
    let mut i: usize = 0;
    while i < d.len()
        invariant
            0 <= i <= d.len(),
            parts == document_model(d@).map_values(|x: RecordModel| record_text(x)),
            parts.len() == d@.len(),
            out@ == "["@ + join(parts.take(i as int)),
        decreases d.len() - i,
    {
        assert(parts.take(i as int + 1).drop_last() =~= parts.take(i as int));
        if i > 0 {
            out.append(",");
        }
        write_record(&mut out, &d[i]);
        assert(parts[i as int] == record_text(record_model(d@[i as int]@)));
        if i == 0 {
            assert(parts.take(1) =~= seq![parts[0]]);
        }
        assert(out@ =~= "["@ + join(parts.take(i as int + 1)));
        i = i + 1;
    }
    assert(parts.take(d.len() as int) =~= parts);
    out.append("]");
    assert(out@ =~= document_text(document_model(d@)));
    out
}

} // verus!
