//! Properties of the conversion as a whole.
use vstd::prelude::*;
use crate::cell::{infer, is_identifier, CellModel, NumberModel};
use crate::converter::record_of;
use crate::json::{document_text, RecordModel};
use crate::projection::{index_of, lemma_index_of, projection, selected_names};

verus! {

/// The column names of a record, in order.
pub open spec fn record_keys(r: RecordModel) -> Seq<Seq<char>> {
    r.map_values(|f: (Seq<char>, CellModel)| f.0)
}

/// A document without records is written as `[]`.
pub proof fn empty_document_is_empty_array()
    ensures
        document_text(Seq::<RecordModel>::empty()) == "[]"@,
{
    reveal_strlit("[");
    reveal_strlit("]");
    reveal_strlit("[]");
    assert(Seq::<RecordModel>::empty().map_values(|r: RecordModel| crate::json::record_text(r))
        =~= Seq::<Seq<char>>::empty());
    assert(document_text(Seq::<RecordModel>::empty()) =~= "[]"@);
}

/// An empty cell is typed as the empty string, never as null, in any column.
pub proof fn empty_cell_is_empty_string(column: Seq<char>, number: NumberModel, lowered: Seq<char>)
    ensures
        infer(column, Seq::empty(), number, lowered) == CellModel::Text(Seq::empty()),
{
}

/// A non-empty cell of an identifier column is kept as its text, whatever it
/// looks like.
pub proof fn identifier_cell_is_text(
    column: Seq<char>,
    text: Seq<char>,
    number: NumberModel,
    lowered: Seq<char>,
)
    requires
        is_identifier(column),
    ensures
        infer(column, text, number, lowered) == CellModel::Text(text),
{
}

proof fn lemma_record_keys(
    header: Seq<Seq<char>>,
    request: Seq<Seq<char>>,
    row: Seq<Seq<char>>,
    numbers: Seq<NumberModel>,
)
    ensures
        record_keys(record_of(header, projection(header, request), row, numbers))
            == selected_names(header, request),
{
    assert(record_keys(record_of(header, projection(header, request), row, numbers))
        =~= selected_names(header, request));
}

proof fn lemma_selected_set(header: Seq<Seq<char>>, request: Seq<Seq<char>>)
    ensures
        selected_names(header, request).to_set() == request.to_set().intersect(header.to_set()),
    decreases request.len(),
{
    let sel = selected_names(header, request);
    let want = request.to_set().intersect(header.to_set());
    if request.len() == 0 {
        assert(sel.to_set() =~= want);
    } else {
        let init = request.drop_last();
        let x = request.last();
        lemma_selected_set(header, init);
        lemma_index_of(header, x);
        let earlier = projection(header, init);
        let sel0 = selected_names(header, init);
        let p = index_of(header, x);
        assert(request.to_set() =~= init.to_set().insert(x)) by {
            assert forall|y: Seq<char>| request.to_set().contains(y) <==> init.to_set().insert(
                x,
            ).contains(y) by {
                if request.contains(y) {
                    let j = choose|j: int| 0 <= j < request.len() && request[j] == y;
                    if j < init.len() {
                        assert(init[j] == y);
                    }
                }
                if init.contains(y) {
                    let j = choose|j: int| 0 <= j < init.len() && init[j] == y;
                    assert(request[j] == y);
                }
                if y == x {
                    assert(request[request.len() - 1] == y);
                }
            }
        }
        if p >= 0 {
            assert(header.contains(x)) by {
                assert(header[p] == x);
            }
            if !earlier.contains(p) {
                assert(sel =~= sel0.push(x));
            } else {
                assert(sel =~= sel0);
                let j = choose|j: int| 0 <= j < earlier.len() && earlier[j] == p;
                assert(sel0[j] == x);
                assert(sel0.to_set().contains(x));
            }
        } else {
            assert(sel =~= sel0);
        }
        assert(sel.to_set() =~= want) by {
            assert forall|y: Seq<char>| sel.to_set().contains(y) <==> want.contains(y) by {
                assert(sel0.to_set().contains(y) <==> (init.to_set().contains(y)
                    && header.to_set().contains(y)));
                assert(want.contains(y) <==> ((init.to_set().contains(y) || y == x)
                    && header.to_set().contains(y)));
                if p >= 0 && !earlier.contains(p) {
                    assert(sel =~= sel0.push(x));
                    if sel.contains(y) {
                        let j = choose|j: int| 0 <= j < sel.len() && sel[j] == y;
                        if j < sel0.len() {
                            assert(sel0[j] == y);
                            assert(sel0.to_set().contains(y));
                        }
                    }
                    if sel0.contains(y) {
                        let j = choose|j: int| 0 <= j < sel0.len() && sel0[j] == y;
                        assert(sel[j] == y);
                    }
                    if y == x {
                        assert(sel[sel.len() - 1] == y);
                    }
                } else if p >= 0 {
                    assert(sel0.to_set().contains(x));
                } else {
                    assert(!header.to_set().contains(x));
                }
            }
        }
    }
}

/// The keys of every record are exactly the requested columns that the header
/// has.
pub proof fn keys_are_requested_header_columns(
    header: Seq<Seq<char>>,
    request: Seq<Seq<char>>,
    row: Seq<Seq<char>>,
    numbers: Seq<NumberModel>,
)
    ensures
        record_keys(record_of(header, projection(header, request), row, numbers)).to_set()
            == request.to_set().intersect(header.to_set()),
{
    lemma_record_keys(header, request, row, numbers);
    lemma_selected_set(header, request);
}

/// A requested column that the header lacks gives no key in any record.
pub proof fn absent_column_gives_no_key(
    header: Seq<Seq<char>>,
    request: Seq<Seq<char>>,
    row: Seq<Seq<char>>,
    numbers: Seq<NumberModel>,
    name: Seq<char>,
)
    requires
        !header.contains(name),
    ensures
        !record_keys(record_of(header, projection(header, request), row, numbers)).contains(
            name,
        ),
{
    keys_are_requested_header_columns(header, request, row, numbers);
    let keys = record_keys(record_of(header, projection(header, request), row, numbers));
    if keys.contains(name) {
        let j = choose|j: int| 0 <= j < keys.len() && keys[j] == name;
        assert(keys.to_set().contains(name));
        assert(header.to_set().contains(name));
    }
}

} // verus!
