//! Giving a raw cell of the table its JSON type.
use vstd::prelude::*;

verus! {

/// What the host's decimal floating-point parser made of a cell's text.
pub enum NumberParse {
    /// The text is not a decimal floating-point literal.
    NotNumber,
    /// The text parsed to a finite number; this is its JSON rendering.
    Finite(String),
    /// The text parsed to an infinity or to not-a-number.
    NonFinite,
}

/// The mathematical value of a `NumberParse`.
pub enum NumberModel {
    NotNumber,
    Finite(Seq<char>),
    NonFinite,
}

impl View for NumberParse {
    type V = NumberModel;

    open spec fn view(&self) -> NumberModel {
        match self {
            NumberParse::NotNumber => NumberModel::NotNumber,
            NumberParse::Finite(t) => NumberModel::Finite(t@),
            NumberParse::NonFinite => NumberModel::NonFinite,
        }
    }
}

/// A typed cell. A number is held as its JSON text.
#[derive(Debug)]
pub enum Cell {
    Text(String),
    Number(String),
    Bool(bool),
    Null,
}

/// The mathematical value of a `Cell`.
pub enum CellModel {
    Text(Seq<char>),
    Number(Seq<char>),
    Bool(bool),
    Null,
}

impl View for Cell {
    type V = CellModel;

    open spec fn view(&self) -> CellModel {
        match self {
            Cell::Text(s) => CellModel::Text(s@),
            Cell::Number(t) => CellModel::Number(t@),
            Cell::Bool(b) => CellModel::Bool(*b),
            Cell::Null => CellModel::Null,
        }
    }
}

/// The columns whose cells are opaque identifiers, never numbers.
pub open spec fn is_identifier(name: Seq<char>) -> bool {
    name == "source_id"@ || name == "solution_id"@ || name == "designation"@
}

/// The typed cell for `text` in column `column`, given what the number parser
/// made of the text and the text's lower-case form.
pub open spec fn infer(
    column: Seq<char>,
    text: Seq<char>,
    number: NumberModel,
    lowered: Seq<char>,
) -> CellModel {
    if text.len() == 0 {
        CellModel::Text(text)
    } else if is_identifier(column) {
        CellModel::Text(text)
    } else {
        match number {
            NumberModel::Finite(t) => CellModel::Number(t),
            NumberModel::NonFinite => CellModel::Null,
            NumberModel::NotNumber => {
                if lowered == "null"@ {
                    CellModel::Null
                } else if lowered == "true"@ {
                    CellModel::Bool(true)
                } else if lowered == "false"@ {
                    CellModel::Bool(false)
                } else {
                    CellModel::Text(text)
                }
            },
        }
    }
}

/// The lower-case form of a text, as `str::to_lowercase` gives it.
pub uninterp spec fn lower_of(s: Seq<char>) -> Seq<char>;

/// Relies on str::to_lowercase: the result depends on the characters alone.
#[verifier::external_body]
fn lowercase(s: &str) -> (r: String)
    ensures
        r@ == lower_of(s@),
{
    s.to_lowercase()
}

/// Whether `name` is one of the identifier columns.
pub fn is_identifier_column(name: &String) -> (r: bool)
    ensures
        r == is_identifier(name@),
{
    let a = String::from_str("source_id");
    let b = String::from_str("solution_id");
    let c = String::from_str("designation");
    *name == a || *name == b || *name == c
}

fn copy_string(s: &String) -> (r: String)
    ensures
        r@ == s@,
{
    String::from_str(s.as_str())
}

/// Types a cell whose lower-case form the caller has already computed.
pub fn infer_with_lowered(
    column: &String,
    text: &String,
    number: &NumberParse,
    lowered: &String,
) -> (r: Cell)
    ensures
        r@ == infer(column@, text@, number@, lowered@),
{
    if text.as_str().is_empty() {
        return Cell::Text(copy_string(text));
    }
    if is_identifier_column(column) {
        return Cell::Text(copy_string(text));
    }
    match number {
        NumberParse::Finite(t) => Cell::Number(copy_string(t)),
        NumberParse::NonFinite => Cell::Null,
        NumberParse::NotNumber => {
            if *lowered == String::from_str("null") {
                Cell::Null
            } else if *lowered == String::from_str("true") {
                Cell::Bool(true)
            } else if *lowered == String::from_str("false") {
                Cell::Bool(false)
            } else {
                Cell::Text(copy_string(text))
            }
        },
    }
}

/// Types the cell `text` of column `column`, given what the number parser made
/// of it.
pub fn infer_cell(column: &String, text: &String, number: &NumberParse) -> (r: Cell)
    ensures
        r@ == infer(column@, text@, number@, lower_of(text@)),
{
    match number {
        NumberParse::NotNumber => {
            let lowered = lowercase(text.as_str());
            infer_with_lowered(column, text, number, &lowered)
        },
        _ => infer_with_lowered(column, text, number, &String::new()),
    }
}

} // verus!
