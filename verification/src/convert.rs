//! The type converter: from a column's type and what the driver read in a
//! cell to a generic value.

use vstd::prelude::*;

verus! {

/// Object identifier of the engine's `"char"` type.
pub const CHAR_OID: u32 = 18;

/// Object identifier of the engine's `int8` type.
pub const INT8_OID: u32 = 20;

/// Object identifier of the engine's `int2` type.
pub const INT2_OID: u32 = 21;

/// Object identifier of the engine's `int4` type.
pub const INT4_OID: u32 = 23;

/// Object identifier of the engine's `text` type.
pub const TEXT_OID: u32 = 25;

/// Object identifier of the engine's `character` type, `bpchar`.
pub const BPCHAR_OID: u32 = 1042;

/// Object identifier of the engine's `varchar` type.
pub const VARCHAR_OID: u32 = 1043;

/// The families of column types that the converter tells apart.
#[derive(Debug, Clone, Copy, PartialEq, Eq, Structural)]
pub enum TypeFamily {
    /// `text`, `varchar`, `character` and `"char"`: the value is its text.
    Text,
    /// `int2`, `int4` and `int8`: the value is a number.
    Integer,
    /// Every other type: the value is read as text.
    Other,
}

/// How the driver is asked to read a cell.
#[derive(Debug, Clone, Copy, PartialEq, Eq, Structural)]
pub enum Decoder {
    /// As a nullable string.
    Text,
    /// As a nullable 16-bit integer.
    Int2,
    /// As a nullable 32-bit integer.
    Int4,
    /// As a nullable 64-bit integer.
    Int8,
}

/// What the driver read in a cell.
#[derive(Debug, PartialEq, Eq)]
pub enum Decoded {
    /// A string.
    Text(String),
    /// An integer, of whatever width the column has.
    Integer(i64),
    /// The cell is null.
    Null,
    /// The cell could not be read in the way that was asked for.
    Failed,
}

/// The mathematical value of a [`Decoded`].
pub enum DecodedView {
    Text(Seq<char>),
    Integer(i64),
    Null,
    Failed,
}

impl View for Decoded {
    type V = DecodedView;

    open spec fn view(&self) -> DecodedView {
        match self {
            Decoded::Text(text) => DecodedView::Text(text@),
            Decoded::Integer(number) => DecodedView::Integer(*number),
            Decoded::Null => DecodedView::Null,
            Decoded::Failed => DecodedView::Failed,
        }
    }
}

/// A generic value: what a cell becomes in a row object.
#[derive(Debug, PartialEq, Eq)]
pub enum CellValue {
    Null,
    Number(i64),
    Text(String),
}

/// The mathematical value of a [`CellValue`].
pub enum CellValueView {
    Null,
    Number(i64),
    Text(Seq<char>),
}

impl View for CellValue {
    type V = CellValueView;

    open spec fn view(&self) -> CellValueView {
        match self {
            CellValue::Null => CellValueView::Null,
            CellValue::Number(number) => CellValueView::Number(*number),
            CellValue::Text(text) => CellValueView::Text(text@),
        }
    }
}

/// One cell of a result row: the column's name and type, and what the
/// driver read.
#[derive(Debug, PartialEq, Eq)]
pub struct RawCell {
    pub name: String,
    pub type_oid: u32,
    pub value: Decoded,
}

/// The mathematical value of a [`RawCell`].
pub struct RawCellView {
    pub name: Seq<char>,
    pub type_oid: u32,
    pub value: DecodedView,
}

impl View for RawCell {
    type V = RawCellView;

    open spec fn view(&self) -> RawCellView {
        RawCellView { name: self.name@, type_oid: self.type_oid, value: self.value@ }
    }
}

/// The family of the type with object identifier `type_oid`.
pub open spec fn family_of(type_oid: u32) -> TypeFamily {
    if type_oid == TEXT_OID || type_oid == VARCHAR_OID || type_oid == BPCHAR_OID || type_oid
        == CHAR_OID {
        TypeFamily::Text
    } else if type_oid == INT2_OID || type_oid == INT4_OID || type_oid == INT8_OID {
        TypeFamily::Integer
    } else {
        TypeFamily::Other
    }
}

/// The reading asked for in a column of type `type_oid`: an integer of the
/// column's width in a column of the integer family, text in every other.
pub open spec fn decoder_of(type_oid: u32) -> Decoder {
    if type_oid == INT2_OID {
        Decoder::Int2
    } else if type_oid == INT4_OID {
        Decoder::Int4
    } else if type_oid == INT8_OID {
        Decoder::Int8
    } else {
        Decoder::Text
    }
}

/// The generic value of a cell. In a column of the integer family an integer
/// is kept as a number; in every other column text is kept as text. A null
/// cell, a failed reading and a reading of the other kind all become null.
pub open spec fn cell_value(type_oid: u32, decoded: DecodedView) -> CellValueView {
    match (family_of(type_oid), decoded) {
        (TypeFamily::Integer, DecodedView::Integer(number)) => CellValueView::Number(number),
        (TypeFamily::Text, DecodedView::Text(text)) => CellValueView::Text(text),
        (TypeFamily::Other, DecodedView::Text(text)) => CellValueView::Text(text),
        _ => CellValueView::Null,
    }
}

/// The family of a column type.
pub fn type_family(type_oid: u32) -> (family: TypeFamily)
    ensures
        family == family_of(type_oid),
{
    if type_oid == TEXT_OID || type_oid == VARCHAR_OID || type_oid == BPCHAR_OID || type_oid
        == CHAR_OID {
        TypeFamily::Text
    } else if type_oid == INT2_OID || type_oid == INT4_OID || type_oid == INT8_OID {
        TypeFamily::Integer
    } else {
        TypeFamily::Other
    }
}

/// How to read the cells of a column of type `type_oid`.
pub fn decoder_for(type_oid: u32) -> (decoder: Decoder)
    ensures
        decoder == decoder_of(type_oid),
{
    if type_oid == INT2_OID {
        Decoder::Int2
    } else if type_oid == INT4_OID {
        Decoder::Int4
    } else if type_oid == INT8_OID {
        Decoder::Int8
    } else {
        Decoder::Text
    }
}

/// Converts what the driver read in a cell of a column of type `type_oid`.
pub fn convert_cell(type_oid: u32, decoded: &Decoded) -> (value: CellValue)
    ensures
        value@ == cell_value(type_oid, decoded@),
{
    match type_family(type_oid) {
        TypeFamily::Integer => match decoded {
            Decoded::Integer(number) => CellValue::Number(*number),
            _ => CellValue::Null,
        },
        _ => match decoded {
            Decoded::Text(text) => CellValue::Text(text.clone()),
            _ => CellValue::Null,
        },
    }
}

/// An integer read in a column of the integer family, whatever its width,
/// is kept as a number, and text read in any other column is kept as it is.
pub proof fn lemma_readings_are_kept(type_oid: u32, text: Seq<char>, number: i64)
    ensures
        family_of(type_oid) == TypeFamily::Integer <==> type_oid == INT2_OID || type_oid
            == INT4_OID || type_oid == INT8_OID,
        family_of(type_oid) == TypeFamily::Integer ==> cell_value(
            type_oid,
            DecodedView::Integer(number),
        ) == CellValueView::Number(number),
        family_of(type_oid) != TypeFamily::Integer ==> cell_value(
            type_oid,
            DecodedView::Text(text),
        ) == CellValueView::Text(text),
{
}

/// The reading asked for fits the family: an integer is asked for exactly
/// in the columns of the integer family.
pub proof fn lemma_decoder_fits_family(type_oid: u32)
    ensures
        decoder_of(type_oid) == Decoder::Text <==> family_of(type_oid) != TypeFamily::Integer,
{
}

/// A null cell is null whatever the column's type, and so is a cell that
/// could not be read.
pub proof fn lemma_null_and_failure_become_null(type_oid: u32)
    ensures
        cell_value(type_oid, DecodedView::Null) == CellValueView::Null,
        cell_value(type_oid, DecodedView::Failed) == CellValueView::Null,
{
}

} // verus!
