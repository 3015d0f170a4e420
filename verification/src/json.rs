//! Row objects: the cells of a result row as a JSON object, keyed by column
//! name.

use crate::convert::{cell_value, convert_cell, CellValue, CellValueView, RawCell, RawCellView};
use crate::model::views;
use vstd::prelude::*;

verus! {

/// `serde_json::Value`, a JSON value. Nothing is claimed of it.
#[verifier::external_type_specification]
#[verifier::external_body]
pub struct ExJsonValue(serde_json::Value);

/// `serde_json::Map`, a JSON object. What one holds is named by
/// [`object_entries`].
#[verifier::external_type_specification]
#[verifier::external_body]
#[verifier::reject_recursive_types(K)]
#[verifier::reject_recursive_types(V)]
pub struct ExJsonObject<K, V>(serde_json::Map<K, V>);

/// A JSON object: the form that a result row takes.
pub type RowObject = serde_json::Map<String, serde_json::Value>;

/// What a JSON object holds: the generic value under each of its keys.
pub uninterp spec fn object_entries(object: RowObject) -> Map<Seq<char>, CellValueView>;

/// `serde_json::Map::new`: the contract claims that the new object holds
/// nothing.
#[verifier::external_body]
fn empty_object() -> (made: RowObject)
    ensures
        object_entries(made) == (Map::<Seq<char>, CellValueView>::empty()),
{
    serde_json::Map::new()
}

/// `serde_json::Map::insert` of `serde_json::Value::Null`: the contract
/// claims that afterwards `key` holds null, in place of what it held before
/// if it held anything, and that every other key holds what it held.
#[verifier::external_body]
fn insert_null(object: &mut RowObject, key: String)
    ensures
        object_entries(*final(object)) == object_entries(*old(object)).insert(
            key@,
            CellValueView::Null,
        ),
{
    object.insert(key, serde_json::Value::Null);
}

/// `serde_json::Map::insert` of the JSON number that `serde_json::Value::from`
/// makes of an `i64`: the contract claims that afterwards `key` holds that
/// number and that every other key holds what it held.
#[verifier::external_body]
fn insert_number(object: &mut RowObject, key: String, number: i64)
    ensures
        object_entries(*final(object)) == object_entries(*old(object)).insert(
            key@,
            CellValueView::Number(number),
        ),
{
    object.insert(key, serde_json::Value::from(number));
}

/// `serde_json::Map::insert` of `serde_json::Value::String`: the contract
/// claims that afterwards `key` holds the string `text` and that every other
/// key holds what it held.
#[verifier::external_body]
fn insert_text(object: &mut RowObject, key: String, text: String)
    ensures
        object_entries(*final(object)) == object_entries(*old(object)).insert(
            key@,
            CellValueView::Text(text@),
        ),
{
    object.insert(key, serde_json::Value::String(text));
}

/// The entries of the object made of `cells`: each cell's generic value under
/// the cell's column name, a later cell replacing an earlier one of the same
/// name.
pub open spec fn row_entries(cells: Seq<RawCellView>) -> Map<Seq<char>, CellValueView>
    decreases cells.len(),
{
    if cells.len() == 0 {
        Map::empty()
    } else {
        row_entries(cells.drop_last()).insert(
            cells.last().name,
            cell_value(cells.last().type_oid, cells.last().value),
        )
    }
}

/// Puts `value` under `key`.
pub fn insert_cell(
    object: &mut RowObject,
    key: String,
    value: CellValue,
)
    ensures
        object_entries(*final(object)) == object_entries(*old(object)).insert(key@, value@),
{
    match value {
        CellValue::Null => insert_null(object, key),
        CellValue::Number(number) => insert_number(object, key, number),
        CellValue::Text(text) => insert_text(object, key, text),
    }
}

/// The row object of `cells`.
pub fn row_object(cells: &Vec<RawCell>) -> (object: RowObject)
    ensures
        object_entries(object) == row_entries(views(cells@)),
{
    let mut object = empty_object();
    let mut i: usize = 0;
    while i < cells.len()
        invariant
            i <= cells@.len(),
            object_entries(object) == row_entries(views(cells@).take(i as int)),
        decreases cells@.len() - i,
    {
        let cell = &cells[i];
        let value = convert_cell(cell.type_oid, &cell.value);
        insert_cell(&mut object, cell.name.clone(), value);
        proof {
            let all = views(cells@);
            assert(all.take(i + 1).drop_last() =~= all.take(i as int));
            assert(all.take(i + 1).last() == cells@[i as int]@);
        }
        i += 1;
    }
    proof {
        assert(views(cells@).take(cells@.len() as int) =~= views(cells@));
    }
    object
}

/// Whether some cell of `cells` belongs to the column `name`.
pub open spec fn has_column(cells: Seq<RawCellView>, name: Seq<char>) -> bool {
    exists|i: int| 0 <= i < cells.len() && (#[trigger] cells[i]).name == name
}

/// The keys of a row object are exactly the column names of its cells.
pub proof fn lemma_row_keys(cells: Seq<RawCellView>, name: Seq<char>)
    ensures
        row_entries(cells).contains_key(name) <==> has_column(cells, name),
    decreases cells.len(),
{
    if cells.len() > 0 {
        let front = cells.drop_last();
        let last = cells.len() - 1;
        lemma_row_keys(front, name);
        if has_column(front, name) {
            let i = choose|i: int| 0 <= i < front.len() && (#[trigger] front[i]).name == name;
            assert(cells[i].name == name);
        }
        if cells[last].name == name {
            assert(has_column(cells, name));
        }
        if has_column(cells, name) && cells[last].name != name {
            let i = choose|i: int| 0 <= i < cells.len() && (#[trigger] cells[i]).name == name;
            assert(front[i].name == name);
        }
    }
}

/// Under a column name a row object holds the generic value of the last cell
/// of that name.
pub proof fn lemma_row_value(cells: Seq<RawCellView>, i: int)
    requires
        0 <= i < cells.len(),
        forall|j: int| i < j < cells.len() ==> (#[trigger] cells[j]).name != cells[i].name,
    ensures
        row_entries(cells)[cells[i].name] == cell_value(cells[i].type_oid, cells[i].value),
    decreases cells.len(),
{
    let last = cells.len() - 1;
    if i < last {
        let front = cells.drop_last();
        assert(cells[last].name != cells[i].name);
        assert(front[i] == cells[i]);
        assert forall|j: int| i < j < front.len() implies (#[trigger] front[j]).name
            != front[i].name by {
            assert(front[j] == cells[j]);
        }
        lemma_row_value(front, i);
    }
}

} // verus!
