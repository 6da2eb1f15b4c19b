//! Facts about whole sequences of table operations.
use vstd::prelude::*;

use crate::table::{Dir, ErrorKind, TableError, TableModel};

verus! {

/// A fresh count is fixed once: on a table whose column count is still 0,
/// setting it to a nonzero `n` succeeds, and any later attempt, with any `k`,
/// fails with a schema error and leaves the table as it was.
pub proof fn columns_are_set_once(m: TableModel, n: usize, k: usize)
    requires
        m.wf(),
        m.columns == 0,
        n != 0,
    ensures
        m.set_columns_result(n) == Ok::<usize, TableError>(n),
        m.set_columns_state(n).columns == n,
        m.set_columns_state(n).set_columns_result(k) == Err::<usize, TableError>(
            TableError::ColumnsAlreadySet,
        ),
        TableError::ColumnsAlreadySet.spec_kind() == ErrorKind::Schema,
        m.set_columns_state(n).set_columns_state(k) == m.set_columns_state(n),
{
}

/// On a table whose column count is fixed, headers `h` are accepted exactly
/// when there are as many as columns and none were set before; when refused,
/// the table, and so its headers, stay as they were.
pub proof fn headers_on_a_fixed_count(m: TableModel, h: Seq<Seq<char>>)
    requires
        m.wf(),
        m.columns != 0,
        h.len() <= usize::MAX,
    ensures
        m.set_headers_result(h.len() as usize) is Ok <==> (h.len() == m.columns && m.headers.len()
            == 0),
        m.set_headers_result(h.len() as usize) is Ok ==> m.set_headers_state(h).headers == h,
        m.set_headers_result(h.len() as usize) is Err ==> m.set_headers_state(h) == m,
{
}

/// An object is accepted exactly when it has one value per column; then it
/// is appended last, the number of objects grows by one, and nothing else
/// changes. When refused, nothing changes.
pub proof fn objects_are_appended(m: TableModel, name: Seq<char>, values: Seq<Seq<char>>)
    requires
        m.wf(),
    ensures
        m.accepts_object(values.len()) <==> values.len() == m.columns,
        m.accepts_object(values.len()) ==> {
            let t = m.add_object_state(name, values);
            &&& t.rows() == m.rows() + 1
            &&& t.names == m.names.push(name)
            &&& t.values == m.values.push(values)
            &&& t.headers == m.headers && t.columns == m.columns && t.dir == m.dir
        },
        !m.accepts_object(values.len()) ==> m.add_object_state(name, values) == m,
{
}

/// An object with one value fewer than the column count is refused, with a
/// validation error, and the number of objects stays the same.
pub proof fn one_value_short_is_refused(m: TableModel, name: Seq<char>, values: Seq<Seq<char>>)
    requires
        m.wf(),
        values.len() + 1 == m.columns,
    ensures
        !m.accepts_object(values.len()),
        m.object_error().spec_kind() == ErrorKind::Validation,
        m.add_object_state(name, values).rows() == m.rows(),
{
}

/// Drawing by columns transposes drawing by rows: the headers, which head
/// the columns when drawn by rows, become the labels of the lines; the
/// names, which label the lines, head the columns; and each cell holds the
/// same text in both, at swapped coordinates. The direction of a table only
/// chooses between the two drawings.
pub proof fn columns_transpose_rows(m: TableModel)
    requires
        m.wf(),
    ensures
        m.row_head().len() == m.columns + 1,
        m.row_body().len() == m.rows(),
        m.column_head().len() == m.rows() + 1,
        m.column_body().len() == m.columns,
        forall|r: int| 0 <= r < m.rows() ==> #[trigger] m.row_body()[r].len() == m.columns + 1,
        forall|j: int| 0 <= j < m.columns ==> #[trigger] m.column_body()[j].len() == m.rows() + 1,
        forall|j: int|
            0 <= j < m.columns ==> m.row_head()[j + 1] == #[trigger] m.header_text(j)
                && m.column_body()[j][0] == m.header_text(j),
        forall|r: int|
            0 <= r < m.rows() ==> m.row_body()[r][0] == #[trigger] m.names[r] && m.column_head()[r
                + 1] == m.names[r],
        forall|r: int, j: int|
            0 <= r < m.rows() && 0 <= j < m.columns ==> m.row_body()[r][j + 1]
                == #[trigger] m.value_text(r, j) && m.column_body()[j][r + 1] == m.value_text(r, j),
        forall|all: bool|
            #[trigger] (TableModel { dir: Dir::Row, ..m }).render(all) == m.render_rows(all),
        forall|all: bool|
            #[trigger] (TableModel { dir: Dir::Column, ..m }).render(all) == m.render_columns(all),
{
    let rm = TableModel { dir: Dir::Row, ..m };
    let cm = TableModel { dir: Dir::Column, ..m };
    assert forall|j: int| rm.field(j) == m.field(j) && cm.field(j) == m.field(j) by {
        assert(rm.field(j) =~= m.field(j));
        assert(cm.field(j) =~= m.field(j));
    }
    assert forall|r: int| rm.object(r) == m.object(r) by {
        assert(rm.object(r) =~= m.object(r));
    }
    assert(rm.row_widths() =~= m.row_widths());
    assert(rm.row_head() =~= m.row_head());
    assert(rm.row_body() =~= m.row_body());
    assert(cm.column_widths() =~= m.column_widths());
    assert(cm.column_head() =~= m.column_head());
    assert(cm.column_body() =~= m.column_body());
}

} // verus!
