use vstd::prelude::*;

use crate::layout::{grid, larger, longest, max_len, nats, render_grid};

verus! {

/// Why a change to a table was refused.
#[derive(Clone, Copy, Debug, PartialEq, Eq, Structural)]
pub enum TableError {
    /// The column count was fixed before.
    ColumnsAlreadySet,
    /// Headers were set before, or their number is not the fixed column count.
    HeadersRejected,
    /// An object came with a number of values other than the column count,
    /// which is `expected`.
    WrongValueCount { expected: usize },
}

/// The two families of [`TableError`].
#[derive(Clone, Copy, Debug, PartialEq, Eq, Structural)]
pub enum ErrorKind {
    /// The schema (column count or headers) cannot be changed that way.
    Schema,
    /// An object does not fit the schema.
    Validation,
}

/// The decimal digits, in order.
pub const DIGITS: &'static str = "0123456789";

/// The decimal notation of `n`, without leading zeros.
pub open spec fn decimal(n: nat) -> Seq<char>
    decreases n,
{
    if n < 10 {
        seq![DIGITS@[n as int]]
    } else {
        decimal(n / 10).push(DIGITS@[(n % 10) as int])
    }
}

/// Appends the decimal notation of `n`.
fn push_decimal(out: &mut String, n: usize)
    ensures
        final(out)@ == old(out)@ + decimal(n as nat),
    decreases n,
{
    proof {
        reveal_strlit("0123456789");
    }
    if n >= 10 {
        push_decimal(out, n / 10);
    }
    let d = n % 10;
    out.append(DIGITS.substring_char(d, d + 1));
    assert(DIGITS@.subrange(d as int, d + 1) =~= seq![DIGITS@[d as int]]);
    assert(out@ =~= old(out)@ + decimal(n as nat));
}

impl TableError {
    /// The text that describes this error.
    pub open spec fn spec_message(self) -> Seq<char> {
        match self {
            TableError::ColumnsAlreadySet => "Columns already set"@,
            TableError::HeadersRejected => "Columns or headers already set or wrong number of headers"@,
            TableError::WrongValueCount { expected } => "Wrong number of values\nShould be: "@
                + decimal(expected as nat),
        }
    }

    /// The text that describes this error.
    pub fn message(&self) -> (s: String)
        ensures
            s@ == self.spec_message(),
    {
        match self {
            TableError::ColumnsAlreadySet => String::from_str("Columns already set"),
            TableError::HeadersRejected => String::from_str(
                "Columns or headers already set or wrong number of headers",
            ),
            TableError::WrongValueCount { expected } => {
                let mut s = String::from_str("Wrong number of values\nShould be: ");
                push_decimal(&mut s, *expected);
                s
            },
        }
    }

    /// The family of this error.
    pub open spec fn spec_kind(self) -> ErrorKind {
        match self {
            TableError::WrongValueCount { .. } => ErrorKind::Validation,
            _ => ErrorKind::Schema,
        }
    }

    /// The family of this error.
    pub fn kind(&self) -> (k: ErrorKind)
        ensures
            k == self.spec_kind(),
    {
        match self {
            TableError::WrongValueCount { .. } => ErrorKind::Validation,
            _ => ErrorKind::Schema,
        }
    }
}

/// Which way the objects of a table run when it is drawn.
#[derive(Clone, Copy, Debug, PartialEq, Eq, Structural)]
pub enum Dir {
    /// One object per row; the columns are the fields.
    Row,
    /// One object per column; the rows are the fields.
    Column,
}

/// The mathematical content of a [`Table`].
pub struct TableModel {
    pub dir: Dir,
    pub columns: nat,
    pub headers: Seq<Seq<char>>,
    pub names: Seq<Seq<char>>,
    pub values: Seq<Seq<Seq<char>>>,
}

impl TableModel {
    /// Number of objects stored.
    pub open spec fn rows(self) -> nat {
        self.names.len()
    }

    /// Headers are absent or one per column; every object has a name and
    /// one value per column, or no values when it was added while the
    /// column count was still 0.
    pub open spec fn wf(self) -> bool {
        &&& (self.headers.len() == 0 || self.headers.len() == self.columns)
        &&& self.values.len() == self.names.len()
        &&& forall|i: int|
            0 <= i < self.values.len() ==> #[trigger] self.values[i].len() == self.columns
                || self.values[i].len() == 0
    }

    /// The text of the cell of object `r` in field `j`; empty where the
    /// object holds no value there.
    pub open spec fn value_text(self, r: int, j: int) -> Seq<char> {
        if j < self.values[r].len() {
            self.values[r][j]
        } else {
            Seq::empty()
        }
    }

    /// The cells of object `r`, one per column.
    pub open spec fn object(self, r: int) -> Seq<Seq<char>> {
        Seq::new(self.columns, |j: int| self.value_text(r, j))
    }

    /// Whether `n` headers may be set: the column count is still open, or it
    /// is `n` and no headers were set before.
    pub open spec fn accepts_headers(self, n: nat) -> bool {
        self.columns == 0 || (n == self.columns && self.headers.len() == 0)
    }

    /// What setting the column count to `n` returns.
    pub open spec fn set_columns_result(self, n: usize) -> Result<usize, TableError> {
        if self.columns == 0 {
            Ok(n)
        } else {
            Err(TableError::ColumnsAlreadySet)
        }
    }

    /// The table after setting the column count to `n`: fixed to `n` when
    /// still 0, else unchanged.
    pub open spec fn set_columns_state(self, n: usize) -> TableModel {
        if self.columns == 0 {
            TableModel { columns: n as nat, ..self }
        } else {
            self
        }
    }

    /// What setting `n` headers returns.
    pub open spec fn set_headers_result(self, n: usize) -> Result<usize, TableError> {
        if self.accepts_headers(n as nat) {
            Ok(n)
        } else {
            Err(TableError::HeadersRejected)
        }
    }

    /// The table after setting the headers `h`: they are stored, and the
    /// column count is their number, when accepted; else unchanged.
    pub open spec fn set_headers_state(self, h: Seq<Seq<char>>) -> TableModel {
        if self.accepts_headers(h.len()) {
            TableModel { columns: h.len(), headers: h, ..self }
        } else {
            self
        }
    }

    /// Whether an object with `n` values may be added.
    pub open spec fn accepts_object(self, n: nat) -> bool {
        n == self.columns
    }

    /// The error for an object with the wrong number of values.
    pub open spec fn object_error(self) -> TableError {
        TableError::WrongValueCount { expected: self.columns as usize }
    }

    /// The table after adding the object `name` with `values`: appended
    /// last when accepted, else unchanged.
    pub open spec fn add_object_state(self, name: Seq<char>, values: Seq<Seq<char>>) -> TableModel {
        if self.accepts_object(values.len()) {
            TableModel { names: self.names.push(name), values: self.values.push(values), ..self }
        } else {
            self
        }
    }

    /// The text of header `j`; empty while no headers are set.
    pub open spec fn header_text(self, j: int) -> Seq<char> {
        if self.headers.len() == 0 {
            Seq::empty()
        } else {
            self.headers[j]
        }
    }

    /// The text of every header, one per column.
    pub open spec fn header_texts(self) -> Seq<Seq<char>> {
        Seq::new(self.columns, |j: int| self.header_text(j))
    }

    /// The values of field `j`, one per object in insertion order.
    pub open spec fn field(self, j: int) -> Seq<Seq<char>> {
        Seq::new(self.rows(), |r: int| self.value_text(r, j))
    }

    /// Content widths with one object per row: the longest name for the
    /// label column, then for each field the longest of its header and its
    /// values.
    pub open spec fn row_widths(self) -> Seq<nat> {
        seq![max_len(self.names)] + Seq::new(
            self.columns,
            |j: int| larger(self.header_text(j).len(), max_len(self.field(j))),
        )
    }

    /// The heading cells with one object per row: a blank label, then the headers.
    pub open spec fn row_head(self) -> Seq<Seq<char>> {
        seq![Seq::<char>::empty()] + self.header_texts()
    }

    /// The lines of cells with one object per row: its name, then its values.
    pub open spec fn row_body(self) -> Seq<Seq<Seq<char>>> {
        Seq::new(self.rows(), |r: int| seq![self.names[r]] + self.object(r))
    }

    /// Content widths with one object per column: the longest header for the
    /// label column, then for each object the longest of its name and its
    /// values.
    pub open spec fn column_widths(self) -> Seq<nat> {
        seq![max_len(self.headers)] + Seq::new(
            self.rows(),
            |r: int| larger(max_len(self.values[r]), self.names[r].len()),
        )
    }

    /// The heading cells with one object per column: a blank label, then the names.
    pub open spec fn column_head(self) -> Seq<Seq<char>> {
        seq![Seq::<char>::empty()] + self.names
    }

    /// The lines of cells with one object per column: one per field, its
    /// header, then the value of each object.
    pub open spec fn column_body(self) -> Seq<Seq<Seq<char>>> {
        Seq::new(self.columns, |j: int| seq![self.header_text(j)] + self.field(j))
    }

    /// The table drawn with one object per row.
    pub open spec fn render_rows(self, all: bool) -> Seq<char> {
        grid(self.row_widths(), self.row_head(), self.row_body(), all)
    }

    /// The table drawn with one object per column.
    pub open spec fn render_columns(self, all: bool) -> Seq<char> {
        grid(self.column_widths(), self.column_head(), self.column_body(), all)
    }

    /// The table drawn in its own direction; with `all`, a separator follows
    /// every content line, else only the last.
    pub open spec fn render(self, all: bool) -> Seq<char> {
        match self.dir {
            Dir::Row => self.render_rows(all),
            Dir::Column => self.render_columns(all),
        }
    }
}

/// A table under construction: a schema fixed once, then objects appended.
pub struct Table {
    flow_direction: Dir,
    columns: usize,
    rows: usize,
    headers: Vec<String>,
    names: Vec<String>,
    values: Vec<Vec<String>>,
}

impl View for Table {
    type V = TableModel;

    closed spec fn view(&self) -> TableModel {
        TableModel {
            dir: self.flow_direction,
            columns: self.columns as nat,
            headers: self.headers.deep_view(),
            names: self.names.deep_view(),
            values: self.values.deep_view(),
        }
    }
}

impl Table {
    /// The stored fields agree with each other and the model is well formed.
    pub closed spec fn wf(&self) -> bool {
        &&& self@.wf()
        &&& self.rows as nat == self.names.len()
    }

    /// An empty table drawn one object per row.
    pub fn new() -> (t: Table)
        ensures
            t.wf(),
            t@.dir == Dir::Row,
            t@.columns == 0,
            t@.headers == Seq::<Seq<char>>::empty(),
            t@.names == Seq::<Seq<char>>::empty(),
            t@.values == Seq::<Seq<Seq<char>>>::empty(),
    {
        let t = Table {
            flow_direction: Dir::Row,
            columns: 0,
            rows: 0,
            headers: Vec::new(),
            names: Vec::new(),
            values: Vec::new(),
        };
        assert(t@.headers =~= Seq::<Seq<char>>::empty());
        assert(t@.names =~= Seq::<Seq<char>>::empty());
        assert(t@.values =~= Seq::<Seq<Seq<char>>>::empty());
        t
    }

    /// Switches between [`Dir::Row`] and [`Dir::Column`] and returns the new
    /// direction.
    pub fn change_flow_dir(&mut self) -> (d: Dir)
        requires
            old(self).wf(),
        ensures
            final(self).wf(),
            d == final(self)@.dir,
            d != old(self)@.dir,
            final(self)@ == (TableModel { dir: d, ..old(self)@ }),
    {
        self.flow_direction = match self.flow_direction {
            Dir::Row => Dir::Column,
            Dir::Column => Dir::Row,
        };
        self.flow_direction
    }

    /// Sets the direction to `dir`.
    pub fn set_flow_dir(&mut self, dir: Dir)
        requires
            old(self).wf(),
        ensures
            final(self).wf(),
            final(self)@ == (TableModel { dir, ..old(self)@ }),
    {
        self.flow_direction = dir;
    }

    /// Fixes the column count to `columns` if it is still 0; otherwise fails
    /// and changes nothing.
    pub fn set_columns(&mut self, columns: usize) -> (r: Result<usize, TableError>)
        requires
            old(self).wf(),
        ensures
            final(self).wf(),
            r == old(self)@.set_columns_result(columns),
            final(self)@ == old(self)@.set_columns_state(columns),
    {
        if self.columns == 0 {
            self.columns = columns;
            proof {
                assert(self@.values =~= old(self)@.values);
            }
            return Ok(columns);
        }
        Err(TableError::ColumnsAlreadySet)
    }

    /// Sets the headers, fixing the column count to their number if it is
    /// still 0. Fails, changing nothing, when the count is fixed to another
    /// number or headers were set before.
    pub fn set_headers(&mut self, headers: Vec<String>) -> (r: Result<usize, TableError>)
        requires
            old(self).wf(),
        ensures
            final(self).wf(),
            r == old(self)@.set_headers_result(headers.len()),
            final(self)@ == old(self)@.set_headers_state(headers.deep_view()),
    {
        let len = headers.len();
        if self.columns == 0 {
            self.columns = len;
        } else if self.columns != len || self.headers.len() != 0 {
            return Err(TableError::HeadersRejected);
        }
        self.headers = headers;
        Ok(len)
    }

    /// Appends an object named `name` with `values`, one per column, and
    /// returns its name. Fails, changing nothing, when the number of values
    /// is not the column count.
    pub fn add_object(&mut self, name: String, values: Vec<String>) -> (r: Result<
        String,
        TableError,
    >)
        requires
            old(self).wf(),
        ensures
            final(self).wf(),
            old(self)@.accepts_object(values.len() as nat) ==> r == Ok::<String, TableError>(name),
            !old(self)@.accepts_object(values.len() as nat) ==> r == Err::<String, TableError>(
                old(self)@.object_error(),
            ),
            final(self)@ == old(self)@.add_object_state(name@, values.deep_view()),
    {
        if self.columns != values.len() {
            return Err(TableError::WrongValueCount { expected: self.columns });
        }
        let ghost v = values.deep_view();
        self.names.push(name.clone());
        self.values.push(values);
        self.rows = self.names.len();
        proof {
            assert(self@.names =~= old(self)@.names.push(name@));
            assert(self@.values =~= old(self)@.values.push(v));
        }
        Ok(name)
    }

    /// The text of header `j`, empty while no headers are set.
    fn header_cell(&self, j: usize) -> (s: String)
        requires
            self.wf(),
            j < self@.columns,
        ensures
            s@ == self@.header_text(j as int),
    {
        if self.headers.len() == 0 {
            String::new()
        } else {
            self.headers[j].clone()
        }
    }

    /// The text of the value of object `r` in field `j`.
    fn value_cell(&self, r: usize, j: usize) -> (s: String)
        requires
            self.wf(),
            r < self@.rows(),
        ensures
            s@ == self@.value_text(r as int, j as int),
    {
        if j < self.values[r].len() {
            self.values[r][j].clone()
        } else {
            String::new()
        }
    }

    /// The characters of the longest of header `j` and the values of field `j`.
    fn field_width(&self, j: usize) -> (w: usize)
        requires
            self.wf(),
            j < self@.columns,
        ensures
            w == larger(self@.header_text(j as int).len(), max_len(self@.field(j as int))),
    {
        let ghost f = self@.field(j as int);
        let mut w: usize = if self.headers.len() == 0 {
            0
        } else {
            self.headers[j].as_str().unicode_len()
        };
        let mut r: usize = 0;
        while r < self.rows
            invariant
                self.wf(),
                j < self@.columns,
                r <= self@.rows(),
                f == self@.field(j as int),
                w == larger(self@.header_text(j as int).len(), max_len(f.take(r as int))),
            decreases self@.rows() - r,
        {
            let len = if j < self.values[r].len() {
                self.values[r][j].as_str().unicode_len()
            } else {
                0
            };
            if w < len {
                w = len;
            }
            proof {
                let t = f.take(r + 1);
                assert(t.drop_last() =~= f.take(r as int));
            }
            r = r + 1;
        }
        assert(f.take(r as int) =~= f);
        w
    }

    /// The cells of the line of object `r` with one object per row.
    fn object_cells(&self, r: usize) -> (cells: Vec<String>)
        requires
            self.wf(),
            r < self@.rows(),
        ensures
            cells.deep_view() == self@.row_body()[r as int],
    {
        let ghost want = self@.row_body()[r as int];
        let mut cells: Vec<String> = Vec::new();
        cells.push(self.names[r].clone());
        let mut j: usize = 0;
        while j < self.columns
            invariant
                self.wf(),
                r < self@.rows(),
                j <= self@.columns,
                want == self@.row_body()[r as int],
                cells.deep_view() == want.take(j + 1),
            decreases self@.columns - j,
        {
            let cell = self.value_cell(r, j);
            let ghost prev = cells.deep_view();
            cells.push(cell);
            assert(cells.deep_view() =~= prev.push(cell@));
            j = j + 1;
            assert(cells.deep_view() =~= want.take(j + 1));
        }
        assert(want.take(j + 1) =~= want);
        cells
    }

    /// The cells of the line of field `j` with one object per column.
    fn field_cells(&self, j: usize) -> (cells: Vec<String>)
        requires
            self.wf(),
            j < self@.columns,
        ensures
            cells.deep_view() == self@.column_body()[j as int],
    {
        let ghost want = self@.column_body()[j as int];
        let mut cells: Vec<String> = Vec::new();
        cells.push(self.header_cell(j));
        let mut r: usize = 0;
        while r < self.rows
            invariant
                self.wf(),
                j < self@.columns,
                r <= self@.rows(),
                want == self@.column_body()[j as int],
                cells.deep_view() == want.take(r + 1),
            decreases self@.rows() - r,
        {
            let cell = self.value_cell(r, j);
            let ghost prev = cells.deep_view();
            cells.push(cell);
            assert(cells.deep_view() =~= prev.push(cell@));
            r = r + 1;
            assert(cells.deep_view() =~= want.take(r + 1));
        }
        assert(want.take(r + 1) =~= want);
        cells
    }

    /// The table drawn with one object per row, whatever its direction.
    /// With `horizontal_lines`, a separator follows every object's line;
    /// without, only the last.
    pub fn get_as_string_row(&self, horizontal_lines: bool) -> (s: String)
        requires
            self.wf(),
        ensures
            s@ == self@.render_rows(horizontal_lines),
    {
        let ghost m = self@;
        let mut widths: Vec<usize> = Vec::new();
        widths.push(longest(&self.names));
        let mut head: Vec<String> = Vec::new();
        head.push(String::new());
        let mut j: usize = 0;
        while j < self.columns
            invariant
                self.wf(),
                m == self@,
                j <= m.columns,
                nats(widths@) == m.row_widths().take(j + 1),
                head.deep_view() == m.row_head().take(j + 1),
            decreases m.columns - j,
        {
            let w = self.field_width(j);
            let ghost pw = nats(widths@);
            widths.push(w);
            assert(nats(widths@) =~= pw.push(w as nat));
            let h = self.header_cell(j);
            let ghost ph = head.deep_view();
            head.push(h);
            assert(head.deep_view() =~= ph.push(h@));
            j = j + 1;
            assert(nats(widths@) =~= m.row_widths().take(j + 1));
            assert(head.deep_view() =~= m.row_head().take(j + 1));
        }
        assert(nats(widths@) =~= m.row_widths());
        assert(head.deep_view() =~= m.row_head());
        let mut body: Vec<Vec<String>> = Vec::new();
        let mut r: usize = 0;
        while r < self.rows
            invariant
                self.wf(),
                m == self@,
                r <= m.rows(),
                body.deep_view() == m.row_body().take(r as int),
                forall|k: int| 0 <= k < body.len() ==> #[trigger] body[k].len() == m.columns + 1,
            decreases m.rows() - r,
        {
            let cells = self.object_cells(r);
            assert(cells.deep_view().len() == m.columns + 1);
            let ghost pb = body.deep_view();
            body.push(cells);
            assert(body.deep_view() =~= pb.push(cells.deep_view()));
            r = r + 1;
            assert(body.deep_view() =~= m.row_body().take(r as int));
        }
        assert(body.deep_view() =~= m.row_body());
        render_grid(&widths, &head, &body, horizontal_lines)
    }

    /// The table drawn with one object per column, whatever its direction.
    /// With `horizontal_lines`, a separator follows every field's line;
    /// without, only the last.
    pub fn get_as_string_column(&self, horizontal_lines: bool) -> (s: String)
        requires
            self.wf(),
        ensures
            s@ == self@.render_columns(horizontal_lines),
    {
        let ghost m = self@;
        let mut widths: Vec<usize> = Vec::new();
        widths.push(longest(&self.headers));
        let mut head: Vec<String> = Vec::new();
        head.push(String::new());
        let mut r: usize = 0;
        while r < self.rows
            invariant
                self.wf(),
                m == self@,
                r <= m.rows(),
                nats(widths@) == m.column_widths().take(r + 1),
                head.deep_view() == m.column_head().take(r + 1),
            decreases m.rows() - r,
        {
            let v = longest(&self.values[r]);
            let n = self.names[r].as_str().unicode_len();
            let ghost pw = nats(widths@);
            widths.push(if v < n { n } else { v });
            assert(nats(widths@) =~= pw.push(larger(v as nat, n as nat)));
            let name = self.names[r].clone();
            let ghost ph = head.deep_view();
            head.push(name);
            assert(head.deep_view() =~= ph.push(name@));
            r = r + 1;
            assert(nats(widths@) =~= m.column_widths().take(r + 1));
            assert(head.deep_view() =~= m.column_head().take(r + 1));
        }
        assert(nats(widths@) =~= m.column_widths());
        assert(head.deep_view() =~= m.column_head());
        let mut body: Vec<Vec<String>> = Vec::new();
        let mut j: usize = 0;
        while j < self.columns
            invariant
                self.wf(),
                m == self@,
                j <= m.columns,
                body.deep_view() == m.column_body().take(j as int),
                forall|k: int| 0 <= k < body.len() ==> #[trigger] body[k].len() == m.rows() + 1,
            decreases m.columns - j,
        {
            let cells = self.field_cells(j);
            assert(cells.deep_view().len() == m.rows() + 1);
            let ghost pb = body.deep_view();
            body.push(cells);
            assert(body.deep_view() =~= pb.push(cells.deep_view()));
            j = j + 1;
            assert(body.deep_view() =~= m.column_body().take(j as int));
        }
        assert(body.deep_view() =~= m.column_body());
        render_grid(&widths, &head, &body, horizontal_lines)
    }

    /// The table drawn in its direction. With `horizontal_lines`, a
    /// separator follows every content line; without, only the last.
    pub fn get_as_string(&self, horizontal_lines: bool) -> (s: String)
        requires
            self.wf(),
        ensures
            s@ == self@.render(horizontal_lines),
    {
        match self.flow_direction {
            Dir::Row => self.get_as_string_row(horizontal_lines),
            Dir::Column => self.get_as_string_column(horizontal_lines),
        }
    }

    /// The direction the table is drawn in.
    pub fn flow_direction(&self) -> (d: Dir)
        requires
            self.wf(),
        ensures
            d == self@.dir,
    {
        self.flow_direction
    }

    /// The number of objects added.
    pub fn rows(&self) -> (n: usize)
        requires
            self.wf(),
        ensures
            n == self@.rows(),
    {
        self.rows
    }

    /// The headers; empty while unset.
    pub fn headers(&self) -> (h: &Vec<String>)
        requires
            self.wf(),
        ensures
            h.deep_view() == self@.headers,
    {
        &self.headers
    }

    /// The names of the objects, in the order they were added.
    pub fn names(&self) -> (n: &Vec<String>)
        requires
            self.wf(),
        ensures
            n.deep_view() == self@.names,
    {
        &self.names
    }

    /// The values of the objects, in the order they were added.
    pub fn values(&self) -> (v: &Vec<Vec<String>>)
        requires
            self.wf(),
        ensures
            v.deep_view() == self@.values,
    {
        &self.values
    }

    /// The column count; 0 while unset.
    pub fn columns(&self) -> (n: usize)
        requires
            self.wf(),
        ensures
            n == self@.columns,
    {
        self.columns
    }
}

} // verus!
