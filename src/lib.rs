//! Building and drawing bordered text tables.
//!
//! A [`Table`] collects named objects, each with one value per column, and
//! draws them as an aligned grid of `+`, `-` and `|` characters, either with
//! one object per row or transposed, with one object per column.
//!
//! Widths are counted in characters. A table without objects draws its
//! label column with content width 0, and a column without a header, or an
//! object without a value there, draws a blank cell.
use vstd::prelude::*;

pub mod laws;
pub mod layout;
pub mod table;

pub use table::{Dir, ErrorKind, Table, TableError, TableModel};
