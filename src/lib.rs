//! Tables derived from annotated record types: the schema of a record type's
//! table, the table rendered from it over a list of items, and the events
//! that clicks on it report.

pub mod cell_renderers;
pub mod field;
pub mod laws;
pub mod row_renderers;
pub mod schema;
pub mod table;
pub mod title;
pub mod value;

pub use cell_renderers::{
    DefaultTableCellProps, DefaultTableCellRenderer, DefaultTableHeaderProps,
    DefaultTableHeaderRenderer, TableHeadEvent,
};
pub use field::TableDataField;
pub use row_renderers::{DefaultTableRowProps, DefaultTableRowRenderer, TableRowEvent};
pub use schema::{DeriveError, TableDataDeriveInput, TableSchema};
pub use table::{render_table, TableNode};
pub use value::{format_value, CellValue};
