use vstd::prelude::*;
use vstd::string::*;

use crate::field::{compose_class, composed_class, opt_view, TableDataField};
use crate::title::{resolve_title, resolved_title};

verus! {

/// The annotations written on a record type, with those of its fields.
pub struct TableDataDeriveInput {
    /// The record type's name.
    pub ident: String,
    /// The fields in declaration order; `None` when the type is not a record
    /// (an enum, say).
    pub fields: Option<Vec<TableDataField>>,
    /// The element name of the table's root.
    pub tag: Option<String>,
    /// A custom row renderer, by name.
    pub row_renderer: Option<String>,
    /// The class of every body row.
    pub row_class: Option<String>,
    /// The class of the head row.
    pub head_row_class: Option<String>,
    /// A custom head-cell renderer for every column, by name.
    pub head_cell_renderer: Option<String>,
    /// Body-row classes are computed per row when the table is rendered.
    pub dyn_row_classes: bool,
}

/// Why a record type cannot be given a table.
#[derive(Debug, Clone, Copy, PartialEq, Eq)]
pub enum DeriveError {
    /// The type is not a record whose fields all have names.
    NotNamedRecord,
    /// A precision annotation is not a non-negative machine-sized integer.
    InvalidPrecision,
}

/// One rendered column.
pub struct FieldSpec {
    /// The field's name, reported by head clicks.
    pub name: String,
    /// The header text.
    pub title: String,
    /// The class of the head cell.
    pub head_class: String,
    /// The class of the body cells.
    pub cell_class: String,
    /// Fractional digits shown for a numeric value.
    pub precision: Option<usize>,
    /// The renderer of the body cells, by name.
    pub cell_renderer: String,
    /// The renderer of the head cell, by name.
    pub head_renderer: String,
    /// The column's position among the rendered columns.
    pub column_index: usize,
    /// The field's position among all declared fields.
    pub source_index: usize,
}

/// Everything the table of one record type needs, fixed once derived.
pub struct TableSchema {
    pub ident: String,
    /// The element name of the table's root.
    pub tag: String,
    /// The renderer of each body row, by name.
    pub row_renderer: String,
    pub row_class: String,
    pub head_row_class: String,
    pub dyn_row_classes: bool,
    /// How many fields the record type declares, skipped ones included.
    pub field_count: usize,
    /// The rendered columns, in declaration order.
    pub columns: Vec<FieldSpec>,
}

/// The positions of the fields that are not skipped, in declaration order.
pub open spec fn kept_indices(fields: Seq<TableDataField>) -> Seq<int>
    decreases fields.len(),
{
    if fields.len() == 0 {
        seq![]
    } else {
        let prefix = kept_indices(fields.drop_last());
        if fields.last().skip {
            prefix
        } else {
            prefix.push(fields.len() - 1)
        }
    }
}

/// Every field has a name.
pub open spec fn all_named(fields: Seq<TableDataField>) -> bool {
    forall|i: int| 0 <= i < fields.len() ==> (#[trigger] fields[i]).ident is Some
}

/// A precision annotation that a cell can use.
pub open spec fn precision_valid(p: Option<i64>) -> bool {
    match p {
        Some(v) => 0 <= v <= usize::MAX,
        None => true,
    }
}

/// Every precision annotation can be used.
pub open spec fn all_precisions_valid(fields: Seq<TableDataField>) -> bool {
    forall|i: int| 0 <= i < fields.len() ==> precision_valid((#[trigger] fields[i]).precision)
}

/// The precision of a column made from an annotation.
pub open spec fn column_precision(p: Option<i64>) -> Option<usize> {
    match p {
        Some(v) => Some(v as usize),
        None => None,
    }
}

/// The annotated value when one is given, else the default.
pub open spec fn given_or(custom: Option<Seq<char>>, default: Seq<char>) -> Seq<char> {
    match custom {
        Some(r) => r,
        None => default,
    }
}

/// `c` is the column made from field `f`, declared at `src` and rendered at `j`.
pub open spec fn column_of(
    c: FieldSpec,
    f: TableDataField,
    j: int,
    src: int,
    head_cell_renderer: Option<Seq<char>>,
) -> bool {
    let name = f.ident.unwrap()@;
    &&& c.name@ == name
    &&& c.title@ == resolved_title(opt_view(f.title), name)
    &&& c.head_class@ == composed_class(opt_view(f.class), opt_view(f.head_class))
    &&& c.cell_class@ == composed_class(opt_view(f.class), opt_view(f.cell_class))
    &&& c.precision == column_precision(f.precision)
    &&& c.cell_renderer@ == given_or(opt_view(f.renderer), "DefaultTableCellRenderer"@)
    &&& c.head_renderer@ == given_or(head_cell_renderer, "DefaultTableHeaderRenderer"@)
    &&& c.column_index == j
    &&& c.source_index == src
}

/// `columns` holds one column for each position of `kept`, in order.
pub open spec fn columns_match(
    columns: Seq<FieldSpec>,
    fields: Seq<TableDataField>,
    kept: Seq<int>,
    head_cell_renderer: Option<Seq<char>>,
) -> bool {
    &&& columns.len() == kept.len()
    &&& forall|j: int|
        0 <= j < columns.len() ==> column_of(
            #[trigger] columns[j],
            fields[kept[j]],
            j,
            kept[j],
            head_cell_renderer,
        )
}

/// `columns` holds one column per field that is not skipped, in order.
pub open spec fn columns_of(
    columns: Seq<FieldSpec>,
    fields: Seq<TableDataField>,
    head_cell_renderer: Option<Seq<char>>,
) -> bool {
    columns_match(columns, fields, kept_indices(fields), head_cell_renderer)
}

/// `s` is the schema of the record type that `input` describes.
pub open spec fn schema_of(s: TableSchema, input: TableDataDeriveInput) -> bool {
    let fields = input.fields.unwrap()@;
    &&& s.ident@ == input.ident@
    &&& s.tag@ == given_or(opt_view(input.tag), "table"@)
    &&& s.row_renderer@ == given_or(opt_view(input.row_renderer), "DefaultTableRowRenderer"@)
    &&& s.row_class@ == given_or(opt_view(input.row_class), seq![])
    &&& s.head_row_class@ == given_or(opt_view(input.head_row_class), seq![])
    &&& s.dyn_row_classes == input.dyn_row_classes
    &&& s.field_count == fields.len()
    &&& columns_of(s.columns@, fields, opt_view(input.head_cell_renderer))
}

/// A schema whose columns point at declared fields, numbered from 0.
pub open spec fn schema_wf(s: TableSchema) -> bool {
    forall|j: int|
        0 <= j < s.columns@.len() ==> (#[trigger] s.columns@[j]).source_index < s.field_count
            && s.columns@[j].column_index == j
}

proof fn lemma_kept_bounds(fields: Seq<TableDataField>)
    ensures
        forall|j: int|
            0 <= j < kept_indices(fields).len() ==> 0 <= #[trigger] kept_indices(fields)[j]
                < fields.len(),
    decreases fields.len(),
{
    if fields.len() > 0 {
        let prefix = fields.drop_last();
        lemma_kept_bounds(prefix);
        assert forall|j: int| 0 <= j < kept_indices(fields).len() implies 0
            <= #[trigger] kept_indices(fields)[j] < fields.len() by {
            if j < kept_indices(prefix).len() {
                assert(kept_indices(fields)[j] == kept_indices(prefix)[j]);
            }
        }
    }
}

fn name_or(custom: &Option<String>, default: &str) -> (r: String)
    ensures
        r@ == given_or(opt_view(*custom), default@),
{
    match custom {
        Some(c) => c.clone(),
        None => String::from_str(default),
    }
}

/// Builds the column of field `f`.
fn make_column(
    f: &TableDataField,
    j: usize,
    src: usize,
    head_cell_renderer: &Option<String>,
) -> (c: FieldSpec)
    requires
        f.ident is Some,
        precision_valid(f.precision),
    ensures
        column_of(c, *f, j as int, src as int, opt_view(*head_cell_renderer)),
{
    let name = f.ident.as_ref().unwrap();
    let precision = match f.precision {
        Some(p) => Some(p as usize),
        None => None,
    };
    FieldSpec {
        name: name.clone(),
        title: resolve_title(&f.title, name.as_str()),
        head_class: f.head_class(),
        cell_class: f.cell_class(),
        precision,
        cell_renderer: name_or(&f.renderer, "DefaultTableCellRenderer"),
        head_renderer: name_or(head_cell_renderer, "DefaultTableHeaderRenderer"),
        column_index: j,
        source_index: src,
    }
}

/// Derives the table schema of a record type from its annotations.
pub fn derive(input: &TableDataDeriveInput) -> (r: Result<TableSchema, DeriveError>)
    ensures
        (input.fields is None || !all_named(input.fields.unwrap()@)) <==> (r matches Err(
            DeriveError::NotNamedRecord,
        )),
        (input.fields is Some && all_named(input.fields.unwrap()@) && !all_precisions_valid(
            input.fields.unwrap()@,
        )) <==> (r matches Err(DeriveError::InvalidPrecision)),
        r matches Ok(s) ==> schema_of(s, *input) && schema_wf(s),
{
    let fields = match &input.fields {
        Some(f) => f,
        None => {
            return Err(DeriveError::NotNamedRecord);
        },
    };
    assert(fields@ == input.fields.unwrap()@);
    let n = fields.len();
    let mut i: usize = 0;
    while i < n
        invariant
            input.fields is Some,
            fields@ == input.fields.unwrap()@,
            n == fields@.len(),
            i <= n,
            forall|k: int| 0 <= k < i ==> (#[trigger] fields@[k]).ident is Some,
        decreases n - i,
    {
        if fields[i].ident.is_none() {
            assert(!all_named(fields@));
            return Err(DeriveError::NotNamedRecord);
        }
        i = i + 1;
    }
    let mut i: usize = 0;
    while i < n
        invariant
            input.fields is Some,
            fields@ == input.fields.unwrap()@,
            n == fields@.len(),
            i <= n,
            all_named(fields@),
            forall|k: int| 0 <= k < i ==> precision_valid((#[trigger] fields@[k]).precision),
        decreases n - i,
    {
        match fields[i].precision {
            Some(p) => {
                if p < 0 || (p as u64) > (usize::MAX as u64) {
                    assert(!precision_valid(fields@[i as int].precision));
                    return Err(DeriveError::InvalidPrecision);
                }
            },
            None => {},
        }
        i = i + 1;
    }
    let mut columns: Vec<FieldSpec> = Vec::new();
    let mut i: usize = 0;
    while i < n
        invariant
            input.fields is Some,
            fields@ == input.fields.unwrap()@,
            n == fields@.len(),
            i <= n,
            all_named(fields@),
            all_precisions_valid(fields@),
            columns_match(
                columns@,
                fields@,
                kept_indices(fields@.take(i as int)),
                opt_view(input.head_cell_renderer),
            ),
        decreases n - i,
    {
        proof {
            let prefix = fields@.take(i as int + 1);
            assert(prefix.drop_last() =~= fields@.take(i as int));
            assert(prefix.last() == fields@[i as int]);
        }
        if !fields[i].skip {
            let j = columns.len();
            let c = make_column(&fields[i], j, i, &input.head_cell_renderer);
            columns.push(c);
        }
        i = i + 1;
    }
    proof {
        assert(fields@.take(n as int) =~= fields@);
        reveal_strlit("");
    }
    let schema = TableSchema {
        ident: input.ident.clone(),
        tag: name_or(&input.tag, "table"),
        row_renderer: name_or(&input.row_renderer, "DefaultTableRowRenderer"),
        row_class: name_or(&input.row_class, ""),
        head_row_class: name_or(&input.head_row_class, ""),
        dyn_row_classes: input.dyn_row_classes,
        field_count: n,
        columns,
    };
    proof {
        assert(schema.row_class@ == given_or(opt_view(input.row_class), seq![]));
        assert(schema.head_row_class@ == given_or(opt_view(input.head_row_class), seq![]));
        assert(schema_of(schema, *input));
        lemma_kept_bounds(fields@);
    }
    Ok(schema)
}

} // verus!
