use vstd::prelude::*;
use vstd::string::*;

use crate::cell_renderers::{DefaultTableCellProps, DefaultTableHeaderProps, TableHeadEvent};
use crate::row_renderers::{DefaultTableRowProps, TableRowEvent};
use crate::field::{join_classes, joined_classes, string_views};
use crate::schema::{schema_wf, FieldSpec, TableSchema};
use crate::value::{copy_value, CellValue};

verus! {

/// A head cell of a rendered table, with the renderer it goes to.
pub struct HeadCellNode {
    pub renderer: String,
    pub props: DefaultTableHeaderProps,
}

/// A body cell of a rendered table, with the renderer it goes to.
pub struct CellNode {
    pub renderer: String,
    pub props: DefaultTableCellProps,
}

/// A body row of a rendered table, with the renderer it goes to.
pub struct RowNode<'a> {
    pub renderer: String,
    pub props: DefaultTableRowProps<'a>,
    pub cells: Vec<CellNode>,
}

/// A rendered table: its root, one head row and one body row per item.
pub struct TableNode<'a> {
    pub tag: String,
    pub class: String,
    pub head_row_class: String,
    pub head_cells: Vec<HeadCellNode>,
    pub rows: Vec<RowNode<'a>>,
}

/// Where a click on a rendered table lands.
#[derive(Debug, Clone, Copy, PartialEq, Eq)]
pub enum ClickTarget {
    /// The head cell of a column.
    Head(usize),
    /// A body row.
    Row(usize),
}

/// What a click on a rendered table reports to the handlers.
pub enum TableEvent<'a, E> {
    Head(TableHeadEvent<E>),
    Row(TableRowEvent<'a, E>),
}

/// `h` is the head cell of column `c`.
pub open spec fn head_cell_of(h: HeadCellNode, c: FieldSpec) -> bool {
    &&& h.renderer@ == c.head_renderer@
    &&& h.props.class@ == c.head_class@
    &&& h.props.field@ == c.name@
    &&& h.props.column_index == c.column_index
    &&& h.props.children@ == c.title@
}

/// `n` is the cell of column `c` in the row of `item`.
pub open spec fn cell_of(n: CellNode, c: FieldSpec, item: Seq<CellValue>) -> bool {
    &&& n.renderer@ == c.cell_renderer@
    &&& n.props.class@ == c.cell_class@
    &&& n.props.value@ == item[c.source_index as int]@
    &&& n.props.precision == c.precision
}

/// The class of row `i`: the row class, followed by the row's own classes
/// when the schema asks for classes computed per row.
pub open spec fn row_class_at(schema: TableSchema, row_classes: Seq<Vec<String>>, i: int) -> Seq<char> {
    if schema.dyn_row_classes {
        joined_classes(schema.row_class@, string_views(row_classes[i]@))
    } else {
        schema.row_class@
    }
}

/// `r` is row `i` of the table of `schema`, showing `item`, with class `class`.
pub open spec fn row_of(r: RowNode, schema: TableSchema, i: int, item: &Vec<CellValue>, class: Seq<char>) -> bool {
    let columns = schema.columns@;
    &&& r.renderer@ == schema.row_renderer@
    &&& r.props.class@ == class
    &&& !r.props.is_head
    &&& r.props.index == i
    &&& r.props.item == Some(item)
    &&& r.cells@.len() == columns.len()
    &&& r.props.children@.len() == columns.len()
    &&& forall|j: int| 0 <= j < columns.len() ==> cell_of(#[trigger] r.cells@[j], columns[j], item@)
    &&& forall|j: int|
        0 <= j < columns.len() ==> (#[trigger] r.props.children@[j]).class@
            == r.cells@[j].props.class@ && r.props.children@[j].value@ == r.cells@[j].props.value@
            && r.props.children@[j].precision == r.cells@[j].props.precision
}

/// `t` is the table of `schema` with class `class` over `items`, the rows'
/// own classes taken from `row_classes`.
pub open spec fn renders(
    t: TableNode,
    schema: TableSchema,
    class: Seq<char>,
    items: Seq<Vec<CellValue>>,
    row_classes: Seq<Vec<String>>,
) -> bool {
    let columns = schema.columns@;
    &&& t.tag@ == schema.tag@
    &&& t.class@ == class
    &&& t.head_row_class@ == schema.head_row_class@
    &&& t.head_cells@.len() == columns.len()
    &&& forall|j: int| 0 <= j < columns.len() ==> head_cell_of(#[trigger] t.head_cells@[j], columns[j])
    &&& t.rows@.len() == items.len()
    &&& forall|i: int|
        0 <= i < items.len() ==> row_of(
            #[trigger] t.rows@[i],
            schema,
            i,
            &items[i],
            row_class_at(schema, row_classes, i),
        )
}

/// Each item holds one value per declared field.
pub open spec fn items_fit(schema: TableSchema, items: Seq<Vec<CellValue>>) -> bool {
    forall|i: int| 0 <= i < items.len() ==> (#[trigger] items[i])@.len() == schema.field_count
}

fn head_cell(c: &FieldSpec) -> (h: HeadCellNode)
    ensures
        head_cell_of(h, *c),
{
    HeadCellNode {
        renderer: c.head_renderer.clone(),
        props: DefaultTableHeaderProps {
            class: c.head_class.clone(),
            field: c.name.clone(),
            column_index: c.column_index,
            children: c.title.clone(),
        },
    }
}

fn body_row<'a>(schema: &TableSchema, i: usize, item: &'a Vec<CellValue>, class: String) -> (r:
    RowNode<'a>)
    requires
        schema_wf(*schema),
        item@.len() == schema.field_count,
    ensures
        row_of(r, *schema, i as int, item, class@),
{
    let columns = &schema.columns;
    let n = columns.len();
    let mut cells: Vec<CellNode> = Vec::new();
    let mut children: Vec<DefaultTableCellProps> = Vec::new();
    let mut j: usize = 0;
    while j < n
        invariant
            n == columns@.len(),
            columns == schema.columns,
            schema_wf(*schema),
            item@.len() == schema.field_count,
            j <= n,
            cells@.len() == j,
            children@.len() == j,
            forall|k: int| 0 <= k < j ==> cell_of(#[trigger] cells@[k], columns@[k], item@),
            forall|k: int|
                0 <= k < j ==> (#[trigger] children@[k]).class@ == cells@[k].props.class@
                    && children@[k].value@ == cells@[k].props.value@
                    && children@[k].precision == cells@[k].props.precision,
        decreases n - j,
    {
        let c = &columns[j];
        assert(c.source_index < schema.field_count);
        let props = DefaultTableCellProps {
            class: c.cell_class.clone(),
            value: copy_value(&item[c.source_index]),
            precision: c.precision,
        };
        children.push(props.copy());
        cells.push(CellNode { renderer: c.cell_renderer.clone(), props });
        j = j + 1;
    }
    RowNode {
        renderer: schema.row_renderer.clone(),
        props: DefaultTableRowProps {
            class,
            children,
            is_head: false,
            index: i,
            item: Some(item),
        },
        cells,
    }
}

/// Renders the table of `schema` over `items`: one head cell per column and
/// one row per item, each with one cell per column, in order.
/// Where the schema asks for classes computed per row, `row_classes` holds
/// the classes of each row, which follow the row class.
pub fn render_table<'a>(
    schema: &TableSchema,
    class: &str,
    items: &'a Vec<Vec<CellValue>>,
    row_classes: &Vec<Vec<String>>,
) -> (t: TableNode<'a>)
    requires
        schema_wf(*schema),
        items_fit(*schema, items@),
        schema.dyn_row_classes ==> row_classes@.len() == items@.len(),
    ensures
        renders(t, *schema, class@, items@, row_classes@),
{
    let columns = &schema.columns;
    let mut head_cells: Vec<HeadCellNode> = Vec::new();
    let mut j: usize = 0;
    while j < columns.len()
        invariant
            columns == schema.columns,
            j <= columns@.len(),
            head_cells@.len() == j,
            forall|k: int| 0 <= k < j ==> head_cell_of(#[trigger] head_cells@[k], columns@[k]),
        decreases columns@.len() - j,
    {
        head_cells.push(head_cell(&columns[j]));
        j = j + 1;
    }
    let mut rows: Vec<RowNode<'a>> = Vec::new();
    let mut i: usize = 0;
    while i < items.len()
        invariant
            schema_wf(*schema),
            items_fit(*schema, items@),
            i <= items@.len(),
            schema.dyn_row_classes ==> row_classes@.len() == items@.len(),
            rows@.len() == i,
            forall|k: int|
                0 <= k < i ==> row_of(
                    #[trigger] rows@[k],
                    *schema,
                    k,
                    &items@[k],
                    row_class_at(*schema, row_classes@, k),
                ),
        decreases items@.len() - i,
    {
        let row_class = if schema.dyn_row_classes {
            join_classes(&schema.row_class, &row_classes[i])
        } else {
            schema.row_class.clone()
        };
        let row = body_row(schema, i, &items[i], row_class);
        rows.push(row);
        i = i + 1;
    }
    TableNode {
        tag: schema.tag.clone(),
        class: String::from_str(class),
        head_row_class: schema.head_row_class.clone(),
        head_cells,
        rows,
    }
}

/// What a click on `target` reports, given the rendered table `t`.
pub open spec fn click_reports<'a, E>(
    t: TableNode<'a>,
    target: ClickTarget,
    event: E,
    r: Option<TableEvent<'a, E>>,
) -> bool {
    match target {
        ClickTarget::Head(j) => if j < t.head_cells@.len() {
            let props = t.head_cells@[j as int].props;
            r matches Some(TableEvent::Head(h)) && h.column_index == props.column_index
                && h.field@ == props.field@ && h.event == event
        } else {
            r is None
        },
        ClickTarget::Row(i) => if i < t.rows@.len() {
            let props = t.rows@[i as int].props;
            r matches Some(TableEvent::Row(e)) && e.row_index == props.index && e.item
                == props.item.unwrap() && e.event == event
        } else {
            r is None
        },
    }
}

impl<'a> TableNode<'a> {
    /// Routes a click to the one handler it concerns: a head cell reports its
    /// column and field, a body row its index and item. A click outside the
    /// table reports nothing.
    pub fn click<E>(&self, target: ClickTarget, event: E) -> (r: Option<TableEvent<'a, E>>)
        requires
            forall|i: int|
                0 <= i < self.rows@.len() ==> (#[trigger] self.rows@[i]).props.item is Some,
        ensures
            click_reports(*self, target, event, r),
    {
        match target {
            ClickTarget::Head(j) => {
                if j < self.head_cells.len() {
                    let props = &self.head_cells[j].props;
                    Some(
                        TableEvent::Head(
                            TableHeadEvent {
                                event,
                                column_index: props.column_index,
                                field: props.field.clone(),
                            },
                        ),
                    )
                } else {
                    None
                }
            },
            ClickTarget::Row(i) => {
                if i < self.rows.len() {
                    let props = &self.rows[i].props;
                    Some(
                        TableEvent::Row(
                            TableRowEvent { row_index: props.index, item: props.item.unwrap(), event },
                        ),
                    )
                } else {
                    None
                }
            },
        }
    }
}

/// Every row of a rendered table is bound to its item.
pub proof fn lemma_rows_bound(
    t: TableNode,
    schema: TableSchema,
    class: Seq<char>,
    items: Seq<Vec<CellValue>>,
    row_classes: Seq<Vec<String>>,
)
    requires
        renders(t, schema, class, items, row_classes),
    ensures
        forall|i: int| 0 <= i < t.rows@.len() ==> (#[trigger] t.rows@[i]).props.item is Some,
{
    assert forall|i: int| 0 <= i < t.rows@.len() implies (#[trigger] t.rows@[i]).props.item is Some by {
        assert(row_of(t.rows@[i], schema, i, &items[i], row_class_at(schema, row_classes, i)));
    }
}

} // verus!
