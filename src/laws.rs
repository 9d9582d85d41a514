use vstd::prelude::*;

use crate::field::{opt_view, TableDataField};
use crate::schema::{column_of, kept_indices, schema_of, TableDataDeriveInput, TableSchema};
use crate::table::{cell_of, head_cell_of, renders, row_class_at, row_of, TableNode};
use crate::value::CellValue;

verus! {

/// The declared fields of a record type.
pub open spec fn fields_of(input: TableDataDeriveInput) -> Seq<TableDataField> {
    input.fields.unwrap()@
}

/// The fields that are not skipped, in declaration order.
pub open spec fn shown_fields(fields: Seq<TableDataField>) -> Seq<TableDataField> {
    fields.filter(|f: TableDataField| !f.skip)
}

/// The kept positions are the positions of the fields that are not skipped:
/// each is in range and not skipped, they increase, they are exactly as many
/// as those fields, and every such field's position is among them.
pub proof fn lemma_kept_indices(fields: Seq<TableDataField>)
    ensures
        kept_indices(fields).len() == shown_fields(fields).len(),
        forall|j: int|
            0 <= j < kept_indices(fields).len() ==> 0 <= #[trigger] kept_indices(fields)[j]
                < fields.len() && !fields[kept_indices(fields)[j]].skip
                && shown_fields(fields)[j] == fields[kept_indices(fields)[j]],
        forall|a: int, b: int|
            0 <= a < b < kept_indices(fields).len() ==> #[trigger] kept_indices(fields)[a]
                < #[trigger] kept_indices(fields)[b],
        forall|i: int|
            0 <= i < fields.len() && !(#[trigger] fields[i]).skip ==> exists|j: int|
                0 <= j < kept_indices(fields).len() && kept_indices(fields)[j] == i,
    decreases fields.len(),
{
    reveal(Seq::filter);
    if fields.len() > 0 {
        let prefix = fields.drop_last();
        lemma_kept_indices(prefix);
        let kp = kept_indices(prefix);
        let k = kept_indices(fields);
        assert(shown_fields(fields) == if fields.last().skip {
            shown_fields(prefix)
        } else {
            shown_fields(prefix).push(fields.last())
        });
        assert forall|j: int| 0 <= j < kp.len() implies #[trigger] k[j] == kp[j] by {}
        assert forall|i: int| 0 <= i < fields.len() && !(#[trigger] fields[i]).skip implies exists|
            j: int,
        | 0 <= j < k.len() && k[j] == i by {
            if i == fields.len() - 1 {
                assert(k[kp.len() as int] == i);
            } else {
                assert(prefix[i] == fields[i]);
                let j = choose|j: int| 0 <= j < kp.len() && kp[j] == i;
                assert(k[j] == i);
            }
        }
    }
}

/// A rendered table has one head cell per field that is not skipped and one
/// row per item, each row with one cell per such field; head cells and
/// cells follow the fields' declaration order.
pub proof fn table_shape(
    input: TableDataDeriveInput,
    schema: TableSchema,
    t: TableNode,
    class: Seq<char>,
    items: Seq<Vec<CellValue>>,
    row_classes: Seq<Vec<String>>,
)
    requires
        input.fields is Some,
        schema_of(schema, input),
        renders(t, schema, class, items, row_classes),
    ensures
        t.head_cells@.len() == shown_fields(fields_of(input)).len(),
        t.rows@.len() == items.len(),
        forall|i: int| 0 <= i < items.len() ==> (#[trigger] t.rows@[i]).cells@.len() == shown_fields(fields_of(input)).len(),
        forall|j: int|
            0 <= j < t.head_cells@.len() ==> (#[trigger] t.head_cells@[j]).props.field@
                == shown_fields(fields_of(input))[j].ident.unwrap()@,
        forall|i: int, j: int|
            0 <= i < items.len() && 0 <= j < shown_fields(fields_of(input)).len() ==> (
            #[trigger] t.rows@[i].cells@[j]).props.value@ == items[i]@[kept_indices(
                fields_of(input),
            )[j]]@,
{
    let input_fields = input.fields.unwrap()@;
    lemma_kept_indices(input_fields);
    assert forall|j: int| 0 <= j < t.head_cells@.len() implies (#[trigger] t.head_cells@[j]).props.field@
        == shown_fields(input_fields)[j].ident.unwrap()@ by {
        assert(head_cell_of(t.head_cells@[j], schema.columns@[j]));
        assert(column_of(
            schema.columns@[j],
            input_fields[kept_indices(input_fields)[j]],
            j,
            kept_indices(input_fields)[j],
            opt_view(input.head_cell_renderer),
        ));
    }
    assert forall|i: int| 0 <= i < items.len() implies (#[trigger] t.rows@[i]).cells@.len()
        == shown_fields(input_fields).len() by {
        assert(row_of(t.rows@[i], schema, i, &items[i], row_class_at(schema, row_classes, i)));
    }
    assert forall|i: int, j: int|
        0 <= i < items.len() && 0 <= j < shown_fields(input_fields).len() implies (
        #[trigger] t.rows@[i].cells@[j]).props.value@ == items[i]@[kept_indices(input_fields)[j]]@ by {
        assert(row_of(t.rows@[i], schema, i, &items[i], row_class_at(schema, row_classes, i)));
        assert(cell_of(t.rows@[i].cells@[j], schema.columns@[j], items[i]@));
        assert(column_of(
            schema.columns@[j],
            input_fields[kept_indices(input_fields)[j]],
            j,
            kept_indices(input_fields)[j],
            opt_view(input.head_cell_renderer),
        ));
    }
}

/// A skipped field has no column: every column comes from a field that is
/// not skipped, and no column comes from a skipped one. Columns are numbered
/// from 0 without gaps, and a body cell holds the value of its column's field.
pub proof fn skipped_fields_absent(
    input: TableDataDeriveInput,
    schema: TableSchema,
    t: TableNode,
    class: Seq<char>,
    items: Seq<Vec<CellValue>>,
    row_classes: Seq<Vec<String>>,
)
    requires
        input.fields is Some,
        schema_of(schema, input),
        renders(t, schema, class, items, row_classes),
    ensures
        forall|j: int|
            0 <= j < schema.columns@.len() ==> !fields_of(input)[(
            #[trigger] schema.columns@[j]).source_index as int].skip,
        forall|k: int, j: int|
            0 <= k < fields_of(input).len() && (#[trigger] fields_of(input)[k]).skip && 0 <= j
                < schema.columns@.len() ==> (#[trigger] schema.columns@[j]).source_index != k,
        forall|j: int|
            0 <= j < t.head_cells@.len() ==> (#[trigger] t.head_cells@[j]).props.column_index
                == j,
        forall|i: int, j: int|
            0 <= i < items.len() && 0 <= j < schema.columns@.len() ==> (
            #[trigger] t.rows@[i].cells@[j]).props.value@
                == items[i]@[schema.columns@[j].source_index as int]@,
{
    let fields = fields_of(input);
    let kept = kept_indices(fields);
    let hcr = opt_view(input.head_cell_renderer);
    lemma_kept_indices(fields);
    assert forall|j: int| 0 <= j < schema.columns@.len() implies (#[trigger] schema.columns@[j]).source_index
        == kept[j] && schema.columns@[j].column_index == j by {
        assert(column_of(schema.columns@[j], fields[kept[j]], j, kept[j], hcr));
    }
    assert forall|j: int| 0 <= j < t.head_cells@.len() implies (#[trigger] t.head_cells@[j]).props.column_index
        == j by {
        assert(head_cell_of(t.head_cells@[j], schema.columns@[j]));
    }
    assert forall|i: int, j: int|
        0 <= i < items.len() && 0 <= j < schema.columns@.len() implies (
        #[trigger] t.rows@[i].cells@[j]).props.value@
            == items[i]@[schema.columns@[j].source_index as int]@ by {
        assert(row_of(t.rows@[i], schema, i, &items[i], row_class_at(schema, row_classes, i)));
        assert(cell_of(t.rows@[i].cells@[j], schema.columns@[j], items[i]@));
    }
}

/// Two rendered tables hold the same text, numbers and items everywhere.
pub open spec fn same_table(a: TableNode, b: TableNode) -> bool {
    &&& a.tag@ == b.tag@
    &&& a.class@ == b.class@
    &&& a.head_row_class@ == b.head_row_class@
    &&& a.head_cells@.len() == b.head_cells@.len()
    &&& forall|j: int|
        0 <= j < a.head_cells@.len() ==> {
            let x = #[trigger] a.head_cells@[j];
            let y = b.head_cells@[j];
            &&& x.renderer@ == y.renderer@
            &&& x.props.class@ == y.props.class@
            &&& x.props.field@ == y.props.field@
            &&& x.props.column_index == y.props.column_index
            &&& x.props.children@ == y.props.children@
        }
    &&& a.rows@.len() == b.rows@.len()
    &&& forall|i: int|
        0 <= i < a.rows@.len() ==> {
            let x = #[trigger] a.rows@[i];
            let y = b.rows@[i];
            &&& x.renderer@ == y.renderer@
            &&& x.props.class@ == y.props.class@
            &&& x.props.is_head == y.props.is_head
            &&& x.props.index == y.props.index
            &&& x.props.item == y.props.item
            &&& x.cells@.len() == y.cells@.len()
            &&& forall|j: int|
                0 <= j < x.cells@.len() ==> {
                    let c = #[trigger] x.cells@[j];
                    let d = y.cells@[j];
                    &&& c.renderer@ == d.renderer@
                    &&& c.props.class@ == d.props.class@
                    &&& c.props.value@ == d.props.value@
                    &&& c.props.precision == d.props.precision
                }
        }
}

/// Rendering the same schema, class, items and row classes twice gives the
/// same table.
pub proof fn render_idempotent(
    schema: TableSchema,
    class: Seq<char>,
    items: Seq<Vec<CellValue>>,
    row_classes: Seq<Vec<String>>,
    a: TableNode,
    b: TableNode,
)
    requires
        renders(a, schema, class, items, row_classes),
        renders(b, schema, class, items, row_classes),
    ensures
        same_table(a, b),
{
    assert forall|j: int| 0 <= j < a.head_cells@.len() implies {
        let x = #[trigger] a.head_cells@[j];
        let y = b.head_cells@[j];
        &&& x.renderer@ == y.renderer@
        &&& x.props.class@ == y.props.class@
        &&& x.props.field@ == y.props.field@
        &&& x.props.column_index == y.props.column_index
        &&& x.props.children@ == y.props.children@
    } by {
        assert(head_cell_of(a.head_cells@[j], schema.columns@[j]));
        assert(head_cell_of(b.head_cells@[j], schema.columns@[j]));
    }
    assert forall|i: int| 0 <= i < a.rows@.len() implies {
        let x = #[trigger] a.rows@[i];
        let y = b.rows@[i];
        &&& x.renderer@ == y.renderer@
        &&& x.props.class@ == y.props.class@
        &&& x.props.is_head == y.props.is_head
        &&& x.props.index == y.props.index
        &&& x.props.item == y.props.item
        &&& x.cells@.len() == y.cells@.len()
        &&& forall|j: int|
            0 <= j < x.cells@.len() ==> {
                let c = #[trigger] x.cells@[j];
                let d = y.cells@[j];
                &&& c.renderer@ == d.renderer@
                &&& c.props.class@ == d.props.class@
                &&& c.props.value@ == d.props.value@
                &&& c.props.precision == d.props.precision
            }
    } by {
        assert(row_of(a.rows@[i], schema, i, &items[i], row_class_at(schema, row_classes, i)));
        assert(row_of(b.rows@[i], schema, i, &items[i], row_class_at(schema, row_classes, i)));
        assert forall|j: int| 0 <= j < a.rows@[i].cells@.len() implies {
            let c = #[trigger] a.rows@[i].cells@[j];
            let d = b.rows@[i].cells@[j];
            &&& c.renderer@ == d.renderer@
            &&& c.props.class@ == d.props.class@
            &&& c.props.value@ == d.props.value@
            &&& c.props.precision == d.props.precision
        } by {
            assert(cell_of(a.rows@[i].cells@[j], schema.columns@[j], items[i]@));
            assert(cell_of(b.rows@[i].cells@[j], schema.columns@[j], items[i]@));
        }
    }
}

} // verus!
