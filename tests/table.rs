use table_data::cell_renderers::{
    DefaultTableCellProps, DefaultTableCellRenderer, DefaultTableHeaderProps,
    DefaultTableHeaderRenderer,
};
use table_data::field::{compose_class, join_classes, TableDataField};
use table_data::row_renderers::{DefaultTableRowProps, DefaultTableRowRenderer};
use table_data::schema::{DeriveError, TableDataDeriveInput, TableSchema};
use table_data::table::{render_table, ClickTarget, TableEvent, TableNode};
use table_data::title::resolve_title;
use table_data::value::{digits_text, format_value, integer_to_text, CellValue};

fn field(name: &str) -> TableDataField {
    TableDataField {
        ident: Some(name.to_string()),
        skip: false,
        renderer: None,
        precision: None,
        class: None,
        cell_class: None,
        head_class: None,
        title: None,
    }
}

fn input(fields: Vec<TableDataField>) -> TableDataDeriveInput {
    TableDataDeriveInput {
        ident: "Hotel".to_string(),
        fields: Some(fields),
        tag: None,
        row_renderer: None,
        row_class: None,
        head_row_class: None,
        head_cell_renderer: None,
        dyn_row_classes: false,
    }
}

fn hotel_schema() -> TableSchema {
    let mut id = field("id");
    id.skip = true;
    let mut rating = field("rating");
    rating.title = Some("The Awesome Name".to_string());
    rating.precision = Some(2);
    let fields = vec![id, field("name"), field("cityName"), field("city"), rating];
    table_data::schema::derive(&input(fields)).unwrap()
}

fn hotel(id: i64, name: &str, city_name: &str, city: &str, rating: i64) -> Vec<CellValue> {
    vec![
        CellValue::Integer(id),
        CellValue::Text(name.to_string()),
        CellValue::Text(city_name.to_string()),
        CellValue::Text(city.to_string()),
        CellValue::Integer(rating),
    ]
}

fn hotels() -> Vec<Vec<CellValue>> {
    vec![
        hotel(1, "Grand", "Paris", "FR", 4),
        hotel(2, "Plaza", "Rome", "IT", 5),
        hotel(3, "Ritz", "Madrid", "ES", 3),
    ]
}

#[test]
fn table_has_one_head_cell_per_field_and_one_row_per_item() {
    let schema = hotel_schema();
    let items = hotels();
    let t = render_table(&schema, "table-auto", &items, &vec![]);
    assert_eq!(t.tag, "table");
    assert_eq!(t.class, "table-auto");
    assert_eq!(t.head_cells.len(), 4);
    assert_eq!(t.rows.len(), 3);
    let fields: Vec<&str> = t.head_cells.iter().map(|h| h.props.field.as_str()).collect();
    assert_eq!(fields, vec!["name", "cityName", "city", "rating"]);
    for (i, row) in t.rows.iter().enumerate() {
        assert_eq!(row.cells.len(), 4);
        assert_eq!(row.props.index, i);
        assert_eq!(row.props.children.len(), 4);
        assert_eq!(row.renderer, "DefaultTableRowRenderer");
        assert_eq!(row.cells[0].props.value, items[i][1]);
        assert_eq!(row.cells[3].props.value, items[i][4]);
    }
}

#[test]
fn empty_items_render_only_the_head_row() {
    let schema = hotel_schema();
    let items: Vec<Vec<CellValue>> = vec![];
    let t = render_table(&schema, "", &items, &vec![]);
    assert_eq!(t.head_cells.len(), 4);
    assert!(t.rows.is_empty());
}

#[test]
fn title_is_derived_from_field_name() {
    let schema = hotel_schema();
    assert_eq!(schema.columns[1].name, "cityName");
    assert_eq!(schema.columns[1].title, "City Name");
    assert_eq!(schema.columns[0].title, "Name");
}

#[test]
fn explicit_title_wins() {
    let schema = hotel_schema();
    assert_eq!(schema.columns[3].name, "rating");
    assert_eq!(schema.columns[3].title, "The Awesome Name");
    let items = hotels();
    let t = render_table(&schema, "", &items, &vec![]);
    assert_eq!(t.head_cells[3].props.children, "The Awesome Name");
}

#[test]
fn resolve_title_calls_title_case() {
    assert_eq!(resolve_title(&None, "city_name"), "City Name");
    assert_eq!(resolve_title(&None, ""), "");
    assert_eq!(resolve_title(&Some("Town".to_string()), "city_name"), "Town");
}

#[test]
fn shared_class_alone() {
    let mut f = field("rating");
    f.class = Some("text-end".to_string());
    assert_eq!(f.cell_class(), "text-end");
    assert_eq!(f.head_class(), "text-end");
}

#[test]
fn shared_class_then_cell_class() {
    let mut f = field("rating");
    f.class = Some("text-center".to_string());
    f.cell_class = Some("bold".to_string());
    assert_eq!(f.cell_class(), "text-center bold");
    assert_eq!(f.head_class(), "text-center");
}

#[test]
fn role_class_alone_and_no_class() {
    let mut f = field("rating");
    f.head_class = Some("underline".to_string());
    assert_eq!(f.head_class(), "underline");
    assert_eq!(f.cell_class(), "");
    assert_eq!(compose_class(&Some(" a ".to_string()), &Some(" b".to_string())), " a   b");
}

#[test]
fn column_classes_reach_the_cells() {
    let mut f = field("rating");
    f.class = Some("text-center".to_string());
    f.cell_class = Some("bold".to_string());
    f.head_class = Some("italic".to_string());
    let schema = table_data::schema::derive(&input(vec![f])).unwrap();
    let items = vec![vec![CellValue::Integer(7)]];
    let t = render_table(&schema, "", &items, &vec![]);
    assert_eq!(t.head_cells[0].props.class, "text-center italic");
    assert_eq!(t.rows[0].cells[0].props.class, "text-center bold");
}

#[test]
fn skipped_fields_take_no_column() {
    let mut b = field("b");
    b.skip = true;
    let mut d = field("d");
    d.skip = true;
    let schema = table_data::schema::derive(&input(vec![field("a"), b, field("c"), d, field("e")])).unwrap();
    assert_eq!(schema.field_count, 5);
    let names: Vec<&str> = schema.columns.iter().map(|c| c.name.as_str()).collect();
    assert_eq!(names, vec!["a", "c", "e"]);
    let indices: Vec<usize> = schema.columns.iter().map(|c| c.column_index).collect();
    assert_eq!(indices, vec![0, 1, 2]);
    let sources: Vec<usize> = schema.columns.iter().map(|c| c.source_index).collect();
    assert_eq!(sources, vec![0, 2, 4]);
}

#[test]
fn all_fields_skipped() {
    let mut a = field("a");
    a.skip = true;
    let schema = table_data::schema::derive(&input(vec![a])).unwrap();
    assert!(schema.columns.is_empty());
    let items = vec![vec![CellValue::Integer(1)]];
    let t = render_table(&schema, "", &items, &vec![]);
    assert!(t.head_cells.is_empty());
    assert_eq!(t.rows.len(), 1);
    assert!(t.rows[0].cells.is_empty());
}

#[test]
fn head_click_reports_column_and_field() {
    let schema = hotel_schema();
    let items = hotels();
    let t = render_table(&schema, "", &items, &vec![]);
    match t.click(ClickTarget::Head(2), "click") {
        Some(TableEvent::Head(e)) => {
            assert_eq!(e.column_index, 2);
            assert_eq!(e.field, "city");
            assert_eq!(e.event, "click");
        }
        _ => panic!("expected a head event"),
    }
    assert!(t.click(ClickTarget::Head(4), ()).is_none());
}

#[test]
fn row_click_reports_row_and_item() {
    let schema = hotel_schema();
    let items = hotels();
    let t = render_table(&schema, "", &items, &vec![]);
    match t.click(ClickTarget::Row(0), 7u8) {
        Some(TableEvent::Row(e)) => {
            assert_eq!(e.row_index, 0);
            assert!(std::ptr::eq(e.item, &items[0]));
            assert_eq!(e.event, 7u8);
        }
        _ => panic!("expected a row event"),
    }
    assert!(t.click(ClickTarget::Row(3), ()).is_none());
}

#[test]
fn precision_pads_fraction_digits() {
    let props = DefaultTableCellProps {
        class: "text-end".to_string(),
        value: CellValue::Integer(4),
        precision: Some(2),
    };
    let cell = DefaultTableCellRenderer(&props);
    assert_eq!(cell.text, "4.00");
    assert_eq!(cell.class, "text-end");
    let plain = DefaultTableCellProps { class: String::new(), value: CellValue::Integer(4), precision: None };
    assert_eq!(DefaultTableCellRenderer(&plain).text, "4");
}

#[test]
fn formatting_edge_cases() {
    assert_eq!(format_value(&CellValue::Integer(-12), Some(1)), "-12.0");
    assert_eq!(format_value(&CellValue::Integer(4), Some(0)), "4");
    assert_eq!(format_value(&CellValue::Text("abc".to_string()), Some(1)), "abc");
    assert_eq!(integer_to_text(i64::MIN), "-9223372036854775808");
    assert_eq!(integer_to_text(0), "0");
    assert_eq!(digits_text(u64::MAX), "18446744073709551615");
}

#[test]
fn precision_reaches_the_cells() {
    let schema = hotel_schema();
    let items = hotels();
    let t = render_table(&schema, "", &items, &vec![]);
    let cell = &t.rows[0].cells[3];
    assert_eq!(cell.props.precision, Some(2));
    assert_eq!(DefaultTableCellRenderer(&cell.props).text, "4.00");
    assert_eq!(DefaultTableCellRenderer(&t.rows[0].cells[1].props).text, "Paris");
}

fn same(a: &TableNode, b: &TableNode) -> bool {
    a.tag == b.tag
        && a.class == b.class
        && a.head_row_class == b.head_row_class
        && a.head_cells.len() == b.head_cells.len()
        && a.head_cells.iter().zip(b.head_cells.iter()).all(|(x, y)| {
            x.renderer == y.renderer
                && x.props.class == y.props.class
                && x.props.field == y.props.field
                && x.props.column_index == y.props.column_index
                && x.props.children == y.props.children
        })
        && a.rows.len() == b.rows.len()
        && a.rows.iter().zip(b.rows.iter()).all(|(x, y)| {
            x.renderer == y.renderer
                && x.props.class == y.props.class
                && x.props.index == y.props.index
                && x.props.item == y.props.item
                && x.cells.len() == y.cells.len()
                && x.cells.iter().zip(y.cells.iter()).all(|(c, d)| {
                    c.renderer == d.renderer
                        && c.props.class == d.props.class
                        && c.props.value == d.props.value
                        && c.props.precision == d.props.precision
                })
        })
}

#[test]
fn rendering_twice_gives_the_same_table() {
    let schema = hotel_schema();
    let items = hotels();
    let a = render_table(&schema, "striped", &items, &vec![]);
    let b = render_table(&schema, "striped", &items, &vec![]);
    assert!(same(&a, &b));
}

#[test]
fn non_record_is_refused() {
    let mut i = input(vec![]);
    i.fields = None;
    assert_eq!(table_data::schema::derive(&i).err(), Some(DeriveError::NotNamedRecord));
    let mut unnamed = field("x");
    unnamed.ident = None;
    let mut bad = field("y");
    bad.precision = Some(-1);
    assert_eq!(table_data::schema::derive(&input(vec![bad, unnamed])).err(), Some(DeriveError::NotNamedRecord));
}

#[test]
fn negative_precision_is_refused() {
    let mut bad = field("y");
    bad.precision = Some(-1);
    bad.skip = true;
    assert_eq!(table_data::schema::derive(&input(vec![field("x"), bad])).err(), Some(DeriveError::InvalidPrecision));
}

#[test]
fn defaults_and_custom_renderers() {
    let mut f = field("rating");
    f.renderer = Some("StarRenderer".to_string());
    let schema = table_data::schema::derive(&input(vec![f, field("name")])).unwrap();
    assert_eq!(schema.tag, "table");
    assert_eq!(schema.row_renderer, "DefaultTableRowRenderer");
    assert_eq!(schema.row_class, "");
    assert_eq!(schema.head_row_class, "");
    assert_eq!(schema.columns[0].cell_renderer, "StarRenderer");
    assert_eq!(schema.columns[1].cell_renderer, "DefaultTableCellRenderer");
    assert_eq!(schema.columns[0].head_renderer, "DefaultTableHeaderRenderer");

    let mut i = input(vec![field("name")]);
    i.tag = Some("div".to_string());
    i.row_renderer = Some("MyRow".to_string());
    i.row_class = Some("row".to_string());
    i.head_row_class = Some("head".to_string());
    i.head_cell_renderer = Some("MyHead".to_string());
    let schema = table_data::schema::derive(&i).unwrap();
    assert_eq!(schema.tag, "div");
    assert_eq!(schema.row_renderer, "MyRow");
    assert_eq!(schema.columns[0].head_renderer, "MyHead");
    let items = vec![vec![CellValue::Text("x".to_string())]];
    let t = render_table(&schema, "", &items, &vec![]);
    assert_eq!(t.tag, "div");
    assert_eq!(t.head_row_class, "head");
    assert_eq!(t.rows[0].props.class, "row");
    assert_eq!(t.rows[0].renderer, "MyRow");
    assert_eq!(t.head_cells[0].renderer, "MyHead");
}

#[test]
fn default_header_renderer_reports_its_column() {
    let props = DefaultTableHeaderProps {
        class: "h".to_string(),
        field: "city".to_string(),
        column_index: 2,
        children: "City".to_string(),
    };
    let th = DefaultTableHeaderRenderer(&props);
    assert_eq!(th.class, "h");
    assert_eq!(th.children, "City");
    let e = th.click(5i32);
    assert_eq!(e.column_index, 2);
    assert_eq!(e.field, "city");
    assert_eq!(e.event, 5);
}

#[test]
fn default_row_renderer_reports_its_item() {
    let item = hotel(9, "Inn", "Oslo", "NO", 2);
    let props = DefaultTableRowProps {
        class: "selected".to_string(),
        children: vec![],
        is_head: false,
        index: 4,
        item: Some(&item),
    };
    let tr = DefaultTableRowRenderer(&props);
    assert_eq!(tr.class, "selected");
    let e = tr.click("tap");
    assert_eq!(e.row_index, 4);
    assert!(std::ptr::eq(e.item, &item));
    assert_eq!(e.event, "tap");
}

#[test]
fn dynamic_row_classes_follow_the_row_class() {
    let mut i = input(vec![field("name")]);
    i.row_class = Some("row-class".to_string());
    i.dyn_row_classes = true;
    let schema = table_data::schema::derive(&i).unwrap();
    let items = vec![
        vec![CellValue::Text("a".to_string())],
        vec![CellValue::Text("b".to_string())],
    ];
    let classes = vec![vec![], vec!["bg-sky-200".to_string(), "bold".to_string()]];
    let t = render_table(&schema, "", &items, &classes);
    assert_eq!(t.rows[0].props.class, "row-class");
    assert_eq!(t.rows[1].props.class, "row-class bg-sky-200 bold");
}

#[test]
fn static_row_class_ignores_row_classes() {
    let mut i = input(vec![field("name")]);
    i.row_class = Some("row-class".to_string());
    let schema = table_data::schema::derive(&i).unwrap();
    let items = vec![vec![CellValue::Text("a".to_string())]];
    let classes = vec![vec!["bg-sky-200".to_string()]];
    let t = render_table(&schema, "", &items, &classes);
    assert_eq!(t.rows[0].props.class, "row-class");
}

#[test]
fn join_classes_edge_cases() {
    assert_eq!(join_classes(&String::new(), &vec![]), "");
    assert_eq!(join_classes(&String::new(), &vec!["a".to_string(), "b".to_string()]), "a b");
    assert_eq!(join_classes(&"x".to_string(), &vec!["a".to_string()]), "x a");
}

fn decimal(units: i64, scale: u32) -> CellValue {
    CellValue::Decimal { units, scale }
}

#[test]
fn decimal_natural_form_keeps_its_scale() {
    assert_eq!(format_value(&decimal(450, 2), None), "4.50");
    assert_eq!(format_value(&decimal(-5, 1), None), "-0.5");
    assert_eq!(format_value(&decimal(7, 3), None), "0.007");
    assert_eq!(format_value(&decimal(42, 0), None), "42");
}

#[test]
fn decimal_precision_pads_with_zeros() {
    assert_eq!(format_value(&decimal(4, 0), Some(2)), "4.00");
    assert_eq!(format_value(&decimal(45, 1), Some(3)), "4.500");
    assert_eq!(format_value(&decimal(45, 1), Some(1)), "4.5");
}

#[test]
fn decimal_precision_rounds_ties_to_even() {
    assert_eq!(format_value(&decimal(450, 2), Some(0)), "4");
    assert_eq!(format_value(&decimal(550, 2), Some(0)), "6");
    assert_eq!(format_value(&decimal(455, 2), Some(1)), "4.6");
    assert_eq!(format_value(&decimal(451, 2), Some(0)), "5");
    assert_eq!(format_value(&decimal(999, 2), Some(1)), "10.0");
    assert_eq!(format_value(&decimal(-4, 1), Some(0)), "-0");
}

#[test]
fn decimal_extreme_scales() {
    assert_eq!(format_value(&decimal(i64::MIN, 30), Some(2)), "-0.00");
    assert_eq!(format_value(&decimal(i64::MAX, 19), Some(0)), "1");
    assert_eq!(format_value(&decimal(i64::MAX, 0), Some(1)), "9223372036854775807.0");
}
