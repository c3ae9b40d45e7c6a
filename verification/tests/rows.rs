use dictionary_api::rows::{BigQueryWrapper, Field, Row, RowSlot, VType};

fn wrapper() -> BigQueryWrapper<()> {
    BigQueryWrapper { client: (), project_id: "project".to_string() }
}

fn field(name: Option<&str>, fields: Option<Vec<Field>>) -> Field {
    Field { name: name.map(|s| s.to_string()), fields }
}

fn cell(v: &str) -> Row {
    Row { v: Some(VType::Str(v.to_string())), f: None, name: None }
}

fn schema() -> Field {
    field(
        None,
        Some(vec![
            field(Some("word"), None),
            field(Some("meanings"), Some(vec![field(Some("definition"), None)])),
        ]),
    )
}

fn result_row() -> Row {
    let meanings = Row {
        v: Some(VType::Arr(vec![cell("a fruit"), cell("extra")])),
        f: None,
        name: None,
    };
    Row { v: None, f: Some(VType::Arr(vec![cell("apple"), meanings])), name: None }
}

#[test]
fn labels_nested_cells_with_the_schema() {
    let mut row = result_row();
    wrapper().map_to_schema2(&mut row, &schema());
    assert_eq!(row.name, None);
    let cols = match &row.f {
        Some(VType::Arr(c)) => c,
        _ => panic!("f lost its list"),
    };
    assert_eq!(cols.len(), 2);
    assert_eq!(cols[0].name.as_deref(), Some("word"));
    assert_eq!(cols[1].name.as_deref(), Some("meanings"));
    let inner = match &cols[1].v {
        Some(VType::Arr(c)) => c,
        _ => panic!("v lost its list"),
    };
    assert_eq!(inner.len(), 2);
    assert_eq!(inner[0].name.as_deref(), Some("definition"));
    assert_eq!(inner[1].name, None);
    match &inner[1].v {
        Some(VType::Str(s)) => assert_eq!(s, "extra"),
        _ => panic!("value changed"),
    }
}

#[test]
fn scalar_cell_takes_only_the_name() {
    let mut row = cell("x");
    wrapper().map_to_schema2(&mut row, &field(Some("col"), Some(vec![field(Some("n"), None)])));
    assert_eq!(row.name.as_deref(), Some("col"));
    assert_eq!(format!("{:?}", row.v), format!("{:?}", Some(VType::Str("x".to_string()))));
}

#[test]
fn labelling_twice_is_labelling_once() {
    let mut once = result_row();
    wrapper().map_to_schema2(&mut once, &schema());
    let mut twice = result_row();
    wrapper().map_to_schema2(&mut twice, &schema());
    wrapper().map_to_schema2(&mut twice, &schema());
    assert_eq!(format!("{:?}", once), format!("{:?}", twice));
}

#[test]
fn label_rows_labels_each_row() {
    let rows = vec![result_row(), result_row(), cell("z")];
    let out = wrapper().label_rows(rows, &schema());
    assert_eq!(out.len(), 3);
    let mut expected = result_row();
    wrapper().map_to_schema2(&mut expected, &schema());
    assert_eq!(format!("{:?}", out[0]), format!("{:?}", expected));
    assert_eq!(format!("{:?}", out[1]), format!("{:?}", expected));
    assert_eq!(out[2].name, None);
}

#[test]
fn entries_of_cells() {
    let mut named = cell("v");
    named.name = Some("n".to_string());
    assert_eq!(named.serialized_entries(), vec![RowSlot::Value]);
    let record = Row { v: None, f: Some(VType::Arr(vec![])), name: Some("r".to_string()) };
    assert_eq!(record.serialized_entries(), vec![RowSlot::Record]);
    let both = Row {
        v: Some(VType::Str("s".to_string())),
        f: Some(VType::Arr(vec![])),
        name: Some("b".to_string()),
    };
    assert_eq!(both.serialized_entries(), vec![RowSlot::Value, RowSlot::Record]);
    let text_f = Row { v: None, f: Some(VType::Str("t".to_string())), name: Some("t".to_string()) };
    assert_eq!(text_f.serialized_entries(), vec![]);
    assert_eq!(cell("unnamed").serialized_entries(), vec![]);
}
