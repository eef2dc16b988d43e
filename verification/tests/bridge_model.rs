use adhesive::bridge::{
    export_inputs, import_result, ColumnExchangeEnvelope, ColumnType, FieldDescriptor, Int64Column,
};
use adhesive::JvmFunctionError;

fn column(values: &[i64]) -> Int64Column {
    Int64Column::new(values.iter().map(|v| Some(*v)).collect())
}

#[test]
fn export_then_import_is_a_lossless_round_trip() {
    let types = vec![ColumnType::Int64, ColumnType::Int64];
    let columns = vec![column(&[1, 2, 3, 4]), column(&[10, 20, 30, 40])];
    let envelope = export_inputs(&types, &columns).unwrap();

    assert_eq!(2, envelope.fields.len());
    assert_eq!("_c0", envelope.fields[0].name);
    assert_eq!("_c1", envelope.fields[1].name);
    assert!(envelope.fields.iter().all(|f| !f.nullable));
    assert!(envelope.fields.iter().all(|f| f.dtype == ColumnType::Int64));

    let imported = import_result(&envelope).unwrap();
    assert_eq!(2, imported.len());
    assert_eq!(columns[0].values, imported[0].values);
    assert_eq!(columns[1].values, imported[1].values);
}

#[test]
fn export_keeps_null_slots() {
    let types = vec![ColumnType::Int64];
    let columns = vec![Int64Column::new(vec![Some(7), None, Some(9)])];
    let envelope = export_inputs(&types, &columns).unwrap();
    let imported = import_result(&envelope).unwrap();
    assert_eq!(vec![Some(7), None, Some(9)], imported[0].values);
}

#[test]
fn export_of_no_columns_round_trips() {
    let envelope = export_inputs(&Vec::new(), &Vec::new()).unwrap();
    assert!(envelope.fields.is_empty());
    assert!(import_result(&envelope).unwrap().is_empty());
}

#[test]
fn export_rejects_count_mismatch() {
    let types = vec![ColumnType::Int64];
    let columns = vec![column(&[1]), column(&[2])];
    let result = export_inputs(&types, &columns);
    assert!(matches!(result, Err(JvmFunctionError::BufferImportError(_))));
}

#[test]
fn synthetic_names_carry_the_position_in_decimal() {
    let types = vec![ColumnType::Int64; 12];
    let columns: Vec<Int64Column> = (0..12).map(|i| column(&[i])).collect();
    let envelope = export_inputs(&types, &columns).unwrap();
    assert_eq!("_c9", envelope.fields[9].name);
    assert_eq!("_c10", envelope.fields[10].name);
    assert_eq!("_c11", envelope.fields[11].name);
}

#[test]
fn import_rejects_unsupported_declared_type() {
    let envelope = ColumnExchangeEnvelope {
        fields: vec![FieldDescriptor {
            name: "_c0".to_string(),
            dtype: ColumnType::Utf8,
            nullable: false,
        }],
        columns: vec![column(&[1])],
    };
    let result = import_result(&envelope);
    assert!(matches!(result, Err(JvmFunctionError::BufferImportError(_))));
}

#[test]
fn import_rejects_count_mismatch() {
    let envelope = ColumnExchangeEnvelope {
        fields: vec![FieldDescriptor {
            name: "_c0".to_string(),
            dtype: ColumnType::Int64,
            nullable: false,
        }],
        columns: Vec::new(),
    };
    let result = import_result(&envelope);
    assert!(matches!(result, Err(JvmFunctionError::BufferImportError(_))));
}
