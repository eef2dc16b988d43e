use adhesive::bridge::{import_result_column, ColumnType, Int64Column};
use adhesive::jvm::JvmFunction;
use adhesive::JvmFunctionError;
use datafusion::arrow::array::{make_array, Array, Int64Array, StringArray, StructArray};

#[test]
fn create_arrow_data_assembles_one_struct_of_children() {
    let types = vec![ColumnType::Int64, ColumnType::Int64];
    let columns = vec![
        Int64Column::new(vec![Some(100), Some(200), Some(300)]),
        Int64Column::new(vec![Some(1001), Some(2002), Some(3003)]),
    ];
    let data = JvmFunction::create_arrow_data(&types, &columns).unwrap();

    let array = make_array(data);
    let strukt = array.as_any().downcast_ref::<StructArray>().unwrap();
    assert_eq!(2, strukt.num_columns());
    assert_eq!("_c0", strukt.fields()[0].name());
    assert_eq!("_c1", strukt.fields()[1].name());
    assert!(!strukt.fields()[0].is_nullable());

    let first = strukt.column(0).as_any().downcast_ref::<Int64Array>().unwrap();
    assert_eq!(vec![100, 200, 300], first.iter().map(|v| v.unwrap()).collect::<Vec<_>>());
    let second = strukt.column(1).as_any().downcast_ref::<Int64Array>().unwrap();
    assert_eq!(vec![1001, 2002, 3003], second.iter().map(|v| v.unwrap()).collect::<Vec<_>>());
}

#[test]
fn create_arrow_data_accepts_no_arguments() {
    let data = JvmFunction::create_arrow_data(&Vec::new(), &Vec::new()).unwrap();
    let array = make_array(data);
    let strukt = array.as_any().downcast_ref::<StructArray>().unwrap();
    assert_eq!(0, strukt.num_columns());
}

#[test]
fn create_arrow_data_rejects_null_slots() {
    // the synthetic fields are non-nullable, so a null slot fails validation
    let types = vec![ColumnType::Int64];
    let columns = vec![Int64Column::new(vec![Some(1), None])];
    let result = JvmFunction::create_arrow_data(&types, &columns);
    assert!(matches!(result, Err(JvmFunctionError::BufferImportError(_))));
}

#[test]
fn create_arrow_data_rejects_count_mismatch() {
    let types = vec![ColumnType::Int64];
    let columns = vec![
        Int64Column::new(vec![Some(1)]),
        Int64Column::new(vec![Some(2)]),
    ];
    let result = JvmFunction::create_arrow_data(&types, &columns);
    assert!(matches!(result, Err(JvmFunctionError::BufferImportError(_))));
}

#[test]
fn import_result_column_reads_integer_buffers_back() {
    let data = Int64Array::from(vec![Some(10), None, Some(90), Some(160)]).to_data();
    let column = import_result_column(&data).unwrap();
    assert_eq!(vec![Some(10), None, Some(90), Some(160)], column.values);
}

#[test]
fn import_result_column_rejects_other_element_types() {
    let data = StringArray::from(vec![Some("a"), Some("b")]).to_data();
    let result = import_result_column(&data);
    assert!(matches!(result, Err(JvmFunctionError::BufferImportError(_))));
}
