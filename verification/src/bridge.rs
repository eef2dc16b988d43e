use vstd::prelude::*;

use crate::JvmFunctionError;
use datafusion::arrow::array::{make_array, Array, ArrayData, ArrayDataBuilder, Int64Array};
use datafusion::arrow::datatypes::{DataType, Field, Fields};

verus! {

#[verifier::external_type_specification]
#[verifier::external_body]
pub struct ExArrayData(ArrayData);

/// The element types a column of the exchange model can declare. The bridge
/// only supports 64-bit integer data on the invocation path; the other
/// variants exist so that a declaration outside the supported set can be
/// named and rejected.
#[derive(Clone, Copy, PartialEq, Eq, Structural, Debug)]
pub enum ColumnType {
    Int64,
    Int32,
    Utf8,
    Boolean,
}

/// A column of 64-bit integers, with one optional value per slot. `None`
/// stands for a null slot.
pub struct Int64Column {
    pub values: Vec<Option<i64>>,
}

impl Int64Column {
    pub fn new(values: Vec<Option<i64>>) -> (r: Int64Column)
        ensures
            r.values@ == values@,
    {
        Int64Column { values }
    }
}

/// One field of the synthetic struct column: its name, element type and
/// nullability, as the schema descriptor declares them.
pub struct FieldDescriptor {
    pub name: String,
    pub dtype: ColumnType,
    pub nullable: bool,
}

/// The transient (array, schema) pair exchanged across the boundary for one
/// call, modelled as the struct-typed column it carries: one field
/// descriptor and one child column per argument position.
pub struct ColumnExchangeEnvelope {
    pub fields: Vec<FieldDescriptor>,
    pub columns: Vec<Int64Column>,
}

// ---------------------------------------------------------------------------
// Synthetic field names: `_c0`, `_c1`, ...
// ---------------------------------------------------------------------------

pub open spec fn digit_char(d: int) -> char {
    if d == 0 {
        '0'
    } else if d == 1 {
        '1'
    } else if d == 2 {
        '2'
    } else if d == 3 {
        '3'
    } else if d == 4 {
        '4'
    } else if d == 5 {
        '5'
    } else if d == 6 {
        '6'
    } else if d == 7 {
        '7'
    } else if d == 8 {
        '8'
    } else {
        '9'
    }
}

/// The decimal digits of `n`, most significant first.
pub open spec fn spec_decimal(n: nat) -> Seq<char>
    decreases n,
{
    if n < 10 {
        seq![digit_char(n as int)]
    } else {
        spec_decimal(n / 10) + seq![digit_char((n % 10) as int)]
    }
}

/// The name given to the synthetic field at position `i`.
pub open spec fn synthetic_field_name(i: int) -> Seq<char> {
    "_c"@ + spec_decimal(i as nat)
}

fn digit_str(d: usize) -> (r: &'static str)
    requires
        d < 10,
    ensures
        r@ == seq![digit_char(d as int)],
{
    proof {
        reveal_strlit("0");
        reveal_strlit("1");
        reveal_strlit("2");
        reveal_strlit("3");
        reveal_strlit("4");
        reveal_strlit("5");
        reveal_strlit("6");
        reveal_strlit("7");
        reveal_strlit("8");
        reveal_strlit("9");
    }
    let r = match d {
        0 => "0",
        1 => "1",
        2 => "2",
        3 => "3",
        4 => "4",
        5 => "5",
        6 => "6",
        7 => "7",
        8 => "8",
        _ => "9",
    };
    proof {
        assert(r@ =~= seq![digit_char(d as int)]);
    }
    r
}

fn decimal_string(n: usize) -> (r: String)
    ensures
        r@ == spec_decimal(n as nat),
    decreases n,
{
    if n < 10 {
        digit_str(n).to_owned()
    } else {
        let mut r = decimal_string(n / 10);
        r.append(digit_str(n % 10));
        r
    }
}

fn synthetic_name(i: usize) -> (r: String)
    ensures
        r@ == synthetic_field_name(i as int),
{
    let mut r = "_c".to_owned();
    r.append(decimal_string(i).as_str());
    r
}

// ---------------------------------------------------------------------------
// Export and import of the exchange envelope.
// ---------------------------------------------------------------------------

/// The shape `export_inputs` gives the envelope: one synthetic, non-nullable
/// field per argument position carrying the declared type, and the argument
/// columns as the children, unchanged.
pub open spec fn export_shape(
    env: ColumnExchangeEnvelope,
    types: Seq<ColumnType>,
    cols: Seq<Int64Column>,
) -> bool {
    &&& env.fields@.len() == types.len()
    &&& forall|i: int|
        0 <= i < types.len() ==> (#[trigger] env.fields@[i]).name@ == synthetic_field_name(i)
            && env.fields@[i].dtype == types[i] && !env.fields@[i].nullable
    &&& env.columns@.len() == cols.len()
    &&& forall|i: int| 0 <= i < cols.len() ==> (#[trigger] env.columns@[i]).values@
        == cols[i].values@
}

/// An envelope `import_result` accepts: descriptor and data agree in count
/// and every declared element type is the supported 64-bit integer type.
pub open spec fn envelope_well_formed(env: ColumnExchangeEnvelope) -> bool {
    &&& env.fields@.len() == env.columns@.len()
    &&& forall|i: int| 0 <= i < env.fields@.len() ==> (#[trigger] env.fields@[i]).dtype
        is Int64
}

fn copy_values(v: &Vec<Option<i64>>) -> (r: Vec<Option<i64>>)
    ensures
        r@ == v@,
{
    let mut r: Vec<Option<i64>> = Vec::new();
    let mut i: usize = 0;
    while i < v.len()
        invariant
            i <= v@.len(),
            r@ == v@.subrange(0, i as int),
        decreases v@.len() - i,
    {
        r.push(v[i]);
        proof {
            assert(v@.subrange(0, i + 1) =~= v@.subrange(0, i as int) + seq![v@[i as int]]);
        }
        i = i + 1;
    }
    proof {
        assert(v@.subrange(0, v@.len() as int) =~= v@);
    }
    r
}

/// Assembles the argument columns as the children of one synthetic
/// struct-typed column: one non-nullable field named `_c<position>` per
/// argument. Fails when the declared types and the columns disagree in
/// count.
pub fn export_inputs(argument_types: &Vec<ColumnType>, columns: &Vec<Int64Column>) -> (r: Result<
    ColumnExchangeEnvelope,
    JvmFunctionError,
>)
    ensures
        r is Ok <==> argument_types@.len() == columns@.len(),
        r matches Ok(env) ==> export_shape(env, argument_types@, columns@),
        r matches Err(e) ==> e is BufferImportError,
{
    if argument_types.len() != columns.len() {
        return Err(
            JvmFunctionError::BufferImportError(
                "argument types and argument columns differ in count".to_owned(),
            ),
        );
    }
    let n = argument_types.len();
    let mut fields: Vec<FieldDescriptor> = Vec::new();
    let mut children: Vec<Int64Column> = Vec::new();
    let mut i: usize = 0;
    while i < n
        invariant
            n == argument_types@.len(),
            n == columns@.len(),
            i <= n,
            fields@.len() == i,
            children@.len() == i,
            forall|t: int|
                0 <= t < i ==> (#[trigger] fields@[t]).name@ == synthetic_field_name(t)
                    && fields@[t].dtype == argument_types@[t] && !fields@[t].nullable,
            forall|t: int| 0 <= t < i ==> (#[trigger] children@[t]).values@
                == columns@[t].values@,
        decreases n - i,
    {
        let name = synthetic_name(i);
        fields.push(FieldDescriptor { name, dtype: argument_types[i], nullable: false });
        children.push(Int64Column { values: copy_values(&columns[i].values) });
        i = i + 1;
    }
    Ok(ColumnExchangeEnvelope { fields, columns: children })
}

/// Reconstructs the columns carried by an envelope. Fails with
/// `BufferImportError` when the descriptors are inconsistent with the data
/// or declare a type outside the supported set.
pub fn import_result(env: &ColumnExchangeEnvelope) -> (r: Result<Vec<Int64Column>, JvmFunctionError>)
    ensures
        r is Ok <==> envelope_well_formed(*env),
        r matches Ok(cols) ==> cols@.len() == env.columns@.len() && forall|i: int|
            0 <= i < cols@.len() ==> (#[trigger] cols@[i]).values@ == env.columns@[i].values@,
        r matches Err(e) ==> e is BufferImportError,
{
    if env.fields.len() != env.columns.len() {
        return Err(
            JvmFunctionError::BufferImportError(
                "schema descriptor and array disagree in column count".to_owned(),
            ),
        );
    }
    let n = env.fields.len();
    let mut cols: Vec<Int64Column> = Vec::new();
    let mut i: usize = 0;
    while i < n
        invariant
            n == env.fields@.len(),
            n == env.columns@.len(),
            i <= n,
            cols@.len() == i,
            forall|t: int| 0 <= t < i ==> (#[trigger] env.fields@[t]).dtype is Int64,
            forall|t: int| 0 <= t < i ==> (#[trigger] cols@[t]).values@ == env.columns@[t].values@,
        decreases n - i,
    {
        match env.fields[i].dtype {
            ColumnType::Int64 => {},
            _ => {
                return Err(
                    JvmFunctionError::BufferImportError(
                        "a column descriptor declares an unsupported element type".to_owned(),
                    ),
                );
            },
        }
        cols.push(Int64Column { values: copy_values(&env.columns[i].values) });
        i = i + 1;
    }
    Ok(cols)
}

// ---------------------------------------------------------------------------
// The boundary form of the envelope. The assembled buffers are opaque; what
// a 64-bit integer buffer holds is named, so that the import path can state
// exactly what it reconstructs.
// ---------------------------------------------------------------------------

/// Whether an opaque array holds a column of 64-bit integers.
pub uninterp spec fn arrow_is_int64(d: ArrayData) -> bool;

/// The values each child column of an opaque struct-typed array holds, one
/// sequence of optional values per child of the 64-bit integer type.
pub uninterp spec fn arrow_struct_children(d: ArrayData) -> Seq<Seq<Option<i64>>>;

/// The values an opaque 64-bit integer array holds, one optional value per
/// slot.
pub uninterp spec fn arrow_int64_values(d: ArrayData) -> Seq<Option<i64>>;

/// The inputs on which the boundary form is owed: as many columns as
/// declared types, every type the supported 64-bit integer type, every
/// column of the same length, and no null slot (the synthetic fields are
/// declared non-nullable, so a null slot is rejected by validation).
pub open spec fn boundary_exportable(types: Seq<ColumnType>, cols: Seq<Int64Column>) -> bool {
    &&& types.len() == cols.len()
    &&& forall|i: int| 0 <= i < types.len() ==> (#[trigger] types[i]) is Int64
    &&& forall|i: int| 0 <= i < cols.len() ==> (#[trigger] cols[i]).values@.len()
        == column_rows(cols)
    &&& forall|i: int, j: int|
        0 <= i < cols.len() && 0 <= j < cols[i].values@.len() ==> (#[trigger] cols[i].values@[j])
            is Some
}

/// The row count of a set of columns: the first column's length.
pub open spec fn column_rows(cols: Seq<Int64Column>) -> nat {
    if cols.len() == 0 {
        0
    } else {
        cols[0].values@.len()
    }
}

/// Relies on `Field`, `ArrayDataBuilder` and `Int64Array` of the columnar
/// library: assembles the envelope's fields and child columns into one
/// struct-typed array of `rows` rows, exactly as the descriptors state
/// them. Validation accepts the construction whenever every declared field
/// is the 64-bit integer type, every child has `rows` values and, the
/// fields being non-nullable, no child holds a null slot; otherwise it
/// fails.
#[verifier::external_body]
pub(crate) fn envelope_to_arrow(envelope: &ColumnExchangeEnvelope, rows: usize) -> (r: Result<
    ArrayData,
    JvmFunctionError,
>)
    ensures
        r matches Err(e) ==> e is BufferImportError,
        r matches Ok(d) ==> arrow_struct_children(d) == envelope.columns@.map_values(
            |c: Int64Column| c.values@,
        ),
        (envelope.fields@.len() == envelope.columns@.len() && (forall|i: int|
            0 <= i < envelope.fields@.len() ==> (#[trigger] envelope.fields@[i]).dtype is Int64)
            && (forall|i: int|
            0 <= i < envelope.columns@.len() ==> (#[trigger] envelope.columns@[i]).values@.len()
                == rows) && (forall|i: int, j: int|
            0 <= i < envelope.columns@.len() && 0 <= j < envelope.columns@[i].values@.len() ==> (
            #[trigger] envelope.columns@[i].values@[j]) is Some)) ==> r is Ok,
{
    let fields: Vec<Field> = envelope.fields.iter().map(|f| {
        let dtype = match f.dtype {
            ColumnType::Int64 => DataType::Int64,
            ColumnType::Int32 => DataType::Int32,
            ColumnType::Utf8 => DataType::Utf8,
            ColumnType::Boolean => DataType::Boolean,
        };
        Field::new(f.name.clone(), dtype, f.nullable)
    }).collect();
    let builder = envelope.columns.iter().fold(
        ArrayDataBuilder::new(DataType::Struct(Fields::from(fields))).len(rows),
        |b, c| b.add_child_data(Int64Array::from(c.values.clone()).to_data()),
    );
    builder.build().map_err(|e| JvmFunctionError::BufferImportError(e.to_string()))
}

/// Relies on `make_array` and `Int64Array` of the columnar library: reads an
/// opaque array back as a column of 64-bit integers, or reports that the
/// array is not such a column.
#[verifier::external_body]
fn as_int64_values(data: &ArrayData) -> (r: Option<Vec<Option<i64>>>)
    ensures
        r is Some <==> arrow_is_int64(*data),
        r matches Some(v) ==> v@ == arrow_int64_values(*data),
{
    let array = make_array(data.clone());
    array.as_any().downcast_ref::<Int64Array>().map(|ints| ints.iter().collect())
}

/// Reconstructs the single result column from the output half of a boundary
/// call. Fails with `BufferImportError` when the returned descriptors do
/// not describe a column of the supported 64-bit integer type.
pub fn import_result_column(data: &ArrayData) -> (r: Result<Int64Column, JvmFunctionError>)
    ensures
        r is Ok <==> arrow_is_int64(*data),
        r matches Ok(c) ==> c.values@ == arrow_int64_values(*data),
        r matches Err(e) ==> e is BufferImportError,
{
    match as_int64_values(data) {
        Some(values) => Ok(Int64Column { values }),
        None => Err(
            JvmFunctionError::BufferImportError(
                "the result descriptors do not describe a supported integer column".to_owned(),
            ),
        ),
    }
}

/// Exporting argument columns and importing the same envelope back, without
/// crossing the boundary, loses nothing: for any argument count, an envelope
/// with the export shape over 64-bit integer argument types is well formed
/// for import, and the imported columns are the original argument columns,
/// value for value.
pub proof fn lemma_export_import_round_trip(
    env: ColumnExchangeEnvelope,
    types: Seq<ColumnType>,
    cols: Seq<Int64Column>,
)
    requires
        types.len() == cols.len(),
        export_shape(env, types, cols),
        forall|i: int| 0 <= i < types.len() ==> (#[trigger] types[i]) is Int64,
    ensures
        envelope_well_formed(env),
        env.columns@.len() == cols.len(),
        forall|i: int| 0 <= i < cols.len() ==> (#[trigger] env.columns@[i]).values@
            == cols[i].values@,
{
    assert forall|i: int| 0 <= i < env.fields@.len() implies (#[trigger] env.fields@[i]).dtype
        is Int64 by {
        assert(env.fields@[i].dtype == types[i]);
        assert(types[i] is Int64);
    }
}

} // verus!
