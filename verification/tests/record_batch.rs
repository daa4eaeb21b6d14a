use tiledb_predicates::enums::PhysicalType;
use tiledb_predicates::offsets::Error as OffsetsError;
use tiledb_predicates::record_batch::{
    is_consistent, is_decodable, tile_to_arrow_array, to_arrow_array, to_record_batch, ArrayParts,
    ArrowArray, Error, FieldError,
};
use tiledb_predicates::schema::{ArrowArraySchema, ArrowDataType, ArrowField, Schema};
use tiledb_predicates::tile::{NamedTileTuple, ResultTile, Tile, TileTuple};

fn field(name: &str, data_type: ArrowDataType, nullable: bool) -> ArrowField {
    ArrowField {
        name: name.to_string(),
        data_type,
        nullable,
        enumeration: None,
    }
}

fn offsets(values: &[i64]) -> Vec<u8> {
    values.iter().flat_map(|o| o.to_le_bytes()).collect()
}

fn decode(
    f: &ArrowField,
    fixed: &[u8],
    var: Option<&[u8]>,
    validity: Option<&[u8]>,
) -> Result<ArrowArray, FieldError> {
    assert!(is_decodable(f, fixed, var, validity));
    to_arrow_array(f, fixed, var, validity)
}

fn tuple(fixed: Vec<u8>, var: Option<Vec<u8>>, validity: Option<Vec<u8>>) -> TileTuple {
    TileTuple {
        fixed_tile: Tile { data: fixed },
        var_tile: var.map(|data| Tile { data }),
        validity_tile: validity.map(|data| Tile { data }),
    }
}

fn named(name: &str, tuple: TileTuple) -> NamedTileTuple {
    NamedTileTuple {
        name: name.to_string(),
        tuple,
    }
}

fn schema(fields: Vec<ArrowField>) -> ArrowArraySchema {
    ArrowArraySchema {
        schema: Schema { fields },
        enumerations: vec![],
    }
}

#[test]
fn single_values_keep_their_bytes() {
    let f = field("a", ArrowDataType::Primitive(PhysicalType::Int32), true);
    let bytes: Vec<u8> = [1i32, -2, 3].iter().flat_map(|v| v.to_le_bytes()).collect();
    let array = decode(&f, &bytes, None, Some(&[1, 0, 7])).unwrap_or_else(|e| panic!("{:?}", e));
    assert_eq!(array.len(), 3);
    assert_eq!(array.data_type(), ArrowDataType::Primitive(PhysicalType::Int32));
    assert!(!array.is_null(0));
    assert!(array.is_null(1));
    assert!(!array.is_null(2));
    match array.parts() {
        ArrayParts::Primitive {
            physical,
            values,
            validity,
        } => {
            assert_eq!(physical, PhysicalType::Int32);
            assert_eq!(values, &bytes);
            assert_eq!(validity, &Some(vec![true, false, true]));
        }
        _ => panic!("a column of single values was expected"),
    }
}

#[test]
fn a_nullable_field_may_come_without_validity() {
    let f = field("a", ArrowDataType::Primitive(PhysicalType::UInt8), true);
    let array = decode(&f, &[5, 6], None, None).unwrap_or_else(|e| panic!("{:?}", e));
    assert_eq!(array.len(), 2);
    assert!(!array.is_null(0));
    assert!(!array.is_null(1));
}

#[test]
fn validity_of_a_field_without_nulls_is_refused() {
    let f = field("a", ArrowDataType::Primitive(PhysicalType::UInt8), false);
    assert_eq!(
        decode(&f, &[5, 6], None, Some(&[1, 1])).err(),
        Some(FieldError::UnexpectedValidityTile)
    );
    let list = field("l", ArrowDataType::LargeList(PhysicalType::UInt8), false);
    assert_eq!(
        decode(&list, &[], None, Some(&[1, 1])).err(),
        Some(FieldError::UnexpectedValidityTile)
    );
}

#[test]
fn values_must_be_whole() {
    let f = field("a", ArrowDataType::Primitive(PhysicalType::Int32), true);
    assert_eq!(
        decode(&f, &[0; 6], None, None).err(),
        Some(FieldError::InternalUnalignedValues)
    );
    let fixed = field("f", ArrowDataType::FixedSizeList(PhysicalType::UInt16, 2), true);
    assert_eq!(
        decode(&fixed, &[0; 3], None, None).err(),
        Some(FieldError::InternalUnalignedValues)
    );
    let list = field("l", ArrowDataType::LargeList(PhysicalType::Int64), true);
    assert_eq!(
        decode(&list, &offsets(&[0, 8]), Some(&[0; 12]), None).err(),
        Some(FieldError::InternalUnalignedValues)
    );
}

#[test]
fn var_buffer_must_match_the_cells() {
    let f = field("a", ArrowDataType::Primitive(PhysicalType::UInt8), true);
    assert_eq!(
        decode(&f, &[1], Some(&[1]), None).err(),
        Some(FieldError::UnexpectedVarTile)
    );
    let list = field("l", ArrowDataType::LargeList(PhysicalType::UInt8), true);
    assert_eq!(
        decode(&list, &offsets(&[0]), None, None).err(),
        Some(FieldError::ExpectedVarTile)
    );
    let text = field("t", ArrowDataType::LargeUtf8, true);
    assert_eq!(
        decode(&text, &offsets(&[0]), None, None).err(),
        Some(FieldError::ExpectedVarTile)
    );
}

#[test]
fn fixed_size_cells_share_the_values() {
    let f = field("f", ArrowDataType::FixedSizeList(PhysicalType::UInt16, 2), true);
    let bytes: Vec<u8> = (1u16..=6).flat_map(|v| v.to_le_bytes()).collect();
    let array = decode(&f, &bytes, None, Some(&[1, 1, 0])).unwrap_or_else(|e| panic!("{:?}", e));
    assert_eq!(array.len(), 3);
    assert_eq!(
        array.data_type(),
        ArrowDataType::FixedSizeList(PhysicalType::UInt16, 2)
    );
    assert!(array.is_null(2));
    assert!(!is_decodable(&f, &bytes[..10], None, None));
    assert!(!is_decodable(&f, &bytes, None, Some(&[1, 1])));
    let negative = field("g", ArrowDataType::FixedSizeList(PhysicalType::UInt16, -1), true);
    assert!(!is_decodable(&negative, &bytes, None, None));
}

#[test]
fn variable_size_cells_are_delimited_by_element_offsets() {
    let f = field("l", ArrowDataType::LargeList(PhysicalType::Int32), true);
    let values: Vec<u8> = [1i32, 2, 3].iter().flat_map(|v| v.to_le_bytes()).collect();
    let array = decode(&f, &offsets(&[0, 4, 4, 12]), Some(&values), Some(&[1, 0, 1]))
        .unwrap_or_else(|e| panic!("{:?}", e));
    assert_eq!(array.len(), 3);
    assert!(array.is_null(1));
    match array.parts() {
        ArrayParts::LargeList {
            physical,
            offsets,
            values: bytes,
            validity,
        } => {
            assert_eq!(physical, PhysicalType::Int32);
            assert_eq!(offsets.as_slice(), &[0, 1, 1, 3]);
            assert_eq!(bytes, &values);
            assert_eq!(validity, &Some(vec![true, false, true]));
        }
        _ => panic!("a column of lists was expected"),
    }
    assert_eq!(
        decode(&f, &offsets(&[0, 6]), Some(&values), None).err(),
        Some(FieldError::InternalOffsets(OffsetsError::NonIntegralOffsets))
    );
    assert_eq!(
        decode(&f, &offsets(&[8, 4]), Some(&values), None).err(),
        Some(FieldError::InternalOffsets(OffsetsError::DescendingOffsets(
            0, 2, 1
        )))
    );
    assert_eq!(
        decode(&f, &[0; 9], Some(&values), None).err(),
        Some(FieldError::InternalOffsets(OffsetsError::UnalignedOffsets))
    );
    assert_eq!(
        decode(&f, &offsets(&[-4, 4]), Some(&values), None).err(),
        Some(FieldError::InternalOffsets(OffsetsError::NegativeOffset(-1)))
    );
    assert!(!is_decodable(&f, &offsets(&[0, 16]), Some(&values), None));
    assert!(!is_decodable(&f, &offsets(&[0, 12]), Some(&values), Some(&[1, 1])));
    assert!(!is_decodable(&f, &[], Some(&values), None));
}

#[test]
fn text_is_delimited_by_byte_offsets() {
    let f = field("t", ArrowDataType::LargeUtf8, true);
    let array = decode(&f, &offsets(&[0, 3, 3, 6]), Some(b"onetwo"), None)
        .unwrap_or_else(|e| panic!("{:?}", e));
    assert_eq!(array.len(), 3);
    assert_eq!(array.data_type(), ArrowDataType::LargeUtf8);
    assert_eq!(
        decode(&f, &offsets(&[0, 7]), Some(b"onetwo"), None).err(),
        Some(FieldError::InvalidTileData)
    );
    assert_eq!(
        decode(&f, &offsets(&[0, 6]), Some(b"onetwo"), Some(&[1, 1])).err(),
        Some(FieldError::InvalidTileData)
    );
}

#[test]
fn text_must_be_utf8_and_cells_must_hold_whole_characters() {
    let f = field("t", ArrowDataType::LargeUtf8, false);
    assert_eq!(
        decode(&f, &offsets(&[0, 1]), Some(&[0xff]), None).err(),
        Some(FieldError::InvalidTileData)
    );
    let text = "h\u{e9}llo".as_bytes();
    assert_eq!(text.len(), 6);
    assert!(decode(&f, &offsets(&[0, 1, 3, 6]), Some(text), None).is_ok());
    assert_eq!(
        decode(&f, &offsets(&[0, 2, 6]), Some(text), None).err(),
        Some(FieldError::InvalidTileData)
    );
    assert!(decode(&f, &offsets(&[0, 0, 6, 6]), Some(text), None).is_ok());
}

#[test]
fn unresolved_enumeration_has_no_column() {
    let f = field("e", ArrowDataType::Null, true);
    assert_eq!(
        decode(&f, &[1, 2], None, None).err(),
        Some(FieldError::EnumerationNotSupported)
    );
}

#[test]
fn no_field_has_a_column_of_booleans() {
    let f = field("b", ArrowDataType::Boolean, true);
    assert!(!is_decodable(&f, &[1, 0], None, None));
    let strict = field("b", ArrowDataType::Boolean, false);
    assert!(is_decodable(&strict, &[1, 0], None, Some(&[1, 1])));
}

#[test]
fn buffers_of_a_tuple_are_decoded() {
    let f = field("l", ArrowDataType::LargeList(PhysicalType::UInt8), true);
    let t = tuple(offsets(&[0, 2, 5]), Some(b"hello".to_vec()), Some(vec![1, 1]));
    let array = tile_to_arrow_array(&f, &t).unwrap_or_else(|e| panic!("{:?}", e));
    assert_eq!(array.len(), 2);
    assert!(t.var_tile().is_some());
    assert!(t.validity_tile().is_some());
    assert_eq!(t.fixed_tile().size(), 24);
}

#[test]
fn a_field_without_buffers_is_a_column_of_nulls() {
    let schema = schema(vec![
        field("a", ArrowDataType::Primitive(PhysicalType::UInt8), true),
        field("later", ArrowDataType::LargeList(PhysicalType::Int64), true),
    ]);
    let tile = ResultTile {
        cell_num: 4,
        tiles: vec![named("a", tuple(vec![1, 2, 3, 4], None, None))],
    };
    assert!(is_consistent(&schema, &tile));
    let batch = to_record_batch(&schema, &tile).unwrap();
    assert_eq!(batch.num_rows(), 4);
    assert_eq!(batch.num_columns(), 2);
    assert_eq!(batch.schema(), &schema.schema);
    let later = batch.column(1);
    assert_eq!(later.len(), 4);
    assert_eq!(
        later.data_type(),
        ArrowDataType::LargeList(PhysicalType::Int64)
    );
    for row in 0..4 {
        assert!(later.is_null(row));
        assert!(!batch.column(0).is_null(row));
    }
    assert!(matches!(
        later.parts(),
        ArrayParts::Null {
            data_type: ArrowDataType::LargeList(PhysicalType::Int64),
            len: 4
        }
    ));
}

#[test]
fn a_batch_without_fields_keeps_its_rows() {
    let schema = schema(vec![]);
    let tile = ResultTile {
        cell_num: 17,
        tiles: vec![named("a", tuple(vec![1, 2, 3, 4], None, None))],
    };
    assert!(is_consistent(&schema, &tile));
    let batch = to_record_batch(&schema, &tile).unwrap();
    assert_eq!(batch.num_rows(), 17);
    assert_eq!(batch.num_columns(), 0);
}

#[test]
fn the_first_refused_field_is_named() {
    let schema = schema(vec![
        field("a", ArrowDataType::Primitive(PhysicalType::UInt8), true),
        field("b", ArrowDataType::Primitive(PhysicalType::Int16), true),
        field("c", ArrowDataType::Primitive(PhysicalType::UInt8), false),
    ]);
    let tile = ResultTile {
        cell_num: 2,
        tiles: vec![
            named("c", tuple(vec![1, 2], None, Some(vec![1, 1]))),
            named("b", tuple(vec![1, 2, 3], None, None)),
            named("a", tuple(vec![1, 2], None, None)),
        ],
    };
    assert!(is_consistent(&schema, &tile));
    assert_eq!(
        to_record_batch(&schema, &tile).err(),
        Some(Error::FieldError(
            "b".to_string(),
            FieldError::InternalUnalignedValues
        ))
    );
}

#[test]
fn columns_must_have_one_cell_for_each_row() {
    let schema = schema(vec![
        field("a", ArrowDataType::Primitive(PhysicalType::UInt8), true),
        field("b", ArrowDataType::Primitive(PhysicalType::UInt8), true),
    ]);
    let tile = |rows: u64| ResultTile {
        cell_num: rows,
        tiles: vec![
            named("a", tuple(vec![1, 2], None, None)),
            named("b", tuple(vec![1, 2], None, Some(vec![1, 0]))),
        ],
    };
    assert!(is_consistent(&schema, &tile(2)));
    assert!(!is_consistent(&schema, &tile(3)));
    let short_validity = ResultTile {
        cell_num: 2,
        tiles: vec![
            named("a", tuple(vec![1, 2], None, None)),
            named("b", tuple(vec![1, 2], None, Some(vec![1]))),
        ],
    };
    assert!(!is_consistent(&schema, &short_validity));
}

#[test]
fn the_first_buffers_of_a_name_are_used() {
    let tile = ResultTile {
        cell_num: 1,
        tiles: vec![
            named("a", tuple(vec![1], None, None)),
            named("a", tuple(vec![2], None, None)),
        ],
    };
    assert_eq!(tile.cell_num(), 1);
    let found = tile.tile_tuple(&"a".to_string()).unwrap();
    assert_eq!(found.fixed_tile().as_slice(), &[1]);
    assert!(tile.tile_tuple(&"b".to_string()).is_none());
}
