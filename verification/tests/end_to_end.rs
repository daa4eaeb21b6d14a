use tiledb_predicates::array_schema::{ArraySchema, Attribute, CellValNum, Dimension};
use tiledb_predicates::ast::ASTNode;
use tiledb_predicates::bitmap::EvaluationOutput;
use tiledb_predicates::engine::OutputKind;
use tiledb_predicates::enums::{Datatype, QueryConditionCombinationOp, QueryConditionOp};
use tiledb_predicates::misc::ByteVecValue;
use tiledb_predicates::physical_expr::{create_physical_expr, evaluation_output};
use tiledb_predicates::query_condition::to_datafusion;
use tiledb_predicates::query_predicates::{
    AddPredicateError, CompileError, EvaluatePredicateError, QueryPredicates,
};
use tiledb_predicates::record_batch::{is_consistent, to_record_batch};
use tiledb_predicates::schema::{to_arrow, ArrowArraySchema, WhichSchema};
use tiledb_predicates::tile::{NamedTileTuple, ResultTile, Tile, TileTuple};

fn example_schema() -> ArraySchema {
    ArraySchema {
        dimensions: vec![Dimension {
            name: b"d".to_vec(),
            datatype: Datatype::UINT64,
            cell_val_num: CellValNum::Single,
        }],
        attributes: vec![
            Attribute {
                name: b"a".to_vec(),
                datatype: Datatype::UINT64,
                cell_val_num: CellValNum::Single,
                nullable: false,
                enumeration_name: None,
            },
            Attribute {
                name: b"n".to_vec(),
                datatype: Datatype::INT16,
                cell_val_num: CellValNum::Single,
                nullable: true,
                enumeration_name: None,
            },
            Attribute {
                name: b"f".to_vec(),
                datatype: Datatype::UINT16,
                cell_val_num: CellValNum::Fixed(2),
                nullable: true,
                enumeration_name: None,
            },
            Attribute {
                name: b"v".to_vec(),
                datatype: Datatype::INT32,
                cell_val_num: CellValNum::Var,
                nullable: false,
                enumeration_name: None,
            },
        ],
        enumerations: vec![],
    }
}

fn u64_bytes(values: &[u64]) -> Vec<u8> {
    values.iter().flat_map(|v| v.to_le_bytes()).collect()
}

fn fixed(name: &str, data: Vec<u8>, validity: Option<Vec<u8>>) -> NamedTileTuple {
    NamedTileTuple {
        name: name.to_string(),
        tuple: TileTuple {
            fixed_tile: Tile { data },
            var_tile: None,
            validity_tile: validity.map(|data| Tile { data }),
        },
    }
}

fn example_tile() -> ResultTile {
    let d = u64_bytes(&[1, 2, 3, 4, 5, 6, 7, 8, 9, 10]);
    let a = u64_bytes(&[
        1, 22, 333, 4444, 55555, 666666, 7777777, 88888888, 999999999, 1010101010,
    ]);
    let n: Vec<u8> = [4i16, 0, 3, 4, 6, 2, 0, 0, 0, 4]
        .iter()
        .flat_map(|v| v.to_le_bytes())
        .collect();
    let n_validity = vec![1u8, 0, 1, 1, 1, 1, 0, 0, 1, 1];
    let f: Vec<u8> = (1u16..=20).flat_map(|v| v.to_le_bytes()).collect();
    let f_validity = vec![1u8, 1, 0, 1, 1, 0, 1, 1, 0, 1];
    let v_values: Vec<u8> = [1i32, 2, 2, 3, 3, 3, -4]
        .iter()
        .flat_map(|v| v.to_le_bytes())
        .collect();
    let v_offsets: Vec<u8> = [0i64, 4, 12, 24, 24, 24, 24, 24, 28, 28, 28]
        .iter()
        .flat_map(|v| v.to_le_bytes())
        .collect();
    ResultTile {
        cell_num: 10,
        tiles: vec![
            fixed("d", d, None),
            fixed("a", a, None),
            fixed("n", n, Some(n_validity)),
            fixed("f", f, Some(f_validity)),
            NamedTileTuple {
                name: "v".to_string(),
                tuple: TileTuple {
                    fixed_tile: Tile { data: v_offsets },
                    var_tile: Some(Tile { data: v_values }),
                    validity_tile: None,
                },
            },
        ],
    }
}

fn leaf(field: &str, op: QueryConditionOp, data: Vec<u8>) -> ASTNode {
    ASTNode::Value {
        field_name: field.as_bytes().to_vec(),
        op,
        data: ByteVecValue::new(data),
        offsets: ByteVecValue::new(vec![]),
    }
}

fn instance(ast: &ASTNode) -> Vec<u8> {
    let schema = example_schema();
    let (arrow, enumerations) = to_arrow(&schema, WhichSchema::Storage).unwrap();
    let arrow = ArrowArraySchema { schema: arrow, enumerations };
    let tile = example_tile();
    assert!(is_consistent(&arrow, &tile));
    let batch = to_record_batch(&arrow, &tile).unwrap();
    let logical = to_datafusion(&schema, ast).unwrap();
    let physical = create_physical_expr(&arrow.schema, logical).unwrap();
    let output = physical.evaluate(&batch).unwrap();
    assert!(output.is_array());
    assert!(!output.is_scalar());
    let bytes = output.cast_to(Datatype::UINT8).unwrap();
    bytes.values_u8().unwrap()
}

#[test]
fn a_less_than_100000() {
    let ast = leaf("a", QueryConditionOp::LT, 100000u64.to_le_bytes().to_vec());
    assert_eq!(instance(&ast), vec![1, 1, 1, 1, 1, 0, 0, 0, 0, 0]);
}

#[test]
fn d_not_equal_6() {
    let ast = leaf("d", QueryConditionOp::NE, 6u64.to_le_bytes().to_vec());
    assert_eq!(instance(&ast), vec![1, 1, 1, 1, 1, 0, 1, 1, 1, 1]);
}

#[test]
fn d_between_4_and_8() {
    let lhs = leaf("d", QueryConditionOp::GE, 4u64.to_le_bytes().to_vec());
    assert_eq!(instance(&lhs), vec![0, 0, 0, 1, 1, 1, 1, 1, 1, 1]);
    let rhs = leaf("d", QueryConditionOp::LE, 8u64.to_le_bytes().to_vec());
    assert_eq!(instance(&rhs), vec![1, 1, 1, 1, 1, 1, 1, 1, 0, 0]);
    let ast = ASTNode::Expr {
        combination_op: QueryConditionCombinationOp::AND,
        children: vec![lhs, rhs],
    };
    assert_eq!(instance(&ast), vec![0, 0, 0, 1, 1, 1, 1, 1, 0, 0]);
}

#[test]
fn d_less_than_4_or_a_greater_than_1000000() {
    let lhs = leaf("d", QueryConditionOp::LT, 4u64.to_le_bytes().to_vec());
    assert_eq!(instance(&lhs), vec![1, 1, 1, 0, 0, 0, 0, 0, 0, 0]);
    let rhs = leaf("a", QueryConditionOp::GT, 1000000u64.to_le_bytes().to_vec());
    assert_eq!(instance(&rhs), vec![0, 0, 0, 0, 0, 0, 1, 1, 1, 1]);
    let ast = ASTNode::Expr {
        combination_op: QueryConditionCombinationOp::OR,
        children: vec![lhs, rhs],
    };
    assert_eq!(instance(&ast), vec![1, 1, 1, 0, 0, 0, 1, 1, 1, 1]);
}

#[test]
fn not_negates_its_child() {
    let child = leaf("d", QueryConditionOp::LT, 4u64.to_le_bytes().to_vec());
    let ast = ASTNode::Expr {
        combination_op: QueryConditionCombinationOp::NOT,
        children: vec![child],
    };
    assert_eq!(instance(&ast), vec![0, 0, 0, 1, 1, 1, 1, 1, 1, 1]);
}

#[test]
fn null_tests_follow_the_validity() {
    let is_null = leaf("n", QueryConditionOp::EQ, vec![]);
    assert_eq!(instance(&is_null), vec![0, 1, 0, 0, 0, 0, 1, 1, 0, 0]);
    let not_null = leaf("n", QueryConditionOp::NE, vec![]);
    assert_eq!(instance(&not_null), vec![1, 0, 1, 1, 1, 1, 0, 0, 1, 1]);
    let always = leaf("n", QueryConditionOp::ALWAYS_TRUE, vec![]);
    assert_eq!(instance(&always), vec![1, 0, 1, 1, 1, 1, 0, 0, 1, 1]);
    let fixed_not_null = leaf("f", QueryConditionOp::NE, vec![]);
    assert_eq!(instance(&fixed_not_null), vec![1, 1, 0, 1, 1, 0, 1, 1, 0, 1]);
}

#[test]
fn comparison_with_null_is_null_and_does_not_pass() {
    let schema = example_schema();
    let (arrow, enumerations) = to_arrow(&schema, WhichSchema::Storage).unwrap();
    let arrow = ArrowArraySchema { schema: arrow, enumerations };
    let batch = to_record_batch(&arrow, &example_tile()).unwrap();
    let ast = leaf("n", QueryConditionOp::EQ, 4i16.to_le_bytes().to_vec());
    let logical = to_datafusion(&schema, &ast).unwrap();
    let physical = create_physical_expr(&arrow.schema, logical).unwrap();
    let output = physical.evaluate(&batch).unwrap();
    let truth = evaluation_output(output.into_kind()).unwrap();
    match truth {
        EvaluationOutput::Array(values) => assert_eq!(
            values,
            vec![
                Some(true),
                None,
                Some(false),
                Some(true),
                Some(false),
                Some(false),
                None,
                None,
                Some(false),
                Some(true)
            ]
        ),
        EvaluationOutput::Scalar(_) => panic!("one outcome for each row was expected"),
    }
}

#[test]
fn signed_literal_is_decoded_in_twos_complement() {
    let ast = leaf("n", QueryConditionOp::GT, (-1i16).to_le_bytes().to_vec());
    assert_eq!(instance(&ast), vec![1, 0, 1, 1, 1, 1, 0, 0, 1, 1]);
}

#[test]
fn fixed_size_cells_compare_with_a_list() {
    let data: Vec<u8> = [3u16, 4].iter().flat_map(|v| v.to_le_bytes()).collect();
    let ast = leaf("f", QueryConditionOp::EQ, data);
    assert_eq!(instance(&ast), vec![0, 1, 0, 0, 0, 0, 0, 0, 0, 0]);
}

#[test]
fn variable_size_cells_compare_with_a_list() {
    let data: Vec<u8> = [2i32, 2].iter().flat_map(|v| v.to_le_bytes()).collect();
    let ast = leaf("v", QueryConditionOp::EQ, data);
    assert_eq!(instance(&ast), vec![0, 1, 0, 0, 0, 0, 0, 0, 0, 0]);
}

#[test]
fn set_membership_of_single_values() {
    let data: Vec<u8> = u64_bytes(&[2, 3, 9, 40]);
    let ast = leaf("d", QueryConditionOp::IN, data.clone());
    assert_eq!(instance(&ast), vec![0, 1, 1, 0, 0, 0, 0, 0, 1, 0]);
    let ast = leaf("d", QueryConditionOp::NOT_IN, data);
    assert_eq!(instance(&ast), vec![1, 0, 0, 1, 1, 1, 1, 1, 0, 1]);
}

#[test]
fn always_false_is_one_outcome_for_all_rows() {
    let schema = example_schema();
    let (arrow, enumerations) = to_arrow(&schema, WhichSchema::Storage).unwrap();
    let arrow = ArrowArraySchema { schema: arrow, enumerations };
    let batch = to_record_batch(&arrow, &example_tile()).unwrap();
    let ast = leaf("a", QueryConditionOp::ALWAYS_FALSE, vec![]);
    let logical = to_datafusion(&schema, &ast).unwrap();
    let physical = create_physical_expr(&arrow.schema, logical).unwrap();
    let output = physical.evaluate(&batch).unwrap();
    assert!(output.is_scalar());
    assert!(matches!(output.kind(), OutputKind::BooleanScalar(Some(false))));
    let bytes = output.cast_to(Datatype::UINT8).unwrap();
    assert_eq!(bytes.values_u8().unwrap(), vec![0]);
    assert!(bytes.values_u64().is_err());
    let wide = output.cast_to(Datatype::UINT64).unwrap();
    assert_eq!(wide.values_u64().unwrap(), vec![0]);
    assert!(output.cast_to(Datatype::Invalid(200)).is_err());
}

#[test]
fn unknown_column_does_not_compile() {
    let schema = example_schema();
    let (arrow, _) = to_arrow(&schema, WhichSchema::Storage).unwrap();
    let ast = leaf("a", QueryConditionOp::LT, 100000u64.to_le_bytes().to_vec());
    let logical = to_datafusion(&schema, &ast).unwrap();
    let mut narrow = arrow;
    narrow.fields.retain(|f| f.name != "a");
    assert!(create_physical_expr(&narrow, logical).is_err());
}

#[test]
fn text_predicates_fold_into_a_bitmap() {
    let schema = example_schema();
    let tile = example_tile();
    let mut predicates = QueryPredicates::new(&schema).unwrap();
    assert!(matches!(
        predicates.evaluate(&tile),
        Err(EvaluatePredicateError::InvalidState)
    ));
    predicates.add_text_predicate("a < 100000").unwrap();
    predicates.add_text_predicate("d >= 2").unwrap();
    assert!(matches!(
        predicates.add_text_predicate("a + 1"),
        Err(AddPredicateError::NotAPredicate(_))
    ));
    assert!(matches!(
        predicates.add_text_predicate("sum(a) > 1"),
        Err(AddPredicateError::ContainsAggregateFunctions)
    ));
    assert!(matches!(
        predicates.add_text_predicate("nothing < 3"),
        Err(AddPredicateError::Parse(_))
    ));
    let mut names = predicates.field_names();
    names.sort();
    assert_eq!(names, vec!["a".to_string(), "d".to_string()]);
    predicates.compile().unwrap();
    assert!(matches!(predicates.compile(), Err(CompileError::InvalidState)));
    assert!(matches!(
        predicates.add_text_predicate("a < 3"),
        Err(AddPredicateError::InvalidState)
    ));
    let mut names = predicates.field_names();
    names.sort();
    assert_eq!(names, vec!["a".to_string(), "d".to_string()]);
    assert!(predicates.is_consistent(&tile));
    let mut bitmap = vec![1u8, 1, 1, 0, 1, 1, 1, 1, 1, 1];
    predicates.evaluate_into_bitmap_u8(&tile, &mut bitmap).unwrap();
    assert_eq!(bitmap, vec![0, 1, 1, 0, 1, 0, 0, 0, 0, 0]);
    let mut counts = vec![7u64; 10];
    predicates.evaluate_into_bitmap_u64(&tile, &mut counts).unwrap();
    assert_eq!(counts, vec![0, 7, 7, 7, 7, 0, 0, 0, 0, 0]);
    let mut short = vec![1u8; 3];
    assert!(matches!(
        predicates.evaluate_into_bitmap_u8(&tile, &mut short),
        Err(EvaluatePredicateError::UnexpectedOutput)
    ));
    assert_eq!(short, vec![1, 1, 1]);
}

#[test]
fn predicates_of_query_conditions_can_be_added() {
    let schema = example_schema();
    let tile = example_tile();
    let mut predicates = QueryPredicates::new(&schema).unwrap();
    let ast = leaf("n", QueryConditionOp::GE, 4i16.to_le_bytes().to_vec());
    let logical = to_datafusion(&schema, &ast).unwrap();
    predicates.add_predicate(&logical).unwrap();
    assert_eq!(predicates.field_names(), vec!["n".to_string()]);
    predicates.compile().unwrap();
    let mut bitmap = vec![1u8; 10];
    predicates.evaluate_into_bitmap_u8(&tile, &mut bitmap).unwrap();
    assert_eq!(bitmap, vec![1, 0, 0, 1, 1, 0, 0, 0, 0, 1]);
}

fn text_schema() -> ArraySchema {
    ArraySchema {
        dimensions: vec![Dimension {
            name: b"d".to_vec(),
            datatype: Datatype::UINT8,
            cell_val_num: CellValNum::Single,
        }],
        attributes: vec![
            Attribute {
                name: b"s".to_vec(),
                datatype: Datatype::STRING_UTF8,
                cell_val_num: CellValNum::Var,
                nullable: true,
                enumeration_name: None,
            },
            Attribute {
                name: b"later".to_vec(),
                datatype: Datatype::INT64,
                cell_val_num: CellValNum::Single,
                nullable: false,
                enumeration_name: None,
            },
        ],
        enumerations: vec![],
    }
}

fn text_tile(values: &[u8]) -> ResultTile {
    let offsets: Vec<u8> = [0i64, 3, 3, 6]
        .iter()
        .flat_map(|v| v.to_le_bytes())
        .collect();
    ResultTile {
        cell_num: 3,
        tiles: vec![
            fixed("d", vec![1, 2, 3], None),
            NamedTileTuple {
                name: "s".to_string(),
                tuple: TileTuple {
                    fixed_tile: Tile { data: offsets },
                    var_tile: Some(Tile {
                        data: values.to_vec(),
                    }),
                    validity_tile: Some(Tile {
                        data: vec![1, 0, 1],
                    }),
                },
            },
        ],
    }
}

fn text_predicates(text: &str) -> QueryPredicates {
    let mut predicates = QueryPredicates::new(&text_schema()).unwrap();
    predicates.add_text_predicate(text).unwrap();
    predicates.compile().unwrap();
    predicates
}

#[test]
fn text_columns_compare_with_text() {
    let tile = text_tile(b"onetwo");
    let predicates = text_predicates("s = 'two'");
    assert_eq!(predicates.field_names(), vec!["s".to_string()]);
    assert!(predicates.is_consistent(&tile));
    let mut bitmap = vec![1u8; 3];
    predicates.evaluate_into_bitmap_u8(&tile, &mut bitmap).unwrap();
    assert_eq!(bitmap, vec![0, 0, 1]);
    let mut bitmap = vec![1u8; 3];
    text_predicates("s IS NULL OR d = 1")
        .evaluate_into_bitmap_u8(&tile, &mut bitmap)
        .unwrap();
    assert_eq!(bitmap, vec![1, 1, 0]);
}

#[test]
fn text_which_is_not_utf8_makes_no_column() {
    let tile = text_tile(&[b'o', b'n', b'e', 0xff, 0xfe, 0xfd]);
    let predicates = text_predicates("s = 'one'");
    assert!(predicates.is_consistent(&tile));
    let mut bitmap = vec![1u8; 3];
    assert!(matches!(
        predicates.evaluate_into_bitmap_u8(&tile, &mut bitmap),
        Err(EvaluatePredicateError::ResultTile(_))
    ));
    assert_eq!(bitmap, vec![1, 1, 1]);
}

#[test]
fn a_field_without_data_passes_no_comparison() {
    let tile = text_tile(b"onetwo");
    let mut bitmap = vec![1u8; 3];
    text_predicates("later < 5")
        .evaluate_into_bitmap_u8(&tile, &mut bitmap)
        .unwrap();
    assert_eq!(bitmap, vec![0, 0, 0]);
    let mut bitmap = vec![1u8; 3];
    text_predicates("later IS NULL")
        .evaluate_into_bitmap_u8(&tile, &mut bitmap)
        .unwrap();
    assert_eq!(bitmap, vec![1, 1, 1]);
    let schema = text_schema();
    let (arrow, enumerations) = to_arrow(&schema, WhichSchema::Storage).unwrap();
    let arrow = ArrowArraySchema { schema: arrow, enumerations };
    let batch = to_record_batch(&arrow, &tile).unwrap();
    let ast = leaf("later", QueryConditionOp::EQ, vec![]);
    let logical = to_datafusion(&schema, &ast).unwrap();
    let physical = create_physical_expr(&arrow.schema, logical).unwrap();
    let output = physical.evaluate(&batch).unwrap();
    let bytes = output.cast_to(Datatype::UINT8).unwrap();
    assert_eq!(bytes.values_u8().unwrap(), vec![1, 1, 1]);
}

#[test]
fn predicates_which_are_never_compiled_are_not_evaluated() {
    let tile = text_tile(b"onetwo");
    let mut predicates = QueryPredicates::new(&text_schema()).unwrap();
    predicates.add_text_predicate("d > 1").unwrap();
    assert!(predicates.is_consistent(&tile));
    let mut bitmap = vec![1u8; 3];
    assert!(matches!(
        predicates.evaluate_into_bitmap_u8(&tile, &mut bitmap),
        Err(EvaluatePredicateError::InvalidState)
    ));
    assert_eq!(bitmap, vec![1, 1, 1]);
}

#[test]
fn no_predicate_lets_every_row_pass() {
    let tile = text_tile(b"onetwo");
    let mut predicates = QueryPredicates::new(&text_schema()).unwrap();
    predicates.compile().unwrap();
    assert!(predicates.field_names().is_empty());
    let mut bitmap = vec![1u8, 0, 1];
    predicates.evaluate_into_bitmap_u8(&tile, &mut bitmap).unwrap();
    assert_eq!(bitmap, vec![1, 0, 1]);
}

#[test]
fn uniform_outcomes_leave_or_clear_the_bitmap() {
    let tile = text_tile(b"onetwo");
    let mut bitmap = vec![1u8, 0, 1];
    text_predicates("true")
        .evaluate_into_bitmap_u8(&tile, &mut bitmap)
        .unwrap();
    assert_eq!(bitmap, vec![1, 0, 1]);
    text_predicates("NULL")
        .evaluate_into_bitmap_u8(&tile, &mut bitmap)
        .unwrap();
    assert_eq!(bitmap, vec![0, 0, 0]);
    let mut bitmap = vec![1u8, 1, 1];
    text_predicates("false")
        .evaluate_into_bitmap_u8(&tile, &mut bitmap)
        .unwrap();
    assert_eq!(bitmap, vec![0, 0, 0]);
}

#[test]
fn operands_whose_types_do_not_agree_are_refused() {
    let mut predicates = QueryPredicates::new(&example_schema()).unwrap();
    assert!(matches!(
        predicates.add_text_predicate("v < 3"),
        Err(AddPredicateError::TypeCoercion(_))
    ));
    let unknown = || tiledb_predicates::logical_expr::LogicalExpr::Column("zz".to_string());
    let comparison = tiledb_predicates::logical_expr::LogicalExpr::BinaryExpr {
        left: Box::new(unknown()),
        op: tiledb_predicates::logical_expr::Operator::Eq,
        right: Box::new(tiledb_predicates::logical_expr::LogicalExpr::Literal(
            tiledb_predicates::logical_expr::LiteralValue::Boolean(true),
        )),
    };
    assert!(matches!(
        predicates.add_predicate(&comparison),
        Err(AddPredicateError::OutputType(_))
    ));
    assert!(predicates.field_names().is_empty());
    // a test for null has a type whatever its column; it fails to compile
    let null_test = tiledb_predicates::logical_expr::LogicalExpr::IsNull(Box::new(unknown()));
    predicates.add_predicate(&null_test).unwrap();
    assert_eq!(predicates.field_names(), vec!["zz".to_string()]);
    assert!(matches!(
        predicates.compile(),
        Err(CompileError::PhysicalExpr(_))
    ));
    assert_eq!(predicates.field_names(), vec!["zz".to_string()]);
    assert!(matches!(
        predicates.add_text_predicate("a < 1"),
        Ok(())
    ));
}

#[test]
fn buffers_which_are_refused_fail_the_evaluation() {
    let mut tile = text_tile(b"onetwo");
    tile.tiles.push(fixed("later", vec![0; 20], None));
    let predicates = text_predicates("later = 1");
    assert!(predicates.is_consistent(&tile));
    let mut bitmap = vec![1u8; 3];
    match predicates.evaluate_into_bitmap_u8(&tile, &mut bitmap) {
        Err(EvaluatePredicateError::ResultTile(e)) => assert_eq!(
            e,
            tiledb_predicates::record_batch::Error::FieldError(
                "later".to_string(),
                tiledb_predicates::record_batch::FieldError::InternalUnalignedValues
            )
        ),
        other => panic!("values which are not whole were accepted: {:?}", other),
    }
    assert_eq!(bitmap, vec![1, 1, 1]);
    let mut short = text_tile(b"onetwo");
    short.cell_num = 4;
    assert!(predicates.is_consistent(&short));
    assert!(!text_predicates("d = 1").is_consistent(&short));
}

#[test]
fn a_predicate_is_evaluated_against_its_own_columns_only() {
    let schema = example_schema();
    let (arrow, enumerations) = to_arrow(&schema, WhichSchema::Storage).unwrap();
    let arrow = ArrowArraySchema { schema: arrow, enumerations };
    let column = tiledb_predicates::logical_expr::LogicalExpr::Column("v".to_string());
    let physical = create_physical_expr(&arrow.schema, Box::new(column)).unwrap();
    let batch = to_record_batch(&arrow, &example_tile()).unwrap();
    let output = physical.evaluate(&batch).unwrap();
    assert!(output.is_array());
    assert!(matches!(output.kind(), OutputKind::OtherArray));
    assert!(matches!(
        output.cast_to(Datatype::UINT8),
        Err(tiledb_predicates::physical_expr::PhysicalExprOutputError::Cast(_))
    ));
    assert!(matches!(
        output.cast_to(Datatype::Invalid(99)),
        Err(tiledb_predicates::physical_expr::PhysicalExprOutputError::TypeUnavailable(_))
    ));
    assert!(matches!(
        output.values_u8(),
        Err(tiledb_predicates::physical_expr::PhysicalExprOutputError::InvalidStaticType(_, _))
    ));
    assert!(evaluation_output(output.into_kind()).is_none());
    let mut narrow = arrow;
    narrow.schema.fields.truncate(2);
    let other = to_record_batch(&narrow, &example_tile()).unwrap();
    assert!(matches!(
        physical.evaluate(&other),
        Err(tiledb_predicates::physical_expr::PhysicalExprError::Evaluate(_))
    ));
}

#[test]
fn a_schema_without_a_columnar_view_has_no_predicates() {
    let mut schema = example_schema();
    schema.attributes[0].datatype = Datatype::Invalid(88);
    assert!(matches!(
        QueryPredicates::new(&schema),
        Err(tiledb_predicates::query_predicates::SchemaError::Schema(
            tiledb_predicates::schema::Error::FieldError(_, _)
        ))
    ));
    let session = tiledb_predicates::session::Session::new();
    assert!(matches!(
        session.parse_expr("d < 1", &schema),
        Err(tiledb_predicates::session::ParseExprError::Schema(_))
    ));
    assert!(matches!(
        session.parse_expr("v < 1", &example_schema()),
        Err(tiledb_predicates::session::ParseExprError::TypeCoercion(_))
    ));
    let expr = tiledb_predicates::logical_expr::LogicalExpr::Column("a".to_string());
    assert!(matches!(
        expr.output_type(&schema),
        Err(tiledb_predicates::logical_expr::TypeError::ArraySchema(_))
    ));
    assert!(matches!(
        expr.output_type(&example_schema()),
        Ok(tiledb_predicates::engine::OutputType::Other(_))
    ));
}

#[test]
fn field_names_come_in_the_order_of_the_predicates() {
    let schema = example_schema();
    let mut predicates = QueryPredicates::new(&schema).unwrap();
    assert!(predicates.field_names().is_empty());
    predicates.add_text_predicate("d >= 2").unwrap();
    assert_eq!(predicates.field_names(), vec!["d".to_string()]);
    let ast = leaf("n", QueryConditionOp::GE, 4i16.to_le_bytes().to_vec());
    predicates
        .add_predicate(&to_datafusion(&schema, &ast).unwrap())
        .unwrap();
    predicates.add_text_predicate("a < 100000").unwrap();
    predicates.add_text_predicate("d < 9").unwrap();
    assert!(predicates.add_text_predicate("sum(a) > 1").is_err());
    let expected = vec!["d".to_string(), "n".to_string(), "a".to_string()];
    assert_eq!(predicates.field_names(), expected);
    predicates.compile().unwrap();
    assert_eq!(predicates.field_names(), expected);
}

#[test]
fn a_column_named_twice_in_a_predicate_is_one_field() {
    let schema = example_schema();
    let mut predicates = QueryPredicates::new(&schema).unwrap();
    let low = leaf("a", QueryConditionOp::GT, 10u64.to_le_bytes().to_vec());
    let high = leaf("a", QueryConditionOp::LT, 5000u64.to_le_bytes().to_vec());
    let both = ASTNode::Expr {
        combination_op: QueryConditionCombinationOp::AND,
        children: vec![low, high],
    };
    predicates
        .add_predicate(&to_datafusion(&schema, &both).unwrap())
        .unwrap();
    assert_eq!(predicates.field_names(), vec!["a".to_string()]);
    predicates.compile().unwrap();
    let mut bitmap = vec![1u8; 10];
    predicates
        .evaluate_into_bitmap_u8(&example_tile(), &mut bitmap)
        .unwrap();
    assert_eq!(bitmap, vec![0, 1, 1, 1, 0, 0, 0, 0, 0, 0]);
}

#[test]
fn floating_point_constants_compare_by_their_value() {
    let schema = ArraySchema {
        dimensions: vec![Dimension {
            name: b"d".to_vec(),
            datatype: Datatype::UINT64,
            cell_val_num: CellValNum::Single,
        }],
        attributes: vec![
            Attribute {
                name: b"x".to_vec(),
                datatype: Datatype::FLOAT64,
                cell_val_num: CellValNum::Single,
                nullable: false,
                enumeration_name: None,
            },
            Attribute {
                name: b"y".to_vec(),
                datatype: Datatype::FLOAT32,
                cell_val_num: CellValNum::Single,
                nullable: false,
                enumeration_name: None,
            },
        ],
        enumerations: vec![],
    };
    let x: Vec<u8> = [0.5f64, -1.5, 2.5, 2.0]
        .iter()
        .flat_map(|v| v.to_le_bytes())
        .collect();
    let y: Vec<u8> = [0.25f32, 8.0, -3.0, 0.75]
        .iter()
        .flat_map(|v| v.to_le_bytes())
        .collect();
    let tile = ResultTile {
        cell_num: 4,
        tiles: vec![
            fixed("d", u64_bytes(&[1, 2, 3, 4]), None),
            fixed("x", x, None),
            fixed("y", y, None),
        ],
    };
    let mut predicates = QueryPredicates::new(&schema).unwrap();
    let ast = leaf("x", QueryConditionOp::LT, 2.0f64.to_le_bytes().to_vec());
    predicates
        .add_predicate(&to_datafusion(&schema, &ast).unwrap())
        .unwrap();
    let ast = leaf("y", QueryConditionOp::GE, 0.75f32.to_le_bytes().to_vec());
    predicates
        .add_predicate(&to_datafusion(&schema, &ast).unwrap())
        .unwrap();
    predicates.compile().unwrap();
    let mut bitmap = vec![1u8; 4];
    predicates.evaluate_into_bitmap_u8(&tile, &mut bitmap).unwrap();
    assert_eq!(bitmap, vec![0, 1, 0, 0]);
}

#[test]
fn values_of_another_type_are_refused_by_name() {
    let schema = example_schema();
    let (arrow, enumerations) = to_arrow(&schema, WhichSchema::Storage).unwrap();
    let arrow = ArrowArraySchema { schema: arrow, enumerations };
    let batch = to_record_batch(&arrow, &example_tile()).unwrap();
    let ast = leaf("d", QueryConditionOp::LT, 3u64.to_le_bytes().to_vec());
    let logical = to_datafusion(&schema, &ast).unwrap();
    let physical = create_physical_expr(&arrow.schema, logical).unwrap();
    let output = physical.evaluate(&batch).unwrap();
    match output.values_u8() {
        Err(tiledb_predicates::physical_expr::PhysicalExprOutputError::InvalidStaticType(
            asked,
            found,
        )) => {
            assert_eq!(asked, "u8");
            assert_eq!(found, "Boolean");
        }
        other => panic!("{:?}", other.map(|v| v.len())),
    }
    let wide = output.cast_to(Datatype::UINT64).unwrap();
    assert_eq!(wide.values_u64().unwrap(), vec![1, 1, 0, 0, 0, 0, 0, 0, 0, 0]);
    match wide.values_u8() {
        Err(tiledb_predicates::physical_expr::PhysicalExprOutputError::InvalidStaticType(
            asked,
            found,
        )) => {
            assert_eq!(asked, "u8");
            assert_eq!(found, "UInt64");
        }
        other => panic!("{:?}", other.map(|v| v.len())),
    }
    let narrow = output.cast_to(Datatype::UINT8).unwrap();
    assert_eq!(narrow.values_u8().unwrap(), vec![1, 1, 0, 0, 0, 0, 0, 0, 0, 0]);
    assert!(narrow.values_u64().is_err());
}

#[test]
fn the_negation_of_a_set_membership_is_the_opposite_membership() {
    let data: Vec<u8> = u64_bytes(&[2, 3, 9, 40]);
    let negated = |op: QueryConditionOp| ASTNode::Expr {
        combination_op: QueryConditionCombinationOp::NOT,
        children: vec![leaf("d", op, data.clone())],
    };
    assert_eq!(
        instance(&negated(QueryConditionOp::IN)),
        vec![1, 0, 0, 1, 1, 1, 1, 1, 0, 1]
    );
    assert_eq!(
        instance(&negated(QueryConditionOp::NOT_IN)),
        vec![0, 1, 1, 0, 0, 0, 0, 0, 1, 0]
    );
}

#[test]
fn no_predicate_compiles_and_an_unknown_field_does_not() {
    let mut predicates = QueryPredicates::new(&example_schema()).unwrap();
    predicates.compile().unwrap();
    assert!(predicates.field_names().is_empty());
    let mut predicates = QueryPredicates::new(&example_schema()).unwrap();
    let unknown = tiledb_predicates::logical_expr::LogicalExpr::IsNull(Box::new(
        tiledb_predicates::logical_expr::LogicalExpr::Column("zz".to_string()),
    ));
    predicates.add_predicate(&unknown).unwrap();
    assert!(matches!(
        predicates.compile(),
        Err(CompileError::PhysicalExpr(_))
    ));
}

#[test]
fn a_schema_with_a_name_twice_compiles_no_expression() {
    let (mut arrow, _) = to_arrow(&example_schema(), WhichSchema::Storage).unwrap();
    let logical = to_datafusion(
        &example_schema(),
        &leaf("a", QueryConditionOp::LT, 3u64.to_le_bytes().to_vec()),
    )
    .unwrap();
    assert!(create_physical_expr(&arrow, Box::new(logical.duplicate())).is_ok());
    let again = arrow.fields[0].duplicate();
    arrow.fields.push(again);
    assert!(matches!(
        create_physical_expr(&arrow, logical),
        Err(tiledb_predicates::physical_expr::PhysicalExprError::Create(_))
    ));
}
