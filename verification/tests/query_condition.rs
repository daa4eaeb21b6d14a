use tiledb_predicates::array_schema::{ArraySchema, Attribute, CellValNum, Dimension};
use tiledb_predicates::ast::ASTNode;
use tiledb_predicates::enums::{
    Datatype, PhysicalType, QueryConditionCombinationOp, QueryConditionOp,
};
use tiledb_predicates::logical_expr::{LiteralValue, LogicalExpr, Operator};
use tiledb_predicates::misc::{bytes_equal, name_from_bytes, ByteVecValue, Utf8Error};
use tiledb_predicates::native::NativeValue;
use tiledb_predicates::offsets::Error as OffsetsError;
use tiledb_predicates::query_condition::{
    combination_ast_to_binary_expr, leaf_ast_to_binary_expr, leaf_ast_to_in_list,
    leaf_ast_to_null_test, to_datafusion, to_datafusion_impl, values_iter, Error, InternalError,
    UserError,
};
use tiledb_predicates::schema::FieldError;

fn attribute(name: &str, datatype: Datatype, cell_val_num: CellValNum, nullable: bool) -> Attribute {
    Attribute {
        name: name.as_bytes().to_vec(),
        datatype,
        cell_val_num,
        nullable,
        enumeration_name: None,
    }
}

fn schema() -> ArraySchema {
    ArraySchema {
        dimensions: vec![Dimension {
            name: b"d".to_vec(),
            datatype: Datatype::UINT64,
            cell_val_num: CellValNum::Single,
        }],
        attributes: vec![
            attribute("a", Datatype::INT32, CellValNum::Single, false),
            attribute("n", Datatype::INT32, CellValNum::Single, true),
            attribute("f", Datatype::UINT16, CellValNum::Fixed(3), false),
            attribute("v", Datatype::UINT8, CellValNum::Var, false),
            attribute("big", Datatype::UINT8, CellValNum::Fixed(u32::MAX - 1), false),
            attribute("bad", Datatype::Invalid(77), CellValNum::Single, false),
            attribute("i8", Datatype::INT8, CellValNum::Single, false),
            attribute("i16", Datatype::INT16, CellValNum::Single, false),
            attribute("i64", Datatype::INT64, CellValNum::Single, false),
            attribute("u8", Datatype::UINT8, CellValNum::Single, false),
            attribute("u16", Datatype::UINT16, CellValNum::Single, false),
            attribute("u32", Datatype::UINT32, CellValNum::Single, false),
            attribute("u64", Datatype::UINT64, CellValNum::Single, false),
            attribute("f32", Datatype::FLOAT32, CellValNum::Single, false),
            attribute("f64", Datatype::FLOAT64, CellValNum::Single, false),
            attribute("t", Datatype::DATETIME_MS, CellValNum::Single, false),
            attribute("c", Datatype::CHAR, CellValNum::Single, false),
            attribute("s", Datatype::STRING_UTF8, CellValNum::Var, false),
        ],
        enumerations: vec![],
    }
}

fn leaf(field: &str, op: QueryConditionOp, data: Vec<u8>) -> ASTNode {
    ASTNode::Value {
        field_name: field.as_bytes().to_vec(),
        op,
        data: ByteVecValue::new(data),
        offsets: ByteVecValue::new(vec![]),
    }
}

fn column(name: &str) -> LogicalExpr {
    LogicalExpr::Column(name.to_string())
}

fn compare(name: &str, op: Operator, literal: LiteralValue) -> LogicalExpr {
    LogicalExpr::BinaryExpr {
        left: Box::new(column(name)),
        op,
        right: Box::new(LogicalExpr::Literal(literal)),
    }
}

fn native(name: &str, op: Operator, value: NativeValue) -> LogicalExpr {
    compare(name, op, LiteralValue::Native(value))
}

fn join(left: LogicalExpr, op: Operator, right: LogicalExpr) -> LogicalExpr {
    LogicalExpr::BinaryExpr {
        left: Box::new(left),
        op,
        right: Box::new(right),
    }
}

fn expression(ast: &ASTNode) -> Result<LogicalExpr, Error> {
    to_datafusion_impl(&schema(), ast)
}

#[test]
fn less_than_keeps_the_value_of_every_datatype() {
    let cases: Vec<(&str, Vec<u8>, NativeValue)> = vec![
        ("i8", (-7i8).to_le_bytes().to_vec(), NativeValue::Int8(-7)),
        ("i16", (-300i16).to_le_bytes().to_vec(), NativeValue::Int16(-300)),
        ("a", i32::MIN.to_le_bytes().to_vec(), NativeValue::Int32(i32::MIN)),
        ("i64", (-1i64).to_le_bytes().to_vec(), NativeValue::Int64(-1)),
        ("u8", 200u8.to_le_bytes().to_vec(), NativeValue::UInt8(200)),
        ("u16", 65535u16.to_le_bytes().to_vec(), NativeValue::UInt16(65535)),
        ("u32", 3_000_000_000u32.to_le_bytes().to_vec(), NativeValue::UInt32(3_000_000_000)),
        ("u64", u64::MAX.to_le_bytes().to_vec(), NativeValue::UInt64(u64::MAX)),
        ("d", 100000u64.to_le_bytes().to_vec(), NativeValue::UInt64(100000)),
        ("f32", 1.5f32.to_le_bytes().to_vec(), NativeValue::Float32(1.5f32.to_bits())),
        ("f64", (-0.25f64).to_le_bytes().to_vec(), NativeValue::Float64((-0.25f64).to_bits())),
        ("t", 1234567890123i64.to_le_bytes().to_vec(), NativeValue::Int64(1234567890123)),
        ("c", (-1i8).to_le_bytes().to_vec(), NativeValue::Int8(-1)),
    ];
    for (field, data, value) in cases {
        let ast = leaf(field, QueryConditionOp::LT, data);
        assert_eq!(expression(&ast), Ok(native(field, Operator::Lt, value)));
    }
}

#[test]
fn each_comparison_has_its_operator() {
    let cases = [
        (QueryConditionOp::LT, Operator::Lt),
        (QueryConditionOp::LE, Operator::LtEq),
        (QueryConditionOp::GT, Operator::Gt),
        (QueryConditionOp::GE, Operator::GtEq),
        (QueryConditionOp::EQ, Operator::Eq),
        (QueryConditionOp::NE, Operator::NotEq),
    ];
    for (op, operator) in cases {
        let ast = leaf("a", op, 258i32.to_le_bytes().to_vec());
        assert_eq!(
            expression(&ast),
            Ok(native("a", operator, NativeValue::Int32(258)))
        );
    }
}

#[test]
fn values_are_decoded_one_after_the_other() {
    let bytes = ByteVecValue::new(vec![1, 0, 2, 1, 255, 255]);
    assert_eq!(
        values_iter(Datatype::UINT16, &bytes),
        Ok(vec![
            NativeValue::UInt16(1),
            NativeValue::UInt16(258),
            NativeValue::UInt16(65535)
        ])
    );
    assert_eq!(
        values_iter(Datatype::INT16, &bytes),
        Ok(vec![
            NativeValue::Int16(1),
            NativeValue::Int16(258),
            NativeValue::Int16(-1)
        ])
    );
    assert_eq!(values_iter(Datatype::BLOB, &ByteVecValue::new(vec![])), Ok(vec![]));
    assert_eq!(
        values_iter(Datatype::UINT32, &bytes),
        Err(Error::User(UserError::DatatypeMismatch(Datatype::UINT32, 6)))
    );
    assert_eq!(
        values_iter(Datatype::Invalid(99), &bytes),
        Err(Error::Internal(InternalError::InvalidDatatype(99)))
    );
}

#[test]
fn fixed_size_field_compares_with_a_list_of_that_size() {
    let data: Vec<u8> = [7u16, 8, 9].iter().flat_map(|v| v.to_le_bytes()).collect();
    let expected = compare(
        "f",
        Operator::Eq,
        LiteralValue::FixedSizeList(
            PhysicalType::UInt16,
            3,
            vec![
                NativeValue::UInt16(7),
                NativeValue::UInt16(8),
                NativeValue::UInt16(9),
            ],
        ),
    );
    assert_eq!(expression(&leaf("f", QueryConditionOp::EQ, data)), Ok(expected));
}

#[test]
fn variable_size_field_compares_with_a_list_of_all_values() {
    let expected = compare(
        "v",
        Operator::NotEq,
        LiteralValue::LargeList(
            PhysicalType::UInt8,
            vec![
                NativeValue::UInt8(b'o'),
                NativeValue::UInt8(b'n'),
                NativeValue::UInt8(b'e'),
            ],
        ),
    );
    assert_eq!(
        expression(&leaf("v", QueryConditionOp::NE, b"one".to_vec())),
        Ok(expected)
    );
}

#[test]
fn empty_payload_tests_for_null() {
    assert_eq!(
        expression(&leaf("n", QueryConditionOp::EQ, vec![])),
        Ok(LogicalExpr::IsNull(Box::new(column("n"))))
    );
    assert_eq!(
        expression(&leaf("n", QueryConditionOp::NE, vec![])),
        Ok(LogicalExpr::IsNotNull(Box::new(column("n"))))
    );
    assert_eq!(
        expression(&leaf("a", QueryConditionOp::EQ, vec![])),
        Ok(LogicalExpr::IsNull(Box::new(column("a"))))
    );
    for op in [
        QueryConditionOp::LT,
        QueryConditionOp::LE,
        QueryConditionOp::GT,
        QueryConditionOp::GE,
    ] {
        assert_eq!(
            expression(&leaf("n", op, vec![])),
            Ok(LogicalExpr::Literal(LiteralValue::Boolean(false)))
        );
    }
    assert_eq!(
        leaf_ast_to_null_test(&schema(), &b"n".to_vec(), QueryConditionOp::IN),
        Err(Error::Internal(InternalError::InvalidOp(6)))
    );
    assert_eq!(
        leaf_ast_to_null_test(&schema(), &b"missing".to_vec(), QueryConditionOp::EQ),
        Err(Error::User(UserError::UnknownField(b"missing".to_vec())))
    );
    assert!(leaf("n", QueryConditionOp::EQ, vec![]).is_null_test());
    assert!(!leaf("n", QueryConditionOp::IN, vec![]).is_null_test());
    assert!(!leaf("n", QueryConditionOp::EQ, vec![0]).is_null_test());
}

#[test]
fn always_true_still_leaves_out_nulls() {
    for data in [vec![], vec![1u8]] {
        assert_eq!(
            expression(&leaf("n", QueryConditionOp::ALWAYS_TRUE, data.clone())),
            Ok(LogicalExpr::IsNotNull(Box::new(column("n"))))
        );
        assert_eq!(
            expression(&leaf("a", QueryConditionOp::ALWAYS_TRUE, data.clone())),
            Ok(LogicalExpr::Literal(LiteralValue::Boolean(true)))
        );
        assert_eq!(
            expression(&leaf("d", QueryConditionOp::ALWAYS_TRUE, data.clone())),
            Ok(LogicalExpr::Literal(LiteralValue::Boolean(true)))
        );
        assert_eq!(
            expression(&leaf("missing", QueryConditionOp::ALWAYS_TRUE, data)),
            Err(Error::User(UserError::UnknownField(b"missing".to_vec())))
        );
    }
}

#[test]
fn always_false_is_the_constant_false() {
    assert_eq!(
        expression(&leaf("a", QueryConditionOp::ALWAYS_FALSE, vec![])),
        Ok(LogicalExpr::Literal(LiteralValue::Boolean(false)))
    );
    assert_eq!(
        expression(&leaf("missing", QueryConditionOp::ALWAYS_FALSE, vec![1])),
        Ok(LogicalExpr::Literal(LiteralValue::Boolean(false)))
    );
    assert_eq!(
        expression(&leaf("missing", QueryConditionOp::ALWAYS_FALSE, vec![])),
        Err(Error::User(UserError::UnknownField(b"missing".to_vec())))
    );
}

#[test]
fn not_takes_exactly_one_child() {
    let child = || leaf("a", QueryConditionOp::LT, 5i32.to_le_bytes().to_vec());
    let not = |children: Vec<ASTNode>| ASTNode::Expr {
        combination_op: QueryConditionCombinationOp::NOT,
        children,
    };
    assert_eq!(
        expression(&not(vec![child()])),
        Ok(LogicalExpr::Not(Box::new(native(
            "a",
            Operator::Lt,
            NativeValue::Int32(5)
        ))))
    );
    assert_eq!(
        expression(&not(vec![])),
        Err(Error::Internal(InternalError::NotTree(0)))
    );
    assert_eq!(
        expression(&not(vec![child(), child()])),
        Err(Error::Internal(InternalError::NotTree(2)))
    );
    assert_eq!(
        expression(&not(vec![child(), child(), child()])),
        Err(Error::Internal(InternalError::NotTree(3)))
    );
    assert_eq!(
        expression(&not(vec![leaf("missing", QueryConditionOp::LT, vec![1])])),
        Err(Error::User(UserError::UnknownField(b"missing".to_vec())))
    );
}

#[test]
fn children_fold_from_the_left() {
    let c = |v: i32| leaf("a", QueryConditionOp::EQ, v.to_le_bytes().to_vec());
    let e = |v: i32| native("a", Operator::Eq, NativeValue::Int32(v));
    let and = |children: Vec<ASTNode>| ASTNode::Expr {
        combination_op: QueryConditionCombinationOp::AND,
        children,
    };
    assert_eq!(expression(&and(vec![c(0)])), Ok(e(0)));
    assert_eq!(
        expression(&and(vec![c(0), c(1)])),
        Ok(join(e(0), Operator::And, e(1)))
    );
    assert_eq!(
        expression(&and(vec![c(0), c(1), c(2)])),
        Ok(join(join(e(0), Operator::And, e(1)), Operator::And, e(2)))
    );
    assert_eq!(
        expression(&and(vec![c(0), c(1), c(2), c(3)])),
        Ok(join(
            join(join(e(0), Operator::And, e(1)), Operator::And, e(2)),
            Operator::And,
            e(3)
        ))
    );
    let or = ASTNode::Expr {
        combination_op: QueryConditionCombinationOp::OR,
        children: vec![c(0), and(vec![c(1), c(2)]), c(3)],
    };
    assert_eq!(
        expression(&or),
        Ok(join(
            join(e(0), Operator::Or, join(e(1), Operator::And, e(2))),
            Operator::Or,
            e(3)
        ))
    );
    assert_eq!(
        combination_ast_to_binary_expr(&schema(), &vec![c(4), c(5)], Operator::Or),
        Ok(join(e(4), Operator::Or, e(5)))
    );
}

#[test]
fn combination_fails_as_its_first_failing_child() {
    let good = leaf("a", QueryConditionOp::EQ, 1i32.to_le_bytes().to_vec());
    let unknown = leaf("missing", QueryConditionOp::EQ, vec![1]);
    let mismatch = leaf("a", QueryConditionOp::EQ, vec![1]);
    let ast = ASTNode::Expr {
        combination_op: QueryConditionCombinationOp::AND,
        children: vec![good, mismatch, unknown],
    };
    assert_eq!(
        expression(&ast),
        Err(Error::User(UserError::DatatypeMismatch(Datatype::INT32, 1)))
    );
    let empty = ASTNode::Expr {
        combination_op: QueryConditionCombinationOp::OR,
        children: vec![],
    };
    assert_eq!(
        expression(&empty),
        Err(Error::Internal(InternalError::EmptyCombination))
    );
}

#[test]
fn discriminants_out_of_range_are_internal_errors() {
    assert_eq!(
        expression(&leaf("a", QueryConditionOp::Invalid(8), vec![1, 0, 0, 0])),
        Err(Error::Internal(InternalError::InvalidOp(8)))
    );
    assert_eq!(
        expression(&leaf("a", QueryConditionOp::Invalid(200), vec![])),
        Err(Error::Internal(InternalError::InvalidOp(200)))
    );
    assert_eq!(
        expression(&leaf("bad", QueryConditionOp::LT, vec![1])),
        Err(Error::Internal(InternalError::InvalidDatatype(77)))
    );
    assert_eq!(
        expression(&leaf("bad", QueryConditionOp::IN, vec![1])),
        Err(Error::Internal(InternalError::InvalidDatatype(77)))
    );
    let ast = ASTNode::Expr {
        combination_op: QueryConditionCombinationOp::Invalid(3),
        children: vec![],
    };
    assert_eq!(
        expression(&ast),
        Err(Error::Internal(InternalError::InvalidCombinationOp(3)))
    );
    assert_eq!(QueryConditionOp::from_repr(253), QueryConditionOp::ALWAYS_TRUE);
    assert_eq!(QueryConditionOp::from_repr(9), QueryConditionOp::Invalid(9));
    assert_eq!(QueryConditionOp::ALWAYS_FALSE.repr(), 254);
    assert_eq!(
        QueryConditionCombinationOp::from_repr(2),
        QueryConditionCombinationOp::NOT
    );
    assert_eq!(QueryConditionCombinationOp::OR.repr(), 1);
}

#[test]
fn comparison_reports_what_does_not_fit() {
    let s = schema();
    let name = |n: &str| n.as_bytes().to_vec();
    assert_eq!(
        leaf_ast_to_binary_expr(&s, &name("missing"), &ByteVecValue::new(vec![1]), Operator::Lt),
        Err(Error::User(UserError::UnknownField(name("missing"))))
    );
    assert_eq!(
        leaf_ast_to_binary_expr(&s, &name("a"), &ByteVecValue::new(vec![1, 2, 3]), Operator::Lt),
        Err(Error::User(UserError::DatatypeMismatch(Datatype::INT32, 3)))
    );
    assert_eq!(
        leaf_ast_to_binary_expr(&s, &name("a"), &ByteVecValue::new(vec![0; 8]), Operator::Lt),
        Err(Error::User(UserError::CellValNumMismatch(CellValNum::Single, 2)))
    );
    assert_eq!(
        leaf_ast_to_binary_expr(&s, &name("a"), &ByteVecValue::new(vec![]), Operator::Lt),
        Err(Error::User(UserError::CellValNumMismatch(CellValNum::Single, 0)))
    );
    assert_eq!(
        leaf_ast_to_binary_expr(&s, &name("f"), &ByteVecValue::new(vec![0; 4]), Operator::Lt),
        Err(Error::User(UserError::CellValNumMismatch(CellValNum::Fixed(3), 2)))
    );
    assert_eq!(
        leaf_ast_to_binary_expr(&s, &name("big"), &ByteVecValue::new(vec![0; 4]), Operator::Lt),
        Err(Error::Internal(InternalError::SchemaField(
            name("big"),
            FieldError::InvalidCellValNum(CellValNum::Fixed(u32::MAX - 1))
        )))
    );
}

#[test]
fn set_of_single_values_has_one_member_for_each_value() {
    let data: Vec<u8> = [3i32, -4].iter().flat_map(|v| v.to_le_bytes()).collect();
    let expected = |negated| LogicalExpr::InList {
        expr: Box::new(column("a")),
        list: vec![
            LiteralValue::Native(NativeValue::Int32(3)),
            LiteralValue::Native(NativeValue::Int32(-4)),
        ],
        negated,
    };
    assert_eq!(
        expression(&leaf("a", QueryConditionOp::IN, data.clone())),
        Ok(expected(false))
    );
    assert_eq!(
        expression(&leaf("a", QueryConditionOp::NOT_IN, data)),
        Ok(expected(true))
    );
    assert_eq!(
        expression(&leaf("a", QueryConditionOp::IN, vec![])),
        Ok(LogicalExpr::InList {
            expr: Box::new(column("a")),
            list: vec![],
            negated: false
        })
    );
}

#[test]
fn set_of_fixed_size_cells_divides_into_members() {
    let data: Vec<u8> = (1u16..=6).flat_map(|v| v.to_le_bytes()).collect();
    let member = |a, b, c| {
        LiteralValue::FixedSizeList(
            PhysicalType::UInt16,
            3,
            vec![
                NativeValue::UInt16(a),
                NativeValue::UInt16(b),
                NativeValue::UInt16(c),
            ],
        )
    };
    assert_eq!(
        expression(&leaf("f", QueryConditionOp::IN, data)),
        Ok(LogicalExpr::InList {
            expr: Box::new(column("f")),
            list: vec![member(1, 2, 3), member(4, 5, 6)],
            negated: false
        })
    );
    assert_eq!(
        expression(&leaf("f", QueryConditionOp::IN, vec![0; 8])),
        Err(Error::User(UserError::InListCellValNumMismatch(
            CellValNum::Fixed(3),
            4
        )))
    );
    let data = vec![0u8; (u32::MAX - 1) as usize % 1024 + 2];
    let big = ASTNode::Value {
        field_name: b"big".to_vec(),
        op: QueryConditionOp::IN,
        data: ByteVecValue::new(data.clone()),
        offsets: ByteVecValue::new(vec![]),
    };
    assert_eq!(
        expression(&big),
        Err(Error::User(UserError::InListCellValNumMismatch(
            CellValNum::Fixed(u32::MAX - 1),
            data.len()
        )))
    );
    assert_eq!(
        expression(&leaf("big", QueryConditionOp::IN, vec![])),
        Err(Error::User(UserError::CellValNumOutOfRange(
            CellValNum::Fixed(u32::MAX - 1)
        )))
    );
}

#[test]
fn set_of_variable_size_cells_is_delimited_by_offsets() {
    let s = schema();
    let name = b"v".to_vec();
    let data = ByteVecValue::new(b"onetwothree".to_vec());
    let offsets = |o: &[i64]| {
        ByteVecValue::new(o.iter().flat_map(|v| v.to_le_bytes()).collect::<Vec<u8>>())
    };
    let member = |text: &str| {
        LiteralValue::LargeList(
            PhysicalType::UInt8,
            text.bytes().map(NativeValue::UInt8).collect(),
        )
    };
    assert_eq!(
        leaf_ast_to_in_list(&s, &name, &data, &offsets(&[0, 3, 6]), true),
        Ok(LogicalExpr::InList {
            expr: Box::new(column("v")),
            list: vec![member("one"), member("two"), member("three")],
            negated: true
        })
    );
    assert_eq!(
        leaf_ast_to_in_list(&s, &name, &data, &offsets(&[0, 0, 11]), false),
        Ok(LogicalExpr::InList {
            expr: Box::new(column("v")),
            list: vec![member(""), member("onetwothree"), member("")],
            negated: false
        })
    );
    assert_eq!(
        leaf_ast_to_in_list(&s, &name, &data, &offsets(&[0, 12]), false),
        Err(Error::User(UserError::InListVarOffsets(
            OffsetsError::DescendingOffsets(1, 12, 11)
        )))
    );
    assert_eq!(
        leaf_ast_to_in_list(&s, &name, &data, &offsets(&[-1, 3]), false),
        Err(Error::User(UserError::InListVarOffsets(
            OffsetsError::NegativeOffset(-1)
        )))
    );
    assert_eq!(
        leaf_ast_to_in_list(&s, &name, &data, &ByteVecValue::new(vec![0; 5]), false),
        Err(Error::User(UserError::InListVarOffsets(
            OffsetsError::UnalignedOffsets
        )))
    );
    assert_eq!(
        leaf_ast_to_in_list(&s, &b"missing".to_vec(), &data, &offsets(&[0]), false),
        Err(Error::User(UserError::UnknownField(b"missing".to_vec())))
    );
}

#[test]
fn offsets_of_wider_values_count_bytes() {
    let schema = ArraySchema {
        dimensions: vec![],
        attributes: vec![attribute("w", Datatype::INT32, CellValNum::Var, false)],
        enumerations: vec![],
    };
    let data: Vec<u8> = [1i32, 2, 3].iter().flat_map(|v| v.to_le_bytes()).collect();
    let offsets: Vec<u8> = [0i64, 4].iter().flat_map(|v| v.to_le_bytes()).collect();
    let ints = |values: &[i32]| {
        LiteralValue::LargeList(
            PhysicalType::Int32,
            values.iter().map(|v| NativeValue::Int32(*v)).collect(),
        )
    };
    assert_eq!(
        leaf_ast_to_in_list(
            &schema,
            &b"w".to_vec(),
            &ByteVecValue::new(data.clone()),
            &ByteVecValue::new(offsets),
            false
        ),
        Ok(LogicalExpr::InList {
            expr: Box::new(column("w")),
            list: vec![ints(&[1]), ints(&[2, 3])],
            negated: false
        })
    );
    let odd: Vec<u8> = [0i64, 6].iter().flat_map(|v| v.to_le_bytes()).collect();
    assert_eq!(
        leaf_ast_to_in_list(
            &schema,
            &b"w".to_vec(),
            &ByteVecValue::new(data),
            &ByteVecValue::new(odd),
            false
        ),
        Err(Error::User(UserError::InListVarOffsets(
            OffsetsError::NonIntegralOffsets
        )))
    );
}

#[test]
fn the_boxed_expression_is_the_same() {
    let ast = leaf("a", QueryConditionOp::GE, 4i32.to_le_bytes().to_vec());
    let boxed = to_datafusion(&schema(), &ast).unwrap();
    assert_eq!(*boxed, native("a", Operator::GtEq, NativeValue::Int32(4)));
    assert_eq!(
        to_datafusion(&schema(), &leaf("zz", QueryConditionOp::GE, vec![1])).err(),
        Some(Error::User(UserError::UnknownField(b"zz".to_vec())))
    );
}

#[test]
fn value_bytes_round_trip() {
    let values = [
        NativeValue::Int8(-128),
        NativeValue::Int16(-2),
        NativeValue::Int32(i32::MAX),
        NativeValue::Int64(i64::MIN),
        NativeValue::UInt8(255),
        NativeValue::UInt16(256),
        NativeValue::UInt32(u32::MAX),
        NativeValue::UInt64(1 << 63),
        NativeValue::Float32(0x7fc0_0000),
        NativeValue::Float64(0xfff0_0000_0000_0000),
    ];
    for value in values {
        let bytes = value.to_bytes();
        assert_eq!(bytes.len(), value.physical_type().width());
        assert_eq!(
            tiledb_predicates::native::read_native(value.physical_type(), &bytes, 0),
            value
        );
    }
    assert_eq!(NativeValue::Int16(-2).to_bytes(), vec![0xfe, 0xff]);
    assert_eq!(NativeValue::UInt32(0x0102_0304).to_bytes(), vec![4, 3, 2, 1]);
    assert_eq!(
        NativeValue::Int64(-1).to_bytes(),
        vec![255, 255, 255, 255, 255, 255, 255, 255]
    );
}

#[test]
fn a_name_which_is_not_text_is_refused() {
    let bad: Vec<u8> = vec![b'm', 0xff, b'x'];
    let mut schema = schema();
    schema.attributes.push(Attribute {
        name: bad.clone(),
        datatype: Datatype::INT32,
        cell_val_num: CellValNum::Single,
        nullable: true,
        enumeration_name: None,
    });
    schema.dimensions.push(Dimension {
        name: vec![0xc0],
        datatype: Datatype::INT32,
        cell_val_num: CellValNum::Single,
    });
    let not_text = |valid_up_to| {
        Err(Error::User(UserError::FieldNameNotUtf8(Utf8Error {
            valid_up_to,
        })))
    };
    let data = ByteVecValue::new(1i32.to_le_bytes().to_vec());
    let none = ByteVecValue::new(vec![]);
    assert_eq!(
        leaf_ast_to_binary_expr(&schema, &bad, &data, Operator::Lt),
        not_text(1)
    );
    assert_eq!(
        leaf_ast_to_binary_expr(&schema, &bad, &ByteVecValue::new(vec![1]), Operator::Lt),
        not_text(1)
    );
    assert_eq!(
        leaf_ast_to_in_list(&schema, &bad, &data, &none, false),
        not_text(1)
    );
    for op in [
        QueryConditionOp::EQ,
        QueryConditionOp::ALWAYS_TRUE,
        QueryConditionOp::ALWAYS_FALSE,
        QueryConditionOp::IN,
    ] {
        assert_eq!(leaf_ast_to_null_test(&schema, &bad, op), not_text(1));
    }
    let always = |name: &Vec<u8>| ASTNode::Value {
        field_name: name.clone(),
        op: QueryConditionOp::ALWAYS_TRUE,
        data: ByteVecValue::new(vec![1]),
        offsets: ByteVecValue::new(vec![]),
    };
    assert_eq!(to_datafusion_impl(&schema, &always(&bad)), not_text(1));
    // the name of a field without nulls is not looked at
    assert_eq!(
        to_datafusion_impl(&schema, &always(&vec![0xc0])),
        Ok(LogicalExpr::Literal(LiteralValue::Boolean(true)))
    );
    assert_eq!(
        leaf_ast_to_null_test(&schema, &vec![0xc0], QueryConditionOp::NE),
        not_text(0)
    );
    // a name which the schema lacks is reported as it is
    assert_eq!(
        leaf_ast_to_binary_expr(&schema, &vec![0xfe], &data, Operator::Lt),
        Err(Error::User(UserError::UnknownField(vec![0xfe])))
    );
}

#[test]
fn names_of_text_are_read_as_utf8() {
    let schema = ArraySchema {
        dimensions: vec![],
        attributes: vec![attribute(
            "gr\u{f6}\u{df}e",
            Datatype::UINT8,
            CellValNum::Single,
            true,
        )],
        enumerations: vec![],
    };
    let ast = leaf("gr\u{f6}\u{df}e", QueryConditionOp::NE, vec![]);
    assert_eq!(
        to_datafusion_impl(&schema, &ast),
        Ok(LogicalExpr::IsNotNull(Box::new(column("gr\u{f6}\u{df}e"))))
    );
    assert_eq!(name_from_bytes("gr\u{f6}\u{df}e".as_bytes()), Ok("gr\u{f6}\u{df}e"));
    assert_eq!(name_from_bytes(b""), Ok(""));
    assert_eq!(
        name_from_bytes(&[b'a', b'b', 0xe2, 0x82]),
        Err(Utf8Error { valid_up_to: 2 })
    );
    assert!(bytes_equal(b"abc", b"abc"));
    assert!(!bytes_equal(b"abc", b"abd"));
    assert!(!bytes_equal(b"abc", b"ab"));
    assert!(bytes_equal(b"", b""));
}
