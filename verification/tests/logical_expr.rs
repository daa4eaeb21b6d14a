use tiledb_predicates::array_schema::{ArraySchema, Attribute, CellValNum, Dimension};
use tiledb_predicates::engine::OutputType;
use tiledb_predicates::enums::Datatype;
use tiledb_predicates::logical_expr::{
    make_conjunction, unique, LiteralValue, LogicalExpr, Operator,
};
use tiledb_predicates::native::NativeValue;
use tiledb_predicates::query_predicates::{AddPredicateError, Builder};
use tiledb_predicates::schema::WhichSchema;
use tiledb_predicates::session::{ParseExprError, Session};

fn column(name: &str) -> LogicalExpr {
    LogicalExpr::Column(name.to_string())
}

fn number(value: i32) -> LogicalExpr {
    LogicalExpr::Literal(LiteralValue::Native(NativeValue::Int32(value)))
}

fn binary(left: LogicalExpr, op: Operator, right: LogicalExpr) -> LogicalExpr {
    LogicalExpr::BinaryExpr {
        left: Box::new(left),
        op,
        right: Box::new(right),
    }
}

fn schema() -> ArraySchema {
    ArraySchema {
        dimensions: vec![Dimension {
            name: b"d".to_vec(),
            datatype: Datatype::INT32,
            cell_val_num: CellValNum::Single,
        }],
        attributes: vec![Attribute {
            name: b"a".to_vec(),
            datatype: Datatype::INT32,
            cell_val_num: CellValNum::Single,
            nullable: true,
            enumeration_name: None,
        }],
        enumerations: vec![],
    }
}

#[test]
fn columns_come_once_in_the_order_they_are_met() {
    let expr = binary(
        binary(column("b"), Operator::Lt, number(1)),
        Operator::And,
        binary(
            LogicalExpr::Not(Box::new(LogicalExpr::IsNull(Box::new(column("a"))))),
            Operator::Or,
            LogicalExpr::InList {
                expr: Box::new(column("b")),
                list: vec![LiteralValue::Boolean(true)],
                negated: false,
            },
        ),
    );
    assert_eq!(expr.columns(), vec!["b".to_string(), "a".to_string()]);
    assert!(number(3).columns().is_empty());
    assert_eq!(
        LogicalExpr::IsNotNull(Box::new(column("z"))).columns(),
        vec!["z".to_string()]
    );
}

#[test]
fn unique_keeps_first_occurrences() {
    let names: Vec<String> = ["b", "a", "b", "c", "a"].iter().map(|n| n.to_string()).collect();
    assert_eq!(
        unique(&names),
        vec!["b".to_string(), "a".to_string(), "c".to_string()]
    );
    assert!(unique(&vec![]).is_empty());
}

#[test]
fn a_copy_is_equal() {
    let expr = binary(
        LogicalExpr::InList {
            expr: Box::new(column("b")),
            list: vec![
                LiteralValue::LargeList(
                    tiledb_predicates::enums::PhysicalType::Int32,
                    vec![NativeValue::Int32(1)],
                ),
                LiteralValue::FixedSizeList(
                    tiledb_predicates::enums::PhysicalType::UInt8,
                    1,
                    vec![NativeValue::UInt8(1)],
                ),
            ],
            negated: true,
        },
        Operator::Or,
        LogicalExpr::Not(Box::new(LogicalExpr::IsNotNull(Box::new(column("a"))))),
    );
    assert_eq!(expr.duplicate(), expr);
}

#[test]
fn conjunction_joins_from_the_left() {
    let e = |v: i32| Box::new(binary(column("a"), Operator::Eq, number(v)));
    assert_eq!(
        *make_conjunction(&[]),
        LogicalExpr::Literal(LiteralValue::Boolean(true))
    );
    assert_eq!(*make_conjunction(&[e(1)]), *e(1));
    assert_eq!(
        *make_conjunction(&[e(1), e(2), e(3)]),
        binary(binary(*e(1), Operator::And, *e(2)), Operator::And, *e(3))
    );
}

#[test]
fn the_type_of_an_expression_is_found_over_the_schema() {
    let comparison = binary(column("a"), Operator::Lt, number(5));
    assert_eq!(comparison.output_type(&schema()).unwrap(), OutputType::Boolean);
    assert!(comparison.is_predicate(&schema()).unwrap());
    assert!(matches!(
        column("a").output_type(&schema()).unwrap(),
        OutputType::Other(_)
    ));
    assert!(!column("d").is_predicate(&schema()).unwrap());
    assert!(column("missing").is_predicate(&schema()).is_err());
}

#[test]
fn text_is_parsed_over_the_schema() {
    let session = Session::new();
    let parsed = session.parse_expr("a + d < 10 AND a IS NOT NULL", &schema()).unwrap();
    let mut columns = parsed.columns();
    columns.sort();
    assert_eq!(columns, vec!["a".to_string(), "d".to_string()]);
    assert!(!parsed.has_aggregate_functions());
    assert_eq!(parsed.to_string(), "a + d < 10 AND a IS NOT NULL");
    assert!(matches!(
        session.parse_expr("a <", &schema()),
        Err(ParseExprError::Parse(_))
    ));
    assert!(matches!(
        session.parse_expr("b < 3", &schema()),
        Err(ParseExprError::Parse(_))
    ));
}

#[test]
fn parsed_predicates_are_checked_before_they_are_added() {
    let session = Session::new();
    let mut builder = Builder::new(&schema(), WhichSchema::View).unwrap();
    assert_eq!(builder.len(), 0);
    let predicate = session.parse_expr("a < 10", &schema()).unwrap();
    builder.add_parsed_predicate(predicate).unwrap();
    assert_eq!(builder.len(), 1);
    let number = session.parse_expr("a + 1", &schema()).unwrap();
    assert!(matches!(
        builder.add_parsed_predicate(number),
        Err(AddPredicateError::NotAPredicate(_))
    ));
    builder
        .add_predicate(&binary(column("d"), Operator::GtEq, self::number(2)))
        .unwrap();
    assert!(builder.add_predicate(&column("d")).is_err());
    assert_eq!(builder.len(), 2);
    let mut names = builder.field_names();
    names.sort();
    assert_eq!(names, vec!["a".to_string(), "d".to_string()]);
    let evaluator = builder.compile().unwrap();
    let mut names = evaluator.field_names();
    names.sort();
    assert_eq!(names, vec!["a".to_string(), "d".to_string()]);
}

fn aggregate(name: &str, args: Vec<LogicalExpr>) -> LogicalExpr {
    LogicalExpr::AggregateFunction {
        name: name.to_string(),
        args,
    }
}

#[test]
fn an_aggregate_is_found_wherever_it_stands() {
    let sum = || aggregate("sum", vec![column("a")]);
    assert!(sum().has_aggregate_functions());
    assert!(!column("a").has_aggregate_functions());
    assert!(!number(1).has_aggregate_functions());
    assert!(!binary(column("a"), Operator::Lt, number(1)).has_aggregate_functions());
    assert!(binary(sum(), Operator::Lt, number(1)).has_aggregate_functions());
    assert!(binary(number(1), Operator::Lt, sum()).has_aggregate_functions());
    assert!(LogicalExpr::Not(Box::new(LogicalExpr::IsNull(Box::new(sum())))).has_aggregate_functions());
    assert!(LogicalExpr::IsNotNull(Box::new(sum())).has_aggregate_functions());
    assert!(LogicalExpr::InList {
        expr: Box::new(sum()),
        list: vec![],
        negated: false
    }
    .has_aggregate_functions());
    assert!(aggregate("count", vec![]).has_aggregate_functions());
}

#[test]
fn the_columns_of_an_aggregate_are_those_of_its_arguments() {
    let expr = binary(
        column("b"),
        Operator::Lt,
        aggregate(
            "corr",
            vec![column("a"), binary(column("c"), Operator::Eq, column("b"))],
        ),
    );
    assert_eq!(
        expr.columns(),
        vec!["b".to_string(), "a".to_string(), "c".to_string()]
    );
    assert_eq!(expr.duplicate(), expr);
}

#[test]
fn an_aggregate_is_no_predicate() {
    let expr = binary(aggregate("max", vec![column("a")]), Operator::Gt, number(3));
    let mut builder = Builder::new(&schema(), WhichSchema::View).unwrap();
    assert!(matches!(
        builder.add_predicate(&expr),
        Err(AddPredicateError::ContainsAggregateFunctions)
    ));
    assert_eq!(builder.len(), 0);
    let arrow = tiledb_predicates::schema::to_arrow(&schema(), WhichSchema::Storage)
        .unwrap()
        .0;
    assert!(matches!(
        tiledb_predicates::physical_expr::create_physical_expr(&arrow, Box::new(expr)),
        Err(tiledb_predicates::physical_expr::PhysicalExprError::Create(_))
    ));
    let session = Session::new();
    let parsed = session.parse_expr("max(a) > 3", &schema()).unwrap();
    assert!(parsed.has_aggregate_functions());
    assert_eq!(parsed.to_string(), "max(a) > 3");
    assert!(matches!(
        builder.add_parsed_predicate(parsed),
        Err(AddPredicateError::ContainsAggregateFunctions)
    ));
    assert_eq!(builder.len(), 0);
}

#[test]
fn the_type_of_an_aggregate_is_looked_at_before_the_aggregate() {
    let mut builder = Builder::new(&schema(), WhichSchema::View).unwrap();
    match builder.add_predicate(&aggregate("count", vec![column("a")])) {
        Err(AddPredicateError::NotAPredicate(found)) => assert_eq!(found, "Int64"),
        other => panic!("{:?}", other),
    }
    assert!(matches!(
        builder.add_predicate(&aggregate("bool_and", vec![binary(
            column("a"),
            Operator::Lt,
            number(3)
        )])),
        Err(AddPredicateError::ContainsAggregateFunctions)
    ));
    assert!(matches!(
        builder.add_predicate(&aggregate("no_such_function", vec![column("a")])),
        Err(AddPredicateError::OutputType(_))
    ));
    assert_eq!(builder.len(), 0);
    assert!(builder.field_names().is_empty());
    assert!(matches!(
        aggregate("count", vec![column("a")]).output_type(&schema()),
        Ok(tiledb_predicates::engine::OutputType::Other(_))
    ));
}

#[test]
fn a_logical_expression_reads_as_the_engine_prints_it() {
    let session = Session::new();
    let expr = binary(column("a"), Operator::Lt, number(10));
    let parsed = session.parse_expr("a < 10", &schema()).unwrap();
    assert_eq!(expr.to_string(), parsed.to_string());
    assert_eq!(expr.to_string(), "a < 10");
    let negated = LogicalExpr::Not(Box::new(LogicalExpr::InList {
        expr: Box::new(column("a")),
        list: vec![
            LiteralValue::Native(NativeValue::Int32(1)),
            LiteralValue::Native(NativeValue::Int32(2)),
        ],
        negated: false,
    }));
    assert_eq!(negated.to_string(), "a NOT IN 1, 2");
    assert!(!aggregate("no_such_function", vec![column("a")])
        .to_string()
        .is_empty());
}

#[test]
fn a_parsed_expression_is_typed_tested_and_compiled() {
    let session = Session::new();
    let predicate = session.parse_expr("a < 10", &schema()).unwrap();
    assert_eq!(predicate.output_type(&schema()).unwrap(), OutputType::Boolean);
    assert!(predicate.is_predicate(&schema()).unwrap());
    let sum = session.parse_expr("a + d", &schema()).unwrap();
    assert!(matches!(sum.output_type(&schema()), Ok(OutputType::Other(_))));
    assert!(!sum.is_predicate(&schema()).unwrap());
    let arrow = tiledb_predicates::schema::to_arrow(&schema(), WhichSchema::View)
        .unwrap()
        .0;
    assert!(
        tiledb_predicates::physical_expr::create_parsed_physical_expr(&arrow, &predicate).is_ok()
    );
    let total = session.parse_expr("max(a) > 3", &schema()).unwrap();
    assert!(matches!(
        tiledb_predicates::physical_expr::create_parsed_physical_expr(&arrow, &total),
        Err(tiledb_predicates::physical_expr::PhysicalExprError::Create(_))
    ));
    let mut twice = tiledb_predicates::schema::to_arrow(&schema(), WhichSchema::View)
        .unwrap()
        .0;
    let again = twice.fields[0].duplicate();
    twice.fields.push(again);
    assert!(
        tiledb_predicates::physical_expr::create_parsed_physical_expr(&twice, &predicate).is_err()
    );
}
