use validation::context::DatabaseContex;
use validation::report::{Seg, UsageError};
use validation::rules::Rule;
use validation::schema::{FieldSpec, StructRule, StructSpec};
use validation::value::{FieldValue, Value};

fn entity(fields: Vec<FieldValue>) -> Value {
    Value::VStruct(fields)
}

fn text_field(name: &str, value: &str) -> FieldValue {
    FieldValue {
        name: name.to_string(),
        value: Value::VStr(value.to_string()),
    }
}

// A schema naming a field the value does not have aborts with a usage
// error instead of producing a report.
#[test]
fn unknown_field_is_usage_error() {
    let schema = StructSpec {
        name: "Entity".to_string(),
        fields: vec![FieldSpec::new(
            "missing".to_string(),
            vec![Rule::length(Some(1), Some(10))],
        )],
        rules: vec![],
    };
    let value = entity(vec![text_field("present", "hello")]);

    assert_eq!(schema.validate(&value), Err(UsageError::UnknownField));
}

// A rule on a value of a kind it cannot judge aborts with a usage error.
#[test]
fn wrong_kind_is_usage_error() {
    let schema = StructSpec {
        name: "Entity".to_string(),
        fields: vec![FieldSpec::new(
            "n".to_string(),
            vec![Rule::range(Some(1), Some(10))],
        )],
        rules: vec![],
    };
    let value = entity(vec![text_field("n", "not a number")]);

    assert_eq!(schema.validate(&value), Err(UsageError::TypeMismatch));
}

// A context-reading rule invoked without a context aborts with a usage
// error; with a context it validates normally.
#[test]
fn missing_context_is_usage_error() {
    let schema = StructSpec {
        name: "Entity".to_string(),
        fields: vec![],
        rules: vec![StructRule::has_capacity(
            "can_register".to_string(),
            "no room".to_string(),
            false,
        )],
    };
    let value = entity(vec![]);

    assert_eq!(schema.validate(&value), Err(UsageError::MissingContext));

    let context = DatabaseContex {
        total: 0,
        max_data: 10,
    };
    let report = schema.validate_with_context(&value, &context).unwrap();
    assert!(report.is_empty());
}

// With `skip_on_field_errors` set, a struct-level rule stays out of the
// report once a field already has a violation; without the mark it is
// evaluated regardless.
#[test]
fn skip_on_field_errors_honoured() {
    fn two_fields() -> Vec<FieldSpec> {
        vec![
            FieldSpec::new("a".to_string(), vec![Rule::length(Some(5), Some(10))]),
            FieldSpec::new("b".to_string(), vec![]),
        ]
    }
    let skipping = StructSpec {
        name: "Entity".to_string(),
        fields: two_fields(),
        rules: vec![StructRule::fields_equal(
            "a_equals_b".to_string(),
            "a and b must match".to_string(),
            true,
            "a".to_string(),
            "b".to_string(),
        )],
    };
    // "xy" breaks the length rule on `a` and differs from `b`.
    let value = entity(vec![text_field("a", "xy"), text_field("b", "other")]);

    let report = skipping.validate(&value).unwrap();
    assert_eq!(report.len(), 1);
    assert_eq!(report.errors()[0].code, "length");

    let eager = StructSpec {
        name: "Entity".to_string(),
        fields: two_fields(),
        rules: vec![StructRule::fields_equal(
            "a_equals_b".to_string(),
            "a and b must match".to_string(),
            false,
            "a".to_string(),
            "b".to_string(),
        )],
    };
    let report = eager.validate(&value).unwrap();
    assert_eq!(report.len(), 2);
    assert_eq!(report.errors()[0].code, "length");
    assert_eq!(report.errors()[1].code, "a_equals_b");
}

// Violations come in schema declaration order: fields first, in field
// order, struct-level rules last.
#[test]
fn report_order_is_declaration_order() {
    let schema = StructSpec {
        name: "Entity".to_string(),
        fields: vec![
            FieldSpec::new("a".to_string(), vec![Rule::length(Some(5), Some(10))]),
            FieldSpec::new("b".to_string(), vec![Rule::not_blank()]),
        ],
        rules: vec![StructRule::fields_equal(
            "a_equals_b".to_string(),
            "a and b must match".to_string(),
            false,
            "a".to_string(),
            "b".to_string(),
        )],
    };
    let value = entity(vec![text_field("a", "xy"), text_field("b", "  ")]);

    let report = schema.validate(&value).unwrap();
    let errors = report.errors();
    assert_eq!(errors.len(), 3);
    assert_eq!(errors[0].path, vec![Seg::Field("a".to_string())]);
    assert_eq!(errors[0].code, "length");
    assert_eq!(errors[1].path, vec![Seg::Field("b".to_string())]);
    assert_eq!(errors[1].code, "not_blank");
    assert!(errors[2].path.is_empty());
    assert_eq!(errors[2].code, "a_equals_b");
}

// A single rule judged directly: blank strings fail `not_blank`, others
// pass, and the violation carries the rule's code and message.
#[test]
fn rule_evaluate_direct() {
    let rule = Rule::not_blank();
    assert_eq!(rule.evaluate(&Value::VStr(" a ".to_string())), Ok(None));

    let violation = rule
        .evaluate(&Value::VStr(" \t\r\n".to_string()))
        .unwrap()
        .unwrap();
    assert_eq!(violation.code, "not_blank");
    assert_eq!(violation.message, "value cannot be blank");
    assert!(violation.path.is_empty());

    assert_eq!(
        rule.evaluate(&Value::VInt(3)),
        Err(UsageError::TypeMismatch)
    );
}

// Unbounded sides of a length rule are not enforced.
#[test]
fn open_ended_length_bounds() {
    let rule = Rule::length(Some(1), None);
    let long = "x".repeat(100000);
    assert_eq!(rule.evaluate(&Value::VStr(long)), Ok(None));
    assert!(rule
        .evaluate(&Value::VStr("".to_string()))
        .unwrap()
        .is_some());
}

// A plain rule list as the element validator: each element is judged
// under its index, and only failing elements are reported.
#[test]
fn rule_list_per_element() {
    let schema = StructSpec {
        name: "Entity".to_string(),
        fields: vec![FieldSpec::items_with_rules(
            "tags".to_string(),
            vec![Rule::length(Some(1), None)],
            vec![Rule::not_blank()],
        )],
        rules: vec![],
    };
    let value = entity(vec![FieldValue {
        name: "tags".to_string(),
        value: Value::VList(vec![
            Value::VStr("ok".to_string()),
            Value::VStr("   ".to_string()),
        ]),
    }]);

    let report = schema.validate(&value).unwrap();
    assert_eq!(report.len(), 1);
    assert_eq!(report.errors()[0].code, "not_blank");
    assert_eq!(
        report.errors()[0].path,
        vec![Seg::Field("tags".to_string()), Seg::At(1)]
    );
}
