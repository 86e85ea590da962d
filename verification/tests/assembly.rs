//! Runtime behaviour of the modelled accumulator: the factory, the setters
//! and the all-or-nothing assembly operation.

use builder::accumulator::{Accumulator, AssembleError, InstanceField, Value};
use builder::model::{DataShape, FieldSchema, StructDescription, TypeExpr};


fn path(head: &str, args: Vec<TypeExpr>) -> TypeExpr {
    TypeExpr::Path { head: head.to_string(), args, tail: String::new() }
}

fn field(name: &str, ty: TypeExpr) -> FieldSchema {
    FieldSchema { name: name.to_string(), ty }
}

fn text(s: &str) -> Value {
    Value::Text(s.to_string())
}

/// `Config { host: String, port: i32, tag: Option<String> }`, assembled from
/// its generated set: two required fields, one optional.
fn config_accumulator() -> Accumulator {
    let description = StructDescription {
        name: "Config".to_string(),
        data: DataShape::NamedFields(vec![
            field("host", path("String", vec![])),
            field("port", path("i32", vec![])),
            field("tag", path("Option", vec![path("String", vec![])])),
        ]),
    };
    builder::synth::derive(description).unwrap().factory()
}

#[test]
fn factory_starts_all_absent() {
    let acc = config_accumulator();
    assert_eq!(acc.names, vec!["host".to_string(), "port".to_string(), "tag".to_string()]);
    assert_eq!(acc.required, vec![true, true, false]);
    assert_eq!(acc.slots, vec![None, None, None]);
}

#[test]
fn scenario_config_success_without_optional() {
    let mut acc = config_accumulator();
    acc.set(0, text("a"));
    acc.set(1, Value::Int(80));
    let instance = acc.assemble().unwrap();
    assert_eq!(
        instance.fields,
        vec![
            InstanceField::Req(text("a")),
            InstanceField::Req(Value::Int(80)),
            InstanceField::Opt(None),
        ]
    );
}

#[test]
fn scenario_config_missing_host_fails() {
    let mut acc = config_accumulator();
    acc.set(1, Value::Int(80));
    assert_eq!(
        acc.assemble(),
        Err(AssembleError::MissingField { field: "host".to_string() })
    );
}

#[test]
fn scenario_config_with_optional_set() {
    let mut acc = config_accumulator();
    acc.set(0, text("a"));
    acc.set(1, Value::Int(80));
    acc.set(2, text("x"));
    let instance = acc.assemble().unwrap();
    assert_eq!(
        instance.fields,
        vec![
            InstanceField::Req(text("a")),
            InstanceField::Req(Value::Int(80)),
            InstanceField::Opt(Some(text("x"))),
        ]
    );
}

#[test]
fn all_optional_assembles_with_everything_absent() {
    let description = StructDescription {
        name: "Loose".to_string(),
        data: DataShape::NamedFields(vec![
            field("first", path("Option", vec![path("u8", vec![])])),
            field("second", path("Option", vec![path("String", vec![])])),
        ]),
    };
    let acc = builder::synth::derive(description).unwrap().factory();
    let instance = acc.assemble().unwrap();
    assert_eq!(
        instance.fields,
        vec![InstanceField::Opt(None), InstanceField::Opt(None)]
    );
}

#[test]
fn required_field_gates_assembly() {
    let mut acc = config_accumulator();
    acc.set(1, Value::Int(80));
    acc.set(2, text("x"));
    assert!(acc.assemble().is_err());
    acc.set(0, text("a"));
    assert!(acc.assemble().is_ok());
}

#[test]
fn error_names_first_missing_field_in_declaration_order() {
    let acc = config_accumulator();
    assert_eq!(
        acc.assemble(),
        Err(AssembleError::MissingField { field: "host".to_string() })
    );
}

#[test]
fn setter_overwrites_last_write_wins() {
    let mut acc = config_accumulator();
    acc.set(0, text("first"));
    acc.set(1, Value::Int(80));
    acc.set(0, text("second"));
    let instance = acc.assemble().unwrap();
    assert_eq!(instance.fields[0], InstanceField::Req(text("second")));
}

#[test]
fn field_order_ignores_setter_call_order() {
    let mut forward = config_accumulator();
    forward.set(0, text("a"));
    forward.set(1, Value::Int(80));
    forward.set(2, text("x"));

    let mut backward = config_accumulator();
    backward.set(2, text("x"));
    backward.set(1, Value::Int(80));
    backward.set(0, text("a"));

    assert_eq!(forward.assemble(), backward.assemble());
}

#[test]
fn round_trip_matches_direct_construction() {
    let mut acc = config_accumulator();
    acc.set(0, text("a"));
    acc.set(1, Value::Int(80));
    acc.set(2, text("x"));
    let assembled = acc.assemble().unwrap();
    let direct = builder::accumulator::Instance {
        fields: vec![
            InstanceField::Req(text("a")),
            InstanceField::Req(Value::Int(80)),
            InstanceField::Opt(Some(text("x"))),
        ],
    };
    assert_eq!(assembled, direct);
}

#[test]
fn accumulator_stays_reusable_after_assembly() {
    let mut acc = config_accumulator();
    acc.set(0, text("a"));
    acc.set(1, Value::Int(80));
    let once = acc.assemble().unwrap();
    let again = acc.assemble().unwrap();
    assert_eq!(once, again);
    // The slots were read, not consumed: a later setter call still works.
    acc.set(2, text("x"));
    assert_eq!(
        acc.assemble().unwrap().fields[2],
        InstanceField::Opt(Some(text("x")))
    );
}
