//! Generation-side behaviour: extraction, classification and synthesis.

use builder::classify::{classify, is_option, option_inner, Classification};
use builder::extract::extract_schema;
use builder::model::{DataShape, FieldSchema, GenError, StructDescription, TypeExpr};
use builder::synth::{AssembleStep, SlotType};

fn path(head: &str, args: Vec<TypeExpr>) -> TypeExpr {
    TypeExpr::Path { head: head.to_string(), args, tail: String::new() }
}

fn field(name: &str, ty: TypeExpr) -> FieldSchema {
    FieldSchema { name: name.to_string(), ty }
}

fn config_fields() -> Vec<FieldSchema> {
    vec![
        field("host", path("String", vec![])),
        field("port", path("i32", vec![])),
        field("tag", path("Option", vec![path("String", vec![])])),
    ]
}

#[test]
fn is_option_matches_lexically() {
    assert!(is_option(&path("Option", vec![path("String", vec![])])));
    assert!(is_option(&path("Option", vec![])));
    assert!(!is_option(&path("String", vec![])));
    assert!(!is_option(&TypeExpr::Verbatim("&str".to_string())));
}

#[test]
fn qualified_optional_is_not_recognized() {
    // The match is purely lexical on the head of the path: a fully
    // qualified `std::option::Option<String>` has head `std`.
    let qualified = TypeExpr::Path {
        head: "std".to_string(),
        args: vec![],
        tail: "::option::Option<String>".to_string(),
    };
    assert!(!is_option(&qualified));
}

#[test]
fn option_inner_takes_the_sole_argument() {
    let inner = option_inner(&path("Option", vec![path("u8", vec![])]));
    assert_eq!(inner, Some(path("u8", vec![])));
    assert_eq!(option_inner(&path("Option", vec![])), None);
    assert_eq!(
        option_inner(&path("Option", vec![path("u8", vec![]), path("u16", vec![])])),
        None
    );
    assert_eq!(option_inner(&TypeExpr::Verbatim("(u8, u8)".to_string())), None);
}

#[test]
fn classify_required_and_optional() {
    let req = classify(field("port", path("i32", vec![]))).unwrap();
    assert_eq!(req.class, Classification::Required(path("i32", vec![])));
    assert_eq!(req.declared, path("i32", vec![]));

    let opt = classify(field("tag", path("Option", vec![path("String", vec![])]))).unwrap();
    assert_eq!(opt.class, Classification::Optional(path("String", vec![])));
    assert_eq!(opt.declared, path("Option", vec![path("String", vec![])]));
}

#[test]
fn classify_marker_named_user_type_is_optional() {
    // A user-defined generic type merely named `Option` is classified as
    // optional: classification is lexical, with no alias resolution.
    let c = classify(field("inner", path("Option", vec![path("Config", vec![])]))).unwrap();
    assert_eq!(c.class, Classification::Optional(path("Config", vec![])));
}

#[test]
fn classify_malformed_optional_fails() {
    let zero = classify(field("bad", path("Option", vec![])));
    assert_eq!(zero, Err(GenError::MalformedOptional { field: "bad".to_string() }));

    let two = classify(field(
        "worse",
        path("Option", vec![path("u8", vec![]), path("u16", vec![])]),
    ));
    assert_eq!(two, Err(GenError::MalformedOptional { field: "worse".to_string() }));
}

#[test]
fn extract_schema_accepts_only_named_fields() {
    let fields = config_fields();
    assert_eq!(extract_schema(DataShape::NamedFields(config_fields())), Ok(fields));
    assert_eq!(extract_schema(DataShape::Positional), Err(GenError::NoNamedFields));
    assert_eq!(extract_schema(DataShape::Unit), Err(GenError::NoNamedFields));
    assert_eq!(extract_schema(DataShape::Enumeration), Err(GenError::NotAStruct));
    assert_eq!(extract_schema(DataShape::Untagged), Err(GenError::NotAStruct));
}

#[test]
fn derive_config_builder() {
    let description = StructDescription {
        name: "Config".to_string(),
        data: DataShape::NamedFields(config_fields()),
    };
    let generated = builder::synth::derive(description).unwrap();

    assert_eq!(generated.source_name, "Config");
    assert_eq!(generated.builder_name, "ConfigBuilder");

    let slots = &generated.layout.slots;
    assert_eq!(slots.len(), 3);
    assert_eq!(slots[0].name, "host");
    assert_eq!(slots[0].ty, SlotType::OptionOf(path("String", vec![])));
    assert_eq!(slots[1].name, "port");
    assert_eq!(slots[1].ty, SlotType::OptionOf(path("i32", vec![])));
    assert_eq!(slots[2].name, "tag");
    assert_eq!(
        slots[2].ty,
        SlotType::Declared(path("Option", vec![path("String", vec![])]))
    );

    let setters = &generated.setters;
    assert_eq!(setters.len(), 3);
    assert_eq!(setters[0].name, "host");
    assert_eq!(setters[0].param, path("String", vec![]));
    assert_eq!(setters[1].name, "port");
    assert_eq!(setters[1].param, path("i32", vec![]));
    // The optional field's setter takes the unwrapped inner type.
    assert_eq!(setters[2].name, "tag");
    assert_eq!(setters[2].param, path("String", vec![]));

    assert_eq!(
        generated.assembly,
        vec![
            AssembleStep::RequireSlot { field: "host".to_string() },
            AssembleStep::RequireSlot { field: "port".to_string() },
            AssembleStep::CopySlot { field: "tag".to_string() },
        ]
    );
}

#[test]
fn derive_rejects_non_struct_shapes() {
    let not_a_struct = StructDescription {
        name: "Choice".to_string(),
        data: DataShape::Enumeration,
    };
    assert_eq!(builder::synth::derive(not_a_struct), Err(GenError::NotAStruct));

    let positional = StructDescription {
        name: "Pair".to_string(),
        data: DataShape::Positional,
    };
    assert_eq!(builder::synth::derive(positional), Err(GenError::NoNamedFields));

    let unit = StructDescription { name: "Nothing".to_string(), data: DataShape::Unit };
    assert_eq!(builder::synth::derive(unit), Err(GenError::NoNamedFields));
}

#[test]
fn derive_reports_first_malformed_field() {
    let description = StructDescription {
        name: "Broken".to_string(),
        data: DataShape::NamedFields(vec![
            field("fine", path("u8", vec![])),
            field("first_bad", path("Option", vec![])),
            field(
                "second_bad",
                path("Option", vec![path("u8", vec![]), path("u16", vec![])]),
            ),
        ]),
    };
    assert_eq!(
        builder::synth::derive(description),
        Err(GenError::MalformedOptional { field: "first_bad".to_string() })
    );
}

#[test]
fn duplicate_copies_the_whole_type() {
    let ty = path(
        "Result",
        vec![path("Option", vec![path("u8", vec![])]), TypeExpr::Verbatim("()".to_string())],
    );
    assert_eq!(ty.duplicate(), ty);
}
