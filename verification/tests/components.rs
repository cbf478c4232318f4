use swagg::document::{FormatFloat, FormatInteger, FormatString};
use swagg::emit::{Declaration, FieldDecl, TypeBase, TypeExpr, TypeWrap, VariantDecl};
use swagg::emit::split_type_path;
use swagg::printer::components::{Component, ComponentsModule, EnumVariant, Field, FieldType};
use swagg::printer::components::{NativeType, ParametersModule, RequestBodiesModule};
use swagg::printer::components::{ResponsesModule, SchemasModule};

fn named(name: &str) -> TypeExpr {
    TypeExpr { wrappers: Vec::new(), base: TypeBase::Named(name.to_string()) }
}

fn wrapped(wrappers: Vec<TypeWrap>, name: &str) -> TypeExpr {
    TypeExpr { wrappers, base: TypeBase::Named(name.to_string()) }
}

fn pathed(segments: &[&str]) -> TypeExpr {
    TypeExpr {
        wrappers: Vec::new(),
        base: TypeBase::Pathed(segments.iter().map(|s| s.to_string()).collect()),
    }
}

#[test]
fn format_float() {
    assert_eq!(NativeType::Float { format: FormatFloat::Float }.print(), "f32".to_string());
    assert_eq!(NativeType::Float { format: FormatFloat::Double }.print(), "f64".to_string());
}

#[test]
fn format_integer() {
    assert_eq!(NativeType::Integer { format: FormatInteger::Int32 }.print(), "i32".to_string());
    assert_eq!(NativeType::Integer { format: FormatInteger::Int64 }.print(), "i64".to_string());
}

#[test]
fn format_string() {
    let formats = vec![
        FormatString::Plain,
        FormatString::Binary,
        FormatString::Byte,
        FormatString::Date,
        FormatString::DateTime,
        FormatString::Email,
        FormatString::Hostname,
        FormatString::Ipv4,
        FormatString::Ipv6,
        FormatString::Password,
        FormatString::Url,
        FormatString::Uuid,
        FormatString::Pattern(".*".to_string()),
    ];
    for format in formats {
        assert_eq!(NativeType::Text { format }.print(), "String".to_string());
    }
}

#[test]
fn native_type_string() {
    assert_eq!(NativeType::Text { format: FormatString::Plain }.print(), "String".to_string());
}

#[test]
fn native_type_float() {
    assert_eq!(NativeType::Float { format: FormatFloat::Float }.print(), "f32".to_string());
}

#[test]
fn native_type_integer() {
    assert_eq!(NativeType::Integer { format: FormatInteger::Int32 }.print(), "i32".to_string());
}

#[test]
fn native_type_boolean() {
    assert_eq!(NativeType::Boolean.print(), "bool".to_string());
}

#[test]
fn convert_path_to_stream() {
    assert_eq!(
        split_type_path("crate::app::Type"),
        vec!["crate".to_string(), "app".to_string(), "Type".to_string()]
    );
    assert_eq!(split_type_path("Type"), vec!["Type".to_string()]);
    assert_eq!(
        split_type_path("super::super::app::Type"),
        vec!["super".to_string(), "super".to_string(), "app".to_string(), "Type".to_string()]
    );
}

#[test]
fn field_type_native() {
    assert_eq!(FieldType::Native(NativeType::Boolean).print(), named("bool"));
    assert_eq!(
        FieldType::Native(NativeType::Float { format: FormatFloat::Double }).print(),
        named("f64")
    );
    assert_eq!(
        FieldType::Native(NativeType::Text { format: FormatString::Email }).print(),
        named("String")
    );
}

#[test]
fn field_type_custom() {
    assert_eq!(FieldType::Custom("MySuperType".to_string()).print(), named("MySuperType"));
    assert_eq!(FieldType::Custom("i32".to_string()).print(), named("i32"));
}

#[test]
fn field_type_internal_allow_path() {
    assert_eq!(
        FieldType::Internal("some::Example".to_string()).print(),
        pathed(&["some", "Example"])
    );
}

#[test]
fn field_type_array() {
    assert_eq!(
        FieldType::Array(Box::new(FieldType::Native(NativeType::Boolean))).print(),
        wrapped(vec![TypeWrap::VecOf], "bool")
    );
    assert_eq!(
        FieldType::Array(Box::new(FieldType::Array(Box::new(FieldType::Native(
            NativeType::Boolean
        )))))
        .print(),
        wrapped(vec![TypeWrap::VecOf, TypeWrap::VecOf], "bool")
    );
    assert_eq!(
        FieldType::Array(Box::new(FieldType::Array(Box::new(FieldType::Custom(
            "Super".to_string()
        )))))
        .print(),
        wrapped(vec![TypeWrap::VecOf, TypeWrap::VecOf], "Super")
    );
    let nested = FieldType::Array(Box::new(FieldType::Array(Box::new(FieldType::Internal(
        "crate::Super".to_string(),
    )))))
    .print();
    assert_eq!(nested.wrappers, vec![TypeWrap::VecOf, TypeWrap::VecOf]);
    assert_eq!(
        nested.base,
        TypeBase::Pathed(vec!["crate".to_string(), "Super".to_string()])
    );
}

#[test]
fn component_type() {
    let decl = Component::Type {
        name: "snake_case_name".to_string(),
        description: None,
        type_value: FieldType::Internal("super::another::Type".to_string()),
    }
    .print();
    assert_eq!(
        decl,
        Declaration::AliasDecl {
            doc: None,
            name: "SnakeCaseName".to_string(),
            ty: pathed(&["super", "another", "Type"]),
        }
    );

    let decl = Component::Type {
        name: "UPPER_CASE_NAME".to_string(),
        description: Some("Example description for test type export".to_string()),
        type_value: FieldType::Internal("super::another::Type".to_string()),
    }
    .print();
    assert_eq!(
        decl,
        Declaration::AliasDecl {
            doc: Some("Example description for test type export".to_string()),
            name: "UpperCaseName".to_string(),
            ty: pathed(&["super", "another", "Type"]),
        }
    );
}

#[test]
fn component_object() {
    let decl = Component::Object {
        name: "snake_case_name".to_string(),
        description: None,
        fields: vec![],
    }
    .print();
    assert_eq!(
        decl,
        Declaration::StructDecl { doc: None, name: "SnakeCaseName".to_string(), fields: vec![] }
    );

    let decl = Component::Object {
        name: "UPPER_CASE_NAME".to_string(),
        description: Some("My super long description.\nOr not".to_string()),
        fields: vec![],
    }
    .print();
    assert_eq!(
        decl,
        Declaration::StructDecl {
            doc: Some("My super long description.\nOr not".to_string()),
            name: "UpperCaseName".to_string(),
            fields: vec![],
        }
    );

    let decl = Component::Object {
        name: "THIS-IS-FIELDS".to_string(),
        description: None,
        fields: vec![
            Field {
                name: "UPPER_CASE_FIELD".to_string(),
                description: Some("Description".to_string()),
                required: true,
                field_type: FieldType::Native(NativeType::Text { format: FormatString::Plain }),
            },
            Field {
                name: "snake_case_field".to_string(),
                description: None,
                required: true,
                field_type: FieldType::Native(NativeType::Integer {
                    format: FormatInteger::Int64,
                }),
            },
            Field {
                name: "superCase".to_string(),
                description: None,
                required: false,
                field_type: FieldType::Internal("super::super::app::Type".to_string()),
            },
            Field {
                name: "JustAnother".to_string(),
                description: Some("".to_string()),
                required: false,
                field_type: FieldType::Array(Box::new(FieldType::Internal("i128".to_string()))),
            },
        ],
    }
    .print();
    assert_eq!(
        decl,
        Declaration::StructDecl {
            doc: None,
            name: "ThisIsFields".to_string(),
            fields: vec![
                FieldDecl {
                    doc: Some("Description".to_string()),
                    rename: Some("UPPER_CASE_FIELD".to_string()),
                    name: "upper_case_field".to_string(),
                    ty: named("String"),
                },
                FieldDecl {
                    doc: None,
                    rename: None,
                    name: "snake_case_field".to_string(),
                    ty: named("i64"),
                },
                FieldDecl {
                    doc: None,
                    rename: Some("superCase".to_string()),
                    name: "super_case".to_string(),
                    ty: TypeExpr {
                        wrappers: vec![TypeWrap::OptionOf],
                        base: TypeBase::Pathed(vec![
                            "super".to_string(),
                            "super".to_string(),
                            "app".to_string(),
                            "Type".to_string(),
                        ]),
                    },
                },
                FieldDecl {
                    doc: Some("".to_string()),
                    rename: Some("JustAnother".to_string()),
                    name: "just_another".to_string(),
                    ty: TypeExpr {
                        wrappers: vec![TypeWrap::OptionOf, TypeWrap::VecOf],
                        base: TypeBase::Pathed(vec!["i128".to_string()]),
                    },
                },
            ],
        }
    );
}

#[test]
fn component_enum() {
    let decl = Component::Enum {
        name: "snake_case_name".to_string(),
        description: None,
        variants: vec![],
    }
    .print();
    assert_eq!(
        decl,
        Declaration::EnumDecl { doc: None, name: "SnakeCaseName".to_string(), variants: vec![] }
    );

    let decl = Component::Enum {
        name: "UPPER_CASE_NAME".to_string(),
        description: Some("My super long description.\nOr not".to_string()),
        variants: vec![],
    }
    .print();
    assert_eq!(
        decl,
        Declaration::EnumDecl {
            doc: Some("My super long description.\nOr not".to_string()),
            name: "UpperCaseName".to_string(),
            variants: vec![],
        }
    );

    let decl = Component::Enum {
        name: "THIS-IS-FIELDS".to_string(),
        description: None,
        variants: vec![
            EnumVariant {
                name: "UPPER_CASE_FIELD".to_string(),
                description: Some("Description".to_string()),
            },
            EnumVariant { name: "snake_case_field".to_string(), description: None },
            EnumVariant { name: "superCase".to_string(), description: None },
            EnumVariant { name: "JustAnother".to_string(), description: Some("".to_string()) },
        ],
    }
    .print();
    assert_eq!(
        decl,
        Declaration::EnumDecl {
            doc: None,
            name: "ThisIsFields".to_string(),
            variants: vec![
                VariantDecl {
                    doc: Some("Description".to_string()),
                    rename: Some("UPPER_CASE_FIELD".to_string()),
                    name: "UpperCaseField".to_string(),
                },
                VariantDecl {
                    doc: None,
                    rename: Some("snake_case_field".to_string()),
                    name: "SnakeCaseField".to_string(),
                },
                VariantDecl {
                    doc: None,
                    rename: Some("superCase".to_string()),
                    name: "SuperCase".to_string(),
                },
                VariantDecl {
                    doc: Some("".to_string()),
                    rename: None,
                    name: "JustAnother".to_string(),
                },
            ],
        }
    );
}

#[test]
fn parameters_with_some_components() {
    let module = ParametersModule {
        list: vec![
            Component::Enum { name: "Example".to_string(), description: None, variants: vec![] },
            Component::Object { name: "Test".to_string(), description: None, fields: vec![] },
        ],
    };
    let node = module.print();
    assert_eq!(node.name, "parameters".to_string());
    assert_eq!(
        node.decls,
        vec![
            Declaration::EnumDecl { doc: None, name: "Example".to_string(), variants: vec![] },
            Declaration::StructDecl { doc: None, name: "Test".to_string(), fields: vec![] },
        ]
    );
}

#[test]
fn responses_with_some_components() {
    let module = ResponsesModule {
        list: vec![
            Component::Enum { name: "Example".to_string(), description: None, variants: vec![] },
            Component::Object { name: "Test".to_string(), description: None, fields: vec![] },
        ],
    };
    let node = module.print();
    assert_eq!(node.name, "responses".to_string());
    assert_eq!(node.decls.len(), 2);
}

#[test]
fn request_bodies_with_some_components() {
    let module = RequestBodiesModule {
        list: vec![
            Component::Enum { name: "Example".to_string(), description: None, variants: vec![] },
            Component::Object { name: "Test".to_string(), description: None, fields: vec![] },
        ],
    };
    let node = module.print();
    assert_eq!(node.name, "request_bodies".to_string());
    assert_eq!(node.decls.len(), 2);
}

#[test]
fn schemas_with_some_components() {
    let module = SchemasModule {
        list: vec![
            Component::Enum { name: "Example".to_string(), description: None, variants: vec![] },
            Component::Object { name: "Test".to_string(), description: None, fields: vec![] },
        ],
    };
    let node = module.print();
    assert_eq!(node.name, "schemas".to_string());
    assert_eq!(node.decls.len(), 2);
}

#[test]
fn components_module_default() {
    let node = ComponentsModule::default().print();
    assert_eq!(node.parameters.name, "parameters".to_string());
    assert_eq!(node.parameters.decls, vec![]);
    assert_eq!(node.request_bodies.name, "request_bodies".to_string());
    assert_eq!(node.request_bodies.decls, vec![]);
    assert_eq!(node.responses.name, "responses".to_string());
    assert_eq!(node.responses.decls, vec![]);
    assert_eq!(node.schemas.name, "schemas".to_string());
    assert_eq!(node.schemas.decls, vec![]);
}

#[test]
fn module_components_module_default() {
    let node = ComponentsModule::default().print();
    assert_eq!(node.parameters.decls.len(), 0);
    assert_eq!(node.request_bodies.decls.len(), 0);
    assert_eq!(node.responses.decls.len(), 0);
    assert_eq!(node.schemas.decls.len(), 0);
}
