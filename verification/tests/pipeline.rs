use swagg::binder::{bind, BindError};
use swagg::document::{ApiInfo, ComponentSections, Document, FormatInteger, FormatString};
use swagg::document::{MediaType, Operation, Parameter, ParameterLocation, PathItem, RawSchema};
use swagg::document::{RawSchemaKind, RefOr, RequestBody, Response, ResponseEntry};
use swagg::emit::{TypeBase, TypeWrap};
use swagg::generator::{generate, GenerationError};
use swagg::highway::{build, BuildError, BuildWarning, Components};
use swagg::resolver::{classify_reference, resolve_schema, Reference, ReferenceRelative};
use swagg::resolver::ResolutionError;

fn info() -> ApiInfo {
    ApiInfo {
        title: "Test api".to_string(),
        version: "0.1.0".to_string(),
        description: None,
        terms_of_service: None,
    }
}

fn empty_sections() -> ComponentSections {
    ComponentSections {
        security_schemes: vec![],
        responses: vec![],
        parameters: vec![],
        request_bodies: vec![],
        headers: vec![],
        schemas: vec![],
    }
}

fn empty_path_item() -> PathItem {
    PathItem {
        get: None,
        put: None,
        post: None,
        delete: None,
        options: None,
        head: None,
        patch: None,
        trace: None,
    }
}

fn string_schema() -> RawSchema {
    RawSchema {
        description: None,
        kind: RawSchemaKind::ScalarString { format: FormatString::Plain },
    }
}

fn integer_schema() -> RawSchema {
    RawSchema {
        description: None,
        kind: RawSchemaKind::ScalarInteger { format: FormatInteger::Int32 },
    }
}

fn schema_ref(name: &str) -> String {
    format!("#/components/schemas/{}", name)
}

fn session_user_schema() -> RawSchema {
    RawSchema {
        description: None,
        kind: RawSchemaKind::Object {
            properties: vec![
                ("firstName".to_string(), RefOr::Item(Box::new(string_schema()))),
                ("lastName".to_string(), RefOr::Item(Box::new(string_schema()))),
                ("age".to_string(), RefOr::Item(Box::new(integer_schema()))),
            ],
            required: vec!["firstName".to_string(), "lastName".to_string()],
        },
    }
}

fn response_with_schema_ref(name: &str) -> Response {
    Response {
        description: None,
        content: vec![(
            "application/json".to_string(),
            MediaType { schema: Some(RefOr::Reference { reference: schema_ref(name) }) },
        )],
    }
}

fn empty_response() -> Response {
    Response { description: None, content: vec![] }
}

fn operation(id: &str, responses: Vec<ResponseEntry>) -> Operation {
    Operation {
        operation_id: Some(id.to_string()),
        description: None,
        parameters: vec![],
        request_body: None,
        responses,
    }
}

fn entry(status: u16, label: Option<&str>, response: Response) -> ResponseEntry {
    ResponseEntry {
        status,
        variant_label: label.map(|l| l.to_string()),
        response: RefOr::Item(response),
    }
}

#[test]
fn determinism_two_runs() {
    let make_doc = || Document {
        info: info(),
        paths: vec![(
            "/session".to_string(),
            RefOr::Item(PathItem {
                get: Some(operation(
                    "sessionGet",
                    vec![
                        entry(200, None, empty_response()),
                        entry(404, None, response_with_schema_ref("SessionUser")),
                    ],
                )),
                ..empty_path_item()
            }),
        )],
        components: Some(ComponentSections {
            schemas: vec![("SessionUser".to_string(), RefOr::Item(session_user_schema()))],
            ..empty_sections()
        }),
    };
    let (first, first_warnings) = generate(&make_doc()).unwrap();
    let (second, second_warnings) = generate(&make_doc()).unwrap();
    assert_eq!(first_warnings.len(), second_warnings.len());
    assert_eq!(first.print(), second.print());
}

#[test]
fn reference_round_trip() {
    let doc = Document {
        info: info(),
        paths: vec![],
        components: Some(ComponentSections {
            schemas: vec![
                (
                    "Alias".to_string(),
                    RefOr::Reference { reference: schema_ref("Target") },
                ),
                ("Target".to_string(), RefOr::Item(string_schema())),
            ],
            ..empty_sections()
        }),
    };
    let through_alias = resolve_schema(&doc, &schema_ref("Alias")).unwrap();
    let direct = resolve_schema(&doc, &schema_ref("Target")).unwrap();
    assert!(matches!(
        through_alias.kind,
        RawSchemaKind::ScalarString { format: FormatString::Plain }
    ));
    assert!(matches!(
        direct.kind,
        RawSchemaKind::ScalarString { format: FormatString::Plain }
    ));
}

#[test]
fn cycle_detection_self() {
    let doc = Document {
        info: info(),
        paths: vec![],
        components: Some(ComponentSections {
            schemas: vec![(
                "A".to_string(),
                RefOr::Reference { reference: schema_ref("A") },
            )],
            ..empty_sections()
        }),
    };
    assert!(matches!(
        resolve_schema(&doc, &schema_ref("A")),
        Err(ResolutionError::CycleDetected)
    ));
}

#[test]
fn cycle_detection_mutual() {
    let doc = Document {
        info: info(),
        paths: vec![],
        components: Some(ComponentSections {
            schemas: vec![
                ("A".to_string(), RefOr::Reference { reference: schema_ref("B") }),
                ("B".to_string(), RefOr::Reference { reference: schema_ref("A") }),
            ],
            ..empty_sections()
        }),
    };
    assert!(matches!(
        resolve_schema(&doc, &schema_ref("A")),
        Err(ResolutionError::CycleDetected)
    ));
    assert!(matches!(
        resolve_schema(&doc, &schema_ref("B")),
        Err(ResolutionError::CycleDetected)
    ));
}

#[test]
fn resolution_wrong_namespace() {
    let doc = Document { info: info(), paths: vec![], components: Some(empty_sections()) };
    assert!(matches!(
        resolve_schema(&doc, "#/components/responses/X"),
        Err(ResolutionError::WrongNamespace)
    ));
}

#[test]
fn resolution_not_found() {
    let doc = Document { info: info(), paths: vec![], components: Some(empty_sections()) };
    assert!(matches!(
        resolve_schema(&doc, &schema_ref("Missing")),
        Err(ResolutionError::NotFound { .. })
    ));
}

#[test]
fn duplicate_status_rejected() {
    let doc = Document {
        info: info(),
        paths: vec![(
            "/thing".to_string(),
            RefOr::Item(PathItem {
                get: Some(operation(
                    "thingGet",
                    vec![
                        entry(200, None, empty_response()),
                        entry(200, None, empty_response()),
                    ],
                )),
                ..empty_path_item()
            }),
        )],
        components: None,
    };
    match generate(&doc) {
        Err(GenerationError::Bind(BindError::DuplicateStatus { operation, status })) => {
            assert_eq!(operation, "thingGet".to_string());
            assert_eq!(status, 200);
        },
        other => panic!("expected a duplicate status failure, got {:?}", other.is_ok()),
    }
}

#[test]
fn duplicate_status_with_label_succeeds() {
    let doc = Document {
        info: info(),
        paths: vec![(
            "/thing".to_string(),
            RefOr::Item(PathItem {
                get: Some(operation(
                    "thingGet",
                    vec![
                        entry(200, None, empty_response()),
                        entry(200, Some("Labelled"), empty_response()),
                    ],
                )),
                ..empty_path_item()
            }),
        )],
        components: None,
    };
    let (module, warnings) = generate(&doc).unwrap();
    assert_eq!(warnings.len(), 0);
    assert_eq!(module.paths_module.paths.len(), 1);
    let node = module.paths_module.paths[0].print();
    assert_eq!(node.response_variants.len(), 2);
    assert_eq!(node.response_variants[0].name, "Ok".to_string());
    assert_eq!(node.response_variants[1].name, "Labelled".to_string());
}

#[test]
fn grouping_one_scope_per_path() {
    let doc = Document {
        info: info(),
        paths: vec![(
            "/session".to_string(),
            RefOr::Item(PathItem {
                get: Some(operation("sessionGet", vec![entry(200, None, empty_response())])),
                post: Some(operation(
                    "sessionCreate",
                    vec![entry(201, None, empty_response())],
                )),
                ..empty_path_item()
            }),
        )],
        components: None,
    };
    let (graph, warnings) = build(&doc).unwrap();
    assert_eq!(warnings.len(), 0);
    let scopes = bind(&doc, &graph).unwrap();
    assert_eq!(scopes.len(), 1);
    assert_eq!(scopes[0].path, "/session".to_string());
    assert_eq!(scopes[0].operations.len(), 2);
    assert_eq!(scopes[0].operations[0].name, "sessionGet".to_string());
    assert_eq!(scopes[0].operations[1].name, "sessionCreate".to_string());
}

#[test]
fn end_to_end_session_user() {
    let doc = Document {
        info: info(),
        paths: vec![(
            "/session".to_string(),
            RefOr::Item(PathItem {
                get: Some(operation(
                    "sessionGet",
                    vec![
                        entry(200, None, empty_response()),
                        entry(404, None, response_with_schema_ref("SessionUser")),
                    ],
                )),
                ..empty_path_item()
            }),
        )],
        components: Some(ComponentSections {
            schemas: vec![("SessionUser".to_string(), RefOr::Item(session_user_schema()))],
            ..empty_sections()
        }),
    };
    let (module, warnings) = generate(&doc).unwrap();
    assert_eq!(warnings.len(), 0);

    assert_eq!(module.components_module.schemas.list.len(), 1);
    let schema_decl = module.components_module.schemas.list[0].print();
    match schema_decl {
        swagg::emit::Declaration::StructDecl { doc: None, name, fields } => {
            assert_eq!(name, "SessionUser".to_string());
            assert_eq!(fields.len(), 3);
            assert_eq!(fields[0].name, "first_name".to_string());
            assert_eq!(fields[0].rename, Some("firstName".to_string()));
            assert_eq!(fields[0].ty.wrappers, Vec::<TypeWrap>::new());
            assert_eq!(fields[0].ty.base, TypeBase::Named("String".to_string()));
            assert_eq!(fields[1].name, "last_name".to_string());
            assert_eq!(fields[1].ty.wrappers, Vec::<TypeWrap>::new());
            assert_eq!(fields[2].name, "age".to_string());
            assert_eq!(fields[2].ty.wrappers, vec![TypeWrap::OptionOf]);
            assert_eq!(fields[2].ty.base, TypeBase::Named("i32".to_string()));
        },
        other => panic!("expected a struct declaration, got {:?}", other),
    }

    assert_eq!(module.paths_module.paths.len(), 1);
    let op_node = module.paths_module.paths[0].print();
    assert_eq!(op_node.module_name, "session_get".to_string());
    assert_eq!(op_node.response_variants.len(), 2);
    assert_eq!(op_node.response_variants[0].name, "Ok".to_string());
    assert_eq!(op_node.response_variants[0].payload, None);
    assert_eq!(op_node.response_variants[1].name, "NotFound".to_string());
    assert_eq!(
        op_node.response_variants[1].payload,
        Some("SessionUser".to_string())
    );

    let api_node = module.api_module.print();
    assert_eq!(api_node.structure.name, "TestApi".to_string());
    assert_eq!(api_node.methods.binds.len(), 1);
    assert_eq!(api_node.methods.binds[0].fn_name, "bind_session_get".to_string());
    assert_eq!(api_node.methods.binds[0].method_name, "GET".to_string());
    assert_eq!(api_node.methods.binds[0].path, "/session".to_string());
}

#[test]
fn unsupported_schema_warning() {
    let doc = Document {
        info: info(),
        paths: vec![],
        components: Some(ComponentSections {
            schemas: vec![
                (
                    "Weird".to_string(),
                    RefOr::Item(RawSchema {
                        description: None,
                        kind: RawSchemaKind::Unsupported { detail: "oneOf".to_string() },
                    }),
                ),
                ("Good".to_string(), RefOr::Item(string_schema())),
            ],
            ..empty_sections()
        }),
    };
    let (module, warnings) = generate(&doc).unwrap();
    assert_eq!(warnings.len(), 1);
    match &warnings[0] {
        BuildWarning::Unsupported { name, detail } => {
            assert_eq!(name, &"Weird".to_string());
            assert_eq!(detail, &"unsupported schema shape".to_string());
        },
    }
    assert_eq!(module.components_module.schemas.list.len(), 1);
    assert_eq!(
        module.components_module.schemas.list[0].name(),
        &"Good".to_string()
    );
}

#[test]
fn nested_objects_are_promoted() {
    let doc = Document {
        info: info(),
        paths: vec![],
        components: Some(ComponentSections {
            schemas: vec![(
                "SessionUser".to_string(),
                RefOr::Item(RawSchema {
                    description: Some("Current user in a session".to_string()),
                    kind: RawSchemaKind::Object {
                        properties: vec![
                            (
                                "firstName".to_string(),
                                RefOr::Item(Box::new(string_schema())),
                            ),
                            (
                                "inner".to_string(),
                                RefOr::Item(Box::new(RawSchema {
                                    description: None,
                                    kind: RawSchemaKind::Object {
                                        properties: vec![(
                                            "baz".to_string(),
                                            RefOr::Item(Box::new(RawSchema {
                                                description: None,
                                                kind: RawSchemaKind::Object {
                                                    properties: vec![(
                                                        "demo".to_string(),
                                                        RefOr::Item(Box::new(string_schema())),
                                                    )],
                                                    required: vec![],
                                                },
                                            })),
                                        )],
                                        required: vec!["baz".to_string()],
                                    },
                                })),
                            ),
                        ],
                        required: vec!["firstName".to_string()],
                    },
                }),
            )],
            ..empty_sections()
        }),
    };
    let (module, warnings) = generate(&doc).unwrap();
    assert_eq!(warnings.len(), 0);
    let names: Vec<String> = module
        .components_module
        .schemas
        .list
        .iter()
        .map(|c| c.name().clone())
        .collect();
    assert_eq!(
        names,
        vec![
            "SessionUser".to_string(),
            "SessionUserInner".to_string(),
            "SessionUserInnerBaz".to_string(),
        ]
    );
}

#[test]
fn name_collision_is_fatal() {
    let doc = Document {
        info: info(),
        paths: vec![],
        components: Some(ComponentSections {
            schemas: vec![
                (
                    "session_user".to_string(),
                    RefOr::Item(RawSchema {
                        description: None,
                        kind: RawSchemaKind::Object { properties: vec![], required: vec![] },
                    }),
                ),
                ("SessionUser".to_string(), RefOr::Item(string_schema())),
            ],
            ..empty_sections()
        }),
    };
    match generate(&doc) {
        Err(GenerationError::Build(BuildError::NameCollision { proposed, .. })) => {
            assert_eq!(proposed, "SessionUser".to_string());
        },
        other => panic!("expected a name collision, got {:?}", other.is_ok()),
    }
}

#[test]
fn missing_operation_id_is_fatal() {
    let doc = Document {
        info: info(),
        paths: vec![(
            "/x".to_string(),
            RefOr::Item(PathItem {
                get: Some(Operation {
                    operation_id: None,
                    description: None,
                    parameters: vec![],
                    request_body: None,
                    responses: vec![],
                }),
                ..empty_path_item()
            }),
        )],
        components: None,
    };
    assert!(matches!(
        generate(&doc),
        Err(GenerationError::Bind(BindError::MissingOperationId { .. }))
    ));
}

#[test]
fn unmodelled_status_is_fatal() {
    let doc = Document {
        info: info(),
        paths: vec![(
            "/x".to_string(),
            RefOr::Item(PathItem {
                get: Some(operation("xGet", vec![entry(299, None, empty_response())])),
                ..empty_path_item()
            }),
        )],
        components: None,
    };
    assert!(matches!(
        generate(&doc),
        Err(GenerationError::Bind(BindError::UnsupportedStatus { status: 299, .. }))
    ));
}

#[test]
fn inline_request_body_is_fatal() {
    let doc = Document {
        info: info(),
        paths: vec![(
            "/x".to_string(),
            RefOr::Item(PathItem {
                post: Some(Operation {
                    operation_id: Some("xCreate".to_string()),
                    description: None,
                    parameters: vec![],
                    request_body: Some(RefOr::Item(RequestBody {
                        description: None,
                        required: true,
                        content: vec![(
                            "application/json".to_string(),
                            MediaType { schema: None },
                        )],
                    })),
                    responses: vec![entry(201, None, empty_response())],
                }),
                ..empty_path_item()
            }),
        )],
        components: None,
    };
    assert!(matches!(
        generate(&doc),
        Err(GenerationError::Bind(BindError::UnnamedRequestBody { .. }))
    ));
}

#[test]
fn unnamed_parameter_schema_is_fatal() {
    let doc = Document {
        info: info(),
        paths: vec![(
            "/x".to_string(),
            RefOr::Item(PathItem {
                get: Some(Operation {
                    operation_id: Some("xGet".to_string()),
                    description: None,
                    parameters: vec![RefOr::Item(Parameter {
                        name: "stray".to_string(),
                        location: ParameterLocation::Query,
                        description: None,
                        required: true,
                        schema: Some(RefOr::Item(Box::new(string_schema()))),
                    })],
                    request_body: None,
                    responses: vec![entry(200, None, empty_response())],
                }),
                ..empty_path_item()
            }),
        )],
        components: None,
    };
    assert!(matches!(
        generate(&doc),
        Err(GenerationError::Bind(BindError::UnnamedParameterSchema { .. }))
    ));
}

#[test]
fn declared_query_parameter_binds() {
    let doc = Document {
        info: info(),
        paths: vec![(
            "/x".to_string(),
            RefOr::Item(PathItem {
                get: Some(Operation {
                    operation_id: Some("xGet".to_string()),
                    description: None,
                    parameters: vec![RefOr::Reference {
                        reference: "#/components/parameters/responseType".to_string(),
                    }],
                    request_body: None,
                    responses: vec![entry(200, None, empty_response())],
                }),
                ..empty_path_item()
            }),
        )],
        components: Some(ComponentSections {
            parameters: vec![(
                "responseType".to_string(),
                RefOr::Item(Parameter {
                    name: "responseType".to_string(),
                    location: ParameterLocation::Query,
                    description: None,
                    required: true,
                    schema: Some(RefOr::Item(Box::new(string_schema()))),
                }),
            )],
            ..empty_sections()
        }),
    };
    let (module, warnings) = generate(&doc).unwrap();
    assert_eq!(warnings.len(), 0);
    assert_eq!(module.components_module.parameters.list.len(), 1);
    let node = module.paths_module.paths[0].print();
    assert_eq!(node.query_fields.len(), 1);
    assert_eq!(node.query_fields[0].name, "response_type".to_string());
    assert_eq!(
        node.query_fields[0].ty.base,
        TypeBase::Pathed(vec!["parameters".to_string(), "ResponseType".to_string()])
    );
}

#[test]
fn path_pointer_is_fatal() {
    let doc = Document {
        info: info(),
        paths: vec![(
            "/x".to_string(),
            RefOr::Reference { reference: "#/paths/other".to_string() },
        )],
        components: None,
    };
    assert!(matches!(
        generate(&doc),
        Err(GenerationError::Bind(BindError::UnresolvedPathItem { .. }))
    ));
}

#[test]
fn graph_parse_schema_adds_components() {
    let mut graph = Components::new();
    let warning = graph
        .parse_schema(
            &"SessionUser".to_string(),
            &RefOr::Item(session_user_schema()),
        )
        .unwrap();
    assert!(warning.is_none());
    let modules = graph.into_modules();
    assert_eq!(modules.schemas.list.len(), 1);
    assert_eq!(modules.schemas.list[0].name(), &"SessionUser".to_string());
}

#[test]
fn generated_module_renaming() {
    let doc = Document { info: info(), paths: vec![], components: None };
    let (mut module, _warnings) = generate(&doc).unwrap();
    module.set_name("authmenow_public_api".to_string());
    module.set_description(Some("Public API".to_string()));
    module.set_terms_of_service(Some("https://example.com/terms".to_string()));
    let tree = module.print();
    assert_eq!(tree.api.structure.name, "AuthmenowPublicApi".to_string());
    assert_eq!(
        tree.api.structure.doc,
        Some("Public API\n@see https://example.com/terms".to_string())
    );
    assert_eq!(tree.api.methods.api_name, "AuthmenowPublicApi".to_string());
}

#[test]
fn classify_reference_shapes() {
    assert!(matches!(
        classify_reference("#/components/schemas/User"),
        Some(Reference::Relative(ReferenceRelative::Schema { .. }))
    ));
    match classify_reference("#/components/responses/Created") {
        Some(Reference::Relative(ReferenceRelative::Response { name })) => {
            assert_eq!(name, "Created".to_string());
        },
        other => panic!("expected a response pointer, got {:?}", other),
    }
    assert!(matches!(
        classify_reference("https://example.com/openapi.yaml"),
        Some(Reference::Remote)
    ));
    assert!(matches!(
        classify_reference("./other/openapi.yaml"),
        Some(Reference::File(_))
    ));
    assert!(classify_reference("#/definitions/Old").is_none());
}

#[test]
fn find_by_operation_id_scans_paths() {
    let doc = Document {
        info: info(),
        paths: vec![
            (
                "/session".to_string(),
                RefOr::Item(PathItem {
                    get: Some(operation("sessionGet", vec![entry(200, None, empty_response())])),
                    ..empty_path_item()
                }),
            ),
            (
                "/register".to_string(),
                RefOr::Item(PathItem {
                    post: Some(operation("register", vec![entry(201, None, empty_response())])),
                    ..empty_path_item()
                }),
            ),
        ],
        components: None,
    };
    let found = swagg::binder::find_by_operation_id(&doc, &"register".to_string());
    assert!(found.is_some());
    assert!(found.unwrap().post.is_some());
    assert!(swagg::binder::find_by_operation_id(&doc, &"missing".to_string()).is_none());
}

#[test]
fn referenced_response_component_becomes_payload() {
    let doc = Document {
        info: info(),
        paths: vec![(
            "/register".to_string(),
            RefOr::Item(PathItem {
                post: Some(Operation {
                    operation_id: Some("register".to_string()),
                    description: None,
                    parameters: vec![],
                    request_body: Some(RefOr::Reference {
                        reference: "#/components/requestBodies/Register".to_string(),
                    }),
                    responses: vec![ResponseEntry {
                        status: 400,
                        variant_label: None,
                        response: RefOr::Reference {
                            reference: "#/components/responses/RegisterFailed".to_string(),
                        },
                    }],
                }),
                ..empty_path_item()
            }),
        )],
        components: Some(ComponentSections {
            responses: vec![(
                "RegisterFailed".to_string(),
                RefOr::Item(response_with_schema_ref("RegisterError")),
            )],
            request_bodies: vec![(
                "Register".to_string(),
                RefOr::Item(RequestBody {
                    description: None,
                    required: true,
                    content: vec![(
                        "application/json".to_string(),
                        MediaType {
                            schema: Some(RefOr::Item(Box::new(session_user_schema()))),
                        },
                    )],
                }),
            )],
            schemas: vec![("RegisterError".to_string(), RefOr::Item(string_schema()))],
            ..empty_sections()
        }),
    };
    let (module, warnings) = generate(&doc).unwrap();
    assert_eq!(warnings.len(), 0);

    // The response component is an alias onto the schema it references.
    assert_eq!(module.components_module.responses.list.len(), 1);
    assert_eq!(
        module.components_module.responses.list[0].name(),
        &"RegisterFailed".to_string()
    );
    // The referenced request body becomes an object component.
    assert_eq!(module.components_module.request_bodies.list.len(), 1);
    assert_eq!(
        module.components_module.request_bodies.list[0].name(),
        &"Register".to_string()
    );

    let node = module.paths_module.paths[0].print();
    assert_eq!(node.response_variants.len(), 1);
    assert_eq!(node.response_variants[0].name, "BadRequest".to_string());
    assert_eq!(
        node.response_variants[0].payload,
        Some("RegisterFailed".to_string())
    );
    assert_eq!(
        node.response_variants[0].content_type,
        Some("Json".to_string())
    );

    let api_node = module.api_module.print();
    assert_eq!(
        api_node.methods.binds[0].doc,
        Some("Request body - super::requst_bodies::Register".to_string())
    );
}

#[test]
fn non_query_parameters_are_skipped_with_warning() {
    let doc = Document {
        info: info(),
        paths: vec![],
        components: Some(ComponentSections {
            parameters: vec![(
                "sessionId".to_string(),
                RefOr::Item(Parameter {
                    name: "sessionId".to_string(),
                    location: ParameterLocation::Cookie,
                    description: None,
                    required: true,
                    schema: Some(RefOr::Item(Box::new(string_schema()))),
                }),
            )],
            ..empty_sections()
        }),
    };
    let (module, warnings) = generate(&doc).unwrap();
    assert_eq!(module.components_module.parameters.list.len(), 0);
    assert_eq!(warnings.len(), 1);
    match &warnings[0] {
        BuildWarning::Unsupported { name, detail } => {
            assert_eq!(name, &"sessionId".to_string());
            assert_eq!(detail, &"unsupported parameter location".to_string());
        }
    }
}

#[test]
fn string_enum_schema_becomes_enum_component() {
    let doc = Document {
        info: info(),
        paths: vec![],
        components: Some(ComponentSections {
            schemas: vec![(
                "OAuthResponseType".to_string(),
                RefOr::Item(RawSchema {
                    description: None,
                    kind: RawSchemaKind::StringEnum {
                        variants: vec!["code".to_string(), "token".to_string()],
                    },
                }),
            )],
            ..empty_sections()
        }),
    };
    let (module, warnings) = generate(&doc).unwrap();
    assert_eq!(warnings.len(), 0);
    let decl = module.components_module.schemas.list[0].print();
    match decl {
        swagg::emit::Declaration::EnumDecl { name, variants, .. } => {
            assert_eq!(name, "OauthResponseType".to_string());
            assert_eq!(variants.len(), 2);
            assert_eq!(variants[0].name, "Code".to_string());
            assert_eq!(variants[0].rename, Some("code".to_string()));
            assert_eq!(variants[1].name, "Token".to_string());
        },
        other => panic!("expected an enum declaration, got {:?}", other),
    }
}
