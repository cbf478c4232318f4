use swagg::document::{ApiInfo, ComponentSections, Document, FormatFloat, FormatInteger};
use swagg::document::{FormatString, Operation, PathItem, RefOr, Response, ResponseEntry};
use swagg::emit::{TypeBase, TypeWrap};
use swagg::hooks::{generate_with_hooks, Method, Plugin};
use swagg::printer::api::{ApiModule, ApiStruct, BindApiMethod, HttpMethod, ImplApi};
use swagg::printer::components::{Component, ComponentsModule, EnumVariant, Field, FieldType};
use swagg::printer::components::{NativeType, ParametersModule, RequestBodiesModule};
use swagg::printer::components::{ResponsesModule, SchemasModule};
use swagg::printer::paths::{ContentType, Path, PathsModule, QueryParam, ResponseEnum};
use swagg::printer::paths::{ResponseStatus, StatusVariant};
use swagg::printer::GeneratedModule;

#[test]
fn huge_test_all_generated() {
    let api = ApiStruct {
        api_name: "ExampleApiDef".to_string(),
        description: Some(
            "Public API for frontend and OAuth applications".to_string(),
        ),
        terms_of_service: None,
    };

    let m1 = BindApiMethod {
        method: HttpMethod::Get,
        name: "sessionGet".to_string(),
        path: "/session".to_string(),
        request_body: None,
    };
    let m2 = BindApiMethod {
        method: HttpMethod::Post,
        name: "sessionCreate".to_string(),
        path: "/session".to_string(),
        request_body: Some("SessionCreateBody".to_string()),
    };
    let m3 = BindApiMethod {
        method: HttpMethod::Post,
        name: "registerConfirmation".to_string(),
        path: "/register/confirmation".to_string(),
        request_body: Some("RegisterConfirmation".to_string()),
    };
    let methods = ImplApi { api_name: api.api_name.clone(), methods: vec![m1, m2, m3] };
    let api_module = ApiModule { structure: api, methods };

    let components_module = ComponentsModule {
        parameters: ParametersModule {
            list: vec![
                Component::Enum {
                    name: "OAuthResponseType".to_string(),
                    description: Some("response_type is set to code".to_string()),
                    variants: vec![EnumVariant { name: "code".to_string(), description: None }],
                },
                Component::Type {
                    name: "OAuthClientId".to_string(),
                    description: Some("The client_id is the identifier for your app".to_string()),
                    type_value: FieldType::Internal("uuid::Uuid".to_string()),
                },
                Component::Type {
                    name: "OAuthRedirectUri".to_string(),
                    description: None,
                    type_value: FieldType::Native(NativeType::Text {
                        format: FormatString::Plain,
                    }),
                },
            ],
        },
        responses: ResponsesModule {
            list: vec![
                Component::Object {
                    name: "RegisterConfirmationFailed".to_string(),
                    description: Some("Answer for registration confirmation".to_string()),
                    fields: vec![Field {
                        name: "error".to_string(),
                        required: true,
                        description: None,
                        field_type: FieldType::Custom(
                            "RegisterConfirmationFailedError".to_string(),
                        ),
                    }],
                },
                Component::Enum {
                    name: "RegisterConfirmationFailedError".to_string(),
                    description: None,
                    variants: vec![
                        EnumVariant {
                            name: "code_invalid_or_expired".to_string(),
                            description: None,
                        },
                        EnumVariant {
                            name: "email_already_activated".to_string(),
                            description: None,
                        },
                        EnumVariant { name: "invalid_form".to_string(), description: None },
                    ],
                },
                Component::Object {
                    name: "RegistrationRequestCreated".to_string(),
                    description: Some(
                        "Registration link sent to email".to_string(),
                    ),
                    fields: vec![Field {
                        name: "expiresAt".to_string(),
                        required: true,
                        description: Some("UTC Unix TimeStamp when the link expires".to_string()),
                        field_type: FieldType::Native(NativeType::Integer {
                            format: FormatInteger::Int64,
                        }),
                    }],
                },
            ],
        },
        request_bodies: RequestBodiesModule {
            list: vec![
                Component::Object {
                    name: "Register".to_string(),
                    description: None,
                    fields: vec![
                        Field {
                            name: "email".to_string(),
                            required: true,
                            description: None,
                            field_type: FieldType::Native(NativeType::Text {
                                format: FormatString::Email,
                            }),
                        },
                        Field {
                            name: "demo".to_string(),
                            required: false,
                            description: None,
                            field_type: FieldType::Array(Box::new(FieldType::Array(Box::new(
                                FieldType::Native(NativeType::Text {
                                    format: FormatString::Email,
                                }),
                            )))),
                        },
                    ],
                },
                Component::Object {
                    name: "RegisterConfirmation".to_string(),
                    description: None,
                    fields: vec![
                        Field {
                            name: "confirmationCode".to_string(),
                            required: true,
                            description: None,
                            field_type: FieldType::Native(NativeType::Text {
                                format: FormatString::Plain,
                            }),
                        },
                        Field {
                            name: "password".to_string(),
                            required: true,
                            description: None,
                            field_type: FieldType::Native(NativeType::Text {
                                format: FormatString::Plain,
                            }),
                        },
                        Field {
                            name: "demo".to_string(),
                            required: false,
                            description: None,
                            field_type: FieldType::Native(NativeType::Float {
                                format: FormatFloat::Float,
                            }),
                        },
                        Field {
                            name: "customizer".to_string(),
                            required: false,
                            description: None,
                            field_type: FieldType::Internal("crate::app::MySuperType".to_string()),
                        },
                    ],
                },
            ],
        },
        schemas: SchemasModule { list: vec![] },
    };

    let p1 = Path {
        name: "registerConfirmation".to_string(),
        query_params: vec![],
        response: ResponseEnum {
            responses: vec![
                StatusVariant {
                    status: ResponseStatus::Created,
                    response_type_name: None,
                    description: None,
                    content_type: None,
                    x_variant_name: None,
                },
                StatusVariant {
                    status: ResponseStatus::BadRequest,
                    response_type_name: Some("RegisterConfirmationFailed".to_string()),
                    description: None,
                    content_type: Some(ContentType::Json),
                    x_variant_name: None,
                },
                StatusVariant {
                    status: ResponseStatus::InternalServerError,
                    response_type_name: None,
                    description: None,
                    content_type: Some(ContentType::Json),
                    x_variant_name: Some("Unexpected".to_string()),
                },
            ],
        },
    };
    let p2 = Path {
        name: "sessionCreate".to_string(),
        query_params: vec![
            QueryParam {
                name: "responseType".to_string(),
                type_ref: "OAuthResponseType".to_string(),
                description: Some("response_type is set to code".to_string()),
                required: true,
            },
            QueryParam {
                name: "redirect_uri".to_string(),
                type_ref: "OAuthRedirectUri".to_string(),
                description: None,
                required: false,
            },
            QueryParam {
                name: "GlobalNameOfTheUniverse".to_string(),
                type_ref: "OAuthClientId".to_string(),
                description: None,
                required: false,
            },
        ],
        response: ResponseEnum {
            responses: vec![
                StatusVariant {
                    status: ResponseStatus::Created,
                    response_type_name: None,
                    description: Some("User logined, cookies writed\nFoo".to_string()),
                    content_type: None,
                    x_variant_name: None,
                },
                StatusVariant {
                    status: ResponseStatus::BadRequest,
                    response_type_name: Some("sessionCreateFailed".to_string()),
                    description: None,
                    content_type: Some(ContentType::Json),
                    x_variant_name: None,
                },
            ],
        },
    };
    let paths_module = PathsModule { paths: vec![p1, p2] };

    let generated = GeneratedModule { api_module, components_module, paths_module };
    let tree = generated.print();

    assert_eq!(tree.api.structure.name, "ExampleApiDef".to_string());
    assert_eq!(
        tree.api.structure.doc,
        Some("Public API for frontend and OAuth applications".to_string())
    );
    assert_eq!(tree.api.methods.api_name, "ExampleApiDef".to_string());
    assert_eq!(tree.api.methods.binds.len(), 3);
    assert_eq!(tree.api.methods.binds[0].fn_name, "bind_session_get".to_string());
    assert_eq!(tree.api.methods.binds[1].fn_name, "bind_session_create".to_string());
    assert_eq!(
        tree.api.methods.binds[1].doc,
        Some("Request body - super::requst_bodies::SessionCreateBody".to_string())
    );
    assert_eq!(
        tree.api.methods.binds[2].fn_name,
        "bind_register_confirmation".to_string()
    );
    assert_eq!(tree.api.methods.binds[2].path, "/register/confirmation".to_string());

    let parameters = &tree.components.parameters.decls;
    assert_eq!(parameters.len(), 3);
    match &parameters[0] {
        swagg::emit::Declaration::EnumDecl { name, variants, .. } => {
            assert_eq!(name, &"OauthResponseType".to_string());
            assert_eq!(variants.len(), 1);
            assert_eq!(variants[0].name, "Code".to_string());
            assert_eq!(variants[0].rename, Some("code".to_string()));
        },
        other => panic!("expected an enum declaration, got {:?}", other),
    }
    match &parameters[1] {
        swagg::emit::Declaration::AliasDecl { name, ty, .. } => {
            assert_eq!(name, &"OauthClientId".to_string());
            assert_eq!(
                ty.base,
                TypeBase::Pathed(vec!["uuid".to_string(), "Uuid".to_string()])
            );
        },
        other => panic!("expected an alias declaration, got {:?}", other),
    }
    match &parameters[2] {
        swagg::emit::Declaration::AliasDecl { name, ty, .. } => {
            assert_eq!(name, &"OauthRedirectUri".to_string());
            assert_eq!(ty.base, TypeBase::Named("String".to_string()));
        },
        other => panic!("expected an alias declaration, got {:?}", other),
    }

    let bodies = &tree.components.request_bodies.decls;
    match &bodies[0] {
        swagg::emit::Declaration::StructDecl { name, fields, .. } => {
            assert_eq!(name, &"Register".to_string());
            assert_eq!(fields[0].name, "email".to_string());
            assert_eq!(fields[0].rename, None);
            assert_eq!(fields[0].ty.base, TypeBase::Named("String".to_string()));
            assert_eq!(fields[1].name, "demo".to_string());
            assert_eq!(
                fields[1].ty.wrappers,
                vec![TypeWrap::OptionOf, TypeWrap::VecOf, TypeWrap::VecOf]
            );
        },
        other => panic!("expected a struct declaration, got {:?}", other),
    }
    match &bodies[1] {
        swagg::emit::Declaration::StructDecl { name, fields, .. } => {
            assert_eq!(name, &"RegisterConfirmation".to_string());
            assert_eq!(fields[0].name, "confirmation_code".to_string());
            assert_eq!(fields[0].rename, Some("confirmationCode".to_string()));
            assert_eq!(fields[2].ty.wrappers, vec![TypeWrap::OptionOf]);
            assert_eq!(fields[2].ty.base, TypeBase::Named("f32".to_string()));
            assert_eq!(
                fields[3].ty.base,
                TypeBase::Pathed(vec![
                    "crate".to_string(),
                    "app".to_string(),
                    "MySuperType".to_string()
                ])
            );
        },
        other => panic!("expected a struct declaration, got {:?}", other),
    }

    assert_eq!(tree.paths.operations.len(), 2);
    let op1 = &tree.paths.operations[0];
    assert_eq!(op1.module_name, "register_confirmation".to_string());
    assert_eq!(op1.response_variants.len(), 3);
    assert_eq!(op1.response_variants[0].name, "Created".to_string());
    assert_eq!(op1.response_variants[1].name, "BadRequest".to_string());
    assert_eq!(
        op1.response_variants[1].payload,
        Some("RegisterConfirmationFailed".to_string())
    );
    assert_eq!(op1.response_variants[2].name, "Unexpected".to_string());
    assert_eq!(
        op1.response_variants[2].status_const,
        "INTERNAL_SERVER_ERROR".to_string()
    );
    let op2 = &tree.paths.operations[1];
    assert_eq!(op2.module_name, "session_create".to_string());
    assert_eq!(op2.query_fields.len(), 3);
    assert_eq!(op2.query_fields[0].name, "response_type".to_string());
    assert_eq!(op2.query_fields[2].name, "global_name_of_the_universe".to_string());
    assert_eq!(
        op2.query_fields[2].rename,
        Some("GlobalNameOfTheUniverse".to_string())
    );
}

struct Recorder {
    events: Vec<String>,
}

impl Plugin for Recorder {
    fn pre_components(&mut self, _doc: &Document) {
        self.events.push("pre_components".to_string());
    }

    fn on_schema(&mut self, name: &String, _schema: &swagg::document::RawSchema, _doc: &Document) {
        self.events.push(format!("schema:{}", name));
    }

    fn on_response(&mut self, name: &String, _response: &Response, _doc: &Document) {
        self.events.push(format!("response:{}", name));
    }

    fn post_components(&mut self, _doc: &Document) {
        self.events.push("post_components".to_string());
    }

    fn pre_paths(&mut self, _doc: &Document) {
        self.events.push("pre_paths".to_string());
    }

    fn on_operation(
        &mut self,
        method: Method,
        path: &String,
        _operation: &Operation,
        _doc: &Document,
    ) {
        self.events.push(format!("operation:{:?}:{}", method, path));
    }

    fn post_paths(&mut self, _doc: &Document) {
        self.events.push("post_paths".to_string());
    }
}

#[test]
fn hooks_run_in_traversal_order() {
    let doc = Document {
        info: ApiInfo {
            title: "Demo API.".to_string(),
            version: "0.1.0".to_string(),
            description: Some("Test api".to_string()),
            terms_of_service: None,
        },
        paths: vec![(
            "/session".to_string(),
            RefOr::Item(PathItem {
                get: Some(Operation {
                    operation_id: Some("sessionGet".to_string()),
                    description: None,
                    parameters: vec![],
                    request_body: None,
                    responses: vec![ResponseEntry {
                        status: 200,
                        variant_label: None,
                        response: RefOr::Item(Response { description: None, content: vec![] }),
                    }],
                }),
                put: None,
                post: Some(Operation {
                    operation_id: Some("sessionCreate".to_string()),
                    description: None,
                    parameters: vec![],
                    request_body: None,
                    responses: vec![ResponseEntry {
                        status: 201,
                        variant_label: None,
                        response: RefOr::Item(Response { description: None, content: vec![] }),
                    }],
                }),
                delete: None,
                options: None,
                head: None,
                patch: None,
                trace: None,
            }),
        )],
        components: Some(ComponentSections {
            security_schemes: vec![],
            responses: vec![(
                "Accepted".to_string(),
                RefOr::Item(Response { description: None, content: vec![] }),
            )],
            parameters: vec![],
            request_bodies: vec![],
            headers: vec![],
            schemas: vec![(
                "SessionUser".to_string(),
                RefOr::Item(swagg::document::RawSchema {
                    description: None,
                    kind: swagg::document::RawSchemaKind::ScalarString {
                        format: FormatString::Plain,
                    },
                }),
            )],
        }),
    };
    let mut recorder = Recorder { events: vec![] };
    let result = generate_with_hooks(&doc, &mut recorder);
    assert!(result.is_ok());
    let (tree, artifacts) = result.unwrap();
    assert_eq!(artifacts.len(), 0);
    assert_eq!(tree.api.structure.name, "DemoApi".to_string());
    assert_eq!(
        recorder.events,
        vec![
            "pre_components".to_string(),
            "response:Accepted".to_string(),
            "schema:SessionUser".to_string(),
            "post_components".to_string(),
            "pre_paths".to_string(),
            "operation:Get:/session".to_string(),
            "operation:Post:/session".to_string(),
            "post_paths".to_string(),
        ]
    );
}

struct FileMaker {
    artifact_name: String,
}

impl Plugin for FileMaker {
    fn finish(&mut self) -> Vec<(String, swagg::emit::EmissionTree)> {
        let empty = Document {
            info: ApiInfo {
                title: "Extra".to_string(),
                version: "0.0.0".to_string(),
                description: None,
                terms_of_service: None,
            },
            paths: vec![],
            components: None,
        };
        let (module, _warnings) = swagg::generator::generate(&empty).unwrap();
        vec![(self.artifact_name.clone(), module.print())]
    }
}

#[test]
fn hooks_register_named_artifacts() {
    let doc = Document {
        info: ApiInfo {
            title: "Demo".to_string(),
            version: "0.1.0".to_string(),
            description: None,
            terms_of_service: None,
        },
        paths: vec![],
        components: None,
    };
    let mut plugin = FileMaker { artifact_name: "extra.rs".to_string() };
    let (tree, artifacts) = generate_with_hooks(&doc, &mut plugin).unwrap();
    assert_eq!(tree.api.structure.name, "Demo".to_string());
    assert_eq!(artifacts.len(), 1);
    assert_eq!(artifacts[0].0, "extra.rs".to_string());
    assert_eq!(artifacts[0].1.api.structure.name, "Extra".to_string());
}
