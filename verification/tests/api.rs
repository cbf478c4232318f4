use swagg::printer::api::{ApiModule, ApiStruct, BindApiMethod, HttpMethod, ImplApi};

#[test]
fn default_api() {
    let node = ImplApi::default().print();
    assert_eq!(node.api_name, "Api".to_string());
    assert_eq!(node.binds.len(), 0);
}

#[test]
fn impl_api_without_methods() {
    let api = ImplApi { api_name: "Hello".to_string(), methods: vec![] };
    let node = api.print();
    assert_eq!(node.api_name, "Hello".to_string());
    assert_eq!(node.binds.len(), 0);
}

#[test]
fn impl_api_pascal_naming() {
    let api1 = ImplApi { api_name: "HelloGoof".to_string(), methods: vec![] };
    let api2 = ImplApi { api_name: "thats_my_name".to_string(), methods: vec![] };
    let api3 = ImplApi { api_name: "RANDOMIZE_THIS_F_WOOORLD".to_string(), methods: vec![] };
    assert_eq!(api1.print().api_name, "HelloGoof".to_string());
    assert_eq!(api2.print().api_name, "ThatsMyName".to_string());
    assert_eq!(api3.print().api_name, "RandomizeThisFWooorld".to_string());
}

#[test]
fn bind_api_method_without_body() {
    let method = BindApiMethod {
        method: HttpMethod::Post,
        name: "hey_make_my_day".to_string(),
        path: "/hey-make/my-day".to_string(),
        request_body: None,
    };
    let node = method.print();
    assert_eq!(node.doc, None);
    assert_eq!(node.fn_name, "bind_hey_make_my_day".to_string());
    assert_eq!(node.module_name, "hey_make_my_day".to_string());
    assert_eq!(node.method_name, "POST".to_string());
    assert_eq!(node.path, "/hey-make/my-day".to_string());
}

#[test]
fn two_methods() {
    let method1 = BindApiMethod {
        method: HttpMethod::Post,
        name: "hey_make_my_day".to_string(),
        path: "/hey-make/my-day".to_string(),
        request_body: None,
    };
    let method2 = BindApiMethod {
        method: HttpMethod::Delete,
        name: "ThisIsMyTestNameInPascalCase".to_string(),
        path: "/Very/Very/VEry/Loo000ng/Path".to_string(),
        request_body: None,
    };
    let api = ImplApi { api_name: "test_api".to_string(), methods: vec![method1, method2] };
    let node = api.print();
    assert_eq!(node.api_name, "TestApi".to_string());
    assert_eq!(node.binds.len(), 2);
    assert_eq!(node.binds[0].fn_name, "bind_hey_make_my_day".to_string());
    assert_eq!(node.binds[0].method_name, "POST".to_string());
    assert_eq!(node.binds[1].fn_name, "bind_this_is_my_test_name_in_pascal_case".to_string());
    assert_eq!(
        node.binds[1].module_name,
        "this_is_my_test_name_in_pascal_case".to_string()
    );
    assert_eq!(node.binds[1].method_name, "DELETE".to_string());
    assert_eq!(node.binds[1].path, "/Very/Very/VEry/Loo000ng/Path".to_string());
}

#[test]
fn with_request_body() {
    let method = BindApiMethod {
        method: HttpMethod::Post,
        name: "sessionCreate".to_string(),
        path: "/session".to_string(),
        request_body: Some("SessionCreateBody".to_string()),
    };
    let api = ImplApi { api_name: "test_api".to_string(), methods: vec![method] };
    let node = api.print();
    assert_eq!(node.binds.len(), 1);
    assert_eq!(
        node.binds[0].doc,
        Some("Request body - super::requst_bodies::SessionCreateBody".to_string())
    );
    assert_eq!(node.binds[0].fn_name, "bind_session_create".to_string());
    assert_eq!(node.binds[0].path, "/session".to_string());
}

#[test]
fn default_struct() {
    let node = ApiStruct::default().print();
    assert_eq!(node.name, "Api".to_string());
    assert_eq!(node.doc, None);
}

#[test]
fn without_description_and_terms() {
    let node = ApiStruct::new("test_api".to_string()).print();
    assert_eq!(node.name, "TestApi".to_string());
    assert_eq!(node.doc, None);
}

#[test]
fn with_terms() {
    let api = ApiStruct {
        api_name: "test_api".to_string(),
        description: None,
        terms_of_service: Some("https://example.com/terms".to_string()),
    };
    let node = api.print();
    assert_eq!(node.name, "TestApi".to_string());
    assert_eq!(node.doc, Some("@see https://example.com/terms".to_string()));
}

#[test]
fn structure_with_terms() {
    let api = ApiStruct {
        api_name: "test_api".to_string(),
        description: Some("".to_string()),
        terms_of_service: Some("https://example.com/terms".to_string()),
    };
    let node = api.print();
    assert_eq!(node.doc, Some("@see https://example.com/terms".to_string()));
}

#[test]
fn with_description() {
    let api = ApiStruct {
        api_name: "test_api".to_string(),
        description: Some("My super simple description.\nAnother back".to_string()),
        terms_of_service: None,
    };
    let node = api.print();
    assert_eq!(node.doc, Some("My super simple description.\nAnother back".to_string()));
}

#[test]
fn structure_with_description() {
    let api = ApiStruct {
        api_name: "TestApi".to_string(),
        description: Some("Description here".to_string()),
        terms_of_service: None,
    };
    assert_eq!(api.print().doc, Some("Description here".to_string()));
}

#[test]
fn with_description_and_terms() {
    let api = ApiStruct {
        api_name: "test_api".to_string(),
        description: Some("My super simple description.\nAnother back".to_string()),
        terms_of_service: Some("https://example.com/terms".to_string()),
    };
    let node = api.print();
    assert_eq!(
        node.doc,
        Some(
            "My super simple description.\nAnother back\n@see https://example.com/terms"
                .to_string()
        )
    );
}

#[test]
fn structure_with_description_and_terms() {
    let api = ApiStruct {
        api_name: "x".to_string(),
        description: Some("D".to_string()),
        terms_of_service: Some("T".to_string()),
    };
    assert_eq!(api.print().doc, Some("D\n@see T".to_string()));
}

#[test]
fn default_api_module() {
    let node = ApiModule::default().print();
    assert_eq!(node.structure.name, "Api".to_string());
    assert_eq!(node.structure.doc, None);
    assert_eq!(node.methods.api_name, "Api".to_string());
    assert_eq!(node.methods.binds.len(), 0);
}

#[test]
fn module_default_api_module() {
    let mut module = ApiModule::default();
    module.set_name("renamed_api".to_string());
    module.set_description(Some("A description".to_string()));
    module.set_terms_of_service(Some("https://example.com/terms".to_string()));
    let node = module.print();
    assert_eq!(node.structure.name, "RenamedApi".to_string());
    assert_eq!(
        node.structure.doc,
        Some("A description\n@see https://example.com/terms".to_string())
    );
    assert_eq!(node.methods.api_name, "RenamedApi".to_string());
}
