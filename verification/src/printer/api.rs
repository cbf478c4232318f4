//! Printers for the api module: the api struct scaffolding and one binding
//! method per bound operation.

use vstd::prelude::*;

use crate::emit::{clone_opt_string, opt_view, ApiImplNode, ApiImplNodeV, ApiNode, ApiNodeV};
use crate::emit::{ApiStructNode, ApiStructNodeV, BindNode, BindNodeV};
use crate::naming::{field_name_of, to_field_name, to_struct_name, to_type_name, type_name_of};

verus! {

/// The HTTP methods an operation can be bound to.
#[derive(Clone, Copy, PartialEq, Eq, Debug)]
pub enum HttpMethod {
    Delete,
    Get,
    Patch,
    Post,
    Put,
    Options,
    Head,
    Trace,
}

/// The wire name of an HTTP method.
pub open spec fn method_name_of(m: HttpMethod) -> Seq<char> {
    match m {
        HttpMethod::Delete => "DELETE"@,
        HttpMethod::Get => "GET"@,
        HttpMethod::Patch => "PATCH"@,
        HttpMethod::Post => "POST"@,
        HttpMethod::Put => "PUT"@,
        HttpMethod::Options => "OPTIONS"@,
        HttpMethod::Head => "HEAD"@,
        HttpMethod::Trace => "TRACE"@,
    }
}

impl HttpMethod {
    /// The wire name of this method.
    pub fn to_string(&self) -> (r: String)
        ensures
            r@ == method_name_of(*self),
    {
        match self {
            HttpMethod::Delete => String::from_str("DELETE"),
            HttpMethod::Get => String::from_str("GET"),
            HttpMethod::Patch => String::from_str("PATCH"),
            HttpMethod::Post => String::from_str("POST"),
            HttpMethod::Put => String::from_str("PUT"),
            HttpMethod::Options => String::from_str("OPTIONS"),
            HttpMethod::Head => String::from_str("HEAD"),
            HttpMethod::Trace => String::from_str("TRACE"),
        }
    }
}

/// The api struct: its name and the doc material of its declaration.
pub struct ApiStruct {
    pub api_name: String,
    pub terms_of_service: Option<String>,
    pub description: Option<String>,
}

#[verifier::ext_equal]
pub struct ApiStructV {
    pub api_name: Seq<char>,
    pub terms_of_service: Option<Seq<char>>,
    pub description: Option<Seq<char>>,
}

impl View for ApiStruct {
    type V = ApiStructV;

    open spec fn view(&self) -> ApiStructV {
        ApiStructV {
            api_name: self.api_name@,
            terms_of_service: opt_view(self.terms_of_service),
            description: opt_view(self.description),
        }
    }
}

impl ApiStruct {
    pub fn new(api_name: String) -> (r: Self)
        ensures
            r@ == (ApiStructV { api_name: api_name@, terms_of_service: None, description: None }),
    {
        ApiStruct { api_name, terms_of_service: None, description: None }
    }
}

impl Default for ApiStruct {
    fn default() -> (r: Self)
        ensures
            r@ == (ApiStructV { api_name: "Api"@, terms_of_service: None, description: None }),
    {
        ApiStruct {
            api_name: String::from_str("Api"),
            terms_of_service: None,
            description: None,
        }
    }
}

/// The doc comment of the api struct: its description, then an `@see` line
/// for the terms of service; an empty description counts for nothing.
pub open spec fn api_doc_of(s: ApiStructV) -> Option<Seq<char>> {
    let desc = if s.description is Some && s.description->0.len() > 0 {
        Some(s.description->0)
    } else {
        None
    };
    match (desc, s.terms_of_service) {
        (Some(d), Some(t)) => Some(d + "\n@see "@ + t),
        (Some(d), None) => Some(d),
        (None, Some(t)) => Some("@see "@ + t),
        (None, None) => None,
    }
}

/// The node the api struct prints to.
pub open spec fn api_struct_node_of(s: ApiStructV) -> ApiStructNodeV {
    ApiStructNodeV { doc: api_doc_of(s), name: type_name_of(s.api_name) }
}

impl ApiStruct {
    pub fn print(&self) -> (r: ApiStructNode)
        ensures
            r@ == api_struct_node_of(self@),
    {
        let has_description = match &self.description {
            Some(d) => d.unicode_len() > 0,
            None => false,
        };
        let doc: Option<String> = if has_description {
            match (&self.description, &self.terms_of_service) {
                (Some(d), Some(t)) => {
                    let mut out = d.clone();
                    out.append("\n@see ");
                    out.append(t.as_str());
                    Some(out)
                },
                (Some(d), None) => Some(d.clone()),
                _ => None,
            }
        } else {
            match &self.terms_of_service {
                Some(t) => {
                    let mut out = String::from_str("@see ");
                    out.append(t.as_str());
                    Some(out)
                },
                None => None,
            }
        };
        ApiStructNode { doc, name: to_struct_name(self.api_name.as_str()) }
    }
}

/// One handler-binding method, before printing.
pub struct BindApiMethod {
    pub method: HttpMethod,
    pub path: String,
    pub name: String,
    pub request_body: Option<String>,
}

#[verifier::ext_equal]
pub struct BindApiMethodV {
    pub method: HttpMethod,
    pub path: Seq<char>,
    pub name: Seq<char>,
    pub request_body: Option<Seq<char>>,
}

impl View for BindApiMethod {
    type V = BindApiMethodV;

    open spec fn view(&self) -> BindApiMethodV {
        BindApiMethodV {
            method: self.method,
            path: self.path@,
            name: self.name@,
            request_body: opt_view(self.request_body),
        }
    }
}

/// The node a binding method prints to: the `bind_` function, the operation
/// module it points at, and a doc line naming the request-body component.
pub open spec fn bind_node_of(b: BindApiMethodV) -> BindNodeV {
    BindNodeV {
        doc: match b.request_body {
            Some(body) => Some("Request body - super::requst_bodies::"@ + type_name_of(body)),
            None => None,
        },
        fn_name: "bind_"@ + field_name_of(b.name),
        module_name: field_name_of(b.name),
        method_name: method_name_of(b.method),
        path: b.path,
    }
}

impl BindApiMethod {
    pub fn print(&self) -> (r: BindNode)
        ensures
            r@ == bind_node_of(self@),
    {
        let module_name = to_field_name(self.name.as_str());
        let mut fn_name = String::from_str("bind_");
        fn_name.append(module_name.as_str());
        let doc = match &self.request_body {
            Some(body) => {
                let pascal = to_type_name(body.as_str());
                let mut line = String::from_str("Request body - super::requst_bodies::");
                line.append(pascal.as_str());
                Some(line)
            },
            None => None,
        };
        BindNode {
            doc,
            fn_name,
            module_name,
            method_name: self.method.to_string(),
            path: self.path.clone(),
        }
    }
}

/// The api method block: the struct it extends and its binding methods.
pub struct ImplApi {
    pub api_name: String,
    pub methods: Vec<BindApiMethod>,
}

#[verifier::ext_equal]
pub struct ImplApiV {
    pub api_name: Seq<char>,
    pub methods: Seq<BindApiMethodV>,
}

impl View for ImplApi {
    type V = ImplApiV;

    open spec fn view(&self) -> ImplApiV {
        ImplApiV {
            api_name: self.api_name@,
            methods: self.methods@.map_values(|b: BindApiMethod| b@),
        }
    }
}

impl Default for ImplApi {
    fn default() -> (r: Self)
        ensures
            r@ =~= (ImplApiV { api_name: "Api"@, methods: Seq::empty() }),
    {
        ImplApi { api_name: String::from_str("Api"), methods: Vec::new() }
    }
}

/// The node the method block prints to.
pub open spec fn api_impl_node_of(m: ImplApiV) -> ApiImplNodeV {
    ApiImplNodeV {
        api_name: type_name_of(m.api_name),
        binds: m.methods.map_values(|b: BindApiMethodV| bind_node_of(b)),
    }
}

impl ImplApi {
    pub fn print(&self) -> (r: ApiImplNode)
        ensures
            r@ == api_impl_node_of(self@),
    {
        let mut binds: Vec<BindNode> = Vec::new();
        let mut i: usize = 0;
        while i < self.methods.len()
            invariant
                i <= self.methods@.len(),
                binds@.len() == i,
                forall|j: int|
                    0 <= j < i ==> #[trigger] binds@[j]@ == bind_node_of(self.methods@[j]@),
            decreases self.methods@.len() - i,
        {
            binds.push(self.methods[i].print());
            i += 1;
        }
        let r = ApiImplNode { api_name: to_struct_name(self.api_name.as_str()), binds };
        proof {
            assert(r@.binds =~= api_impl_node_of(self@).binds);
            assert(r@ =~= api_impl_node_of(self@));
        }
        r
    }
}

/// The whole api module.
pub struct ApiModule {
    pub structure: ApiStruct,
    pub methods: ImplApi,
}

#[verifier::ext_equal]
pub struct ApiModuleV {
    pub structure: ApiStructV,
    pub methods: ImplApiV,
}

impl View for ApiModule {
    type V = ApiModuleV;

    open spec fn view(&self) -> ApiModuleV {
        ApiModuleV { structure: self.structure@, methods: self.methods@ }
    }
}

impl Default for ApiModule {
    fn default() -> (r: Self)
        ensures
            r@ =~= (ApiModuleV {
                structure: ApiStructV { api_name: "Api"@, terms_of_service: None, description: None },
                methods: ImplApiV { api_name: "Api"@, methods: Seq::empty() },
            }),
    {
        ApiModule { structure: ApiStruct::default(), methods: ImplApi::default() }
    }
}

/// The node the api module prints to.
pub open spec fn api_node_of(m: ApiModuleV) -> ApiNodeV {
    ApiNodeV { structure: api_struct_node_of(m.structure), methods: api_impl_node_of(m.methods) }
}

impl ApiModule {
    /// Renames the api struct, in its declaration and its method block
    /// alike.
    pub fn set_name(&mut self, name: String)
        ensures
            final(self)@ == (ApiModuleV {
                structure: ApiStructV { api_name: name@, ..old(self)@.structure },
                methods: ImplApiV { api_name: name@, ..old(self)@.methods },
            }),
    {
        self.structure.api_name = name.clone();
        self.methods.api_name = name;
    }

    /// Sets the doc description of the api struct.
    pub fn set_description(&mut self, description: Option<String>)
        ensures
            final(self)@ == (ApiModuleV {
                structure: ApiStructV {
                    description: opt_view(description),
                    ..old(self)@.structure
                },
                ..old(self)@
            }),
    {
        self.structure.description = description;
    }

    /// Sets the terms-of-service link of the api struct.
    pub fn set_terms_of_service(&mut self, terms: Option<String>)
        ensures
            final(self)@ == (ApiModuleV {
                structure: ApiStructV {
                    terms_of_service: opt_view(terms),
                    ..old(self)@.structure
                },
                ..old(self)@
            }),
    {
        self.structure.terms_of_service = terms;
    }

    pub fn print(&self) -> (r: ApiNode)
        ensures
            r@ == api_node_of(self@),
    {
        ApiNode { structure: self.structure.print(), methods: self.methods.print() }
    }
}

} // verus!
