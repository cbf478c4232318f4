//! Printers for the paths module: one module per bound operation, holding
//! its response union and, when present, its query-parameter type.

use vstd::prelude::*;

use crate::emit::{clone_opt_string, opt_view, FieldDecl, FieldDeclV, OperationNode, OperationNodeV};
use crate::emit::{PathsNode, PathsNodeV, ResponseVariantNode, ResponseVariantNodeV};
use crate::emit::{TypeBase, TypeBaseV, TypeExpr, TypeExprV, TypeWrap};
use crate::naming::{constant_name_of, field_name_of, needs_rename, to_constant_name};
use crate::naming::{to_field_name, to_type_name, to_variant_name, type_name_of, variant_name_of};

verus! {

/// Serialization content type of a response payload.
#[derive(Clone, Copy, PartialEq, Eq, Debug)]
pub enum ContentType {
    Json,
    FormData,
}

/// The emitted name of a content type.
pub open spec fn content_type_label(c: ContentType) -> Seq<char> {
    match c {
        ContentType::Json => "Json"@,
        ContentType::FormData => "FormData"@,
    }
}

/// The wire MIME name of a content type.
pub open spec fn content_type_mime(c: ContentType) -> Seq<char> {
    match c {
        ContentType::Json => "application/json"@,
        ContentType::FormData => "application/x-www-form-urlencoded"@,
    }
}

impl ContentType {
    /// The emitted name of this content type.
    pub fn print(&self) -> (r: String)
        ensures
            r@ == content_type_label(*self),
    {
        match self {
            ContentType::Json => String::from_str("Json"),
            ContentType::FormData => String::from_str("FormData"),
        }
    }

    /// The MIME name this content type stands for on the wire.
    pub fn mime_type(&self) -> (r: String)
        ensures
            r@ == content_type_mime(*self),
    {
        match self {
            ContentType::Json => String::from_str("application/json"),
            ContentType::FormData => String::from_str("application/x-www-form-urlencoded"),
        }
    }
}

/// The HTTP status codes an operation may declare.
#[derive(Clone, Copy, PartialEq, Eq, Debug)]
pub enum ResponseStatus {
    Okay,
    Created,
    Accepted,
    NoContent,
    MovedPermanently,
    Found,
    NotModified,
    BadRequest,
    Unauthorized,
    Forbidden,
    NotFound,
    MethodNotAllowed,
    Conflict,
    ExpectationFailed,
    UnprocessableEntity,
    TooManyRequests,
    InternalServerError,
    NotImplemented,
    BadGateway,
    ServiceUnavailable,
}

/// The numeric code of a status.
pub open spec fn status_code_of(s: ResponseStatus) -> u16 {
    match s {
        ResponseStatus::Okay => 200,
        ResponseStatus::Created => 201,
        ResponseStatus::Accepted => 202,
        ResponseStatus::NoContent => 204,
        ResponseStatus::MovedPermanently => 301,
        ResponseStatus::Found => 302,
        ResponseStatus::NotModified => 304,
        ResponseStatus::BadRequest => 400,
        ResponseStatus::Unauthorized => 401,
        ResponseStatus::Forbidden => 403,
        ResponseStatus::NotFound => 404,
        ResponseStatus::MethodNotAllowed => 405,
        ResponseStatus::Conflict => 409,
        ResponseStatus::ExpectationFailed => 417,
        ResponseStatus::UnprocessableEntity => 422,
        ResponseStatus::TooManyRequests => 429,
        ResponseStatus::InternalServerError => 500,
        ResponseStatus::NotImplemented => 501,
        ResponseStatus::BadGateway => 502,
        ResponseStatus::ServiceUnavailable => 503,
    }
}

/// The canonical PascalCase name of a status.
pub open spec fn status_label_of(s: ResponseStatus) -> Seq<char> {
    match s {
        ResponseStatus::Okay => "Ok"@,
        ResponseStatus::Created => "Created"@,
        ResponseStatus::Accepted => "Accepted"@,
        ResponseStatus::NoContent => "NoContent"@,
        ResponseStatus::MovedPermanently => "MovedPermanently"@,
        ResponseStatus::Found => "Found"@,
        ResponseStatus::NotModified => "NotModified"@,
        ResponseStatus::BadRequest => "BadRequest"@,
        ResponseStatus::Unauthorized => "Unauthorized"@,
        ResponseStatus::Forbidden => "Forbidden"@,
        ResponseStatus::NotFound => "NotFound"@,
        ResponseStatus::MethodNotAllowed => "MethodNotAllowed"@,
        ResponseStatus::Conflict => "Conflict"@,
        ResponseStatus::ExpectationFailed => "ExpectationFailed"@,
        ResponseStatus::UnprocessableEntity => "UnprocessableEntity"@,
        ResponseStatus::TooManyRequests => "TooManyRequests"@,
        ResponseStatus::InternalServerError => "InternalServerError"@,
        ResponseStatus::NotImplemented => "NotImplemented"@,
        ResponseStatus::BadGateway => "BadGateway"@,
        ResponseStatus::ServiceUnavailable => "ServiceUnavailable"@,
    }
}

/// The status that a numeric code names, if the code is modelled.
pub open spec fn status_from_code(code: u16) -> Option<ResponseStatus> {
    if code == 200 {
        Some(ResponseStatus::Okay)
    } else if code == 201 {
        Some(ResponseStatus::Created)
    } else if code == 202 {
        Some(ResponseStatus::Accepted)
    } else if code == 204 {
        Some(ResponseStatus::NoContent)
    } else if code == 301 {
        Some(ResponseStatus::MovedPermanently)
    } else if code == 302 {
        Some(ResponseStatus::Found)
    } else if code == 304 {
        Some(ResponseStatus::NotModified)
    } else if code == 400 {
        Some(ResponseStatus::BadRequest)
    } else if code == 401 {
        Some(ResponseStatus::Unauthorized)
    } else if code == 403 {
        Some(ResponseStatus::Forbidden)
    } else if code == 404 {
        Some(ResponseStatus::NotFound)
    } else if code == 405 {
        Some(ResponseStatus::MethodNotAllowed)
    } else if code == 409 {
        Some(ResponseStatus::Conflict)
    } else if code == 417 {
        Some(ResponseStatus::ExpectationFailed)
    } else if code == 422 {
        Some(ResponseStatus::UnprocessableEntity)
    } else if code == 429 {
        Some(ResponseStatus::TooManyRequests)
    } else if code == 500 {
        Some(ResponseStatus::InternalServerError)
    } else if code == 501 {
        Some(ResponseStatus::NotImplemented)
    } else if code == 502 {
        Some(ResponseStatus::BadGateway)
    } else if code == 503 {
        Some(ResponseStatus::ServiceUnavailable)
    } else {
        None
    }
}

impl ResponseStatus {
    /// The numeric code of this status.
    pub fn code(&self) -> (r: u16)
        ensures
            r == status_code_of(*self),
    {
        match self {
            ResponseStatus::Okay => 200,
            ResponseStatus::Created => 201,
            ResponseStatus::Accepted => 202,
            ResponseStatus::NoContent => 204,
            ResponseStatus::MovedPermanently => 301,
            ResponseStatus::Found => 302,
            ResponseStatus::NotModified => 304,
            ResponseStatus::BadRequest => 400,
            ResponseStatus::Unauthorized => 401,
            ResponseStatus::Forbidden => 403,
            ResponseStatus::NotFound => 404,
            ResponseStatus::MethodNotAllowed => 405,
            ResponseStatus::Conflict => 409,
            ResponseStatus::ExpectationFailed => 417,
            ResponseStatus::UnprocessableEntity => 422,
            ResponseStatus::TooManyRequests => 429,
            ResponseStatus::InternalServerError => 500,
            ResponseStatus::NotImplemented => 501,
            ResponseStatus::BadGateway => 502,
            ResponseStatus::ServiceUnavailable => 503,
        }
    }

    /// The canonical PascalCase name of this status.
    pub fn label(&self) -> (r: String)
        ensures
            r@ == status_label_of(*self),
    {
        match self {
            ResponseStatus::Okay => String::from_str("Ok"),
            ResponseStatus::Created => String::from_str("Created"),
            ResponseStatus::Accepted => String::from_str("Accepted"),
            ResponseStatus::NoContent => String::from_str("NoContent"),
            ResponseStatus::MovedPermanently => String::from_str("MovedPermanently"),
            ResponseStatus::Found => String::from_str("Found"),
            ResponseStatus::NotModified => String::from_str("NotModified"),
            ResponseStatus::BadRequest => String::from_str("BadRequest"),
            ResponseStatus::Unauthorized => String::from_str("Unauthorized"),
            ResponseStatus::Forbidden => String::from_str("Forbidden"),
            ResponseStatus::NotFound => String::from_str("NotFound"),
            ResponseStatus::MethodNotAllowed => String::from_str("MethodNotAllowed"),
            ResponseStatus::Conflict => String::from_str("Conflict"),
            ResponseStatus::ExpectationFailed => String::from_str("ExpectationFailed"),
            ResponseStatus::UnprocessableEntity => String::from_str("UnprocessableEntity"),
            ResponseStatus::TooManyRequests => String::from_str("TooManyRequests"),
            ResponseStatus::InternalServerError => String::from_str("InternalServerError"),
            ResponseStatus::NotImplemented => String::from_str("NotImplemented"),
            ResponseStatus::BadGateway => String::from_str("BadGateway"),
            ResponseStatus::ServiceUnavailable => String::from_str("ServiceUnavailable"),
        }
    }

    /// The status a numeric code names, as `status_from_code` names it.
    pub fn from_code(code: u16) -> (r: Option<ResponseStatus>)
        ensures
            r == status_from_code(code),
    {
        if code == 200 {
            Some(ResponseStatus::Okay)
        } else if code == 201 {
            Some(ResponseStatus::Created)
        } else if code == 202 {
            Some(ResponseStatus::Accepted)
        } else if code == 204 {
            Some(ResponseStatus::NoContent)
        } else if code == 301 {
            Some(ResponseStatus::MovedPermanently)
        } else if code == 302 {
            Some(ResponseStatus::Found)
        } else if code == 304 {
            Some(ResponseStatus::NotModified)
        } else if code == 400 {
            Some(ResponseStatus::BadRequest)
        } else if code == 401 {
            Some(ResponseStatus::Unauthorized)
        } else if code == 403 {
            Some(ResponseStatus::Forbidden)
        } else if code == 404 {
            Some(ResponseStatus::NotFound)
        } else if code == 405 {
            Some(ResponseStatus::MethodNotAllowed)
        } else if code == 409 {
            Some(ResponseStatus::Conflict)
        } else if code == 417 {
            Some(ResponseStatus::ExpectationFailed)
        } else if code == 422 {
            Some(ResponseStatus::UnprocessableEntity)
        } else if code == 429 {
            Some(ResponseStatus::TooManyRequests)
        } else if code == 500 {
            Some(ResponseStatus::InternalServerError)
        } else if code == 501 {
            Some(ResponseStatus::NotImplemented)
        } else if code == 502 {
            Some(ResponseStatus::BadGateway)
        } else if code == 503 {
            Some(ResponseStatus::ServiceUnavailable)
        } else {
            None
        }
    }
}

/// One variant of an operation's response union, before printing.
pub struct StatusVariant {
    pub status: ResponseStatus,
    /// Name of the payload component in the `responses` namespace.
    pub response_type_name: Option<String>,
    /// Doc comment of the variant.
    pub description: Option<String>,
    /// Serialization content type; `None` means an empty body.
    pub content_type: Option<ContentType>,
    /// Explicit variant label, overriding the canonical status name.
    pub x_variant_name: Option<String>,
}

#[verifier::ext_equal]
pub struct StatusVariantV {
    pub status: ResponseStatus,
    pub response_type_name: Option<Seq<char>>,
    pub description: Option<Seq<char>>,
    pub content_type: Option<ContentType>,
    pub x_variant_name: Option<Seq<char>>,
}

impl View for StatusVariant {
    type V = StatusVariantV;

    open spec fn view(&self) -> StatusVariantV {
        StatusVariantV {
            status: self.status,
            response_type_name: opt_view(self.response_type_name),
            description: opt_view(self.description),
            content_type: self.content_type,
            x_variant_name: opt_view(self.x_variant_name),
        }
    }
}

/// The label of a variant: its explicit `x-variant-name` when given, else
/// the canonical status name, both in the variant naming convention.
pub open spec fn variant_label_of(v: StatusVariantV) -> Seq<char> {
    match v.x_variant_name {
        Some(n) => variant_name_of(n),
        None => variant_name_of(status_label_of(v.status)),
    }
}

/// The emitted label of an optional content type.
pub open spec fn content_label_opt(c: Option<ContentType>) -> Option<Seq<char>> {
    match c {
        Some(ct) => Some(content_type_label(ct)),
        None => None,
    }
}

/// The node a status variant prints to.
pub open spec fn response_variant_node_of(v: StatusVariantV) -> ResponseVariantNodeV {
    ResponseVariantNodeV {
        doc: v.description,
        name: variant_label_of(v),
        payload: match v.response_type_name {
            Some(n) => Some(type_name_of(n)),
            None => None,
        },
        status_const: constant_name_of(status_label_of(v.status)),
        content_type: content_label_opt(v.content_type),
    }
}

impl StatusVariant {
    /// The emitted variant label.
    pub fn name(&self) -> (r: String)
        ensures
            r@ == variant_label_of(self@),
    {
        match &self.x_variant_name {
            Some(n) => to_variant_name(n.as_str()),
            None => {
                let label = self.status.label();
                to_variant_name(label.as_str())
            },
        }
    }

    /// The emitted content-type label, when a payload is serialized.
    pub fn content_type(&self) -> (r: Option<String>)
        ensures
            opt_view(r) == content_label_opt(self@.content_type),
    {
        match &self.content_type {
            Some(ct) => Some(ct.print()),
            None => None,
        }
    }

    pub fn print(&self) -> (r: ResponseVariantNode)
        ensures
            r@ == response_variant_node_of(self@),
    {
        let payload = match &self.response_type_name {
            Some(n) => Some(to_type_name(n.as_str())),
            None => None,
        };
        let label = self.status.label();
        let r = ResponseVariantNode {
            doc: clone_opt_string(&self.description),
            name: self.name(),
            payload,
            status_const: to_constant_name(label.as_str()),
            content_type: self.content_type(),
        };
        proof {
            assert(r@ =~= response_variant_node_of(self@));
        }
        r
    }
}

/// The ordered response variants of one operation.
pub struct ResponseEnum {
    pub responses: Vec<StatusVariant>,
}

impl View for ResponseEnum {
    type V = Seq<StatusVariantV>;

    open spec fn view(&self) -> Seq<StatusVariantV> {
        self.responses@.map_values(|v: StatusVariant| v@)
    }
}

/// One query parameter of an operation, referencing a component of the
/// `parameters` namespace.
pub struct QueryParam {
    pub name: String,
    pub type_ref: String,
    pub description: Option<String>,
    pub required: bool,
}

#[verifier::ext_equal]
pub struct QueryParamV {
    pub name: Seq<char>,
    pub type_ref: Seq<char>,
    pub description: Option<Seq<char>>,
    pub required: bool,
}

impl View for QueryParam {
    type V = QueryParamV;

    open spec fn view(&self) -> QueryParamV {
        QueryParamV {
            name: self.name@,
            type_ref: self.type_ref@,
            description: opt_view(self.description),
            required: self.required,
        }
    }
}

/// The field a query parameter prints to inside the query-parameter type.
pub open spec fn query_field_of(q: QueryParamV) -> FieldDeclV {
    FieldDeclV {
        doc: q.description,
        rename: if field_name_of(q.name) == q.name {
            None
        } else {
            Some(q.name)
        },
        name: field_name_of(q.name),
        ty: TypeExprV {
            wrappers: if q.required {
                Seq::empty()
            } else {
                seq![TypeWrap::OptionOf]
            },
            base: TypeBaseV::Pathed(seq!["parameters"@, type_name_of(q.type_ref)]),
        },
    }
}

impl QueryParam {
    pub fn print(&self) -> (r: FieldDecl)
        ensures
            r@ == query_field_of(self@),
    {
        let name_snake = to_field_name(self.name.as_str());
        let rename = if needs_rename(self.name.as_str(), &name_snake) {
            Some(self.name.clone())
        } else {
            None
        };
        let mut wrappers: Vec<TypeWrap> = Vec::new();
        if !self.required {
            wrappers.push(TypeWrap::OptionOf);
        }
        let mut segments: Vec<String> = Vec::new();
        segments.push(String::from_str("parameters"));
        segments.push(to_type_name(self.type_ref.as_str()));
        let r = FieldDecl {
            doc: clone_opt_string(&self.description),
            rename,
            name: name_snake,
            ty: TypeExpr { wrappers, base: TypeBase::Pathed(segments) },
        };
        proof {
            assert(r@.ty.base =~= query_field_of(self@).ty.base);
            assert(r@.ty =~= query_field_of(self@).ty);
            assert(r@ =~= query_field_of(self@));
        }
        r
    }
}

/// One bound operation, ready for printing: its module name, its response
/// union and its query parameters.
pub struct Path {
    pub name: String,
    pub response: ResponseEnum,
    pub query_params: Vec<QueryParam>,
}

#[verifier::ext_equal]
pub struct PathV {
    pub name: Seq<char>,
    pub response: Seq<StatusVariantV>,
    pub query_params: Seq<QueryParamV>,
}

impl View for Path {
    type V = PathV;

    open spec fn view(&self) -> PathV {
        PathV {
            name: self.name@,
            response: self.response@,
            query_params: self.query_params@.map_values(|q: QueryParam| q@),
        }
    }
}

/// The operation module a bound operation prints to.
pub open spec fn operation_node_of(p: PathV) -> OperationNodeV {
    OperationNodeV {
        module_name: field_name_of(p.name),
        response_variants: p.response.map_values(|v: StatusVariantV| response_variant_node_of(v)),
        query_fields: p.query_params.map_values(|q: QueryParamV| query_field_of(q)),
    }
}

impl Path {
    pub fn print(&self) -> (r: OperationNode)
        ensures
            r@ == operation_node_of(self@),
    {
        let mut variants: Vec<ResponseVariantNode> = Vec::new();
        let mut i: usize = 0;
        while i < self.response.responses.len()
            invariant
                i <= self.response.responses@.len(),
                variants@.len() == i,
                forall|j: int|
                    0 <= j < i ==> #[trigger] variants@[j]@ == response_variant_node_of(
                        self.response.responses@[j]@,
                    ),
            decreases self.response.responses@.len() - i,
        {
            variants.push(self.response.responses[i].print());
            i += 1;
        }
        let mut query_fields: Vec<FieldDecl> = Vec::new();
        let mut k: usize = 0;
        while k < self.query_params.len()
            invariant
                k <= self.query_params@.len(),
                query_fields@.len() == k,
                forall|j: int|
                    0 <= j < k ==> #[trigger] query_fields@[j]@ == query_field_of(
                        self.query_params@[j]@,
                    ),
            decreases self.query_params@.len() - k,
        {
            query_fields.push(self.query_params[k].print());
            k += 1;
        }
        let r = OperationNode {
            module_name: to_field_name(self.name.as_str()),
            response_variants: variants,
            query_fields,
        };
        proof {
            assert(r@.response_variants =~= operation_node_of(self@).response_variants);
            assert(r@.query_fields =~= operation_node_of(self@).query_fields);
            assert(r@ =~= operation_node_of(self@));
        }
        r
    }
}

/// The paths module: the bound operations in emission order.
pub struct PathsModule {
    pub paths: Vec<Path>,
}

#[verifier::ext_equal]
pub struct PathsModuleV {
    pub paths: Seq<PathV>,
}

impl View for PathsModule {
    type V = PathsModuleV;

    open spec fn view(&self) -> PathsModuleV {
        PathsModuleV { paths: self.paths@.map_values(|p: Path| p@) }
    }
}

impl Default for PathsModule {
    fn default() -> (r: Self)
        ensures
            r@.paths =~= Seq::<PathV>::empty(),
    {
        PathsModule { paths: Vec::new() }
    }
}

/// The paths node a paths module prints to.
pub open spec fn paths_node_of(m: PathsModuleV) -> PathsNodeV {
    PathsNodeV { operations: m.paths.map_values(|p: PathV| operation_node_of(p)) }
}

impl PathsModule {
    pub fn print(&self) -> (r: PathsNode)
        ensures
            r@ == paths_node_of(self@),
    {
        let mut operations: Vec<OperationNode> = Vec::new();
        let mut i: usize = 0;
        while i < self.paths.len()
            invariant
                i <= self.paths@.len(),
                operations@.len() == i,
                forall|j: int|
                    0 <= j < i ==> #[trigger] operations@[j]@ == operation_node_of(
                        self.paths@[j]@,
                    ),
            decreases self.paths@.len() - i,
        {
            operations.push(self.paths[i].print());
            i += 1;
        }
        let r = PathsNode { operations };
        proof {
            assert(r@.operations =~= paths_node_of(self@).operations);
            assert(r@ =~= paths_node_of(self@));
        }
        r
    }
}

} // verus!
