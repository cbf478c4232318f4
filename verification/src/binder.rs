//! The operation binder: from the document's paths to bound operations,
//! grouped into route scopes.
//!
//! Every operation yields one `BoundOperation`: its HTTP method, its path
//! template, its optional request-body component, its response variants in
//! declared order, and its query parameters.  Operations sharing a path
//! template are grouped into one route scope, in first-seen order.

use vstd::prelude::*;

use crate::document::{Document, Operation, Parameter, ParameterLocation, PathItem};
use crate::document::{RefOr, RequestBody, Response, ResponseEntry};
use crate::emit::{clone_opt_string, opt_view};
use crate::highway::{parameters_namespace_has, spec_find_media, Components, ComponentsV};
use crate::naming::{to_struct_name, type_name_of};
use crate::printer::api::HttpMethod;
use crate::printer::paths::{status_from_code, ContentType, QueryParam, QueryParamV};
use crate::printer::paths::{ResponseEnum, ResponseStatus, StatusVariant, StatusVariantV};
use crate::resolver::{parse_component_name, resolve_in_section, resolve_ref_in_section};
use crate::resolver::{ComponentKind, RESOLVE_DEPTH_LIMIT};

verus! {

/// Why binding failed; every case aborts the run.
#[derive(Debug)]
pub enum BindError {
    /// Two responses with the same status and no distinguishing label.
    DuplicateStatus { operation: String, status: u16 },
    /// A query parameter whose type is not a named component of the
    /// parameters namespace.
    UnnamedParameterSchema { name: String },
    /// A status code outside the modelled set.
    UnsupportedStatus { operation: String, status: u16 },
    /// An operation without an `operationId`; bound operations must be
    /// nameable.
    MissingOperationId { path: String },
    /// A pointer that could not be followed while binding.
    UnresolvedReference { operation: String },
    /// A response payload given as an inline, un-named schema.
    UnnamedResponseSchema { operation: String, status: u16 },
    /// A request body given inline instead of as a named component.
    UnnamedRequestBody { operation: String },
    /// A path item given as a pointer, which binding does not follow.
    UnresolvedPathItem { path: String },
}

/// Ghost value of a `BindError`.
pub enum BindErrorV {
    DuplicateStatus { operation: Seq<char>, status: u16 },
    UnnamedParameterSchema { name: Seq<char> },
    UnsupportedStatus { operation: Seq<char>, status: u16 },
    MissingOperationId { path: Seq<char> },
    UnresolvedReference { operation: Seq<char> },
    UnnamedResponseSchema { operation: Seq<char>, status: u16 },
    UnnamedRequestBody { operation: Seq<char> },
    UnresolvedPathItem { path: Seq<char> },
}

impl View for BindError {
    type V = BindErrorV;

    open spec fn view(&self) -> BindErrorV {
        match self {
            BindError::DuplicateStatus { operation, status } => BindErrorV::DuplicateStatus {
                operation: operation@,
                status: *status,
            },
            BindError::UnnamedParameterSchema { name } => BindErrorV::UnnamedParameterSchema {
                name: name@,
            },
            BindError::UnsupportedStatus { operation, status } => BindErrorV::UnsupportedStatus {
                operation: operation@,
                status: *status,
            },
            BindError::MissingOperationId { path } => BindErrorV::MissingOperationId {
                path: path@,
            },
            BindError::UnresolvedReference { operation } => BindErrorV::UnresolvedReference {
                operation: operation@,
            },
            BindError::UnnamedResponseSchema { operation, status } => {
                BindErrorV::UnnamedResponseSchema { operation: operation@, status: *status }
            },
            BindError::UnnamedRequestBody { operation } => BindErrorV::UnnamedRequestBody {
                operation: operation@,
            },
            BindError::UnresolvedPathItem { path } => BindErrorV::UnresolvedPathItem {
                path: path@,
            },
        }
    }
}

/// One operation bound to its binding surface.
pub struct BoundOperation {
    pub name: String,
    pub method: HttpMethod,
    pub path: String,
    pub request_body: Option<String>,
    pub response: ResponseEnum,
    pub query_params: Vec<QueryParam>,
}

#[verifier::ext_equal]
pub struct BoundOperationV {
    pub name: Seq<char>,
    pub method: HttpMethod,
    pub path: Seq<char>,
    pub request_body: Option<Seq<char>>,
    pub response: Seq<StatusVariantV>,
    pub query_params: Seq<QueryParamV>,
}

impl View for BoundOperation {
    type V = BoundOperationV;

    open spec fn view(&self) -> BoundOperationV {
        BoundOperationV {
            name: self.name@,
            method: self.method,
            path: self.path@,
            request_body: opt_view(self.request_body),
            response: self.response@,
            query_params: self.query_params@.map_values(|q: QueryParam| q@),
        }
    }
}

/// The operations sharing one path template, in declaration order.
pub struct RouteScope {
    pub path: String,
    pub operations: Vec<BoundOperation>,
}

#[verifier::ext_equal]
pub struct RouteScopeV {
    pub path: Seq<char>,
    pub operations: Seq<BoundOperationV>,
}

impl View for RouteScope {
    type V = RouteScopeV;

    open spec fn view(&self) -> RouteScopeV {
        RouteScopeV {
            path: self.path@,
            operations: self.operations@.map_values(|o: BoundOperation| o@),
        }
    }
}

/// The payload reference, content type and doc text of one declared
/// response.
pub open spec fn spec_response_payload(
    doc: Document,
    opname: Seq<char>,
    status: u16,
    source: RefOr<Response>,
) -> Result<(Option<Seq<char>>, Option<ContentType>, Option<Seq<char>>), BindErrorV> {
    match source {
        RefOr::Reference { reference } => match parse_component_name(
            reference@,
            ComponentKind::Response,
        ) {
            None => Err(BindErrorV::UnresolvedReference { operation: opname }),
            Some(n) => match resolve_in_section(
                crate::resolver::response_section(doc),
                ComponentKind::Response,
                reference@,
                RESOLVE_DEPTH_LIMIT as nat,
            ) {
                Err(_) => Err(BindErrorV::UnresolvedReference { operation: opname }),
                Ok(resp) => match spec_find_media(resp.content@) {
                    None => Ok((None, None, opt_view(resp.description))),
                    Some((ct, _)) => Ok((Some(n), Some(ct), opt_view(resp.description))),
                },
            },
        },
        RefOr::Item(resp) => match spec_find_media(resp.content@) {
            None => Ok((None, None, opt_view(resp.description))),
            Some((ct, media)) => match media.schema {
                None => Ok((None, Some(ct), opt_view(resp.description))),
                Some(RefOr::Reference { reference }) => match parse_component_name(
                    reference@,
                    ComponentKind::Schema,
                ) {
                    None => Err(BindErrorV::UnresolvedReference { operation: opname }),
                    Some(n) => {
                        if resolve_in_section(
                            crate::resolver::schema_section(doc),
                            ComponentKind::Schema,
                            reference@,
                            RESOLVE_DEPTH_LIMIT as nat,
                        ) is Ok {
                            Ok((Some(n), Some(ct), opt_view(resp.description)))
                        } else {
                            Err(BindErrorV::UnresolvedReference { operation: opname })
                        }
                    },
                },
                Some(RefOr::Item(_)) => Err(
                    BindErrorV::UnnamedResponseSchema { operation: opname, status },
                ),
            },
        },
    }
}

/// The response variants of an operation, in declared order; `seen` holds
/// the statuses already used without a distinguishing label.
pub open spec fn spec_bind_responses(
    doc: Document,
    opname: Seq<char>,
    entries: Seq<ResponseEntry>,
    seen: Set<u16>,
) -> Result<Seq<StatusVariantV>, BindErrorV>
    decreases entries.len(),
{
    if entries.len() == 0 {
        Ok(Seq::empty())
    } else {
        let e0 = entries[0];
        if e0.variant_label is None && seen.contains(e0.status) {
            Err(BindErrorV::DuplicateStatus { operation: opname, status: e0.status })
        } else {
            match status_from_code(e0.status) {
                None => Err(BindErrorV::UnsupportedStatus { operation: opname, status: e0.status }),
                Some(st) => match spec_response_payload(doc, opname, e0.status, e0.response) {
                    Err(err) => Err(err),
                    Ok((payload, ct, descr)) => {
                        let seen2 = if e0.variant_label is None {
                            seen.insert(e0.status)
                        } else {
                            seen
                        };
                        match spec_bind_responses(doc, opname, entries.skip(1), seen2) {
                            Err(err) => Err(err),
                            Ok(rest) => Ok(
                                seq![
                                    StatusVariantV {
                                        status: st,
                                        response_type_name: payload,
                                        description: descr,
                                        content_type: ct,
                                        x_variant_name: opt_view(e0.variant_label),
                                    },
                                ] + rest,
                            ),
                        }
                    },
                },
            }
        }
    }
}

/// The request-body component of an operation, if one is declared.
pub open spec fn spec_bind_request_body(
    doc: Document,
    opname: Seq<char>,
    rb: Option<RefOr<RequestBody>>,
) -> Result<Option<Seq<char>>, BindErrorV> {
    match rb {
        None => Ok(None),
        Some(RefOr::Reference { reference }) => match parse_component_name(
            reference@,
            ComponentKind::RequestBody,
        ) {
            None => Err(BindErrorV::UnresolvedReference { operation: opname }),
            Some(n) => {
                if resolve_in_section(
                    crate::resolver::request_body_section(doc),
                    ComponentKind::RequestBody,
                    reference@,
                    RESOLVE_DEPTH_LIMIT as nat,
                ) is Ok {
                    Ok(Some(n))
                } else {
                    Err(BindErrorV::UnresolvedReference { operation: opname })
                }
            },
        },
        Some(RefOr::Item(b)) => {
            if b.content@.len() == 0 {
                Ok(None)
            } else {
                Err(BindErrorV::UnnamedRequestBody { operation: opname })
            }
        },
    }
}

/// The query parameters of an operation: parameters with query placement,
/// each required to name a component of the parameters namespace.
pub open spec fn spec_bind_params(
    doc: Document,
    graph: ComponentsV,
    opname: Seq<char>,
    params: Seq<RefOr<Parameter>>,
) -> Result<Seq<QueryParamV>, BindErrorV>
    decreases params.len(),
{
    if params.len() == 0 {
        Ok(Seq::empty())
    } else {
        match resolve_ref_in_section(
            crate::resolver::parameter_section(doc),
            ComponentKind::Parameter,
            params[0],
            RESOLVE_DEPTH_LIMIT as nat,
        ) {
            Err(_) => Err(BindErrorV::UnresolvedReference { operation: opname }),
            Ok(p) => {
                if !(p.location matches ParameterLocation::Query) {
                    spec_bind_params(doc, graph, opname, params.skip(1))
                } else if !parameters_namespace_has(graph, type_name_of(p.name@)) {
                    Err(BindErrorV::UnnamedParameterSchema { name: p.name@ })
                } else {
                    match spec_bind_params(doc, graph, opname, params.skip(1)) {
                        Err(e) => Err(e),
                        Ok(rest) => Ok(
                            seq![
                                QueryParamV {
                                    name: p.name@,
                                    type_ref: p.name@,
                                    description: opt_view(p.description),
                                    required: p.required,
                                },
                            ] + rest,
                        ),
                    }
                }
            },
        }
    }
}

/// One bound operation.
pub open spec fn spec_bind_operation(
    doc: Document,
    graph: ComponentsV,
    path: Seq<char>,
    method: HttpMethod,
    op: Operation,
) -> Result<BoundOperationV, BindErrorV> {
    match op.operation_id {
        None => Err(BindErrorV::MissingOperationId { path }),
        Some(id) => match spec_bind_responses(doc, id@, op.responses@, Set::empty()) {
            Err(e) => Err(e),
            Ok(variants) => match spec_bind_request_body(doc, id@, op.request_body) {
                Err(e) => Err(e),
                Ok(rb) => match spec_bind_params(doc, graph, id@, op.parameters@) {
                    Err(e) => Err(e),
                    Ok(qps) => Ok(
                        BoundOperationV {
                            name: id@,
                            method,
                            path,
                            request_body: rb,
                            response: variants,
                            query_params: qps,
                        },
                    ),
                },
            },
        },
    }
}

/// The index of the scope carrying `path`, or the number of scopes.
pub open spec fn scope_index(scopes: Seq<RouteScopeV>, path: Seq<char>) -> int
    decreases scopes.len(),
{
    if scopes.len() == 0 {
        0
    } else if scopes[0].path == path {
        0
    } else {
        1 + scope_index(scopes.skip(1), path)
    }
}

/// Grouping: a bound operation joins the scope of its path template, in
/// first-seen order; a fresh path template opens a new scope at the end.
pub open spec fn spec_add_to_scopes(
    scopes: Seq<RouteScopeV>,
    path: Seq<char>,
    op: BoundOperationV,
) -> Seq<RouteScopeV> {
    let i = scope_index(scopes, path);
    if i < scopes.len() {
        scopes.update(
            i,
            RouteScopeV { path: scopes[i].path, operations: scopes[i].operations.push(op) },
        )
    } else {
        scopes.push(RouteScopeV { path, operations: seq![op] })
    }
}

/// The eight method slots of a path item, in the fixed binding order.
pub open spec fn method_slots(item: PathItem) -> Seq<(HttpMethod, Option<Operation>)> {
    seq![
        (HttpMethod::Get, item.get),
        (HttpMethod::Put, item.put),
        (HttpMethod::Post, item.post),
        (HttpMethod::Delete, item.delete),
        (HttpMethod::Options, item.options),
        (HttpMethod::Head, item.head),
        (HttpMethod::Patch, item.patch),
        (HttpMethod::Trace, item.trace),
    ]
}

/// Binding of the declared methods of one path, left to right.
pub open spec fn spec_bind_slots(
    doc: Document,
    graph: ComponentsV,
    path: Seq<char>,
    slots: Seq<(HttpMethod, Option<Operation>)>,
    scopes: Seq<RouteScopeV>,
) -> Result<Seq<RouteScopeV>, BindErrorV>
    decreases slots.len(),
{
    if slots.len() == 0 {
        Ok(scopes)
    } else {
        match slots[0].1 {
            None => spec_bind_slots(doc, graph, path, slots.skip(1), scopes),
            Some(op) => match spec_bind_operation(doc, graph, path, slots[0].0, op) {
                Err(e) => Err(e),
                Ok(bop) => spec_bind_slots(
                    doc,
                    graph,
                    path,
                    slots.skip(1),
                    spec_add_to_scopes(scopes, path, bop),
                ),
            },
        }
    }
}

/// Binding of the document's paths, in declaration order.
pub open spec fn spec_bind_paths(
    doc: Document,
    graph: ComponentsV,
    entries: Seq<(String, RefOr<PathItem>)>,
    scopes: Seq<RouteScopeV>,
) -> Result<Seq<RouteScopeV>, BindErrorV>
    decreases entries.len(),
{
    if entries.len() == 0 {
        Ok(scopes)
    } else {
        match entries[0].1 {
            RefOr::Reference { .. } => Err(
                BindErrorV::UnresolvedPathItem { path: entries[0].0@ },
            ),
            RefOr::Item(item) => match spec_bind_slots(
                doc,
                graph,
                entries[0].0@,
                method_slots(item),
                scopes,
            ) {
                Err(e) => Err(e),
                Ok(scopes2) => spec_bind_paths(doc, graph, entries.skip(1), scopes2),
            },
        }
    }
}

/// The whole binding surface of a document against a built graph.
pub open spec fn spec_bind(doc: Document, graph: ComponentsV) -> Result<
    Seq<RouteScopeV>,
    BindErrorV,
> {
    spec_bind_paths(doc, graph, doc.paths@, Seq::empty())
}

/// The path templates of the scopes, in order.
pub open spec fn scope_paths(scopes: Seq<RouteScopeV>) -> Seq<Seq<char>> {
    scopes.map_values(|s: RouteScopeV| s.path)
}

/// Grouping invariant: adding an operation on a path already scoped never
/// opens a new scope; it appends the operation, in order, to the existing
/// scope of that path and leaves every other scope untouched.  A fresh
/// path opens exactly one scope at the end.
pub proof fn lemma_scope_grouping(scopes: Seq<RouteScopeV>, path: Seq<char>, op: BoundOperationV)
    ensures
        scope_paths(scopes).contains(path) ==> {
            let i = scope_index(scopes, path);
            &&& spec_add_to_scopes(scopes, path, op).len() == scopes.len()
            &&& 0 <= i < scopes.len()
            &&& scopes[i].path == path
            &&& spec_add_to_scopes(scopes, path, op)[i].operations == scopes[i].operations.push(op)
            &&& forall|j: int|
                0 <= j < scopes.len() && j != i ==> spec_add_to_scopes(scopes, path, op)[j]
                    == scopes[j]
        },
        !scope_paths(scopes).contains(path) ==> spec_add_to_scopes(scopes, path, op)
            == scopes.push(RouteScopeV { path, operations: seq![op] }),
    decreases scopes.len(),
{
    lemma_scope_index(scopes, path);
}

/// `scope_index` finds the first scope of a path, and only exists when the
/// path is scoped.
pub proof fn lemma_scope_index(scopes: Seq<RouteScopeV>, path: Seq<char>)
    ensures
        scope_paths(scopes).contains(path) ==> {
            &&& 0 <= scope_index(scopes, path) < scopes.len()
            &&& scopes[scope_index(scopes, path)].path == path
        },
        !scope_paths(scopes).contains(path) ==> scope_index(scopes, path) == scopes.len(),
    decreases scopes.len(),
{
    let ps = scope_paths(scopes);
    if scopes.len() == 0 {
    } else if scopes[0].path == path {
        assert(ps[0] == path);
    } else {
        lemma_scope_index(scopes.skip(1), path);
        let ps1 = scope_paths(scopes.skip(1));
        assert forall|k: int| 0 <= k < ps.len() && ps[k] == path implies ps1.contains(path) by {
            assert(scopes[k].path == path);
            assert(scopes.skip(1)[k - 1] == scopes[k]);
            assert(ps1[k - 1] == path);
        }
        if ps1.contains(path) {
            let j = choose|j: int| 0 <= j < ps1.len() && ps1[j] == path;
            assert(scopes.skip(1)[j] == scopes[j + 1]);
            assert(ps[j + 1] == path);
            let i1 = scope_index(scopes.skip(1), path);
            assert(scopes[1 + i1] == scopes.skip(1)[i1]);
        }
    }
}

/// A bound response list rejects hidden duplicates: when binding succeeds,
/// no two label-less responses share a status, and every declared response
/// has exactly one variant.
pub proof fn lemma_duplicate_status_rejection(
    doc: Document,
    opname: Seq<char>,
    entries: Seq<ResponseEntry>,
    seen: Set<u16>,
)
    requires
        spec_bind_responses(doc, opname, entries, seen) is Ok,
    ensures
        spec_bind_responses(doc, opname, entries, seen)->Ok_0.len() == entries.len(),
        forall|i: int, j: int|
            0 <= i < j < entries.len() && entries[i].variant_label is None
                && entries[j].variant_label is None ==> entries[i].status != entries[j].status,
        forall|i: int|
            0 <= i < entries.len() && entries[i].variant_label is None ==> !seen.contains(
                entries[i].status,
            ),
    decreases entries.len(),
{
    if entries.len() > 0 {
        let e0 = entries[0];
        let seen2 = if e0.variant_label is None {
            seen.insert(e0.status)
        } else {
            seen
        };
        lemma_duplicate_status_rejection(doc, opname, entries.skip(1), seen2);
        assert forall|i: int, j: int|
            0 <= i < j < entries.len() && entries[i].variant_label is None
                && entries[j].variant_label is None implies entries[i].status
            != entries[j].status by {
            if i == 0 {
                assert(entries.skip(1)[j - 1] == entries[j]);
                assert(!seen2.contains(entries.skip(1)[j - 1].status) || !(entries[j].variant_label
                    is None));
            } else {
                assert(entries.skip(1)[i - 1] == entries[i]);
                assert(entries.skip(1)[j - 1] == entries[j]);
            }
        }
        assert forall|i: int|
            0 <= i < entries.len() && entries[i].variant_label is None implies !seen.contains(
            entries[i].status,
        ) by {
            if i > 0 {
                assert(entries.skip(1)[i - 1] == entries[i]);
            }
        }
    }
}

/// The statuses a list of codes holds.
pub open spec fn seen_set(s: Seq<u16>) -> Set<u16> {
    Set::new(|x: u16| s.contains(x))
}

proof fn lemma_seen_push(s: Seq<u16>, x: u16)
    ensures
        seen_set(s.push(x)) == seen_set(s).insert(x),
{
    assert forall|y: u16| #[trigger] s.push(x).contains(y) implies s.contains(y) || y == x by {
        let k = choose|k: int| 0 <= k < s.push(x).len() && s.push(x)[k] == y;
        if k < s.len() {
            assert(s[k] == y);
        }
    }
    assert forall|y: u16| s.contains(y) implies #[trigger] s.push(x).contains(y) by {
        let k = choose|k: int| 0 <= k < s.len() && s[k] == y;
        assert(s.push(x)[k] == y);
    }
    assert(s.push(x)[s.len() as int] == x);
    assert(seen_set(s.push(x)) =~= seen_set(s).insert(x));
}

fn seen_contains(seen: &Vec<u16>, status: u16) -> (r: bool)
    ensures
        r == seen_set(seen@).contains(status),
{
    let mut i: usize = 0;
    while i < seen.len()
        invariant
            i <= seen@.len(),
            forall|j: int| 0 <= j < i ==> seen@[j] != status,
        decreases seen@.len() - i,
    {
        if seen[i] == status {
            return true;
        }
        i += 1;
    }
    false
}

/// The payload of one declared response, as `spec_response_payload` names
/// it.
fn response_payload(doc: &Document, opname: &String, status: u16, source: &RefOr<Response>) -> (r:
    Result<(Option<String>, Option<ContentType>, Option<String>), BindError>)
    ensures
        match r {
            Ok((p, ct, d)) => spec_response_payload(*doc, opname@, status, *source) == Ok::<
                _,
                BindErrorV,
            >((opt_view(p), ct, opt_view(d))),
            Err(e) => spec_response_payload(*doc, opname@, status, *source) == Err::<
                (Option<Seq<char>>, Option<ContentType>, Option<Seq<char>>),
                _,
            >(e@),
        },
{
    match source {
        RefOr::Reference { reference } => {
            match crate::resolver::component_name_of(reference.as_str(), ComponentKind::Response) {
                None => Err(BindError::UnresolvedReference { operation: opname.clone() }),
                Some(n) => match crate::resolver::resolve_response(doc, reference.as_str()) {
                    Err(_) => Err(BindError::UnresolvedReference { operation: opname.clone() }),
                    Ok(resp) => match crate::highway::find_media_entry(&resp.content) {
                        None => Ok((None, None, clone_opt_string(&resp.description))),
                        Some((ct, _)) => Ok((Some(n), Some(ct), clone_opt_string(&resp.description))),
                    },
                },
            }
        },
        RefOr::Item(resp) => match crate::highway::find_media_entry(&resp.content) {
            None => Ok((None, None, clone_opt_string(&resp.description))),
            Some((ct, media)) => match &media.schema {
                None => Ok((None, Some(ct), clone_opt_string(&resp.description))),
                Some(RefOr::Reference { reference }) => {
                    match crate::resolver::component_name_of(
                        reference.as_str(),
                        ComponentKind::Schema,
                    ) {
                        None => Err(BindError::UnresolvedReference { operation: opname.clone() }),
                        Some(n) => match crate::resolver::resolve_schema(doc, reference.as_str()) {
                            Ok(_) => Ok((Some(n), Some(ct), clone_opt_string(&resp.description))),
                            Err(_) => Err(
                                BindError::UnresolvedReference { operation: opname.clone() },
                            ),
                        },
                    }
                },
                Some(RefOr::Item(_)) => Err(
                    BindError::UnnamedResponseSchema { operation: opname.clone(), status },
                ),
            },
        },
    }
}

/// The response variants from entry `i` on, as `spec_bind_responses` names
/// them.
fn bind_responses_from(
    doc: &Document,
    opname: &String,
    entries: &Vec<ResponseEntry>,
    i: usize,
    seen: Vec<u16>,
) -> (r: Result<Vec<StatusVariant>, BindError>)
    requires
        i <= entries@.len(),
    ensures
        match r {
            Ok(vs) => spec_bind_responses(*doc, opname@, entries@.skip(i as int), seen_set(seen@))
                == Ok::<_, BindErrorV>(vs@.map_values(|v: StatusVariant| v@)),
            Err(e) => spec_bind_responses(*doc, opname@, entries@.skip(i as int), seen_set(seen@))
                == Err::<Seq<StatusVariantV>, _>(e@),
        },
    decreases entries@.len() - i,
{
    if i >= entries.len() {
        proof {
            assert(entries@.skip(i as int).len() == 0);
        }
        let vs: Vec<StatusVariant> = Vec::new();
        proof {
            assert(vs@.map_values(|v: StatusVariant| v@) =~= Seq::<StatusVariantV>::empty());
        }
        return Ok(vs);
    }
    proof {
        assert(entries@.skip(i as int)[0] == entries@[i as int]);
        assert(entries@.skip(i as int).skip(1) =~= entries@.skip(i + 1));
    }
    let e0 = &entries[i];
    let label_missing = match &e0.variant_label {
        None => true,
        Some(_) => false,
    };
    if label_missing && seen_contains(&seen, e0.status) {
        return Err(BindError::DuplicateStatus { operation: opname.clone(), status: e0.status });
    }
    let st = match ResponseStatus::from_code(e0.status) {
        None => {
            return Err(
                BindError::UnsupportedStatus { operation: opname.clone(), status: e0.status },
            );
        },
        Some(st) => st,
    };
    let (payload, ct, descr) = match response_payload(doc, opname, e0.status, &e0.response) {
        Err(e) => {
            return Err(e);
        },
        Ok(triple) => triple,
    };
    let ghost seen_before = seen@;
    let mut seen = seen;
    if label_missing {
        seen.push(e0.status);
        proof {
            lemma_seen_push(seen_before, e0.status);
        }
    }
    let mut rest = match bind_responses_from(doc, opname, entries, i + 1, seen) {
        Err(e) => {
            return Err(e);
        },
        Ok(rest) => rest,
    };
    let variant = StatusVariant {
        status: st,
        response_type_name: payload,
        description: descr,
        content_type: ct,
        x_variant_name: clone_opt_string(&e0.variant_label),
    };
    let ghost rest_map = rest@.map_values(|v: StatusVariant| v@);
    rest.insert(0, variant);
    proof {
        assert(rest@.map_values(|v: StatusVariant| v@) =~= seq![rest@[0]@] + rest_map);
        assert(rest@[0]@ =~= spec_bind_responses(
            *doc,
            opname@,
            entries@.skip(i as int),
            seen_set(seen_before),
        )->Ok_0[0]);
        assert(rest@.map_values(|v: StatusVariant| v@) =~= spec_bind_responses(
            *doc,
            opname@,
            entries@.skip(i as int),
            seen_set(seen_before),
        )->Ok_0);
    }
    Ok(rest)
}

/// The request-body component, as `spec_bind_request_body` names it.
fn bind_request_body(doc: &Document, opname: &String, rb: &Option<RefOr<RequestBody>>) -> (r:
    Result<Option<String>, BindError>)
    ensures
        match r {
            Ok(b) => spec_bind_request_body(*doc, opname@, *rb) == Ok::<_, BindErrorV>(opt_view(b)),
            Err(e) => spec_bind_request_body(*doc, opname@, *rb) == Err::<Option<Seq<char>>, _>(
                e@,
            ),
        },
{
    match rb {
        None => Ok(None),
        Some(RefOr::Reference { reference }) => {
            match crate::resolver::component_name_of(
                reference.as_str(),
                ComponentKind::RequestBody,
            ) {
                None => Err(BindError::UnresolvedReference { operation: opname.clone() }),
                Some(n) => match crate::resolver::resolve_request_body(doc, reference.as_str()) {
                    Ok(_) => Ok(Some(n)),
                    Err(_) => Err(BindError::UnresolvedReference { operation: opname.clone() }),
                },
            }
        },
        Some(RefOr::Item(b)) => {
            if b.content.len() == 0 {
                Ok(None)
            } else {
                Err(BindError::UnnamedRequestBody { operation: opname.clone() })
            }
        },
    }
}

/// The query parameters from entry `i` on, as `spec_bind_params` names
/// them.
fn bind_params_from(
    doc: &Document,
    graph: &Components,
    opname: &String,
    params: &Vec<RefOr<Parameter>>,
    i: usize,
) -> (r: Result<Vec<QueryParam>, BindError>)
    requires
        i <= params@.len(),
    ensures
        match r {
            Ok(qs) => spec_bind_params(*doc, graph@, opname@, params@.skip(i as int)) == Ok::<
                _,
                BindErrorV,
            >(qs@.map_values(|q: QueryParam| q@)),
            Err(e) => spec_bind_params(*doc, graph@, opname@, params@.skip(i as int)) == Err::<
                Seq<QueryParamV>,
                _,
            >(e@),
        },
    decreases params@.len() - i,
{
    if i >= params.len() {
        proof {
            assert(params@.skip(i as int).len() == 0);
        }
        let qs: Vec<QueryParam> = Vec::new();
        proof {
            assert(qs@.map_values(|q: QueryParam| q@) =~= Seq::<QueryParamV>::empty());
        }
        return Ok(qs);
    }
    proof {
        assert(params@.skip(i as int)[0] == params@[i as int]);
        assert(params@.skip(i as int).skip(1) =~= params@.skip(i + 1));
    }
    let p: &Parameter = match &params[i] {
        RefOr::Item(v) => v,
        RefOr::Reference { reference } => {
            match crate::resolver::resolve_parameter(doc, reference.as_str()) {
                Ok(v) => v,
                Err(_) => {
                    return Err(BindError::UnresolvedReference { operation: opname.clone() });
                },
            }
        },
    };
    match p.location {
        ParameterLocation::Query => {},
        _ => {
            return bind_params_from(doc, graph, opname, params, i + 1);
        },
    }
    let emitted = to_struct_name(p.name.as_str());
    if !graph.has_parameter_component(&emitted) {
        return Err(BindError::UnnamedParameterSchema { name: p.name.clone() });
    }
    let mut rest = match bind_params_from(doc, graph, opname, params, i + 1) {
        Err(e) => {
            return Err(e);
        },
        Ok(rest) => rest,
    };
    let qp = QueryParam {
        name: p.name.clone(),
        type_ref: p.name.clone(),
        description: clone_opt_string(&p.description),
        required: p.required,
    };
    let ghost rest_map = rest@.map_values(|q: QueryParam| q@);
    rest.insert(0, qp);
    proof {
        assert(rest@.map_values(|q: QueryParam| q@) =~= seq![rest@[0]@] + rest_map);
        assert(rest@.map_values(|q: QueryParam| q@) =~= spec_bind_params(
            *doc,
            graph@,
            opname@,
            params@.skip(i as int),
        )->Ok_0);
    }
    Ok(rest)
}

/// One bound operation, as `spec_bind_operation` names it.
fn bind_operation(
    doc: &Document,
    graph: &Components,
    path: &String,
    method: HttpMethod,
    op: &Operation,
) -> (r: Result<BoundOperation, BindError>)
    ensures
        match r {
            Ok(b) => spec_bind_operation(*doc, graph@, path@, method, *op) == Ok::<_, BindErrorV>(
                b@,
            ),
            Err(e) => spec_bind_operation(*doc, graph@, path@, method, *op) == Err::<
                BoundOperationV,
                _,
            >(e@),
        },
{
    let id = match &op.operation_id {
        None => {
            return Err(BindError::MissingOperationId { path: path.clone() });
        },
        Some(id) => id,
    };
    proof {
        assert(op.responses@.skip(0) =~= op.responses@);
        assert(seen_set(Seq::<u16>::empty()) =~= Set::<u16>::empty());
        assert(op.parameters@.skip(0) =~= op.parameters@);
    }
    let variants = match bind_responses_from(doc, id, &op.responses, 0, Vec::new()) {
        Err(e) => {
            return Err(e);
        },
        Ok(vs) => vs,
    };
    let request_body = match bind_request_body(doc, id, &op.request_body) {
        Err(e) => {
            return Err(e);
        },
        Ok(b) => b,
    };
    let query_params = match bind_params_from(doc, graph, id, &op.parameters, 0) {
        Err(e) => {
            return Err(e);
        },
        Ok(qs) => qs,
    };
    let b = BoundOperation {
        name: id.clone(),
        method,
        path: path.clone(),
        request_body,
        response: ResponseEnum { responses: variants },
        query_params,
    };
    proof {
        assert(b@ =~= spec_bind_operation(*doc, graph@, path@, method, *op)->Ok_0);
    }
    Ok(b)
}

/// Appends a bound operation to the scope of its path, as
/// `spec_add_to_scopes` names it.
fn push_to_scopes(scopes: &mut Vec<RouteScope>, path: &String, op: BoundOperation)
    ensures
        final(scopes)@.map_values(|s: RouteScope| s@) == spec_add_to_scopes(
            old(scopes)@.map_values(|s: RouteScope| s@),
            path@,
            op@,
        ),
{
    let ghost scopes_map = scopes@.map_values(|s: RouteScope| s@);
    proof {
        assert(scopes_map.skip(0) =~= scopes_map);
    }
    let mut i: usize = 0;
    while i < scopes.len()
        invariant
            i <= scopes@.len(),
            scopes_map == scopes@.map_values(|s: RouteScope| s@),
            scopes_map == old(scopes)@.map_values(|s: RouteScope| s@),
            scope_index(scopes_map, path@) == i + scope_index(scopes_map.skip(i as int), path@),
            forall|j: int| 0 <= j < i ==> scopes_map[j].path != path@,
        decreases scopes@.len() - i,
    {
        proof {
            assert(scopes_map.skip(i as int)[0] == scopes_map[i as int]);
            assert(scopes_map.skip(i as int).skip(1) =~= scopes_map.skip(i + 1));
        }
        if scopes[i].path.eq(path) {
            proof {
                assert(scope_index(scopes_map, path@) == i);
            }
            let ghost opv = op@;
            let mut scope = scopes.remove(i);
            let ghost ops_before = scope.operations@.map_values(|o: BoundOperation| o@);
            scope.operations.push(op);
            let ghost new_scope = scope;
            scopes.insert(i, scope);
            proof {
                assert(new_scope@.operations =~= scopes_map[i as int].operations.push(opv));
                assert(new_scope@ =~= (RouteScopeV {
                    path: scopes_map[i as int].path,
                    operations: scopes_map[i as int].operations.push(opv),
                }));
                assert(scopes@.map_values(|s: RouteScope| s@) =~~= scopes_map.update(
                    i as int,
                    new_scope@,
                ));
                assert(scopes@.map_values(|s: RouteScope| s@) =~~= spec_add_to_scopes(
                    scopes_map,
                    path@,
                    opv,
                ));
            }
            return ;
        }
        i += 1;
    }
    proof {
        assert(scopes_map.skip(i as int).len() == 0);
        assert(scope_index(scopes_map, path@) == scopes_map.len());
    }
    let mut operations: Vec<BoundOperation> = Vec::new();
    operations.push(op);
    scopes.push(RouteScope { path: path.clone(), operations });
    proof {
        assert(scopes@.map_values(|s: RouteScope| s@) =~~= spec_add_to_scopes(
            scopes_map,
            path@,
            op@,
        ));
    }
}

/// The method slot of a path item at `idx`, in the fixed binding order.
fn slot_of<'a>(item: &'a PathItem, idx: usize) -> (r: (HttpMethod, &'a Option<Operation>))
    requires
        idx < 8,
    ensures
        r.0 == method_slots(*item)[idx as int].0,
        *r.1 == method_slots(*item)[idx as int].1,
{
    if idx == 0 {
        (HttpMethod::Get, &item.get)
    } else if idx == 1 {
        (HttpMethod::Put, &item.put)
    } else if idx == 2 {
        (HttpMethod::Post, &item.post)
    } else if idx == 3 {
        (HttpMethod::Delete, &item.delete)
    } else if idx == 4 {
        (HttpMethod::Options, &item.options)
    } else if idx == 5 {
        (HttpMethod::Head, &item.head)
    } else if idx == 6 {
        (HttpMethod::Patch, &item.patch)
    } else {
        (HttpMethod::Trace, &item.trace)
    }
}

/// Binds the declared methods of one path from slot `idx` on, as
/// `spec_bind_slots` names them.
fn bind_slots_from(
    doc: &Document,
    graph: &Components,
    path: &String,
    item: &PathItem,
    idx: usize,
    scopes: &mut Vec<RouteScope>,
) -> (r: Result<(), BindError>)
    requires
        idx <= 8,
    ensures
        match r {
            Ok(()) => spec_bind_slots(
                *doc,
                graph@,
                path@,
                method_slots(*item).skip(idx as int),
                old(scopes)@.map_values(|s: RouteScope| s@),
            ) == Ok::<_, BindErrorV>(final(scopes)@.map_values(|s: RouteScope| s@)),
            Err(e) => spec_bind_slots(
                *doc,
                graph@,
                path@,
                method_slots(*item).skip(idx as int),
                old(scopes)@.map_values(|s: RouteScope| s@),
            ) == Err::<Seq<RouteScopeV>, _>(e@),
        },
    decreases 8 - idx,
{
    if idx >= 8 {
        proof {
            assert(method_slots(*item).skip(idx as int).len() == 0);
        }
        return Ok(());
    }
    proof {
        assert(method_slots(*item).skip(idx as int)[0] == method_slots(*item)[idx as int]);
        assert(method_slots(*item).skip(idx as int).skip(1) =~= method_slots(*item).skip(
            idx + 1,
        ));
    }
    let (method, op_opt) = slot_of(item, idx);
    match op_opt {
        None => bind_slots_from(doc, graph, path, item, idx + 1, scopes),
        Some(op) => {
            let bop = match bind_operation(doc, graph, path, method, op) {
                Err(e) => {
                    return Err(e);
                },
                Ok(b) => b,
            };
            push_to_scopes(scopes, path, bop);
            bind_slots_from(doc, graph, path, item, idx + 1, scopes)
        },
    }
}

/// Binds the document's paths from entry `i` on, as `spec_bind_paths`
/// names them.
fn bind_paths_from(doc: &Document, graph: &Components, i: usize, scopes: &mut Vec<RouteScope>)
    -> (r: Result<(), BindError>)
    requires
        i <= doc.paths@.len(),
    ensures
        match r {
            Ok(()) => spec_bind_paths(
                *doc,
                graph@,
                doc.paths@.skip(i as int),
                old(scopes)@.map_values(|s: RouteScope| s@),
            ) == Ok::<_, BindErrorV>(final(scopes)@.map_values(|s: RouteScope| s@)),
            Err(e) => spec_bind_paths(
                *doc,
                graph@,
                doc.paths@.skip(i as int),
                old(scopes)@.map_values(|s: RouteScope| s@),
            ) == Err::<Seq<RouteScopeV>, _>(e@),
        },
    decreases doc.paths@.len() - i,
{
    if i >= doc.paths.len() {
        proof {
            assert(doc.paths@.skip(i as int).len() == 0);
        }
        return Ok(());
    }
    proof {
        assert(doc.paths@.skip(i as int)[0] == doc.paths@[i as int]);
        assert(doc.paths@.skip(i as int).skip(1) =~= doc.paths@.skip(i + 1));
    }
    match &doc.paths[i].1 {
        RefOr::Reference { .. } => Err(
            BindError::UnresolvedPathItem { path: doc.paths[i].0.clone() },
        ),
        RefOr::Item(item) => {
            match bind_slots_from(doc, graph, &doc.paths[i].0, item, 0, scopes) {
                Err(e) => {
                    proof {
                        assert(method_slots(*item).skip(0) =~= method_slots(*item));
                    }
                    return Err(e);
                },
                Ok(()) => {},
            }
            proof {
                assert(method_slots(*item).skip(0) =~= method_slots(*item));
            }
            bind_paths_from(doc, graph, i + 1, scopes)
        },
    }
}

/// Binds every operation of the document against the built graph, as
/// `spec_bind` names them: the route scopes in first-seen order, or the
/// first binding failure.
pub fn bind(doc: &Document, graph: &Components) -> (r: Result<Vec<RouteScope>, BindError>)
    ensures
        match r {
            Ok(scopes) => spec_bind(*doc, graph@) == Ok::<_, BindErrorV>(
                scopes@.map_values(|s: RouteScope| s@),
            ),
            Err(e) => spec_bind(*doc, graph@) == Err::<Seq<RouteScopeV>, _>(e@),
        },
{
    let mut scopes: Vec<RouteScope> = Vec::new();
    proof {
        assert(doc.paths@.skip(0) =~= doc.paths@);
        assert(scopes@.map_values(|s: RouteScope| s@) =~= Seq::<RouteScopeV>::empty());
    }
    match bind_paths_from(doc, graph, 0, &mut scopes) {
        Err(e) => Err(e),
        Ok(()) => Ok(scopes),
    }
}

/// Whether a method slot carries an operation with this `operationId`.
pub open spec fn slot_matches_id(slot: (HttpMethod, Option<Operation>), id: Seq<char>) -> bool {
    match slot.1 {
        Some(op) => match op.operation_id {
            Some(s) => s@ == id,
            None => false,
        },
        None => false,
    }
}

/// Whether any operation of a path item carries this `operationId`.
pub open spec fn item_has_operation_id(item: PathItem, id: Seq<char>) -> bool {
    exists|k: int|
        0 <= k < method_slots(item).len() && slot_matches_id(#[trigger] method_slots(item)[k], id)
}

/// The first inline path item declaring an operation with this
/// `operationId`.
pub open spec fn spec_find_by_operation_id(
    entries: Seq<(String, RefOr<PathItem>)>,
    id: Seq<char>,
) -> Option<PathItem>
    decreases entries.len(),
{
    if entries.len() == 0 {
        None
    } else {
        match entries[0].1 {
            RefOr::Item(item) => {
                if item_has_operation_id(item, id) {
                    Some(item)
                } else {
                    spec_find_by_operation_id(entries.skip(1), id)
                }
            },
            RefOr::Reference { .. } => spec_find_by_operation_id(entries.skip(1), id),
        }
    }
}

fn item_matches_id(item: &PathItem, id: &String) -> (r: bool)
    ensures
        r == item_has_operation_id(*item, id@),
{
    let mut k: usize = 0;
    while k < 8
        invariant
            k <= 8,
            forall|j: int| 0 <= j < k ==> !slot_matches_id(#[trigger] method_slots(*item)[j], id@),
        decreases 8 - k,
    {
        let (_, op_opt) = slot_of(item, k);
        match op_opt {
            Some(op) => match &op.operation_id {
                Some(s) => {
                    if s.eq(id) {
                        proof {
                            assert(slot_matches_id(method_slots(*item)[k as int], id@));
                        }
                        return true;
                    }
                },
                None => {},
            },
            None => {},
        }
        k += 1;
    }
    false
}

/// Finds the path item declaring an operation with this `operationId`, as
/// `spec_find_by_operation_id` names it.
pub fn find_by_operation_id<'a>(doc: &'a Document, operation_id: &String) -> (r: Option<
    &'a PathItem,
>)
    ensures
        match r {
            Some(item) => spec_find_by_operation_id(doc.paths@, operation_id@) == Some(*item),
            None => spec_find_by_operation_id(doc.paths@, operation_id@) is None,
        },
{
    proof {
        assert(doc.paths@.skip(0) =~= doc.paths@);
    }
    let mut i: usize = 0;
    while i < doc.paths.len()
        invariant
            i <= doc.paths@.len(),
            spec_find_by_operation_id(doc.paths@, operation_id@) == spec_find_by_operation_id(
                doc.paths@.skip(i as int),
                operation_id@,
            ),
        decreases doc.paths@.len() - i,
    {
        proof {
            assert(doc.paths@.skip(i as int)[0] == doc.paths@[i as int]);
            assert(doc.paths@.skip(i as int).skip(1) =~= doc.paths@.skip(i + 1));
        }
        match &doc.paths[i].1 {
            RefOr::Item(item) => {
                if item_matches_id(item, operation_id) {
                    return Some(item);
                }
            },
            RefOr::Reference { .. } => {},
        }
        i += 1;
    }
    proof {
        assert(doc.paths@.skip(i as int).len() == 0);
    }
    None
}

} // verus!
