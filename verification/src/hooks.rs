//! The visitor pipeline: a strictly ordered traversal of the document that
//! lets independent plugins observe items and accumulate their own
//! artifacts.
//!
//! The order is part of the contract: components before paths; within the
//! components, security schemes, then responses, parameters, request
//! bodies, headers and schemas, each in declaration order; within the
//! paths, document order, and within one path the fixed method order.  A
//! pointer that cannot be resolved aborts the run before any artifact is
//! handed out.

use vstd::prelude::*;

use crate::document::{Document, Header, Operation, Parameter, RawSchema, RefOr};
use crate::document::{RequestBody, Response, SecurityScheme};
use crate::emit::EmissionTree;
use crate::generator::{generate, spec_generate, GenerationError, GenerationErrorV};
use crate::printer::tree_of_generated;
use crate::resolver::{resolve_ref_in_section, ComponentKind, RESOLVE_DEPTH_LIMIT};
use crate::resolver::{header_section, parameter_section, request_body_section};
use crate::resolver::{response_section, schema_section, security_scheme_section};

verus! {

/// The HTTP methods, in the order operations are visited within a path.
#[derive(Clone, Copy, PartialEq, Eq, Debug)]
pub enum Method {
    Get,
    Put,
    Post,
    Delete,
    Options,
    Head,
    Patch,
    Trace,
}

/// An observer of the traversal.  Every callback defaults to a no-op, so
/// a plugin implements only what it cares about; plugins own their private
/// accumulators and never share state with each other.
pub trait Plugin: Sized {
    /// First callback, before any component is visited.
    fn pre_components(&mut self, doc: &Document) {
    }

    fn on_security_scheme(&mut self, name: &String, scheme: &SecurityScheme, doc: &Document) {
    }

    fn on_response(&mut self, name: &String, response: &Response, doc: &Document) {
    }

    fn on_parameter(&mut self, name: &String, parameter: &Parameter, doc: &Document) {
    }

    fn on_request_body(&mut self, name: &String, request_body: &RequestBody, doc: &Document) {
    }

    fn on_header(&mut self, name: &String, header: &Header, doc: &Document) {
    }

    fn on_schema(&mut self, name: &String, schema: &RawSchema, doc: &Document) {
    }

    /// After the last component, before the first path.
    fn post_components(&mut self, doc: &Document) {
    }

    fn pre_paths(&mut self, doc: &Document) {
    }

    fn on_operation(&mut self, method: Method, path: &String, operation: &Operation, doc: &Document) {
    }

    fn post_paths(&mut self, doc: &Document) {
    }

    /// Last callback: the named artifacts this plugin wants written.
    fn finish(&mut self) -> Vec<(String, EmissionTree)> {
        Vec::new()
    }
}

/// Whether every component entry of the document resolves within its
/// section.
pub open spec fn sections_resolve(doc: Document) -> bool {
    &&& forall|i: int|
        0 <= i < security_scheme_section(doc).len() ==> resolve_ref_in_section(
            security_scheme_section(doc),
            ComponentKind::SecurityScheme,
            #[trigger] security_scheme_section(doc)[i].1,
            RESOLVE_DEPTH_LIMIT as nat,
        ) is Ok
    &&& forall|i: int|
        0 <= i < response_section(doc).len() ==> resolve_ref_in_section(
            response_section(doc),
            ComponentKind::Response,
            #[trigger] response_section(doc)[i].1,
            RESOLVE_DEPTH_LIMIT as nat,
        ) is Ok
    &&& forall|i: int|
        0 <= i < parameter_section(doc).len() ==> resolve_ref_in_section(
            parameter_section(doc),
            ComponentKind::Parameter,
            #[trigger] parameter_section(doc)[i].1,
            RESOLVE_DEPTH_LIMIT as nat,
        ) is Ok
    &&& forall|i: int|
        0 <= i < request_body_section(doc).len() ==> resolve_ref_in_section(
            request_body_section(doc),
            ComponentKind::RequestBody,
            #[trigger] request_body_section(doc)[i].1,
            RESOLVE_DEPTH_LIMIT as nat,
        ) is Ok
    &&& forall|i: int|
        0 <= i < header_section(doc).len() ==> resolve_ref_in_section(
            header_section(doc),
            ComponentKind::Header,
            #[trigger] header_section(doc)[i].1,
            RESOLVE_DEPTH_LIMIT as nat,
        ) is Ok
    &&& forall|i: int|
        0 <= i < schema_section(doc).len() ==> resolve_ref_in_section(
            schema_section(doc),
            ComponentKind::Schema,
            #[trigger] schema_section(doc)[i].1,
            RESOLVE_DEPTH_LIMIT as nat,
        ) is Ok
}

/// Whether every path item is given inline; the traversal does not follow
/// path pointers.
pub open spec fn paths_are_inline(doc: Document) -> bool {
    forall|i: int| 0 <= i < doc.paths@.len() ==> (#[trigger] doc.paths@[i].1) is Item
}

/// Whether the traversal can reach every item of the document.
pub open spec fn document_visitable(doc: Document) -> bool {
    sections_resolve(doc) && paths_are_inline(doc)
}

/// Drives one plugin over the whole document in the fixed traversal
/// order; succeeds exactly when every pointer along the way resolves, and
/// aborts before the paths are visited when a component does not.
pub fn visit_document<P: Plugin>(doc: &Document, plugin: &mut P) -> (r: Result<
    (),
    GenerationError,
>)
    ensures
        r is Ok <==> document_visitable(*doc),
        r matches Err(e) ==> e@ matches GenerationErrorV::UnresolvedComponent { .. },
{
    plugin.pre_components(doc);
    match &doc.components {
        None => {},
        Some(sections) => {
            let mut i: usize = 0;
            while i < sections.security_schemes.len()
                invariant
                    i <= sections.security_schemes@.len(),
                    doc.components == Some(*sections),
                    forall|j: int|
                        0 <= j < i ==> resolve_ref_in_section(
                            security_scheme_section(*doc),
                            ComponentKind::SecurityScheme,
                            #[trigger] security_scheme_section(*doc)[j].1,
                            RESOLVE_DEPTH_LIMIT as nat,
                        ) is Ok,
                decreases sections.security_schemes@.len() - i,
            {
                let entry_name = &sections.security_schemes[i].0;
                let item: &SecurityScheme = match &sections.security_schemes[i].1 {
                    RefOr::Item(v) => v,
                    RefOr::Reference { reference } => {
                        match crate::resolver::resolve_security_scheme(doc, reference.as_str()) {
                            Ok(v) => v,
                            Err(_) => {
                                proof {
                                    assert(!(resolve_ref_in_section(
                                        security_scheme_section(*doc),
                                        ComponentKind::SecurityScheme,
                                        security_scheme_section(*doc)[i as int].1,
                                        RESOLVE_DEPTH_LIMIT as nat,
                                    ) is Ok));
                                }
                                return Err(
                                    GenerationError::UnresolvedComponent {
                                        name: entry_name.clone(),
                                    },
                                );
                            },
                        }
                    },
                };
                plugin.on_security_scheme(entry_name, item, doc);
                i += 1;
            }
            let mut i: usize = 0;
            while i < sections.responses.len()
                invariant
                    i <= sections.responses@.len(),
                    doc.components == Some(*sections),
                    forall|j: int|
                        0 <= j < i ==> resolve_ref_in_section(
                            response_section(*doc),
                            ComponentKind::Response,
                            #[trigger] response_section(*doc)[j].1,
                            RESOLVE_DEPTH_LIMIT as nat,
                        ) is Ok,
                decreases sections.responses@.len() - i,
            {
                let entry_name = &sections.responses[i].0;
                let item: &Response = match &sections.responses[i].1 {
                    RefOr::Item(v) => v,
                    RefOr::Reference { reference } => {
                        match crate::resolver::resolve_response(doc, reference.as_str()) {
                            Ok(v) => v,
                            Err(_) => {
                                proof {
                                    assert(!(resolve_ref_in_section(
                                        response_section(*doc),
                                        ComponentKind::Response,
                                        response_section(*doc)[i as int].1,
                                        RESOLVE_DEPTH_LIMIT as nat,
                                    ) is Ok));
                                }
                                return Err(
                                    GenerationError::UnresolvedComponent {
                                        name: entry_name.clone(),
                                    },
                                );
                            },
                        }
                    },
                };
                plugin.on_response(entry_name, item, doc);
                i += 1;
            }
            let mut i: usize = 0;
            while i < sections.parameters.len()
                invariant
                    i <= sections.parameters@.len(),
                    doc.components == Some(*sections),
                    forall|j: int|
                        0 <= j < i ==> resolve_ref_in_section(
                            parameter_section(*doc),
                            ComponentKind::Parameter,
                            #[trigger] parameter_section(*doc)[j].1,
                            RESOLVE_DEPTH_LIMIT as nat,
                        ) is Ok,
                decreases sections.parameters@.len() - i,
            {
                let entry_name = &sections.parameters[i].0;
                let item: &Parameter = match &sections.parameters[i].1 {
                    RefOr::Item(v) => v,
                    RefOr::Reference { reference } => {
                        match crate::resolver::resolve_parameter(doc, reference.as_str()) {
                            Ok(v) => v,
                            Err(_) => {
                                proof {
                                    assert(!(resolve_ref_in_section(
                                        parameter_section(*doc),
                                        ComponentKind::Parameter,
                                        parameter_section(*doc)[i as int].1,
                                        RESOLVE_DEPTH_LIMIT as nat,
                                    ) is Ok));
                                }
                                return Err(
                                    GenerationError::UnresolvedComponent {
                                        name: entry_name.clone(),
                                    },
                                );
                            },
                        }
                    },
                };
                plugin.on_parameter(entry_name, item, doc);
                i += 1;
            }
            let mut i: usize = 0;
            while i < sections.request_bodies.len()
                invariant
                    i <= sections.request_bodies@.len(),
                    doc.components == Some(*sections),
                    forall|j: int|
                        0 <= j < i ==> resolve_ref_in_section(
                            request_body_section(*doc),
                            ComponentKind::RequestBody,
                            #[trigger] request_body_section(*doc)[j].1,
                            RESOLVE_DEPTH_LIMIT as nat,
                        ) is Ok,
                decreases sections.request_bodies@.len() - i,
            {
                let entry_name = &sections.request_bodies[i].0;
                let item: &RequestBody = match &sections.request_bodies[i].1 {
                    RefOr::Item(v) => v,
                    RefOr::Reference { reference } => {
                        match crate::resolver::resolve_request_body(doc, reference.as_str()) {
                            Ok(v) => v,
                            Err(_) => {
                                proof {
                                    assert(!(resolve_ref_in_section(
                                        request_body_section(*doc),
                                        ComponentKind::RequestBody,
                                        request_body_section(*doc)[i as int].1,
                                        RESOLVE_DEPTH_LIMIT as nat,
                                    ) is Ok));
                                }
                                return Err(
                                    GenerationError::UnresolvedComponent {
                                        name: entry_name.clone(),
                                    },
                                );
                            },
                        }
                    },
                };
                plugin.on_request_body(entry_name, item, doc);
                i += 1;
            }
            let mut i: usize = 0;
            while i < sections.headers.len()
                invariant
                    i <= sections.headers@.len(),
                    doc.components == Some(*sections),
                    forall|j: int|
                        0 <= j < i ==> resolve_ref_in_section(
                            header_section(*doc),
                            ComponentKind::Header,
                            #[trigger] header_section(*doc)[j].1,
                            RESOLVE_DEPTH_LIMIT as nat,
                        ) is Ok,
                decreases sections.headers@.len() - i,
            {
                let entry_name = &sections.headers[i].0;
                let item: &Header = match &sections.headers[i].1 {
                    RefOr::Item(v) => v,
                    RefOr::Reference { reference } => {
                        match crate::resolver::resolve_header(doc, reference.as_str()) {
                            Ok(v) => v,
                            Err(_) => {
                                proof {
                                    assert(!(resolve_ref_in_section(
                                        header_section(*doc),
                                        ComponentKind::Header,
                                        header_section(*doc)[i as int].1,
                                        RESOLVE_DEPTH_LIMIT as nat,
                                    ) is Ok));
                                }
                                return Err(
                                    GenerationError::UnresolvedComponent {
                                        name: entry_name.clone(),
                                    },
                                );
                            },
                        }
                    },
                };
                plugin.on_header(entry_name, item, doc);
                i += 1;
            }
            let mut i: usize = 0;
            while i < sections.schemas.len()
                invariant
                    i <= sections.schemas@.len(),
                    doc.components == Some(*sections),
                    forall|j: int|
                        0 <= j < i ==> resolve_ref_in_section(
                            schema_section(*doc),
                            ComponentKind::Schema,
                            #[trigger] schema_section(*doc)[j].1,
                            RESOLVE_DEPTH_LIMIT as nat,
                        ) is Ok,
                decreases sections.schemas@.len() - i,
            {
                let entry_name = &sections.schemas[i].0;
                let item: &RawSchema = match &sections.schemas[i].1 {
                    RefOr::Item(v) => v,
                    RefOr::Reference { reference } => {
                        match crate::resolver::resolve_schema(doc, reference.as_str()) {
                            Ok(v) => v,
                            Err(_) => {
                                proof {
                                    assert(!(resolve_ref_in_section(
                                        schema_section(*doc),
                                        ComponentKind::Schema,
                                        schema_section(*doc)[i as int].1,
                                        RESOLVE_DEPTH_LIMIT as nat,
                                    ) is Ok));
                                }
                                return Err(
                                    GenerationError::UnresolvedComponent {
                                        name: entry_name.clone(),
                                    },
                                );
                            },
                        }
                    },
                };
                plugin.on_schema(entry_name, item, doc);
                i += 1;
            }
        },
    }
    plugin.post_components(doc);
    plugin.pre_paths(doc);
    let mut i: usize = 0;
    while i < doc.paths.len()
        invariant
            i <= doc.paths@.len(),
            sections_resolve(*doc),
            forall|j: int| 0 <= j < i ==> (#[trigger] doc.paths@[j].1) is Item,
        decreases doc.paths@.len() - i,
    {
        let path_name = &doc.paths[i].0;
        let item = match &doc.paths[i].1 {
            RefOr::Item(v) => v,
            RefOr::Reference { .. } => {
                return Err(GenerationError::UnresolvedComponent { name: path_name.clone() });
            },
        };
        match &item.get {
            Some(op) => plugin.on_operation(Method::Get, path_name, op, doc),
            None => {},
        }
        match &item.put {
            Some(op) => plugin.on_operation(Method::Put, path_name, op, doc),
            None => {},
        }
        match &item.post {
            Some(op) => plugin.on_operation(Method::Post, path_name, op, doc),
            None => {},
        }
        match &item.delete {
            Some(op) => plugin.on_operation(Method::Delete, path_name, op, doc),
            None => {},
        }
        match &item.options {
            Some(op) => plugin.on_operation(Method::Options, path_name, op, doc),
            None => {},
        }
        match &item.head {
            Some(op) => plugin.on_operation(Method::Head, path_name, op, doc),
            None => {},
        }
        match &item.patch {
            Some(op) => plugin.on_operation(Method::Patch, path_name, op, doc),
            None => {},
        }
        match &item.trace {
            Some(op) => plugin.on_operation(Method::Trace, path_name, op, doc),
            None => {},
        }
        i += 1;
    }
    plugin.post_paths(doc);
    Ok(())
}

/// Runs the traversal and the generation pipeline together: the primary
/// emission tree, plus the named artifacts the plugin registered at
/// `finish`.  Partial output is never handed out: the artifacts appear
/// only when the whole run succeeded.
pub fn generate_with_hooks<P: Plugin>(doc: &Document, plugin: &mut P) -> (r: Result<
    (EmissionTree, Vec<(String, EmissionTree)>),
    GenerationError,
>)
    ensures
        (r is Ok) == (document_visitable(*doc) && spec_generate(*doc) is Ok),
        r matches Ok((tree, _)) ==> tree@ == tree_of_generated(spec_generate(*doc)->Ok_0.0),
{
    match visit_document(doc, plugin) {
        Err(e) => {
            return Err(e);
        },
        Ok(()) => {},
    }
    match generate(doc) {
        Err(e) => Err(e),
        Ok((module, _warnings)) => {
            let tree = module.print();
            let artifacts = plugin.finish();
            Ok((tree, artifacts))
        },
    }
}

} // verus!
