//! Resolution of `#/components/...` pointers against the root document.
//!
//! A pointer names a component kind and a component name; the target may
//! itself be a pointer (an alias chain), which is followed with an explicit
//! depth budget so that a cyclic document yields `CycleDetected` instead of
//! running forever.  Resolution is a pure function of the pointer and the
//! document.

use vstd::prelude::*;

use crate::document::{lookup_entry, Document, RawSchema, RefOr};
use crate::document::{Header, Parameter, RequestBody, Response, SecurityScheme};

verus! {

/// How many pointer hops an alias chain may take before it is declared
/// cyclic.
pub const RESOLVE_DEPTH_LIMIT: u32 = 32;

/// The component kinds a pointer can name, one per document section.
#[derive(Clone, Copy, Debug)]
pub enum ComponentKind {
    SecurityScheme,
    Response,
    Parameter,
    RequestBody,
    Header,
    Schema,
}

/// Why a pointer failed to resolve.
#[derive(Debug)]
pub enum ResolutionError {
    /// The pointer does not start with the namespace of the kind being
    /// resolved.
    WrongNamespace,
    /// The namespace matched but no component of this name is declared.
    NotFound { kind: ComponentKind, name: String },
    /// The alias chain exceeded the depth budget.
    CycleDetected,
}

/// Ghost value of a `ResolutionError`.
pub enum ResolutionIssue {
    WrongNamespace,
    NotFound { kind: ComponentKind, name: Seq<char> },
    CycleDetected,
}

impl View for ResolutionError {
    type V = ResolutionIssue;

    open spec fn view(&self) -> ResolutionIssue {
        match self {
            ResolutionError::WrongNamespace => ResolutionIssue::WrongNamespace,
            ResolutionError::NotFound { kind, name } => ResolutionIssue::NotFound {
                kind: *kind,
                name: name@,
            },
            ResolutionError::CycleDetected => ResolutionIssue::CycleDetected,
        }
    }
}

/// The pointer prefix that names each component kind.
pub open spec fn kind_prefix(kind: ComponentKind) -> Seq<char> {
    match kind {
        ComponentKind::SecurityScheme => "#/components/securitySchemes/"@,
        ComponentKind::Response => "#/components/responses/"@,
        ComponentKind::Parameter => "#/components/parameters/"@,
        ComponentKind::RequestBody => "#/components/requestBodies/"@,
        ComponentKind::Header => "#/components/headers/"@,
        ComponentKind::Schema => "#/components/schemas/"@,
    }
}

/// The component name of a pointer, when the pointer lies in the namespace
/// of `kind`.
pub open spec fn parse_component_name(link: Seq<char>, kind: ComponentKind) -> Option<Seq<char>> {
    let p = kind_prefix(kind);
    if link.len() >= p.len() && link.take(p.len() as int) == p {
        Some(link.skip(p.len() as int))
    } else {
        None
    }
}

/// Resolution of a pointer within one document section, following alias
/// chains while the depth budget lasts.
pub open spec fn resolve_in_section<T>(
    entries: Seq<(String, RefOr<T>)>,
    kind: ComponentKind,
    link: Seq<char>,
    depth: nat,
) -> Result<T, ResolutionIssue>
    decreases depth,
{
    match parse_component_name(link, kind) {
        None => Err(ResolutionIssue::WrongNamespace),
        Some(name) => match lookup_entry(entries, name) {
            None => Err(ResolutionIssue::NotFound { kind, name }),
            Some(RefOr::Item(v)) => Ok(v),
            Some(RefOr::Reference { reference }) => {
                if depth == 0 {
                    Err(ResolutionIssue::CycleDetected)
                } else {
                    resolve_in_section(entries, kind, reference@, (depth - 1) as nat)
                }
            },
        },
    }
}

/// Resolution of an inline-or-pointer value: an inline item is itself, a
/// pointer goes through `resolve_in_section`.
pub open spec fn resolve_ref_in_section<T>(
    entries: Seq<(String, RefOr<T>)>,
    kind: ComponentKind,
    source: RefOr<T>,
    depth: nat,
) -> Result<T, ResolutionIssue> {
    match source {
        RefOr::Item(v) => Ok(v),
        RefOr::Reference { reference } => resolve_in_section(entries, kind, reference@, depth),
    }
}

/// A successful resolution does not depend on how much depth budget was
/// left over: more budget gives the same item.
pub proof fn lemma_resolve_depth_mono<T>(
    entries: Seq<(String, RefOr<T>)>,
    kind: ComponentKind,
    link: Seq<char>,
    d1: nat,
    d2: nat,
)
    requires
        d1 <= d2,
        resolve_in_section(entries, kind, link, d1) is Ok,
    ensures
        resolve_in_section(entries, kind, link, d2) == resolve_in_section(entries, kind, link, d1),
    decreases d1,
{
    match parse_component_name(link, kind) {
        None => {},
        Some(name) => match lookup_entry(entries, name) {
            None => {},
            Some(RefOr::Item(v)) => {},
            Some(RefOr::Reference { reference }) => {
                lemma_resolve_depth_mono(entries, kind, reference@, (d1 - 1) as nat, (d2 - 1) as nat);
            },
        },
    }
}

/// Reference round-trip: when an alias component resolves at all, it
/// resolves to exactly what its target pointer resolves to, with the same
/// depth budget.
pub proof fn lemma_reference_round_trip<T>(
    entries: Seq<(String, RefOr<T>)>,
    kind: ComponentKind,
    alias_link: Seq<char>,
    target_link: Seq<char>,
    depth: nat,
)
    requires
        parse_component_name(alias_link, kind) is Some,
        lookup_entry(entries, parse_component_name(alias_link, kind)->0) matches Some(
            RefOr::Reference { reference },
        ) && reference@ == target_link,
        resolve_in_section(entries, kind, alias_link, depth) is Ok,
    ensures
        resolve_in_section(entries, kind, alias_link, depth) == resolve_in_section(
            entries,
            kind,
            target_link,
            depth,
        ),
{
    if depth > 0 {
        lemma_resolve_depth_mono(entries, kind, target_link, (depth - 1) as nat, depth);
    }
}

/// A component whose entry points back at itself never resolves: it is
/// reported as a cycle whatever the depth budget.
pub proof fn lemma_self_cycle<T>(
    entries: Seq<(String, RefOr<T>)>,
    kind: ComponentKind,
    link: Seq<char>,
    depth: nat,
)
    requires
        parse_component_name(link, kind) is Some,
        lookup_entry(entries, parse_component_name(link, kind)->0) matches Some(
            RefOr::Reference { reference },
        ) && reference@ == link,
    ensures
        resolve_in_section(entries, kind, link, depth) == Err::<T, _>(
            ResolutionIssue::CycleDetected,
        ),
    decreases depth,
{
    if depth > 0 {
        lemma_self_cycle(entries, kind, link, (depth - 1) as nat);
    }
}

/// A pair of components each pointing at the other never resolves either
/// way: both are reported as cycles whatever the depth budget.
pub proof fn lemma_mutual_cycle<T>(
    entries: Seq<(String, RefOr<T>)>,
    kind: ComponentKind,
    link_a: Seq<char>,
    link_b: Seq<char>,
    depth: nat,
)
    requires
        parse_component_name(link_a, kind) is Some,
        lookup_entry(entries, parse_component_name(link_a, kind)->0) matches Some(
            RefOr::Reference { reference },
        ) && reference@ == link_b,
        parse_component_name(link_b, kind) is Some,
        lookup_entry(entries, parse_component_name(link_b, kind)->0) matches Some(
            RefOr::Reference { reference },
        ) && reference@ == link_a,
    ensures
        resolve_in_section(entries, kind, link_a, depth) == Err::<T, _>(
            ResolutionIssue::CycleDetected,
        ),
        resolve_in_section(entries, kind, link_b, depth) == Err::<T, _>(
            ResolutionIssue::CycleDetected,
        ),
    decreases depth,
{
    if depth > 0 {
        lemma_mutual_cycle(entries, kind, link_b, link_a, (depth - 1) as nat);
    }
}

/// Whether `link` starts with `prefix`; on success hands back what follows.
fn strip_prefix_chars(link: &str, prefix: &str) -> (r: Option<String>)
    ensures
        match r {
            Some(rest) => {
                &&& link@.len() >= prefix@.len()
                &&& link@.take(prefix@.len() as int) == prefix@
                &&& rest@ == link@.skip(prefix@.len() as int)
            },
            None => !(link@.len() >= prefix@.len() && link@.take(prefix@.len() as int)
                == prefix@),
        },
{
    let link_len = link.unicode_len();
    let prefix_len = prefix.unicode_len();
    if link_len < prefix_len {
        return None;
    }
    let mut i: usize = 0;
    while i < prefix_len
        invariant
            prefix_len == prefix@.len(),
            link_len == link@.len(),
            prefix_len <= link_len,
            i <= prefix_len,
            forall|j: int| 0 <= j < i ==> link@[j] == prefix@[j],
        decreases prefix_len - i,
    {
        if link.get_char(i) != prefix.get_char(i) {
            proof {
                assert(link@.take(prefix@.len() as int)[i as int] == link@[i as int]);
            }
            return None;
        }
        i += 1;
    }
    let rest = link.substring_char(prefix_len, link_len);
    proof {
        assert(link@.take(prefix@.len() as int) =~= prefix@);
        assert(link@.subrange(prefix@.len() as int, link@.len() as int) =~= link@.skip(
            prefix@.len() as int,
        ));
    }
    Some(rest.to_owned())
}

/// The exec prefix literal of each kind; its view is `kind_prefix`.
fn kind_prefix_str(kind: ComponentKind) -> (r: &'static str)
    ensures
        r@ == kind_prefix(kind),
{
    match kind {
        ComponentKind::SecurityScheme => "#/components/securitySchemes/",
        ComponentKind::Response => "#/components/responses/",
        ComponentKind::Parameter => "#/components/parameters/",
        ComponentKind::RequestBody => "#/components/requestBodies/",
        ComponentKind::Header => "#/components/headers/",
        ComponentKind::Schema => "#/components/schemas/",
    }
}

/// The component name of a pointer in the namespace of `kind`, as
/// `parse_component_name` names it.
pub fn component_name_of(link: &str, kind: ComponentKind) -> (r: Option<String>)
    ensures
        match r {
            Some(name) => parse_component_name(link@, kind) == Some(name@),
            None => parse_component_name(link@, kind) is None,
        },
{
    let prefix = kind_prefix_str(kind);
    strip_prefix_chars(link, prefix)
}

/// Resolution within one section, the exec counterpart of
/// `resolve_in_section`.
fn resolve_section<'a, T>(
    entries: &'a Vec<(String, RefOr<T>)>,
    kind: ComponentKind,
    link: &str,
    depth: u32,
) -> (r: Result<&'a T, ResolutionError>)
    ensures
        match r {
            Ok(v) => resolve_in_section(entries@, kind, link@, depth as nat) == Ok::<T, ResolutionIssue>(*v),
            Err(e) => resolve_in_section(entries@, kind, link@, depth as nat) == Err::<T, ResolutionIssue>(e@),
        },
    decreases depth,
{
    let name = match component_name_of(link, kind) {
        Some(name) => name,
        None => {
            return Err(ResolutionError::WrongNamespace);
        },
    };
    match crate::document::find_entry_index(entries, &name) {
        None => Err(ResolutionError::NotFound { kind, name }),
        Some(i) => match &entries[i].1 {
            RefOr::Item(v) => Ok(v),
            RefOr::Reference { reference } => {
                if depth == 0 {
                    Err(ResolutionError::CycleDetected)
                } else {
                    resolve_section(entries, kind, reference.as_str(), depth - 1)
                }
            },
        },
    }
}

/// What resolution of a schema pointer against the whole document means:
/// the schemas section when one is declared, no section otherwise.
pub open spec fn schema_section(doc: Document) -> Seq<(String, RefOr<RawSchema>)> {
    match doc.components {
        Some(sections) => sections.schemas@,
        None => Seq::empty(),
    }
}

pub open spec fn response_section(doc: Document) -> Seq<(String, RefOr<Response>)> {
    match doc.components {
        Some(sections) => sections.responses@,
        None => Seq::empty(),
    }
}

pub open spec fn parameter_section(doc: Document) -> Seq<(String, RefOr<Parameter>)> {
    match doc.components {
        Some(sections) => sections.parameters@,
        None => Seq::empty(),
    }
}

pub open spec fn request_body_section(doc: Document) -> Seq<(String, RefOr<RequestBody>)> {
    match doc.components {
        Some(sections) => sections.request_bodies@,
        None => Seq::empty(),
    }
}

pub open spec fn header_section(doc: Document) -> Seq<(String, RefOr<Header>)> {
    match doc.components {
        Some(sections) => sections.headers@,
        None => Seq::empty(),
    }
}

pub open spec fn security_scheme_section(doc: Document) -> Seq<(String, RefOr<SecurityScheme>)> {
    match doc.components {
        Some(sections) => sections.security_schemes@,
        None => Seq::empty(),
    }
}

/// Resolves a schema pointer with the fixed depth budget.
pub fn resolve_schema<'a>(doc: &'a Document, link: &str) -> (r: Result<
    &'a RawSchema,
    ResolutionError,
>)
    ensures
        match r {
            Ok(v) => resolve_in_section(
                schema_section(*doc),
                ComponentKind::Schema,
                link@,
                RESOLVE_DEPTH_LIMIT as nat,
            ) == Ok::<RawSchema, ResolutionIssue>(*v),
            Err(e) => resolve_in_section(
                schema_section(*doc),
                ComponentKind::Schema,
                link@,
                RESOLVE_DEPTH_LIMIT as nat,
            ) == Err::<RawSchema, ResolutionIssue>(e@),
        },
{
    match &doc.components {
        Some(sections) => resolve_section(
            &sections.schemas,
            ComponentKind::Schema,
            link,
            RESOLVE_DEPTH_LIMIT,
        ),
        None => match component_name_of(link, ComponentKind::Schema) {
            Some(name) => Err(ResolutionError::NotFound { kind: ComponentKind::Schema, name }),
            None => Err(ResolutionError::WrongNamespace),
        },
    }
}

/// Resolves a response pointer with the fixed depth budget.
pub fn resolve_response<'a>(doc: &'a Document, link: &str) -> (r: Result<
    &'a Response,
    ResolutionError,
>)
    ensures
        match r {
            Ok(v) => resolve_in_section(
                response_section(*doc),
                ComponentKind::Response,
                link@,
                RESOLVE_DEPTH_LIMIT as nat,
            ) == Ok::<Response, ResolutionIssue>(*v),
            Err(e) => resolve_in_section(
                response_section(*doc),
                ComponentKind::Response,
                link@,
                RESOLVE_DEPTH_LIMIT as nat,
            ) == Err::<Response, ResolutionIssue>(e@),
        },
{
    match &doc.components {
        Some(sections) => resolve_section(
            &sections.responses,
            ComponentKind::Response,
            link,
            RESOLVE_DEPTH_LIMIT,
        ),
        None => match component_name_of(link, ComponentKind::Response) {
            Some(name) => Err(ResolutionError::NotFound { kind: ComponentKind::Response, name }),
            None => Err(ResolutionError::WrongNamespace),
        },
    }
}

/// Resolves a parameter pointer with the fixed depth budget.
pub fn resolve_parameter<'a>(doc: &'a Document, link: &str) -> (r: Result<
    &'a Parameter,
    ResolutionError,
>)
    ensures
        match r {
            Ok(v) => resolve_in_section(
                parameter_section(*doc),
                ComponentKind::Parameter,
                link@,
                RESOLVE_DEPTH_LIMIT as nat,
            ) == Ok::<Parameter, ResolutionIssue>(*v),
            Err(e) => resolve_in_section(
                parameter_section(*doc),
                ComponentKind::Parameter,
                link@,
                RESOLVE_DEPTH_LIMIT as nat,
            ) == Err::<Parameter, ResolutionIssue>(e@),
        },
{
    match &doc.components {
        Some(sections) => resolve_section(
            &sections.parameters,
            ComponentKind::Parameter,
            link,
            RESOLVE_DEPTH_LIMIT,
        ),
        None => match component_name_of(link, ComponentKind::Parameter) {
            Some(name) => Err(ResolutionError::NotFound { kind: ComponentKind::Parameter, name }),
            None => Err(ResolutionError::WrongNamespace),
        },
    }
}

/// Resolves a request-body pointer with the fixed depth budget.
pub fn resolve_request_body<'a>(doc: &'a Document, link: &str) -> (r: Result<
    &'a RequestBody,
    ResolutionError,
>)
    ensures
        match r {
            Ok(v) => resolve_in_section(
                request_body_section(*doc),
                ComponentKind::RequestBody,
                link@,
                RESOLVE_DEPTH_LIMIT as nat,
            ) == Ok::<RequestBody, ResolutionIssue>(*v),
            Err(e) => resolve_in_section(
                request_body_section(*doc),
                ComponentKind::RequestBody,
                link@,
                RESOLVE_DEPTH_LIMIT as nat,
            ) == Err::<RequestBody, ResolutionIssue>(e@),
        },
{
    match &doc.components {
        Some(sections) => resolve_section(
            &sections.request_bodies,
            ComponentKind::RequestBody,
            link,
            RESOLVE_DEPTH_LIMIT,
        ),
        None => match component_name_of(link, ComponentKind::RequestBody) {
            Some(name) => Err(
                ResolutionError::NotFound { kind: ComponentKind::RequestBody, name },
            ),
            None => Err(ResolutionError::WrongNamespace),
        },
    }
}

/// Resolves a header pointer with the fixed depth budget.
pub fn resolve_header<'a>(doc: &'a Document, link: &str) -> (r: Result<&'a Header, ResolutionError>)
    ensures
        match r {
            Ok(v) => resolve_in_section(
                header_section(*doc),
                ComponentKind::Header,
                link@,
                RESOLVE_DEPTH_LIMIT as nat,
            ) == Ok::<Header, ResolutionIssue>(*v),
            Err(e) => resolve_in_section(
                header_section(*doc),
                ComponentKind::Header,
                link@,
                RESOLVE_DEPTH_LIMIT as nat,
            ) == Err::<Header, ResolutionIssue>(e@),
        },
{
    match &doc.components {
        Some(sections) => resolve_section(
            &sections.headers,
            ComponentKind::Header,
            link,
            RESOLVE_DEPTH_LIMIT,
        ),
        None => match component_name_of(link, ComponentKind::Header) {
            Some(name) => Err(ResolutionError::NotFound { kind: ComponentKind::Header, name }),
            None => Err(ResolutionError::WrongNamespace),
        },
    }
}

/// Resolves a security-scheme pointer with the fixed depth budget.
pub fn resolve_security_scheme<'a>(doc: &'a Document, link: &str) -> (r: Result<
    &'a SecurityScheme,
    ResolutionError,
>)
    ensures
        match r {
            Ok(v) => resolve_in_section(
                security_scheme_section(*doc),
                ComponentKind::SecurityScheme,
                link@,
                RESOLVE_DEPTH_LIMIT as nat,
            ) == Ok::<SecurityScheme, ResolutionIssue>(*v),
            Err(e) => resolve_in_section(
                security_scheme_section(*doc),
                ComponentKind::SecurityScheme,
                link@,
                RESOLVE_DEPTH_LIMIT as nat,
            ) == Err::<SecurityScheme, ResolutionIssue>(e@),
        },
{
    match &doc.components {
        Some(sections) => resolve_section(
            &sections.security_schemes,
            ComponentKind::SecurityScheme,
            link,
            RESOLVE_DEPTH_LIMIT,
        ),
        None => match component_name_of(link, ComponentKind::SecurityScheme) {
            Some(name) => Err(
                ResolutionError::NotFound { kind: ComponentKind::SecurityScheme, name },
            ),
            None => Err(ResolutionError::WrongNamespace),
        },
    }
}

/// Where a pointer string points, by shape.
#[derive(Debug)]
pub enum Reference {
    /// A pointer into a component section of the same document.
    Relative(ReferenceRelative),
    /// A path to a file on disk.
    File(String),
    /// A URL into the web; never followed.
    Remote,
}

/// A pointer into one of the component sections of the same document.
#[derive(Debug)]
pub enum ReferenceRelative {
    Response { name: String },
    Parameter { name: String },
    RequestBody { name: String },
    Schema { name: String },
    Header { name: String },
    SecurityScheme { name: String },
}

/// Whether `prefix` starts `link`.
pub open spec fn has_prefix(link: Seq<char>, prefix: Seq<char>) -> bool {
    link.len() >= prefix.len() && link.take(prefix.len() as int) == prefix
}

/// Ghost value of a classified pointer.
pub enum ReferenceV {
    Relative { kind: ComponentKind, name: Seq<char> },
    File(Seq<char>),
    Remote,
}

impl View for Reference {
    type V = ReferenceV;

    open spec fn view(&self) -> ReferenceV {
        match self {
            Reference::Relative(rel) => match rel {
                ReferenceRelative::Response { name } => ReferenceV::Relative {
                    kind: ComponentKind::Response,
                    name: name@,
                },
                ReferenceRelative::Parameter { name } => ReferenceV::Relative {
                    kind: ComponentKind::Parameter,
                    name: name@,
                },
                ReferenceRelative::RequestBody { name } => ReferenceV::Relative {
                    kind: ComponentKind::RequestBody,
                    name: name@,
                },
                ReferenceRelative::Schema { name } => ReferenceV::Relative {
                    kind: ComponentKind::Schema,
                    name: name@,
                },
                ReferenceRelative::Header { name } => ReferenceV::Relative {
                    kind: ComponentKind::Header,
                    name: name@,
                },
                ReferenceRelative::SecurityScheme { name } => ReferenceV::Relative {
                    kind: ComponentKind::SecurityScheme,
                    name: name@,
                },
            },
            Reference::File(path) => ReferenceV::File(path@),
            Reference::Remote => ReferenceV::Remote,
        }
    }
}

/// Where a pointer string points: one of the component namespaces, the
/// web, a file on disk, or (`None`) an in-document pointer outside the
/// component namespaces.
pub open spec fn spec_classify_reference(link: Seq<char>) -> Option<ReferenceV> {
    if parse_component_name(link, ComponentKind::Response) is Some {
        Some(ReferenceV::Relative {
            kind: ComponentKind::Response,
            name: parse_component_name(link, ComponentKind::Response)->0,
        })
    } else if parse_component_name(link, ComponentKind::Parameter) is Some {
        Some(ReferenceV::Relative {
            kind: ComponentKind::Parameter,
            name: parse_component_name(link, ComponentKind::Parameter)->0,
        })
    } else if parse_component_name(link, ComponentKind::RequestBody) is Some {
        Some(ReferenceV::Relative {
            kind: ComponentKind::RequestBody,
            name: parse_component_name(link, ComponentKind::RequestBody)->0,
        })
    } else if parse_component_name(link, ComponentKind::Schema) is Some {
        Some(ReferenceV::Relative {
            kind: ComponentKind::Schema,
            name: parse_component_name(link, ComponentKind::Schema)->0,
        })
    } else if parse_component_name(link, ComponentKind::Header) is Some {
        Some(ReferenceV::Relative {
            kind: ComponentKind::Header,
            name: parse_component_name(link, ComponentKind::Header)->0,
        })
    } else if parse_component_name(link, ComponentKind::SecurityScheme) is Some {
        Some(ReferenceV::Relative {
            kind: ComponentKind::SecurityScheme,
            name: parse_component_name(link, ComponentKind::SecurityScheme)->0,
        })
    } else if has_prefix(link, "#"@) {
        None
    } else if has_prefix(link, "http://"@) || has_prefix(link, "https://"@) {
        Some(ReferenceV::Remote)
    } else {
        Some(ReferenceV::File(link))
    }
}

fn check_prefix(link: &str, prefix: &str) -> (r: bool)
    ensures
        r == has_prefix(link@, prefix@),
{
    match strip_prefix_chars(link, prefix) {
        Some(_) => true,
        None => false,
    }
}

/// Classifies a pointer string, as `spec_classify_reference` names it.
pub fn classify_reference(link: &str) -> (r: Option<Reference>)
    ensures
        match r {
            Some(reference) => spec_classify_reference(link@) == Some(reference@),
            None => spec_classify_reference(link@) is None,
        },
{
    if let Some(name) = component_name_of(link, ComponentKind::Response) {
        return Some(Reference::Relative(ReferenceRelative::Response { name }));
    }
    if let Some(name) = component_name_of(link, ComponentKind::Parameter) {
        return Some(Reference::Relative(ReferenceRelative::Parameter { name }));
    }
    if let Some(name) = component_name_of(link, ComponentKind::RequestBody) {
        return Some(Reference::Relative(ReferenceRelative::RequestBody { name }));
    }
    if let Some(name) = component_name_of(link, ComponentKind::Schema) {
        return Some(Reference::Relative(ReferenceRelative::Schema { name }));
    }
    if let Some(name) = component_name_of(link, ComponentKind::Header) {
        return Some(Reference::Relative(ReferenceRelative::Header { name }));
    }
    if let Some(name) = component_name_of(link, ComponentKind::SecurityScheme) {
        return Some(Reference::Relative(ReferenceRelative::SecurityScheme { name }));
    }
    if check_prefix(link, "#") {
        return None;
    }
    if check_prefix(link, "http://") || check_prefix(link, "https://") {
        return Some(Reference::Remote);
    }
    Some(Reference::File(link.to_owned()))
}

} // verus!
