//! The parsed API document: the read-only input of the whole pipeline.
//!
//! A `Document` is produced by an external deserializer and never mutated
//! here.  Reusable definitions live in named sections under `components`;
//! any of them, as well as any schema nested in an operation, may be given
//! either inline or as a `#/components/...` pointer (`RefOr`).

use vstd::prelude::*;

verus! {

/// A value given inline, or a pointer string to a reusable component.
pub enum RefOr<T> {
    Item(T),
    Reference { reference: String },
}

/// Top-level metadata of the document.
pub struct ApiInfo {
    pub title: String,
    pub version: String,
    pub description: Option<String>,
    pub terms_of_service: Option<String>,
}

/// Refinement of a `string` schema.
#[derive(PartialEq, Eq, Debug)]
pub enum FormatString {
    Plain,
    Binary,
    Byte,
    Date,
    DateTime,
    Email,
    Hostname,
    Ipv4,
    Ipv6,
    Password,
    Url,
    Uuid,
    Pattern(String),
}

/// Refinement of an `integer` schema.
#[derive(Clone, Copy, PartialEq, Eq, Debug)]
pub enum FormatInteger {
    Int32,
    Int64,
}

/// Refinement of a `number` schema.
#[derive(Clone, Copy, PartialEq, Eq, Debug)]
pub enum FormatFloat {
    Float,
    Double,
}

/// The constrained schema subset the generator models.  Anything outside it
/// is kept as `Unsupported`, so that the builder can warn and skip it
/// instead of fabricating a component.
pub struct RawSchema {
    pub description: Option<String>,
    pub kind: RawSchemaKind,
}

#[allow(inconsistent_fields)]
pub enum RawSchemaKind {
    Object { properties: Vec<(String, RefOr<Box<RawSchema>>)>, required: Vec<String> },
    StringEnum { variants: Vec<String> },
    ScalarString { format: FormatString },
    ScalarInteger { format: FormatInteger },
    ScalarNumber { format: FormatFloat },
    ScalarBoolean,
    ArrayOf { items: Box<RefOr<Box<RawSchema>>> },
    /// A target-language type path injected verbatim through a vendor
    /// extension; trusted by the emission layer, never modelled.
    ExternalType { path: String },
    /// Composition keywords and free-form schemas, with a short label of
    /// what was found.
    Unsupported { detail: String },
}

/// One media type of a request or response body.
pub struct MediaType {
    pub schema: Option<RefOr<Box<RawSchema>>>,
}

/// A reusable response shape.
pub struct Response {
    pub description: Option<String>,
    pub content: Vec<(String, MediaType)>,
}

/// A reusable request body.
pub struct RequestBody {
    pub description: Option<String>,
    pub required: bool,
    pub content: Vec<(String, MediaType)>,
}

#[derive(Clone, Copy, PartialEq, Eq, Debug)]
pub enum ParameterLocation {
    Query,
    PathSegment,
    Header,
    Cookie,
}

/// A reusable operation parameter.
pub struct Parameter {
    pub name: String,
    pub location: ParameterLocation,
    pub description: Option<String>,
    pub required: bool,
    pub schema: Option<RefOr<Box<RawSchema>>>,
}

/// A reusable response header; only observed by hooks.
pub struct Header {
    pub description: Option<String>,
}

/// A security scheme; only observed by hooks.
pub struct SecurityScheme {
    pub description: Option<String>,
}

/// One declared response of an operation.
pub struct ResponseEntry {
    pub status: u16,
    /// Explicit variant label from the `x-variant-name` vendor extension.
    pub variant_label: Option<String>,
    pub response: RefOr<Response>,
}

/// One HTTP method bound to one path.
pub struct Operation {
    pub operation_id: Option<String>,
    pub description: Option<String>,
    pub parameters: Vec<RefOr<Parameter>>,
    pub request_body: Option<RefOr<RequestBody>>,
    pub responses: Vec<ResponseEntry>,
}

/// The operations declared on one path template, one slot per HTTP method.
pub struct PathItem {
    pub get: Option<Operation>,
    pub put: Option<Operation>,
    pub post: Option<Operation>,
    pub delete: Option<Operation>,
    pub options: Option<Operation>,
    pub head: Option<Operation>,
    pub patch: Option<Operation>,
    pub trace: Option<Operation>,
}

/// The named component sections, each in document declaration order.
pub struct ComponentSections {
    pub security_schemes: Vec<(String, RefOr<SecurityScheme>)>,
    pub responses: Vec<(String, RefOr<Response>)>,
    pub parameters: Vec<(String, RefOr<Parameter>)>,
    pub request_bodies: Vec<(String, RefOr<RequestBody>)>,
    pub headers: Vec<(String, RefOr<Header>)>,
    pub schemas: Vec<(String, RefOr<RawSchema>)>,
}

/// The root document.
pub struct Document {
    pub info: ApiInfo,
    pub paths: Vec<(String, RefOr<PathItem>)>,
    pub components: Option<ComponentSections>,
}

/// The first entry carrying `name`, if any; sections are keyed by name and a
/// well-formed document declares each name once.
pub open spec fn lookup_entry<T>(entries: Seq<(String, RefOr<T>)>, name: Seq<char>) -> Option<
    RefOr<T>,
>
    decreases entries.len(),
{
    if entries.len() == 0 {
        None
    } else if entries[0].0@ == name {
        Some(entries[0].1)
    } else {
        lookup_entry(entries.skip(1), name)
    }
}

/// Index of the first entry carrying `name`.
pub open spec fn lookup_index<T>(entries: Seq<(String, RefOr<T>)>, name: Seq<char>) -> int
    decreases entries.len(),
{
    if entries.len() == 0 {
        0
    } else if entries[0].0@ == name {
        0
    } else {
        1 + lookup_index(entries.skip(1), name)
    }
}

pub proof fn lemma_lookup_entry_index<T>(entries: Seq<(String, RefOr<T>)>, name: Seq<char>)
    ensures
        lookup_entry(entries, name) is Some ==> {
            &&& 0 <= lookup_index(entries, name) < entries.len()
            &&& entries[lookup_index(entries, name)].0@ == name
            &&& entries[lookup_index(entries, name)].1 == lookup_entry(entries, name)->0
        },
        lookup_entry(entries, name) is None ==> lookup_index(entries, name) == entries.len(),
    decreases entries.len(),
{
    if entries.len() > 0 && entries[0].0@ != name {
        lemma_lookup_entry_index(entries.skip(1), name);
    }
}

/// Finds the first entry of a section carrying `name`, as `lookup_entry`
/// names it.
pub fn find_entry_index<T>(entries: &Vec<(String, RefOr<T>)>, name: &String) -> (r: Option<usize>)
    ensures
        match r {
            Some(i) => {
                &&& i < entries@.len()
                &&& entries@[i as int].0@ == name@
                &&& lookup_entry(entries@, name@) == Some(entries@[i as int].1)
            },
            None => lookup_entry(entries@, name@) is None,
        },
{
    proof {
        assert(entries@.skip(0) =~= entries@);
    }
    let mut i: usize = 0;
    while i < entries.len()
        invariant
            i <= entries@.len(),
            forall|j: int| 0 <= j < i ==> entries@[j].0@ != name@,
            lookup_entry(entries@, name@) == lookup_entry(entries@.skip(i as int), name@),
        decreases entries@.len() - i,
    {
        if entries[i].0.eq(name) {
            proof {
                assert(entries@.skip(i as int)[0] == entries@[i as int]);
            }
            return Some(i);
        }
        proof {
            assert(entries@.skip(i as int).skip(1) =~= entries@.skip(i + 1));
            assert(entries@.skip(i as int)[0] == entries@[i as int]);
        }
        i += 1;
    }
    proof {
        assert(entries@.skip(i as int).len() == 0);
    }
    None
}

/// The first pair carrying `name`, for sections that are not
/// inline-or-pointer valued.
pub open spec fn lookup_pair<T>(entries: Seq<(String, T)>, name: Seq<char>) -> Option<T>
    decreases entries.len(),
{
    if entries.len() == 0 {
        None
    } else if entries[0].0@ == name {
        Some(entries[0].1)
    } else {
        lookup_pair(entries.skip(1), name)
    }
}

/// Finds the first pair carrying `name`, as `lookup_pair` names it.
pub fn find_pair_index<T>(entries: &Vec<(String, T)>, name: &String) -> (r: Option<usize>)
    ensures
        match r {
            Some(i) => {
                &&& i < entries@.len()
                &&& entries@[i as int].0@ == name@
                &&& lookup_pair(entries@, name@) == Some(entries@[i as int].1)
            },
            None => lookup_pair(entries@, name@) is None,
        },
{
    proof {
        assert(entries@.skip(0) =~= entries@);
    }
    let mut i: usize = 0;
    while i < entries.len()
        invariant
            i <= entries@.len(),
            lookup_pair(entries@, name@) == lookup_pair(entries@.skip(i as int), name@),
        decreases entries@.len() - i,
    {
        if entries[i].0.eq(name) {
            proof {
                assert(entries@.skip(i as int)[0] == entries@[i as int]);
            }
            return Some(i);
        }
        proof {
            assert(entries@.skip(i as int).skip(1) =~= entries@.skip(i + 1));
            assert(entries@.skip(i as int)[0] == entries@[i as int]);
        }
        i += 1;
    }
    proof {
        assert(entries@.skip(i as int).len() == 0);
    }
    None
}

} // verus!
