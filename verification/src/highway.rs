//! The component graph builder: from the document's declared sections to a
//! normalized graph of named components.
//!
//! Every declared schema, response, parameter and request body becomes at
//! most one top-level component plus the components synthesized for its
//! nested anonymous objects.  All four namespaces share one name registry:
//! a synthesized name colliding with any existing name is a hard error,
//! never a silent rename.  Shapes outside the supported subset are skipped
//! with a warning.

use vstd::prelude::*;

use crate::document::{lookup_pair, Document, MediaType, Parameter, ParameterLocation};
use crate::document::{RawSchema, RawSchemaKind, RefOr};
use crate::emit::{clone_opt_string, opt_view};
use crate::naming::{to_struct_name, type_name_of};
use crate::printer::components::{clone_format_string, Component, ComponentV, ComponentsModule};
use crate::printer::components::{component_name, EnumVariant, EnumVariantV, Field, FieldBaseV};
use crate::printer::components::{FieldType, FieldTypeV, FieldV, NativeType, NativeTypeV};
use crate::printer::components::{ParametersModule, RequestBodiesModule, ResponsesModule, SchemasModule};
use crate::printer::paths::ContentType;
use crate::resolver::{parse_component_name, resolve_ref_in_section};
use crate::resolver::{ComponentKind, RESOLVE_DEPTH_LIMIT};

verus! {

/// How deeply anonymous schemas may nest before conversion gives up; the
/// limit is part of the module's contract, not a guess at runtime.
pub const SCHEMA_NESTING_LIMIT: u32 = 32;

/// Why a schema shape could not be converted.
#[derive(Clone, Copy, PartialEq, Eq, Structural, Debug)]
pub enum ParseSchemaError {
    /// Composition keywords, free-form schemas, or nesting beyond the
    /// documented limit.
    UnsupportedType,
    /// A pointer that does not lead into the schema namespace.
    ReferenceNotSupported,
}

/// A non-fatal finding: the named component was skipped, with the reason.
#[derive(Debug)]
pub enum BuildWarning {
    Unsupported { name: String, detail: String },
}

/// Ghost value of a `BuildWarning`.
pub enum BuildWarningV {
    Unsupported { name: Seq<char>, detail: Seq<char> },
}

impl View for BuildWarning {
    type V = BuildWarningV;

    open spec fn view(&self) -> BuildWarningV {
        match self {
            BuildWarning::Unsupported { name, detail } => BuildWarningV::Unsupported {
                name: name@,
                detail: detail@,
            },
        }
    }
}

/// A fatal finding: the run aborts rather than emit surprising code.
#[derive(Debug)]
pub enum BuildError {
    /// A component name, declared or synthesized, is already taken.
    NameCollision { proposed: String, existing: String },
}

/// Ghost value of a `BuildError`.
pub enum BuildErrorV {
    NameCollision { proposed: Seq<char>, existing: Seq<char> },
}

impl View for BuildError {
    type V = BuildErrorV;

    open spec fn view(&self) -> BuildErrorV {
        match self {
            BuildError::NameCollision { proposed, existing } => BuildErrorV::NameCollision {
                proposed: proposed@,
                existing: existing@,
            },
        }
    }
}

/// The name synthesized for an anonymous object under field `field` of the
/// component named `parent`.
pub open spec fn spec_inner_name(parent: Seq<char>, field: Seq<char>) -> Seq<char> {
    parent + type_name_of(field)
}

/// The ghost values of a list of strings.
pub open spec fn string_views(l: Seq<String>) -> Seq<Seq<char>> {
    l.map_values(|s: String| s@)
}

/// The description a property contributes to its field: the inline
/// schema's own, nothing for a pointer.
pub open spec fn spec_prop_description(source: RefOr<Box<RawSchema>>) -> Option<Seq<char>> {
    match source {
        RefOr::Item(s) => opt_view(s.description),
        RefOr::Reference { .. } => None,
    }
}

/// Conversion of an inline-or-pointer schema: a pointer into the schema
/// namespace becomes a component reference, an inline schema is converted
/// with one depth step consumed.
pub open spec fn spec_parse_ref_or(name: Seq<char>, source: RefOr<Box<RawSchema>>, depth: nat)
    -> Result<(FieldTypeV, Seq<ComponentV>), ParseSchemaError>
    decreases depth, 0nat, 0nat,
{
    match source {
        RefOr::Reference { reference } => match parse_component_name(
            reference@,
            ComponentKind::Schema,
        ) {
            Some(n) => Ok(
                (FieldTypeV { array_depth: 0, base: FieldBaseV::Custom(type_name_of(n)) }, Seq::empty()),
            ),
            None => Err(ParseSchemaError::ReferenceNotSupported),
        },
        RefOr::Item(schema) => {
            if depth == 0 {
                Err(ParseSchemaError::UnsupportedType)
            } else {
                spec_parse_schema(name, *schema, (depth - 1) as nat)
            }
        },
    }
}

/// Conversion of one schema under a component name: the field type callers
/// embed, and the components the conversion creates, parent first.
pub open spec fn spec_parse_schema(name: Seq<char>, schema: RawSchema, depth: nat) -> Result<
    (FieldTypeV, Seq<ComponentV>),
    ParseSchemaError,
>
    decreases depth, 2nat, 0nat,
{
    match schema.kind {
        RawSchemaKind::ScalarNumber { format } => Ok(
            (FieldTypeV { array_depth: 0, base: FieldBaseV::Native(NativeTypeV::Float { format }) }, Seq::empty()),
        ),
        RawSchemaKind::ScalarInteger { format } => Ok(
            (
                FieldTypeV { array_depth: 0, base: FieldBaseV::Native(NativeTypeV::Integer { format }) },
                Seq::empty(),
            ),
        ),
        RawSchemaKind::ScalarString { format } => Ok(
            (
                FieldTypeV {
                    array_depth: 0,
                    base: FieldBaseV::Native(NativeTypeV::Text { format: format@ }),
                },
                Seq::empty(),
            ),
        ),
        RawSchemaKind::ScalarBoolean => Ok(
            (FieldTypeV { array_depth: 0, base: FieldBaseV::Native(NativeTypeV::Boolean) }, Seq::empty()),
        ),
        RawSchemaKind::ExternalType { path } => Ok(
            (FieldTypeV { array_depth: 0, base: FieldBaseV::Internal(path@) }, Seq::empty()),
        ),
        RawSchemaKind::StringEnum { variants } => Ok(
            (
                FieldTypeV { array_depth: 0, base: FieldBaseV::Custom(type_name_of(name)) },
                seq![
                    ComponentV::Enum {
                        name,
                        description: opt_view(schema.description),
                        variants: string_views(variants@).map_values(
                            |v: Seq<char>| EnumVariantV { name: v, description: None },
                        ),
                    },
                ],
            ),
        ),
        RawSchemaKind::Object { properties, required } => {
            match spec_parse_props(name, properties@, string_views(required@), depth) {
                Err(e) => Err(e),
                Ok((fields, created)) => Ok(
                    (
                        FieldTypeV { array_depth: 0, base: FieldBaseV::Custom(type_name_of(name)) },
                        seq![
                            ComponentV::Object {
                                name,
                                description: opt_view(schema.description),
                                fields,
                            },
                        ] + created,
                    ),
                ),
            }
        },
        RawSchemaKind::ArrayOf { items } => match spec_parse_ref_or(name, *items, depth) {
            Err(e) => Err(e),
            Ok((ft, created)) => Ok(
                (FieldTypeV { array_depth: ft.array_depth + 1, base: ft.base }, created),
            ),
        },
        RawSchemaKind::Unsupported { .. } => Err(ParseSchemaError::UnsupportedType),
    }
}

/// Conversion of an object's properties, in declaration order: the fields
/// of the object and the components synthesized along the way.
pub open spec fn spec_parse_props(
    name: Seq<char>,
    props: Seq<(String, RefOr<Box<RawSchema>>)>,
    required: Seq<Seq<char>>,
    depth: nat,
) -> Result<(Seq<FieldV>, Seq<ComponentV>), ParseSchemaError>
    decreases depth, 1nat, props.len(),
{
    if props.len() == 0 {
        Ok((Seq::empty(), Seq::empty()))
    } else {
        let fname = props[0].0@;
        match spec_parse_ref_or(spec_inner_name(name, fname), props[0].1, depth) {
            Err(e) => Err(e),
            Ok((ft, created)) => match spec_parse_props(name, props.skip(1), required, depth) {
                Err(e) => Err(e),
                Ok((fields, more)) => Ok(
                    (
                        seq![
                            FieldV {
                                name: fname,
                                required: required.contains(fname),
                                description: spec_prop_description(props[0].1),
                                field_type: ft,
                            },
                        ] + fields,
                        created + more,
                    ),
                ),
            },
        }
    }
}

/// Whether a list of strings holds `s`.
fn contains_string(list: &Vec<String>, s: &String) -> (r: bool)
    ensures
        r == string_views(list@).contains(s@),
{
    let mut i: usize = 0;
    while i < list.len()
        invariant
            i <= list@.len(),
            forall|j: int| 0 <= j < i ==> string_views(list@)[j] != s@,
        decreases list@.len() - i,
    {
        if list[i].eq(s) {
            proof {
                assert(string_views(list@)[i as int] == s@);
            }
            return true;
        }
        i += 1;
    }
    false
}

/// Conversion of an inline-or-pointer schema, as `spec_parse_ref_or` names
/// it.
pub fn parse_ref_or_schema(name: &String, source: &RefOr<Box<RawSchema>>, depth: u32) -> (r:
    Result<(FieldType, Vec<Component>), ParseSchemaError>)
    ensures
        match r {
            Ok((ft, comps)) => spec_parse_ref_or(name@, *source, depth as nat) == Ok::<
                _,
                ParseSchemaError,
            >((ft@, comps@.map_values(|c: Component| c@))),
            Err(e) => spec_parse_ref_or(name@, *source, depth as nat) == Err::<
                (FieldTypeV, Seq<ComponentV>),
                _,
            >(e),
        },
    decreases depth, 0nat,
{
    match source {
        RefOr::Reference { reference } => {
            match crate::resolver::component_name_of(reference.as_str(), ComponentKind::Schema) {
                Some(n) => {
                    let r = (FieldType::Custom(to_struct_name(n.as_str())), Vec::<Component>::new());
                    proof {
                        assert(r.1@.map_values(|c: Component| c@) =~= Seq::<ComponentV>::empty());
                    }
                    Ok(r)
                },
                None => Err(ParseSchemaError::ReferenceNotSupported),
            }
        },
        RefOr::Item(schema) => {
            if depth == 0 {
                Err(ParseSchemaError::UnsupportedType)
            } else {
                parse_schema(name, schema, depth - 1)
            }
        },
    }
}

/// Conversion of one schema, as `spec_parse_schema` names it.
pub fn parse_schema(name: &String, schema: &RawSchema, depth: u32) -> (r: Result<
    (FieldType, Vec<Component>),
    ParseSchemaError,
>)
    ensures
        match r {
            Ok((ft, comps)) => spec_parse_schema(name@, *schema, depth as nat) == Ok::<
                _,
                ParseSchemaError,
            >((ft@, comps@.map_values(|c: Component| c@))),
            Err(e) => spec_parse_schema(name@, *schema, depth as nat) == Err::<
                (FieldTypeV, Seq<ComponentV>),
                _,
            >(e),
        },
    decreases depth, 1nat,
{
    match &schema.kind {
        RawSchemaKind::ScalarNumber { format } => {
            let r = (FieldType::Native(NativeType::Float { format: *format }), Vec::<Component>::new());
            proof {
                assert(r.1@.map_values(|c: Component| c@) =~= Seq::<ComponentV>::empty());
            }
            Ok(r)
        },
        RawSchemaKind::ScalarInteger { format } => {
            let r = (
                FieldType::Native(NativeType::Integer { format: *format }),
                Vec::<Component>::new(),
            );
            proof {
                assert(r.1@.map_values(|c: Component| c@) =~= Seq::<ComponentV>::empty());
            }
            Ok(r)
        },
        RawSchemaKind::ScalarString { format } => {
            let r = (
                FieldType::Native(NativeType::Text { format: clone_format_string(format) }),
                Vec::<Component>::new(),
            );
            proof {
                assert(r.1@.map_values(|c: Component| c@) =~= Seq::<ComponentV>::empty());
            }
            Ok(r)
        },
        RawSchemaKind::ScalarBoolean => {
            let r = (FieldType::Native(NativeType::Boolean), Vec::<Component>::new());
            proof {
                assert(r.1@.map_values(|c: Component| c@) =~= Seq::<ComponentV>::empty());
            }
            Ok(r)
        },
        RawSchemaKind::ExternalType { path } => {
            let r = (FieldType::Internal(path.clone()), Vec::<Component>::new());
            proof {
                assert(r.1@.map_values(|c: Component| c@) =~= Seq::<ComponentV>::empty());
            }
            Ok(r)
        },
        RawSchemaKind::StringEnum { variants } => {
            let mut out: Vec<EnumVariant> = Vec::new();
            let mut i: usize = 0;
            while i < variants.len()
                invariant
                    i <= variants@.len(),
                    out@.len() == i,
                    forall|j: int|
                        0 <= j < i ==> #[trigger] out@[j]@ == (EnumVariantV {
                            name: variants@[j]@,
                            description: None,
                        }),
                decreases variants@.len() - i,
            {
                out.push(EnumVariant { name: variants[i].clone(), description: None });
                i += 1;
            }
            let component = Component::Enum {
                name: name.clone(),
                description: clone_opt_string(&schema.description),
                variants: out,
            };
            let mut comps: Vec<Component> = Vec::new();
            comps.push(component);
            let ft = FieldType::Custom(to_struct_name(name.as_str()));
            proof {
                assert(out@.map_values(|x: EnumVariant| x@) =~= string_views(variants@).map_values(
                    |v: Seq<char>| EnumVariantV { name: v, description: None },
                ));
                assert(comps@.map_values(|c: Component| c@) =~~= seq![
                    ComponentV::Enum {
                        name: name@,
                        description: opt_view(schema.description),
                        variants: string_views(variants@).map_values(
                            |v: Seq<char>| EnumVariantV { name: v, description: None },
                        ),
                    },
                ]);
            }
            Ok((ft, comps))
        },
        RawSchemaKind::Object { properties, required } => {
            let mut fields: Vec<Field> = Vec::new();
            let mut created: Vec<Component> = Vec::new();
            proof {
                assert(properties@.skip(0) =~= properties@);
                match spec_parse_props(name@, properties@, string_views(required@), depth as nat) {
                    Ok((f, c)) => {},
                    Err(e) => {},
                }
                match spec_parse_props(
                    name@,
                    properties@.skip(0),
                    string_views(required@),
                    depth as nat,
                ) {
                    Ok((f, c)) => {
                        assert(fields@.map_values(|x: Field| x@) + f =~= f);
                        assert(created@.map_values(|x: Component| x@) + c =~= c);
                    },
                    Err(e) => {},
                }
            }
            let mut i: usize = 0;
            while i < properties.len()
                invariant
                    i <= properties@.len(),
                    (schema.kind matches RawSchemaKind::Object { properties: ps, required: rq }
                        && ps == *properties && rq == *required),
                    spec_parse_props(name@, properties@, string_views(required@), depth as nat)
                        == (match spec_parse_props(
                        name@,
                        properties@.skip(i as int),
                        string_views(required@),
                        depth as nat,
                    ) {
                        Ok((f, c)) => Ok::<_, ParseSchemaError>(
                            (
                                fields@.map_values(|x: Field| x@) + f,
                                created@.map_values(|x: Component| x@) + c,
                            ),
                        ),
                        Err(e) => Err(e),
                    }),
                decreases properties@.len() - i,
            {
                let fname = &properties[i].0;
                let mut inner = name.clone();
                let pascal_field = to_struct_name(fname.as_str());
                inner.append(pascal_field.as_str());
                let prop_result = parse_ref_or_schema(&inner, &properties[i].1, depth);
                proof {
                    assert(properties@.skip(i as int)[0] == properties@[i as int]);
                    assert(properties@.skip(i as int).skip(1) =~= properties@.skip(i + 1));
                }
                match prop_result {
                    Err(e) => {
                        return Err(e);
                    },
                    Ok((ft, mut sub)) => {
                        let required_here = contains_string(required, fname);
                        let description = match &properties[i].1 {
                            RefOr::Item(s) => clone_opt_string(&s.description),
                            RefOr::Reference { .. } => None,
                        };
                        let ghost old_fields = fields@;
                        let ghost old_created = created@;
                        let ghost sub_snapshot = sub@;
                        fields.push(
                            Field { name: fname.clone(), required: required_here, description, field_type: ft },
                        );
                        created.append(&mut sub);
                        proof {
                            assert(fields@.map_values(|x: Field| x@) =~= old_fields.map_values(
                                |x: Field| x@,
                            ) + seq![fields@[fields@.len() - 1]@]);
                            assert(created@.map_values(|x: Component| x@) =~= old_created.map_values(
                                |x: Component| x@,
                            ) + sub_snapshot.map_values(|x: Component| x@));
                            assert(fields@[fields@.len() - 1]@ =~= (FieldV {
                                name: properties@[i as int].0@,
                                required: string_views(required@).contains(
                                    properties@[i as int].0@,
                                ),
                                description: spec_prop_description(properties@[i as int].1),
                                field_type: fields@[fields@.len() - 1].field_type@,
                            }));
                            match spec_parse_props(
                                name@,
                                properties@.skip(i + 1),
                                string_views(required@),
                                depth as nat,
                            ) {
                                Ok((f2, c2)) => {
                                    assert((old_fields.map_values(|x: Field| x@) + seq![
                                        fields@[fields@.len() - 1]@,
                                    ]) + f2 =~= old_fields.map_values(|x: Field| x@) + (seq![
                                        fields@[fields@.len() - 1]@,
                                    ] + f2));
                                    assert((old_created.map_values(|x: Component| x@)
                                        + sub_snapshot.map_values(|x: Component| x@)) + c2
                                        =~= old_created.map_values(|x: Component| x@) + (
                                    sub_snapshot.map_values(|x: Component| x@) + c2));
                                },
                                Err(e2) => {},
                            }
                            assert(spec_parse_props(
                                name@,
                                properties@,
                                string_views(required@),
                                depth as nat,
                            ) == (match spec_parse_props(
                                name@,
                                properties@.skip(i + 1),
                                string_views(required@),
                                depth as nat,
                            ) {
                                Ok((f, c)) => Ok::<_, ParseSchemaError>(
                                    (
                                        fields@.map_values(|x: Field| x@) + f,
                                        created@.map_values(|x: Component| x@) + c,
                                    ),
                                ),
                                Err(e) => Err(e),
                            }));
                        }
                    },
                }
                i += 1;
            }
            proof {
                assert(properties@.skip(i as int).len() == 0);
                assert(fields@.map_values(|x: Field| x@) + Seq::<FieldV>::empty() =~= fields@
                    .map_values(|x: Field| x@));
                assert(created@.map_values(|x: Component| x@) + Seq::<ComponentV>::empty()
                    =~= created@.map_values(|x: Component| x@));
            }
            let ghost fields_snapshot = fields@;
            let ghost created_snapshot = created@;
            let component = Component::Object {
                name: name.clone(),
                description: clone_opt_string(&schema.description),
                fields,
            };
            let mut comps: Vec<Component> = Vec::new();
            comps.push(component);
            comps.append(&mut created);
            proof {
                assert(comps@.map_values(|c: Component| c@) =~~= seq![
                    ComponentV::Object {
                        name: name@,
                        description: opt_view(schema.description),
                        fields: fields_snapshot.map_values(|x: Field| x@),
                    },
                ] + created_snapshot.map_values(|x: Component| x@));
            }
            Ok((FieldType::Custom(to_struct_name(name.as_str())), comps))
        },
        RawSchemaKind::ArrayOf { items } => match parse_ref_or_schema(name, items, depth) {
            Err(e) => Err(e),
            Ok((ft, created)) => Ok((FieldType::array(ft), created)),
        },
        RawSchemaKind::Unsupported { .. } => Err(ParseSchemaError::UnsupportedType),
    }
}

/// Declares indexmap's `IndexSet` so that the name registry can hold one.
#[verifier::external_type_specification]
#[verifier::external_body]
#[verifier::reject_recursive_types(T)]
#[verifier::reject_recursive_types(S)]
pub struct ExIndexSet<T, S>(indexmap::IndexSet<T, S>);

/// What a name registry holds.
pub uninterp spec fn registry_names(
    s: indexmap::IndexSet<String, std::collections::hash_map::RandomState>,
) -> Set<Seq<char>>;

/// Relies on indexmap's `IndexSet::new`: the new set is empty.
#[verifier::external_body]
fn registry_new() -> (r: indexmap::IndexSet<String>)
    ensures
        registry_names(r) == Set::<Seq<char>>::empty(),
{
    indexmap::IndexSet::new()
}

/// Relies on indexmap's `IndexSet::insert`: adds the value, and answers
/// false exactly when an equal value was already present.
#[verifier::external_body]
fn registry_insert(s: &mut indexmap::IndexSet<String>, value: String) -> (r: bool)
    ensures
        registry_names(*final(s)) == registry_names(*old(s)).insert(value@),
        r == !registry_names(*old(s)).contains(value@),
{
    s.insert(value)
}

/// Relies on indexmap's `IndexSet::contains`.
#[verifier::external_body]
fn registry_contains(s: &indexmap::IndexSet<String>, value: &String) -> (r: bool)
    ensures
        r == registry_names(*s).contains(value@),
{
    s.contains(value.as_str())
}

/// The component graph: the four namespaces in build order, and the shared
/// registry of every emitted type name.
pub struct Components {
    pub parameters: Vec<Component>,
    pub request_bodies: Vec<Component>,
    pub responses: Vec<Component>,
    pub schemas: Vec<Component>,
    registry: indexmap::IndexSet<String>,
}

#[verifier::ext_equal]
pub struct ComponentsV {
    pub parameters: Seq<ComponentV>,
    pub request_bodies: Seq<ComponentV>,
    pub responses: Seq<ComponentV>,
    pub schemas: Seq<ComponentV>,
    pub names: Set<Seq<char>>,
}

impl View for Components {
    type V = ComponentsV;

    closed spec fn view(&self) -> ComponentsV {
        ComponentsV {
            parameters: self.parameters@.map_values(|c: Component| c@),
            request_bodies: self.request_bodies@.map_values(|c: Component| c@),
            responses: self.responses@.map_values(|c: Component| c@),
            schemas: self.schemas@.map_values(|c: Component| c@),
            names: registry_names(self.registry),
        }
    }
}

/// Whether the parameters namespace of the graph holds a component whose
/// emitted name is `n`.
pub open spec fn parameters_namespace_has(graph: ComponentsV, n: Seq<char>) -> bool {
    exists|j: int|
        0 <= j < graph.parameters.len() && type_name_of(
            component_name(#[trigger] graph.parameters[j]),
        ) == n
}

pub open spec fn unsupported_warning(name: Seq<char>, detail: Seq<char>) -> BuildWarningV {
    BuildWarningV::Unsupported { name, detail }
}

/// The warning text of a conversion failure.
pub open spec fn parse_error_detail(e: ParseSchemaError) -> Seq<char> {
    match e {
        ParseSchemaError::UnsupportedType => "unsupported schema shape"@,
        ParseSchemaError::ReferenceNotSupported => "unsupported reference"@,
    }
}

/// Registration of freshly created components, in creation order: the
/// grown name set, or the first collision.
pub open spec fn spec_register(taken: Set<Seq<char>>, comps: Seq<ComponentV>) -> Result<
    Set<Seq<char>>,
    BuildErrorV,
>
    decreases comps.len(),
{
    if comps.len() == 0 {
        Ok(taken)
    } else {
        let n = type_name_of(component_name(comps[0]));
        if taken.contains(n) {
            Err(BuildErrorV::NameCollision { proposed: n, existing: n })
        } else {
            spec_register(taken.insert(n), comps.skip(1))
        }
    }
}

/// The components one converted payload contributes: the created
/// components alone when the payload is the component named `name` itself,
/// else an alias in front of them.
pub open spec fn spec_alias_or_created(
    name: Seq<char>,
    description: Option<Seq<char>>,
    ft: FieldTypeV,
    created: Seq<ComponentV>,
) -> Seq<ComponentV> {
    if ft.array_depth == 0 && (ft.base matches FieldBaseV::Custom(c) && c == type_name_of(name)) {
        created
    } else {
        seq![ComponentV::Type { name, description, type_value: ft }] + created
    }
}

/// The media type an entry's payload is read from: JSON first, then form
/// encoding.
pub open spec fn spec_find_media(content: Seq<(String, MediaType)>) -> Option<
    (ContentType, MediaType),
> {
    match lookup_pair(content, "application/json"@) {
        Some(m) => Some((ContentType::Json, m)),
        None => match lookup_pair(content, "application/x-www-form-urlencoded"@) {
            Some(m) => Some((ContentType::FormData, m)),
            None => None,
        },
    }
}

/// The components and warning of one content-carrying entry (a response or
/// a request body).
pub open spec fn spec_content_components(
    name: Seq<char>,
    description: Option<Seq<char>>,
    content: Seq<(String, MediaType)>,
) -> (Seq<ComponentV>, Option<BuildWarningV>) {
    match spec_find_media(content) {
        None => (Seq::empty(), None),
        Some((_, media)) => match media.schema {
            None => (Seq::empty(), Some(unsupported_warning(name, "media type without schema"@))),
            Some(s) => match spec_parse_ref_or(name, s, SCHEMA_NESTING_LIMIT as nat) {
                Err(e) => (Seq::empty(), Some(unsupported_warning(name, parse_error_detail(e)))),
                Ok((ft, created)) => (spec_alias_or_created(name, description, ft, created), None),
            },
        },
    }
}

/// The components and warning of one `responses` section entry.
pub open spec fn spec_response_entry(
    doc: Document,
    name: Seq<char>,
    source: RefOr<crate::document::Response>,
) -> (Seq<ComponentV>, Option<BuildWarningV>) {
    match resolve_ref_in_section(
        crate::resolver::response_section(doc),
        ComponentKind::Response,
        source,
        RESOLVE_DEPTH_LIMIT as nat,
    ) {
        Err(_) => (Seq::empty(), Some(unsupported_warning(name, "unresolved reference"@))),
        Ok(resp) => spec_content_components(name, opt_view(resp.description), resp.content@),
    }
}

/// The components and warning of one `requestBodies` section entry.
pub open spec fn spec_request_body_entry(
    doc: Document,
    name: Seq<char>,
    source: RefOr<crate::document::RequestBody>,
) -> (Seq<ComponentV>, Option<BuildWarningV>) {
    match resolve_ref_in_section(
        crate::resolver::request_body_section(doc),
        ComponentKind::RequestBody,
        source,
        RESOLVE_DEPTH_LIMIT as nat,
    ) {
        Err(_) => (Seq::empty(), Some(unsupported_warning(name, "unresolved reference"@))),
        Ok(body) => spec_content_components(name, opt_view(body.description), body.content@),
    }
}

/// The components and warning of one `parameters` section entry; the
/// component is named after the parameter's own wire name.
pub open spec fn spec_parameter_entry(doc: Document, name: Seq<char>, source: RefOr<Parameter>)
    -> (Seq<ComponentV>, Option<BuildWarningV>) {
    match resolve_ref_in_section(
        crate::resolver::parameter_section(doc),
        ComponentKind::Parameter,
        source,
        RESOLVE_DEPTH_LIMIT as nat,
    ) {
        Err(_) => (Seq::empty(), Some(unsupported_warning(name, "unresolved reference"@))),
        Ok(p) => {
            if !(p.location matches ParameterLocation::Query) {
                (Seq::empty(), Some(unsupported_warning(name, "unsupported parameter location"@)))
            } else {
                match p.schema {
                    None => (
                        Seq::empty(),
                        Some(unsupported_warning(name, "parameter without schema"@)),
                    ),
                    Some(s) => match spec_parse_ref_or(p.name@, s, SCHEMA_NESTING_LIMIT as nat) {
                        Err(e) => (
                            Seq::empty(),
                            Some(unsupported_warning(name, parse_error_detail(e))),
                        ),
                        Ok((ft, created)) => (
                            spec_alias_or_created(p.name@, opt_view(p.description), ft, created),
                            None,
                        ),
                    },
                }
            }
        },
    }
}

/// The components and warning of one `schemas` section entry; an entry that
/// is itself a pointer becomes a type alias.
pub open spec fn spec_schema_entry(name: Seq<char>, source: RefOr<RawSchema>) -> (
    Seq<ComponentV>,
    Option<BuildWarningV>,
) {
    match source {
        RefOr::Reference { reference } => match parse_component_name(
            reference@,
            ComponentKind::Schema,
        ) {
            Some(n) => (
                seq![
                    ComponentV::Type {
                        name,
                        description: None,
                        type_value: FieldTypeV {
                            array_depth: 0,
                            base: FieldBaseV::Custom(type_name_of(n)),
                        },
                    },
                ],
                None,
            ),
            None => (Seq::empty(), Some(unsupported_warning(name, "unsupported reference"@))),
        },
        RefOr::Item(s) => match spec_parse_schema(name, s, SCHEMA_NESTING_LIMIT as nat) {
            Err(e) => (Seq::empty(), Some(unsupported_warning(name, parse_error_detail(e)))),
            Ok((ft, created)) => (
                spec_alias_or_created(name, opt_view(s.description), ft, created),
                None,
            ),
        },
    }
}

/// Appending an optional warning to a list.
pub open spec fn with_warning(ws: Seq<BuildWarningV>, w: Option<BuildWarningV>) -> Seq<
    BuildWarningV,
> {
    match w {
        Some(x) => ws.push(x),
        None => ws,
    }
}

/// The walk of the `responses` section: its components in declaration
/// order, its warnings, and the grown name set.
pub open spec fn spec_walk_responses(
    doc: Document,
    entries: Seq<(String, RefOr<crate::document::Response>)>,
    taken: Set<Seq<char>>,
) -> Result<(Seq<ComponentV>, Seq<BuildWarningV>, Set<Seq<char>>), BuildErrorV>
    decreases entries.len(),
{
    if entries.len() == 0 {
        Ok((Seq::empty(), Seq::empty(), taken))
    } else {
        let (comps, warn) = spec_response_entry(doc, entries[0].0@, entries[0].1);
        match spec_register(taken, comps) {
            Err(e) => Err(e),
            Ok(taken2) => match spec_walk_responses(doc, entries.skip(1), taken2) {
                Err(e) => Err(e),
                Ok((c2, w2, t3)) => Ok((comps + c2, with_warning(Seq::empty(), warn) + w2, t3)),
            },
        }
    }
}

/// The walk of the `parameters` section.
pub open spec fn spec_walk_parameters(
    doc: Document,
    entries: Seq<(String, RefOr<Parameter>)>,
    taken: Set<Seq<char>>,
) -> Result<(Seq<ComponentV>, Seq<BuildWarningV>, Set<Seq<char>>), BuildErrorV>
    decreases entries.len(),
{
    if entries.len() == 0 {
        Ok((Seq::empty(), Seq::empty(), taken))
    } else {
        let (comps, warn) = spec_parameter_entry(doc, entries[0].0@, entries[0].1);
        match spec_register(taken, comps) {
            Err(e) => Err(e),
            Ok(taken2) => match spec_walk_parameters(doc, entries.skip(1), taken2) {
                Err(e) => Err(e),
                Ok((c2, w2, t3)) => Ok((comps + c2, with_warning(Seq::empty(), warn) + w2, t3)),
            },
        }
    }
}

/// The walk of the `requestBodies` section.
pub open spec fn spec_walk_request_bodies(
    doc: Document,
    entries: Seq<(String, RefOr<crate::document::RequestBody>)>,
    taken: Set<Seq<char>>,
) -> Result<(Seq<ComponentV>, Seq<BuildWarningV>, Set<Seq<char>>), BuildErrorV>
    decreases entries.len(),
{
    if entries.len() == 0 {
        Ok((Seq::empty(), Seq::empty(), taken))
    } else {
        let (comps, warn) = spec_request_body_entry(doc, entries[0].0@, entries[0].1);
        match spec_register(taken, comps) {
            Err(e) => Err(e),
            Ok(taken2) => match spec_walk_request_bodies(doc, entries.skip(1), taken2) {
                Err(e) => Err(e),
                Ok((c2, w2, t3)) => Ok((comps + c2, with_warning(Seq::empty(), warn) + w2, t3)),
            },
        }
    }
}

/// The walk of the `schemas` section.
pub open spec fn spec_walk_schemas(
    entries: Seq<(String, RefOr<RawSchema>)>,
    taken: Set<Seq<char>>,
) -> Result<(Seq<ComponentV>, Seq<BuildWarningV>, Set<Seq<char>>), BuildErrorV>
    decreases entries.len(),
{
    if entries.len() == 0 {
        Ok((Seq::empty(), Seq::empty(), taken))
    } else {
        let (comps, warn) = spec_schema_entry(entries[0].0@, entries[0].1);
        match spec_register(taken, comps) {
            Err(e) => Err(e),
            Ok(taken2) => match spec_walk_schemas(entries.skip(1), taken2) {
                Err(e) => Err(e),
                Ok((c2, w2, t3)) => Ok((comps + c2, with_warning(Seq::empty(), warn) + w2, t3)),
            },
        }
    }
}

/// The whole graph build: responses, then parameters, then request bodies,
/// then schemas, all sharing one name set that starts empty.
pub open spec fn spec_build(doc: Document) -> Result<
    (ComponentsV, Seq<BuildWarningV>),
    BuildErrorV,
> {
    match spec_walk_responses(doc, crate::resolver::response_section(doc), Set::empty()) {
        Err(e) => Err(e),
        Ok((resp, w1, t1)) => match spec_walk_parameters(
            doc,
            crate::resolver::parameter_section(doc),
            t1,
        ) {
            Err(e) => Err(e),
            Ok((par, w2, t2)) => match spec_walk_request_bodies(
                doc,
                crate::resolver::request_body_section(doc),
                t2,
            ) {
                Err(e) => Err(e),
                Ok((rb, w3, t3)) => match spec_walk_schemas(
                    crate::resolver::schema_section(doc),
                    t3,
                ) {
                    Err(e) => Err(e),
                    Ok((sch, w4, t4)) => Ok(
                        (
                            ComponentsV {
                                parameters: par,
                                request_bodies: rb,
                                responses: resp,
                                schemas: sch,
                                names: t4,
                            },
                            w1 + w2 + w3 + w4,
                        ),
                    ),
                },
            },
        },
    }
}

fn no_components() -> (r: Vec<Component>)
    ensures
        r@.map_values(|c: Component| c@) == Seq::<ComponentV>::empty(),
{
    let r: Vec<Component> = Vec::new();
    proof {
        assert(r@.map_values(|c: Component| c@) =~= Seq::<ComponentV>::empty());
    }
    r
}

/// Whether an exec entry outcome carries the ghost outcome `s`.
pub open spec fn entry_outcome_matches(
    r: (Vec<Component>, Option<BuildWarning>),
    s: (Seq<ComponentV>, Option<BuildWarningV>),
) -> bool {
    &&& r.0@.map_values(|c: Component| c@) == s.0
    &&& match (r.1, s.1) {
        (Some(w), Some(wv)) => w@ == wv,
        (None, None) => true,
        _ => false,
    }
}

/// The media entry payloads are read from, as `spec_find_media` names it.
pub fn find_media_entry<'a>(content: &'a Vec<(String, MediaType)>) -> (r: Option<(ContentType, &'a MediaType)>)
    ensures
        match r {
            Some((k, m)) => spec_find_media(content@) == Some((k, *m)),
            None => spec_find_media(content@) is None,
        },
{
    let json_key = String::from_str("application/json");
    match crate::document::find_pair_index(content, &json_key) {
        Some(i) => Some((ContentType::Json, &content[i].1)),
        None => {
            let form_key = String::from_str("application/x-www-form-urlencoded");
            match crate::document::find_pair_index(content, &form_key) {
                Some(i) => Some((ContentType::FormData, &content[i].1)),
                None => None,
            }
        },
    }
}

fn make_warning(name: &String, detail: &str) -> (r: BuildWarning)
    ensures
        r@ == unsupported_warning(name@, detail@),
{
    BuildWarning::Unsupported { name: name.clone(), detail: String::from_str(detail) }
}

fn parse_error_warning(name: &String, e: ParseSchemaError) -> (r: BuildWarning)
    ensures
        r@ == unsupported_warning(name@, parse_error_detail(e)),
{
    match e {
        ParseSchemaError::UnsupportedType => make_warning(name, "unsupported schema shape"),
        ParseSchemaError::ReferenceNotSupported => make_warning(name, "unsupported reference"),
    }
}

/// An alias component in front of what was created, unless the payload is
/// the named component itself; as `spec_alias_or_created` names it.
fn alias_or_created(
    name: &String,
    description: Option<String>,
    ft: FieldType,
    created: Vec<Component>,
) -> (r: Vec<Component>)
    ensures
        r@.map_values(|c: Component| c@) == spec_alias_or_created(
            name@,
            opt_view(description),
            ft@,
            created@.map_values(|c: Component| c@),
        ),
{
    let is_self_reference = match &ft {
        FieldType::Custom(c) => {
            let pascal = to_struct_name(name.as_str());
            c.eq(&pascal)
        },
        _ => false,
    };
    if is_self_reference {
        created
    } else {
        let ghost created_snapshot = created@;
        let mut out = created;
        out.insert(0, Component::Type { name: name.clone(), description, type_value: ft });
        proof {
            assert(out@.map_values(|c: Component| c@) =~= seq![out@[0]@] + created_snapshot
                .map_values(|c: Component| c@));
        }
        out
    }
}

/// The outcome of a content-carrying entry, as `spec_content_components`
/// names it.
fn content_entry_components(
    name: &String,
    description: &Option<String>,
    content: &Vec<(String, MediaType)>,
) -> (r: (Vec<Component>, Option<BuildWarning>))
    ensures
        entry_outcome_matches(r, spec_content_components(name@, opt_view(*description), content@)),
{
    match find_media_entry(content) {
        None => (no_components(), None),
        Some((_, media)) => match &media.schema {
            None => (no_components(), Some(make_warning(name, "media type without schema"))),
            Some(s) => match parse_ref_or_schema(name, s, SCHEMA_NESTING_LIMIT) {
                Err(e) => (no_components(), Some(parse_error_warning(name, e))),
                Ok((ft, created)) => (
                    alias_or_created(name, clone_opt_string(description), ft, created),
                    None,
                ),
            },
        },
    }
}

/// The outcome of one `responses` section entry.
fn response_entry_components(
    doc: &Document,
    name: &String,
    source: &RefOr<crate::document::Response>,
) -> (r: (Vec<Component>, Option<BuildWarning>))
    ensures
        entry_outcome_matches(r, spec_response_entry(*doc, name@, *source)),
{
    let resolved: &crate::document::Response = match source {
        RefOr::Item(v) => v,
        RefOr::Reference { reference } => match crate::resolver::resolve_response(
            doc,
            reference.as_str(),
        ) {
            Ok(v) => v,
            Err(_) => {
                return (no_components(), Some(make_warning(name, "unresolved reference")));
            },
        },
    };
    content_entry_components(name, &resolved.description, &resolved.content)
}

/// The outcome of one `requestBodies` section entry.
fn request_body_entry_components(
    doc: &Document,
    name: &String,
    source: &RefOr<crate::document::RequestBody>,
) -> (r: (Vec<Component>, Option<BuildWarning>))
    ensures
        entry_outcome_matches(r, spec_request_body_entry(*doc, name@, *source)),
{
    let resolved: &crate::document::RequestBody = match source {
        RefOr::Item(v) => v,
        RefOr::Reference { reference } => match crate::resolver::resolve_request_body(
            doc,
            reference.as_str(),
        ) {
            Ok(v) => v,
            Err(_) => {
                return (no_components(), Some(make_warning(name, "unresolved reference")));
            },
        },
    };
    content_entry_components(name, &resolved.description, &resolved.content)
}

/// The outcome of one `parameters` section entry.
fn parameter_entry_components(doc: &Document, name: &String, source: &RefOr<Parameter>) -> (r: (
    Vec<Component>,
    Option<BuildWarning>,
))
    ensures
        entry_outcome_matches(r, spec_parameter_entry(*doc, name@, *source)),
{
    let resolved: &Parameter = match source {
        RefOr::Item(v) => v,
        RefOr::Reference { reference } => match crate::resolver::resolve_parameter(
            doc,
            reference.as_str(),
        ) {
            Ok(v) => v,
            Err(_) => {
                return (no_components(), Some(make_warning(name, "unresolved reference")));
            },
        },
    };
    match resolved.location {
        ParameterLocation::Query => {},
        _ => {
            return (no_components(), Some(make_warning(name, "unsupported parameter location")));
        },
    }
    match &resolved.schema {
        None => (no_components(), Some(make_warning(name, "parameter without schema"))),
        Some(s) => match parse_ref_or_schema(&resolved.name, s, SCHEMA_NESTING_LIMIT) {
            Err(e) => (no_components(), Some(parse_error_warning(name, e))),
            Ok((ft, created)) => (
                alias_or_created(
                    &resolved.name,
                    clone_opt_string(&resolved.description),
                    ft,
                    created,
                ),
                None,
            ),
        },
    }
}

/// The outcome of one `schemas` section entry.
fn schema_entry_components(name: &String, source: &RefOr<RawSchema>) -> (r: (
    Vec<Component>,
    Option<BuildWarning>,
))
    ensures
        entry_outcome_matches(r, spec_schema_entry(name@, *source)),
{
    match source {
        RefOr::Reference { reference } => {
            match crate::resolver::component_name_of(reference.as_str(), ComponentKind::Schema) {
                Some(n) => {
                    let alias = Component::Type {
                        name: name.clone(),
                        description: None,
                        type_value: FieldType::Custom(to_struct_name(n.as_str())),
                    };
                    let mut out: Vec<Component> = Vec::new();
                    out.push(alias);
                    proof {
                        assert(out@.map_values(|c: Component| c@) =~= spec_schema_entry(
                            name@,
                            *source,
                        ).0);
                    }
                    (out, None)
                },
                None => (no_components(), Some(make_warning(name, "unsupported reference"))),
            }
        },
        RefOr::Item(s) => match parse_schema(name, s, SCHEMA_NESTING_LIMIT) {
            Err(e) => (no_components(), Some(parse_error_warning(name, e))),
            Ok((ft, created)) => (
                alias_or_created(name, clone_opt_string(&s.description), ft, created),
                None,
            ),
        },
    }
}

impl Components {
    /// An empty graph with an empty name registry.
    pub fn new() -> (r: Self)
        ensures
            r@ =~= (ComponentsV {
                parameters: Seq::empty(),
                request_bodies: Seq::empty(),
                responses: Seq::empty(),
                schemas: Seq::empty(),
                names: Set::empty(),
            }),
    {
        Components {
            parameters: Vec::new(),
            request_bodies: Vec::new(),
            responses: Vec::new(),
            schemas: Vec::new(),
            registry: registry_new(),
        }
    }

    /// Registers the emitted names of freshly created components.  After a
    /// collision the graph must be discarded: the registry may already
    /// hold a prefix of the batch.
    fn register_all(&mut self, comps: &Vec<Component>) -> (r: Result<(), BuildError>)
        ensures
            final(self).parameters == old(self).parameters,
            final(self).request_bodies == old(self).request_bodies,
            final(self).responses == old(self).responses,
            final(self).schemas == old(self).schemas,
            match r {
                Ok(()) => spec_register(old(self)@.names, comps@.map_values(|c: Component| c@))
                    == Ok::<_, BuildErrorV>(final(self)@.names),
                Err(e) => spec_register(old(self)@.names, comps@.map_values(|c: Component| c@))
                    == Err::<Set<Seq<char>>, _>(e@),
            },
    {
        proof {
            assert(comps@.map_values(|c: Component| c@).skip(0) =~= comps@.map_values(
                |c: Component| c@,
            ));
        }
        let ghost comp_views = comps@.map_values(|c: Component| c@);
        let mut i: usize = 0;
        while i < comps.len()
            invariant
                i <= comps@.len(),
                comp_views == comps@.map_values(|c: Component| c@),
                self.parameters == old(self).parameters,
                self.request_bodies == old(self).request_bodies,
                self.responses == old(self).responses,
                self.schemas == old(self).schemas,
                spec_register(old(self)@.names, comp_views) == spec_register(
                    self@.names,
                    comp_views.skip(i as int),
                ),
            decreases comps@.len() - i,
        {
            let emitted = to_struct_name(comps[i].name().as_str());
            proof {
                assert(comp_views.skip(i as int)[0] == comp_views[i as int]);
                assert(comp_views.skip(i as int).skip(1) =~= comp_views.skip(i + 1));
            }
            if registry_contains(&self.registry, &emitted) {
                return Err(
                    BuildError::NameCollision { proposed: emitted.clone(), existing: emitted },
                );
            }
            registry_insert(&mut self.registry, emitted);
            i += 1;
        }
        proof {
            assert(comp_views.skip(i as int).len() == 0);
        }
        Ok(())
    }

    /// Registers a batch and appends it to the `responses` namespace.
    fn add_responses(&mut self, comps: Vec<Component>) -> (r: Result<(), BuildError>)
        ensures
            final(self).parameters == old(self).parameters,
            final(self).request_bodies == old(self).request_bodies,
            final(self).schemas == old(self).schemas,
            match r {
                Ok(()) => {
                    &&& spec_register(old(self)@.names, comps@.map_values(|c: Component| c@))
                        == Ok::<_, BuildErrorV>(final(self)@.names)
                    &&& final(self)@.responses == old(self)@.responses + comps@.map_values(
                        |c: Component| c@,
                    )
                },
                Err(e) => {
                    &&& spec_register(old(self)@.names, comps@.map_values(|c: Component| c@))
                        == Err::<Set<Seq<char>>, _>(e@)
                    &&& final(self).responses == old(self).responses
                },
            },
    {
        let mut comps = comps;
        match self.register_all(&comps) {
            Err(e) => Err(e),
            Ok(()) => {
                let ghost batch = comps@;
                let ghost before = self.responses@;
                self.responses.append(&mut comps);
                proof {
                    assert(self.responses@.map_values(|c: Component| c@) =~= before.map_values(
                        |c: Component| c@,
                    ) + batch.map_values(|c: Component| c@));
                }
                Ok(())
            },
        }
    }

    /// Registers a batch and appends it to the `parameters` namespace.
    fn add_parameters(&mut self, comps: Vec<Component>) -> (r: Result<(), BuildError>)
        ensures
            final(self).responses == old(self).responses,
            final(self).request_bodies == old(self).request_bodies,
            final(self).schemas == old(self).schemas,
            match r {
                Ok(()) => {
                    &&& spec_register(old(self)@.names, comps@.map_values(|c: Component| c@))
                        == Ok::<_, BuildErrorV>(final(self)@.names)
                    &&& final(self)@.parameters == old(self)@.parameters + comps@.map_values(
                        |c: Component| c@,
                    )
                },
                Err(e) => {
                    &&& spec_register(old(self)@.names, comps@.map_values(|c: Component| c@))
                        == Err::<Set<Seq<char>>, _>(e@)
                    &&& final(self).parameters == old(self).parameters
                },
            },
    {
        let mut comps = comps;
        match self.register_all(&comps) {
            Err(e) => Err(e),
            Ok(()) => {
                let ghost batch = comps@;
                let ghost before = self.parameters@;
                self.parameters.append(&mut comps);
                proof {
                    assert(self.parameters@.map_values(|c: Component| c@) =~= before.map_values(
                        |c: Component| c@,
                    ) + batch.map_values(|c: Component| c@));
                }
                Ok(())
            },
        }
    }

    /// Registers a batch and appends it to the `request_bodies` namespace.
    fn add_request_bodies(&mut self, comps: Vec<Component>) -> (r: Result<(), BuildError>)
        ensures
            final(self).responses == old(self).responses,
            final(self).parameters == old(self).parameters,
            final(self).schemas == old(self).schemas,
            match r {
                Ok(()) => {
                    &&& spec_register(old(self)@.names, comps@.map_values(|c: Component| c@))
                        == Ok::<_, BuildErrorV>(final(self)@.names)
                    &&& final(self)@.request_bodies == old(self)@.request_bodies
                        + comps@.map_values(|c: Component| c@)
                },
                Err(e) => {
                    &&& spec_register(old(self)@.names, comps@.map_values(|c: Component| c@))
                        == Err::<Set<Seq<char>>, _>(e@)
                    &&& final(self).request_bodies == old(self).request_bodies
                },
            },
    {
        let mut comps = comps;
        match self.register_all(&comps) {
            Err(e) => Err(e),
            Ok(()) => {
                let ghost batch = comps@;
                let ghost before = self.request_bodies@;
                self.request_bodies.append(&mut comps);
                proof {
                    assert(self.request_bodies@.map_values(|c: Component| c@) =~= before
                        .map_values(|c: Component| c@) + batch.map_values(|c: Component| c@));
                }
                Ok(())
            },
        }
    }

    /// Registers a batch and appends it to the `schemas` namespace.
    fn add_schemas(&mut self, comps: Vec<Component>) -> (r: Result<(), BuildError>)
        ensures
            final(self).responses == old(self).responses,
            final(self).parameters == old(self).parameters,
            final(self).request_bodies == old(self).request_bodies,
            match r {
                Ok(()) => {
                    &&& spec_register(old(self)@.names, comps@.map_values(|c: Component| c@))
                        == Ok::<_, BuildErrorV>(final(self)@.names)
                    &&& final(self)@.schemas == old(self)@.schemas + comps@.map_values(
                        |c: Component| c@,
                    )
                },
                Err(e) => {
                    &&& spec_register(old(self)@.names, comps@.map_values(|c: Component| c@))
                        == Err::<Set<Seq<char>>, _>(e@)
                    &&& final(self).schemas == old(self).schemas
                },
            },
    {
        let mut comps = comps;
        match self.register_all(&comps) {
            Err(e) => Err(e),
            Ok(()) => {
                let ghost batch = comps@;
                let ghost before = self.schemas@;
                self.schemas.append(&mut comps);
                proof {
                    assert(self.schemas@.map_values(|c: Component| c@) =~= before.map_values(
                        |c: Component| c@,
                    ) + batch.map_values(|c: Component| c@));
                }
                Ok(())
            },
        }
    }

    /// Converts one declared schema and adds what it creates to the
    /// `schemas` namespace.  `Ok(Some(_))` reports a skipped shape; after
    /// an `Err` the graph must be discarded.
    pub fn parse_schema(&mut self, name: &String, source: &RefOr<RawSchema>) -> (r: Result<
        Option<BuildWarning>,
        BuildError,
    >)
        ensures
            final(self)@.responses == old(self)@.responses,
            final(self)@.parameters == old(self)@.parameters,
            final(self)@.request_bodies == old(self)@.request_bodies,
            match r {
                Ok(w) => {
                    &&& spec_register(old(self)@.names, spec_schema_entry(name@, *source).0)
                        == Ok::<_, BuildErrorV>(final(self)@.names)
                    &&& final(self)@.schemas == old(self)@.schemas + spec_schema_entry(
                        name@,
                        *source,
                    ).0
                    &&& match (w, spec_schema_entry(name@, *source).1) {
                        (Some(x), Some(xv)) => x@ == xv,
                        (None, None) => true,
                        _ => false,
                    }
                },
                Err(e) => {
                    &&& spec_register(old(self)@.names, spec_schema_entry(name@, *source).0)
                        == Err::<Set<Seq<char>>, _>(e@)
                    &&& final(self)@.schemas == old(self)@.schemas
                },
            },
    {
        let (comps, warn) = schema_entry_components(name, source);
        match self.add_schemas(comps) {
            Err(e) => Err(e),
            Ok(()) => Ok(warn),
        }
    }

    /// Whether the parameters namespace holds a component whose emitted
    /// name is `n`, as `parameters_namespace_has` names it.
    pub fn has_parameter_component(&self, n: &String) -> (r: bool)
        ensures
            r == parameters_namespace_has(self@, n@),
    {
        let mut i: usize = 0;
        while i < self.parameters.len()
            invariant
                i <= self.parameters@.len(),
                self@.parameters == self.parameters@.map_values(|c: Component| c@),
                forall|j: int|
                    0 <= j < i ==> type_name_of(component_name(#[trigger] self@.parameters[j]))
                        != n@,
            decreases self.parameters@.len() - i,
        {
            let emitted = to_struct_name(self.parameters[i].name().as_str());
            if emitted.eq(n) {
                proof {
                    assert(type_name_of(component_name(self@.parameters[i as int])) == n@);
                }
                return true;
            }
            i += 1;
        }
        false
    }

    /// Hands the four namespaces over to the emission layer.
    pub fn into_modules(self) -> (r: ComponentsModule)
        ensures
            r@.parameters == self@.parameters,
            r@.request_bodies == self@.request_bodies,
            r@.responses == self@.responses,
            r@.schemas == self@.schemas,
    {
        ComponentsModule {
            parameters: ParametersModule { list: self.parameters },
            request_bodies: RequestBodiesModule { list: self.request_bodies },
            responses: ResponsesModule { list: self.responses },
            schemas: SchemasModule { list: self.schemas },
        }
    }
}

proof fn lemma_walk_responses_unfold(
    doc: Document,
    entries: Seq<(String, RefOr<crate::document::Response>)>,
    i: int,
    taken: Set<Seq<char>>,
)
    requires
        0 <= i < entries.len(),
    ensures
        spec_walk_responses(doc, entries.skip(i), taken) == ({
            let (comps, warn) = spec_response_entry(doc, entries[i].0@, entries[i].1);
            match spec_register(taken, comps) {
                Err(e) => Err(e),
                Ok(t2) => match spec_walk_responses(doc, entries.skip(i + 1), t2) {
                    Err(e) => Err(e),
                    Ok((c2, w2, t3)) => Ok(
                        (comps + c2, with_warning(Seq::empty(), warn) + w2, t3),
                    ),
                },
            }
        }),
{
    assert(entries.skip(i)[0] == entries[i]);
    assert(entries.skip(i).skip(1) =~= entries.skip(i + 1));
}

proof fn lemma_walk_parameters_unfold(
    doc: Document,
    entries: Seq<(String, RefOr<Parameter>)>,
    i: int,
    taken: Set<Seq<char>>,
)
    requires
        0 <= i < entries.len(),
    ensures
        spec_walk_parameters(doc, entries.skip(i), taken) == ({
            let (comps, warn) = spec_parameter_entry(doc, entries[i].0@, entries[i].1);
            match spec_register(taken, comps) {
                Err(e) => Err(e),
                Ok(t2) => match spec_walk_parameters(doc, entries.skip(i + 1), t2) {
                    Err(e) => Err(e),
                    Ok((c2, w2, t3)) => Ok(
                        (comps + c2, with_warning(Seq::empty(), warn) + w2, t3),
                    ),
                },
            }
        }),
{
    assert(entries.skip(i)[0] == entries[i]);
    assert(entries.skip(i).skip(1) =~= entries.skip(i + 1));
}

proof fn lemma_walk_request_bodies_unfold(
    doc: Document,
    entries: Seq<(String, RefOr<crate::document::RequestBody>)>,
    i: int,
    taken: Set<Seq<char>>,
)
    requires
        0 <= i < entries.len(),
    ensures
        spec_walk_request_bodies(doc, entries.skip(i), taken) == ({
            let (comps, warn) = spec_request_body_entry(doc, entries[i].0@, entries[i].1);
            match spec_register(taken, comps) {
                Err(e) => Err(e),
                Ok(t2) => match spec_walk_request_bodies(doc, entries.skip(i + 1), t2) {
                    Err(e) => Err(e),
                    Ok((c2, w2, t3)) => Ok(
                        (comps + c2, with_warning(Seq::empty(), warn) + w2, t3),
                    ),
                },
            }
        }),
{
    assert(entries.skip(i)[0] == entries[i]);
    assert(entries.skip(i).skip(1) =~= entries.skip(i + 1));
}

proof fn lemma_walk_schemas_unfold(
    entries: Seq<(String, RefOr<RawSchema>)>,
    i: int,
    taken: Set<Seq<char>>,
)
    requires
        0 <= i < entries.len(),
    ensures
        spec_walk_schemas(entries.skip(i), taken) == ({
            let (comps, warn) = spec_schema_entry(entries[i].0@, entries[i].1);
            match spec_register(taken, comps) {
                Err(e) => Err(e),
                Ok(t2) => match spec_walk_schemas(entries.skip(i + 1), t2) {
                    Err(e) => Err(e),
                    Ok((c2, w2, t3)) => Ok(
                        (comps + c2, with_warning(Seq::empty(), warn) + w2, t3),
                    ),
                },
            }
        }),
{
    assert(entries.skip(i)[0] == entries[i]);
    assert(entries.skip(i).skip(1) =~= entries.skip(i + 1));
}

/// Builds the component graph of a document, as `spec_build` names it:
/// the graph and the warnings for skipped components, or the first name
/// collision.
pub fn build(doc: &Document) -> (r: Result<(Components, Vec<BuildWarning>), BuildError>)
    ensures
        match r {
            Ok((g, ws)) => spec_build(*doc) == Ok::<_, BuildErrorV>(
                (g@, ws@.map_values(|w: BuildWarning| w@)),
            ),
            Err(e) => spec_build(*doc) == Err::<(ComponentsV, Seq<BuildWarningV>), _>(e@),
        },
{
    let mut graph = Components::new();
    let mut warns_a: Vec<BuildWarning> = Vec::new();
    let mut warns_b: Vec<BuildWarning> = Vec::new();
    let mut warns_c: Vec<BuildWarning> = Vec::new();
    let mut warns_d: Vec<BuildWarning> = Vec::new();

    let ghost resp_entries = crate::resolver::response_section(*doc);
    let ghost par_entries = crate::resolver::parameter_section(*doc);
    let ghost rb_entries = crate::resolver::request_body_section(*doc);
    let ghost sch_entries = crate::resolver::schema_section(*doc);

    match &doc.components {
        None => {
            proof {
                assert(resp_entries =~= Seq::<(String, RefOr<crate::document::Response>)>::empty());
                assert(par_entries =~= Seq::<(String, RefOr<Parameter>)>::empty());
                assert(rb_entries =~= Seq::<(String, RefOr<crate::document::RequestBody>)>::empty());
                assert(sch_entries =~= Seq::<(String, RefOr<RawSchema>)>::empty());
                assert(graph@ =~= (ComponentsV {
                    parameters: Seq::empty(),
                    request_bodies: Seq::empty(),
                    responses: Seq::empty(),
                    schemas: Seq::empty(),
                    names: Set::empty(),
                }));
                assert(Seq::<BuildWarningV>::empty() + Seq::<BuildWarningV>::empty()
                    + Seq::<BuildWarningV>::empty() + Seq::<BuildWarningV>::empty()
                    =~= warns_a@.map_values(|x: BuildWarning| x@) + warns_b@.map_values(
                    |x: BuildWarning| x@,
                ) + warns_c@.map_values(|x: BuildWarning| x@) + warns_d@.map_values(
                    |x: BuildWarning| x@,
                ));
                assert(spec_build(*doc) == Ok::<_, BuildErrorV>(
                    (
                        graph@,
                        warns_a@.map_values(|x: BuildWarning| x@) + warns_b@.map_values(
                            |x: BuildWarning| x@,
                        ) + warns_c@.map_values(|x: BuildWarning| x@) + warns_d@.map_values(
                            |x: BuildWarning| x@,
                        ),
                    ),
                ));
            }
        },
        Some(sections) => {
            proof {
                assert(resp_entries.skip(0) =~= resp_entries);
            }
            let mut i: usize = 0;
            while i < sections.responses.len()
                invariant
                    i <= sections.responses@.len(),
                    sections == doc.components->0,
                    resp_entries == crate::resolver::response_section(*doc),
                    resp_entries == sections.responses@,
                    graph@.parameters =~= Seq::<ComponentV>::empty(),
                    graph@.request_bodies =~= Seq::<ComponentV>::empty(),
                    graph@.schemas =~= Seq::<ComponentV>::empty(),
                    spec_walk_responses(*doc, resp_entries, Set::empty()) == (
                    match spec_walk_responses(*doc, resp_entries.skip(i as int), graph@.names) {
                        Ok((c, w, t)) => Ok::<_, BuildErrorV>(
                            (
                                graph@.responses + c,
                                warns_a@.map_values(|x: BuildWarning| x@) + w,
                                t,
                            ),
                        ),
                        Err(e) => Err(e),
                    }),
                decreases sections.responses@.len() - i,
            {
                let (comps, warn) = response_entry_components(
                    doc,
                    &sections.responses[i].0,
                    &sections.responses[i].1,
                );
                let ghost comps_map = comps@.map_values(|c: Component| c@);
                let ghost names_before = graph@.names;
                let ghost resp_before = graph@.responses;
                let ghost warns_before = warns_a@.map_values(|x: BuildWarning| x@);
                proof {
                    lemma_walk_responses_unfold(*doc, resp_entries, i as int, names_before);
                }
                match graph.add_responses(comps) {
                    Err(e) => {
                        return Err(e);
                    },
                    Ok(()) => {},
                }
                match warn {
                    Some(w) => {
                        warns_a.push(w);
                    },
                    None => {},
                }
                proof {
                    let ghost warn_spec = spec_response_entry(
                        *doc,
                        resp_entries[i as int].0@,
                        resp_entries[i as int].1,
                    ).1;
                    assert(warns_a@.map_values(|x: BuildWarning| x@) =~= warns_before
                        + with_warning(Seq::empty(), warn_spec));
                    match spec_walk_responses(*doc, resp_entries.skip(i + 1), graph@.names) {
                        Ok((c2, w2, t3)) => {
                            assert((resp_before + comps_map) + c2 =~= resp_before + (comps_map
                                + c2));
                            assert((warns_before + with_warning(Seq::empty(), warn_spec)) + w2
                                =~= warns_before + (with_warning(Seq::empty(), warn_spec) + w2));
                        },
                        Err(_) => {},
                    }
                }
                i += 1;
            }
            proof {
                assert(resp_entries.skip(i as int).len() == 0);
                assert(graph@.responses + Seq::<ComponentV>::empty() =~= graph@.responses);
                assert(warns_a@.map_values(|x: BuildWarning| x@) + Seq::<BuildWarningV>::empty()
                    =~= warns_a@.map_values(|x: BuildWarning| x@));
                assert(par_entries.skip(0) =~= par_entries);
            }
            let ghost resp_done = graph@.responses;
            let ghost warns_a_done = warns_a@.map_values(|x: BuildWarning| x@);
            let ghost t1 = graph@.names;
            let mut k: usize = 0;
            while k < sections.parameters.len()
                invariant
                    k <= sections.parameters@.len(),
                    sections == doc.components->0,
                    resp_entries == crate::resolver::response_section(*doc),
                    par_entries == crate::resolver::parameter_section(*doc),
                    par_entries == sections.parameters@,
                    graph@.responses == resp_done,
                    warns_a@.map_values(|x: BuildWarning| x@) == warns_a_done,
                    spec_walk_responses(*doc, resp_entries, Set::empty()) == Ok::<_, BuildErrorV>(
                        (resp_done, warns_a_done, t1),
                    ),
                    graph@.request_bodies =~= Seq::<ComponentV>::empty(),
                    graph@.schemas =~= Seq::<ComponentV>::empty(),
                    spec_walk_parameters(*doc, par_entries, t1) == (
                    match spec_walk_parameters(*doc, par_entries.skip(k as int), graph@.names) {
                        Ok((c, w, t)) => Ok::<_, BuildErrorV>(
                            (
                                graph@.parameters + c,
                                warns_b@.map_values(|x: BuildWarning| x@) + w,
                                t,
                            ),
                        ),
                        Err(e) => Err(e),
                    }),
                decreases sections.parameters@.len() - k,
            {
                let (comps, warn) = parameter_entry_components(
                    doc,
                    &sections.parameters[k].0,
                    &sections.parameters[k].1,
                );
                let ghost comps_map = comps@.map_values(|c: Component| c@);
                let ghost names_before = graph@.names;
                let ghost par_before = graph@.parameters;
                let ghost warns_before = warns_b@.map_values(|x: BuildWarning| x@);
                proof {
                    lemma_walk_parameters_unfold(*doc, par_entries, k as int, names_before);
                }
                match graph.add_parameters(comps) {
                    Err(e) => {
                        return Err(e);
                    },
                    Ok(()) => {},
                }
                match warn {
                    Some(w) => {
                        warns_b.push(w);
                    },
                    None => {},
                }
                proof {
                    let ghost warn_spec = spec_parameter_entry(
                        *doc,
                        par_entries[k as int].0@,
                        par_entries[k as int].1,
                    ).1;
                    assert(warns_b@.map_values(|x: BuildWarning| x@) =~= warns_before
                        + with_warning(Seq::empty(), warn_spec));
                    match spec_walk_parameters(*doc, par_entries.skip(k + 1), graph@.names) {
                        Ok((c2, w2, t3)) => {
                            assert((par_before + comps_map) + c2 =~= par_before + (comps_map
                                + c2));
                            assert((warns_before + with_warning(Seq::empty(), warn_spec)) + w2
                                =~= warns_before + (with_warning(Seq::empty(), warn_spec) + w2));
                        },
                        Err(_) => {},
                    }
                }
                k += 1;
            }
            proof {
                assert(par_entries.skip(k as int).len() == 0);
                assert(graph@.parameters + Seq::<ComponentV>::empty() =~= graph@.parameters);
                assert(warns_b@.map_values(|x: BuildWarning| x@) + Seq::<BuildWarningV>::empty()
                    =~= warns_b@.map_values(|x: BuildWarning| x@));
                assert(rb_entries.skip(0) =~= rb_entries);
            }
            let ghost par_done = graph@.parameters;
            let ghost warns_b_done = warns_b@.map_values(|x: BuildWarning| x@);
            let ghost t2 = graph@.names;
            let mut m: usize = 0;
            while m < sections.request_bodies.len()
                invariant
                    m <= sections.request_bodies@.len(),
                    sections == doc.components->0,
                    resp_entries == crate::resolver::response_section(*doc),
                    par_entries == crate::resolver::parameter_section(*doc),
                    rb_entries == crate::resolver::request_body_section(*doc),
                    rb_entries == sections.request_bodies@,
                    graph@.responses == resp_done,
                    graph@.parameters == par_done,
                    warns_a@.map_values(|x: BuildWarning| x@) == warns_a_done,
                    warns_b@.map_values(|x: BuildWarning| x@) == warns_b_done,
                    spec_walk_responses(*doc, resp_entries, Set::empty()) == Ok::<_, BuildErrorV>(
                        (resp_done, warns_a_done, t1),
                    ),
                    spec_walk_parameters(*doc, par_entries, t1) == Ok::<_, BuildErrorV>(
                        (par_done, warns_b_done, t2),
                    ),
                    graph@.schemas =~= Seq::<ComponentV>::empty(),
                    spec_walk_request_bodies(*doc, rb_entries, t2) == (
                    match spec_walk_request_bodies(
                        *doc,
                        rb_entries.skip(m as int),
                        graph@.names,
                    ) {
                        Ok((c, w, t)) => Ok::<_, BuildErrorV>(
                            (
                                graph@.request_bodies + c,
                                warns_c@.map_values(|x: BuildWarning| x@) + w,
                                t,
                            ),
                        ),
                        Err(e) => Err(e),
                    }),
                decreases sections.request_bodies@.len() - m,
            {
                let (comps, warn) = request_body_entry_components(
                    doc,
                    &sections.request_bodies[m].0,
                    &sections.request_bodies[m].1,
                );
                let ghost comps_map = comps@.map_values(|c: Component| c@);
                let ghost names_before = graph@.names;
                let ghost rb_before = graph@.request_bodies;
                let ghost warns_before = warns_c@.map_values(|x: BuildWarning| x@);
                proof {
                    lemma_walk_request_bodies_unfold(*doc, rb_entries, m as int, names_before);
                }
                match graph.add_request_bodies(comps) {
                    Err(e) => {
                        return Err(e);
                    },
                    Ok(()) => {},
                }
                match warn {
                    Some(w) => {
                        warns_c.push(w);
                    },
                    None => {},
                }
                proof {
                    let ghost warn_spec = spec_request_body_entry(
                        *doc,
                        rb_entries[m as int].0@,
                        rb_entries[m as int].1,
                    ).1;
                    assert(warns_c@.map_values(|x: BuildWarning| x@) =~= warns_before
                        + with_warning(Seq::empty(), warn_spec));
                    match spec_walk_request_bodies(*doc, rb_entries.skip(m + 1), graph@.names) {
                        Ok((c2, w2, t3)) => {
                            assert((rb_before + comps_map) + c2 =~= rb_before + (comps_map + c2));
                            assert((warns_before + with_warning(Seq::empty(), warn_spec)) + w2
                                =~= warns_before + (with_warning(Seq::empty(), warn_spec) + w2));
                        },
                        Err(_) => {},
                    }
                }
                m += 1;
            }
            proof {
                assert(rb_entries.skip(m as int).len() == 0);
                assert(graph@.request_bodies + Seq::<ComponentV>::empty()
                    =~= graph@.request_bodies);
                assert(warns_c@.map_values(|x: BuildWarning| x@) + Seq::<BuildWarningV>::empty()
                    =~= warns_c@.map_values(|x: BuildWarning| x@));
                assert(sch_entries.skip(0) =~= sch_entries);
            }
            let ghost rb_done = graph@.request_bodies;
            let ghost warns_c_done = warns_c@.map_values(|x: BuildWarning| x@);
            let ghost t3 = graph@.names;
            let mut n: usize = 0;
            while n < sections.schemas.len()
                invariant
                    n <= sections.schemas@.len(),
                    sections == doc.components->0,
                    resp_entries == crate::resolver::response_section(*doc),
                    par_entries == crate::resolver::parameter_section(*doc),
                    rb_entries == crate::resolver::request_body_section(*doc),
                    sch_entries == crate::resolver::schema_section(*doc),
                    sch_entries == sections.schemas@,
                    graph@.responses == resp_done,
                    graph@.parameters == par_done,
                    graph@.request_bodies == rb_done,
                    warns_a@.map_values(|x: BuildWarning| x@) == warns_a_done,
                    warns_b@.map_values(|x: BuildWarning| x@) == warns_b_done,
                    warns_c@.map_values(|x: BuildWarning| x@) == warns_c_done,
                    spec_walk_responses(*doc, resp_entries, Set::empty()) == Ok::<_, BuildErrorV>(
                        (resp_done, warns_a_done, t1),
                    ),
                    spec_walk_parameters(*doc, par_entries, t1) == Ok::<_, BuildErrorV>(
                        (par_done, warns_b_done, t2),
                    ),
                    spec_walk_request_bodies(*doc, rb_entries, t2) == Ok::<_, BuildErrorV>(
                        (rb_done, warns_c_done, t3),
                    ),
                    spec_walk_schemas(sch_entries, t3) == (
                    match spec_walk_schemas(sch_entries.skip(n as int), graph@.names) {
                        Ok((c, w, t)) => Ok::<_, BuildErrorV>(
                            (
                                graph@.schemas + c,
                                warns_d@.map_values(|x: BuildWarning| x@) + w,
                                t,
                            ),
                        ),
                        Err(e) => Err(e),
                    }),
                decreases sections.schemas@.len() - n,
            {
                let (comps, warn) = schema_entry_components(
                    &sections.schemas[n].0,
                    &sections.schemas[n].1,
                );
                let ghost comps_map = comps@.map_values(|c: Component| c@);
                let ghost names_before = graph@.names;
                let ghost sch_before = graph@.schemas;
                let ghost warns_before = warns_d@.map_values(|x: BuildWarning| x@);
                proof {
                    lemma_walk_schemas_unfold(sch_entries, n as int, names_before);
                }
                match graph.add_schemas(comps) {
                    Err(e) => {
                        return Err(e);
                    },
                    Ok(()) => {},
                }
                match warn {
                    Some(w) => {
                        warns_d.push(w);
                    },
                    None => {},
                }
                proof {
                    let ghost warn_spec = spec_schema_entry(
                        sch_entries[n as int].0@,
                        sch_entries[n as int].1,
                    ).1;
                    assert(warns_d@.map_values(|x: BuildWarning| x@) =~= warns_before
                        + with_warning(Seq::empty(), warn_spec));
                    match spec_walk_schemas(sch_entries.skip(n + 1), graph@.names) {
                        Ok((c2, w2, t3x)) => {
                            assert((sch_before + comps_map) + c2 =~= sch_before + (comps_map
                                + c2));
                            assert((warns_before + with_warning(Seq::empty(), warn_spec)) + w2
                                =~= warns_before + (with_warning(Seq::empty(), warn_spec) + w2));
                        },
                        Err(_) => {},
                    }
                }
                n += 1;
            }
            proof {
                assert(sch_entries.skip(n as int).len() == 0);
                assert(graph@.schemas + Seq::<ComponentV>::empty() =~= graph@.schemas);
                assert(warns_d@.map_values(|x: BuildWarning| x@) + Seq::<BuildWarningV>::empty()
                    =~= warns_d@.map_values(|x: BuildWarning| x@));
                assert(spec_walk_schemas(sch_entries, t3) == Ok::<_, BuildErrorV>(
                    (
                        graph@.schemas,
                        warns_d@.map_values(|x: BuildWarning| x@),
                        graph@.names,
                    ),
                ));
                assert(graph@ =~= (ComponentsV {
                    parameters: par_done,
                    request_bodies: rb_done,
                    responses: resp_done,
                    schemas: graph@.schemas,
                    names: graph@.names,
                }));
                assert(spec_build(*doc) == Ok::<_, BuildErrorV>(
                    (
                        graph@,
                        warns_a@.map_values(|x: BuildWarning| x@) + warns_b@.map_values(
                            |x: BuildWarning| x@,
                        ) + warns_c@.map_values(|x: BuildWarning| x@) + warns_d@.map_values(
                            |x: BuildWarning| x@,
                        ),
                    ),
                ));
            }
        },
    }
    let ghost all_warns = warns_a@.map_values(|x: BuildWarning| x@) + warns_b@.map_values(
        |x: BuildWarning| x@,
    ) + warns_c@.map_values(|x: BuildWarning| x@) + warns_d@.map_values(|x: BuildWarning| x@);
    let mut warnings = warns_a;
    let mut warns_b = warns_b;
    let mut warns_c = warns_c;
    let mut warns_d = warns_d;
    warnings.append(&mut warns_b);
    warnings.append(&mut warns_c);
    warnings.append(&mut warns_d);
    proof {
        assert(warnings@.map_values(|x: BuildWarning| x@) =~= all_warns);
        assert(spec_build(*doc) == Ok::<_, BuildErrorV>(
            (graph@, warnings@.map_values(|x: BuildWarning| x@)),
        ));
    }
    Ok((graph, warnings))
}

} // verus!
