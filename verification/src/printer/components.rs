//! Printers for the components module: one declaration per named component,
//! grouped into the four namespaces.

use vstd::prelude::*;

pub use crate::document::{FormatFloat, FormatInteger, FormatString};

use crate::emit::{clone_opt_string, opt_view, path_segments, split_type_path};
use crate::emit::{Declaration, DeclarationV, FieldDecl, FieldDeclV, NamespaceNode, NamespaceNodeV};
use crate::emit::{ComponentsNode, ComponentsNodeV, TypeBase, TypeBaseV, TypeExpr, TypeExprV};
use crate::emit::{TypeWrap, VariantDecl, VariantDeclV};
use crate::naming::{field_name_of, needs_rename, to_field_name, to_struct_name, to_variant_name};
use crate::naming::{type_name_of, variant_name_of};

verus! {

/// A scalar of the target language.
#[allow(inconsistent_fields)]
pub enum NativeType {
    Integer { format: FormatInteger },
    Float { format: FormatFloat },
    Text { format: FormatString },
    Boolean,
}

/// Ghost value of a `FormatString`; only the pattern variant carries data.
#[verifier::ext_equal]
pub enum FormatStringV {
    Plain,
    Binary,
    Byte,
    Date,
    DateTime,
    Email,
    Hostname,
    Ipv4,
    Ipv6,
    Password,
    Url,
    Uuid,
    Pattern(Seq<char>),
}

impl View for FormatString {
    type V = FormatStringV;

    open spec fn view(&self) -> FormatStringV {
        match self {
            FormatString::Plain => FormatStringV::Plain,
            FormatString::Binary => FormatStringV::Binary,
            FormatString::Byte => FormatStringV::Byte,
            FormatString::Date => FormatStringV::Date,
            FormatString::DateTime => FormatStringV::DateTime,
            FormatString::Email => FormatStringV::Email,
            FormatString::Hostname => FormatStringV::Hostname,
            FormatString::Ipv4 => FormatStringV::Ipv4,
            FormatString::Ipv6 => FormatStringV::Ipv6,
            FormatString::Password => FormatStringV::Password,
            FormatString::Url => FormatStringV::Url,
            FormatString::Uuid => FormatStringV::Uuid,
            FormatString::Pattern(p) => FormatStringV::Pattern(p@),
        }
    }
}

#[allow(inconsistent_fields)]
#[verifier::ext_equal]
pub enum NativeTypeV {
    Integer { format: FormatInteger },
    Float { format: FormatFloat },
    Text { format: FormatStringV },
    Boolean,
}

impl View for NativeType {
    type V = NativeTypeV;

    open spec fn view(&self) -> NativeTypeV {
        match self {
            NativeType::Integer { format } => NativeTypeV::Integer { format: *format },
            NativeType::Float { format } => NativeTypeV::Float { format: *format },
            NativeType::Text { format } => NativeTypeV::Text { format: format@ },
            NativeType::Boolean => NativeTypeV::Boolean,
        }
    }
}

/// The type of a field: a scalar, a named component of the same namespace,
/// an array, or a target-language path injected verbatim.
pub enum FieldType {
    Native(NativeType),
    Custom(String),
    Array(Box<FieldType>),
    Internal(String),
}

/// The base under the array nesting of a `FieldType`.
#[verifier::ext_equal]
pub enum FieldBaseV {
    Native(NativeTypeV),
    Custom(Seq<char>),
    Internal(Seq<char>),
}

/// Ghost value of a `FieldType`: arrays only ever nest, so the value is the
/// nesting depth over a non-array base.
#[verifier::ext_equal]
pub struct FieldTypeV {
    pub array_depth: nat,
    pub base: FieldBaseV,
}

pub open spec fn field_type_view(t: FieldType) -> FieldTypeV
    decreases t,
{
    match t {
        FieldType::Native(n) => FieldTypeV { array_depth: 0, base: FieldBaseV::Native(n@) },
        FieldType::Custom(name) => FieldTypeV { array_depth: 0, base: FieldBaseV::Custom(name@) },
        FieldType::Internal(path) => FieldTypeV {
            array_depth: 0,
            base: FieldBaseV::Internal(path@),
        },
        FieldType::Array(inner) => {
            let v = field_type_view(*inner);
            FieldTypeV { array_depth: v.array_depth + 1, base: v.base }
        },
    }
}

impl View for FieldType {
    type V = FieldTypeV;

    open spec fn view(&self) -> FieldTypeV {
        field_type_view(*self)
    }
}

impl FieldType {
    pub fn native_float(format: FormatFloat) -> (r: Self)
        ensures
            r@ == (FieldTypeV { array_depth: 0, base: FieldBaseV::Native(NativeTypeV::Float { format }) }),
    {
        Self::Native(NativeType::Float { format })
    }

    pub fn native_integer(format: FormatInteger) -> (r: Self)
        ensures
            r@ == (FieldTypeV {
                array_depth: 0,
                base: FieldBaseV::Native(NativeTypeV::Integer { format }),
            }),
    {
        Self::Native(NativeType::Integer { format })
    }

    pub fn native_string(format: FormatString) -> (r: Self)
        ensures
            r@ == (FieldTypeV {
                array_depth: 0,
                base: FieldBaseV::Native(NativeTypeV::Text { format: format@ }),
            }),
    {
        Self::Native(NativeType::Text { format })
    }

    pub fn native_boolean() -> (r: Self)
        ensures
            r@ == (FieldTypeV { array_depth: 0, base: FieldBaseV::Native(NativeTypeV::Boolean) }),
    {
        Self::Native(NativeType::Boolean)
    }

    pub fn array(item: FieldType) -> (r: Self)
        ensures
            r@ == (FieldTypeV { array_depth: item@.array_depth + 1, base: item@.base }),
    {
        Self::Array(Box::new(item))
    }
}

/// The emitted name of a scalar type.
pub open spec fn native_type_name(n: NativeTypeV) -> Seq<char> {
    match n {
        NativeTypeV::Integer { format: FormatInteger::Int32 } => "i32"@,
        NativeTypeV::Integer { format: FormatInteger::Int64 } => "i64"@,
        NativeTypeV::Float { format: FormatFloat::Float } => "f32"@,
        NativeTypeV::Float { format: FormatFloat::Double } => "f64"@,
        NativeTypeV::Text { format: _ } => "String"@,
        NativeTypeV::Boolean => "bool"@,
    }
}

/// The type expression a field type prints to: the array nesting as `Vec`
/// wrappers around the base.
pub open spec fn type_expr_of(t: FieldTypeV) -> TypeExprV {
    TypeExprV {
        wrappers: Seq::new(t.array_depth, |i: int| TypeWrap::VecOf),
        base: match t.base {
            FieldBaseV::Native(n) => TypeBaseV::Named(native_type_name(n)),
            FieldBaseV::Custom(name) => TypeBaseV::Named(name),
            FieldBaseV::Internal(path) => TypeBaseV::Pathed(path_segments(path)),
        },
    }
}

impl NativeType {
    /// The emitted name of this scalar.
    pub fn print(&self) -> (r: String)
        ensures
            r@ == native_type_name(self@),
    {
        match self {
            NativeType::Integer { format: FormatInteger::Int32 } => String::from_str("i32"),
            NativeType::Integer { format: FormatInteger::Int64 } => String::from_str("i64"),
            NativeType::Float { format: FormatFloat::Float } => String::from_str("f32"),
            NativeType::Float { format: FormatFloat::Double } => String::from_str("f64"),
            NativeType::Text { format: _ } => String::from_str("String"),
            NativeType::Boolean => String::from_str("bool"),
        }
    }
}

impl FieldType {
    /// The type expression this field type prints to.
    pub fn print(&self) -> (r: TypeExpr)
        ensures
            r@ == type_expr_of(self@),
        decreases *self,
    {
        match self {
            FieldType::Native(n) => {
                let r = TypeExpr { wrappers: Vec::new(), base: TypeBase::Named(n.print()) };
                proof {
                    assert(r@ =~= type_expr_of(self@));
                }
                r
            },
            FieldType::Custom(name) => {
                let r = TypeExpr { wrappers: Vec::new(), base: TypeBase::Named(name.clone()) };
                proof {
                    assert(r@ =~= type_expr_of(self@));
                }
                r
            },
            FieldType::Internal(path) => {
                let segments = split_type_path(path.as_str());
                let r = TypeExpr { wrappers: Vec::new(), base: TypeBase::Pathed(segments) };
                proof {
                    assert(r@ =~= type_expr_of(self@));
                }
                r
            },
            FieldType::Array(inner) => {
                let mut r = inner.print();
                r.wrappers.insert(0, TypeWrap::VecOf);
                proof {
                    assert(r@.wrappers =~= Seq::new(self@.array_depth, |i: int| TypeWrap::VecOf));
                }
                r
            },
        }
    }
}

/// Field in an emitted object definition, under its wire name.
pub struct Field {
    pub name: String,
    pub required: bool,
    pub description: Option<String>,
    pub field_type: FieldType,
}

#[verifier::ext_equal]
pub struct FieldV {
    pub name: Seq<char>,
    pub required: bool,
    pub description: Option<Seq<char>>,
    pub field_type: FieldTypeV,
}

impl View for Field {
    type V = FieldV;

    open spec fn view(&self) -> FieldV {
        FieldV {
            name: self.name@,
            required: self.required,
            description: opt_view(self.description),
            field_type: self.field_type@,
        }
    }
}

/// The field declaration a field prints to: snake_case name, a rename
/// directive when that differs from the wire name, and an `Option` wrapper
/// when the field is not required.
pub open spec fn field_decl_of(f: FieldV) -> FieldDeclV {
    FieldDeclV {
        doc: f.description,
        rename: if field_name_of(f.name) == f.name {
            None
        } else {
            Some(f.name)
        },
        name: field_name_of(f.name),
        ty: {
            let t = type_expr_of(f.field_type);
            if f.required {
                t
            } else {
                TypeExprV { wrappers: seq![TypeWrap::OptionOf] + t.wrappers, base: t.base }
            }
        },
    }
}

impl Field {
    pub fn print(&self) -> (r: FieldDecl)
        ensures
            r@ == field_decl_of(self@),
    {
        let name_snake = to_field_name(self.name.as_str());
        let rename = if needs_rename(self.name.as_str(), &name_snake) {
            Some(self.name.clone())
        } else {
            None
        };
        let mut ty = self.field_type.print();
        if !self.required {
            ty.wrappers.insert(0, TypeWrap::OptionOf);
        }
        let r = FieldDecl { doc: clone_opt_string(&self.description), rename, name: name_snake, ty };
        proof {
            assert(r@.ty =~= field_decl_of(self@).ty);
            assert(r@ =~= field_decl_of(self@));
        }
        r
    }
}

/// One variant of an emitted string enum, under its wire name.
pub struct EnumVariant {
    pub name: String,
    pub description: Option<String>,
}

#[verifier::ext_equal]
pub struct EnumVariantV {
    pub name: Seq<char>,
    pub description: Option<Seq<char>>,
}

impl View for EnumVariant {
    type V = EnumVariantV;

    open spec fn view(&self) -> EnumVariantV {
        EnumVariantV { name: self.name@, description: opt_view(self.description) }
    }
}

/// The variant declaration an enum variant prints to: PascalCase name and a
/// rename directive when that differs from the wire name.
pub open spec fn variant_decl_of(v: EnumVariantV) -> VariantDeclV {
    VariantDeclV {
        doc: v.description,
        rename: if variant_name_of(v.name) == v.name {
            None
        } else {
            Some(v.name)
        },
        name: variant_name_of(v.name),
    }
}

impl EnumVariant {
    pub fn print(&self) -> (r: VariantDecl)
        ensures
            r@ == variant_decl_of(self@),
    {
        let name_pascal = to_variant_name(self.name.as_str());
        let rename = if needs_rename(self.name.as_str(), &name_pascal) {
            Some(self.name.clone())
        } else {
            None
        };
        VariantDecl { doc: clone_opt_string(&self.description), rename, name: name_pascal }
    }
}

/// One named component: an object, a string enum, or a type alias.
pub enum Component {
    Object { name: String, description: Option<String>, fields: Vec<Field> },
    Enum { name: String, description: Option<String>, variants: Vec<EnumVariant> },
    Type { name: String, description: Option<String>, type_value: FieldType },
}

#[verifier::ext_equal]
pub enum ComponentV {
    Object { name: Seq<char>, description: Option<Seq<char>>, fields: Seq<FieldV> },
    Enum { name: Seq<char>, description: Option<Seq<char>>, variants: Seq<EnumVariantV> },
    Type { name: Seq<char>, description: Option<Seq<char>>, type_value: FieldTypeV },
}

impl View for Component {
    type V = ComponentV;

    open spec fn view(&self) -> ComponentV {
        match self {
            Component::Object { name, description, fields } => ComponentV::Object {
                name: name@,
                description: opt_view(*description),
                fields: fields@.map_values(|f: Field| f@),
            },
            Component::Enum { name, description, variants } => ComponentV::Enum {
                name: name@,
                description: opt_view(*description),
                variants: variants@.map_values(|v: EnumVariant| v@),
            },
            Component::Type { name, description, type_value } => ComponentV::Type {
                name: name@,
                description: opt_view(*description),
                type_value: type_value@,
            },
        }
    }
}

impl Component {
    /// The name this component declares, before case conversion.
    pub fn name(&self) -> (r: &String)
        ensures
            r@ == component_name(self@),
    {
        match self {
            Component::Object { name, .. } => name,
            Component::Enum { name, .. } => name,
            Component::Type { name, .. } => name,
        }
    }
}

/// Clones a string format; the clone carries the same ghost value.
pub fn clone_format_string(f: &FormatString) -> (r: FormatString)
    ensures
        r@ == f@,
{
    match f {
        FormatString::Plain => FormatString::Plain,
        FormatString::Binary => FormatString::Binary,
        FormatString::Byte => FormatString::Byte,
        FormatString::Date => FormatString::Date,
        FormatString::DateTime => FormatString::DateTime,
        FormatString::Email => FormatString::Email,
        FormatString::Hostname => FormatString::Hostname,
        FormatString::Ipv4 => FormatString::Ipv4,
        FormatString::Ipv6 => FormatString::Ipv6,
        FormatString::Password => FormatString::Password,
        FormatString::Url => FormatString::Url,
        FormatString::Uuid => FormatString::Uuid,
        FormatString::Pattern(p) => FormatString::Pattern(p.clone()),
    }
}

/// The name a component declares, before case conversion.
pub open spec fn component_name(c: ComponentV) -> Seq<char> {
    match c {
        ComponentV::Object { name, .. } => name,
        ComponentV::Enum { name, .. } => name,
        ComponentV::Type { name, .. } => name,
    }
}

/// The declaration a component prints to: a PascalCase type under its doc
/// comment.
pub open spec fn component_decl_of(c: ComponentV) -> DeclarationV {
    match c {
        ComponentV::Object { name, description, fields } => DeclarationV::StructDecl {
            doc: description,
            name: type_name_of(name),
            fields: fields.map_values(|f: FieldV| field_decl_of(f)),
        },
        ComponentV::Enum { name, description, variants } => DeclarationV::EnumDecl {
            doc: description,
            name: type_name_of(name),
            variants: variants.map_values(|v: EnumVariantV| variant_decl_of(v)),
        },
        ComponentV::Type { name, description, type_value } => DeclarationV::AliasDecl {
            doc: description,
            name: type_name_of(name),
            ty: type_expr_of(type_value),
        },
    }
}

fn print_fields(fields: &Vec<Field>) -> (r: Vec<FieldDecl>)
    ensures
        r@.map_values(|d: FieldDecl| d@) == fields@.map_values(|f: Field| f@).map_values(
            |f: FieldV| field_decl_of(f),
        ),
{
    let mut out: Vec<FieldDecl> = Vec::new();
    let mut i: usize = 0;
    while i < fields.len()
        invariant
            i <= fields@.len(),
            out@.len() == i,
            forall|j: int| 0 <= j < i ==> #[trigger] out@[j]@ == field_decl_of(fields@[j]@),
        decreases fields@.len() - i,
    {
        out.push(fields[i].print());
        i += 1;
    }
    proof {
        assert(out@.map_values(|d: FieldDecl| d@) =~= fields@.map_values(|f: Field| f@).map_values(
            |f: FieldV| field_decl_of(f),
        ));
    }
    out
}

fn print_variants(variants: &Vec<EnumVariant>) -> (r: Vec<VariantDecl>)
    ensures
        r@.map_values(|d: VariantDecl| d@) == variants@.map_values(|v: EnumVariant| v@).map_values(
            |v: EnumVariantV| variant_decl_of(v),
        ),
{
    let mut out: Vec<VariantDecl> = Vec::new();
    let mut i: usize = 0;
    while i < variants.len()
        invariant
            i <= variants@.len(),
            out@.len() == i,
            forall|j: int| 0 <= j < i ==> #[trigger] out@[j]@ == variant_decl_of(variants@[j]@),
        decreases variants@.len() - i,
    {
        out.push(variants[i].print());
        i += 1;
    }
    proof {
        assert(out@.map_values(|d: VariantDecl| d@) =~= variants@.map_values(
            |v: EnumVariant| v@,
        ).map_values(|v: EnumVariantV| variant_decl_of(v)));
    }
    out
}

impl Component {
    pub fn print(&self) -> (r: Declaration)
        ensures
            r@ == component_decl_of(self@),
    {
        match self {
            Component::Object { name, description, fields } => {
                let r = Declaration::StructDecl {
                    doc: clone_opt_string(description),
                    name: to_struct_name(name.as_str()),
                    fields: print_fields(fields),
                };
                proof {
                    assert(r@ =~= component_decl_of(self@));
                }
                r
            },
            Component::Enum { name, description, variants } => {
                let r = Declaration::EnumDecl {
                    doc: clone_opt_string(description),
                    name: to_struct_name(name.as_str()),
                    variants: print_variants(variants),
                };
                proof {
                    assert(r@ =~= component_decl_of(self@));
                }
                r
            },
            Component::Type { name, description, type_value } => {
                let r = Declaration::AliasDecl {
                    doc: clone_opt_string(description),
                    name: to_struct_name(name.as_str()),
                    ty: type_value.print(),
                };
                proof {
                    assert(r@ =~= component_decl_of(self@));
                }
                r
            },
        }
    }
}

/// The declarations of a list of components, in list order.
pub fn print_components(list: &Vec<Component>) -> (r: Vec<Declaration>)
    ensures
        r@.map_values(|d: Declaration| d@) == list@.map_values(|c: Component| c@).map_values(
            |c: ComponentV| component_decl_of(c),
        ),
{
    let mut out: Vec<Declaration> = Vec::new();
    let mut i: usize = 0;
    while i < list.len()
        invariant
            i <= list@.len(),
            out@.len() == i,
            forall|j: int| 0 <= j < i ==> #[trigger] out@[j]@ == component_decl_of(list@[j]@),
        decreases list@.len() - i,
    {
        out.push(list[i].print());
        i += 1;
    }
    proof {
        assert(out@.map_values(|d: Declaration| d@) =~= list@.map_values(
            |c: Component| c@,
        ).map_values(|c: ComponentV| component_decl_of(c)));
    }
    out
}

/// The namespace node a component list prints to under a namespace name.
pub open spec fn namespace_of(name: Seq<char>, list: Seq<ComponentV>) -> NamespaceNodeV {
    NamespaceNodeV { name, decls: list.map_values(|c: ComponentV| component_decl_of(c)) }
}

/// The `parameters` namespace.
pub struct ParametersModule {
    pub list: Vec<Component>,
}

impl View for ParametersModule {
    type V = Seq<ComponentV>;

    open spec fn view(&self) -> Seq<ComponentV> {
        self.list@.map_values(|c: Component| c@)
    }
}

impl Default for ParametersModule {
    fn default() -> (r: Self)
        ensures
            r@ =~= Seq::<ComponentV>::empty(),
    {
        ParametersModule { list: Vec::new() }
    }
}

impl ParametersModule {
    pub fn print(&self) -> (r: NamespaceNode)
        ensures
            r@ == namespace_of("parameters"@, self@),
    {
        let r = NamespaceNode { name: String::from_str("parameters"), decls: print_components(&self.list) };
        proof {
            assert(r@ =~= namespace_of("parameters"@, self@));
        }
        r
    }
}

/// The `request_bodies` namespace.
pub struct RequestBodiesModule {
    pub list: Vec<Component>,
}

impl View for RequestBodiesModule {
    type V = Seq<ComponentV>;

    open spec fn view(&self) -> Seq<ComponentV> {
        self.list@.map_values(|c: Component| c@)
    }
}

impl Default for RequestBodiesModule {
    fn default() -> (r: Self)
        ensures
            r@ =~= Seq::<ComponentV>::empty(),
    {
        RequestBodiesModule { list: Vec::new() }
    }
}

impl RequestBodiesModule {
    pub fn print(&self) -> (r: NamespaceNode)
        ensures
            r@ == namespace_of("request_bodies"@, self@),
    {
        let r = NamespaceNode {
            name: String::from_str("request_bodies"),
            decls: print_components(&self.list),
        };
        proof {
            assert(r@ =~= namespace_of("request_bodies"@, self@));
        }
        r
    }
}

/// The `responses` namespace.
pub struct ResponsesModule {
    pub list: Vec<Component>,
}

impl View for ResponsesModule {
    type V = Seq<ComponentV>;

    open spec fn view(&self) -> Seq<ComponentV> {
        self.list@.map_values(|c: Component| c@)
    }
}

impl Default for ResponsesModule {
    fn default() -> (r: Self)
        ensures
            r@ =~= Seq::<ComponentV>::empty(),
    {
        ResponsesModule { list: Vec::new() }
    }
}

impl ResponsesModule {
    pub fn print(&self) -> (r: NamespaceNode)
        ensures
            r@ == namespace_of("responses"@, self@),
    {
        let r = NamespaceNode { name: String::from_str("responses"), decls: print_components(&self.list) };
        proof {
            assert(r@ =~= namespace_of("responses"@, self@));
        }
        r
    }
}

/// The `schemas` namespace.
pub struct SchemasModule {
    pub list: Vec<Component>,
}

impl View for SchemasModule {
    type V = Seq<ComponentV>;

    open spec fn view(&self) -> Seq<ComponentV> {
        self.list@.map_values(|c: Component| c@)
    }
}

impl Default for SchemasModule {
    fn default() -> (r: Self)
        ensures
            r@ =~= Seq::<ComponentV>::empty(),
    {
        SchemasModule { list: Vec::new() }
    }
}

impl SchemasModule {
    pub fn print(&self) -> (r: NamespaceNode)
        ensures
            r@ == namespace_of("schemas"@, self@),
    {
        let r = NamespaceNode { name: String::from_str("schemas"), decls: print_components(&self.list) };
        proof {
            assert(r@ =~= namespace_of("schemas"@, self@));
        }
        r
    }
}

/// The whole components module.
pub struct ComponentsModule {
    pub parameters: ParametersModule,
    pub request_bodies: RequestBodiesModule,
    pub responses: ResponsesModule,
    pub schemas: SchemasModule,
}

#[verifier::ext_equal]
pub struct ComponentsModuleV {
    pub parameters: Seq<ComponentV>,
    pub request_bodies: Seq<ComponentV>,
    pub responses: Seq<ComponentV>,
    pub schemas: Seq<ComponentV>,
}

impl View for ComponentsModule {
    type V = ComponentsModuleV;

    open spec fn view(&self) -> ComponentsModuleV {
        ComponentsModuleV {
            parameters: self.parameters@,
            request_bodies: self.request_bodies@,
            responses: self.responses@,
            schemas: self.schemas@,
        }
    }
}

impl Default for ComponentsModule {
    fn default() -> (r: Self)
        ensures
            r@ =~= (ComponentsModuleV {
                parameters: Seq::empty(),
                request_bodies: Seq::empty(),
                responses: Seq::empty(),
                schemas: Seq::empty(),
            }),
    {
        ComponentsModule {
            parameters: ParametersModule::default(),
            request_bodies: RequestBodiesModule::default(),
            responses: ResponsesModule::default(),
            schemas: SchemasModule::default(),
        }
    }
}

/// The components node a components module prints to: the four namespaces
/// in the fixed emission order.
pub open spec fn components_node_of(m: ComponentsModuleV) -> ComponentsNodeV {
    ComponentsNodeV {
        parameters: namespace_of("parameters"@, m.parameters),
        request_bodies: namespace_of("request_bodies"@, m.request_bodies),
        responses: namespace_of("responses"@, m.responses),
        schemas: namespace_of("schemas"@, m.schemas),
    }
}

impl ComponentsModule {
    pub fn print(&self) -> (r: ComponentsNode)
        ensures
            r@ == components_node_of(self@),
    {
        ComponentsNode {
            parameters: self.parameters.print(),
            request_bodies: self.request_bodies.print(),
            responses: self.responses.print(),
            schemas: self.schemas.print(),
        }
    }
}

} // verus!
