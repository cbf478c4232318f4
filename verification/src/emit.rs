//! The emission tree: structured source nodes, never concatenated text.
//!
//! Every printer produces nodes of this module, so that what reaches the
//! external pretty-printer is well formed by construction.  Each node type
//! carries a ghost mirror (`...V`) over `Seq<char>`, and the printers'
//! contracts pin the mirror of everything they emit.

use vstd::prelude::*;

verus! {

/// Ghost value of an optional string.
pub open spec fn opt_view(o: Option<String>) -> Option<Seq<char>> {
    match o {
        Some(s) => Some(s@),
        None => None,
    }
}

/// Clones an optional string; the clone carries the same value.
pub fn clone_opt_string(o: &Option<String>) -> (r: Option<String>)
    ensures
        r == *o,
{
    match o {
        Some(s) => Some(s.clone()),
        None => None,
    }
}

/// A generic wrapper applied around a type expression.
#[derive(Clone, Copy, PartialEq, Eq, Debug)]
pub enum TypeWrap {
    OptionOf,
    VecOf,
}

/// The base of a type expression: a single identifier or a `::` path.
#[derive(PartialEq, Eq, Debug)]
pub enum TypeBase {
    Named(String),
    Pathed(Vec<String>),
}

#[verifier::ext_equal]
pub enum TypeBaseV {
    Named(Seq<char>),
    Pathed(Seq<Seq<char>>),
}

impl View for TypeBase {
    type V = TypeBaseV;

    open spec fn view(&self) -> TypeBaseV {
        match self {
            TypeBase::Named(s) => TypeBaseV::Named(s@),
            TypeBase::Pathed(segments) => TypeBaseV::Pathed(
                segments@.map_values(|s: String| s@),
            ),
        }
    }
}

/// A type expression: a base wrapped in zero or more generic wrappers,
/// outermost first.
#[derive(PartialEq, Eq, Debug)]
pub struct TypeExpr {
    pub wrappers: Vec<TypeWrap>,
    pub base: TypeBase,
}

#[verifier::ext_equal]
pub struct TypeExprV {
    pub wrappers: Seq<TypeWrap>,
    pub base: TypeBaseV,
}

impl View for TypeExpr {
    type V = TypeExprV;

    open spec fn view(&self) -> TypeExprV {
        TypeExprV { wrappers: self.wrappers@, base: self.base@ }
    }
}

/// One emitted struct field, with its rename directive when the wire name
/// differs from the emitted name.
#[derive(PartialEq, Eq, Debug)]
pub struct FieldDecl {
    pub doc: Option<String>,
    pub rename: Option<String>,
    pub name: String,
    pub ty: TypeExpr,
}

#[verifier::ext_equal]
pub struct FieldDeclV {
    pub doc: Option<Seq<char>>,
    pub rename: Option<Seq<char>>,
    pub name: Seq<char>,
    pub ty: TypeExprV,
}

impl View for FieldDecl {
    type V = FieldDeclV;

    open spec fn view(&self) -> FieldDeclV {
        FieldDeclV {
            doc: opt_view(self.doc),
            rename: opt_view(self.rename),
            name: self.name@,
            ty: self.ty@,
        }
    }
}

/// One emitted unit enum variant, with its rename directive.
#[derive(PartialEq, Eq, Debug)]
pub struct VariantDecl {
    pub doc: Option<String>,
    pub rename: Option<String>,
    pub name: String,
}

#[verifier::ext_equal]
pub struct VariantDeclV {
    pub doc: Option<Seq<char>>,
    pub rename: Option<Seq<char>>,
    pub name: Seq<char>,
}

impl View for VariantDecl {
    type V = VariantDeclV;

    open spec fn view(&self) -> VariantDeclV {
        VariantDeclV { doc: opt_view(self.doc), rename: opt_view(self.rename), name: self.name@ }
    }
}

/// One emitted type declaration.
#[derive(PartialEq, Eq, Debug)]
pub enum Declaration {
    StructDecl { doc: Option<String>, name: String, fields: Vec<FieldDecl> },
    EnumDecl { doc: Option<String>, name: String, variants: Vec<VariantDecl> },
    AliasDecl { doc: Option<String>, name: String, ty: TypeExpr },
}

#[verifier::ext_equal]
pub enum DeclarationV {
    StructDecl { doc: Option<Seq<char>>, name: Seq<char>, fields: Seq<FieldDeclV> },
    EnumDecl { doc: Option<Seq<char>>, name: Seq<char>, variants: Seq<VariantDeclV> },
    AliasDecl { doc: Option<Seq<char>>, name: Seq<char>, ty: TypeExprV },
}

impl View for Declaration {
    type V = DeclarationV;

    open spec fn view(&self) -> DeclarationV {
        match self {
            Declaration::StructDecl { doc, name, fields } => DeclarationV::StructDecl {
                doc: opt_view(*doc),
                name: name@,
                fields: fields@.map_values(|f: FieldDecl| f@),
            },
            Declaration::EnumDecl { doc, name, variants } => DeclarationV::EnumDecl {
                doc: opt_view(*doc),
                name: name@,
                variants: variants@.map_values(|v: VariantDecl| v@),
            },
            Declaration::AliasDecl { doc, name, ty } => DeclarationV::AliasDecl {
                doc: opt_view(*doc),
                name: name@,
                ty: ty@,
            },
        }
    }
}

/// One namespace of the components module.
#[derive(PartialEq, Eq, Debug)]
pub struct NamespaceNode {
    pub name: String,
    pub decls: Vec<Declaration>,
}

#[verifier::ext_equal]
pub struct NamespaceNodeV {
    pub name: Seq<char>,
    pub decls: Seq<DeclarationV>,
}

impl View for NamespaceNode {
    type V = NamespaceNodeV;

    open spec fn view(&self) -> NamespaceNodeV {
        NamespaceNodeV {
            name: self.name@,
            decls: self.decls@.map_values(|d: Declaration| d@),
        }
    }
}

/// The components module: its four namespaces, in emission order.
#[derive(PartialEq, Eq, Debug)]
pub struct ComponentsNode {
    pub parameters: NamespaceNode,
    pub request_bodies: NamespaceNode,
    pub responses: NamespaceNode,
    pub schemas: NamespaceNode,
}

#[verifier::ext_equal]
pub struct ComponentsNodeV {
    pub parameters: NamespaceNodeV,
    pub request_bodies: NamespaceNodeV,
    pub responses: NamespaceNodeV,
    pub schemas: NamespaceNodeV,
}

impl View for ComponentsNode {
    type V = ComponentsNodeV;

    open spec fn view(&self) -> ComponentsNodeV {
        ComponentsNodeV {
            parameters: self.parameters@,
            request_bodies: self.request_bodies@,
            responses: self.responses@,
            schemas: self.schemas@,
        }
    }
}

/// One variant of an operation's response union: its label, optional
/// payload component, status-code constant and serialization content type.
#[derive(PartialEq, Eq, Debug)]
pub struct ResponseVariantNode {
    pub doc: Option<String>,
    pub name: String,
    pub payload: Option<String>,
    pub status_const: String,
    pub content_type: Option<String>,
}

#[verifier::ext_equal]
pub struct ResponseVariantNodeV {
    pub doc: Option<Seq<char>>,
    pub name: Seq<char>,
    pub payload: Option<Seq<char>>,
    pub status_const: Seq<char>,
    pub content_type: Option<Seq<char>>,
}

impl View for ResponseVariantNode {
    type V = ResponseVariantNodeV;

    open spec fn view(&self) -> ResponseVariantNodeV {
        ResponseVariantNodeV {
            doc: opt_view(self.doc),
            name: self.name@,
            payload: opt_view(self.payload),
            status_const: self.status_const@,
            content_type: opt_view(self.content_type),
        }
    }
}

/// One operation module: its response union and, when the operation
/// declares query parameters, the query-parameter type.
#[derive(PartialEq, Eq, Debug)]
pub struct OperationNode {
    pub module_name: String,
    pub response_variants: Vec<ResponseVariantNode>,
    pub query_fields: Vec<FieldDecl>,
}

#[verifier::ext_equal]
pub struct OperationNodeV {
    pub module_name: Seq<char>,
    pub response_variants: Seq<ResponseVariantNodeV>,
    pub query_fields: Seq<FieldDeclV>,
}

impl View for OperationNode {
    type V = OperationNodeV;

    open spec fn view(&self) -> OperationNodeV {
        OperationNodeV {
            module_name: self.module_name@,
            response_variants: self.response_variants@.map_values(|v: ResponseVariantNode| v@),
            query_fields: self.query_fields@.map_values(|f: FieldDecl| f@),
        }
    }
}

/// The paths module: one operation module per bound operation, grouped by
/// route scope in first-seen order.
#[derive(PartialEq, Eq, Debug)]
pub struct PathsNode {
    pub operations: Vec<OperationNode>,
}

#[verifier::ext_equal]
pub struct PathsNodeV {
    pub operations: Seq<OperationNodeV>,
}

impl View for PathsNode {
    type V = PathsNodeV;

    open spec fn view(&self) -> PathsNodeV {
        PathsNodeV { operations: self.operations@.map_values(|o: OperationNode| o@) }
    }
}

/// One handler-binding method of the api struct.
#[derive(PartialEq, Eq, Debug)]
pub struct BindNode {
    pub doc: Option<String>,
    pub fn_name: String,
    pub module_name: String,
    pub method_name: String,
    pub path: String,
}

#[verifier::ext_equal]
pub struct BindNodeV {
    pub doc: Option<Seq<char>>,
    pub fn_name: Seq<char>,
    pub module_name: Seq<char>,
    pub method_name: Seq<char>,
    pub path: Seq<char>,
}

impl View for BindNode {
    type V = BindNodeV;

    open spec fn view(&self) -> BindNodeV {
        BindNodeV {
            doc: opt_view(self.doc),
            fn_name: self.fn_name@,
            module_name: self.module_name@,
            method_name: self.method_name@,
            path: self.path@,
        }
    }
}

/// The scaffolding of the api struct itself.
#[derive(PartialEq, Eq, Debug)]
pub struct ApiStructNode {
    pub doc: Option<String>,
    pub name: String,
}

#[verifier::ext_equal]
pub struct ApiStructNodeV {
    pub doc: Option<Seq<char>>,
    pub name: Seq<char>,
}

impl View for ApiStructNode {
    type V = ApiStructNodeV;

    open spec fn view(&self) -> ApiStructNodeV {
        ApiStructNodeV { doc: opt_view(self.doc), name: self.name@ }
    }
}

/// The block of binding methods of the api struct.
#[derive(PartialEq, Eq, Debug)]
pub struct ApiImplNode {
    pub api_name: String,
    pub binds: Vec<BindNode>,
}

#[verifier::ext_equal]
pub struct ApiImplNodeV {
    pub api_name: Seq<char>,
    pub binds: Seq<BindNodeV>,
}

impl View for ApiImplNode {
    type V = ApiImplNodeV;

    open spec fn view(&self) -> ApiImplNodeV {
        ApiImplNodeV {
            api_name: self.api_name@,
            binds: self.binds@.map_values(|b: BindNode| b@),
        }
    }
}

/// The api module: the struct scaffolding and its binding methods.
#[derive(PartialEq, Eq, Debug)]
pub struct ApiNode {
    pub structure: ApiStructNode,
    pub methods: ApiImplNode,
}

#[verifier::ext_equal]
pub struct ApiNodeV {
    pub structure: ApiStructNodeV,
    pub methods: ApiImplNodeV,
}

impl View for ApiNode {
    type V = ApiNodeV;

    open spec fn view(&self) -> ApiNodeV {
        ApiNodeV { structure: self.structure@, methods: self.methods@ }
    }
}

/// The whole emitted compilation unit.
#[derive(PartialEq, Eq, Debug)]
pub struct EmissionTree {
    pub api: ApiNode,
    pub components: ComponentsNode,
    pub paths: PathsNode,
}

#[verifier::ext_equal]
pub struct EmissionTreeV {
    pub api: ApiNodeV,
    pub components: ComponentsNodeV,
    pub paths: PathsNodeV,
}

impl View for EmissionTree {
    type V = EmissionTreeV;

    open spec fn view(&self) -> EmissionTreeV {
        EmissionTreeV { api: self.api@, components: self.components@, paths: self.paths@ }
    }
}

/// Whether the two characters at `i` are a `::` separator.
pub open spec fn sep_at(s: Seq<char>, i: int) -> bool {
    &&& i + 2 <= s.len()
    &&& s[i] == ':'
    &&& s[i + 1] == ':'
}

/// The first `::` separator at or after `i`, if any.
pub open spec fn first_sep_from(s: Seq<char>, i: int) -> Option<int>
    decreases s.len() - i,
{
    if i < 0 || i + 2 > s.len() {
        None
    } else if sep_at(s, i) {
        Some(i)
    } else {
        first_sep_from(s, i + 1)
    }
}

/// The `::`-separated segments of a type path; a path without separators is
/// one segment.
pub open spec fn path_segments(s: Seq<char>) -> Seq<Seq<char>>
    decreases s.len(),
{
    match first_sep_from(s, 0) {
        None => seq![s],
        Some(i) => {
            if 0 <= i && i + 2 <= s.len() {
                seq![s.take(i)] + path_segments(s.skip(i + 2))
            } else {
                seq![s]
            }
        },
    }
}

proof fn lemma_first_sep_bounds(s: Seq<char>, i: int)
    ensures
        first_sep_from(s, i) matches Some(j) ==> i <= j && sep_at(s, j),
    decreases s.len() - i,
{
    if !(i < 0 || i + 2 > s.len()) && !sep_at(s, i) {
        lemma_first_sep_bounds(s, i + 1);
    }
}

/// Finds the first `::` separator of `s`.
fn find_sep(s: &str) -> (r: Option<usize>)
    ensures
        match r {
            Some(i) => first_sep_from(s@, 0) == Some(i as int),
            None => first_sep_from(s@, 0) is None,
        },
{
    let n = s.unicode_len();
    if n < 2 {
        return None;
    }
    let mut i: usize = 0;
    while i <= n - 2
        invariant
            n == s@.len(),
            2 <= n,
            i <= n,
            first_sep_from(s@, 0) == first_sep_from(s@, i as int),
        decreases n - i,
    {
        if s.get_char(i) == ':' && s.get_char(i + 1) == ':' {
            return Some(i);
        }
        i += 1;
    }
    None
}

/// Splits a `::` type path into its segments, as `path_segments` names
/// them.
pub fn split_type_path(s: &str) -> (r: Vec<String>)
    ensures
        r@.map_values(|x: String| x@) == path_segments(s@),
        r@.len() > 0,
    decreases s@.len(),
{
    let n = s.unicode_len();
    match find_sep(s) {
        None => {
            let mut out: Vec<String> = Vec::new();
            out.push(s.to_owned());
            proof {
                assert(out@.map_values(|x: String| x@) =~= path_segments(s@));
            }
            out
        },
        Some(i) => {
            proof {
                lemma_first_sep_bounds(s@, 0);
            }
            let head = s.substring_char(0, i).to_owned();
            let tail = s.substring_char(i + 2, n);
            proof {
                assert(tail@ =~= s@.skip(i + 2));
            }
            let mut rest = split_type_path(tail);
            rest.insert(0, head);
            proof {
                assert(head@ =~= s@.take(i as int));
                assert(rest@.map_values(|x: String| x@) =~= seq![s@.take(i as int)]
                    + path_segments(s@.skip(i + 2)));
            }
            rest
        },
    }
}

} // verus!
