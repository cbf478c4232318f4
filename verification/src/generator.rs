//! The one-shot generation pipeline: build the component graph, bind the
//! operations, and assemble the module that prints to the emission tree.

use vstd::prelude::*;

use crate::binder::{bind, spec_bind, BindError, BindErrorV, BoundOperation, BoundOperationV};
use crate::binder::{RouteScope, RouteScopeV};
use crate::document::Document;
use crate::emit::{clone_opt_string, opt_view};
use crate::highway::{build, spec_build, BuildError, BuildErrorV, BuildWarning, BuildWarningV};
use crate::highway::ComponentsV;
use crate::printer::api::{ApiModule, ApiModuleV, ApiStruct, ApiStructV, BindApiMethod};
use crate::printer::api::{BindApiMethodV, ImplApi, ImplApiV};
use crate::printer::components::ComponentsModuleV;
use crate::printer::paths::{Path, PathV, PathsModule, PathsModuleV};
use crate::printer::{tree_of_generated, GeneratedModule, GeneratedModuleV};

verus! {

/// The on-disk format of a document source; the caller's loader reads the
/// file and hands the parsed document in.
#[derive(Clone, Copy, PartialEq, Eq, Debug)]
pub enum Format {
    Yaml,
    Json,
}

/// Why a generation run failed; fatal conditions abort the whole run
/// rather than emit partial output.
#[derive(Debug)]
pub enum GenerationError {
    Build(BuildError),
    Bind(BindError),
    /// A component that the visitor pipeline could not resolve.
    UnresolvedComponent { name: String },
}

/// Ghost value of a `GenerationError`.
pub enum GenerationErrorV {
    Build(BuildErrorV),
    Bind(BindErrorV),
    UnresolvedComponent { name: Seq<char> },
}

impl View for GenerationError {
    type V = GenerationErrorV;

    open spec fn view(&self) -> GenerationErrorV {
        match self {
            GenerationError::Build(e) => GenerationErrorV::Build(e@),
            GenerationError::Bind(e) => GenerationErrorV::Bind(e@),
            GenerationError::UnresolvedComponent { name } => {
                GenerationErrorV::UnresolvedComponent { name: name@ }
            },
        }
    }
}

/// The bound operations of the scopes, flattened in scope order.
pub open spec fn spec_flatten(scopes: Seq<RouteScopeV>) -> Seq<BoundOperationV>
    decreases scopes.len(),
{
    if scopes.len() == 0 {
        Seq::empty()
    } else {
        scopes[0].operations + spec_flatten(scopes.skip(1))
    }
}

/// The binding method a bound operation contributes to the api struct.
pub open spec fn bind_method_of(op: BoundOperationV) -> BindApiMethodV {
    BindApiMethodV { method: op.method, path: op.path, name: op.name, request_body: op.request_body }
}

/// The operation module a bound operation contributes to the paths module.
pub open spec fn path_of_op(op: BoundOperationV) -> PathV {
    PathV { name: op.name, response: op.response, query_params: op.query_params }
}

/// The generated module of a document, its graph and its flattened
/// operations.
pub open spec fn spec_generated_module(
    doc: Document,
    graph: ComponentsV,
    ops: Seq<BoundOperationV>,
) -> GeneratedModuleV {
    GeneratedModuleV {
        api_module: ApiModuleV {
            structure: ApiStructV {
                api_name: doc.info.title@,
                terms_of_service: opt_view(doc.info.terms_of_service),
                description: opt_view(doc.info.description),
            },
            methods: ImplApiV {
                api_name: doc.info.title@,
                methods: ops.map_values(|o: BoundOperationV| bind_method_of(o)),
            },
        },
        components_module: ComponentsModuleV {
            parameters: graph.parameters,
            request_bodies: graph.request_bodies,
            responses: graph.responses,
            schemas: graph.schemas,
        },
        paths_module: PathsModuleV {
            paths: ops.map_values(|o: BoundOperationV| path_of_op(o)),
        },
    }
}

/// The whole generation run as a function of the document: the generated
/// module and the build warnings, or the first fatal finding.
pub open spec fn spec_generate(doc: Document) -> Result<
    (GeneratedModuleV, Seq<BuildWarningV>),
    GenerationErrorV,
> {
    match spec_build(doc) {
        Err(e) => Err(GenerationErrorV::Build(e)),
        Ok((graph, warnings)) => match spec_bind(doc, graph) {
            Err(e) => Err(GenerationErrorV::Bind(e)),
            Ok(scopes) => Ok((spec_generated_module(doc, graph, spec_flatten(scopes)), warnings)),
        },
    }
}

/// Determinism: the generated module, its warnings and its emission tree
/// are functions of the document alone, so two independent runs on one
/// document agree byte for byte.
pub proof fn lemma_generate_deterministic(
    doc: Document,
    g1: GeneratedModuleV,
    w1: Seq<BuildWarningV>,
    g2: GeneratedModuleV,
    w2: Seq<BuildWarningV>,
)
    requires
        spec_generate(doc) == Ok::<_, GenerationErrorV>((g1, w1)),
        spec_generate(doc) == Ok::<_, GenerationErrorV>((g2, w2)),
    ensures
        g1 == g2,
        w1 == w2,
        tree_of_generated(g1) == tree_of_generated(g2),
{
}

/// Flattens the scopes into one operation list, in scope order.
fn flatten_scopes(scopes: Vec<RouteScope>) -> (r: Vec<BoundOperation>)
    ensures
        r@.map_values(|o: BoundOperation| o@) == spec_flatten(
            scopes@.map_values(|s: RouteScope| s@),
        ),
{
    let ghost orig = scopes@.map_values(|s: RouteScope| s@);
    let mut scopes = scopes;
    let mut out: Vec<BoundOperation> = Vec::new();
    proof {
        assert(out@.map_values(|o: BoundOperation| o@) + spec_flatten(orig) =~= spec_flatten(
            orig,
        ));
    }
    while scopes.len() > 0
        invariant
            spec_flatten(orig) == out@.map_values(|o: BoundOperation| o@) + spec_flatten(
                scopes@.map_values(|s: RouteScope| s@),
            ),
        decreases scopes@.len(),
    {
        let ghost rem = scopes@.map_values(|s: RouteScope| s@);
        let mut scope = scopes.remove(0);
        let ghost out_before = out@.map_values(|o: BoundOperation| o@);
        let ghost scope_ops = scope.operations@.map_values(|o: BoundOperation| o@);
        out.append(&mut scope.operations);
        proof {
            assert(scopes@.map_values(|s: RouteScope| s@) =~= rem.skip(1));
            assert(out@.map_values(|o: BoundOperation| o@) =~= out_before + scope_ops);
            assert((out_before + scope_ops) + spec_flatten(rem.skip(1)) =~= out_before + (
            scope_ops + spec_flatten(rem.skip(1))));
        }
    }
    proof {
        assert(spec_flatten(scopes@.map_values(|s: RouteScope| s@)) =~= Seq::<
            BoundOperationV,
        >::empty());
        assert(out@.map_values(|o: BoundOperation| o@) + Seq::<BoundOperationV>::empty()
            =~= out@.map_values(|o: BoundOperation| o@));
    }
    out
}

/// Converts each bound operation into its binding method and its operation
/// module, consuming the list in order.
fn split_operations(ops: Vec<BoundOperation>) -> (r: (Vec<BindApiMethod>, Vec<Path>))
    ensures
        r.0@.map_values(|b: BindApiMethod| b@) == ops@.map_values(|o: BoundOperation| o@)
            .map_values(|o: BoundOperationV| bind_method_of(o)),
        r.1@.map_values(|p: Path| p@) == ops@.map_values(|o: BoundOperation| o@).map_values(
            |o: BoundOperationV| path_of_op(o),
        ),
{
    let ghost orig = ops@.map_values(|o: BoundOperation| o@);
    let mut ops = ops;
    let mut binds: Vec<BindApiMethod> = Vec::new();
    let mut paths: Vec<Path> = Vec::new();
    let ghost done: int = 0;
    while ops.len() > 0
        invariant
            0 <= done <= orig.len(),
            ops@.map_values(|o: BoundOperation| o@) == orig.skip(done),
            binds@.map_values(|b: BindApiMethod| b@) == orig.take(done).map_values(
                |o: BoundOperationV| bind_method_of(o),
            ),
            paths@.map_values(|p: Path| p@) == orig.take(done).map_values(
                |o: BoundOperationV| path_of_op(o),
            ),
        decreases ops@.len(),
    {
        proof {
            assert(orig.skip(done).len() == orig.len() - done);
            assert(orig.skip(done)[0] == orig[done]);
        }
        let op = ops.remove(0);
        proof {
            assert(op@ =~= orig[done]);
        }
        let bind_method = BindApiMethod {
            method: op.method,
            path: op.path.clone(),
            name: op.name.clone(),
            request_body: clone_opt_string(&op.request_body),
        };
        let path_item = Path {
            name: op.name,
            response: op.response,
            query_params: op.query_params,
        };
        proof {
            assert(bind_method@ =~= bind_method_of(orig[done]));
            assert(path_item@ =~= path_of_op(orig[done]));
        }
        let ghost binds_before = binds@.map_values(|b: BindApiMethod| b@);
        let ghost paths_before = paths@.map_values(|p: Path| p@);
        binds.push(bind_method);
        paths.push(path_item);
        proof {
            assert(binds@.map_values(|b: BindApiMethod| b@) =~= binds_before.push(
                binds@[binds@.len() - 1]@,
            ));
            assert(paths@.map_values(|p: Path| p@) =~= paths_before.push(
                paths@[paths@.len() - 1]@,
            ));
        }
        proof {
            assert(ops@.map_values(|o: BoundOperation| o@) =~= orig.skip(done).skip(1));
            assert(orig.skip(done).skip(1) =~= orig.skip(done + 1));
            assert(orig.take(done + 1).drop_last() =~= orig.take(done));
            assert(orig.take(done + 1).last() == orig[done]);
            assert(binds@.map_values(|b: BindApiMethod| b@) =~= orig.take(done + 1).map_values(
                |o: BoundOperationV| bind_method_of(o),
            ));
            assert(paths@.map_values(|p: Path| p@) =~= orig.take(done + 1).map_values(
                |o: BoundOperationV| path_of_op(o),
            ));
        }
        proof {
            done = done + 1;
        }
    }
    proof {
        assert(orig.take(done) =~= orig);
    }
    (binds, paths)
}

/// Runs the whole pipeline on a document, as `spec_generate` names it: the
/// generated module ready for printing and the warnings for skipped
/// components, or the first fatal finding.
pub fn generate(doc: &Document) -> (r: Result<
    (GeneratedModule, Vec<BuildWarning>),
    GenerationError,
>)
    ensures
        match r {
            Ok((g, ws)) => spec_generate(*doc) == Ok::<_, GenerationErrorV>(
                (g@, ws@.map_values(|w: BuildWarning| w@)),
            ),
            Err(e) => spec_generate(*doc) == Err::<(GeneratedModuleV, Seq<BuildWarningV>), _>(e@),
        },
{
    let (graph, warnings) = match build(doc) {
        Err(e) => {
            return Err(GenerationError::Build(e));
        },
        Ok(x) => x,
    };
    let scopes = match bind(doc, &graph) {
        Err(e) => {
            return Err(GenerationError::Bind(e));
        },
        Ok(s) => s,
    };
    let ops = flatten_scopes(scopes);
    let (binds, paths) = split_operations(ops);
    let generated = GeneratedModule {
        api_module: ApiModule {
            structure: ApiStruct {
                api_name: doc.info.title.clone(),
                terms_of_service: clone_opt_string(&doc.info.terms_of_service),
                description: clone_opt_string(&doc.info.description),
            },
            methods: ImplApi { api_name: doc.info.title.clone(), methods: binds },
        },
        components_module: graph.into_modules(),
        paths_module: PathsModule { paths },
    };
    proof {
        assert(generated@ =~~= spec_generate(*doc)->Ok_0.0);
    }
    Ok((generated, warnings))
}

} // verus!
