//! Printers: from the built component graph and bound operations to the
//! emission tree.  Each printer is a pure constructor whose contract pins
//! the ghost value of the node it emits.

pub mod api;
pub mod components;
pub mod paths;

use vstd::prelude::*;

use crate::emit::{EmissionTree, EmissionTreeV};

verus! {

use crate::printer::api::{ApiModule, ApiModuleV};
use crate::printer::components::{ComponentsModule, ComponentsModuleV};
use crate::printer::paths::{PathsModule, PathsModuleV};

/// Everything the generator emits: the api module, the components module
/// and the paths module.
pub struct GeneratedModule {
    pub api_module: ApiModule,
    pub components_module: ComponentsModule,
    pub paths_module: PathsModule,
}

#[verifier::ext_equal]
pub struct GeneratedModuleV {
    pub api_module: ApiModuleV,
    pub components_module: ComponentsModuleV,
    pub paths_module: PathsModuleV,
}

impl View for GeneratedModule {
    type V = GeneratedModuleV;

    open spec fn view(&self) -> GeneratedModuleV {
        GeneratedModuleV {
            api_module: self.api_module@,
            components_module: self.components_module@,
            paths_module: self.paths_module@,
        }
    }
}

/// The emission tree of a generated module.
pub open spec fn tree_of_generated(g: GeneratedModuleV) -> EmissionTreeV {
    EmissionTreeV {
        api: crate::printer::api::api_node_of(g.api_module),
        components: crate::printer::components::components_node_of(g.components_module),
        paths: crate::printer::paths::paths_node_of(g.paths_module),
    }
}

impl GeneratedModule {
    /// Renames the generated api struct, in its declaration and in its
    /// method block alike.
    pub fn set_name(&mut self, name: String)
        ensures
            final(self)@ == (GeneratedModuleV {
                api_module: ApiModuleV {
                    structure: crate::printer::api::ApiStructV {
                        api_name: name@,
                        ..old(self)@.api_module.structure
                    },
                    methods: crate::printer::api::ImplApiV {
                        api_name: name@,
                        ..old(self)@.api_module.methods
                    },
                },
                ..old(self)@
            }),
    {
        self.api_module.set_name(name);
    }

    /// Sets the doc description of the generated api struct.
    pub fn set_description(&mut self, description: Option<String>)
        ensures
            final(self)@ == (GeneratedModuleV {
                api_module: ApiModuleV {
                    structure: crate::printer::api::ApiStructV {
                        description: crate::emit::opt_view(description),
                        ..old(self)@.api_module.structure
                    },
                    ..old(self)@.api_module
                },
                ..old(self)@
            }),
    {
        self.api_module.set_description(description);
    }

    /// Sets the terms-of-service link of the generated api struct.
    pub fn set_terms_of_service(&mut self, terms: Option<String>)
        ensures
            final(self)@ == (GeneratedModuleV {
                api_module: ApiModuleV {
                    structure: crate::printer::api::ApiStructV {
                        terms_of_service: crate::emit::opt_view(terms),
                        ..old(self)@.api_module.structure
                    },
                    ..old(self)@.api_module
                },
                ..old(self)@
            }),
    {
        self.api_module.set_terms_of_service(terms);
    }

    /// Emits the whole tree.
    pub fn print(&self) -> (r: EmissionTree)
        ensures
            r@ == tree_of_generated(self@),
    {
        let api = self.api_module.print();
        let components = self.components_module.print();
        let paths = self.paths_module.print();
        EmissionTree { api, components, paths }
    }
}

} // verus!
