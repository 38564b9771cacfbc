//! Descriptor list consumed by the management surface: a collection of
//! module descriptors, carried as an immutable value object.

use vstd::prelude::*;

verus! {

/// Descriptor for one managed module.
#[derive(Debug)]
pub struct ModuleDetails {
    name: String,
}

impl ModuleDetails {
    pub closed spec fn name_spec(&self) -> Seq<char> {
        self.name@
    }

    pub fn new(name: String) -> (d: ModuleDetails)
        ensures
            d.name_spec() == name@,
    {
        ModuleDetails { name }
    }

    pub fn name(&self) -> (n: &String)
        ensures
            n@ == self.name_spec(),
    {
        &self.name
    }
}

/// List of module descriptors.
#[derive(Debug)]
pub struct ModuleList {
    modules: Vec<ModuleDetails>,
}

impl ModuleList {
    pub closed spec fn modules_spec(&self) -> Seq<ModuleDetails> {
        self.modules@
    }

    pub fn new(modules: Vec<ModuleDetails>) -> (l: ModuleList)
        ensures
            l.modules_spec() == modules@,
    {
        ModuleList { modules }
    }

    pub fn set_modules(&mut self, modules: Vec<ModuleDetails>)
        ensures
            final(self).modules_spec() == modules@,
    {
        self.modules = modules;
    }

    pub fn with_modules(self, modules: Vec<ModuleDetails>) -> (l: ModuleList)
        ensures
            l.modules_spec() == modules@,
    {
        let mut updated = self;
        updated.modules = modules;
        updated
    }

    pub fn modules(&self) -> (r: &Vec<ModuleDetails>)
        ensures
            r@ == self.modules_spec(),
    {
        &self.modules
    }
}

} // verus!
