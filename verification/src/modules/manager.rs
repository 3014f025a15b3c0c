//! The registry of modules, keyed by their names.

use crate::modules::Module;
use vstd::prelude::*;

verus! {

/// Holds every registered module; names are unique.
pub struct ModuleManager {
    pub modules: Vec<Module>,
}

impl ModuleManager {
    /// Whether some registered module carries this name.
    pub open spec fn spec_has_name(&self, name: Seq<char>) -> bool {
        exists|i: int| 0 <= i < self.modules@.len() && (#[trigger] self.modules@[i]).name@ == name
    }

    /// An empty manager.
    pub fn new() -> (r: Self)
        ensures
            r.modules@.len() == 0,
    {
        ModuleManager { modules: Vec::new() }
    }

    /// Register a module; a module under an already-taken name is refused.
    pub fn register(&mut self, m: Module) -> (r: bool)
        ensures
            r == !old(self).spec_has_name(m.name@),
            r ==> final(self).modules@ == old(self).modules@.push(m),
            !r ==> final(self).modules@ == old(self).modules@,
    {
        let mut i: usize = 0;
        while i < self.modules.len()
            invariant
                0 <= i <= self.modules@.len(),
                forall|j: int| 0 <= j < i ==> (#[trigger] self.modules@[j]).name@ != m.name@,
            decreases self.modules@.len() - i,
        {
            if self.modules[i].name == m.name {
                return false;
            }
            i = i + 1;
        }
        self.modules.push(m);
        true
    }
}

} // verus!
