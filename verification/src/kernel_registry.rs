//! A registry of compute kernels, looked up by name.

use crate::errors::VortexError;
use vstd::hash_map::*;
use vstd::prelude::*;
use vstd::string::*;

verus! {

/// The signature of a kernel: bytes in, bytes out.
pub type KernelFn = fn(&[u8]) -> Vec<u8>;

/// A compute kernel: a name and the code that goes by it. `F` is the type of
/// the code; a registry of plain functions uses `KernelFn`.
pub struct Kernel<F> {
    pub name: String,
    pub implementation: F,
}

/// The kernels that have been registered, each under its own name.
#[verifier::reject_recursive_types(F)]
pub struct KernelRegistry<F> {
    kernels: StringHashMap<Kernel<F>>,
}

impl<F> View for KernelRegistry<F> {
    type V = Map<Seq<char>, Kernel<F>>;

    closed spec fn view(&self) -> Map<Seq<char>, Kernel<F>> {
        self.kernels@
    }
}

impl<F> KernelRegistry<F> {
    /// The registry's invariant: every kernel is filed under its own name.
    pub open spec fn wf(&self) -> bool {
        forall|name: Seq<char>| #[trigger] self@.contains_key(name) ==> self@[name].name@ == name
    }

    /// An empty registry.
    pub fn new() -> (r: Self)
        ensures
            r.wf(),
            r@ == Map::<Seq<char>, Kernel<F>>::empty(),
    {
        KernelRegistry { kernels: StringHashMap::new() }
    }

    /// Files `kernel` under its name. A kernel registered earlier under the
    /// same name is replaced; every other kernel stays.
    pub fn register(&mut self, kernel: Kernel<F>)
        requires
            old(self).wf(),
        ensures
            final(self).wf(),
            final(self)@ == old(self)@.insert(kernel.name@, kernel),
    {
        let name = kernel.name.clone();
        self.kernels.insert(name, kernel);
    }

    /// Looks a kernel up by name. Fails with `KernelNotFound`, carrying the
    /// name, exactly when no kernel of that name is registered.
    pub fn get(&self, name: &str) -> (r: Result<&Kernel<F>, VortexError>)
        requires
            self.wf(),
        ensures
            match r {
                Ok(kernel) => {
                    &&& self@.contains_key(name@)
                    &&& *kernel == self@[name@]
                    &&& kernel.name@ == name@
                },
                Err(e) => {
                    &&& !self@.contains_key(name@)
                    &&& e matches VortexError::KernelNotFound(missing)
                    &&& missing@ == name@
                },
            },
    {
        match self.kernels.get(name) {
            Some(kernel) => Ok(kernel),
            None => Err(VortexError::KernelNotFound(String::from_str(name))),
        }
    }
}

} // verus!
