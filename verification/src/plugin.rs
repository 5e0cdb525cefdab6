//! The extension lifecycle contract and the scoped handle extensions use to
//! contribute capabilities to the host.

use crate::server::Backend;
use vstd::prelude::*;

verus! {

/// The lifecycle contract every loadable extension implements.
///
/// `on_load` is called exactly once, immediately after the extension's
/// module is loaded and its instance constructed; `on_unload` is called
/// exactly once, at shutdown, before the module is unloaded. The two hooks
/// need not run on the same thread, but always run in that relative order.
pub trait Plugin: Send + Sync {
    /// Called when the extension is loaded, with a scoped handle whose only
    /// capability is registering storage backends with the host.
    fn on_load(&self, instance: &mut PluginInstance);

    /// Called when the extension is unloaded.
    fn on_unload(&self);
}

/// The scoped handle passed into an extension's load hook: it gathers the
/// backends the extension registers, and the host appends them to its
/// registry, in registration order, once the hook returns.
pub struct PluginInstance {
    /// The backends registered through this handle, in registration order.
    pub registered: Vec<Backend>,
}

impl PluginInstance {
    /// A handle with nothing registered yet.
    pub fn new() -> (i: PluginInstance)
        ensures
            i.registered@.len() == 0,
    {
        PluginInstance { registered: Vec::new() }
    }

    /// Register a database backend with the host.
    pub fn register_database_backend(&mut self, database: Backend)
        ensures
            final(self).registered@ == old(self).registered@.push(database),
    {
        self.registered.push(database);
    }
}

} // verus!
