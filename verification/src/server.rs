//! The host registry: owns the extension loader and the registered storage
//! backends, and applies the default-backend policy.
//!
//! The registry is an explicitly constructed context object owned by the
//! process entry point; a host that serves several threads wraps it in a
//! mutual-exclusion lock and holds the lock for the duration of each
//! registry operation.

use crate::database::{Condition, Database, Row, SqlValue, ValueType};
use crate::default_database::DefaultDatabase;
use crate::loader::{DirScan, LoadedPlugin, ModuleOpen, PluginLoader};
use crate::plugin::PluginInstance;
use crate::result::{Error, ErrorKind};
use vstd::prelude::*;

verus! {

/// A registered storage backend. The registry holds its backends through
/// this closed set of implementations and dispatches storage operations
/// over it.
#[derive(Debug)]
pub enum Backend {
    /// The bundled reference backend.
    Sqlite(DefaultDatabase),
}

impl Database for Backend {
    fn query(
        &self,
        table: &str,
        cols: &Vec<(String, ValueType)>,
        conditions: &Vec<Condition>,
    ) -> (r: Result<Vec<Row>, Error>) {
        match self {
            Backend::Sqlite(d) => d.query(table, cols, conditions),
        }
    }

    fn insert(&self, table: &str, cols: &Vec<(String, SqlValue)>) -> (r: Result<(), Error>) {
        match self {
            Backend::Sqlite(d) => d.insert(table, cols),
        }
    }

    fn update(
        &self,
        table: &str,
        cols: &Vec<(String, SqlValue)>,
        conditions: &Vec<Condition>,
    ) -> (r: Result<(), Error>) {
        match self {
            Backend::Sqlite(d) => d.update(table, cols, conditions),
        }
    }
}

/// The host registry, at the top of the extension chain: the loader and the
/// registered storage backends, in registration order.
pub struct Server {
    /// The extension loader.
    pub plugin_loader: PluginLoader,
    /// All registered database backends, in registration order.
    pub databases: Vec<Backend>,
}

impl Server {
    /// Construct the registry, with nothing loaded and nothing registered.
    pub fn init() -> (s: Server)
        ensures
            s.plugin_loader.plugins@.len() == 0,
            s.databases@.len() == 0,
    {
        Server { plugin_loader: PluginLoader { plugins: Vec::new() }, databases: Vec::new() }
    }

    /// The folder in which the host's data is stored. The folder might not
    /// exist yet.
    pub fn get_data_folder() -> (r: String)
        ensures
            r@ == "/var/encoaster/"@,
    {
        let mut r = String::new();
        r.append("/var/encoaster/");
        r
    }

    /// Register a database backend, appending it to the registry.
    pub fn regiser_database_backend(&mut self, database: Backend)
        ensures
            final(self).databases@ == old(self).databases@.push(database),
            final(self).plugin_loader == old(self).plugin_loader,
    {
        self.databases.push(database)
    }

    /// Register the default backends. A backend is registered only if no
    /// backend has been registered yet, so an extension-provided backend
    /// always takes precedence; this is called after all extensions have
    /// loaded.
    pub fn register_default_backends(&mut self)
        ensures
            old(self).databases@.len() == 0 ==> final(self).databases@.len() == 1 && (
            final(self).databases@[0] matches Backend::Sqlite(d) && d.path@ == "/var/encoaster/"@
                + "data.db3"@),
            old(self).databases@.len() > 0 ==> *final(self) == *old(self),
            final(self).plugin_loader == old(self).plugin_loader,
    {
        if self.databases.is_empty() {
            let database = DefaultDatabase::new();
            self.regiser_database_backend(Backend::Sqlite(database))
        }
    }

    /// Load every qualifying module of a scanned extension directory.
    ///
    /// The host performs each module's load through `load_module`: it opens
    /// the module, resolves the entry symbol, constructs the instance, runs
    /// its load hook with a fresh handle, and reports the outcome together
    /// with the handle. The registry appends the hook's registrations to its
    /// backends and admits the module to the loaded set; the first failure
    /// aborts the whole call, admitting nothing from the failing module.
    ///
    /// On a valid directory holding no qualifying module, the call succeeds
    /// and changes nothing. Registrations are never lost: the backends
    /// already registered stay, in order, on every path.
    pub fn load_plugins<F: Fn(&String) -> (ModuleOpen, PluginInstance)>(
        &mut self,
        path: &str,
        scan: &DirScan,
        load_module: F,
    ) -> (r: Result<(), Error>)
        requires
            forall|n: &String| call_requires(load_module, (n,)),
        ensures
            scan is Missing ==> (r matches Err(e) && e.kind is PluginError && *final(self)
                == *old(self)),
            scan is NotDirectory ==> (r matches Err(e) && e.kind is PluginError && *final(self)
                == *old(self)),
            scan matches DirScan::Unreadable { detail } ==> (r matches Err(e) && (
            e.kind matches ErrorKind::IoError(d) && d == detail) && *final(self) == *old(self)),
            scan matches DirScan::Entries { names } ==> {
                let cands = crate::loader::spec_candidates(names@);
                &&& (cands.len() == 0 ==> r is Ok && *final(self) == *old(self))
                &&& (r is Ok ==> final(self).plugin_loader.plugins@
                    == old(self).plugin_loader.plugins@ + cands.map_values(
                    |n: String| LoadedPlugin { name: n },
                ))
                &&& (r matches Err(e) ==> e.kind is PluginError && exists|k: int|
                    0 <= k < cands.len() && final(self).plugin_loader.plugins@
                        == old(self).plugin_loader.plugins@ + (#[trigger] cands.take(
                        k,
                    )).map_values(|n: String| LoadedPlugin { name: n }))
                &&& old(self).databases@.is_prefix_of(final(self).databases@)
            },
    {
        let candidates = match self.plugin_loader.load_plugins(path, scan) {
            Ok(c) => c,
            Err(e) => {
                return Err(e);
            },
        };
        let ghost cands = candidates@;
        let ghost orig = *self;
        let mut i: usize = 0;
        while i < candidates.len()
            invariant
                forall|n: &String| call_requires(load_module, (n,)),
                orig == *old(self),
                scan matches DirScan::Entries { names } && cands == crate::loader::spec_candidates(
                    names@,
                ),
                i <= cands.len(),
                candidates@ == cands,
                self.plugin_loader.plugins@ == orig.plugin_loader.plugins@ + cands.take(
                    i as int,
                ).map_values(|n: String| LoadedPlugin { name: n }),
                orig.databases@.is_prefix_of(self.databases@),
                i == 0 ==> *self == orig,
            decreases cands.len() - i,
        {
            let (outcome, instance) = load_module(&candidates[i]);
            match self.plugin_loader.load_plugin(&candidates[i], &outcome) {
                Ok(_) => {},
                Err(e) => {
                    proof {
                        let k = i as int;
                        assert(0 <= k < cands.len() && self.plugin_loader.plugins@
                            == orig.plugin_loader.plugins@ + (#[trigger] cands.take(
                            k,
                        )).map_values(|n: String| LoadedPlugin { name: n }));
                    }
                    return Err(e);
                },
            }
            proof {
                assert(cands.take(i + 1).drop_last() =~= cands.take(i as int));
                assert(cands.take(i + 1).last() == cands[i as int]);
                assert(cands.take(i + 1).map_values(|n: String| LoadedPlugin { name: n })
                    =~= cands.take(i as int).map_values(|n: String| LoadedPlugin { name: n }).push(
                    LoadedPlugin { name: cands[i as int] },
                ));
            }
            let mut backends = instance.registered;
            let ghost loader_now = self.plugin_loader;
            while backends.len() > 0
                invariant
                    self.plugin_loader == loader_now,
                    orig.databases@.is_prefix_of(self.databases@),
                decreases backends@.len(),
            {
                let b = backends.remove(0);
                let ghost before = self.databases@;
                self.regiser_database_backend(b);
                proof {
                    assert(before.is_prefix_of(self.databases@));
                }
            }
            i = i + 1;
        }
        proof {
            assert(cands.take(cands.len() as int) =~= cands);
        }
        Ok(())
    }
}

} // verus!
