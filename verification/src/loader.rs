//! The extension loader.
//!
//! The loader decides which directory entries qualify as loadable modules,
//! which error aborts a load, and in which order loaded extensions are
//! unloaded. The host process performs the module operations themselves
//! (opening a dynamic module, resolving its entry symbol, constructing its
//! instance) and reports each outcome back; a failure on any one module
//! aborts the whole load, and partial-success loading is not supported.
//!
//! The loaded set is drained exactly once at teardown, in reverse load
//! order, so that no extension instance outlives its module.

use crate::result::{Error, ErrorKind};
use vstd::prelude::*;

verus! {

/// What the host found when it examined the extension directory.
#[derive(Debug)]
pub enum DirScan {
    /// The path does not exist.
    Missing,
    /// The path exists but is not a directory.
    NotDirectory,
    /// The directory's entries could not be read or iterated; carries the
    /// native failure's description.
    Unreadable { detail: String },
    /// The names of the directory's entries, in enumeration order.
    Entries { names: Vec<String> },
}

/// What the host observed when it tried to load one module: opening it,
/// resolving the `_create_plugin` entry symbol, constructing the instance
/// and running its load hook.
#[derive(Debug)]
pub enum ModuleOpen {
    /// The module was opened, its entry symbol resolved, its instance
    /// constructed, and its load hook run.
    Opened,
    /// The module could not be opened; carries the native failure's
    /// description.
    OpenFailed { detail: String },
    /// The module does not export the `_create_plugin` entry symbol.
    SymbolMissing,
}

/// The loader's record of one loaded extension: the module it came from.
/// The extension's instance and its module handle are owned jointly by the
/// host, which drops them only when the loader hands this record back at
/// teardown, hook first, handle second.
#[derive(Debug)]
pub struct LoadedPlugin {
    /// The name of the module's directory entry.
    pub name: String,
}

/// The extension loader: owns the loaded set, in load order.
#[derive(Debug)]
pub struct PluginLoader {
    /// The records of the loaded extensions, in load order.
    pub plugins: Vec<LoadedPlugin>,
}

/// Whether a sequence of characters ends with the given suffix.
pub open spec fn spec_ends_with(s: Seq<char>, suffix: Seq<char>) -> bool {
    s.len() >= suffix.len() && s.subrange(s.len() - suffix.len(), s.len() as int) == suffix
}

/// Whether a directory entry's name carries a platform dynamic-module
/// suffix, making the entry a load candidate.
pub open spec fn is_module_name(name: Seq<char>) -> bool {
    spec_ends_with(name, ".so"@) || spec_ends_with(name, ".dll"@) || spec_ends_with(
        name,
        ".dylib"@,
    )
}

/// The load candidates among the scanned names: those carrying a
/// dynamic-module suffix, in enumeration order.
pub open spec fn spec_candidates(names: Seq<String>) -> Seq<String>
    decreases names.len(),
{
    if names.len() == 0 {
        Seq::empty()
    } else {
        let rest = spec_candidates(names.drop_last());
        if is_module_name(names.last()@) {
            rest.push(names.last())
        } else {
            rest
        }
    }
}

/// Whether a string ends with the given suffix.
fn str_ends_with(s: &str, suffix: &str) -> (r: bool)
    ensures
        r == spec_ends_with(s@, suffix@),
{
    let n = s.unicode_len();
    let m = suffix.unicode_len();
    if m > n {
        return false;
    }
    let mut i: usize = 0;
    while i < m
        invariant
            n == s@.len(),
            m == suffix@.len(),
            m <= n,
            i <= m,
            forall|k: int| 0 <= k < i ==> s@[n - m + k] == suffix@[k],
        decreases m - i,
    {
        if s.get_char(n - m + i) != suffix.get_char(i) {
            proof {
                assert(s@.subrange(s@.len() - suffix@.len(), s@.len() as int)[i as int] != suffix@[
                i as int]);
            }
            return false;
        }
        i = i + 1;
    }
    proof {
        assert(s@.subrange(s@.len() - suffix@.len(), s@.len() as int) =~= suffix@);
    }
    true
}

/// Whether a directory entry's name makes it a load candidate. Only files
/// ending in `.so`, `.dll` or `.dylib` are considered for loading.
pub fn is_module_candidate(name: &str) -> (r: bool)
    ensures
        r == is_module_name(name@),
{
    str_ends_with(name, ".so") || str_ends_with(name, ".dll") || str_ends_with(name, ".dylib")
}

/// Build an error message around the offending path.
fn path_message(prefix: &str, path: &str, suffix: &str) -> (r: String)
    ensures
        r@ == prefix@ + path@ + suffix@,
{
    let mut r = String::new();
    r.append(prefix);
    r.append(path);
    r.append(suffix);
    r
}

impl Default for PluginLoader {
    /// A loader with nothing loaded.
    fn default() -> (l: PluginLoader)
        ensures
            l.plugins@.len() == 0,
    {
        PluginLoader { plugins: Vec::new() }
    }
}

impl PluginLoader {
    /// Decide the load plan for a scanned extension directory: fail when the
    /// path is missing, is not a directory, or could not be read; otherwise
    /// hand back the load candidates, in enumeration order. Succeeds with an
    /// empty plan on a valid directory holding no qualifying module.
    pub fn load_plugins(&self, path: &str, scan: &DirScan) -> (r: Result<Vec<String>, Error>)
        ensures
            scan is Missing ==> (r matches Err(e) && e.kind is PluginError),
            scan is NotDirectory ==> (r matches Err(e) && e.kind is PluginError),
            scan matches DirScan::Unreadable { detail } ==> (r matches Err(e) && (
            e.kind matches ErrorKind::IoError(d) && d == detail)),
            scan matches DirScan::Entries { names } ==> (r matches Ok(c) && c@ == spec_candidates(
                names@,
            )),
    {
        match scan {
            DirScan::Missing => Err(
                Error::new(
                    ErrorKind::PluginError,
                    path_message("Provided plugin path '", path, "' does not exist."),
                ),
            ),
            DirScan::NotDirectory => Err(
                Error::new(
                    ErrorKind::PluginError,
                    path_message("Provided plugins path '", path, "' is not a directory."),
                ),
            ),
            DirScan::Unreadable { detail } => Err(
                Error::new(
                    ErrorKind::IoError(detail.clone()),
                    path_message("Failed to read directory at path '", path, "'"),
                ),
            ),
            DirScan::Entries { names } => {
                let mut cands: Vec<String> = Vec::new();
                let mut j: usize = 0;
                while j < names.len()
                    invariant
                        j <= names@.len(),
                        cands@ == spec_candidates(names@.take(j as int)),
                    decreases names@.len() - j,
                {
                    if is_module_candidate(names[j].as_str()) {
                        cands.push(names[j].clone());
                    }
                    proof {
                        assert(names@.take(j + 1).drop_last() =~= names@.take(j as int));
                        assert(names@.take(j + 1).last() == names@[j as int]);
                    }
                    j = j + 1;
                }
                proof {
                    assert(names@.take(names@.len() as int) =~= names@);
                }
                Ok(cands)
            },
        }
    }

    /// Admit one candidate to the loaded set, or decide the error that
    /// aborts the load: the module failed to open, or it does not export the
    /// `_create_plugin` entry symbol. On failure nothing from the module is
    /// added to the loaded set.
    pub fn load_plugin(&mut self, name: &String, outcome: &ModuleOpen) -> (r: Result<(), Error>)
        ensures
            outcome is Opened ==> r is Ok && final(self).plugins@ == old(self).plugins@.push(
                LoadedPlugin { name: *name },
            ),
            !(outcome is Opened) ==> (r matches Err(e) && e.kind is PluginError && *final(self)
                == *old(self)),
    {
        match outcome {
            ModuleOpen::Opened => {
                self.plugins.push(LoadedPlugin { name: name.clone() });
                Ok(())
            },
            ModuleOpen::OpenFailed { detail } => {
                let mut message = path_message(
                    "Failed to create library for plugin at '",
                    name.as_str(),
                    "': ",
                );
                message.append(detail.as_str());
                Err(Error::new(ErrorKind::PluginError, message))
            },
            ModuleOpen::SymbolMissing => Err(
                Error::new(
                    ErrorKind::PluginError,
                    path_message(
                        "Plugin '",
                        name.as_str(),
                        "' does not export the symbol '_create_plugin'",
                    ),
                ),
            ),
        }
    }

    /// Drain the loaded set exactly once, in reverse load order, running
    /// `run_unload` on each record before handing the next one out. The host
    /// runs the extension's unload hook and releases its module handle
    /// there, in that order. Returns the drained module names, in the order
    /// their records were handed out: the exact reverse of load order.
    pub fn unload_all<F: Fn(LoadedPlugin)>(&mut self, run_unload: F) -> (order: Vec<String>)
        requires
            forall|p: LoadedPlugin| call_requires(run_unload, (p,)),
        ensures
            final(self).plugins@.len() == 0,
            order@.len() == old(self).plugins@.len(),
            forall|k: int|
                0 <= k < order@.len() ==> order@[k] == old(self).plugins@[old(
                    self,
                ).plugins@.len() - 1 - k].name,
    {
        let mut order: Vec<String> = Vec::new();
        let ghost full = self.plugins@;
        while self.plugins.len() > 0
            invariant
                forall|p: LoadedPlugin| call_requires(run_unload, (p,)),
                self.plugins@.len() + order@.len() == full.len(),
                self.plugins@ == full.take(self.plugins@.len() as int),
                forall|k: int|
                    0 <= k < order@.len() ==> order@[k] == full[full.len() - 1 - k].name,
            decreases self.plugins@.len(),
        {
            let rec = match self.plugins.pop() {
                Some(rec) => rec,
                None => {
                    return order;
                },
            };
            order.push(rec.name.clone());
            run_unload(rec);
        }
        order
    }
}

} // verus!
