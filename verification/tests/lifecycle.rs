//! Extension loading, unloading, and registry behavior.

use encoaster::{
    Backend, DefaultDatabase, DirScan, ErrorKind, LoadedPlugin, ModuleOpen, Plugin, PluginInstance,
    Server,
};
use std::cell::RefCell;

fn local_default_server() -> Server {
    Server { plugin_loader: Default::default(), databases: Vec::default() }
}

#[derive(Debug, Default, PartialEq)]
struct TestPlugin;

impl Plugin for TestPlugin {
    fn on_load(&self, _instance: &mut PluginInstance) {}
    fn on_unload(&self) {}
}

#[test]
fn declare_plugin() {
    // the module ABI: one no-argument constructor producing the extension instance
    let constructor: fn() -> TestPlugin = TestPlugin::default;
    let plugin = constructor();
    assert_eq!(plugin, TestPlugin::default());
}

#[test]
fn server_init() {
    let server = Server::init();
    assert!(server.databases.is_empty() && server.plugin_loader.plugins.is_empty());
}

#[test]
fn load_plugins() {
    let mut server = local_default_server();
    let scan = DirScan::Entries { names: Vec::new() };
    server
        .load_plugins("plugins", &scan, |_n: &String| {
            (ModuleOpen::Opened, PluginInstance::new())
        })
        .unwrap();
    assert!(server.plugin_loader.plugins.is_empty());
}

#[test]
fn load_plugins_ignores_other_files() {
    let mut server = Server::init();
    let touched = RefCell::new(0usize);
    let scan = DirScan::Entries {
        names: vec!["readme.txt".to_string(), "data.json".to_string(), "so".to_string()],
    };
    let r = server.load_plugins("plugins", &scan, |_n: &String| {
        *touched.borrow_mut() += 1;
        (ModuleOpen::Opened, PluginInstance::new())
    });
    assert!(r.is_ok());
    assert_eq!(*touched.borrow(), 0);
    assert!(server.plugin_loader.plugins.is_empty());
}

#[test]
fn register_defaults_with_database() {
    let mut server = local_default_server();

    let default_databse = DefaultDatabase::new();
    server.regiser_database_backend(Backend::Sqlite(default_databse));

    server.register_default_backends();

    assert_eq!(server.databases.len(), 1);
}

#[test]
fn register_defaults_without_database() {
    let mut server = local_default_server();

    server.register_default_backends();
    assert_eq!(server.databases.len(), 1);
}

#[test]
fn default_backend_uses_data_folder() {
    let mut server = Server::init();
    server.register_default_backends();
    match &server.databases[0] {
        Backend::Sqlite(d) => assert_eq!(d.path, "/var/encoaster/data.db3"),
    }
}

#[test]
fn data_folder_location() {
    assert_eq!(Server::get_data_folder(), "/var/encoaster/");
}

#[test]
fn module_candidate_suffixes() {
    assert!(encoaster::PluginLoader::default()
        .load_plugins(
            "p",
            &DirScan::Entries {
                names: vec![
                    "libfoo.so".to_string(),
                    "foo.dll".to_string(),
                    "foo.dylib".to_string(),
                    "foo.txt".to_string(),
                    "so".to_string(),
                    "x.so.bak".to_string(),
                ],
            },
        )
        .unwrap()
        .eq(&vec!["libfoo.so".to_string(), "foo.dll".to_string(), "foo.dylib".to_string()]));
}

#[test]
fn missing_directory_fails_before_modules() {
    let mut server = Server::init();
    let touched = RefCell::new(0usize);
    let r = server.load_plugins("/no/such/dir", &DirScan::Missing, |_n: &String| {
        *touched.borrow_mut() += 1;
        (ModuleOpen::Opened, PluginInstance::new())
    });
    let e = r.unwrap_err();
    assert!(matches!(e.kind, ErrorKind::PluginError));
    assert!(e.message.contains("/no/such/dir"));
    assert_eq!(*touched.borrow(), 0);
    assert!(server.plugin_loader.plugins.is_empty());
}

#[test]
fn file_path_is_not_a_directory() {
    let mut server = Server::init();
    let r = server.load_plugins("some.file", &DirScan::NotDirectory, |_n: &String| {
        (ModuleOpen::Opened, PluginInstance::new())
    });
    assert!(matches!(r.unwrap_err().kind, ErrorKind::PluginError));
}

#[test]
fn unreadable_directory_is_io_error() {
    let mut server = Server::init();
    let scan = DirScan::Unreadable { detail: "denied".to_string() };
    let r = server.load_plugins("p", &scan, |_n: &String| {
        (ModuleOpen::Opened, PluginInstance::new())
    });
    match r.unwrap_err().kind {
        ErrorKind::IoError(d) => assert_eq!(d, "denied"),
        other => panic!("expected an IoError, got {other:?}"),
    }
}

#[test]
fn symbol_missing_aborts_load() {
    let mut server = Server::init();
    let scan = DirScan::Entries {
        names: vec!["good.so".to_string(), "bad.so".to_string(), "later.so".to_string()],
    };
    let r = server.load_plugins("plugins", &scan, |n: &String| {
        if n == "bad.so" {
            (ModuleOpen::SymbolMissing, PluginInstance::new())
        } else {
            (ModuleOpen::Opened, PluginInstance::new())
        }
    });
    let e = r.unwrap_err();
    assert!(matches!(e.kind, ErrorKind::PluginError));
    assert!(e.message.contains("_create_plugin"));
    let loaded: Vec<String> =
        server.plugin_loader.plugins.iter().map(|p| p.name.clone()).collect();
    assert_eq!(loaded, vec!["good.so".to_string()]);
}

#[test]
fn open_failure_aborts_load() {
    let mut server = Server::init();
    let scan = DirScan::Entries { names: vec!["cursed.so".to_string()] };
    let r = server.load_plugins("plugins", &scan, |_n: &String| {
        (ModuleOpen::OpenFailed { detail: "bad magic".to_string() }, PluginInstance::new())
    });
    let e = r.unwrap_err();
    assert!(matches!(e.kind, ErrorKind::PluginError));
    assert!(e.message.contains("bad magic"));
    assert!(server.plugin_loader.plugins.is_empty());
}

#[test]
fn unload_reverses_load_order() {
    let mut server = Server::init();
    let scan = DirScan::Entries {
        names: vec!["a.so".to_string(), "b.so".to_string(), "c.so".to_string()],
    };
    server
        .load_plugins("plugins", &scan, |_n: &String| {
            (ModuleOpen::Opened, PluginInstance::new())
        })
        .unwrap();

    let unloaded: RefCell<Vec<String>> = RefCell::new(Vec::new());
    let order = server.plugin_loader.unload_all(|rec: LoadedPlugin| {
        unloaded.borrow_mut().push(rec.name);
    });

    let expected = vec!["c.so".to_string(), "b.so".to_string(), "a.so".to_string()];
    assert_eq!(order, expected);
    assert_eq!(*unloaded.borrow(), expected);
    assert!(server.plugin_loader.plugins.is_empty());
}

#[test]
fn extension_backend_takes_precedence() {
    let mut server = Server::init();
    let scan = DirScan::Entries { names: vec!["store.so".to_string()] };
    let r = server.load_plugins("plugins", &scan, |_n: &String| {
        let mut inst = PluginInstance::new();
        inst.register_database_backend(Backend::Sqlite(DefaultDatabase::at_path(
            "ext.db3".to_string(),
        )));
        (ModuleOpen::Opened, inst)
    });
    assert!(r.is_ok());
    assert_eq!(server.databases.len(), 1);

    server.register_default_backends();
    assert_eq!(server.databases.len(), 1);
    match &server.databases[0] {
        Backend::Sqlite(d) => assert_eq!(d.path, "ext.db3"),
    }
}
