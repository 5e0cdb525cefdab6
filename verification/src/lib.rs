//! Extension-loading runtime: a host registry that discovers native extension
//! modules, drives their load/unload lifecycle, and lets each extension
//! register storage backends with the host.

mod database;
mod default_database;
mod loader;
mod plugin;
mod result;
mod stmt;
mod server;

pub use database::{Condition, Database, Row, SqlValue, StoredValue, ValueType};
pub use default_database::{decode_row, decode_rows, DefaultDatabase};
pub use loader::{DirScan, LoadedPlugin, ModuleOpen, PluginLoader};
pub use plugin::{Plugin, PluginInstance};
pub use result::{Error, ErrorKind};
pub use server::{Backend, Server};
pub use stmt::{build_insert, build_select, build_update};
