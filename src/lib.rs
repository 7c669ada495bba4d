//! Registry of the subcommands of a version-control command line: the
//! catalog of command descriptors, capability gating, the schema built from
//! the catalog, decoding of matched arguments and dispatch to handlers.
pub mod capability;
pub mod catalog;
pub mod clap_schema;
pub mod defaults;
pub mod deprecation;
pub mod schema;

pub use capability::{Capability, CapabilitySet};
pub use catalog::{check_catalog, Alias, CatalogError, CommandKind, Descriptor, Handler, HelpCategory};
pub use clap_schema::{clap_command, clap_subcommand_for};
pub use defaults::{default_catalog, default_schema, descriptor};
pub use deprecation::{renamed_cmd, Step};
pub use schema::{build_schema, run_command, ParsedCommand, ParseError, Schema};
