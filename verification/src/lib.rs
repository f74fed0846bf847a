//! Round-trip checking for binary interface packages and components.
//!
//! The crate encodes interface graphs to their binary package form, decodes
//! packages and composite components back into graphs, links library modules,
//! and embeds interface metadata into modules, checking along the way that
//! every decode/encode cycle reproduces the original bytes exactly.

pub mod component;
pub mod errors;
pub mod linker;
pub mod metadata_codec;
pub mod model;
pub mod package_codec;
pub mod roundtrip;
pub mod sections;
pub mod version;
pub mod wit_api;

pub use component::{Adapter, ComponentConfig};
pub use errors::Error;
pub use linker::{LibraryModule, ModuleLinker};
pub use metadata_codec::{decode_world_metadata, encode_world_metadata};
pub use model::{Decoded, PackageShape, StringEncoding};
pub use package_codec::{encode_package, reencode_package};
pub use roundtrip::{roundtrip_through_printing, run};
