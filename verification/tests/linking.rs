use wit_roundtrip::sections::embed_metadata_section;
use wit_roundtrip::{Error, ModuleLinker};

const LINK_WIT: &str = "package demo:link;

world liba {
}

world libb {
}

world libc {
  export g: func() -> s32;
}
";

const EXPORTS_F_42: &str = "(module
  (func (export \"f\") (result i32) i32.const 42)
)";

const EXPORTS_F_13: &str = "(module
  (func (export \"f\") (result i32) i32.const 13)
)";

const IMPORTS_F: &str = "(module
  (import \"env\" \"f\" (func $f (result i32)))
  (func (export \"g\") (result i32) call $f)
)";

const IMPORTS_MISSING: &str = "(module
  (import \"env\" \"absent_helper\" (func $m (result i32)))
  (func (export \"g\") (result i32) call $m)
)";

/// Assemble a library module and embed the metadata of the named world.
fn library(wat_text: &str, world_name: &str) -> Vec<u8> {
    let mut map = wit_parser::SourceMap::new();
    map.push_str("link.wit", LINK_WIT);
    let group = map.parse().map_err(|(_, e)| e).unwrap();
    let mut resolve = wit_parser::Resolve::default();
    let _pkg = resolve.push_group(group).unwrap();
    let world = resolve
        .worlds
        .iter()
        .find(|(_, w)| w.name == world_name)
        .map(|(id, _)| id)
        .unwrap();
    let metadata = wit_component::metadata::encode(
        &resolve,
        world,
        wit_component::StringEncoding::UTF8,
        None,
        false,
    )
    .unwrap();
    let mut module = wat::parse_str(wat_text).unwrap();
    embed_metadata_section(&mut module, &metadata);
    module
}

#[test]
fn linker_precedence_static_export_wins() {
    let a = library(EXPORTS_F_42, "liba");
    let b = library(EXPORTS_F_13, "libb");
    let c = library(IMPORTS_F, "libc");
    let bytes = ModuleLinker::new()
        .library("liba.so".to_string(), a, false)
        .library("libb.so".to_string(), b, true)
        .library("libc.so".to_string(), c, false)
        .link()
        .unwrap();
    let printed = wasmprinter::print_bytes(&bytes).unwrap();
    // The import of `f` is satisfied by the non-dl-openable library, so that
    // library is part of the merged artifact; the dl-openable one stays
    // linked as well, for late binding.
    assert!(printed.contains("i32.const 42"));
    assert!(printed.contains("i32.const 13"));
}

#[test]
fn linker_precedence_first_registration_wins() {
    let first = library(EXPORTS_F_42, "liba");
    let second = library(EXPORTS_F_13, "libb");
    let c = library(IMPORTS_F, "libc");
    let bytes = ModuleLinker::new()
        .library("liba.so".to_string(), first, false)
        .library("libb.so".to_string(), second, false)
        .library("libc.so".to_string(), c, false)
        .link()
        .unwrap();
    let printed = wasmprinter::print_bytes(&bytes).unwrap();
    // Both libraries export `f`; the first registered exporter resolves the
    // import, and the unused later one is not part of the merged artifact.
    assert!(printed.contains("i32.const 42"));
    assert!(!printed.contains("i32.const 13"));
}

#[test]
fn linking_is_deterministic() {
    let a = library(EXPORTS_F_42, "liba");
    let c = library(IMPORTS_F, "libc");
    let first = ModuleLinker::new()
        .library("liba.so".to_string(), a.clone(), false)
        .library("libc.so".to_string(), c.clone(), false)
        .link()
        .unwrap();
    let second = ModuleLinker::new()
        .library("liba.so".to_string(), a, false)
        .library("libc.so".to_string(), c, false)
        .link()
        .unwrap();
    assert_eq!(first, second);
}

#[test]
fn stub_gating_reports_unresolved_import() {
    let c = library(IMPORTS_MISSING, "libc");
    let err = ModuleLinker::new()
        .library("libc.so".to_string(), c, false)
        .link()
        .unwrap_err();
    match err {
        Error::Link { detail } => assert!(detail.contains("absent_helper")),
        other => panic!("expected a link error, got {other:?}"),
    }
}

#[test]
fn stub_gating_synthesizes_stub_when_enabled() {
    let c = library(IMPORTS_MISSING, "libc");
    let bytes = ModuleLinker::new()
        .library("libc.so".to_string(), c, false)
        .stub_missing_functions(true)
        .link()
        .unwrap();
    let printed = wasmprinter::print_bytes(&bytes).unwrap();
    assert!(printed.contains("absent_helper"));
}
