use wit_roundtrip::sections::embed_metadata_section;
use wit_roundtrip::{decode_world_metadata, encode_world_metadata, Error, StringEncoding};

const FIXTURE: &str = "package demo:meta;

interface store {
  get: func(key: string) -> string;
}

world host {
  import store;
}
";

fn parse_world(text: &str, world_name: &str) -> (wit_parser::Resolve, wit_parser::WorldId) {
    let mut map = wit_parser::SourceMap::new();
    map.push_str("test.wit", text);
    let group = map.parse().map_err(|(_, e)| e).unwrap();
    let mut resolve = wit_parser::Resolve::default();
    let _pkg = resolve.push_group(group).unwrap();
    let world = resolve
        .worlds
        .iter()
        .find(|(_, w)| w.name == world_name)
        .map(|(id, _)| id)
        .unwrap();
    (resolve, world)
}

#[test]
fn metadata_round_trip_through_embedding() {
    let (resolve, world) = parse_world(FIXTURE, "host");
    let blob = encode_world_metadata(&resolve, world, StringEncoding::Utf8).unwrap();
    assert!(!blob.is_empty());

    let mut module = wat::parse_str("(module)").unwrap();
    embed_metadata_section(&mut module, &blob);

    // The decoder rebuilds a fresh graph around a synthesized root world, so
    // identities and names are new; the world's closure must still carry the
    // one imported interface.
    let (decoded_resolve, decoded_world) = decode_world_metadata(&module).unwrap();
    let import_count = decoded_resolve.worlds[decoded_world].imports.len();
    assert_eq!(import_count, 1);
    let has_store = decoded_resolve
        .interfaces
        .iter()
        .any(|(_, i)| i.name.as_deref() == Some("store"));
    assert!(has_store);
}

#[test]
fn metadata_encoding_is_deterministic() {
    let (resolve, world) = parse_world(FIXTURE, "host");
    let first = encode_world_metadata(&resolve, world, StringEncoding::Utf8).unwrap();
    let second = encode_world_metadata(&resolve, world, StringEncoding::Utf8).unwrap();
    assert_eq!(first, second);
}

#[test]
fn metadata_records_the_string_encoding() {
    let (resolve, world) = parse_world(FIXTURE, "host");
    let utf8 = encode_world_metadata(&resolve, world, StringEncoding::Utf8).unwrap();
    let utf16 = encode_world_metadata(&resolve, world, StringEncoding::Utf16).unwrap();
    assert_ne!(utf8, utf16);
}

#[test]
fn metadata_decode_rejects_garbage() {
    let garbage = vec![7u8, 7, 7, 7];
    let err = decode_world_metadata(&garbage).unwrap_err();
    assert!(matches!(err, Error::Decode { .. }));
}
