use wit_roundtrip::sections::{
    append_custom_section, bytes_equal, embed_metadata_section, frame_custom_section, leb128_bytes,
    metadata_section_name_bytes, push_all,
};
use wit_roundtrip::{ComponentConfig, Error};

fn parse(text: &str) -> (wit_parser::Resolve, wit_parser::PackageId) {
    let mut map = wit_parser::SourceMap::new();
    map.push_str("test.wit", text);
    let group = map.parse().map_err(|(_, e)| e).unwrap();
    let mut resolve = wit_parser::Resolve::default();
    let pkg = resolve.push_group(group).unwrap();
    (resolve, pkg)
}

#[test]
fn leb128_exact_values() {
    assert_eq!(leb128_bytes(0), vec![0]);
    assert_eq!(leb128_bytes(127), vec![0x7f]);
    assert_eq!(leb128_bytes(128), vec![0x80, 0x01]);
    assert_eq!(leb128_bytes(300), vec![0xac, 0x02]);
    assert_eq!(leb128_bytes(624485), vec![0xe5, 0x8e, 0x26]);
}

#[test]
fn push_all_appends() {
    let mut dst = vec![1u8, 2];
    let src = vec![3u8, 4, 5];
    push_all(&mut dst, &src);
    assert_eq!(dst, vec![1, 2, 3, 4, 5]);
}

#[test]
fn bytes_equal_exact() {
    assert!(bytes_equal(&vec![1, 2, 3], &vec![1, 2, 3]));
    assert!(!bytes_equal(&vec![1, 2, 3], &vec![1, 2, 4]));
    assert!(!bytes_equal(&vec![1, 2, 3], &vec![1, 2]));
    assert!(bytes_equal(&Vec::new(), &Vec::new()));
}

#[test]
fn custom_section_matches_reference_encoder() {
    let name = b"component-type".to_vec();
    let mut data: Vec<u8> = Vec::new();
    for i in 0..500usize {
        data.push((i % 251) as u8);
    }
    let ours = frame_custom_section(&name, &data);

    let section = wasm_encoder::CustomSection {
        name: "component-type".into(),
        data: std::borrow::Cow::Borrowed(&data),
    };
    let mut theirs: Vec<u8> = Vec::new();
    theirs.push(wasm_encoder::Section::id(&section));
    wasm_encoder::Encode::encode(&section, &mut theirs);
    assert_eq!(ours, theirs);
}

#[test]
fn embed_metadata_section_appends_named_section() {
    let mut module = vec![9u8, 8, 7];
    let blob = vec![1u8, 2, 3, 4];
    embed_metadata_section(&mut module, &blob);

    let mut expected = vec![9u8, 8, 7];
    let name = metadata_section_name_bytes();
    assert_eq!(name, b"component-type".to_vec());
    append_custom_section(&mut expected, &name, &blob);
    assert_eq!(module, expected);
}

#[test]
fn component_encode_requires_module() {
    let err = ComponentConfig::new().encode().unwrap_err();
    assert!(matches!(err, Error::MissingModule));
}

#[test]
fn component_encode_rejects_garbage_module() {
    let result = ComponentConfig::new()
        .module(b"not a module".to_vec())
        .validate(true)
        .encode();
    assert!(result.is_err());
}

#[test]
fn component_encode_rejects_garbage_adapter() {
    let module = wat::parse_str("(module)").unwrap();
    let result = ComponentConfig::new()
        .module(module)
        .adapter("broken".to_string(), b"junk".to_vec())
        .validate(true)
        .encode();
    assert!(result.is_err());
}

#[test]
fn component_encoding_is_deterministic() {
    let module = wat::parse_str("(module)").unwrap();
    let first = ComponentConfig::new()
        .module(module.clone())
        .validate(true)
        .encode()
        .unwrap();
    let second = ComponentConfig::new()
        .module(module)
        .validate(true)
        .encode()
        .unwrap();
    assert_eq!(first, second);
}

#[test]
fn producer_chain_is_kept_and_extended() {
    let (resolve, _pkg) = parse("package demo:provenance;\n\nworld empty {\n}\n");
    let (world, _) = resolve.worlds.iter().next().unwrap();

    let mut producers = wasm_metadata::Producers::empty();
    producers.add("processed-by", "my-fake-bindgen", "123.45");
    let metadata = wit_component::metadata::encode(
        &resolve,
        world,
        wit_component::StringEncoding::UTF8,
        Some(&producers),
        false,
    )
    .unwrap();

    let mut module = wat::parse_str("(module)").unwrap();
    embed_metadata_section(&mut module, &metadata);

    let component = ComponentConfig::new()
        .module(module)
        .validate(true)
        .encode()
        .unwrap();

    let meta = wasm_metadata::Payload::from_binary(&component).unwrap();
    match meta {
        wasm_metadata::Payload::Component { children, .. } => match &children[0] {
            wasm_metadata::Payload::Module(child) => {
                let producers = child.producers.as_ref().expect("child module has producers");
                let processed_by = producers
                    .get("processed-by")
                    .expect("child has processed-by field");
                assert!(processed_by.get("wit-component").is_some());
                assert_eq!(
                    processed_by.get("my-fake-bindgen").expect("kept entry"),
                    "123.45"
                );
            }
            _ => panic!("expected the first child to be a module"),
        },
        _ => panic!("expected component metadata"),
    }
}
