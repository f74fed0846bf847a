//! Trusted boundary to the interface-graph collaborators.
//!
//! Everything in this module either declares an outside type or wraps one
//! outside operation behind a contract that Verus believes without proof.
//! Each wrapper's doc comment names the outside item relied on.

use vstd::prelude::*;

use crate::errors::Error;
use crate::model::{Decoded, PackageShape, StringEncoding};

verus! {

#[verifier::external_type_specification]
#[verifier::external_body]
pub struct ExResolve(wit_parser::Resolve);

#[verifier::external_type_specification]
#[verifier::external_body]
pub struct ExPackage(wit_parser::Package);

#[verifier::external_type_specification]
#[verifier::external_body]
pub struct ExWorld(wit_parser::World);

#[verifier::external_type_specification]
#[verifier::external_body]
#[verifier::reject_recursive_types(T)]
pub struct ExArenaId<T>(id_arena::Id<T>);

#[verifier::external_type_specification]
#[verifier::external_body]
pub struct ExLinker(wit_component::Linker);

#[verifier::external_type_specification]
#[verifier::external_body]
pub struct ExComponentEncoder(wit_component::ComponentEncoder);

/// Whether `package` is an identity that resolves within `resolve`.
pub uninterp spec fn graph_has_package(
    resolve: wit_parser::Resolve,
    package: wit_parser::PackageId,
) -> bool;

/// Whether `world` is an identity that resolves within `resolve`.
pub uninterp spec fn graph_has_world(
    resolve: wit_parser::Resolve,
    world: wit_parser::WorldId,
) -> bool;

/// How many worlds and interfaces the package with identity `package`
/// defines within `resolve`.
pub uninterp spec fn package_shape_of(
    resolve: wit_parser::Resolve,
    package: wit_parser::PackageId,
) -> PackageShape;

/// The binary package serialization of one package of the graph, under the
/// given wire layout.
pub uninterp spec fn wit_package_bytes(
    resolve: wit_parser::Resolve,
    package: wit_parser::PackageId,
    alt_layout: bool,
) -> Seq<u8>;

/// The interface-type metadata blob for a world's dependency closure, under
/// the given string-encoding tag.
pub uninterp spec fn metadata_blob(
    resolve: wit_parser::Resolve,
    world: wit_parser::WorldId,
    encoding_tag: u8,
) -> Seq<u8>;

/// The synthesized module whose imports and exports follow the given world.
pub uninterp spec fn dummy_module_bytes(
    resolve: wit_parser::Resolve,
    world: wit_parser::WorldId,
) -> Seq<u8>;

/// The text rendering of one package of the graph.
pub uninterp spec fn printed_text(
    resolve: wit_parser::Resolve,
    package: wit_parser::PackageId,
) -> Seq<char>;

/// The `(name, module, dl-openable)` triples registered with a linker, in
/// registration order.
pub uninterp spec fn linker_libraries(l: wit_component::Linker) -> Seq<(Seq<char>, Seq<u8>, bool)>;

/// Whether a linker synthesizes stubs for unresolved imports.
pub uninterp spec fn linker_stubbing(l: wit_component::Linker) -> bool;

/// The merged artifact produced from the given libraries and stubbing flag.
pub uninterp spec fn linked_bytes(
    libraries: Seq<(Seq<char>, Seq<u8>, bool)>,
    stub_missing: bool,
) -> Seq<u8>;

/// Whether the given libraries link into one artifact under the stubbing
/// flag.
pub uninterp spec fn link_ok(
    libraries: Seq<(Seq<char>, Seq<u8>, bool)>,
    stub_missing: bool,
) -> bool;

/// Whether the bytes decode at all, as a package or as a component.
pub uninterp spec fn decode_ok(bytes: Seq<u8>) -> bool;

/// Whether decodable bytes have the outermost shape of a standalone package
/// rather than of a composite component.
pub uninterp spec fn decodes_to_package(bytes: Seq<u8>) -> bool;

/// Whether one package of the graph can be serialized under the given wire
/// layout.
pub uninterp spec fn encode_ok(
    resolve: wit_parser::Resolve,
    package: wit_parser::PackageId,
    alt_layout: bool,
) -> bool;

/// Whether one package of the graph can be rendered as text.
pub uninterp spec fn print_ok(
    resolve: wit_parser::Resolve,
    package: wit_parser::PackageId,
) -> bool;

/// Whether the parser accepts the text against the given graph.
pub uninterp spec fn parse_ok(resolve: wit_parser::Resolve, text: Seq<char>) -> bool;

/// Whether the world's dependency closure can be serialized as a metadata
/// blob under the given string-encoding tag.
pub uninterp spec fn metadata_encode_ok(
    resolve: wit_parser::Resolve,
    world: wit_parser::WorldId,
    encoding_tag: u8,
) -> bool;

/// Whether the bytes hold decodable embedded interface-type metadata.
pub uninterp spec fn metadata_decode_ok(bytes: Seq<u8>) -> bool;

/// The structural validity oracle's verdict on an artifact.
pub uninterp spec fn valid_artifact(bytes: Seq<u8>) -> bool;

/// The primary module a component encoder was given.
pub uninterp spec fn encoder_module(e: wit_component::ComponentEncoder) -> Seq<u8>;

/// The named adapters a component encoder was given, in order.
pub uninterp spec fn encoder_adapters(
    e: wit_component::ComponentEncoder,
) -> Seq<(Seq<char>, Seq<u8>)>;

/// Whether a fresh component encoder accepts the module as its primary
/// module.
pub uninterp spec fn module_accepted(module: Seq<u8>) -> bool;

/// Whether a component encoder holding the given module and adapters accepts
/// one more named adapter.
pub uninterp spec fn adapter_accepted(
    module: Seq<u8>,
    adapters: Seq<(Seq<char>, Seq<u8>)>,
    name: Seq<char>,
    bytes: Seq<u8>,
) -> bool;

/// The composite artifact produced from the given module and adapters.
pub uninterp spec fn component_bytes(
    module: Seq<u8>,
    adapters: Seq<(Seq<char>, Seq<u8>)>,
) -> Seq<u8>;

/// Whether the given module and adapters encode into a composite artifact.
pub uninterp spec fn component_encode_ok(
    module: Seq<u8>,
    adapters: Seq<(Seq<char>, Seq<u8>)>,
) -> bool;

/// Relies on arbitrary::Unstructured, wit_smith::Config and wit_smith::smith:
/// draws a generator configuration from the raw bytes and produces a
/// generated binary interface package, together with the wire-layout flag the
/// configuration drew. The generator walks hashed sets whose order each
/// process seeds, so nothing is promised of the outcome. Generation failures
/// are reported, never panicked on.
#[verifier::external_body]
pub(crate) fn draw_package(data: &Vec<u8>) -> (r: Result<(Vec<u8>, bool), Error>) {
    let mut u = arbitrary::Unstructured::new(data.as_slice());
    let config = match u.arbitrary::<wit_smith::Config>() {
        Ok(c) => c,
        Err(e) => return Err(Error::Generator { detail: e.to_string() }),
    };
    let alt_layout = config.canonical_names;
    match wit_smith::smith(&config, &mut u) {
        Ok(wasm) => Ok((wasm, alt_layout)),
        Err(e) => Err(Error::Generator { detail: e.to_string() }),
    }
}

/// Relies on wit_parser::decoding::decode: classifies the bytes structurally
/// as either a standalone interface package or a composite component, and
/// rebuilds the interface graph they describe. The identity returned with
/// either variant resolves within the returned graph.
#[verifier::external_body]
pub(crate) fn decode_bytes(bytes: &Vec<u8>) -> (r: Result<Decoded, Error>)
    ensures
        (r is Ok) == decode_ok(bytes@),
        r matches Ok(d) ==> ((d matches Decoded::Package { .. }) == decodes_to_package(bytes@)),
        r matches Ok(d) ==> (d matches Decoded::Package { resolve, package }
            ==> graph_has_package(resolve, package)),
        r matches Ok(d) ==> (d matches Decoded::Artifact { resolve, world }
            ==> graph_has_world(resolve, world)),
        r matches Err(e) ==> e matches Error::Decode { .. },
{
    match wit_component::decode(bytes.as_slice()) {
        Ok(wit_component::DecodedWasm::WitPackage(resolve, package)) => {
            Ok(Decoded::Package { resolve, package })
        }
        Ok(wit_component::DecodedWasm::Component(resolve, world)) => {
            Ok(Decoded::Artifact { resolve, world })
        }
        Err(e) => Err(Error::Decode { detail: format!("{e:?}") }),
    }
}

/// Relies on wit_component::encode: serializes one package of the graph to
/// its standalone binary form. The output depends only on the graph, the
/// package, and the layout flag.
#[verifier::external_body]
pub(crate) fn encode_graph(
    resolve: &wit_parser::Resolve,
    package: wit_parser::PackageId,
    alt_layout: bool,
) -> (r: Result<Vec<u8>, Error>)
    requires
        graph_has_package(*resolve, package),
    ensures
        (r is Ok) == encode_ok(*resolve, package, alt_layout),
        r matches Ok(b) ==> b@ == wit_package_bytes(*resolve, package, alt_layout),
        r matches Err(e) ==> e matches Error::Encode { .. },
{
    match wit_component::encode(resolve, package, alt_layout) {
        Ok(b) => Ok(b),
        Err(e) => Err(Error::Encode { detail: format!("{e:?}") }),
    }
}

/// Relies on the arena accessors of wit_parser::Resolve: reads how many
/// worlds and interfaces the package defines.
#[verifier::external_body]
pub(crate) fn package_shape(
    resolve: &wit_parser::Resolve,
    package: wit_parser::PackageId,
) -> (s: PackageShape)
    requires
        graph_has_package(*resolve, package),
    ensures
        s == package_shape_of(*resolve, package),
{
    let p = &resolve.packages[package];
    PackageShape { worlds: p.worlds.len(), interfaces: p.interfaces.len() }
}

/// Relies on the arena accessors of wit_parser::Resolve: lists the package
/// identities of the graph, in arena order.
#[verifier::external_body]
pub(crate) fn package_ids(resolve: &wit_parser::Resolve) -> (r: Vec<wit_parser::PackageId>)
    ensures
        forall|i: int| 0 <= i < r@.len() ==> graph_has_package(*resolve, #[trigger] r@[i]),
{
    resolve.packages.iter().map(|(id, _)| id).collect()
}

/// Relies on the arena accessors of wit_parser::Resolve: lists the world
/// identities of the graph, in arena order.
#[verifier::external_body]
pub(crate) fn world_ids(resolve: &wit_parser::Resolve) -> (r: Vec<wit_parser::WorldId>)
    ensures
        forall|i: int| 0 <= i < r@.len() ==> graph_has_world(*resolve, #[trigger] r@[i]),
{
    resolve.worlds.iter().map(|(id, _)| id).collect()
}

/// Relies on wit_parser::Resolve::default: a fresh, empty interface graph.
#[verifier::external_body]
pub(crate) fn new_resolve() -> (r: wit_parser::Resolve) {
    wit_parser::Resolve::default()
}

/// Relies on wit_parser::SourceMap and wit_parser::Resolve::push_group: the
/// interface-description parser, turning text into a resolved package
/// appended to the graph.
#[verifier::external_body]
pub(crate) fn parse_wit(
    resolve: &mut wit_parser::Resolve,
    text: &String,
) -> (r: Result<wit_parser::PackageId, Error>)
    ensures
        (r is Ok) == parse_ok(*old(resolve), text@),
        r matches Ok(p) ==> graph_has_package(*final(resolve), p),
{
    let mut map = wit_parser::SourceMap::new();
    map.push_str("package.wit", text.as_str());
    let group = match map.parse() {
        Ok(g) => g,
        Err((_, e)) => return Err(Error::Parse { detail: format!("{e:?}") }),
    };
    match resolve.push_group(group) {
        Ok(p) => Ok(p),
        Err(e) => Err(Error::Parse { detail: format!("{e:?}") }),
    }
}

/// Relies on wit_component::WitPrinter: renders one package of the graph as
/// interface-description text. The output depends only on the graph and the
/// package.
#[verifier::external_body]
pub(crate) fn print_package(
    resolve: &wit_parser::Resolve,
    package: wit_parser::PackageId,
) -> (r: Result<String, Error>)
    requires
        graph_has_package(*resolve, package),
    ensures
        (r is Ok) == print_ok(*resolve, package),
        r matches Ok(t) ==> t@ == printed_text(*resolve, package),
{
    let mut printer = wit_component::WitPrinter::default();
    match printer.print(resolve, package, &[]) {
        Ok(()) => Ok(String::from(printer.output)),
        Err(e) => Err(Error::Print { detail: format!("{e:?}") }),
    }
}

/// Relies on wit_component::metadata::encode: serializes the world's
/// dependency closure plus provenance as a self-contained blob. The output
/// depends only on the graph, the world, and the string-encoding tag.
#[verifier::external_body]
pub(crate) fn encode_metadata(
    resolve: &wit_parser::Resolve,
    world: wit_parser::WorldId,
    enc: StringEncoding,
) -> (r: Result<Vec<u8>, Error>)
    requires
        graph_has_world(*resolve, world),
    ensures
        (r is Ok) == metadata_encode_ok(*resolve, world, enc.spec_tag()),
        r matches Ok(b) ==> b@ == metadata_blob(*resolve, world, enc.spec_tag()),
{
    let se = match enc {
        StringEncoding::Utf8 => wit_component::StringEncoding::UTF8,
        StringEncoding::Utf16 => wit_component::StringEncoding::UTF16,
        StringEncoding::CompactUtf16 => wit_component::StringEncoding::CompactUTF16,
    };
    match wit_component::metadata::encode(resolve, world, se, None, false) {
        Ok(b) => Ok(b),
        Err(e) => Err(Error::Encode { detail: format!("{e:?}") }),
    }
}

/// Relies on wit_component::metadata::decode: reads the interface-type
/// metadata embedded in a module's custom sections and rebuilds a fresh
/// graph holding the world's dependency closure; the returned world
/// identity resolves within that fresh graph.
#[verifier::external_body]
pub(crate) fn metadata_decode(bytes: &Vec<u8>) -> (r: Result<
    (wit_parser::Resolve, wit_parser::WorldId),
    Error,
>)
    ensures
        (r is Ok) == metadata_decode_ok(bytes@),
        r matches Ok(p) ==> graph_has_world(p.0, p.1),
{
    match wit_component::metadata::decode(bytes.as_slice()) {
        Ok((_, bindgen)) => Ok((bindgen.resolve, bindgen.world)),
        Err(e) => Err(Error::Decode { detail: format!("{e:?}") }),
    }
}

/// Relies on wit_component::dummy_module with the standard name mangling:
/// synthesizes a module whose imports and exports follow the world. The
/// output depends only on the graph and the world.
#[verifier::external_body]
pub(crate) fn dummy_module_for(
    resolve: &wit_parser::Resolve,
    world: wit_parser::WorldId,
) -> (r: Vec<u8>)
    requires
        graph_has_world(*resolve, world),
    ensures
        r@ == dummy_module_bytes(*resolve, world),
{
    wit_component::dummy_module(resolve, world, wit_parser::ManglingAndAbi::Standard32)
}

/// Relies on wasmparser::Validator with the component model enabled: the
/// structural validity oracle for produced artifacts. The verdict is a
/// function of the bytes alone.
#[verifier::external_body]
pub(crate) fn validate_artifact(bytes: &Vec<u8>) -> (r: Result<(), Error>)
    ensures
        (r is Ok) == valid_artifact(bytes@),
        r matches Err(e) ==> e matches Error::Validation { .. },
{
    let features = wasmparser::WasmFeatures::default() | wasmparser::WasmFeatures::COMPONENT_MODEL;
    match wasmparser::Validator::new_with_features(features).validate_all(bytes.as_slice()) {
        Ok(_) => Ok(()),
        Err(e) => Err(Error::Validation { detail: format!("{e:?}") }),
    }
}

/// Relies on wit_component::Linker::default: a linker with no libraries
/// registered and stubbing disabled.
#[verifier::external_body]
pub(crate) fn linker_new() -> (l: wit_component::Linker)
    ensures
        linker_libraries(l) == Seq::<(Seq<char>, Seq<u8>, bool)>::empty(),
        linker_stubbing(l) == false,
{
    wit_component::Linker::default()
}

/// Relies on wit_component::Linker::library: registers one more library; the
/// source appends the triple unconditionally, so registration cannot fail.
#[verifier::external_body]
pub(crate) fn linker_add_library(
    l: &mut wit_component::Linker,
    name: &String,
    module: &Vec<u8>,
    dl_openable: bool,
)
    ensures
        linker_libraries(*final(l)) == linker_libraries(*old(l)).push(
            (name@, module@, dl_openable),
        ),
        linker_stubbing(*final(l)) == linker_stubbing(*old(l)),
{
    let _ = l.library(name.as_str(), module.as_slice(), dl_openable);
}

/// Relies on wit_component::Linker::stub_missing_functions: records whether
/// stubs are synthesized for unresolved imports.
#[verifier::external_body]
pub(crate) fn linker_set_stubbing(l: &mut wit_component::Linker, stub: bool)
    ensures
        linker_libraries(*final(l)) == linker_libraries(*old(l)),
        linker_stubbing(*final(l)) == stub,
{
    l.stub_missing_functions(stub);
}

/// Relies on wit_component::Linker::encode: merges the registered libraries
/// into one artifact, with registration order setting precedence among
/// same-named exports. The output depends only on the registered libraries
/// and the stubbing flag.
#[verifier::external_body]
pub(crate) fn linker_finish(l: wit_component::Linker) -> (r: Result<Vec<u8>, Error>)
    ensures
        (r is Ok) == link_ok(linker_libraries(l), linker_stubbing(l)),
        r matches Ok(b) ==> b@ == linked_bytes(linker_libraries(l), linker_stubbing(l)),
        r matches Err(e) ==> e matches Error::Link { .. },
{
    match l.encode() {
        Ok(b) => Ok(b),
        Err(e) => Err(Error::Link { detail: format!("{e:?}") }),
    }
}

/// Relies on wit_component::ComponentEncoder::default: a fresh component
/// encoder with no module and no adapters.
#[verifier::external_body]
pub(crate) fn encoder_new() -> (e: wit_component::ComponentEncoder)
    ensures
        encoder_module(e) == Seq::<u8>::empty(),
        encoder_adapters(e) == Seq::<(Seq<char>, Seq<u8>)>::empty(),
{
    wit_component::ComponentEncoder::default()
}

/// Relies on wit_component::ComponentEncoder::module: sets the primary
/// module, reading the interface-type metadata embedded in it. On a fresh
/// encoder, acceptance depends on the module bytes alone.
#[verifier::external_body]
pub(crate) fn encoder_set_module(
    e: &mut wit_component::ComponentEncoder,
    module: &Vec<u8>,
) -> (r: Result<(), Error>)
    requires
        encoder_module(*old(e)) == Seq::<u8>::empty(),
        encoder_adapters(*old(e)) == Seq::<(Seq<char>, Seq<u8>)>::empty(),
    ensures
        (r is Ok) == module_accepted(module@),
        r is Ok ==> encoder_module(*final(e)) == module@,
        r is Ok ==> encoder_adapters(*final(e)) == encoder_adapters(*old(e)),
        r matches Err(err) ==> err matches Error::Encode { .. },
{
    match e.module(module.as_slice()) {
        Ok(_) => Ok(()),
        Err(err) => Err(Error::Encode { detail: format!("{err:?}") }),
    }
}

/// Relies on wit_component::ComponentEncoder::adapter: registers a named
/// adapter module whose exports may satisfy the primary module's imports.
/// The adapter's interfaces are merged into the accumulated ones, so
/// acceptance depends on the configuration given so far plus the new
/// adapter.
#[verifier::external_body]
pub(crate) fn encoder_add_adapter(
    e: &mut wit_component::ComponentEncoder,
    name: &String,
    module: &Vec<u8>,
) -> (r: Result<(), Error>)
    ensures
        (r is Ok) == adapter_accepted(
            encoder_module(*old(e)),
            encoder_adapters(*old(e)),
            name@,
            module@,
        ),
        r is Ok ==> encoder_module(*final(e)) == encoder_module(*old(e)),
        r is Ok ==> encoder_adapters(*final(e)) == encoder_adapters(*old(e)).push(
            (name@, module@),
        ),
        r matches Err(err) ==> err matches Error::Encode { .. },
{
    match e.adapter(name.as_str(), module.as_slice()) {
        Ok(_) => Ok(()),
        Err(err) => Err(Error::Encode { detail: format!("{err:?}") }),
    }
}

/// Relies on wit_component::ComponentEncoder::encode: emits the composite
/// artifact from the configured module and adapters. Every encoder reachable
/// in verified code was built by the wrappers above with all other settings
/// at their defaults, so both the outcome and the bytes are functions of the
/// module and the adapters alone.
#[verifier::external_body]
pub(crate) fn encoder_finish(e: wit_component::ComponentEncoder) -> (r: Result<Vec<u8>, Error>)
    ensures
        (r is Ok) == component_encode_ok(encoder_module(e), encoder_adapters(e)),
        r matches Ok(b) ==> b@ == component_bytes(encoder_module(e), encoder_adapters(e)),
        r matches Err(err) ==> err matches Error::Encode { .. },
{
    let mut enc = e;
    match enc.encode() {
        Ok(b) => Ok(b),
        Err(err) => Err(Error::Encode { detail: format!("{err:?}") }),
    }
}

} // verus!
