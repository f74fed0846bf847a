use vstd::prelude::*;

use crate::component::ComponentConfig;
use crate::errors::Error;
use crate::metadata_codec::encode_world_metadata;
use crate::model::{Decoded, StringEncoding};
use crate::package_codec::{
    encode_package, layout_for, reproduces_package, reproduces_some_package,
};
use crate::sections::{bytes_equal, embed_metadata_section};
use crate::wit_api::{
    decode_bytes, draw_package, dummy_module_for, graph_has_package, graph_has_world, new_resolve,
    package_ids, parse_wit, print_package, validate_artifact, wit_package_bytes, world_ids,
};

verus! {

/// At most this many worlds of one graph are put through component encoding
/// in a single `run` call, keeping a run's work bounded.
pub const WORLD_CHECK_LIMIT: usize = 20;

/// Print every package of `resolve` to text, re-parse the text into a fresh
/// graph, re-encode that graph's last package under `requested`, and check
/// that the bytes reproduce `wasm` exactly.
///
/// Success means the check passed: `wasm` is exactly the serialization of a
/// package of the re-parsed graph under the chosen layout.
pub fn roundtrip_through_printing(
    resolve: &wit_parser::Resolve,
    requested: Option<bool>,
    wasm: &Vec<u8>,
) -> (r: Result<(), Error>)
    ensures
        r is Ok ==> reproduces_package(wasm@, requested),
{
    let ids = package_ids(resolve);
    let mut fresh = new_resolve();
    let mut last: Option<wit_parser::PackageId> = None;
    let mut i: usize = 0;
    while i < ids.len()
        invariant
            i <= ids@.len(),
            forall|j: int| 0 <= j < ids@.len() ==> graph_has_package(*resolve, #[trigger] ids@[j]),
            last matches Some(p) ==> graph_has_package(fresh, p),
        decreases ids@.len() - i,
    {
        let id = ids[i];
        let text = print_package(resolve, id)?;
        let new_id = parse_wit(&mut fresh, &text)?;
        last = Some(new_id);
        i = i + 1;
    }
    let last_id = match last {
        Some(p) => p,
        None => {
            return Err(Error::NoPackages);
        },
    };
    let wasm2 = encode_package(&fresh, last_id, requested)?;
    if bytes_equal(wasm, &wasm2) {
        proof {
            assert(graph_has_package(fresh, last_id) && wasm@ == wit_package_bytes(
                fresh,
                last_id,
                layout_for(fresh, last_id, requested),
            ));
        }
        Ok(())
    } else {
        Err(Error::TextRoundtripMismatch)
    }
}

/// Synthesize a module for `world`, embed the world's interface-type
/// metadata as the auxiliary custom section, encode the module as a
/// component, validate it, and decode it back.
fn check_world(resolve: &wit_parser::Resolve, world: wit_parser::WorldId) -> (r: Result<
    (),
    Error,
>)
    requires
        graph_has_world(*resolve, world),
{
    let mut module = dummy_module_for(resolve, world);
    let blob = encode_world_metadata(resolve, world, StringEncoding::Utf8)?;
    embed_metadata_section(&mut module, &blob);
    let component = ComponentConfig::new().module(module).encode()?;
    validate_artifact(&component)?;
    let _ = decode_bytes(&component)?;
    Ok(())
}

/// Generate a binary interface package from the raw input bytes, then check
/// the round-trip laws on it: the text round-trip, the binary decode/encode
/// round-trip, and component encoding with embedded metadata for its worlds.
///
/// Success returns the generated package bytes and means every check
/// passed: in particular, those bytes were reproduced exactly by re-encoding
/// a graph decoded from them, under the drawn layout. A mismatch or a
/// collaborator failure comes back as the corresponding error, never as a
/// panic.
pub fn run(data: &Vec<u8>) -> (r: Result<Vec<u8>, Error>)
    ensures
        r matches Ok(b) ==> reproduces_some_package(b@),
{
    let drawn = draw_package(data)?;
    let wasm = drawn.0;
    let requested = Some(drawn.1);

    let decoded = decode_bytes(&wasm)?;
    let (resolve, _package) = match decoded {
        Decoded::Package { resolve, package } => (resolve, package),
        Decoded::Artifact { .. } => {
            return Err(Error::UnexpectedArtifact);
        },
    };
    roundtrip_through_printing(&resolve, requested, &wasm)?;

    let decoded2 = decode_bytes(&wasm)?;
    let (resolve2, package2) = match decoded2 {
        Decoded::Package { resolve, package } => (resolve, package),
        Decoded::Artifact { .. } => {
            return Err(Error::UnexpectedArtifact);
        },
    };
    let wasm2 = encode_package(&resolve2, package2, requested)?;
    roundtrip_through_printing(&resolve2, requested, &wasm2)?;
    if !bytes_equal(&wasm, &wasm2) {
        return Err(Error::BinaryRoundtripMismatch);
    }
    proof {
        assert(graph_has_package(resolve2, package2) && wasm@ == wit_package_bytes(
            resolve2,
            package2,
            layout_for(resolve2, package2, requested),
        ));
        assert(reproduces_some_package(wasm@));
    }

    let worlds = world_ids(&resolve);
    let mut i: usize = 0;
    while i < worlds.len() && i < WORLD_CHECK_LIMIT
        invariant
            i <= worlds@.len(),
            forall|j: int| 0 <= j < worlds@.len() ==> graph_has_world(
                resolve,
                #[trigger] worlds@[j],
            ),
            reproduces_some_package(wasm@),
        decreases worlds@.len() - i,
    {
        let w = worlds[i];
        check_world(&resolve, w)?;
        i = i + 1;
    }
    Ok(wasm)
}

} // verus!
