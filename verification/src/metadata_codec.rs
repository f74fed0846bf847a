use vstd::prelude::*;

use crate::errors::Error;
use crate::model::StringEncoding;
use crate::wit_api::{
    encode_metadata, graph_has_world, metadata_blob, metadata_decode, metadata_decode_ok,
    metadata_encode_ok,
};

verus! {

/// Serialize the dependency closure of `world` — the world plus everything
/// it transitively references — as a self-contained blob, recording the
/// string encoding, ready to be embedded in a module as its auxiliary
/// custom section.
///
/// The blob is a function of the graph, the world, and the encoding alone.
pub fn encode_world_metadata(
    resolve: &wit_parser::Resolve,
    world: wit_parser::WorldId,
    enc: StringEncoding,
) -> (r: Result<Vec<u8>, Error>)
    requires
        graph_has_world(*resolve, world),
    ensures
        (r is Ok) == metadata_encode_ok(*resolve, world, enc.spec_tag()),
        r matches Ok(b) ==> b@ == metadata_blob(*resolve, world, enc.spec_tag()),
{
    encode_metadata(resolve, world, enc)
}

/// Decode the interface-type metadata embedded in a module's auxiliary
/// custom sections, rebuilding a fresh graph that holds only the world's
/// dependency closure. The returned identity resolves within the returned
/// graph — never within the graph the metadata was encoded from.
pub fn decode_world_metadata(bytes: &Vec<u8>) -> (r: Result<
    (wit_parser::Resolve, wit_parser::WorldId),
    Error,
>)
    ensures
        (r is Ok) == metadata_decode_ok(bytes@),
        r matches Ok(p) ==> graph_has_world(p.0, p.1),
{
    metadata_decode(bytes)
}

/// The metadata blob for one world is the same on every encode call with
/// the same graph, world, and string encoding.
pub proof fn lemma_metadata_encoding_deterministic(
    r1: wit_parser::Resolve,
    w1: wit_parser::WorldId,
    e1: u8,
    r2: wit_parser::Resolve,
    w2: wit_parser::WorldId,
    e2: u8,
)
    ensures
        (r1 == r2 && w1 == w2 && e1 == e2) ==> metadata_blob(r1, w1, e1) == metadata_blob(
            r2,
            w2,
            e2,
        ),
{
}

} // verus!
