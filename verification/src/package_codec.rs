use vstd::prelude::*;

use crate::errors::Error;
use crate::model::Decoded;
use crate::version::effective_version;
use crate::wit_api::{
    decode_bytes, decode_ok, decodes_to_package, encode_graph, encode_ok, graph_has_package,
    package_shape, package_shape_of, wit_package_bytes,
};

verus! {

/// The wire layout that encoding `package` uses when `requested` was asked
/// for: an alternate-layout request on an empty package is corrected to the
/// default layout, and an open choice falls to the default layout.
pub open spec fn layout_for(
    resolve: wit_parser::Resolve,
    package: wit_parser::PackageId,
    requested: Option<bool>,
) -> bool {
    effective_version(package_shape_of(resolve, package).spec_is_empty(), requested)
}

/// Whether `bytes` is exactly the serialization of some package of some
/// graph, under the layout chosen for `requested`.
pub open spec fn reproduces_package(bytes: Seq<u8>, requested: Option<bool>) -> bool {
    exists|g: wit_parser::Resolve, p: wit_parser::PackageId|
        graph_has_package(g, p) && bytes == #[trigger] wit_package_bytes(
            g,
            p,
            layout_for(g, p, requested),
        )
}

/// Whether `bytes` is exactly the serialization of some package of some
/// graph, under some wire layout.
pub open spec fn reproduces_some_package(bytes: Seq<u8>) -> bool {
    exists|g: wit_parser::Resolve, p: wit_parser::PackageId, alt: bool|
        graph_has_package(g, p) && bytes == #[trigger] wit_package_bytes(g, p, alt)
}

/// Encode one package of the graph to its standalone binary form.
///
/// The wire layout is chosen from `requested` with the empty-package
/// correction, so both the outcome and the bytes are a function of the
/// graph, the package, and the request alone.
pub fn encode_package(
    resolve: &wit_parser::Resolve,
    package: wit_parser::PackageId,
    requested: Option<bool>,
) -> (r: Result<Vec<u8>, Error>)
    requires
        graph_has_package(*resolve, package),
    ensures
        (r is Ok) == encode_ok(*resolve, package, layout_for(*resolve, package, requested)),
        r matches Ok(b) ==> b@ == wit_package_bytes(
            *resolve,
            package,
            layout_for(*resolve, package, requested),
        ),
        r matches Err(e) ==> e matches Error::Encode { .. },
{
    let shape = package_shape(resolve, package);
    let layout = crate::version::choose_version(shape.is_empty(), requested);
    encode_graph(resolve, package, layout)
}

/// Decode a standalone package and encode it again under the same layout
/// request.
///
/// Bytes whose outermost shape is a component, rather than a standalone
/// package, are rejected rather than re-encoded; undecodable bytes are
/// reported as a decode error.
pub fn reencode_package(bytes: &Vec<u8>, requested: Option<bool>) -> (r: Result<Vec<u8>, Error>)
    ensures
        r matches Ok(b) ==> decode_ok(bytes@) && decodes_to_package(bytes@)
            && reproduces_package(b@, requested),
        (r matches Err(Error::UnexpectedArtifact)) == (decode_ok(bytes@) && !decodes_to_package(
            bytes@,
        )),
        (r matches Err(Error::Decode { .. })) == !decode_ok(bytes@),
        r matches Err(e) ==> (e matches Error::UnexpectedArtifact || e matches Error::Decode {
            ..
        } || e matches Error::Encode { .. }),
{
    let decoded = decode_bytes(bytes)?;
    match decoded {
        Decoded::Package { resolve, package } => {
            let out = encode_package(&resolve, package, requested)?;
            proof {
                assert(graph_has_package(resolve, package) && out@ == wit_package_bytes(
                    resolve,
                    package,
                    layout_for(resolve, package, requested),
                ));
            }
            Ok(out)
        },
        Decoded::Artifact { .. } => Err(Error::UnexpectedArtifact),
    }
}

/// Encoding a package twice with the same graph, package, and layout request
/// yields the same bytes, including when no layout was requested.
pub proof fn lemma_package_encoding_deterministic(
    r1: wit_parser::Resolve,
    p1: wit_parser::PackageId,
    q1: Option<bool>,
    r2: wit_parser::Resolve,
    p2: wit_parser::PackageId,
    q2: Option<bool>,
)
    ensures
        (r1 == r2 && p1 == p2 && q1 == q2) ==> wit_package_bytes(
            r1,
            p1,
            layout_for(r1, p1, q1),
        ) == wit_package_bytes(r2, p2, layout_for(r2, p2, q2)),
{
}

/// An empty package is never encoded under the alternate layout: whatever
/// was requested, the layout used for it is the default one.
pub proof fn lemma_empty_package_layout_corrected(
    resolve: wit_parser::Resolve,
    package: wit_parser::PackageId,
    requested: Option<bool>,
)
    ensures
        package_shape_of(resolve, package).spec_is_empty() ==> !layout_for(
            resolve,
            package,
            requested,
        ),
{
}

} // verus!
