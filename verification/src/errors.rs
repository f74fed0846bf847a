use vstd::prelude::*;

verus! {

/// Why an encode, decode, link, or round-trip operation failed.
///
/// Every failure is reported to the immediate caller; nothing is retried and
/// partial output is never surfaced. Variants that carry a `detail` string
/// hold the reporting collaborator's diagnostic verbatim.
#[derive(Debug)]
pub enum Error {
    /// The raw input bytes could not drive the package generator.
    Generator { detail: String },
    /// The bytes were not a well-formed package or component artifact.
    Decode { detail: String },
    /// The interface graph could not be serialized.
    Encode { detail: String },
    /// Printed interface text failed to parse back into a graph.
    Parse { detail: String },
    /// A package could not be rendered as text.
    Print { detail: String },
    /// The registered libraries could not be linked into one artifact.
    Link { detail: String },
    /// The produced artifact failed the structural validity oracle.
    Validation { detail: String },
    /// A component was finalized without a primary module.
    MissingModule,
    /// A standalone package was expected, but the bytes held a component.
    UnexpectedArtifact,
    /// The interface graph holds no package to print.
    NoPackages,
    /// Re-encoding a decoded package changed the bytes.
    BinaryRoundtripMismatch,
    /// Re-encoding the re-parsed printed text changed the bytes.
    TextRoundtripMismatch,
}

} // verus!
