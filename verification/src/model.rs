use vstd::prelude::*;

verus! {

/// How many worlds and how many interfaces a package defines.
#[derive(Clone, Copy, Debug, PartialEq, Eq, Structural)]
pub struct PackageShape {
    pub worlds: usize,
    pub interfaces: usize,
}

impl PackageShape {
    /// True when the package defines neither worlds nor interfaces.
    pub open spec fn spec_is_empty(self) -> bool {
        self.worlds == 0 && self.interfaces == 0
    }

    /// Decide whether the package is empty.
    pub fn is_empty(&self) -> (r: bool)
        ensures
            r == self.spec_is_empty(),
    {
        self.worlds == 0 && self.interfaces == 0
    }
}

/// How a module physically represents string values. The choice is recorded
/// in the interface-type metadata so that a consumer reconstructs the same
/// expectation; it is never silently reconciled.
#[derive(Clone, Copy, Debug, PartialEq, Eq, Structural)]
pub enum StringEncoding {
    Utf8,
    Utf16,
    CompactUtf16,
}

impl StringEncoding {
    /// The byte tag recorded for this encoding in the metadata blob.
    pub open spec fn spec_tag(self) -> u8 {
        match self {
            StringEncoding::Utf8 => 0,
            StringEncoding::Utf16 => 1,
            StringEncoding::CompactUtf16 => 2,
        }
    }

    /// Return the byte tag for this encoding.
    pub fn tag(&self) -> (t: u8)
        ensures
            t == self.spec_tag(),
    {
        match self {
            StringEncoding::Utf8 => 0,
            StringEncoding::Utf16 => 1,
            StringEncoding::CompactUtf16 => 2,
        }
    }
}

/// What a successful decode produced: exactly one of a standalone interface
/// package or a composite component artifact, each with the interface graph
/// rebuilt from the bytes and the identity selected within that graph.
pub enum Decoded {
    /// The bytes were a standalone interface package.
    Package { resolve: wit_parser::Resolve, package: wit_parser::PackageId },
    /// The bytes were a composite component; the selected world describes it.
    Artifact { resolve: wit_parser::Resolve, world: wit_parser::WorldId },
}

} // verus!
