use vstd::prelude::*;

use crate::errors::Error;
use crate::wit_api::{
    link_ok, linked_bytes, linker_add_library, linker_finish, linker_libraries, linker_new,
    linker_set_stubbing, linker_stubbing,
};

verus! {

/// One library registered for linking: a named module, possibly marked
/// dynamically loadable.
pub struct LibraryModule {
    pub name: String,
    pub module: Vec<u8>,
    pub dl_openable: bool,
}

/// The mathematical view of one registered library.
pub open spec fn library_model(e: LibraryModule) -> (Seq<char>, Seq<u8>, bool) {
    (e.name@, e.module@, e.dl_openable)
}

/// The mathematical view of a registration list, in order.
pub open spec fn library_models(s: Seq<LibraryModule>) -> Seq<(Seq<char>, Seq<u8>, bool)> {
    s.map_values(|e: LibraryModule| library_model(e))
}

/// Accumulated configuration for linking several library modules into one
/// artifact. Registration order is kept: it decides precedence when several
/// libraries export the same name.
///
/// Each configuration step consumes the value and returns the extended one;
/// the terminal `link` call performs all the work.
pub struct ModuleLinker {
    pub libraries: Vec<LibraryModule>,
    pub stub_missing: bool,
}

impl ModuleLinker {
    /// A linker with no libraries registered and stubbing disabled.
    pub fn new() -> (l: Self)
        ensures
            l.libraries@ == Seq::<LibraryModule>::empty(),
            l.stub_missing == false,
    {
        ModuleLinker { libraries: Vec::new(), stub_missing: false }
    }

    /// Register one more library, after all previously registered ones.
    pub fn library(self, name: String, module: Vec<u8>, dl_openable: bool) -> (l: Self)
        ensures
            l.libraries@ == self.libraries@.push((LibraryModule { name, module, dl_openable })),
            l.stub_missing == self.stub_missing,
    {
        let mut libraries = self.libraries;
        libraries.push(LibraryModule { name, module, dl_openable });
        ModuleLinker { libraries, stub_missing: self.stub_missing }
    }

    /// Choose whether unresolved imports are satisfied by synthesized stubs
    /// (`true`) or reported as a linking failure (`false`, the default).
    pub fn stub_missing_functions(self, stub: bool) -> (l: Self)
        ensures
            l.libraries@ == self.libraries@,
            l.stub_missing == stub,
    {
        ModuleLinker { libraries: self.libraries, stub_missing: stub }
    }

    /// Merge the registered libraries into one artifact.
    ///
    /// Both the outcome and the output bytes are a function of the
    /// registered libraries, in order, and of the stubbing flag alone; a
    /// failure is reported as a link error.
    pub fn link(&self) -> (r: Result<Vec<u8>, Error>)
        ensures
            (r is Ok) == link_ok(library_models(self.libraries@), self.stub_missing),
            r matches Ok(b) ==> b@ == linked_bytes(
                library_models(self.libraries@),
                self.stub_missing,
            ),
            r matches Err(e) ==> e matches Error::Link { .. },
    {
        let mut raw = linker_new();
        let mut i: usize = 0;
        while i < self.libraries.len()
            invariant
                i <= self.libraries@.len(),
                linker_libraries(raw) == library_models(self.libraries@.take(i as int)),
            decreases self.libraries@.len() - i,
        {
            let e = &self.libraries[i];
            linker_add_library(&mut raw, &e.name, &e.module, e.dl_openable);
            proof {
                assert(library_models(self.libraries@.take(i as int + 1)) =~= library_models(
                    self.libraries@.take(i as int),
                ).push(library_model(self.libraries@[i as int])));
            }
            i = i + 1;
        }
        proof {
            assert(self.libraries@.take(self.libraries@.len() as int) =~= self.libraries@);
        }
        linker_set_stubbing(&mut raw, self.stub_missing);
        linker_finish(raw)
    }
}

} // verus!
