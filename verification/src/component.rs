use vstd::prelude::*;

use crate::errors::Error;
use crate::wit_api::{
    adapter_accepted, component_bytes, component_encode_ok, encoder_add_adapter, encoder_adapters,
    encoder_finish, encoder_module, encoder_new, encoder_set_module, module_accepted,
    valid_artifact, validate_artifact,
};

verus! {

/// A named adapter module, bound between the primary module's imports and
/// its own exports.
pub struct Adapter {
    pub name: String,
    pub module: Vec<u8>,
}

/// The mathematical view of a registered adapter list, in order.
pub open spec fn adapter_models(s: Seq<Adapter>) -> Seq<(Seq<char>, Seq<u8>)> {
    s.map_values(|a: Adapter| (a.name@, a.module@))
}

/// Whether the component encoder accepts every adapter of the list, each
/// against the module and the adapters registered before it.
pub open spec fn adapters_accepted(module: Seq<u8>, adapters: Seq<Adapter>) -> bool {
    forall|j: int|
        0 <= j < adapters.len() ==> #[trigger] adapter_accepted(
            module,
            adapter_models(adapters.take(j)),
            adapters[j].name@,
            adapters[j].module@,
        )
}

/// Accumulated configuration for encoding one composite component: exactly
/// one primary module, zero or more named adapters, and a validation flag.
///
/// Each configuration step consumes the value and returns the extended one;
/// the terminal `encode` call performs all the work.
pub struct ComponentConfig {
    pub module: Option<Vec<u8>>,
    pub adapters: Vec<Adapter>,
    pub validate: bool,
}

impl ComponentConfig {
    /// A configuration with no primary module, no adapters, and validation
    /// disabled.
    pub fn new() -> (c: Self)
        ensures
            c.module is None,
            c.adapters@ == Seq::<Adapter>::empty(),
            c.validate == false,
    {
        ComponentConfig { module: None, adapters: Vec::new(), validate: false }
    }

    /// Set the primary module to encode.
    pub fn module(self, module: Vec<u8>) -> (c: Self)
        ensures
            c.module == Some(module),
            c.adapters@ == self.adapters@,
            c.validate == self.validate,
    {
        ComponentConfig { module: Some(module), adapters: self.adapters, validate: self.validate }
    }

    /// Register one more named adapter; adapters keep registration order.
    pub fn adapter(self, name: String, module: Vec<u8>) -> (c: Self)
        ensures
            c.adapters@ == self.adapters@.push((Adapter { name, module })),
            c.module == self.module,
            c.validate == self.validate,
    {
        let mut adapters = self.adapters;
        adapters.push(Adapter { name, module });
        ComponentConfig { module: self.module, adapters, validate: self.validate }
    }

    /// Choose whether the produced bytes must pass the structural validity
    /// oracle before being returned.
    pub fn validate(self, validate: bool) -> (c: Self)
        ensures
            c.module == self.module,
            c.adapters@ == self.adapters@,
            c.validate == validate,
    {
        ComponentConfig { module: self.module, adapters: self.adapters, validate }
    }

    /// Encode the configured component.
    ///
    /// A configuration without a primary module is rejected before any other
    /// work. Success holds exactly when the module and every adapter are
    /// accepted, the configuration encodes, and — when validation was
    /// requested — the produced bytes pass the structural validity oracle;
    /// bytes that fail the oracle are never returned. The bytes are a
    /// function of the module and the adapters alone.
    pub fn encode(&self) -> (r: Result<Vec<u8>, Error>)
        ensures
            self.module is None ==> r matches Err(Error::MissingModule),
            r matches Ok(b) ==> (self.module matches Some(m) && b@ == component_bytes(
                m@,
                adapter_models(self.adapters@),
            )),
            self.validate ==> (r matches Ok(b) ==> valid_artifact(b@)),
            (r is Ok) == (self.module matches Some(m) && module_accepted(m@)
                && adapters_accepted(m@, self.adapters@) && component_encode_ok(
                m@,
                adapter_models(self.adapters@),
            ) && (self.validate ==> valid_artifact(
                component_bytes(m@, adapter_models(self.adapters@)),
            ))),
    {
        let module = match &self.module {
            Some(m) => m,
            None => {
                return Err(Error::MissingModule);
            },
        };
        let mut enc = encoder_new();
        encoder_set_module(&mut enc, module)?;
        let mut i: usize = 0;
        while i < self.adapters.len()
            invariant
                i <= self.adapters@.len(),
                self.module matches Some(m) && m == *module && module_accepted(m@)
                    && encoder_module(enc) == m@,
                encoder_adapters(enc) == adapter_models(self.adapters@.take(i as int)),
                forall|j: int|
                    0 <= j < i ==> #[trigger] adapter_accepted(
                        module@,
                        adapter_models(self.adapters@.take(j)),
                        self.adapters@[j].name@,
                        self.adapters@[j].module@,
                    ),
            decreases self.adapters@.len() - i,
        {
            let a = &self.adapters[i];
            encoder_add_adapter(&mut enc, &a.name, &a.module)?;
            proof {
                assert(adapter_models(self.adapters@.take(i as int + 1)) =~= adapter_models(
                    self.adapters@.take(i as int),
                ).push((self.adapters@[i as int].name@, self.adapters@[i as int].module@)));
            }
            i = i + 1;
        }
        proof {
            assert(self.adapters@.take(self.adapters@.len() as int) =~= self.adapters@);
        }
        let bytes = encoder_finish(enc)?;
        if self.validate {
            validate_artifact(&bytes)?;
        }
        Ok(bytes)
    }
}

/// Encoding a component twice from the same module and the same adapters
/// yields the same bytes.
pub proof fn lemma_component_encoding_deterministic(
    m1: Seq<u8>,
    a1: Seq<Adapter>,
    m2: Seq<u8>,
    a2: Seq<Adapter>,
)
    ensures
        (m1 == m2 && a1 == a2) ==> component_bytes(m1, adapter_models(a1)) == component_bytes(
            m2,
            adapter_models(a2),
        ),
{
}

} // verus!
