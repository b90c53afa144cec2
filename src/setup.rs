use vstd::prelude::*;
use crate::parameters::Parameters;

verus! {

/// Why a setup could not be loaded or stored.
#[derive(Clone, Copy, Debug, PartialEq, Eq, Structural)]
pub enum Error {
    OpeningFileFailed,
    CreatingFileFailed,
    SerializationFailed,
    DeserializationFailed,
}

/// Everything a render needs: its settings and the scene `S` to draw.
pub struct Setup<S> {
    pub parameters: Parameters,
    pub scene: S,
}

impl<S> Setup<S> {
    /// A setup of `scene` with the default settings.
    pub fn new(scene: S) -> (r: Self)
        ensures
            r.scene == scene,
            r.parameters == Parameters::spec_default(),
    {
        Setup { parameters: Parameters::default(), scene }
    }
}

} // verus!
