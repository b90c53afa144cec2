use vstd::prelude::*;

verus! {

/// Diagnostic short-circuits of the trace loop.
#[derive(Clone, Copy, Debug, PartialEq, Eq, Structural)]
pub enum DebugMode {
    /// The color of a hit is derived from its surface normal.
    Normals,
    /// The color of a hit is the albedo of its material, with no further bounce.
    Diffuse,
}

/// Settings of one render pass.
#[derive(Clone, Copy, Debug, PartialEq, Eq, Structural)]
pub struct Parameters {
    pub image_width: usize,
    pub image_height: usize,
    pub antialias_samples: u32,
    pub scatter_limit: u32,
    pub debug_mode: Option<DebugMode>,
}

impl Parameters {
    pub open spec fn spec_default() -> Parameters {
        Parameters {
            image_width: 1024,
            image_height: 576,
            antialias_samples: 16,
            scatter_limit: 16,
            debug_mode: None,
        }
    }

    /// Whether the settings describe a render that can run.
    pub open spec fn valid(&self) -> bool {
        &&& self.image_width > 0
        &&& self.image_height > 0
        &&& self.antialias_samples >= 1
    }

    pub fn is_valid(&self) -> (r: bool)
        ensures
            r == self.valid(),
    {
        self.image_width > 0 && self.image_height > 0 && self.antialias_samples >= 1
    }
}

impl Default for Parameters {
    fn default() -> (r: Parameters)
        ensures
            r == Parameters::spec_default(),
    {
        Parameters {
            image_width: 1024,
            image_height: 576,
            antialias_samples: 16,
            scatter_limit: 16,
            debug_mode: None,
        }
    }
}

} // verus!
