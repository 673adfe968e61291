//! Parser configuration.
use vstd::prelude::*;

verus! {

/// Configuration for the Oneil parser.
///
/// `require_design_header` marks the source as a design file (`.one`), whose
/// first declaration must be `design <model>`. `allow_design_shorthand`
/// enables the design-body shorthand `id(.segment) = value`; the model parser
/// turns it on itself once a design header has been read.
#[derive(Debug, Clone, Copy, PartialEq, Eq, Structural)]
pub struct Config {
    /// The source is a design file that must start with `design <model>`.
    pub require_design_header: bool,
    /// Declarations may use the design shorthand `id(.segment) = value`.
    pub allow_design_shorthand: bool,
}

impl Config {
    /// Creates a new configuration with default settings.
    pub fn new() -> (c: Config)
        ensures
            c == default_config(),
    {
        Config { require_design_header: false, allow_design_shorthand: false }
    }
}

/// The default configuration: a plain model file.
pub open spec fn default_config() -> Config {
    Config { require_design_header: false, allow_design_shorthand: false }
}

impl Default for Config {
    fn default() -> (c: Config)
        ensures
            c == default_config(),
    {
        Config::new()
    }
}

} // verus!
