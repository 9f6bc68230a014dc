//! The fixed build-time configuration.
//!
//! Nothing here is discovered: the native compilation of the relocated
//! source unit and the parsing of the relocated header both run under
//! fixed, reproducible settings. The two share the same pair of feature
//! switches — the header must be parsed exactly as the source was compiled
//! — but deliberately not the same language-standard revision: the header
//! is parsed under an older, narrower revision, so that the generated
//! bindings cannot come to depend on newer compiler-specific features.

use vstd::prelude::*;

verus! {

/// The two upstream feature switches, set for compilation and generation
/// alike: force pointer-cast-based type reinterpretation instead of
/// union-based reinterpretation, and disable the upstream library's
/// variable-length-array code paths, which this wrapper never uses.
#[verifier::ext_equal]
pub struct FeatureSwitches {
    pub pointer_cast_reinterpretation: bool,
    pub disable_variable_length_arrays: bool,
}

/// How the relocated native source unit is compiled.
pub struct CompilerConfig {
    /// The year of the required language-standard revision.
    pub standard_revision: u16,
    /// Whether the upstream source's non-critical warnings are surfaced
    /// to the consuming project.
    pub surface_warnings: bool,
    pub switches: FeatureSwitches,
}

/// How the relocated header is parsed when the typed interface is
/// generated.
pub struct GeneratorConfig {
    /// The year of the language-standard revision the header is parsed
    /// under.
    pub standard_revision: u16,
    pub switches: FeatureSwitches,
}

/// The switches both configurations carry.
pub open spec fn spec_feature_switches() -> FeatureSwitches {
    FeatureSwitches { pointer_cast_reinterpretation: true, disable_variable_length_arrays: true }
}

/// The fixed compiler configuration.
pub open spec fn spec_compiler_config() -> CompilerConfig {
    CompilerConfig {
        standard_revision: 17,
        surface_warnings: false,
        switches: spec_feature_switches(),
    }
}

/// The fixed generator configuration.
pub open spec fn spec_generator_config() -> GeneratorConfig {
    GeneratorConfig { standard_revision: 11, switches: spec_feature_switches() }
}

/// The configuration the binding compiler runs under: a fixed modern
/// standard revision, warnings not surfaced, both feature switches set.
pub fn compiler_config() -> (c: CompilerConfig)
    ensures
        c == spec_compiler_config(),
{
    CompilerConfig {
        standard_revision: 17,
        surface_warnings: false,
        switches: FeatureSwitches {
            pointer_cast_reinterpretation: true,
            disable_variable_length_arrays: true,
        },
    }
}

/// The configuration the interface generator parses under: an older fixed
/// standard revision, with the same feature switches as the compiler.
pub fn generator_config() -> (g: GeneratorConfig)
    ensures
        g == spec_generator_config(),
{
    GeneratorConfig {
        standard_revision: 11,
        switches: FeatureSwitches {
            pointer_cast_reinterpretation: true,
            disable_variable_length_arrays: true,
        },
    }
}

/// The two configurations agree on the feature switches — the header is
/// parsed exactly as the source was compiled — while the generator's
/// standard revision is strictly older than the compiler's, so the
/// generated bindings stay independent of the newer revision.
pub proof fn lemma_configs_consistent()
    ensures
        spec_generator_config().switches == spec_compiler_config().switches,
        spec_generator_config().standard_revision < spec_compiler_config().standard_revision,
{
}

} // verus!
