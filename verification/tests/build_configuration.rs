use plum_vendor::config::{compiler_config, generator_config};

#[test]
fn compiler_runs_under_the_fixed_modern_revision() {
    let c = compiler_config();
    assert_eq!(c.standard_revision, 17);
    assert!(!c.surface_warnings);
    assert!(c.switches.pointer_cast_reinterpretation);
    assert!(c.switches.disable_variable_length_arrays);
}

#[test]
fn generator_parses_under_an_older_revision_with_the_same_switches() {
    let c = compiler_config();
    let g = generator_config();
    assert_eq!(g.standard_revision, 11);
    assert!(g.standard_revision < c.standard_revision);
    assert_eq!(
        g.switches.pointer_cast_reinterpretation,
        c.switches.pointer_cast_reinterpretation
    );
    assert_eq!(
        g.switches.disable_variable_length_arrays,
        c.switches.disable_variable_length_arrays
    );
}
