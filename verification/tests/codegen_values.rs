use tighterror_build::coder::frozen_options::FrozenOptions;
use tighterror_build::coder::generator::bits::Bits;
use tighterror_build::coder::generator::module::ModuleGenerator;
use tighterror_build::coder::options::CodegenOptions;
use tighterror_build::parser::parse;
use tighterror_build::spec::{CategorySpec, ErrorSpec, ModuleSpec, Spec};

fn kind_value(b: &Bits, cat: usize, var: usize) -> u64 {
    ((cat as u64) << b.variant) | var as u64
}

fn frozen(spec: &Spec) -> FrozenOptions {
    let mut opts = CodegenOptions::new();
    opts.output("out.rs".to_owned());
    FrozenOptions::new(&opts, spec, false).unwrap()
}

#[test]
fn lib_test_kind_constants_are_placed_in_different_modules() {
    let s = r#"
[[modules]]
name = "errors"
categories = [
    { name = "Parsing", errors = ["QueueFull"] },
    { name = "Processing", errors = ["QueueFull"] },
]

[[modules]]
name = "internal_errors"
categories = [
    { name = "Parser", errors = ["BadFile"] },
    { name = "Processor", errors = ["BadFile"] },
]
"#;
    let spec = parse("tighterror.toml", s).unwrap();
    for (m, (cat1, cat2)) in spec
        .modules
        .iter()
        .zip([("parsing", "processing"), ("parser", "processor")])
    {
        assert_eq!(m.categories[0].module_name(), cat1);
        assert_eq!(m.categories[1].module_name(), cat2);
        assert!(!m.flat_kinds());
        let b = Bits::calculate(&spec, m).unwrap();
        assert_ne!(kind_value(&b, 0, 0), kind_value(&b, 1, 0));
    }
}

#[test]
fn test_error_kinds_are_under_kinds_module() {
    let s = r#"
[module]
flat_kinds = true

[[errors]]
name = "Timeout"

[[errors]]
name = "ConnectionRefused"
"#;
    let spec = parse("tighterror.toml", s).unwrap();
    let m = &spec.modules[0];
    assert!(m.flat_kinds());
    let b = Bits::calculate(&spec, m).unwrap();
    assert_ne!(kind_value(&b, 0, 0), kind_value(&b, 0, 1));
}

#[test]
fn lib_test_result_from_err() {
    let spec = parse("tighterror.yaml", "errors:\n  - BadFile\n").unwrap();
    assert!(spec.modules[0].result_from_err());
    let spec = parse("tighterror.yaml", "main:\n  no_std: true\nerrors:\n  - BadFile\n").unwrap();
    assert!(spec.modules[0].result_from_err());
}

#[test]
fn lib_test_result_from_err_kind() {
    let spec = parse("tighterror.yaml", "errors:\n  - BadFile\n").unwrap();
    assert!(spec.modules[0].result_from_err_kind());
    let spec = parse("tighterror.yaml", "main:\n  no_std: true\nerrors:\n  - BadFile\n").unwrap();
    assert!(spec.modules[0].result_from_err_kind());
}

#[test]
fn lib_test_error_trait() {
    let spec = parse("tighterror.yaml", "errors:\n  - BadFile\n").unwrap();
    let opts = frozen(&spec);
    let g = ModuleGenerator::new(&opts, &spec, &spec.modules[0], true).unwrap();
    assert!(g.error_trait());
    let e = &spec.modules[0].categories[0].errors[0];
    assert_eq!(e.name, "BadFile");
    assert_eq!(e.display, None);

    let spec = parse("tighterror.yaml", "main:\n  no_std: true\nerrors:\n  - BadFile\n").unwrap();
    let opts = frozen(&spec);
    let g = ModuleGenerator::new(&opts, &spec, &spec.modules[0], true).unwrap();
    assert!(!g.error_trait());
}

#[test]
fn lib_test_error_cat_name() {
    let cat = CategorySpec::implicit_with_errors(vec![ErrorSpec::with_name("BadInput".into())]);
    assert_eq!(cat.ident_name(), "GENERAL");
    let spec = parse("tighterror.yaml", "errors:\n  - BadInput\n").unwrap();
    assert_eq!(spec.modules[0].categories[0].ident_name(), "GENERAL");
    let m = ModuleSpec::implicit_with_categories(vec![cat]);
    assert_eq!(m.cat_const_doc(&m.categories[0]), "General category.");
}
