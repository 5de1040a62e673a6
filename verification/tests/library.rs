use tighterror_build::args::Args;
use tighterror_build::coder::formatter::add_newlines;
use tighterror_build::coder::frozen_options::FrozenOptions;
use tighterror_build::coder::generator::bits::Bits;
use tighterror_build::coder::generator::helpers::handle_multiline_doc;
use tighterror_build::coder::generator::module::ModuleGenerator;
use tighterror_build::coder::generator::repr_type::ReprType;
use tighterror_build::coder::generator::{code_units, ALL_MODULES};
use tighterror_build::coder::options::CodegenOptions;
use tighterror_build::coder::{output_mode, unit_paths, update_action, OutputMode, UpdateAction};
use tighterror_build::errors::kinds::general::{
    BAD_SPEC, BAD_SPEC_FILE_EXTENSION, BAD_TOML, BAD_YAML, CATEGORY_REQUIRED, ERROR_REQUIRED,
    RUSTFMT_NOT_FOUND, SPEC_FILE_NOT_FOUND, TOO_MANY_BITS,
};
use tighterror_build::errors::{TbError, TbErrorKind, VAR_MAX};
use tighterror_build::coder::idents::is_root_level_ident;
use tighterror_build::linter::{lint, LintLevel, LintReport, TomlLinter, YamlLinter};
use tighterror_build::location::{to_decimal, Location, UNDEFINED_LOCATION};
use tighterror_build::parser::{
    format_for_extension, parse, parse_as, spec_file_path, spec_format, SpecFormat,
};
use tighterror_build::spec::definitions::{DEFAULT_SPEC_PATH_TOML, DEFAULT_SPEC_PATH_YAML};
use tighterror_build::spec::{CategorySpec, ErrorSpec, MainSpec, ModuleSpec, Spec};
use tighterror_build::parser::helpers::{
    check_category_name, check_error_name, check_module_ident, check_module_name,
    check_name_collisions, check_struct_names_collision,
};
use tighterror_build::util::get_non_unique_names;

fn errors(names: &[&str]) -> Vec<ErrorSpec> {
    names
        .iter()
        .map(|n| ErrorSpec {
            name: n.to_string(),
            ..Default::default()
        })
        .collect()
}

fn module_with(sizes: &[usize]) -> ModuleSpec {
    let categories = sizes
        .iter()
        .enumerate()
        .map(|(i, n)| CategorySpec {
            name: format!("Cat{i}"),
            errors: (0..*n)
                .map(|j| ErrorSpec {
                    name: format!("Err{j}"),
                    ..Default::default()
                })
                .collect(),
            ..Default::default()
        })
        .collect();
    ModuleSpec {
        categories,
        ..Default::default()
    }
}

fn spec_with(modules: Vec<ModuleSpec>) -> Spec {
    Spec {
        modules,
        ..Default::default()
    }
}

#[test]
fn test_kind_value_round_trip() {
    for v in 0..=VAR_MAX {
        let k = TbErrorKind::from_value(v).unwrap();
        assert_eq!(k.value(), v);
        assert_eq!(TbErrorKind::from_value(k.value()), Some(k));
    }
    assert_eq!(TbErrorKind::from_value(VAR_MAX + 1), None);
}

#[test]
fn test_kind_names_are_distinct() {
    let names: Vec<&str> = (0..=VAR_MAX)
        .map(|v| TbErrorKind::from_value(v).unwrap().name())
        .collect();
    for i in 0..names.len() {
        for j in 0..i {
            assert_ne!(names[i], names[j]);
        }
    }
    assert_eq!(BAD_SPEC.name(), "BAD_SPEC");
    assert_eq!(RUSTFMT_NOT_FOUND.name(), "RUSTFMT_NOT_FOUND");
    assert_eq!(BAD_TOML.display(), "TOML deserialization has failed.");
}

#[test]
fn test_error_kind_and_display() {
    let e = TbError::new(BAD_YAML);
    assert_eq!(e.kind(), BAD_YAML);
    assert_eq!(e.display(), "YAML deserialization has failed.");
    assert!(e.location().is_undefined());
    let e: TbError = BAD_SPEC.into();
    assert_eq!(e.kind(), BAD_SPEC);
    let r: Result<(), TbError> = BAD_SPEC.into();
    assert_eq!(r, Err(TbError::new(BAD_SPEC)));
}

#[test]
fn test_bits_four_categories_of_thirty_two_errors() {
    let m = module_with(&[32, 3, 1, 7]);
    let spec = spec_with(vec![m.clone()]);
    let b = Bits::calculate(&spec, &m).unwrap();
    assert_eq!(b.category, 2);
    assert_eq!(b.variant, 5);
    assert_eq!(b.kind, 7);
    assert_eq!(b.repr_type, ReprType::U8);
    assert_eq!(b.variant_mask, 0b0001_1111);
    assert_eq!(b.category_mask, 0b0110_0000);
    assert_eq!(b.variant_mask & b.category_mask, 0);
    assert_eq!(b.variant_mask | b.category_mask, (1u64 << b.kind) - 1);
}

#[test]
fn test_constants() {
    let m = module_with(&[256]);
    let spec = spec_with(vec![m.clone()]);
    let b = Bits::calculate(&spec, &m).unwrap();
    assert_eq!(b.kind, u8::BITS as usize);
    assert_eq!(b.category, 0);
    assert_eq!(b.repr_type, ReprType::U8);

    let m = module_with(&[257]);
    let b = Bits::calculate(&spec, &m).unwrap();
    assert_eq!(b.kind, 9);
    assert_eq!(b.repr_type, ReprType::U16);
}

#[test]
fn test_bits_single_error_takes_one_bit() {
    let m = module_with(&[1]);
    let spec = spec_with(vec![m.clone()]);
    let b = Bits::calculate(&spec, &m).unwrap();
    assert_eq!(b.variant, 1);
    assert_eq!(b.category, 0);
    assert_eq!(b.kind, 1);
}

#[test]
fn test_bits_errors() {
    let spec = Spec::default();
    let m = module_with(&[]);
    assert_eq!(Bits::calculate(&spec, &m).unwrap_err().kind(), CATEGORY_REQUIRED);
    let m = module_with(&[0, 0]);
    assert_eq!(Bits::calculate(&spec, &m).unwrap_err().kind(), ERROR_REQUIRED);
}

#[test]
fn test_repr_type() {
    assert_eq!(ReprType::from_n_bits(0).unwrap(), ReprType::U8);
    assert_eq!(ReprType::from_n_bits(8).unwrap(), ReprType::U8);
    assert_eq!(ReprType::from_n_bits(9).unwrap(), ReprType::U16);
    assert_eq!(ReprType::from_n_bits(33).unwrap(), ReprType::U64);
    assert_eq!(ReprType::from_n_bits(65).unwrap_err().kind(), TOO_MANY_BITS);
    assert_eq!(ReprType::U32.name(), "u32");
    assert_eq!(ReprType::U16.bits(), 16);
    assert_eq!(ReprType::largest_type_name(), "u64");
}

#[test]
fn test_module_generator_values() {
    let m = module_with(&[3, 1]);
    let spec = spec_with(vec![m.clone()]);
    let mut opts = CodegenOptions::new();
    opts.output("out.rs".to_owned());
    let frozen = FrozenOptions::new(&opts, &spec, false).unwrap();
    let g = ModuleGenerator::new(&frozen, &spec, &m, true).unwrap();
    assert_eq!(g.variant_maxes(), vec![2, 0]);
    assert_eq!(g.category_max_comparison(), "<=");
    assert_eq!(g.u64_to_repr_type_literal(255), Some(255));
    assert_eq!(g.u64_to_repr_type_literal(256), None);
    assert_eq!(g.usize_to_repr_type_literal(7), Some(7));
    assert!(g.error_trait());

    let m1 = module_with(&[2]);
    let g = ModuleGenerator::new(&frozen, &spec, &m1, true).unwrap();
    assert_eq!(g.category_max_comparison(), "==");

    let no_std = Spec {
        main: MainSpec {
            no_std: Some(true),
            ..Default::default()
        },
        ..spec.clone()
    };
    let g = ModuleGenerator::new(&frozen, &no_std, &m1, true).unwrap();
    assert!(!g.error_trait());
}

#[test]
fn test_code_units() {
    let one = spec_with(vec![ModuleSpec {
        name: Some("errors".into()),
        ..module_with(&[1])
    }]);
    let units = code_units(&one, false);
    assert_eq!(units.len(), 1);
    assert_eq!(units[0].name, "errors");
    assert!(!units[0].nested);
    assert_eq!(units[0].modules, vec![0]);

    let two = spec_with(vec![
        ModuleSpec {
            name: Some("first".into()),
            ..module_with(&[1])
        },
        ModuleSpec {
            name: Some("second".into()),
            ..module_with(&[1])
        },
    ]);
    let units = code_units(&two, false);
    assert_eq!(units.len(), 1);
    assert_eq!(units[0].name, ALL_MODULES);
    assert!(units[0].nested);
    assert_eq!(units[0].modules, vec![0, 1]);

    let units = code_units(&two, true);
    assert_eq!(units.len(), 2);
    assert_eq!(units[1].name, "second");
    assert_eq!(units[1].modules, vec![1]);
    assert!(!units[1].nested);
}

#[test]
fn test_frozen_options() {
    let spec = Spec {
        path: "conf/tighterror.yaml".into(),
        main: MainSpec {
            output: Some("src/errors.rs".into()),
            ..Default::default()
        },
        ..Default::default()
    };
    let opts = CodegenOptions::new();
    let f = FrozenOptions::new(&opts, &spec, false).unwrap();
    assert_eq!(f.output, "conf/src/errors.rs");
    assert!(!f.test);
    assert!(!f.update);
    assert!(!f.separate_files);
    assert_eq!(output_mode(&f), OutputMode::Write);

    let f = FrozenOptions::new(&opts, &spec, true).unwrap();
    assert_eq!(f.output, "conf/src/errors.rs/tighterror.rs");

    let mut opts = CodegenOptions::new();
    opts.output("-".to_owned()).test(Some(true)).update(Some(true));
    let f = FrozenOptions::new(&opts, &spec, false).unwrap();
    assert_eq!(f.output, "-");
    assert!(f.test);
    assert_eq!(output_mode(&f), OutputMode::Stdout);

    let mut opts = CodegenOptions::new();
    opts.output("/abs/out.rs".to_owned()).update(Some(true));
    let f = FrozenOptions::new(&opts, &spec, false).unwrap();
    assert_eq!(f.output, "/abs/out.rs");
    assert_eq!(output_mode(&f), OutputMode::Update);
}

#[test]
fn test_main_output() {
    let main = MainSpec::default();
    assert_eq!(main.output("tighterror.yaml", None).unwrap(), "-");
    assert_eq!(main.output("tighterror.yaml", Some("x.rs")).unwrap(), "x.rs");
    let main = MainSpec {
        output: Some("out.rs".into()),
        ..Default::default()
    };
    assert_eq!(main.output("tighterror.yaml", None).unwrap(), "out.rs");
    assert_eq!(main.output("a/b/spec.toml", None).unwrap(), "a/b/out.rs");
    assert!(!main.no_std());
}

#[test]
fn test_main_output_override_is_relative_to_spec() {
    let main = MainSpec::default();
    assert_eq!(
        main.output("/proj/spec/tighterror.yaml", Some("src/errors.rs")).unwrap(),
        "/proj/spec/src/errors.rs"
    );
    assert_eq!(main.output("/proj/spec/tighterror.yaml", Some("-")).unwrap(), "-");
    assert_eq!(main.output("/proj/spec/tighterror.yaml", Some("/abs.rs")).unwrap(), "/abs.rs");
    assert_eq!(main.output("", Some("out.rs")).unwrap(), "out.rs");
    let main = MainSpec {
        output: Some("out.rs".into()),
        ..Default::default()
    };
    assert_eq!(main.output("a/spec.toml", Some("-")).unwrap(), "-");
    assert_eq!(main.output("a/spec.toml", Some("b.rs")).unwrap(), "a/b.rs");
    assert_eq!(main.output("./spec.toml", Some("b.rs")).unwrap(), "./b.rs");
    assert_eq!(main.output("a//c/./spec.toml", Some("b.rs")).unwrap(), "a//c/b.rs");
    assert_eq!(main.output("spec.toml", Some("b.rs")).unwrap(), "b.rs");
}

#[test]
fn test_unit_paths_and_update_action() {
    let two = spec_with(vec![
        ModuleSpec {
            name: Some("first".into()),
            ..module_with(&[1])
        },
        ModuleSpec {
            name: Some("second".into()),
            ..module_with(&[1])
        },
    ]);
    let mut opts = CodegenOptions::new();
    opts.output("gen".to_owned()).separate_files(Some(true));
    let f = FrozenOptions::new(&opts, &two, false).unwrap();
    let units = code_units(&two, f.separate_files);
    assert_eq!(unit_paths(&f, &units), vec!["gen/first.rs", "gen/second.rs"]);

    let mut opts = CodegenOptions::new();
    opts.output("gen/all.rs".to_owned());
    let f = FrozenOptions::new(&opts, &two, false).unwrap();
    let units = code_units(&two, f.separate_files);
    assert_eq!(unit_paths(&f, &units), vec!["gen/all.rs"]);

    assert_eq!(update_action("a", "a"), UpdateAction::Keep);
    assert_eq!(update_action("a", "b"), UpdateAction::Replace);
}

#[test]
fn test_codegen_options_chain() {
    let mut opts = CodegenOptions::new();
    opts.spec("s.yaml".to_owned())
        .output_option(None)
        .test(Some(false))
        .separate_files(Some(true));
    assert_eq!(opts.spec.as_deref(), Some("s.yaml"));
    assert_eq!(opts.output, None);
    assert_eq!(opts.test, Some(false));
    assert_eq!(opts.update, None);
    assert_eq!(opts.separate_files, Some(true));
    opts.spec_option(None).output("o.rs".to_owned()).update(Some(true));
    assert_eq!(opts.spec, None);
    assert_eq!(opts.output.as_deref(), Some("o.rs"));
    assert_eq!(opts.update, Some(true));
}

#[test]
fn test_args_flags() {
    let args = Args {
        test: true,
        ..Default::default()
    };
    assert_eq!(args.test(), Some(true));
    assert_eq!(args.update(), None);
    assert_eq!(args.separate_files(), None);
}

#[test]
fn test_spec_file_choice_and_format() {
    assert_eq!(spec_file_path(Some("x.toml"), true, true).unwrap(), "x.toml");
    assert_eq!(spec_file_path(None, true, true).unwrap(), DEFAULT_SPEC_PATH_YAML);
    assert_eq!(spec_file_path(None, false, true).unwrap(), DEFAULT_SPEC_PATH_TOML);
    assert_eq!(spec_file_path(None, false, false).unwrap_err().kind(), SPEC_FILE_NOT_FOUND);

    assert_eq!(format_for_extension(Some("yaml")).unwrap(), SpecFormat::Yaml);
    assert_eq!(format_for_extension(Some("toml")).unwrap(), SpecFormat::Toml);
    assert_eq!(format_for_extension(Some("yml")).unwrap_err().kind(), BAD_SPEC_FILE_EXTENSION);
    assert_eq!(format_for_extension(None).unwrap_err().kind(), BAD_SPEC_FILE_EXTENSION);
    assert_eq!(spec_format("dir/tighterror.toml").unwrap(), SpecFormat::Toml);
    assert_eq!(spec_format("spec.json").unwrap_err().kind(), BAD_SPEC_FILE_EXTENSION);
    assert_eq!(spec_format("tighterror").unwrap_err().kind(), BAD_SPEC_FILE_EXTENSION);
    assert_eq!(spec_format("dir/spec.txt").unwrap_err().kind(), BAD_SPEC_FILE_EXTENSION);
    assert_eq!(spec_format("dir.yaml/spec").unwrap_err().kind(), BAD_SPEC_FILE_EXTENSION);
    assert_eq!(spec_format("/a/b/.yaml").unwrap_err().kind(), BAD_SPEC_FILE_EXTENSION);
    assert_eq!(spec_format("a/b/c.yaml").unwrap(), SpecFormat::Yaml);
    assert_eq!(spec_format("./x.json").unwrap_err().kind(), BAD_SPEC_FILE_EXTENSION);
    assert_eq!(spec_format("a//x.json").unwrap_err().kind(), BAD_SPEC_FILE_EXTENSION);
    assert_eq!(spec_format("./x.toml").unwrap(), SpecFormat::Toml);
    assert_eq!(spec_format("a//b/./x.yaml/").unwrap(), SpecFormat::Yaml);
    assert_eq!(spec_format("a/..").unwrap_err().kind(), BAD_SPEC_FILE_EXTENSION);
    assert_eq!(parse("dir/spec.txt", "errors:\n  - BadFile\n").unwrap_err().kind(), BAD_SPEC_FILE_EXTENSION);
    assert_eq!(parse("conf/s.yaml", "errors:\n  - BadFile\n").unwrap().path, "conf/s.yaml");
}

#[test]
fn test_parse_records_path() {
    let spec = parse("conf/tighterror.yaml", "errors:\n  - BadInput\n").unwrap();
    assert_eq!(spec.path, "conf/tighterror.yaml");
    assert_eq!(spec.modules.len(), 1);
    assert_eq!(spec.modules[0].categories[0].errors[0].name, "BadInput");

    let spec = parse_as(SpecFormat::Toml, "t.toml", "errors = [\"BadInput\"]").unwrap();
    assert_eq!(spec.path, "t.toml");

    assert_eq!(parse("t.toml", "errors = [").unwrap_err().kind(), BAD_TOML);
    assert_eq!(parse("t.yaml", "errors: [BadInput").unwrap_err().kind(), BAD_YAML);
    assert_eq!(parse("t.yaml", "errors: []").unwrap_err().kind(), BAD_SPEC);
    assert_eq!(parse("t.txt", "errors: [A]").unwrap_err().kind(), BAD_SPEC_FILE_EXTENSION);
}

#[test]
fn test_parsed_specs_are_well_formed() {
    let s = "module:\n  name: my_errors\ncategory:\n  name: Parsing\nerrors:\n  - BadInput\n  - BadFile\n";
    let spec = parse("s.yaml", s).unwrap();
    assert_eq!(spec.modules.len(), 1);
    assert_eq!(spec.modules[0].name(), "my_errors");
    assert_eq!(spec.modules[0].categories.len(), 1);
    assert_eq!(spec.modules[0].categories[0].name, "Parsing");
    assert_eq!(spec.modules[0].categories[0].errors.len(), 2);

    let s = "category:\n  doc: Some category.\nerrors:\n  - BadInput\n";
    let spec = parse("s.yaml", s).unwrap();
    assert_eq!(spec.modules[0].categories[0].name, "General");
    assert_eq!(spec.modules[0].categories[0].doc.as_deref(), Some("Some category."));

    let s = "module:\n  name: my_errors\n";
    assert_eq!(parse("s.yaml", s).unwrap_err().kind(), BAD_SPEC);
}

#[test]
fn test_multiple_modules_toml() {
    let s = r#"
[[modules]]
name = "parser"
categories = [{ name = "Parsing", errors = ["QueueFull"] }, { name = "Processing", errors = ["QueueFull"] }]

[[modules]]
name = "processor"
flat_kinds = true
categories = [{ name = "Cat", errors = ["BadFile", "QueueFull"] }]
"#;
    let spec = parse("m.toml", s).unwrap();
    assert_eq!(spec.modules.len(), 2);
    assert_eq!(spec.modules[0].categories.len(), 2);

    let dup = r#"
[[modules]]
name = "parser"
flat_kinds = true
categories = [{ name = "Parsing", errors = ["QueueFull"] }, { name = "Processing", errors = ["QueueFull"] }]
"#;
    assert_eq!(parse("m.toml", dup).unwrap_err().kind(), BAD_SPEC);

    let same_names = r#"
[[modules]]
name = "parser"
categories = [{ name = "Parsing", errors = ["A"] }]

[[modules]]
name = "Parser"
categories = [{ name = "Parsing", errors = ["A"] }]
"#;
    assert_eq!(parse("m.toml", same_names).unwrap_err().kind(), BAD_SPEC);
}

#[test]
fn test_yaml_short_notation() {
    let s = "errors:\n  - BadInput: The input is bad.\n";
    let spec = parse("s.yaml", s).unwrap();
    let e = &spec.modules[0].categories[0].errors[0];
    assert_eq!(e.name, "BadInput");
    assert_eq!(e.display.as_deref(), Some("The input is bad."));
    let s = "errors:\n  - BadInput: 1\n";
    assert_eq!(parse("s.yaml", s).unwrap_err().kind(), BAD_SPEC);
    let s = "errors:\n  - {}\n";
    assert_eq!(parse("s.yaml", s).unwrap_err().kind(), BAD_SPEC);
}

#[test]
fn test_lint() {
    assert!(lint(Some("conf/s.yaml"), "errors:\n  - BadInput\n").unwrap().messages().is_empty());
    assert!(lint(None, "errors:\n  - BadInput\n").unwrap().messages().is_empty());
    assert!(lint(Some("./s.toml"), "[[errors]]\nname = \"BadInput\"\n").unwrap().messages().is_empty());
    assert_eq!(lint(Some("s.json"), "{}").unwrap_err().kind(), BAD_SPEC_FILE_EXTENSION);
    assert_eq!(lint(Some("s"), "errors: []").unwrap_err().kind(), BAD_SPEC_FILE_EXTENSION);
    assert_eq!(lint(Some("s.yaml"), "errors: 1").unwrap_err().kind(), BAD_SPEC);
    assert_eq!(lint(Some("s.toml"), "errors = [").unwrap_err().kind(), BAD_TOML);
    assert_eq!(TomlLinter::from_str("errors = 1").unwrap_err().kind(), BAD_SPEC);
    assert!(TomlLinter::from_str("[[errors]]\nname = \"BadInput\"\n").unwrap().messages().is_empty());
}

#[test]
fn test_root_level_idents() {
    for s in ["Error", "ErrorCategory", "ErrorKind", "_cn", "_n", "_d", "_p", "variant", "test"] {
        assert!(is_root_level_ident(s), "{s}");
    }
    assert!(!is_root_level_ident("variants"));
    assert!(!is_root_level_ident("types"));
}

#[test]
fn test_variant_type_name() {
    let e = ErrorSpec {
        name: "BAD_FILE".into(),
        ..Default::default()
    };
    assert_eq!(e.variant_type_name(), "BadFile");
    let e = ErrorSpec {
        name: "MY_ERR1".into(),
        ..Default::default()
    };
    assert_eq!(e.variant_type_name(), "MyErr1");
    let e = ErrorSpec {
        name: "SingleError".into(),
        ..Default::default()
    };
    assert_eq!(e.variant_type_name(), "Singleerror");
}

#[test]
fn test_linter() {
    let r = YamlLinter::from_str("errors:\n  - BadInput\n").unwrap();
    assert!(r.messages().is_empty());
    assert_eq!(YamlLinter::from_str("errors: 1").unwrap_err().kind(), BAD_SPEC);
    let mut r = LintReport::from_error("bad".to_owned());
    assert_eq!(r.messages().len(), 1);
    assert_eq!(r.messages()[0].level, LintLevel::Error);
    r.error("worse".to_owned());
    assert_eq!(r.messages()[1].msg, "worse");
    assert!(!r.is_empty());
    assert!(LintReport::new().is_empty());
}

#[test]
fn test_multiline_doc() {
    assert_eq!(handle_multiline_doc("A doc."), " A doc.");
    assert_eq!(handle_multiline_doc(" A doc."), " A doc.");
    assert_eq!(handle_multiline_doc("A doc.\n"), " A doc.\n");
    assert_eq!(
        handle_multiline_doc("First line.\n\nThird line.\n"),
        "\n * First line.\n * \n * Third line.\n"
    );
    assert_eq!(handle_multiline_doc("a\r\nb"), "\n * a\n * b\n");
}

#[test]
fn test_add_newlines() {
    let code = "pub struct A(u8);\nimpl A {\n    pub fn new() -> Self {\n        A(0)\n    }\n}\n/// Doc.\npub const B: u8 = 1;\n";
    let expected = "pub struct A(u8);\n\nimpl A {\n    pub fn new() -> Self {\n        A(0)\n    }\n\n}\n\n\n/// Doc.\npub const B: u8 = 1;\n";
    assert_eq!(add_newlines(code), expected);
    assert_eq!(add_newlines("#[derive(Debug)]\nstruct X;\n"), "\n#[derive(Debug)]\nstruct X;\n");
    assert_eq!(add_newlines(""), "");
}

#[test]
fn test_location() {
    assert!(Location::undefined().is_undefined());
    assert_eq!(Location::undefined().display(), UNDEFINED_LOCATION);
    let l = Location::new("src/lib.rs", 42);
    assert!(!l.is_undefined());
    assert_eq!(l.display(), "src/lib.rs:42");
    assert_eq!(to_decimal(0), "0");
    assert_eq!(to_decimal(4_294_967_295), "4294967295");
}

#[test]
fn test_non_unique_names() {
    let names = vec!["Alpha", "beta", "ALPHA", "Beta", "gamma", "alpha"];
    assert_eq!(get_non_unique_names(&names), vec!["ALPHA", "Beta", "alpha"]);
    assert!(get_non_unique_names(&vec!["A", "B"]).is_empty());
}

#[test]
fn test_error_trait_attribute_ignored_only_under_no_std() {
    let m = ModuleSpec {
        error_trait: Some(false),
        ..Default::default()
    };
    assert!(!m.error_trait(Some(false)));
    assert!(!m.error_trait(None));
    assert!(!m.error_trait(Some(true)));
    let d = ModuleSpec::default();
    assert!(d.error_trait(None));
    assert!(d.error_trait(Some(false)));
    assert!(!d.error_trait(Some(true)));
    let on = ModuleSpec {
        error_trait: Some(true),
        ..Default::default()
    };
    assert!(!on.error_trait(Some(true)));
}

#[test]
fn test_module_accessors() {
    let m = ModuleSpec {
        err_name: Some("MyError".into()),
        ..module_with(&[2, 3])
    };
    assert_eq!(m.err_name(), "MyError");
    assert_eq!(m.err_kind_name(), "ErrorKind");
    assert_eq!(m.err_cat_name(), "ErrorCategory");
    assert_eq!(m.name(), "errors");
    assert_eq!(m.n_errors_in_largest_category(), Some(3));
    assert_eq!(m.category_max(), 1);
    assert!(m.result_from_err());
    assert!(m.error_trait(None));
    assert!(!m.error_trait(Some(true)));
    assert!(!m.flat_kinds());
    let mut it = m.errors_iter();
    let mut names = Vec::new();
    while let Some(e) = it.next() {
        names.push(e.name.clone());
    }
    assert_eq!(names, vec!["Err0", "Err1", "Err0", "Err1", "Err2"]);
    let c = CategorySpec {
        name: "BadThings".into(),
        errors: errors(&["X"]),
        ..Default::default()
    };
    assert_eq!(c.ident_name(), "BAD_THINGS");
    assert_eq!(c.module_name(), "bad_things");
}

#[test]
fn test_kind_values_identify_errors() {
    let m = module_with(&[5, 1, 3]);
    let spec = spec_with(vec![m.clone()]);
    let b = Bits::calculate(&spec, &m).unwrap();
    let mut seen = Vec::new();
    for (c, cat) in m.categories.iter().enumerate() {
        for v in 0..cat.errors.len() {
            let value = ((c as u64) << b.variant) | v as u64;
            assert!(value < (1u64 << b.kind));
            assert_eq!(value & b.variant_mask, v as u64);
            assert_eq!((value & b.category_mask) >> b.variant, c as u64);
            assert!(!seen.contains(&value));
            seen.push(value);
        }
    }
    assert_eq!(seen.len(), 9);
}

#[test]
fn test_name_checks() {
    assert!(check_error_name("BadInput").is_ok());
    assert_eq!(check_error_name("bad_input").unwrap_err().kind(), BAD_SPEC);
    assert!(check_category_name("Parsing").is_ok());
    assert!(check_module_name("my_errors").is_ok());
    assert_eq!(check_module_name("MyErrors").unwrap_err().kind(), BAD_SPEC);
    assert_eq!(check_module_name("").unwrap_err().kind(), BAD_SPEC);
    assert!(check_module_ident("Error", "err_name").is_ok());
    assert!(check_module_ident("MyError", "err_name").is_ok());
    assert_eq!(check_module_ident("ErrorKind", "err_name").unwrap_err().kind(), BAD_SPEC);

    let m = ModuleSpec {
        err_name: Some("Same".into()),
        err_kind_name: Some("Same".into()),
        ..module_with(&[1])
    };
    assert_eq!(check_struct_names_collision(&m).unwrap_err().kind(), BAD_SPEC);
    assert!(check_struct_names_collision(&module_with(&[1])).is_ok());
    assert!(check_name_collisions(&module_with(&[1])).is_ok());
    let m = ModuleSpec {
        err_name: Some("Err0".into()),
        ..module_with(&[1])
    };
    assert_eq!(check_name_collisions(&m).unwrap_err().kind(), BAD_SPEC);
}

#[test]
fn test_readme_example() {
    let spec = parse("tighterror.yaml", "---\nerrors:\n  - BadArg\n  - BadFilePath\n").unwrap();
    assert_eq!(spec.modules.len(), 1);
    let m = &spec.modules[0];
    assert_eq!(m.categories.len(), 1);
    let c = &m.categories[0];
    assert_eq!(c.name, "General");
    assert_eq!(c.ident_name(), "GENERAL");
    let names: Vec<&str> = c.errors.iter().map(|e| e.name.as_str()).collect();
    assert_eq!(names, vec!["BadArg", "BadFilePath"]);
    let b = Bits::calculate(&spec, m).unwrap();
    assert_eq!(b.category, 0);
    assert_eq!(b.category_mask, 0);
    assert_eq!(b.variant, 1);
    assert_eq!(b.repr_type, ReprType::U8);
    assert_eq!(m.err_name(), "Error");
    assert_eq!(m.err_kind_name(), "ErrorKind");
    assert_eq!(m.err_cat_name(), "ErrorCategory");

    let toml = parse("tighterror.toml", "errors = [\"BadArg\", \"BadFilePath\"]\n").unwrap();
    assert_eq!(toml.modules, spec.modules);
}
