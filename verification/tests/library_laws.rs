use oneil::ast::{Decl, Expr, Literal};
use oneil::cache_file::{check_fields, check_first_field, check_version, CacheFieldsError, FieldTracker, FileCacheField};
use oneil::error::{DeclKind, IncompleteKind, ParserErrorReason};
use oneil::python::{hash_read_sources, hash_sources, is_exported_name, is_python_module_path, module_name, source_has_null_byte};
use oneil::text::Input;
use oneil::token::keyword::if_;
use oneil::token::naming::{identifier, label, unit_identifier};
use oneil::token::structure::end_of_line;
use oneil::{parse_declaration, parse_expression, parse_model, parse_note, Config};

use oneil::cache_file::FileCacheField::{Dependencies, FunctionCalls, ModulePath, OneilVersion};

fn all_fields() -> Vec<FileCacheField> {
    vec![OneilVersion, ModulePath, FileCacheField::Hash, Dependencies, FunctionCalls]
}

#[test]
fn fields_in_any_order_after_version_are_accepted() {
    assert_eq!(check_fields(&all_fields(), "0.16.0"), Ok(()));
    let keys = vec![OneilVersion, FunctionCalls, FileCacheField::Hash, ModulePath, Dependencies];
    assert_eq!(check_fields(&keys, "1.2.3"), Ok(()));
}

#[test]
fn version_must_come_first() {
    let keys = vec![ModulePath, OneilVersion, FileCacheField::Hash, Dependencies, FunctionCalls];
    assert_eq!(check_fields(&keys, "0.16.0"), Err(CacheFieldsError::VersionNotFirst));
    assert_eq!(check_first_field(None), Err(CacheFieldsError::Missing(OneilVersion)));
    assert_eq!(check_fields(&vec![], "0.16.0"), Err(CacheFieldsError::Missing(OneilVersion)));
}

#[test]
fn a_field_may_not_come_twice() {
    let keys = vec![OneilVersion, ModulePath, FileCacheField::Hash, FileCacheField::Hash, Dependencies, FunctionCalls];
    assert_eq!(check_fields(&keys, "0.16.0"), Err(CacheFieldsError::Duplicate(FileCacheField::Hash)));
    let keys = vec![OneilVersion, ModulePath, OneilVersion];
    assert_eq!(check_fields(&keys, "0.16.0"), Err(CacheFieldsError::Duplicate(OneilVersion)));
}

#[test]
fn the_first_missing_field_is_reported() {
    let keys = vec![OneilVersion, ModulePath, Dependencies];
    assert_eq!(check_fields(&keys, "0.16.0"), Err(CacheFieldsError::Missing(FileCacheField::Hash)));
    let keys = vec![OneilVersion, ModulePath, FileCacheField::Hash, Dependencies];
    assert_eq!(check_fields(&keys, "0.16.0"), Err(CacheFieldsError::Missing(FunctionCalls)));
}

#[test]
fn versions_older_than_the_oldest_supported_are_rejected() {
    assert_eq!(check_version("0.16.0"), Ok(()));
    assert_eq!(check_version("0.16.1"), Ok(()));
    assert_eq!(check_version("0.17.0-beta"), Ok(()));
    assert_eq!(check_version("2.0.0"), Ok(()));
    assert_eq!(
        check_version("0.15.9"),
        Err(CacheFieldsError::UnsupportedVersion("0.15.9".to_string()))
    );
    assert_eq!(
        check_version("0.16.0-alpha"),
        Err(CacheFieldsError::UnsupportedVersion("0.16.0-alpha".to_string()))
    );
    assert!(matches!(check_version("not a version"), Err(CacheFieldsError::InvalidVersion(_))));
}

#[test]
fn field_tracker_records_each_field_once() {
    let mut t = FieldTracker::new();
    assert_eq!(t.finish(), Err(CacheFieldsError::Missing(ModulePath)));
    assert_eq!(t.record(ModulePath), Ok(()));
    assert_eq!(t.record(ModulePath), Err(CacheFieldsError::Duplicate(ModulePath)));
    assert_eq!(t.record(OneilVersion), Err(CacheFieldsError::Duplicate(OneilVersion)));
    assert_eq!(t.record(FileCacheField::Hash), Ok(()));
    assert_eq!(t.record(Dependencies), Ok(()));
    assert_eq!(t.finish(), Err(CacheFieldsError::Missing(FunctionCalls)));
    assert_eq!(t.record(FunctionCalls), Ok(()));
    assert_eq!(t.finish(), Ok(()));
}

#[test]
fn source_hash_is_the_xxh3_of_all_bytes() {
    let sources = vec!["def f(x):\n".to_string(), "    return x\n".to_string()];
    let expected = xxhash_rust::xxh3::xxh3_64(b"def f(x):\n    return x\n");
    assert_eq!(hash_sources(&sources), expected);
    assert_eq!(hash_sources(&vec![]), xxhash_rust::xxh3::xxh3_64(b""));
}

#[test]
fn source_hash_depends_on_the_bytes_not_the_split() {
    let a = vec!["ab".to_string(), "c".to_string()];
    let b = vec!["a".to_string(), "bc".to_string()];
    let c = vec!["abd".to_string()];
    assert_eq!(hash_sources(&a), hash_sources(&b));
    assert_ne!(hash_sources(&a), hash_sources(&c));
}

#[test]
fn read_sources_hash_when_all_were_read() {
    let reads = vec![Some("def f(x):\n".to_string()), Some("    return x\n".to_string())];
    let expected = xxhash_rust::xxh3::xxh3_64(b"def f(x):\n    return x\n");
    assert_eq!(hash_read_sources(&reads), Ok(expected));
    assert_eq!(hash_read_sources(&vec![]), Ok(xxhash_rust::xxh3::xxh3_64(b"")));
}

#[test]
fn unread_sources_are_all_reported_in_order() {
    let reads = vec![None, Some("x = 1\n".to_string()), None, Some("y = 2\n".to_string())];
    assert_eq!(hash_read_sources(&reads), Err(vec![0, 2]));
    assert_eq!(hash_read_sources(&vec![Some(String::new()), None]), Err(vec![1]));
}

#[test]
fn model_reference_names_come_in_source_order() {
    let inp = Input::new("foo.bar.baz as q\n", Config::default());
    let (_, m) = oneil::declaration::model_info(&inp, 0).expect("a model reference");
    let top = m.top_component();
    let subs = m.subcomponents();
    assert_eq!(top.as_str(), "foo");
    assert_eq!(subs.iter().map(|n| n.as_str()).collect::<Vec<_>>(), vec!["bar", "baz"]);
    let alias = m.alias().expect("an alias");
    assert_eq!(alias.as_str(), "q");
    assert_eq!(m.get_alias().as_str(), "q");
    assert!(top.span().end().offset <= subs[0].span().start().offset);
    assert!(subs[0].span().end().offset <= subs[1].span().start().offset);
    assert!(subs[1].span().end().offset <= alias.span().start().offset);
    assert_eq!(m.span().start().offset, 0);
    assert_eq!(m.span().end().offset, 16);
}

#[test]
fn identifiers_are_never_keywords() {
    for kw in oneil::token::keyword::keywords() {
        let inp = Input::new(kw, Config::default());
        assert!(identifier(&inp, 0).is_err(), "{kw} must not be an identifier");
    }
    let inp = Input::new("iffy rest", Config::default());
    let (q, t) = identifier(&inp, 0).expect("iffy is an identifier");
    assert_eq!(t.lexeme(), "iffy");
    assert_eq!(inp.rest(q), "rest");
}

#[test]
fn keywords_are_whole_words() {
    let inp = Input::new("iffoo", Config::default());
    assert!(if_(&inp, 0).is_err());
    let inp = Input::new("if foo", Config::default());
    let (q, t) = if_(&inp, 0).expect("if is a keyword");
    assert_eq!(t.lexeme(), "if");
    assert_eq!(inp.rest(q), "foo");
}

#[test]
fn labels_stop_before_brackets_and_trailing_blanks() {
    let inp = Input::new("My Label  : x", Config::default());
    let (q, t) = label(&inp, 0).expect("a label");
    assert_eq!(t.lexeme(), "My Label");
    assert_eq!(inp.rest(q), ": x");
    let inp = Input::new("and", Config::default());
    assert!(label(&inp, 0).is_err());
}

#[test]
fn note_text_is_trimmed() {
    let note = parse_note("~   spaced out   \n", None).expect("a note");
    assert_eq!(note.node_value().0, "spaced out");
    let note = parse_note("~~~\n\n  inner text \n\n~~~\n", None).expect("a multi-line note");
    assert_eq!(note.node_value().0, "inner text");
}

#[test]
fn whole_input_parsers_reject_trailing_text() {
    let err = parse_expression("1 + 2 )", None).expect_err("trailing text");
    assert_eq!(err.reason, ParserErrorReason::UnexpectedToken);
    assert_eq!(err.error_offset, 6);
    let e = parse_expression("1 + 2", None).expect("an expression");
    assert!(matches!(&*e, Expr::BinaryOp { .. }));
    let lit = parse_expression("3.5", None).expect("a number");
    let Expr::Literal(l) = &*lit else {
        panic!("expected a literal");
    };
    assert_eq!(**l, Literal::Number("3.5".to_string()));
}

#[test]
fn failed_models_report_every_error() {
    let src = "x: a = \ny: b = 2\nz: c = (\n";
    let err = parse_model(src, None).expect_err("two bad parameters");
    assert_eq!(err.error_collection.len(), 2);
    assert_eq!(err.partial_result.decls().len(), 1);
    assert!(matches!(&*err.partial_result.decls()[0], Decl::Parameter(_)));
}

#[test]
fn models_without_errors_parse() {
    let model = parse_model("import foo\nx: a = 1\n\nsection Extra\ny: b = 2\n", None).expect("a model");
    assert_eq!(model.decls().len(), 2);
    assert_eq!(model.sections().len(), 1);
    assert_eq!(model.sections()[0].header().label().as_str(), "Extra");
    assert_eq!(model.sections()[0].decls().len(), 1);
}

#[test]
fn design_files_start_with_their_target() {
    let config = Config { require_design_header: true, allow_design_shorthand: false };
    let model = parse_model("design rocket\nmass = 5\n", Some(config)).expect("a design file");
    assert!(matches!(&*model.decls()[0], Decl::DesignTarget(_)));

    let err = parse_model("mass = 5\n", Some(config)).expect_err("no header");
    assert!(matches!(
        err.error_collection[0].reason,
        ParserErrorReason::Incomplete { kind: IncompleteKind::Decl(DeclKind::DesignHeaderNotFirst), .. }
    ));
    let err = parse_model("   \n", Some(config)).expect_err("empty design file");
    assert!(matches!(
        err.error_collection[0].reason,
        ParserErrorReason::Incomplete { kind: IncompleteKind::Decl(DeclKind::DesignHeaderMissing), .. }
    ));
}

#[test]
fn declarations_need_their_end_of_line_or_end_of_file() {
    let d = parse_declaration("import foo", None).expect("import at end of file");
    let Decl::Import(i) = &*d else {
        panic!("expected an import");
    };
    assert_eq!(i.path().as_str(), "foo");
    assert!(parse_declaration("import foo bar\n", None).is_err());
}

#[test]
fn a_malformed_note_after_a_section_header_is_reported() {
    let err = parse_model("section A\n~~~\nfoo\n", None).expect_err("unclosed note");
    assert!(!err.error_collection.is_empty());
    assert_eq!(err.partial_result.sections().len(), 1);
}

#[test]
fn a_lone_carriage_return_ends_a_line() {
    let inp = Input::new("\rrest", Config::default());
    let (q, t) = end_of_line(&inp, 0).expect("a carriage return is a line break");
    assert_eq!(t.lexeme(), "");
    assert_eq!(inp.rest(q), "rest");
    let inp = Input::new("# note\rnext", Config::default());
    let (q, _) = end_of_line(&inp, 0).expect("a comment ends at a carriage return");
    assert_eq!(inp.rest(q), "next");
}

#[test]
fn labels_may_not_start_with_a_dash() {
    let inp = Input::new("-foo", Config::default());
    assert!(label(&inp, 0).is_err());
    let inp = Input::new("foo-bar: x", Config::default());
    let (_, t) = label(&inp, 0).expect("a dash inside a label");
    assert_eq!(t.lexeme(), "foo-bar");
}

#[test]
fn unit_identifiers_may_end_with_percent_or_dollar() {
    let inp = Input::new("kg% rest", Config::default());
    let (q, t) = unit_identifier(&inp, 0).expect("a unit with percent");
    assert_eq!(t.lexeme(), "kg%");
    assert_eq!(inp.rest(q), "rest");
    let inp = Input::new("k$ rest", Config::default());
    let (_, t) = unit_identifier(&inp, 0).expect("a unit with dollar");
    assert_eq!(t.lexeme(), "k$");
}

#[test]
fn python_module_names_and_paths() {
    assert_eq!(module_name("pkg/sub/mod.py"), "pkg.sub.mod");
    assert_eq!(module_name("mod.py.py"), "mod");
    assert_eq!(module_name("mod"), "mod");
    assert!(is_python_module_path("lib/helpers.py"));
    assert!(is_python_module_path("lib/helpers.py/"));
    assert!(is_python_module_path("lib/helpers.py/."));
    assert!(!is_python_module_path(".py"));
    assert!(!is_python_module_path("lib/helpers.pyc"));
    assert!(!is_python_module_path("lib/.."));
    assert!(!is_python_module_path(""));
    for p in ["a.py", "dir/x.y.py", "..py", "a/./b.py", ".hidden", "x.txt", "a/..", "/", "py"] {
        let expected = std::path::Path::new(p).extension().map(|e| e == "py").unwrap_or(false);
        assert_eq!(is_python_module_path(p), expected, "{p}");
    }
    assert!(is_exported_name("area"));
    assert!(is_exported_name("_private"));
    assert!(!is_exported_name("__init__"));
    assert!(source_has_null_byte("x = 1\0"));
    assert!(!source_has_null_byte("x = 1\n"));
}

#[test]
fn end_of_line_leaves_no_blank_in_front() {
    let inp = Input::new("\n  # c\r\n\t\nnext", Config::default());
    let (q, _) = end_of_line(&inp, 0).expect("blank lines");
    assert_eq!(inp.rest(q), "next");
    let inp = Input::new("x", Config::default());
    assert!(end_of_line(&inp, 0).is_err());
}
