#![allow(unused_imports, dead_code, unused_variables, unused_mut)]
use oneil::ast::{
    ApplyDesign, BinaryOp, ComparisonOp, Decl, DesignParameter, DesignTarget, Directory, Expr,
    Identifier, Import, Label, Limits, Literal, Model, ModelInfo, ModelKind, Node, Note,
    Parameter, ParameterValue, PerformanceMarker, PiecewisePart, RenderName, Section,
    SectionHeader, SubmodelDecl, Test, TraceLevel, UnaryOp, UnitExponent, UnitExpr, UnitOp,
    Variable,
};
use oneil::error::{
    DeclKind, ExpectKind, ExprKind, ImportKind, IncompleteKind, ParameterKind, ParserError,
    ParserErrorReason, SectionKind, SubmodelKeyword, SubmodelKind, TestKind, UnitKind,
};
use oneil::model::ErrorsWithPartialResult;
use oneil::outcome::{Fault, PResult};
use oneil::text::{Input, Span as SourceSpan};
use oneil::token::error::{
    ExpectKind as TokenExpectKind, IncompleteKind as TokenIncompleteKind, TokenErrorKind,
};
use oneil::Config;
use std::ops::Deref;
use std::rc::Rc;

#[derive(Clone)]
struct InputSpan {
    inp: Rc<Input>,
    pos: usize,
}

impl std::fmt::Debug for InputSpan {
    fn fmt(&self, f: &mut std::fmt::Formatter<'_>) -> std::fmt::Result {
        f.write_str(&format!("InputSpan({:?} at {})", self.fragment(), self.pos))
    }
}

impl InputSpan {
    fn new_extra(src: &str, config: Config) -> Self {
        InputSpan { inp: Rc::new(Input::new(src, config)), pos: 0 }
    }

    fn at(&self, pos: usize) -> Self {
        InputSpan { inp: self.inp.clone(), pos }
    }

    fn fragment(&self) -> &'static &'static str {
        let s: &'static str = Box::leak(self.inp.rest(self.pos).into_boxed_str());
        Box::leak(Box::new(s))
    }
}

fn done<T>(i: &InputSpan, r: PResult<T, ParserError>) -> Result<(InputSpan, T), nom::Err<ParserError>> {
    match r {
        Ok((q, t)) => Ok((i.at(q), t)),
        Err(Fault::Error(e)) => Err(nom::Err::Error(e)),
        Err(Fault::Failure(e)) => Err(nom::Err::Failure(e)),
    }
}

fn assert_failure(
            input_str: &str,
            error_offset: usize,
            expected_kind: IncompleteKind,
            cause_start: usize,
            cause_end: usize,
        ) {
            let input = InputSpan::new_extra(input_str, Config::default());
            let error = match parse(input) {
                Err(nom::Err::Failure(e) | nom::Err::Error(e)) => e,
                Ok(_) => panic!("Expected error for {input_str:?}"),
                Err(e) => panic!("Unexpected nom result for {input_str:?}: {e:?}"),
            };
            assert_eq!(error.error_offset, error_offset, "offset for {input_str:?}");
            let ParserErrorReason::Incomplete { kind, cause } = error.reason else {
                panic!(
                    "Expected Incomplete for {input_str:?}, got {:?}",
                    error.reason
                );
            };
            assert_eq!(kind, expected_kind, "kind for {input_str:?}");
            assert_eq!(
                cause.start().offset,
                cause_start,
                "cause_start for {input_str:?}"
            );
            assert_eq!(cause.end().offset, cause_end, "cause_end for {input_str:?}");
        }

fn parse(i: InputSpan) -> Result<(InputSpan, Node<Decl>), nom::Err<ParserError>> {
    done(&i, oneil::declaration::parse(&i.inp, i.pos))
}

fn parse_complete(i: InputSpan) -> Result<(InputSpan, Node<Decl>), nom::Err<ParserError>> {
    done(&i, oneil::declaration::parse_complete(&i.inp, i.pos))
}

fn directory_name(i: InputSpan) -> Result<(InputSpan, Node<Directory>), nom::Err<ParserError>> {
    done(&i, oneil::declaration::directory_name(&i.inp, i.pos))
}

fn opt_directory_path(i: InputSpan) -> Result<(InputSpan, Vec<Node<Directory>>), nom::Err<ParserError>> {
    done(&i, oneil::declaration::opt_directory_path(&i.inp, i.pos))
}

fn model_info(i: InputSpan) -> Result<(InputSpan, Node<ModelInfo>), nom::Err<ParserError>> {
    done(&i, oneil::declaration::model_info(&i.inp, i.pos))
}

#[test]
fn import_decl() {
            let input = InputSpan::new_extra("import foo\n", Config::default());
            let (rest, decl) = parse(input).expect("parsing should succeed");

            let Decl::Import(ref import_node) = *decl else {
                panic!("Expected import declaration");
            };

            assert_eq!(import_node.path().as_str(), "foo");
            assert_eq!(rest.fragment(), &"");
        }

#[test]
fn reference_decl() {
            let input = InputSpan::new_extra("reference foo\n", Config::default());
            let (rest, decl) = parse(input).expect("parsing should succeed");

            let Decl::Submodel(ref submodel_node) = *decl else {
                panic!("Expected submodel declaration");
            };

            assert_eq!(submodel_node.model_info().get_alias().as_str(), "foo");
            assert_eq!(submodel_node.model_kind(), ModelKind::Reference);
            assert_eq!(rest.fragment(), &"");
        }

#[test]
fn submodel_decl_simple_without_alias() {
            let input = InputSpan::new_extra("submodel foo\n", Config::default());
            let (rest, decl) = parse(input).expect("parsing should succeed");

            let Decl::Submodel(ref submodel_node) = *decl else {
                panic!("Expected submodel declaration");
            };

            let model_info = submodel_node.model_info();
            assert_eq!(model_info.top_component().as_str(), "foo");
            assert_eq!(model_info.subcomponents().len(), 0);
            assert_eq!(model_info.get_alias().as_str(), "foo");
            assert_eq!(submodel_node.model_kind(), ModelKind::Submodel);
            assert!(submodel_node.imported_submodels().is_none());
            assert_eq!(rest.fragment(), &"");
        }

#[test]
fn submodel_decl_with_alias() {
            let input = InputSpan::new_extra("submodel foo as bar\n", Config::default());
            let (rest, decl) = parse(input).expect("parsing should succeed");

            let Decl::Submodel(ref submodel_node) = *decl else {
                panic!("Expected submodel declaration");
            };

            let model_info = submodel_node.model_info();
            assert_eq!(model_info.top_component().as_str(), "foo");
            assert_eq!(model_info.get_alias().as_str(), "bar");
            assert_eq!(submodel_node.model_kind(), ModelKind::Submodel);
            assert!(submodel_node.imported_submodels().is_none());
            assert_eq!(rest.fragment(), &"");
        }

#[test]
fn submodel_with_extraction_brackets() {
            let input = InputSpan::new_extra("submodel foo as f [bar, baz]\n", Config::default());
            let (rest, decl) = parse(input).expect("parsing should succeed");

            let Decl::Submodel(ref submodel_node) = *decl else {
                panic!("Expected submodel declaration");
            };
            assert_eq!(submodel_node.model_info().get_alias().as_str(), "f");
            let submodels = submodel_node
                .imported_submodels()
                .expect("should have submodels");
            assert_eq!(submodels.len(), 2);
            assert_eq!(submodels[0].get_alias().as_str(), "bar");
            assert_eq!(submodels[1].get_alias().as_str(), "baz");
            assert_eq!(rest.fragment(), &"");
        }

#[test]
fn submodel_with_single_extracted_submodel_and_alias() {
            let input = InputSpan::new_extra("submodel foo [bar as baz]\n", Config::default());
            let (rest, decl) = parse(input).expect("parsing should succeed");

            let Decl::Submodel(ref submodel_node) = *decl else {
                panic!("Expected submodel declaration");
            };

            let model_info = submodel_node.model_info();
            assert_eq!(model_info.top_component().as_str(), "foo");
            assert_eq!(model_info.get_alias().as_str(), "foo");
            assert_eq!(submodel_node.model_kind(), ModelKind::Submodel);

            let submodels = submodel_node
                .imported_submodels()
                .expect("should have submodels");
            assert_eq!(submodels.len(), 1);
            assert_eq!(submodels[0].top_component().as_str(), "bar");
            assert_eq!(submodels[0].get_alias().as_str(), "baz");

            assert_eq!(rest.fragment(), &"");
        }

#[test]
fn submodel_with_single_extracted_submodel_no_alias() {
            let input = InputSpan::new_extra("submodel foo [bar]\n", Config::default());
            let (rest, decl) = parse(input).expect("parsing should succeed");

            let Decl::Submodel(ref submodel_node) = *decl else {
                panic!("Expected submodel declaration");
            };

            let submodels = submodel_node
                .imported_submodels()
                .expect("should have submodels");
            assert_eq!(submodels.len(), 1);
            assert_eq!(submodels[0].top_component().as_str(), "bar");
            assert_eq!(submodels[0].get_alias().as_str(), "bar");

            assert_eq!(rest.fragment(), &"");
        }

#[test]
fn parse_complete_submodel_success() {
            let input = InputSpan::new_extra("submodel foo [bar as baz]\n", Config::default());
            let (rest, decl) = parse_complete(input).expect("parsing should succeed");

            let Decl::Submodel(ref submodel_node) = *decl else {
                panic!("Expected submodel declaration");
            };

            assert_eq!(submodel_node.model_info().top_component().as_str(), "foo");
            let submodels = submodel_node
                .imported_submodels()
                .expect("should have submodels");
            assert_eq!(submodels.len(), 1);
            assert_eq!(submodels[0].get_alias().as_str(), "baz");

            assert_eq!(rest.fragment(), &"");
        }

#[test]
fn submodel_with_single_directory() {
            let input =
                InputSpan::new_extra("submodel utils/math as calculator\n", Config::default());
            let (rest, decl) = parse_complete(input).expect("parsing should succeed");

            let Decl::Submodel(ref submodel_node) = *decl else {
                panic!("Expected submodel declaration");
            };

            let model_info = submodel_node.model_info();
            assert_eq!(model_info.top_component().as_str(), "math");
            assert_eq!(model_info.get_alias().as_str(), "calculator");

            assert_eq!(submodel_node.directory_path().len(), 1);
            assert_eq!(submodel_node.directory_path()[0].as_str(), "utils");

            assert_eq!(rest.fragment(), &"");
        }

#[test]
fn submodel_with_single_directory_without_alias() {
            let input = InputSpan::new_extra("submodel utils/math\n", Config::default());
            let (rest, decl) = parse_complete(input).expect("parsing should succeed");

            let Decl::Submodel(ref submodel_node) = *decl else {
                panic!("Expected submodel declaration");
            };

            let model_info = submodel_node.model_info();
            assert_eq!(model_info.top_component().as_str(), "math");
            assert_eq!(model_info.get_alias().as_str(), "math");

            assert_eq!(submodel_node.directory_path().len(), 1);
            assert_eq!(submodel_node.directory_path()[0].as_str(), "utils");

            assert_eq!(rest.fragment(), &"");
        }

#[test]
fn submodel_with_multiple_directories() {
            let input = InputSpan::new_extra(
                "submodel models/physics/mechanics as dynamics\n",
                Config::default(),
            );
            let (rest, decl) = parse_complete(input).expect("parsing should succeed");

            let Decl::Submodel(ref submodel_node) = *decl else {
                panic!("Expected submodel declaration");
            };

            let model_info = submodel_node.model_info();
            assert_eq!(model_info.top_component().as_str(), "mechanics");
            assert_eq!(model_info.get_alias().as_str(), "dynamics");

            assert_eq!(submodel_node.directory_path().len(), 2);
            assert_eq!(submodel_node.directory_path()[0].as_str(), "models");
            assert_eq!(submodel_node.directory_path()[1].as_str(), "physics");

            assert_eq!(rest.fragment(), &"");
        }

#[test]
fn submodel_with_directory_and_extracted_submodels() {
            let input = InputSpan::new_extra(
                "submodel utils/math [trigonometry as trig]\n",
                Config::default(),
            );
            let (rest, decl) = parse_complete(input).expect("parsing should succeed");

            let Decl::Submodel(ref submodel_node) = *decl else {
                panic!("Expected submodel declaration");
            };

            let model_info = submodel_node.model_info();
            assert_eq!(model_info.top_component().as_str(), "math");
            assert_eq!(model_info.get_alias().as_str(), "math");

            let submodels = submodel_node
                .imported_submodels()
                .expect("should have submodels");
            assert_eq!(submodels.len(), 1);
            assert_eq!(submodels[0].top_component().as_str(), "trigonometry");
            assert_eq!(submodels[0].get_alias().as_str(), "trig");

            assert_eq!(submodel_node.directory_path().len(), 1);
            assert_eq!(submodel_node.directory_path()[0].as_str(), "utils");

            assert_eq!(rest.fragment(), &"");
        }

#[test]
fn submodel_with_current_directory() {
            let input =
                InputSpan::new_extra("submodel ./local_model as local\n", Config::default());
            let (rest, decl) = parse_complete(input).expect("parsing should succeed");

            let Decl::Submodel(ref submodel_node) = *decl else {
                panic!("Expected submodel declaration");
            };

            let model_info = submodel_node.model_info();
            assert_eq!(model_info.top_component().as_str(), "local_model");
            assert_eq!(model_info.get_alias().as_str(), "local");

            assert_eq!(submodel_node.directory_path().len(), 1);
            assert_eq!(submodel_node.directory_path()[0].as_str(), ".");

            assert_eq!(rest.fragment(), &"");
        }

#[test]
fn submodel_with_parent_directory() {
            let input =
                InputSpan::new_extra("submodel ../parent_model as parent\n", Config::default());
            let (rest, decl) = parse_complete(input).expect("parsing should succeed");

            let Decl::Submodel(ref submodel_node) = *decl else {
                panic!("Expected submodel declaration");
            };

            let model_info = submodel_node.model_info();
            assert_eq!(model_info.top_component().as_str(), "parent_model");
            assert_eq!(model_info.get_alias().as_str(), "parent");

            assert_eq!(submodel_node.directory_path().len(), 1);
            assert_eq!(submodel_node.directory_path()[0].as_str(), "..");

            assert_eq!(rest.fragment(), &"");
        }

#[test]
fn submodel_with_mixed_directory_types() {
            let input = InputSpan::new_extra(
                "submodel ../shared/./utils/math as shared_math\n",
                Config::default(),
            );
            let (rest, decl) = parse_complete(input).expect("parsing should succeed");

            let Decl::Submodel(ref submodel_node) = *decl else {
                panic!("Expected submodel declaration");
            };

            let model_info = submodel_node.model_info();
            assert_eq!(model_info.top_component().as_str(), "math");
            assert_eq!(model_info.get_alias().as_str(), "shared_math");

            assert_eq!(submodel_node.directory_path().len(), 4);
            assert_eq!(submodel_node.directory_path()[0].as_str(), "..");
            assert_eq!(submodel_node.directory_path()[1].as_str(), "shared");
            assert_eq!(submodel_node.directory_path()[2].as_str(), ".");
            assert_eq!(submodel_node.directory_path()[3].as_str(), "utils");

            assert_eq!(rest.fragment(), &"");
        }

#[test]
fn submodel_with_complex_path_and_subcomponents() {
            let input = InputSpan::new_extra(
                "submodel models/physics/mechanics [rotational.dynamics as rotation]\n",
                Config::default(),
            );
            let (rest, decl) = parse_complete(input).expect("parsing should succeed");

            let Decl::Submodel(ref submodel_node) = *decl else {
                panic!("Expected submodel declaration");
            };

            let model_info = submodel_node.model_info();
            assert_eq!(model_info.top_component().as_str(), "mechanics");
            assert_eq!(model_info.get_alias().as_str(), "mechanics");

            let submodels = submodel_node
                .imported_submodels()
                .expect("should have submodels");
            assert_eq!(submodels.len(), 1);
            assert_eq!(submodels[0].top_component().as_str(), "rotational");
            assert_eq!(submodels[0].subcomponents().len(), 1);
            assert_eq!(submodels[0].subcomponents()[0].as_str(), "dynamics");
            assert_eq!(submodels[0].get_alias().as_str(), "rotation");

            assert_eq!(submodel_node.directory_path().len(), 2);
            assert_eq!(submodel_node.directory_path()[0].as_str(), "models");
            assert_eq!(submodel_node.directory_path()[1].as_str(), "physics");

            assert_eq!(rest.fragment(), &"");
        }

#[test]
fn directory_name_parsing() {
            let input = InputSpan::new_extra("..", Config::default());
            let (rest, dir) = directory_name(input).expect("should parse parent directory");
            assert_eq!(dir.as_str(), "..");
            assert_eq!(rest.fragment(), &"");

            let input = InputSpan::new_extra(".", Config::default());
            let (rest, dir) = directory_name(input).expect("should parse current directory");
            assert_eq!(dir.as_str(), ".");
            assert_eq!(rest.fragment(), &"");

            let input = InputSpan::new_extra("foo", Config::default());
            let (rest, dir) = directory_name(input).expect("should parse regular directory name");
            assert_eq!(dir.as_str(), "foo");
            assert_eq!(rest.fragment(), &"");
        }

#[test]
fn mixed_directory_path_parsing() {
            let input = InputSpan::new_extra("../shared/./utils/", Config::default());
            let (_rest, directory_path) =
                opt_directory_path(input).expect("should parse mixed directory path");

            assert_eq!(directory_path.len(), 4);
            assert_eq!(*directory_path[0], Directory::Parent);
            assert_eq!(*directory_path[1], Directory::Name("shared".to_string()));
            assert_eq!(*directory_path[2], Directory::Current);
            assert_eq!(*directory_path[3], Directory::Name("utils".to_string()));
        }

#[test]
fn submodel_decl_with_extracted_submodel_with_subcomponents() {
            let input = InputSpan::new_extra("submodel foo [bar.qux]\n", Config::default());
            let (rest, decl) = parse(input).expect("parsing should succeed");

            let Decl::Submodel(ref submodel_node) = *decl else {
                panic!("Expected submodel declaration");
            };

            let submodels = submodel_node
                .imported_submodels()
                .expect("should have submodels");
            assert_eq!(submodels.len(), 1);
            let submodel = &submodels[0];
            assert_eq!(submodel.top_component().as_str(), "bar");
            assert_eq!(submodel.subcomponents().len(), 1);
            assert_eq!(submodel.subcomponents()[0].as_str(), "qux");
            assert_eq!(submodel.get_alias().as_str(), "qux");

            assert_eq!(rest.fragment(), &"");
        }

#[test]
fn submodel_decl_with_multiple_extracted_submodels() {
            let input = InputSpan::new_extra("submodel foo [bar, qux]\n", Config::default());
            let (rest, decl) = parse(input).expect("parsing should succeed");

            let Decl::Submodel(ref submodel_node) = *decl else {
                panic!("Expected submodel declaration");
            };

            let submodels = submodel_node
                .imported_submodels()
                .expect("should have submodels");
            assert_eq!(submodels.len(), 2);
            assert_eq!(submodels[0].top_component().as_str(), "bar");
            assert_eq!(submodels[0].get_alias().as_str(), "bar");
            assert_eq!(submodels[1].top_component().as_str(), "qux");
            assert_eq!(submodels[1].get_alias().as_str(), "qux");

            assert_eq!(rest.fragment(), &"");
        }

#[test]
fn submodel_decl_with_multiple_extracted_submodels_with_aliases() {
            let input = InputSpan::new_extra(
                "submodel foo [bar as baz, qux as quux]\n",
                Config::default(),
            );
            let (rest, decl) = parse(input).expect("parsing should succeed");

            let Decl::Submodel(ref submodel_node) = *decl else {
                panic!("Expected submodel declaration");
            };

            let submodels = submodel_node
                .imported_submodels()
                .expect("should have submodels");
            assert_eq!(submodels.len(), 2);
            assert_eq!(submodels[0].top_component().as_str(), "bar");
            assert_eq!(submodels[0].get_alias().as_str(), "baz");
            assert_eq!(submodels[1].top_component().as_str(), "qux");
            assert_eq!(submodels[1].get_alias().as_str(), "quux");

            assert_eq!(rest.fragment(), &"");
        }

#[test]
fn submodel_decl_with_multiple_submodels_and_subcomponents() {
            let input =
                InputSpan::new_extra("submodel foo [bar.qux, baz.quux.quuz]\n", Config::default());
            let (rest, decl) = parse(input).expect("parsing should succeed");

            let Decl::Submodel(ref submodel_node) = *decl else {
                panic!("Expected submodel declaration");
            };

            let submodels = submodel_node
                .imported_submodels()
                .expect("should have submodels");
            assert_eq!(submodels.len(), 2);

            let s1 = &submodels[0];
            assert_eq!(s1.top_component().as_str(), "bar");
            assert_eq!(s1.subcomponents().len(), 1);
            assert_eq!(s1.subcomponents()[0].as_str(), "qux");
            assert_eq!(s1.get_alias().as_str(), "qux");

            let s2 = &submodels[1];
            assert_eq!(s2.top_component().as_str(), "baz");
            assert_eq!(s2.subcomponents().len(), 2);
            assert_eq!(s2.subcomponents()[0].as_str(), "quux");
            assert_eq!(s2.subcomponents()[1].as_str(), "quuz");
            assert_eq!(s2.get_alias().as_str(), "quuz");

            assert_eq!(rest.fragment(), &"");
        }

#[test]
fn submodel_decl_with_trailing_comma() {
            let input = InputSpan::new_extra("submodel foo [bar, qux,]\n", Config::default());
            let (rest, decl) = parse(input).expect("parsing should succeed");

            let Decl::Submodel(ref submodel_node) = *decl else {
                panic!("Expected submodel declaration");
            };

            let submodels = submodel_node
                .imported_submodels()
                .expect("should have submodels");
            assert_eq!(submodels.len(), 2);
            assert_eq!(submodels[0].get_alias().as_str(), "bar");
            assert_eq!(submodels[1].get_alias().as_str(), "qux");

            assert_eq!(rest.fragment(), &"");
        }

#[test]
fn submodel_decl_with_empty_submodel_list() {
            let input = InputSpan::new_extra("submodel foo []\n", Config::default());
            let (rest, decl) = parse(input).expect("parsing should succeed");

            let Decl::Submodel(ref submodel_node) = *decl else {
                panic!("Expected submodel declaration");
            };

            let submodels = submodel_node
                .imported_submodels()
                .expect("should have submodels");
            assert_eq!(submodels.len(), 0);

            assert_eq!(rest.fragment(), &"");
        }

#[test]
fn submodel_decl_with_model_alias_and_extracted_submodels() {
            let input = InputSpan::new_extra("submodel foo as bar [qux, baz]\n", Config::default());
            let (rest, decl) = parse(input).expect("parsing should succeed");

            let Decl::Submodel(ref submodel_node) = *decl else {
                panic!("Expected submodel declaration");
            };

            assert_eq!(submodel_node.model_info().top_component().as_str(), "foo");
            assert_eq!(submodel_node.model_info().get_alias().as_str(), "bar");

            let submodels = submodel_node
                .imported_submodels()
                .expect("should have submodels");
            assert_eq!(submodels.len(), 2);
            assert_eq!(submodels[0].get_alias().as_str(), "qux");
            assert_eq!(submodels[1].get_alias().as_str(), "baz");

            assert_eq!(rest.fragment(), &"");
        }

#[test]
fn submodel_decl_with_complex_path_and_extracted_submodels() {
            let input = InputSpan::new_extra(
                "submodel utils/math [trigonometry as trig, sin, cos as cosine]\n",
                Config::default(),
            );
            let (rest, decl) = parse_complete(input).expect("parsing should succeed");

            let Decl::Submodel(ref submodel_node) = *decl else {
                panic!("Expected submodel declaration");
            };

            assert_eq!(submodel_node.directory_path().len(), 1);
            assert_eq!(submodel_node.directory_path()[0].as_str(), "utils");

            let submodels = submodel_node
                .imported_submodels()
                .expect("should have submodels");
            assert_eq!(submodels.len(), 3);
            assert_eq!(submodels[0].top_component().as_str(), "trigonometry");
            assert_eq!(submodels[0].get_alias().as_str(), "trig");
            assert_eq!(submodels[1].top_component().as_str(), "sin");
            assert_eq!(submodels[1].get_alias().as_str(), "sin");
            assert_eq!(submodels[2].top_component().as_str(), "cos");
            assert_eq!(submodels[2].get_alias().as_str(), "cosine");

            assert_eq!(rest.fragment(), &"");
        }

#[test]
fn submodel_decl_with_extracted_submodels_and_newlines() {
            let input = InputSpan::new_extra("submodel foo [\nbar,\nqux\n]\n", Config::default());
            let (rest, decl) = parse(input).expect("parsing should succeed");

            let Decl::Submodel(ref submodel_node) = *decl else {
                panic!("Expected submodel declaration");
            };

            let submodels = submodel_node
                .imported_submodels()
                .expect("should have submodels");
            assert_eq!(submodels.len(), 2);
            assert_eq!(submodels[0].get_alias().as_str(), "bar");
            assert_eq!(submodels[1].get_alias().as_str(), "qux");

            assert_eq!(rest.fragment(), &"");
        }

#[test]
fn apply_decl_simple() {
            let input = InputSpan::new_extra("apply uhf to U\n", Config::default());
            let (rest, decl) = parse(input).expect("parsing should succeed");

            let Decl::ApplyDesign(ref apply_node) = *decl else {
                panic!("Expected apply declaration");
            };
            assert_eq!(apply_node.design_file().as_str(), "uhf");
            assert_eq!(apply_node.target().len(), 1);
            assert_eq!(apply_node.target()[0].as_str(), "U");
            assert!(apply_node.nested_applies().is_empty());
            assert_eq!(rest.fragment(), &"");
        }

#[test]
fn apply_decl_with_dotted_target_and_nested_block() {
            let input = InputSpan::new_extra(
                "apply uhf to sc.U [\n  alibaba to a,\n]\n",
                Config::default(),
            );
            let (rest, decl) = parse(input).expect("parsing should succeed");

            let Decl::ApplyDesign(ref apply_node) = *decl else {
                panic!("Expected apply declaration");
            };
            assert_eq!(apply_node.design_file().as_str(), "uhf");
            assert_eq!(apply_node.target().len(), 2);
            assert_eq!(apply_node.target()[0].as_str(), "sc");
            assert_eq!(apply_node.target()[1].as_str(), "U");
            assert_eq!(apply_node.nested_applies().len(), 1);
            let nested = &apply_node.nested_applies()[0];
            assert_eq!(nested.design_file().as_str(), "alibaba");
            assert_eq!(nested.target().len(), 1);
            assert_eq!(nested.target()[0].as_str(), "a");
            assert_eq!(rest.fragment(), &"");
        }

#[test]
fn design_parameter_dotted_path() {
            let config = Config {
                allow_design_shorthand: true,
                ..Config::default()
            };
            let input = InputSpan::new_extra("thrust.main_engine = 2000\n", config);
            let (rest, decl) = parse(input).expect("parsing should succeed");

            let Decl::DesignParameter(ref param_node) = *decl else {
                panic!("Expected design parameter");
            };
            assert_eq!(param_node.ident().as_str(), "thrust");
            let seg = param_node
                .instance_path()
                .expect("should have one instance segment");
            assert_eq!(seg.as_str(), "main_engine");
            assert_eq!(rest.fragment(), &"");
        }

#[test]
fn design_parameter_full_with_render_name_no_space_after_colon() {
            // Render name immediately adjacent to colon (no space).
            let config = Config {
                allow_design_shorthand: true,
                ..Config::default()
            };
            let input =
                InputSpan::new_extra("Surface area:{A_{\\mathrm{s}}} A = 4 * pi * R^2\n", config);
            let (_, decl) = parse(input).expect("should parse with no space after colon");
            let Decl::DesignParameter(ref param_node) = *decl else {
                panic!("Expected design parameter");
            };
            assert_eq!(
                param_node
                    .render_name()
                    .expect("should have render name")
                    .as_str(),
                "A_{\\mathrm{s}}"
            );
            assert_eq!(param_node.ident().as_str(), "A");
        }

#[test]
fn design_parameter_full_with_render_name() {
            let config = Config {
                allow_design_shorthand: true,
                ..Config::default()
            };
            let input =
                InputSpan::new_extra("Surface area: {A_{\\mathrm{s}}} A = 4 * pi * R^2\n", config);
            let (rest, decl) = parse(input).expect("parsing should succeed");

            let Decl::DesignParameter(ref param_node) = *decl else {
                panic!("Expected design parameter");
            };
            assert_eq!(
                param_node.label().expect("should have label").as_str(),
                "Surface area"
            );
            assert_eq!(
                param_node
                    .render_name()
                    .expect("should have render name")
                    .as_str(),
                "A_{\\mathrm{s}}"
            );
            assert_eq!(param_node.ident().as_str(), "A");
            assert!(param_node.instance_path().is_none());
            assert_eq!(rest.fragment(), &"");
        }

#[test]
fn design_parameter_full_without_render_name() {
            let config = Config {
                allow_design_shorthand: true,
                ..Config::default()
            };
            let input = InputSpan::new_extra("Surface area: A = 4 * pi * R^2\n", config);
            let (rest, decl) = parse(input).expect("parsing should succeed");

            let Decl::DesignParameter(ref param_node) = *decl else {
                panic!("Expected design parameter");
            };
            assert_eq!(
                param_node.label().expect("should have label").as_str(),
                "Surface area"
            );
            assert!(param_node.render_name().is_none());
            assert_eq!(param_node.ident().as_str(), "A");
            assert_eq!(rest.fragment(), &"");
        }

#[test]
fn design_parameter_shorthand_no_render_name() {
            let config = Config {
                allow_design_shorthand: true,
                ..Config::default()
            };
            let input = InputSpan::new_extra("mass = 5\n", config);
            let (rest, decl) = parse(input).expect("parsing should succeed");

            let Decl::DesignParameter(ref param_node) = *decl else {
                panic!("Expected design parameter");
            };
            assert!(param_node.label().is_none());
            assert!(param_node.render_name().is_none());
            assert_eq!(param_node.ident().as_str(), "mass");
            assert_eq!(rest.fragment(), &"");
        }

#[test]
fn expect_decl_errors() {
            let cases: &[&str] = &[
                "",
                "foo\n",
                "   \n",
                "# comment\n",
                "invalid syntax\n",
                "impor\n",
                "export foo\n",
                "Import foo\n",
                "+++---\n",
                "123 456\n",
            ];
            for input_str in cases {
                let input = InputSpan::new_extra(input_str, Config::default());
                let error = match parse(input) {
                    Err(nom::Err::Error(e) | nom::Err::Failure(e)) => e,
                    Ok(_) => panic!("Expected error for {input_str:?}"),
                    Err(e) => panic!("Unexpected nom result for {input_str:?}: {e:?}"),
                };
                assert_eq!(
                    error.reason,
                    ParserErrorReason::Expect(ExpectKind::Decl),
                    "reason for {input_str:?}"
                );
            }
        }

#[test]
fn import_incomplete_errors() {            let cases: &[(&str, usize, ImportKind, usize, usize)] = &[
                ("import\n", 6, ImportKind::MissingPath, 0, 6),
                ("import 123\n", 7, ImportKind::MissingPath, 0, 6),
                ("import foo@bar\n", 10, ImportKind::MissingEndOfLine, 7, 10),
            ];
            for &(input_str, offset, ref import_kind, cs, ce) in cases {
                assert_failure(
                    input_str,
                    offset,
                    IncompleteKind::Decl(DeclKind::Import(*import_kind)),
                    cs,
                    ce,
                );
            }
        }

#[test]
fn submodel_incomplete_errors() {
            // (input, error_offset, expected_kind, cause_start, cause_end)
            let cases: &[(&str, usize, IncompleteKind, usize, usize)] = &[
                (
                    "submodel foo as\n",
                    15,
                    IncompleteKind::Decl(DeclKind::AsMissingAlias),
                    13,
                    15,
                ),
                (
                    "submodel 123\n",
                    9,
                    IncompleteKind::Decl(DeclKind::Submodel(SubmodelKind::MissingModelInfo {
                        after: SubmodelKeyword::Submodel,
                    })),
                    0,
                    8,
                ),
                (
                    "submodel foo as 123\n",
                    16,
                    IncompleteKind::Decl(DeclKind::AsMissingAlias),
                    13,
                    15,
                ),
            ];
            for &(input_str, offset, ref expected_kind, cs, ce) in cases {
                assert_failure(input_str, offset, *expected_kind, cs, ce);
            }
        }

#[test]
fn model_info_expect_identifier_errors() {
            let cases: &[&str] = &["", "123.bar"];
            for input_str in cases {
                let input = InputSpan::new_extra(input_str, Config::default());
                let Err(nom::Err::Error(error)) = model_info(input) else {
                    panic!("Expected Error for {input_str:?}");
                };
                assert_eq!(error.error_offset, 0, "offset for {input_str:?}");
                assert_eq!(
                    error.reason,
                    ParserErrorReason::TokenError(TokenErrorKind::Expect(
                        TokenExpectKind::Identifier
                    )),
                    "reason for {input_str:?}"
                );
            }
        }

#[test]
fn model_info_missing_subcomponent() {
            let cases: &[(&str, usize, usize, usize)] = &[
                ("foo.", 4, 3, 4),
                ("foo.123", 4, 3, 4),
                ("foo.bar.", 8, 7, 8),
            ];
            for &(input_str, offset, cs, ce) in cases {
                let input = InputSpan::new_extra(input_str, Config::default());
                let Err(nom::Err::Failure(error)) = model_info(input) else {
                    panic!("Expected Failure for {input_str:?}");
                };
                assert_eq!(error.error_offset, offset, "offset for {input_str:?}");
                let ParserErrorReason::Incomplete { kind, cause } = error.reason else {
                    panic!(
                        "Expected Incomplete for {input_str:?}, got {:?}",
                        error.reason
                    );
                };
                assert_eq!(
                    kind,
                    IncompleteKind::Decl(DeclKind::ModelMissingSubcomponent),
                    "kind for {input_str:?}"
                );
                assert_eq!(cause.start().offset, cs, "cause_start for {input_str:?}");
                assert_eq!(cause.end().offset, ce, "cause_end for {input_str:?}");
            }
        }

#[test]
fn declaration_parse_complete_with_remaining_input() {
            let input = InputSpan::new_extra("import foo\nrest", Config::default());
            let result = parse_complete(input);

            let Err(nom::Err::Error(error)) = result else {
                panic!("Unexpected result {result:?}");
            };

            assert_eq!(error.error_offset, 11);
            assert_eq!(error.reason, ParserErrorReason::UnexpectedToken);
        }

#[test]
fn unclosed_bracket_errors() {
            // (input, error_offset, cause_start, cause_end)
            let cases: &[(&str, usize, usize, usize)] = &[
                ("submodel foo [\n", 15, 13, 14),
                ("submodel foo [bar\n", 18, 13, 14),
                ("submodel foo [bar, baz\n", 23, 13, 14),
                ("submodel foo [bar, baz,\n", 24, 13, 14),
                ("submodel foo [bar.qux, baz.quux\n", 32, 13, 14),
                ("submodel foo [bar as baz, qux as quux\n", 38, 13, 14),
                ("submodel foo as bar [qux, baz\n", 30, 20, 21),
                ("submodel foo [\nbar,\nbaz\n", 24, 13, 14),
                (
                    "submodel utils/math [trigonometry as trig, sin, cos as cosine\n",
                    62,
                    20,
                    21,
                ),
            ];
            for &(input_str, offset, cs, ce) in cases {
                assert_failure(input_str, offset, IncompleteKind::UnclosedBracket, cs, ce);
            }
        }

#[test]
fn submodel_parses_in_design_context() {
            // In design context (`allow_design_shorthand` set), `submodel model as alias`
            // parses as Submodel just like in regular context.
            let config = Config {
                allow_design_shorthand: true,
                ..Config::default()
            };
            let input = InputSpan::new_extra("submodel foo as bar\n", config);
            let result = parse(input);
            let Ok((rest, decl)) = result else {
                panic!("Expected Ok, got {result:?}");
            };
            assert!(rest.fragment().is_empty() || rest.fragment().chars().all(char::is_whitespace));
            assert!(
                matches!(&*decl, Decl::Submodel(_)),
                "Expected Submodel, got {decl:?}",
            );
        }

#[test]
fn submodel_parses_in_regular_context() {
            let input = InputSpan::new_extra("submodel foo as bar\n", Config::default());
            let result = parse(input);
            let Ok((rest, decl)) = result else {
                panic!("Expected Ok, got {result:?}");
            };
            assert!(rest.fragment().is_empty() || rest.fragment().chars().all(char::is_whitespace));
            assert!(
                matches!(&*decl, Decl::Submodel(_)),
                "Expected Submodel, got {decl:?}",
            );
        }

#[test]
fn submodel_with_extracted_submodels_single() {
            let input = InputSpan::new_extra("submodel foo as bar [baz]\n", Config::default());
            let result = parse(input);
            let Ok((rest, decl)) = result else {
                panic!("Expected Ok, got {result:?}");
            };
            assert!(rest.fragment().is_empty() || rest.fragment().chars().all(char::is_whitespace));
            let Decl::Submodel(um) = &*decl else {
                panic!("Expected Submodel, got {:?}", &*decl);
            };
            assert_eq!(um.model_info().top_component().as_str(), "foo");
            assert_eq!(um.model_info().get_alias().as_str(), "bar");
            let submodels = um.imported_submodels().expect("Expected submodel list");
            assert_eq!(submodels.len(), 1);
            assert_eq!(submodels[0].get_model_name().as_str(), "baz");
        }

#[test]
fn submodel_with_extracted_submodels_list() {
            let input = InputSpan::new_extra("submodel foo as bar [baz, qux]\n", Config::default());
            let result = parse(input);
            let Ok((rest, decl)) = result else {
                panic!("Expected Ok, got {result:?}");
            };
            assert!(rest.fragment().is_empty() || rest.fragment().chars().all(char::is_whitespace));
            let Decl::Submodel(um) = &*decl else {
                panic!("Expected Submodel, got {:?}", &*decl);
            };
            assert_eq!(um.model_info().top_component().as_str(), "foo");
            assert_eq!(um.model_info().get_alias().as_str(), "bar");
            let submodels = um.imported_submodels().expect("Expected submodel list");
            assert_eq!(submodels.len(), 2);
            assert_eq!(submodels[0].get_model_name().as_str(), "baz");
            assert_eq!(submodels[1].get_model_name().as_str(), "qux");
        }

#[test]
fn submodel_without_extracted_submodels() {
            let input = InputSpan::new_extra("submodel foo as bar\n", Config::default());
            let result = parse(input);
            let Ok((_, decl)) = result else {
                panic!("Expected Ok, got {result:?}");
            };
            let Decl::Submodel(um) = &*decl else {
                panic!("Expected Submodel, got {:?}", &*decl);
            };
            assert!(um.imported_submodels().is_none());
        }

#[test]
fn apply_missing_target() {
            let input = InputSpan::new_extra("apply uhf\n", Config::default());
            let result = parse(input);
            let Err(nom::Err::Failure(e)) = result else {
                panic!("Expected failure for missing target, got {result:?}");
            };
            let ParserErrorReason::Incomplete { kind, .. } = e.reason else {
                panic!("Unexpected reason {:?}", e.reason);
            };
            assert_eq!(
                kind,
                IncompleteKind::Decl(DeclKind::ApplyMissingTarget),
                "expected ApplyMissingTarget"
            );
        }
