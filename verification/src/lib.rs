//! Parser for the Oneil programming language, and the records of its Python
//! call cache.
use vstd::prelude::*;

pub mod ast;
pub mod cache;
pub mod cache_file;
pub mod chars;
pub mod combinator;
pub mod declaration;
pub mod dimension;
pub mod config;
pub mod context;
pub mod error;
pub mod message;
pub mod model;
pub mod expression;
pub mod note;
pub mod outcome;
pub mod parameter;
pub mod python;
pub mod text;
pub mod token;
pub mod unit;

pub use config::Config;

use ast::{
    decl_view, expr_node_view, model_view, Decl, DeclModel, FileModel, Model, parameter_node_view, test_node_view, unit_node_view, Expr, ExprModel, Node,
    Note, Parameter, ParameterModel, Test, TestModel, UnitExpr, UnitModel,
};
use combinator::{complete, SRes};
use config::default_config;
use error::ParserError;
use outcome::Fault;
use text::{fits_source, Input};

verus! {

/// The final result of parsing a whole text, from the model of the result
/// of running a parser on it to its end.
pub open spec fn final_result<M>(r: SRes<M>) -> Result<M, ParserError> {
    match r {
        Ok((_, m)) => Ok(m),
        Err(f) => Err(f.inner()),
    }
}

/// The configuration that a caller's optional configuration stands for.
pub open spec fn chosen_config(config: Option<Config>) -> Config {
    match config {
        Some(c) => c,
        None => default_config(),
    }
}

fn input_for(src: &str, config: Option<Config>) -> (inp: Input)
    requires
        fits_source(src@),
    ensures
        inp.wf(),
        inp.text() == src@,
        inp.cfg() == chosen_config(config),
{
    let c = match config {
        Some(c) => c,
        None => Config::new(),
    };
    Input::new(src, c)
}

fn strip<T>(r: Result<(usize, T), Fault<ParserError>>) -> (out: Result<T, ParserError>)
    ensures
        r matches Ok((_, v)) ==> out == Ok::<T, ParserError>(v),
        r matches Err(f) ==> out == Err::<T, ParserError>(f.inner()),
{
    match r {
        Ok((_, v)) => Ok(v),
        Err(Fault::Error(e)) => Err(e),
        Err(Fault::Failure(e)) => Err(e),
    }
}

/// Parses a whole text as an expression.
pub fn parse_expression(input: &str, config: Option<Config>) -> (r: Result<Node<Expr>, ParserError>)
    requires
        fits_source(input@),
    ensures
        match r {
            Ok(n) => final_result(complete(input@, expression::expr_spec(input@, 0)))
                == Ok::<Node<ExprModel>, ParserError>(expr_node_view(n)),
            Err(e) => final_result(complete(input@, expression::expr_spec(input@, 0)))
                == Err::<Node<ExprModel>, ParserError>(e),
        },
{
    let inp = input_for(input, config);
    strip(expression::parse_complete(&inp, 0))
}

/// Parses a whole text as a model file.
pub fn parse_model(input: &str, config: Option<Config>) -> (r: Result<Node<Model>, model::ErrorsWithPartialResult>)
    requires
        fits_source(input@),
    ensures
        match r {
            Ok(m) => model::model_complete(input@, chosen_config(config)) == Ok::<
                Node<FileModel>,
                (Node<FileModel>, Seq<ParserError>),
            >(model_view(m)),
            Err(e) => model::model_complete(input@, chosen_config(config)) == Err::<
                Node<FileModel>,
                (Node<FileModel>, Seq<ParserError>),
            >((model_view(e.partial_result), e.error_collection@)),
        },
{
    let inp = input_for(input, config);
    match model::parse_complete(&inp) {
        Ok(m) => Ok(m),
        Err((partial_result, error_collection)) => Err(
            model::ErrorsWithPartialResult { partial_result, error_collection },
        ),
    }
}

/// Parses a whole text as a declaration.
pub fn parse_declaration(input: &str, config: Option<Config>) -> (r: Result<Node<Decl>, ParserError>)
    requires
        fits_source(input@),
    ensures
        match r {
            Ok(n) => final_result(
                complete(input@, declaration::decl_spec(input@, 0, chosen_config(config))),
            ) == Ok::<Node<DeclModel>, ParserError>(decl_view(n)),
            Err(e) => final_result(
                complete(input@, declaration::decl_spec(input@, 0, chosen_config(config))),
            ) == Err::<Node<DeclModel>, ParserError>(e),
        },
{
    let inp = input_for(input, config);
    strip(declaration::parse_complete(&inp, 0))
}

/// Parses a whole text as a unit expression.
pub fn parse_unit(input: &str, config: Option<Config>) -> (r: Result<Node<UnitExpr>, ParserError>)
    requires
        fits_source(input@),
    ensures
        match r {
            Ok(n) => final_result(complete(input@, unit::unit_expr_spec(input@, 0)))
                == Ok::<Node<UnitModel>, ParserError>(unit_node_view(n)),
            Err(e) => final_result(complete(input@, unit::unit_expr_spec(input@, 0)))
                == Err::<Node<UnitModel>, ParserError>(e),
        },
{
    let inp = input_for(input, config);
    strip(unit::parse_complete(&inp, 0))
}

/// Parses a whole text as a note.
pub fn parse_note(input: &str, config: Option<Config>) -> (r: Result<Node<Note>, ParserError>)
    requires
        fits_source(input@),
    ensures
        match r {
            Ok(n) => final_result(complete(input@, note::note_spec(input@, 0)))
                == Ok::<Node<Seq<char>>, ParserError>(ast::node(n.value.0@, n.span, n.whitespace_span)),
            Err(e) => final_result(complete(input@, note::note_spec(input@, 0)))
                == Err::<Node<Seq<char>>, ParserError>(e),
        },
{
    let inp = input_for(input, config);
    strip(note::parse_complete(&inp, 0))
}

/// Parses a whole text as a parameter declaration.
pub fn parse_parameter(input: &str, config: Option<Config>) -> (r: Result<Node<Parameter>, ParserError>)
    requires
        fits_source(input@),
    ensures
        match r {
            Ok(n) => final_result(complete(input@, parameter::parameter_spec(input@, 0)))
                == Ok::<Node<ParameterModel>, ParserError>(parameter_node_view(n)),
            Err(e) => final_result(complete(input@, parameter::parameter_spec(input@, 0)))
                == Err::<Node<ParameterModel>, ParserError>(e),
        },
{
    let inp = input_for(input, config);
    strip(parameter::parse_complete(&inp, 0))
}

/// Parses a whole text as a test declaration.
pub fn parse_test(input: &str, config: Option<Config>) -> (r: Result<Node<Test>, ParserError>)
    requires
        fits_source(input@),
    ensures
        match r {
            Ok(n) => final_result(complete(input@, test::test_spec(input@, 0)))
                == Ok::<Node<TestModel>, ParserError>(test_node_view(n)),
            Err(e) => final_result(complete(input@, test::test_spec(input@, 0)))
                == Err::<Node<TestModel>, ParserError>(e),
        },
{
    let inp = input_for(input, config);
    strip(test::parse_complete(&inp, 0))
}

} // verus!
