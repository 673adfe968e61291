//! Declarations: imports, design targets, applies, submodels and
//! references, tests, parameters, and the parameters of design files.
use vstd::prelude::*;

use crate::ast::{
    apply_view, applies_view, decl_view, dir_view, dirs_view, ident_view, idents_view,
    model_info_view, model_infos_view, node, note_view, opt_ident_view, opt_label_view,
    opt_render_view, parameter_node_view, test_node_view, value_view, ApplyDesign, ApplyModel,
    Decl, DeclModel, Import, DesignParameter, DesignParameterModel, DesignTarget, DesignTargetModel,
    Directory, DirectoryModel, Identifier, Label, ModelInfo, ModelInfoModel, ModelKind, Node,
    ParameterValue, ParameterModel, PerformanceMarker, RenderName, SubmodelDecl, SubmodelDeclModel,
    TestModel, TraceLevel, ValueModel,
};
use crate::combinator::{
    complete, eol_at, eol_node, eol_node_or_fail, eol_or_fail, finish, ident_at, ident_or_fail,
    identifier_node, identifier_node_or_fail, keyword_node, keyword_node_or_fail, kw, kw_or_fail,
    optional, or_else, outside, res_view, sym, sym_or_fail, symbol_node, symbol_node_or_fail,
    SRes,
};
use crate::config::Config;
use crate::error::{
    escalate, escalate_fault, incomplete, lift, lift_fault, recast, recast_fault, DeclKind,
    ExpectKind, ImportKind, IncompleteKind, ParameterKind, ParserError, ParserErrorReason,
    SubmodelKeyword, SubmodelKind,
};
use crate::note::{note_spec, parse as parse_note};
use crate::outcome::{Fault, PResult};
use crate::parameter::{
    note_follows_value, param_incomplete, parameter_res, parameter_spec, parse as parse_parameter,
    parse_parameter_value, performance_marker, value_spec,
};
use crate::test::{parse as parse_test, test_res, test_spec, trace_level, trace_level_spec};
use crate::text::{fits_source, lemma_offset_monotone, location_of, span_join, span_of, Input, Span};
use crate::token::error::{ExpectKeyword, ExpectSymbol, TokenError};
use crate::token::keyword::{lemma_keyword_whole_word, lex_keyword};
use crate::token::naming::{label, lemma_identifier_shape, lex_identifier, lex_label, lex_render_name, render_name};
use crate::token::symbol::lex_symbol;
use crate::token::structure::lex_end_of_line;
use crate::token::util::{lemma_skip_ws_bounds, skip_ws};

verus! {

/// The incomplete-declaration reason of kind `k` with cause `cause`.
pub open spec fn decl_incomplete(cause: Span, k: DeclKind) -> ParserErrorReason {
    incomplete(cause, IncompleteKind::Decl(k))
}

/// The result `r` with the value of its node replaced by `v`.
pub open spec fn with_value<A, B>(r: SRes<Node<A>>, v: B) -> SRes<Node<B>> {
    match r {
        Ok((q, n)) => Ok((q, node(v, n.span, n.whitespace_span))),
        Err(f) => Err(f),
    }
}

/// A step of a directory path at `p`: a name, `.` or `..`.
#[verifier::opaque]
pub open spec fn dir_name_spec(s: Seq<char>, p: int) -> SRes<Node<DirectoryModel>> {
    or_else(
        match ident_at(s, p) {
            Err(f) => Err(f),
            Ok((q, id)) => Ok((q, node(DirectoryModel::Name(id.value), id.span, id.whitespace_span))),
        },
        or_else(
            with_value(sym(s, p, ExpectSymbol::Dot, ()), DirectoryModel::Current),
            with_value(sym(s, p, ExpectSymbol::DotDot, ()), DirectoryModel::Parent),
        ),
    )
}

/// A step of a directory path at `p`, followed by `/`.
#[verifier::opaque]
pub open spec fn dir_step(s: Seq<char>, p: int) -> SRes<Node<DirectoryModel>> {
    match dir_name_spec(s, p) {
        Err(f) => Err(f),
        Ok((q, d)) => match sym(s, q, ExpectSymbol::Slash, ()) {
            Err(f) => Err(f),
            Ok((q2, _)) => Ok((q2, d)),
        },
    }
}

/// The further steps of a directory path from `p`, after `acc`.
pub open spec fn dirs_rest(s: Seq<char>, p: int, acc: Seq<Node<DirectoryModel>>) -> SRes<
    Seq<Node<DirectoryModel>>,
>
    decreases s.len() - p,
{
    match dir_step(s, p) {
        Err(Fault::Error(_)) => Ok((p, acc)),
        Err(f) => Err(f),
        Ok((q, d)) => if p < q <= s.len() {
            dirs_rest(s, q, acc.push(d))
        } else {
            outside()
        },
    }
}

/// The further `.segment`s of a model path from `p`, after `acc`.
pub open spec fn segments_rest(s: Seq<char>, p: int, acc: Seq<Node<Seq<char>>>) -> SRes<
    Seq<Node<Seq<char>>>,
>
    decreases s.len() - p,
{
    match sym(s, p, ExpectSymbol::Dot, ()) {
        Err(Fault::Error(_)) => Ok((p, acc)),
        Err(f) => Err(f),
        Ok((q, dot)) => match ident_or_fail(
            s,
            q,
            decl_incomplete(dot.span, DeclKind::ModelMissingSubcomponent),
        ) {
            Err(f) => Err(f),
            Ok((q2, id)) => if p < q2 <= s.len() {
                segments_rest(s, q2, acc.push(id))
            } else {
                outside()
            },
        },
    }
}

/// The further segments of a model path from `p` keep those read before
/// them, and come in source order: each starts after `p` and after the one
/// before it, and ends before where the path ends.
proof fn lemma_segments_order(s: Seq<char>, p: int, acc: Seq<Node<Seq<char>>>)
    requires
        0 <= p <= s.len(),
        fits_source(s),
    ensures
        segments_rest(s, p, acc) matches Ok((q, v)) ==> {
            &&& p <= q <= s.len()
            &&& v.len() >= acc.len()
            &&& v.take(acc.len() as int) == acc
            &&& forall|k: int|
                acc.len() <= k < v.len() ==> location_of(s, p).offset <= #[trigger] v[k].span.start.offset
                    && v[k].span.end.offset <= location_of(s, q).offset
            &&& forall|k1: int, k2: int|
                acc.len() <= k1 < k2 < v.len() ==> #[trigger] v[k1].span.end.offset
                    <= #[trigger] v[k2].span.start.offset
        },
    decreases s.len() - p,
{
    reveal(sym);
    reveal(ident_or_fail);
    match sym(s, p, ExpectSymbol::Dot, ()) {
        Err(_) => {
            assert(acc.take(acc.len() as int) =~= acc);
        },
        Ok((q1, dot)) => {
            let e1 = lex_symbol(s, p, ExpectSymbol::Dot)->Ok_0;
            assert(p <= e1 <= s.len());
            lemma_skip_ws_bounds(s, e1);
            match ident_or_fail(s, q1, decl_incomplete(dot.span, DeclKind::ModelMissingSubcomponent)) {
                Err(_) => {},
                Ok((q2, id)) => {
                    if p < q2 <= s.len() {
                        lemma_identifier_shape(s, q1);
                        let e2 = lex_identifier(s, q1)->Ok_0;
                        lemma_skip_ws_bounds(s, e2);
                        lemma_segments_order(s, q2, acc.push(id));
                        lemma_offset_monotone(s, p, q1);
                        lemma_offset_monotone(s, q1, e2);
                        lemma_offset_monotone(s, e2, q2);
                        if let Ok((q, v)) = segments_rest(s, q2, acc.push(id)) {
                            lemma_offset_monotone(s, q2, q);
                            assert(v.take(acc.len() + 1int) == acc.push(id));
                            assert(v[acc.len() as int] == acc.push(id)[acc.len() as int]);
                            assert(v.take(acc.len() as int) =~= acc) by {
                                assert(v.take(acc.len() as int) =~= v.take(acc.len() + 1int).take(acc.len() as int));
                            }
                        }
                    }
                },
            }
        },
    }
}

/// An alias at `p`: `as` and an identifier.
#[verifier::opaque]
pub open spec fn alias_spec(s: Seq<char>, p: int) -> SRes<Node<Seq<char>>> {
    match kw(s, p, ExpectKeyword::As, ()) {
        Err(f) => Err(f),
        Ok((q, a)) => ident_or_fail(s, q, decl_incomplete(a.span, DeclKind::AsMissingAlias)),
    }
}

/// The model reference with its spans: from the top component to the last
/// of the alias, the last subcomponent and the top component.
pub open spec fn model_info_node(
    top: Node<Seq<char>>,
    subs: Seq<Node<Seq<char>>>,
    alias: Option<Node<Seq<char>>>,
) -> Node<ModelInfoModel> {
    let last = match alias {
        Some(a) => a,
        None => if subs.len() > 0 {
            subs.last()
        } else {
            top
        },
    };
    node(
        ModelInfoModel { top_component: top, subcomponents: subs, alias },
        span_join(top.span, last.span),
        last.whitespace_span,
    )
}

/// A model reference without subcomponents at `p`: an identifier and an
/// optional alias.
#[verifier::opaque]
pub open spec fn model_info_simple_spec(s: Seq<char>, p: int) -> SRes<Node<ModelInfoModel>> {
    match ident_at(s, p) {
        Err(f) => Err(f),
        Ok((q, top)) => match optional(alias_spec(s, q), q) {
            Err(f) => Err(f),
            Ok((q2, alias)) => Ok((q2, model_info_node(top, Seq::empty(), alias))),
        },
    }
}

/// A model reference at `p`: an identifier, `.subcomponent`s, and an
/// optional alias.
#[verifier::opaque]
pub open spec fn model_info_spec(s: Seq<char>, p: int) -> SRes<Node<ModelInfoModel>> {
    match ident_at(s, p) {
        Err(f) => Err(f),
        Ok((q, top)) => match segments_rest(s, q, Seq::empty()) {
            Err(f) => Err(f),
            Ok((q2, subs)) => match optional(alias_spec(s, q2), q2) {
                Err(f) => Err(f),
                Ok((q3, alias)) => Ok((q3, model_info_node(top, subs, alias))),
            },
        },
    }
}

/// A model reference names its models in source order: the top component,
/// then the `.`-separated subcomponents one after another, then the alias;
/// the reference spans from its top component to the last of these.
pub proof fn lemma_model_info_order(s: Seq<char>, p: int)
    requires
        0 <= p <= s.len(),
        fits_source(s),
    ensures
        model_info_spec(s, p) matches Ok((_, m)) ==> {
            let top = m.value.top_component;
            let subs = m.value.subcomponents;
            &&& forall|k: int| 0 <= k < subs.len() ==> top.span.end.offset <= #[trigger] subs[k].span.start.offset
            &&& forall|k1: int, k2: int|
                0 <= k1 < k2 < subs.len() ==> #[trigger] subs[k1].span.end.offset
                    <= #[trigger] subs[k2].span.start.offset
            &&& (m.value.alias matches Some(a) ==> {
                &&& top.span.end.offset <= a.span.start.offset
                &&& forall|k: int| 0 <= k < subs.len() ==> #[trigger] subs[k].span.end.offset <= a.span.start.offset
            })
            &&& m.span.start == top.span.start
            &&& m.span.end == match m.value.alias {
                Some(a) => a.span.end,
                None => if subs.len() > 0 {
                    subs[subs.len() - 1].span.end
                } else {
                    top.span.end
                },
            }
        },
{
    reveal(model_info_spec);
    reveal(ident_at);
    reveal(alias_spec);
    reveal(kw);
    reveal(ident_or_fail);
    lemma_identifier_shape(s, p);
    if let Ok(e0) = lex_identifier(s, p) {
        lemma_skip_ws_bounds(s, e0);
        let q = skip_ws(s, e0);
        lemma_offset_monotone(s, e0, q);
        lemma_segments_order(s, q, Seq::empty());
        if let Ok((q2, subs)) = segments_rest(s, q, Seq::empty()) {
            lemma_keyword_whole_word(s, q2, ExpectKeyword::As);
            if let Ok(e3) = lex_keyword(s, q2, ExpectKeyword::As) {
                lemma_skip_ws_bounds(s, e3);
                let q3 = skip_ws(s, e3);
                lemma_offset_monotone(s, q2, q3);
                lemma_offset_monotone(s, e0, q2);
                assert forall|k: int| 0 <= k < subs.len() implies #[trigger] subs[k].span.end.offset
                    <= location_of(s, q3).offset by {
                    assert(subs[k].span.start.offset >= location_of(s, q).offset);
                }
            }
        }
    }
}

/// A further entry of a submodel list at `p`: `,`, an optional end of line,
/// and a model reference.
#[verifier::opaque]
pub open spec fn list_item(s: Seq<char>, p: int) -> SRes<Node<ModelInfoModel>> {
    match sym(s, p, ExpectSymbol::Comma, ()) {
        Err(f) => Err(f),
        Ok((q, _)) => match optional(eol_at(s, q), q) {
            Err(f) => Err(f),
            Ok((q1, _)) => model_info_spec(s, q1),
        },
    }
}

/// The further entries of a submodel list from `p`, after `acc`.
pub open spec fn list_rest(s: Seq<char>, p: int, acc: Seq<Node<ModelInfoModel>>) -> SRes<
    Seq<Node<ModelInfoModel>>,
>
    decreases s.len() - p,
{
    match list_item(s, p) {
        Err(Fault::Error(_)) => Ok((p, acc)),
        Err(f) => Err(f),
        Ok((q, mi)) => if p < q <= s.len() {
            list_rest(s, q, acc.push(mi))
        } else {
            outside()
        },
    }
}

/// The entries of a submodel list at `p`: model references separated by
/// `,` and optional ends of line, with an optional trailing `,` and end of
/// line.
#[verifier::opaque]
pub open spec fn list_items(s: Seq<char>, p: int) -> SRes<Seq<Node<ModelInfoModel>>> {
    match model_info_spec(s, p) {
        Err(f) => Err(f),
        Ok((q, first)) => match list_rest(s, q, seq![first]) {
            Err(f) => Err(f),
            Ok((q2, all)) => match optional(sym(s, q2, ExpectSymbol::Comma, ()), q2) {
                Err(f) => Err(f),
                Ok((q3, _)) => match optional(eol_at(s, q3), q3) {
                    Err(f) => Err(f),
                    Ok((q4, _)) => Ok((q4, all)),
                },
            },
        },
    }
}

/// A submodel list at `p`: `[`, entries, `]`.
#[verifier::opaque]
pub open spec fn submodel_list_spec(s: Seq<char>, p: int) -> SRes<Node<Seq<Node<ModelInfoModel>>>> {
    match sym(s, p, ExpectSymbol::BracketLeft, ()) {
        Err(f) => Err(f),
        Ok((q, lb)) => match optional(eol_at(s, q), q) {
            Err(f) => Err(f),
            Ok((q1, _)) => match optional(list_items(s, q1), q1) {
                Err(f) => Err(f),
                Ok((q2, items)) => match sym_or_fail(
                    s,
                    q2,
                    ExpectSymbol::BracketRight,
                    (),
                    incomplete(lb.span, IncompleteKind::UnclosedBracket),
                ) {
                    Err(f) => Err(f),
                    Ok((q3, rb)) => Ok(
                        (
                            q3,
                            node(
                                match items {
                                    Some(v) => v,
                                    None => Seq::empty(),
                                },
                                span_join(lb.span, rb.span),
                                rb.whitespace_span,
                            ),
                        ),
                    ),
                },
            },
        },
    }
}

/// The keyword of a submodel declaration at `p`.
#[verifier::opaque]
pub open spec fn model_keyword(s: Seq<char>, p: int) -> SRes<Node<(ModelKind, SubmodelKeyword)>> {
    or_else(
        kw(s, p, ExpectKeyword::Reference, (ModelKind::Reference, SubmodelKeyword::Reference)),
        kw(s, p, ExpectKeyword::Submodel, (ModelKind::Submodel, SubmodelKeyword::Submodel)),
    )
}

/// A submodel or reference declaration at `p`. Its span is that of the
/// model reference, or of the submodel list when there is one.
#[verifier::opaque]
pub open spec fn submodel_spec(s: Seq<char>, p: int) -> SRes<Node<DeclModel>> {
    match model_keyword(s, p) {
        Err(f) => Err(f),
        Ok((q, k)) => match dirs_rest(s, q, Seq::empty()) {
            Err(f) => Err(f),
            Ok((q1, dirs)) => match model_info_simple_spec(s, q1) {
                Err(f) => Err(
                    escalate(
                        f,
                        decl_incomplete(
                            k.span,
                            DeclKind::Submodel(SubmodelKind::MissingModelInfo { after: k.value.1 }),
                        ),
                    ),
                ),
                Ok((q2, mi)) => match optional(submodel_list_spec(s, q2), q2) {
                    Err(f) => Err(f),
                    Ok((q3, list)) => {
                        let fin = match list {
                            Some(l) => l.span,
                            None => mi.span,
                        };
                        match eol_or_fail(
                            s,
                            q3,
                            decl_incomplete(fin, DeclKind::Submodel(SubmodelKind::MissingEndOfLine)),
                        ) {
                            Err(f) => Err(f),
                            Ok((q4, eol)) => {
                                let d = SubmodelDeclModel {
                                    directory_path: dirs,
                                    model_info: mi,
                                    submodel_list: list,
                                    model_kind: k.value.0,
                                };
                                Ok(
                                    (
                                        q4,
                                        node(
                                            DeclModel::Submodel(node(d, fin, eol.whitespace_span)),
                                            fin,
                                            eol.whitespace_span,
                                        ),
                                    ),
                                )
                            },
                        }
                    },
                },
            },
        },
    }
}

/// An import declaration at `p`: `import`, a name, the end of the line.
#[verifier::opaque]
pub open spec fn import_spec(s: Seq<char>, p: int) -> SRes<Node<DeclModel>> {
    match kw(s, p, ExpectKeyword::Import, ()) {
        Err(f) => Err(f),
        Ok((q, imp)) => match ident_or_fail(
            s,
            q,
            decl_incomplete(imp.span, DeclKind::Import(ImportKind::MissingPath)),
        ) {
            Err(f) => Err(f),
            Ok((q2, path)) => match eol_or_fail(
                s,
                q2,
                decl_incomplete(path.span, DeclKind::Import(ImportKind::MissingEndOfLine)),
            ) {
                Err(f) => Err(f),
                Ok((q3, eol)) => {
                    let sp = span_join(imp.span, eol.span);
                    Ok((q3, node(DeclModel::Import(node(path, sp, eol.whitespace_span)), sp, eol.whitespace_span)))
                },
            },
        },
    }
}

/// A design target line at `p`: `design`, a directory path, the target,
/// the end of the line.
#[verifier::opaque]
pub open spec fn design_target_spec(s: Seq<char>, p: int) -> SRes<Node<DeclModel>> {
    match kw(s, p, ExpectKeyword::Design, ()) {
        Err(f) => Err(f),
        Ok((q, d)) => match dirs_rest(s, q, Seq::empty()) {
            Err(f) => Err(f),
            Ok((q1, dirs)) => match ident_or_fail(
                s,
                q1,
                decl_incomplete(d.span, DeclKind::DesignMissingTarget),
            ) {
                Err(f) => Err(f),
                Ok((q2, target)) => match eol_or_fail(
                    s,
                    q2,
                    decl_incomplete(target.span, DeclKind::Import(ImportKind::MissingEndOfLine)),
                ) {
                    Err(f) => Err(f),
                    Ok((q3, eol)) => {
                        let sp = span_join(d.span, eol.span);
                        Ok(
                            (
                                q3,
                                node(
                                    DeclModel::DesignTarget(
                                        node(
                                            DesignTargetModel { directory_path: dirs, target },
                                            sp,
                                            eol.whitespace_span,
                                        ),
                                    ),
                                    sp,
                                    eol.whitespace_span,
                                ),
                            ),
                        )
                    },
                },
            },
        },
    }
}

/// The apply node of a directory path, a design file, a target and nested
/// applies, ending at `end`; its whitespace span is `end` as well.
pub open spec fn apply_node(
    dirs: Seq<Node<DirectoryModel>>,
    file: Node<Seq<char>>,
    targets: Seq<Node<Seq<char>>>,
    nested: Seq<Node<ApplyModel>>,
    end: Span,
) -> Node<ApplyModel> {
    let start = if dirs.len() > 0 {
        dirs[0].span
    } else {
        file.span
    };
    node(
        ApplyModel { directory_path: dirs, design_file: file, target: targets, nested_applies: nested },
        span_join(start, end),
        end,
    )
}

/// The design file of an apply at `p`; after the `apply` keyword (`kw` is
/// its span) a missing file is a failure.
#[verifier::opaque]
pub open spec fn apply_file(s: Seq<char>, p: int, kw: Option<Span>) -> SRes<Node<Seq<char>>> {
    match kw {
        Some(k) => ident_or_fail(s, p, decl_incomplete(k, DeclKind::ApplyMissingFile)),
        None => ident_at(s, p),
    }
}

/// The `to` and the target of an apply at `p`, whose file spans `file`.
#[verifier::opaque]
pub open spec fn apply_target(s: Seq<char>, p: int, file: Span) -> SRes<Seq<Node<Seq<char>>>> {
    match kw_or_fail(s, p, ExpectKeyword::To, (), decl_incomplete(file, DeclKind::ApplyMissingTarget)) {
        Err(f) => Err(f),
        Ok((q, _)) => match ident_or_fail(s, q, decl_incomplete(file, DeclKind::ApplyMissingTarget)) {
            Err(f) => Err(f),
            Ok((q2, first)) => segments_rest(s, q2, seq![first]),
        },
    }
}

/// The body of an apply at `p`: a directory path, the design file, `to`,
/// the target, and an optional block of nested applies in `[...]`.
pub open spec fn apply_body(s: Seq<char>, p: int, kw: Option<Span>) -> SRes<Node<ApplyModel>>
    decreases s.len() - p, 1int,
{
    match dirs_rest(s, p, Seq::empty()) {
        Err(f) => Err(f),
        Ok((q, dirs)) => match apply_file(s, q, kw) {
            Err(f) => Err(f),
            Ok((q1, file)) => match apply_target(s, q1, file.span) {
                Err(f) => Err(f),
                Ok((q4, targets)) => match sym(s, q4, ExpectSymbol::BracketLeft, ()) {
                    Err(Fault::Error(_)) => Ok(
                        (q4, apply_node(dirs, file, targets, Seq::empty(), targets.last().span)),
                    ),
                    Err(f) => Err(f),
                    Ok((q5, lb)) => match optional(eol_at(s, q5), q5) {
                        Err(f) => Err(f),
                        Ok((q6, _)) => if p < q6 <= s.len() {
                            match apply_items(s, q6, Seq::empty()) {
                                Err(f) => Err(f),
                                Ok((q7, items)) => match sym_or_fail(
                                    s,
                                    q7,
                                    ExpectSymbol::BracketRight,
                                    (),
                                    incomplete(lb.span, IncompleteKind::UnclosedBracket),
                                ) {
                                    Err(f) => Err(f),
                                    Ok((q8, rb)) => Ok((q8, apply_node(dirs, file, targets, items, rb.span))),
                                },
                            }
                        } else {
                            outside()
                        },
                    },
                },
            },
        },
    }
}

/// The separator after a nested apply at `p`: an optional `,` or end of
/// line, then an optional end of line.
#[verifier::opaque]
pub open spec fn apply_separator(s: Seq<char>, p: int) -> SRes<()> {
    match optional(or_else(sym(s, p, ExpectSymbol::Comma, ()), eol_at(s, p)), p) {
        Err(f) => Err(f),
        Ok((q, _)) => match optional(eol_at(s, q), q) {
            Err(f) => Err(f),
            Ok((q2, _)) => Ok((q2, ())),
        },
    }
}

/// A nested apply at `p`, with its separator.
pub open spec fn apply_item(s: Seq<char>, p: int) -> SRes<Node<ApplyModel>>
    decreases s.len() - p, 2int,
{
    match apply_body(s, p, None) {
        Err(f) => Err(f),
        Ok((q, body)) => match apply_separator(s, q) {
            Err(f) => Err(f),
            Ok((q2, _)) => Ok((q2, body)),
        },
    }
}

/// The nested applies from `p`, after `acc`.
pub open spec fn apply_items(s: Seq<char>, p: int, acc: Seq<Node<ApplyModel>>) -> SRes<Seq<Node<ApplyModel>>>
    decreases s.len() - p, 3int,
{
    match apply_item(s, p) {
        Err(Fault::Error(_)) => Ok((p, acc)),
        Err(f) => Err(f),
        Ok((q, a)) => if p < q <= s.len() {
            apply_items(s, q, acc.push(a))
        } else {
            outside()
        },
    }
}

/// An apply declaration at `p`: `apply`, its body, the end of the line.
#[verifier::opaque]
pub open spec fn apply_spec(s: Seq<char>, p: int) -> SRes<Node<DeclModel>> {
    match kw(s, p, ExpectKeyword::Apply, ()) {
        Err(f) => Err(f),
        Ok((q, a)) => match apply_body(s, q, Some(a.span)) {
            Err(f) => Err(f),
            Ok((q2, body)) => match eol_or_fail(
                s,
                q2,
                decl_incomplete(body.span, DeclKind::Submodel(SubmodelKind::MissingEndOfLine)),
            ) {
                Err(f) => Err(f),
                Ok((q3, eol)) => Ok(
                    (q3, node(DeclModel::ApplyDesign(body), span_join(a.span, eol.span), eol.whitespace_span)),
                ),
            },
        },
    }
}

/// A label and its `:` at `p`, in the full form of a design parameter.
#[verifier::opaque]
pub open spec fn label_colon(s: Seq<char>, p: int) -> SRes<Node<Seq<char>>> {
    match lex_label(s, p) {
        Err(f) => Err(lift(f)),
        Ok(e) => match sym(s, skip_ws(s, e), ExpectSymbol::Colon, ()) {
            Err(f) => Err(f),
            Ok((q, _)) => Ok((q, node(s.subrange(p, e), span_of(s, p, e), span_of(s, e, skip_ws(s, e))))),
        },
    }
}

/// A render name at `p`: its text between the braces.
#[verifier::opaque]
pub open spec fn render_at(s: Seq<char>, p: int) -> SRes<Node<Seq<char>>> {
    match lex_render_name(s, p) {
        Err(f) => Err(lift(f)),
        Ok(e) => Ok(
            (skip_ws(s, e), node(s.subrange(p + 1, e - 1), span_of(s, p, e), span_of(s, e, skip_ws(s, e)))),
        ),
    }
}

/// The instance segment of a shorthand override at `p`: `.` and an
/// identifier.
#[verifier::opaque]
pub open spec fn instance_segment(s: Seq<char>, p: int) -> SRes<Node<Seq<char>>> {
    match sym(s, p, ExpectSymbol::Dot, ()) {
        Err(f) => Err(f),
        Ok((q, dot)) => ident_or_fail(
            s,
            q,
            param_incomplete(dot.span, ParameterKind::MissingInstancePathSegment),
        ),
    }
}

/// The head of a design parameter at `p`: an optional performance marker
/// and trace level, an optional `label:` with an optional render name, the
/// identifier, and in the shorthand form an optional instance segment; then
/// `=`.
#[verifier::opaque]
pub open spec fn design_head(s: Seq<char>, p: int) -> SRes<
    (
        Option<Node<PerformanceMarker>>,
        Option<Node<TraceLevel>>,
        Option<Node<Seq<char>>>,
        Option<Node<Seq<char>>>,
        Node<Seq<char>>,
        Option<Node<Seq<char>>>,
        Span,
    ),
> {
    match optional(sym(s, p, ExpectSymbol::Dollar, PerformanceMarker), p) {
        Err(f) => Err(f),
        Ok((p1, pm)) => match optional(trace_level_spec(s, p1), p1) {
            Err(f) => Err(f),
            Ok((p2, tl)) => match optional(label_colon(s, p2), p2) {
                Err(f) => Err(f),
                Ok((p3, lbl)) => match (if lbl is Some {
                    optional(render_at(s, p3), p3)
                } else {
                    Ok((p3, None))
                }) {
                    Err(f) => Err(f),
                    Ok((p4, rn)) => match ident_at(s, p4) {
                        Err(f) => Err(f),
                        Ok((p5, ident)) => match (if lbl is None {
                            optional(instance_segment(s, p5), p5)
                        } else {
                            Ok((p5, None))
                        }) {
                            Err(f) => Err(f),
                            Ok((p6, inst)) => match sym(s, p6, ExpectSymbol::Equals, ()) {
                                Err(f) => Err(f),
                                Ok((p7, eq)) => Ok((p7, (pm, tl, lbl, rn, ident, inst, eq.span))),
                            },
                        },
                    },
                },
            },
        },
    }
}

/// A parameter of a design file at `p`: its head, the value, the end of
/// the line and an optional note. Its span runs from the first of the
/// performance marker, the trace level, the label and the identifier to the
/// end of the line or the note.
#[verifier::opaque]
pub open spec fn design_param_spec(s: Seq<char>, p: int) -> SRes<Node<DeclModel>> {
    match design_head(s, p) {
        Err(f) => Err(f),
        Ok((p7, (pm, tl, lbl, rn, ident, inst, eq))) => match value_spec(s, p7) {
            Err(f) => Err(escalate(f, param_incomplete(eq, ParameterKind::MissingValue))),
            Ok((p8, value)) => match eol_or_fail(
                s,
                p8,
                param_incomplete(value.span, ParameterKind::MissingEndOfLine),
            ) {
                Err(f) => Err(f),
                Ok((p9, eol)) => match optional(note_spec(s, p9), p9) {
                    Err(f) => Err(f),
                    Ok((p10, n)) => {
                        let start = match pm {
                            Some(m) => m.span,
                            None => match tl {
                                Some(t) => t.span,
                                None => match lbl {
                                    Some(l) => l.span,
                                    None => ident.span,
                                },
                            },
                        };
                        let end = match n {
                            Some(x) => x.span,
                            None => eol.span,
                        };
                        let ws = match n {
                            Some(x) => x.whitespace_span,
                            None => eol.whitespace_span,
                        };
                        let d = DesignParameterModel {
                            ident,
                            instance_path: inst,
                            value,
                            performance_marker: pm,
                            trace_level: tl,
                            note: n,
                            label: lbl,
                            render_name: rn,
                        };
                        let sp = span_join(start, end);
                        Ok((p10, node(DeclModel::DesignParameter(node(d, sp, ws)), sp, ws)))
                    },
                },
            },
        },
    }
}

/// The head of a design parameter has a render name only after a label,
/// and an instance segment only without one.
proof fn lemma_design_head_shape(s: Seq<char>, p: int)
    ensures
        design_head(s, p) matches Ok((_, (pm, tl, lbl, rn, ident, inst, eq))) ==> (lbl is None ==> rn is None) && (
        lbl is Some ==> inst is None),
{
    reveal(design_head);
}

/// A design parameter has a render name only after a label and an
/// instance segment only without one; its declaration spans what the
/// parameter spans: from its performance marker, else its trace level,
/// else its label, else its identifier, to its note, else its end of line
/// (whose token is empty, so the span ends where the whitespace of the end
/// of line starts).
pub proof fn lemma_design_param_shape(s: Seq<char>, p: int)
    ensures
        design_param_spec(s, p) matches Ok((_, d)) ==> {
            &&& d.value is DesignParameter
            &&& {
                let inner = d.value->DesignParameter_0;
                let v = inner.value;
                &&& inner.span == d.span
                &&& inner.whitespace_span == d.whitespace_span
                &&& (v.label is None ==> v.render_name is None)
                &&& (v.label is Some ==> v.instance_path is None)
                &&& d.span.start == match v.performance_marker {
                    Some(m) => m.span.start,
                    None => match v.trace_level {
                        Some(t) => t.span.start,
                        None => match v.label {
                            Some(l) => l.span.start,
                            None => v.ident.span.start,
                        },
                    },
                }
                &&& (v.note matches Some(n) ==> d.span.end == n.span.end && d.whitespace_span == n.whitespace_span)
                &&& (v.note is None ==> exists|q: int, e: int|
                    #![trigger lex_end_of_line(s, q), span_of(s, q, e)]
                    lex_end_of_line(s, q) == Ok::<int, Fault<TokenError>>(e) && d.span.end == location_of(s, q)
                        && d.whitespace_span == span_of(s, q, e))
            }
        },
{
    reveal(design_param_spec);
    reveal(eol_or_fail);
    lemma_design_head_shape(s, p);
    if let Ok((p7, _)) = design_head(s, p) {
        if let Ok((p8, _)) = value_spec(s, p7) {
            if let Ok(e) = lex_end_of_line(s, p8) {
                if let Ok((_, d)) = design_param_spec(s, p) {
                    let v = d.value->DesignParameter_0.value;
                    if v.note is None {
                        assert(d.span.end == location_of(s, p8));
                        assert(d.whitespace_span == span_of(s, p8, e));
                        assert(lex_end_of_line(s, p8) == Ok::<int, Fault<TokenError>>(e));
                    }
                }
            }
        }
    }
}

/// A design parameter starts where its text starts: it has a performance
/// marker exactly when its text starts with `$`, that marker spans the
/// `$`, and the declaration's span starts at the first character of its
/// text, the `$` included.
pub proof fn lemma_design_param_marker(s: Seq<char>, p: int)
    requires
        0 <= p <= s.len(),
    ensures
        design_param_spec(s, p) matches Ok((_, d)) ==> {
            let v = d.value->DesignParameter_0.value;
            &&& (v.performance_marker is Some <==> (p < s.len() && s[p] == '$'))
            &&& (v.performance_marker matches Some(m) ==> m.span == span_of(s, p, p + 1))
            &&& d.span.start == location_of(s, p)
        },
{
    reveal(design_param_spec);
    reveal(design_head);
    reveal(sym);
    reveal(trace_level_spec);
    reveal(label_colon);
    reveal(ident_at);
    if p < s.len() && s[p] == '$' {
        assert(s.subrange(p, p + 1) =~= seq!['$']);
    } else if p < s.len() {
        assert(s.subrange(p, p + 1) != seq!['$']) by {
            assert(s.subrange(p, p + 1)[0] != seq!['$'][0]);
        }
    }
}

/// A design parameter keeps the note that follows the end of line after
/// its value: its note is exactly the note that parses there, none only
/// when no note does, and parsing goes on after that note.
pub proof fn lemma_design_param_note(s: Seq<char>, p: int)
    ensures
        design_param_spec(s, p) matches Ok((q, d)) ==> exists|k7: int, k8: int, e: int|
            #[trigger] note_follows_value(
                s,
                k7,
                k8,
                e,
                d.value->DesignParameter_0.value.value,
                d.value->DesignParameter_0.value.note,
                q,
            ),
{
    reveal(design_param_spec);
    reveal(eol_or_fail);
    if let Ok((p7, _)) = design_head(s, p) {
        if let Ok((p8, _)) = value_spec(s, p7) {
            if let Ok(e) = lex_end_of_line(s, p8) {
                if let Ok((q, d)) = design_param_spec(s, p) {
                    let v = d.value->DesignParameter_0.value;
                    assert(note_follows_value(s, p7, p8, e, v.value, v.note, q));
                }
            }
        }
    }
}

/// The declaration of the parameter at `p`.
pub open spec fn parameter_decl_spec(s: Seq<char>, p: int) -> SRes<Node<DeclModel>> {
    match parameter_spec(s, p) {
        Err(f) => Err(f),
        Ok((q, n)) => Ok((q, node(DeclModel::Parameter(n), n.span, n.whitespace_span))),
    }
}

/// The declaration of the test at `p`.
pub open spec fn test_decl_spec(s: Seq<char>, p: int) -> SRes<Node<DeclModel>> {
    match test_spec(s, p) {
        Err(f) => Err(f),
        Ok((q, n)) => Ok((q, node(DeclModel::Test(n), n.span, n.whitespace_span))),
    }
}

/// The error for a design header found where a declaration was expected.
pub open spec fn design_header_error(sp: Span, cfg: Config) -> ParserError {
    ParserError {
        error_offset: sp.start.offset,
        reason: decl_incomplete(
            sp,
            if cfg.require_design_header {
                DeclKind::DesignHeaderDuplicate
            } else {
                DeclKind::DesignHeaderWrongFile
            },
        ),
    }
}

/// A declaration at `p` under the configuration `cfg`: the first of an
/// import, an apply, a submodel or reference, a test, and a parameter (a
/// design parameter where the design shorthand is allowed). A design header
/// is rejected here: it may only open a design file.
pub open spec fn decl_spec(s: Seq<char>, p: int, cfg: Config) -> SRes<Node<DeclModel>> {
    match design_target_spec(s, p) {
        Ok((_, d)) => Err(Fault::Error(design_header_error(d.span, cfg))),
        Err(_) => or_else(
            import_spec(s, p),
            or_else(
                apply_spec(s, p),
                or_else(
                    submodel_spec(s, p),
                    or_else(
                        test_decl_spec(s, p),
                        match (if cfg.allow_design_shorthand {
                            design_param_spec(s, p)
                        } else {
                            parameter_decl_spec(s, p)
                        }) {
                            Err(f) => Err(recast(f, ParserErrorReason::Expect(ExpectKind::Decl))),
                            Ok(x) => Ok(x),
                        },
                    ),
                ),
            ),
        ),
    }
}

/// Parses one directory of a path: a name, `.` or `..`.
pub fn directory_name(inp: &Input, pos: usize) -> (r: PResult<Node<Directory>, ParserError>)
    requires
        inp.wf(),
        pos <= inp.text().len(),
    ensures
        res_view(r, |n: Node<Directory>| dir_view(n)) == dir_name_spec(inp.text(), pos as int),
        r matches Ok((q, _)) ==> pos < q <= inp.text().len(),
{
    proof {
        reveal(dir_name_spec);
    }
    match identifier_node(inp, pos) {
        Ok((q, id)) => {
            let sp = id.span;
            let ws = id.whitespace_span;
            return Ok((q, Node::new(Directory::Name(id.value.0), sp, ws)));
        },
        Err(Fault::Error(_)) => {},
        Err(f) => {
            return Err(f);
        },
    }
    match symbol_node(inp, pos, ExpectSymbol::Dot, ()) {
        Ok((q, n)) => {
            return Ok((q, Node::new(Directory::Current, n.span, n.whitespace_span)));
        },
        Err(Fault::Error(_)) => {},
        Err(f) => {
            return Err(f);
        },
    }
    match symbol_node(inp, pos, ExpectSymbol::DotDot, ()) {
        Ok((q, n)) => Ok((q, Node::new(Directory::Parent, n.span, n.whitespace_span))),
        Err(f) => Err(f),
    }
}

fn dir_step_node(inp: &Input, pos: usize) -> (r: PResult<Node<Directory>, ParserError>)
    requires
        inp.wf(),
        pos <= inp.text().len(),
    ensures
        res_view(r, |n: Node<Directory>| dir_view(n)) == dir_step(inp.text(), pos as int),
        r matches Ok((q, _)) ==> pos < q <= inp.text().len(),
{
    proof {
        reveal(dir_step);
    }
    let (q, d) = match directory_name(inp, pos) {
        Err(f) => {
            return Err(f);
        },
        Ok(x) => x,
    };
    match symbol_node(inp, q, ExpectSymbol::Slash, ()) {
        Err(f) => Err(f),
        Ok((q2, _)) => Ok((q2, d)),
    }
}

/// Parses the directories of a path, each followed by `/`; none is fine.
pub fn opt_directory_path(inp: &Input, pos: usize) -> (r: PResult<Vec<Node<Directory>>, ParserError>)
    requires
        inp.wf(),
        pos <= inp.text().len(),
    ensures
        res_view(r, |v: Vec<Node<Directory>>| dirs_view(v@)) == dirs_rest(inp.text(), pos as int, Seq::empty()),
        r matches Ok((q, _)) ==> pos <= q <= inp.text().len(),
{
    let ghost s = inp.text();
    let mut v: Vec<Node<Directory>> = Vec::new();
    let mut cur = pos;
    proof {
        assert(dirs_view(v@) =~= Seq::empty());
    }
    loop
        invariant
            inp.wf(),
            s == inp.text(),
            pos <= cur <= s.len(),
            dirs_rest(s, cur as int, dirs_view(v@)) == dirs_rest(s, pos as int, Seq::empty()),
        decreases s.len() - cur,
    {
        match dir_step_node(inp, cur) {
            Err(Fault::Error(_)) => {
                return Ok((cur, v));
            },
            Err(f) => {
                return Err(f);
            },
            Ok((q, d)) => {
                let ghost old_v = v@;
                v.push(d);
                proof {
                    assert(dirs_view(v@) =~= dirs_view(old_v).push(dir_view(d)));
                }
                cur = q;
            },
        }
    }
}

fn segments(inp: &Input, pos: usize, init: Vec<Node<Identifier>>) -> (r: PResult<Vec<Node<Identifier>>, ParserError>)
    requires
        inp.wf(),
        pos <= inp.text().len(),
    ensures
        res_view(r, |v: Vec<Node<Identifier>>| idents_view(v@)) == segments_rest(
            inp.text(),
            pos as int,
            idents_view(init@),
        ),
        r matches Ok((q, _)) ==> pos <= q <= inp.text().len(),
{
    let ghost s = inp.text();
    let ghost v0 = init@;
    let mut v = init;
    let mut cur = pos;
    loop
        invariant
            inp.wf(),
            s == inp.text(),
            pos <= cur <= s.len(),
            v0 == init@,
            segments_rest(s, cur as int, idents_view(v@)) == segments_rest(s, pos as int, idents_view(v0)),
        decreases s.len() - cur,
    {
        let (q, dot) = match symbol_node(inp, cur, ExpectSymbol::Dot, ()) {
            Err(Fault::Error(_)) => {
                return Ok((cur, v));
            },
            Err(f) => {
                return Err(f);
            },
            Ok(x) => x,
        };
        let reason = ParserErrorReason::Incomplete {
            cause: dot.span,
            kind: IncompleteKind::Decl(DeclKind::ModelMissingSubcomponent),
        };
        match identifier_node_or_fail(inp, q, reason) {
            Err(f) => {
                return Err(f);
            },
            Ok((q2, id)) => {
                let ghost old_v = v@;
                v.push(id);
                proof {
                    assert(idents_view(v@) =~= idents_view(old_v).push(ident_view(id)));
                }
                cur = q2;
            },
        }
    }
}

fn alias(inp: &Input, pos: usize) -> (r: PResult<Node<Identifier>, ParserError>)
    requires
        inp.wf(),
        pos <= inp.text().len(),
    ensures
        res_view(r, |n: Node<Identifier>| ident_view(n)) == alias_spec(inp.text(), pos as int),
        r matches Ok((q, _)) ==> pos <= q <= inp.text().len(),
{
    proof {
        reveal(alias_spec);
    }
    let (q, a) = match keyword_node(inp, pos, ExpectKeyword::As, ()) {
        Err(f) => {
            return Err(f);
        },
        Ok(x) => x,
    };
    let reason = ParserErrorReason::Incomplete {
        cause: a.span,
        kind: IncompleteKind::Decl(DeclKind::AsMissingAlias),
    };
    identifier_node_or_fail(inp, q, reason)
}

fn optional_alias(inp: &Input, pos: usize) -> (r: PResult<Option<Node<Identifier>>, ParserError>)
    requires
        inp.wf(),
        pos <= inp.text().len(),
    ensures
        res_view(r, |o: Option<Node<Identifier>>| opt_ident_view(o)) == optional(
            alias_spec(inp.text(), pos as int),
            pos as int,
        ),
        r matches Ok((q, _)) ==> pos <= q <= inp.text().len(),
{
    match alias(inp, pos) {
        Ok((q, a)) => Ok((q, Some(a))),
        Err(Fault::Error(_)) => Ok((pos, None)),
        Err(Fault::Failure(e)) => Err(Fault::Failure(e)),
    }
}

fn build_model_info(top: Node<Identifier>, subs: Vec<Node<Identifier>>, alias: Option<Node<Identifier>>) -> (n: Node<ModelInfo>)
    ensures
        model_info_view(n) == model_info_node(ident_view(top), idents_view(subs@), opt_ident_view(alias)),
{
    let (last_span, ws) = match &alias {
        Some(a) => (a.span, a.whitespace_span),
        None => if subs.len() > 0 {
            (subs[subs.len() - 1].span, subs[subs.len() - 1].whitespace_span)
        } else {
            (top.span, top.whitespace_span)
        },
    };
    let sp = Span::from_start_and_end(&top.span, &last_span);
    Node::new(ModelInfo { top_component: top, subcomponents: subs, alias }, sp, ws)
}

fn model_info_simple(inp: &Input, pos: usize) -> (r: PResult<Node<ModelInfo>, ParserError>)
    requires
        inp.wf(),
        pos <= inp.text().len(),
    ensures
        res_view(r, |n: Node<ModelInfo>| model_info_view(n)) == model_info_simple_spec(inp.text(), pos as int),
        r matches Ok((q, _)) ==> pos <= q <= inp.text().len(),
{
    proof {
        reveal(model_info_simple_spec);
    }
    let (q, top) = match identifier_node(inp, pos) {
        Err(f) => {
            return Err(f);
        },
        Ok(x) => x,
    };
    let (q2, a) = match optional_alias(inp, q) {
        Err(f) => {
            return Err(f);
        },
        Ok(x) => x,
    };
    let subs: Vec<Node<Identifier>> = Vec::new();
    proof {
        assert(idents_view(subs@) =~= Seq::empty());
    }
    Ok((q2, build_model_info(top, subs, a)))
}

/// Parses a model reference at `pos`: an identifier, `.subcomponent`s, and
/// an optional alias.
pub fn model_info(inp: &Input, pos: usize) -> (r: PResult<Node<ModelInfo>, ParserError>)
    requires
        inp.wf(),
        pos <= inp.text().len(),
    ensures
        res_view(r, |n: Node<ModelInfo>| model_info_view(n)) == model_info_spec(inp.text(), pos as int),
        r matches Ok((q, _)) ==> pos <= q <= inp.text().len(),
{
    proof {
        reveal(model_info_spec);
    }
    let (q, top) = match identifier_node(inp, pos) {
        Err(f) => {
            return Err(f);
        },
        Ok(x) => x,
    };
    let empty: Vec<Node<Identifier>> = Vec::new();
    proof {
        assert(idents_view(empty@) =~= Seq::empty());
    }
    let (q2, subs) = match segments(inp, q, empty) {
        Err(f) => {
            return Err(f);
        },
        Ok(x) => x,
    };
    let (q3, a) = match optional_alias(inp, q2) {
        Err(f) => {
            return Err(f);
        },
        Ok(x) => x,
    };
    Ok((q3, build_model_info(top, subs, a)))
}

fn optional_eol(inp: &Input, pos: usize) -> (r: PResult<Option<Node<()>>, ParserError>)
    requires
        inp.wf(),
        pos <= inp.text().len(),
    ensures
        res_view(r, |o: Option<Node<()>>| o) == optional(eol_at(inp.text(), pos as int), pos as int),
        r matches Ok((q, _)) ==> pos <= q <= inp.text().len(),
{
    match eol_node(inp, pos) {
        Ok((q, n)) => Ok((q, Some(n))),
        Err(Fault::Error(_)) => Ok((pos, None)),
        Err(Fault::Failure(e)) => Err(Fault::Failure(e)),
    }
}

fn list_entry(inp: &Input, pos: usize) -> (r: PResult<Node<ModelInfo>, ParserError>)
    requires
        inp.wf(),
        pos <= inp.text().len(),
    ensures
        res_view(r, |n: Node<ModelInfo>| model_info_view(n)) == list_item(inp.text(), pos as int),
        r matches Ok((q, _)) ==> pos < q <= inp.text().len(),
{
    proof {
        reveal(list_item);
    }
    let (q, _) = match symbol_node(inp, pos, ExpectSymbol::Comma, ()) {
        Err(f) => {
            return Err(f);
        },
        Ok(x) => x,
    };
    let (q1, _) = match optional_eol(inp, q) {
        Err(f) => {
            return Err(f);
        },
        Ok(x) => x,
    };
    model_info(inp, q1)
}

fn list_entries(inp: &Input, pos: usize) -> (r: PResult<Vec<Node<ModelInfo>>, ParserError>)
    requires
        inp.wf(),
        pos <= inp.text().len(),
    ensures
        res_view(r, |v: Vec<Node<ModelInfo>>| model_infos_view(v@)) == list_items(inp.text(), pos as int),
        r matches Ok((q, _)) ==> pos <= q <= inp.text().len(),
{
    proof {
        reveal(list_items);
    }
    let ghost s = inp.text();
    let (q, first) = match model_info(inp, pos) {
        Err(f) => {
            return Err(f);
        },
        Ok(x) => x,
    };
    let mut v: Vec<Node<ModelInfo>> = Vec::new();
    v.push(first);
    proof {
        assert(model_infos_view(v@) =~= seq![model_info_view(first)]);
    }
    let mut cur = q;
    loop
        invariant
            inp.wf(),
            s == inp.text(),
            pos <= cur <= s.len(),
            model_info_spec(s, pos as int) == Ok::<(int, Node<ModelInfoModel>), Fault<ParserError>>(
                (q as int, model_info_view(first)),
            ),
            list_rest(s, cur as int, model_infos_view(v@)) == list_rest(
                s,
                q as int,
                seq![model_info_view(first)],
            ),
        ensures
            pos <= cur <= s.len(),
            list_rest(s, cur as int, model_infos_view(v@)) == list_rest(
                s,
                q as int,
                seq![model_info_view(first)],
            ),
            list_rest(s, cur as int, model_infos_view(v@)) == Ok::<
                (int, Seq<Node<ModelInfoModel>>),
                Fault<ParserError>,
            >((cur as int, model_infos_view(v@))),
        decreases s.len() - cur,
    {
        match list_entry(inp, cur) {
            Err(Fault::Error(_)) => {
                break ;
            },
            Err(f) => {
                proof {
                    reveal(list_items);
                }
                return Err(f);
            },
            Ok((q2, mi)) => {
                let ghost old_v = v@;
                v.push(mi);
                proof {
                    assert(model_infos_view(v@) =~= model_infos_view(old_v).push(model_info_view(mi)));
                }
                cur = q2;
            },
        }
    }
    let q3 = match symbol_node(inp, cur, ExpectSymbol::Comma, ()) {
        Ok((q3, _)) => q3,
        Err(Fault::Error(_)) => cur,
        Err(Fault::Failure(e)) => {
            return Err(Fault::Failure(e));
        },
    };
    let q4 = match optional_eol(inp, q3) {
        Err(f) => {
            return Err(f);
        },
        Ok((q4, _)) => q4,
    };
    Ok((q4, v))
}

fn submodel_list(inp: &Input, pos: usize) -> (r: PResult<Node<Vec<Node<ModelInfo>>>, ParserError>)
    requires
        inp.wf(),
        pos <= inp.text().len(),
    ensures
        res_view(
            r,
            |n: Node<Vec<Node<ModelInfo>>>| node(model_infos_view(n.value@), n.span, n.whitespace_span),
        ) == submodel_list_spec(inp.text(), pos as int),
        r matches Ok((q, _)) ==> pos <= q <= inp.text().len(),
{
    proof {
        reveal(submodel_list_spec);
    }
    let (q, lb) = match symbol_node(inp, pos, ExpectSymbol::BracketLeft, ()) {
        Err(f) => {
            return Err(f);
        },
        Ok(x) => x,
    };
    let (q1, _) = match optional_eol(inp, q) {
        Err(f) => {
            return Err(f);
        },
        Ok(x) => x,
    };
    let (q2, items) = match list_entries(inp, q1) {
        Ok((q2, v)) => (q2, v),
        Err(Fault::Error(_)) => {
            let v: Vec<Node<ModelInfo>> = Vec::new();
            proof {
                assert(model_infos_view(v@) =~= Seq::empty());
            }
            (q1, v)
        },
        Err(Fault::Failure(e)) => {
            return Err(Fault::Failure(e));
        },
    };
    let reason = ParserErrorReason::Incomplete { cause: lb.span, kind: IncompleteKind::UnclosedBracket };
    match symbol_node_or_fail(inp, q2, ExpectSymbol::BracketRight, (), reason) {
        Err(f) => Err(f),
        Ok((q3, rb)) => {
            let sp = Span::from_start_and_end(&lb.span, &rb.span);
            Ok((q3, Node::new(items, sp, rb.whitespace_span)))
        },
    }
}

fn model_keyword_node(inp: &Input, pos: usize) -> (r: PResult<Node<(ModelKind, SubmodelKeyword)>, ParserError>)
    requires
        inp.wf(),
        pos <= inp.text().len(),
    ensures
        res_view(r, |n: Node<(ModelKind, SubmodelKeyword)>| n) == model_keyword(inp.text(), pos as int),
        r matches Ok((q, _)) ==> pos < q <= inp.text().len(),
{
    proof {
        reveal(model_keyword);
    }
    let r = keyword_node(inp, pos, ExpectKeyword::Reference, (ModelKind::Reference, SubmodelKeyword::Reference));
    if !(r matches Err(Fault::Error(_))) {
        return r;
    }
    keyword_node(inp, pos, ExpectKeyword::Submodel, (ModelKind::Submodel, SubmodelKeyword::Submodel))
}

/// The model of the result of a declaration parser.
pub open spec fn decl_res(r: PResult<Node<Decl>, ParserError>) -> SRes<Node<DeclModel>> {
    res_view(r, |n: Node<Decl>| decl_view(n))
}

fn submodel_decl(inp: &Input, pos: usize) -> (r: PResult<Node<Decl>, ParserError>)
    requires
        inp.wf(),
        pos <= inp.text().len(),
    ensures
        decl_res(r) == submodel_spec(inp.text(), pos as int),
        r matches Ok((q, _)) ==> pos <= q <= inp.text().len(),
{
    proof {
        reveal(submodel_spec);
    }
    let (q, k) = match model_keyword_node(inp, pos) {
        Err(f) => {
            return Err(f);
        },
        Ok(x) => x,
    };
    let (q1, dirs) = match opt_directory_path(inp, q) {
        Err(f) => {
            return Err(f);
        },
        Ok(x) => x,
    };
    let missing = ParserErrorReason::Incomplete {
        cause: k.span,
        kind: IncompleteKind::Decl(DeclKind::Submodel(SubmodelKind::MissingModelInfo { after: k.value.1 })),
    };
    let (q2, mi) = match model_info_simple(inp, q1) {
        Err(f) => {
            return Err(escalate_fault(f, missing));
        },
        Ok(x) => x,
    };
    let (q3, list) = match submodel_list(inp, q2) {
        Ok((q3, l)) => (q3, Some(l)),
        Err(Fault::Error(_)) => (q2, None),
        Err(Fault::Failure(e)) => {
            return Err(Fault::Failure(e));
        },
    };
    let fin = match &list {
        Some(l) => l.span,
        None => mi.span,
    };
    let no_eol = ParserErrorReason::Incomplete {
        cause: fin,
        kind: IncompleteKind::Decl(DeclKind::Submodel(SubmodelKind::MissingEndOfLine)),
    };
    let (q4, eol) = match eol_node_or_fail(inp, q3, no_eol) {
        Err(f) => {
            return Err(f);
        },
        Ok(x) => x,
    };
    let d = SubmodelDecl { directory_path: dirs, model_info: mi, submodel_list: list, model_kind: k.value.0 };
    let ws = eol.whitespace_span;
    Ok((q4, Node::new(Decl::Submodel(Node::new(d, fin, ws)), fin, ws)))
}

fn import_decl(inp: &Input, pos: usize) -> (r: PResult<Node<Decl>, ParserError>)
    requires
        inp.wf(),
        pos <= inp.text().len(),
    ensures
        decl_res(r) == import_spec(inp.text(), pos as int),
        r matches Ok((q, _)) ==> pos <= q <= inp.text().len(),
{
    proof {
        reveal(import_spec);
    }
    let (q, imp) = match keyword_node(inp, pos, ExpectKeyword::Import, ()) {
        Err(f) => {
            return Err(f);
        },
        Ok(x) => x,
    };
    let no_path = ParserErrorReason::Incomplete {
        cause: imp.span,
        kind: IncompleteKind::Decl(DeclKind::Import(ImportKind::MissingPath)),
    };
    let (q2, path) = match identifier_node_or_fail(inp, q, no_path) {
        Err(f) => {
            return Err(f);
        },
        Ok(x) => x,
    };
    let no_eol = ParserErrorReason::Incomplete {
        cause: path.span,
        kind: IncompleteKind::Decl(DeclKind::Import(ImportKind::MissingEndOfLine)),
    };
    let (q3, eol) = match eol_node_or_fail(inp, q2, no_eol) {
        Err(f) => {
            return Err(f);
        },
        Ok(x) => x,
    };
    let sp = Span::from_start_and_end(&imp.span, &eol.span);
    let ws = eol.whitespace_span;
    let path_node = Node::new(path.value.0, path.span, path.whitespace_span);
    Ok((q3, Node::new(Decl::Import(Node::new(Import { path: path_node }, sp, ws)), sp, ws)))
}

/// Parses a design target line at `pos`: `design`, an optional directory
/// path, the target model, the end of the line.
pub fn parse_design_target_line(inp: &Input, pos: usize) -> (r: PResult<Node<Decl>, ParserError>)
    requires
        inp.wf(),
        pos <= inp.text().len(),
    ensures
        decl_res(r) == design_target_spec(inp.text(), pos as int),
        r matches Ok((q, _)) ==> pos <= q <= inp.text().len(),
{
    proof {
        reveal(design_target_spec);
    }
    let (q, d) = match keyword_node(inp, pos, ExpectKeyword::Design, ()) {
        Err(f) => {
            return Err(f);
        },
        Ok(x) => x,
    };
    let (q1, dirs) = match opt_directory_path(inp, q) {
        Err(f) => {
            return Err(f);
        },
        Ok(x) => x,
    };
    let no_target = ParserErrorReason::Incomplete {
        cause: d.span,
        kind: IncompleteKind::Decl(DeclKind::DesignMissingTarget),
    };
    let (q2, target) = match identifier_node_or_fail(inp, q1, no_target) {
        Err(f) => {
            return Err(f);
        },
        Ok(x) => x,
    };
    let no_eol = ParserErrorReason::Incomplete {
        cause: target.span,
        kind: IncompleteKind::Decl(DeclKind::Import(ImportKind::MissingEndOfLine)),
    };
    let (q3, eol) = match eol_node_or_fail(inp, q2, no_eol) {
        Err(f) => {
            return Err(f);
        },
        Ok(x) => x,
    };
    let sp = Span::from_start_and_end(&d.span, &eol.span);
    let ws = eol.whitespace_span;
    let dt = DesignTarget { directory_path: dirs, target };
    Ok((q3, Node::new(Decl::DesignTarget(Node::new(dt, sp, ws)), sp, ws)))
}

fn apply_file_node(inp: &Input, pos: usize, kw: Option<Span>) -> (r: PResult<Node<Identifier>, ParserError>)
    requires
        inp.wf(),
        pos <= inp.text().len(),
    ensures
        res_view(r, |n: Node<Identifier>| ident_view(n)) == apply_file(inp.text(), pos as int, kw),
        r matches Ok((q, _)) ==> pos < q <= inp.text().len(),
{
    proof {
        reveal(apply_file);
    }
    match kw {
        Some(k) => {
            let reason = ParserErrorReason::Incomplete {
                cause: k,
                kind: IncompleteKind::Decl(DeclKind::ApplyMissingFile),
            };
            identifier_node_or_fail(inp, pos, reason)
        },
        None => identifier_node(inp, pos),
    }
}

fn apply_target_nodes(inp: &Input, pos: usize, file: Span) -> (r: PResult<Vec<Node<Identifier>>, ParserError>)
    requires
        inp.wf(),
        pos <= inp.text().len(),
    ensures
        res_view(r, |v: Vec<Node<Identifier>>| idents_view(v@)) == apply_target(inp.text(), pos as int, file),
        r matches Ok((q, v)) ==> pos <= q <= inp.text().len() && v@.len() > 0,
{
    proof {
        reveal(apply_target);
    }
    let reason = ParserErrorReason::Incomplete {
        cause: file,
        kind: IncompleteKind::Decl(DeclKind::ApplyMissingTarget),
    };
    let (q, _) = match keyword_node_or_fail(inp, pos, ExpectKeyword::To, (), reason) {
        Err(f) => {
            return Err(f);
        },
        Ok(x) => x,
    };
    let (q2, first) = match identifier_node_or_fail(inp, q, reason) {
        Err(f) => {
            return Err(f);
        },
        Ok(x) => x,
    };
    let mut v: Vec<Node<Identifier>> = Vec::new();
    v.push(first);
    proof {
        assert(idents_view(v@) =~= seq![ident_view(first)]);
    }
    proof {
        lemma_segments_grow(inp.text(), q2 as int, seq![ident_view(first)]);
    }
    segments(inp, q2, v)
}

proof fn lemma_segments_grow(s: Seq<char>, p: int, acc: Seq<Node<Seq<char>>>)
    ensures
        segments_rest(s, p, acc) matches Ok((_, v)) ==> v.len() >= acc.len(),
    decreases s.len() - p,
{
    match sym(s, p, ExpectSymbol::Dot, ()) {
        Ok((q, dot)) => match ident_or_fail(s, q, decl_incomplete(dot.span, DeclKind::ModelMissingSubcomponent)) {
            Ok((q2, id)) => if p < q2 <= s.len() {
                lemma_segments_grow(s, q2, acc.push(id));
            },
            _ => {},
        },
        _ => {},
    }
}

fn build_apply(
    dirs: Vec<Node<Directory>>,
    file: Node<Identifier>,
    targets: Vec<Node<Identifier>>,
    nested: Vec<Node<ApplyDesign>>,
    end: Span,
) -> (n: Node<ApplyDesign>)
    ensures
        apply_view(n) == apply_node(dirs_view(dirs@), ident_view(file), idents_view(targets@), applies_view(nested@), end),
{
    let start = if dirs.len() > 0 {
        dirs[0].span
    } else {
        file.span
    };
    let sp = Span::from_start_and_end(&start, &end);
    Node::new(ApplyDesign { directory_path: dirs, design_file: file, target: targets, nested_applies: nested }, sp, end)
}

fn apply_body_node(inp: &Input, pos: usize, kw: Option<Span>) -> (r: PResult<Node<ApplyDesign>, ParserError>)
    requires
        inp.wf(),
        pos <= inp.text().len(),
    ensures
        res_view(r, |n: Node<ApplyDesign>| apply_view(n)) == apply_body(inp.text(), pos as int, kw),
        r matches Ok((q, _)) ==> pos < q <= inp.text().len(),
    decreases inp.text().len() - pos, 1int,
{
    let (q, dirs) = match opt_directory_path(inp, pos) {
        Err(f) => {
            return Err(f);
        },
        Ok(x) => x,
    };
    let (q1, file) = match apply_file_node(inp, q, kw) {
        Err(f) => {
            return Err(f);
        },
        Ok(x) => x,
    };
    let (q4, targets) = match apply_target_nodes(inp, q1, file.span) {
        Err(f) => {
            return Err(f);
        },
        Ok(x) => x,
    };
    let (q5, lb) = match symbol_node(inp, q4, ExpectSymbol::BracketLeft, ()) {
        Err(Fault::Error(_)) => {
            let end = targets[targets.len() - 1].span;
            let nested: Vec<Node<ApplyDesign>> = Vec::new();
            proof {
                assert(applies_view(nested@) =~= Seq::empty());
            }
            return Ok((q4, build_apply(dirs, file, targets, nested, end)));
        },
        Err(f) => {
            return Err(f);
        },
        Ok(x) => x,
    };
    let (q6, _) = match optional_eol(inp, q5) {
        Err(f) => {
            return Err(f);
        },
        Ok(x) => x,
    };
    let (q7, items) = match apply_item_list(inp, q6) {
        Err(f) => {
            return Err(f);
        },
        Ok(x) => x,
    };
    let reason = ParserErrorReason::Incomplete { cause: lb.span, kind: IncompleteKind::UnclosedBracket };
    match symbol_node_or_fail(inp, q7, ExpectSymbol::BracketRight, (), reason) {
        Err(f) => Err(f),
        Ok((q8, rb)) => Ok((q8, build_apply(dirs, file, targets, items, rb.span))),
    }
}

fn apply_sep(inp: &Input, pos: usize) -> (r: PResult<(), ParserError>)
    requires
        inp.wf(),
        pos <= inp.text().len(),
    ensures
        res_view(r, |u: ()| u) == apply_separator(inp.text(), pos as int),
        r matches Ok((q, _)) ==> pos <= q <= inp.text().len(),
{
    proof {
        reveal(apply_separator);
    }
    let q = match symbol_node(inp, pos, ExpectSymbol::Comma, ()) {
        Ok((q, _)) => q,
        Err(Fault::Error(_)) => match eol_node(inp, pos) {
            Ok((q, _)) => q,
            Err(Fault::Error(_)) => pos,
            Err(Fault::Failure(e)) => {
                return Err(Fault::Failure(e));
            },
        },
        Err(Fault::Failure(e)) => {
            return Err(Fault::Failure(e));
        },
    };
    match optional_eol(inp, q) {
        Err(f) => Err(f),
        Ok((q2, _)) => Ok((q2, ())),
    }
}

fn apply_item_node(inp: &Input, pos: usize) -> (r: PResult<Node<ApplyDesign>, ParserError>)
    requires
        inp.wf(),
        pos <= inp.text().len(),
    ensures
        res_view(r, |n: Node<ApplyDesign>| apply_view(n)) == apply_item(inp.text(), pos as int),
        r matches Ok((q, _)) ==> pos < q <= inp.text().len(),
    decreases inp.text().len() - pos, 2int,
{
    let (q, body) = match apply_body_node(inp, pos, None) {
        Err(f) => {
            return Err(f);
        },
        Ok(x) => x,
    };
    match apply_sep(inp, q) {
        Err(f) => Err(f),
        Ok((q2, _)) => Ok((q2, body)),
    }
}

fn apply_item_list(inp: &Input, pos: usize) -> (r: PResult<Vec<Node<ApplyDesign>>, ParserError>)
    requires
        inp.wf(),
        pos <= inp.text().len(),
    ensures
        res_view(r, |v: Vec<Node<ApplyDesign>>| applies_view(v@)) == apply_items(inp.text(), pos as int, Seq::empty()),
        r matches Ok((q, _)) ==> pos <= q <= inp.text().len(),
    decreases inp.text().len() - pos, 3int,
{
    let ghost s = inp.text();
    let mut v: Vec<Node<ApplyDesign>> = Vec::new();
    let mut cur = pos;
    proof {
        assert(applies_view(v@) =~= Seq::empty());
    }
    loop
        invariant
            inp.wf(),
            s == inp.text(),
            pos <= cur <= s.len(),
            apply_items(s, cur as int, applies_view(v@)) == apply_items(s, pos as int, Seq::empty()),
        decreases s.len() - cur,
    {
        match apply_item_node(inp, cur) {
            Err(Fault::Error(_)) => {
                return Ok((cur, v));
            },
            Err(f) => {
                return Err(f);
            },
            Ok((q, a)) => {
                let ghost old_v = v@;
                v.push(a);
                proof {
                    assert(v@.drop_last() =~= old_v);
                }
                cur = q;
            },
        }
    }
}

fn apply_decl(inp: &Input, pos: usize) -> (r: PResult<Node<Decl>, ParserError>)
    requires
        inp.wf(),
        pos <= inp.text().len(),
    ensures
        decl_res(r) == apply_spec(inp.text(), pos as int),
        r matches Ok((q, _)) ==> pos <= q <= inp.text().len(),
{
    proof {
        reveal(apply_spec);
    }
    let (q, a) = match keyword_node(inp, pos, ExpectKeyword::Apply, ()) {
        Err(f) => {
            return Err(f);
        },
        Ok(x) => x,
    };
    let (q2, body) = match apply_body_node(inp, q, Some(a.span)) {
        Err(f) => {
            return Err(f);
        },
        Ok(x) => x,
    };
    let no_eol = ParserErrorReason::Incomplete {
        cause: body.span,
        kind: IncompleteKind::Decl(DeclKind::Submodel(SubmodelKind::MissingEndOfLine)),
    };
    let (q3, eol) = match eol_node_or_fail(inp, q2, no_eol) {
        Err(f) => {
            return Err(f);
        },
        Ok(x) => x,
    };
    let sp = Span::from_start_and_end(&a.span, &eol.span);
    Ok((q3, Node::new(Decl::ApplyDesign(body), sp, eol.whitespace_span)))
}

fn label_with_colon(inp: &Input, pos: usize) -> (r: PResult<Node<Label>, ParserError>)
    requires
        inp.wf(),
        pos <= inp.text().len(),
    ensures
        res_view(r, |o: Node<Label>| node(o.value.0@, o.span, o.whitespace_span)) == label_colon(inp.text(), pos as int),
        r matches Ok((q, _)) ==> pos <= q <= inp.text().len(),
{
    proof {
        reveal(label_colon);
    }
    let (q, t) = match label(inp, pos) {
        Err(f) => {
            return Err(lift_fault(f));
        },
        Ok(x) => x,
    };
    match symbol_node(inp, q, ExpectSymbol::Colon, ()) {
        Err(f) => Err(f),
        Ok((q2, _)) => Ok((q2, Node::new(Label(t.lexeme_str), t.lexeme_span, t.whitespace_span))),
    }
}

fn render_name_node(inp: &Input, pos: usize) -> (r: PResult<Node<RenderName>, ParserError>)
    requires
        inp.wf(),
        pos <= inp.text().len(),
    ensures
        res_view(r, |o: Node<RenderName>| node(o.value.0@, o.span, o.whitespace_span)) == render_at(inp.text(), pos as int),
        r matches Ok((q, _)) ==> pos <= q <= inp.text().len(),
{
    proof {
        reveal(render_at);
    }
    let ghost s = inp.text();
    match render_name(inp, pos) {
        Err(f) => Err(lift_fault(f)),
        Ok((q, t)) => {
            let n = t.lexeme_str.unicode_len();
            let text = String::from_str(t.lexeme_str.as_str().substring_char(1, n - 1));
            proof {
                if let Ok(e) = lex_render_name(s, pos as int) {
                    crate::token::naming::lemma_render_bounds(s, pos as int);
                    assert(t.lexeme_str@.subrange(1, n - 1) =~= s.subrange(pos + 1, e - 1));
                }
            }
            Ok((q, Node::new(RenderName(text), t.lexeme_span, t.whitespace_span)))
        },
    }
}

fn instance_segment_node(inp: &Input, pos: usize) -> (r: PResult<Node<Identifier>, ParserError>)
    requires
        inp.wf(),
        pos <= inp.text().len(),
    ensures
        res_view(r, |n: Node<Identifier>| ident_view(n)) == instance_segment(inp.text(), pos as int),
        r matches Ok((q, _)) ==> pos <= q <= inp.text().len(),
{
    proof {
        reveal(instance_segment);
    }
    let (q, dot) = match symbol_node(inp, pos, ExpectSymbol::Dot, ()) {
        Err(f) => {
            return Err(f);
        },
        Ok(x) => x,
    };
    let reason = ParserErrorReason::Incomplete {
        cause: dot.span,
        kind: IncompleteKind::Parameter(ParameterKind::MissingInstancePathSegment),
    };
    identifier_node_or_fail(inp, q, reason)
}

/// The head of a design parameter: marker, trace level, label, render name,
/// identifier, instance segment, and the span of the `=`.
type DesignHead = (
    Option<Node<PerformanceMarker>>,
    Option<Node<TraceLevel>>,
    Option<Node<Label>>,
    Option<Node<RenderName>>,
    Node<Identifier>,
    Option<Node<Identifier>>,
    Span,
);

/// The model of the head of a design parameter.
pub open spec fn head_view(h: DesignHead) -> (
    Option<Node<PerformanceMarker>>,
    Option<Node<TraceLevel>>,
    Option<Node<Seq<char>>>,
    Option<Node<Seq<char>>>,
    Node<Seq<char>>,
    Option<Node<Seq<char>>>,
    Span,
) {
    (h.0, h.1, opt_label_view(h.2), opt_render_view(h.3), ident_view(h.4), opt_ident_view(h.5), h.6)
}

fn design_head_node(inp: &Input, pos: usize) -> (r: PResult<DesignHead, ParserError>)
    requires
        inp.wf(),
        pos <= inp.text().len(),
    ensures
        res_view(r, |h: DesignHead| head_view(h)) == design_head(inp.text(), pos as int),
        r matches Ok((q, _)) ==> pos <= q <= inp.text().len(),
{
    proof {
        reveal(design_head);
    }
    let (p1, pm) = match performance_marker(inp, pos) {
        Ok((q, m)) => (q, Some(m)),
        Err(Fault::Error(_)) => (pos, None),
        Err(Fault::Failure(e)) => {
            return Err(Fault::Failure(e));
        },
    };
    let (p2, tl) = match trace_level(inp, p1) {
        Ok((q, t)) => (q, Some(t)),
        Err(Fault::Error(_)) => (p1, None),
        Err(Fault::Failure(e)) => {
            return Err(Fault::Failure(e));
        },
    };
    let (p3, lbl) = match label_with_colon(inp, p2) {
        Ok((q, l)) => (q, Some(l)),
        Err(Fault::Error(_)) => (p2, None),
        Err(Fault::Failure(e)) => {
            return Err(Fault::Failure(e));
        },
    };
    let (p4, rn) = if lbl.is_some() {
        match render_name_node(inp, p3) {
            Ok((q, n)) => (q, Some(n)),
            Err(Fault::Error(_)) => (p3, None),
            Err(Fault::Failure(e)) => {
                return Err(Fault::Failure(e));
            },
        }
    } else {
        (p3, None)
    };
    let (p5, ident) = match identifier_node(inp, p4) {
        Err(f) => {
            return Err(f);
        },
        Ok(x) => x,
    };
    let (p6, inst) = if lbl.is_none() {
        match instance_segment_node(inp, p5) {
            Ok((q, n)) => (q, Some(n)),
            Err(Fault::Error(_)) => (p5, None),
            Err(Fault::Failure(e)) => {
                return Err(Fault::Failure(e));
            },
        }
    } else {
        (p5, None)
    };
    match symbol_node(inp, p6, ExpectSymbol::Equals, ()) {
        Err(f) => Err(f),
        Ok((p7, eq)) => Ok((p7, (pm, tl, lbl, rn, ident, inst, eq.span))),
    }
}

fn design_parameter_decl(inp: &Input, pos: usize) -> (r: PResult<Node<Decl>, ParserError>)
    requires
        inp.wf(),
        pos <= inp.text().len(),
    ensures
        decl_res(r) == design_param_spec(inp.text(), pos as int),
        r matches Ok((q, _)) ==> pos <= q <= inp.text().len(),
{
    proof {
        reveal(design_param_spec);
    }
    let (p7, (pm, tl, lbl, rn, ident, inst, eq)) = match design_head_node(inp, pos) {
        Err(f) => {
            return Err(f);
        },
        Ok(x) => x,
    };
    let no_value = ParserErrorReason::Incomplete {
        cause: eq,
        kind: IncompleteKind::Parameter(ParameterKind::MissingValue),
    };
    let (p8, value) = match parse_parameter_value(inp, p7) {
        Err(f) => {
            return Err(escalate_fault(f, no_value));
        },
        Ok(x) => x,
    };
    let no_eol = ParserErrorReason::Incomplete {
        cause: value.span,
        kind: IncompleteKind::Parameter(ParameterKind::MissingEndOfLine),
    };
    let (p9, eol) = match eol_node_or_fail(inp, p8, no_eol) {
        Err(f) => {
            return Err(f);
        },
        Ok(x) => x,
    };
    let (p10, n) = match parse_note(inp, p9) {
        Ok((q, x)) => (q, Some(x)),
        Err(Fault::Error(_)) => (p9, None),
        Err(Fault::Failure(e)) => {
            return Err(Fault::Failure(e));
        },
    };
    let start = match &pm {
        Some(m) => m.span,
        None => match &tl {
            Some(t) => t.span,
            None => match &lbl {
                Some(l) => l.span,
                None => ident.span,
            },
        },
    };
    let (end, ws) = match &n {
        Some(x) => (x.span, x.whitespace_span),
        None => (eol.span, eol.whitespace_span),
    };
    let sp = Span::from_start_and_end(&start, &end);
    let d = DesignParameter {
        ident,
        instance_path: inst,
        value,
        performance_marker: pm,
        trace_level: tl,
        note: n,
        label: lbl,
        render_name: rn,
    };
    Ok((p10, Node::new(Decl::DesignParameter(Node::new(d, sp, ws)), sp, ws)))
}

fn parameter_decl(inp: &Input, pos: usize) -> (r: PResult<Node<Decl>, ParserError>)
    requires
        inp.wf(),
        pos <= inp.text().len(),
    ensures
        decl_res(r) == parameter_decl_spec(inp.text(), pos as int),
        r matches Ok((q, _)) ==> pos <= q <= inp.text().len(),
{
    match parse_parameter(inp, pos) {
        Err(f) => Err(f),
        Ok((q, n)) => {
            let sp = n.span;
            let ws = n.whitespace_span;
            Ok((q, Node::new(Decl::Parameter(n), sp, ws)))
        },
    }
}

fn test_decl(inp: &Input, pos: usize) -> (r: PResult<Node<Decl>, ParserError>)
    requires
        inp.wf(),
        pos <= inp.text().len(),
    ensures
        decl_res(r) == test_decl_spec(inp.text(), pos as int),
        r matches Ok((q, _)) ==> pos <= q <= inp.text().len(),
{
    match parse_test(inp, pos) {
        Err(f) => Err(f),
        Ok((q, n)) => {
            let sp = n.span;
            let ws = n.whitespace_span;
            Ok((q, Node::new(Decl::Test(n), sp, ws)))
        },
    }
}

/// Parses a declaration at `pos`, under the configuration of the input.
pub fn parse(inp: &Input, pos: usize) -> (r: PResult<Node<Decl>, ParserError>)
    requires
        inp.wf(),
        pos <= inp.text().len(),
    ensures
        decl_res(r) == decl_spec(inp.text(), pos as int, inp.cfg()),
        r matches Ok((q, _)) ==> pos <= q <= inp.text().len(),
{
    let cfg = inp.config();
    match parse_design_target_line(inp, pos) {
        Ok((_, d)) => {
            let kind = if cfg.require_design_header {
                DeclKind::DesignHeaderDuplicate
            } else {
                DeclKind::DesignHeaderWrongFile
            };
            let sp = d.span;
            return Err(
                Fault::Error(
                    ParserError {
                        error_offset: sp.start.offset,
                        reason: ParserErrorReason::Incomplete { cause: sp, kind: IncompleteKind::Decl(kind) },
                    },
                ),
            );
        },
        Err(_) => {},
    }
    let r = import_decl(inp, pos);
    if !(r matches Err(Fault::Error(_))) {
        return r;
    }
    let r = apply_decl(inp, pos);
    if !(r matches Err(Fault::Error(_))) {
        return r;
    }
    let r = submodel_decl(inp, pos);
    if !(r matches Err(Fault::Error(_))) {
        return r;
    }
    let r = test_decl(inp, pos);
    if !(r matches Err(Fault::Error(_))) {
        return r;
    }
    let r = if cfg.allow_design_shorthand {
        design_parameter_decl(inp, pos)
    } else {
        parameter_decl(inp, pos)
    };
    match r {
        Err(f) => Err(recast_fault(f, ParserErrorReason::Expect(ExpectKind::Decl))),
        Ok(x) => Ok(x),
    }
}

/// Parses a declaration that runs from `pos` to the end of the text.
pub fn parse_complete(inp: &Input, pos: usize) -> (r: PResult<Node<Decl>, ParserError>)
    requires
        inp.wf(),
        pos <= inp.text().len(),
    ensures
        decl_res(r) == complete(inp.text(), decl_spec(inp.text(), pos as int, inp.cfg())),
{
    finish(inp, parse(inp, pos))
}

/// Parses a design target line that runs from `pos` to the end of the text.
pub fn parse_design_target_complete(inp: &Input, pos: usize) -> (r: PResult<Node<Decl>, ParserError>)
    requires
        inp.wf(),
        pos <= inp.text().len(),
    ensures
        decl_res(r) == complete(inp.text(), design_target_spec(inp.text(), pos as int)),
{
    finish(inp, parse_design_target_line(inp, pos))
}

} // verus!
