//! Model files: an optional note, declarations, and sections. A declaration
//! that does not parse is recorded as an error and skipped up to the next
//! line, so that one file reports all its errors with what did parse.
use vstd::prelude::*;

use crate::ast::{
    decl_view, decls_view, model_view, node, note_view, section_view, sections_view, Decl,
    DeclModel, FileModel, Label, Model, Node, Note, Section, SectionHeader, SectionModel,
};
use crate::chars::{is_whitespace, white_space};
use crate::combinator::{eol_or_fail, kw, res_view, SRes};
use crate::config::Config;
use crate::declaration::{decl_res, decl_spec, design_target_spec, parse as parse_decl, parse_design_target_line};
use crate::error::{incomplete, lift_fail, DeclKind, ExpectKind, IncompleteKind, ParserError, ParserErrorReason, SectionKind};
use crate::note::{note_after, note_spec, parse as parse_note};
use crate::outcome::{Fault, PResult};
use crate::text::{location_of, span_join, span_of, Input, SourceLocation, Span};
use crate::token::error::ExpectKeyword;
use crate::token::keyword::lex_keyword;
use crate::token::naming::lex_label;
use crate::token::note::lemma_note_bounds;
use crate::token::structure::{lemma_end_of_line_shape, lex_end_of_line, start_of_file_end};
use crate::token::util::{lemma_scan_while, scan_while, skip_ws};

verus! {

/// Only Unicode whitespace remains from `p`.
pub open spec fn only_whitespace(s: Seq<char>, p: int) -> bool {
    forall|i: int| p <= i < s.len() ==> white_space(#[trigger] s[i])
}

/// A section starts at `p`, or only whitespace remains: the top-level
/// declarations end there.
pub open spec fn at_section_or_end(s: Seq<char>, p: int) -> bool {
    lex_keyword(s, p, ExpectKeyword::Section) is Ok || only_whitespace(s, p)
}

/// The first position from `k` whose byte offset is at least `off`.
pub open spec fn offset_pos(s: Seq<char>, k: int, off: int) -> int
    decreases s.len() - k,
{
    if 0 <= k < s.len() && location_of(s, k).offset < off {
        offset_pos(s, k + 1, off)
    } else {
        k
    }
}

/// The end of the line that holds `p`: the next line feed, or the end.
pub open spec fn line_end(s: Seq<char>, p: int) -> int {
    scan_while(s, p, |c: char| c != '\n')
}

/// Where parsing resumes after an error at byte offset `off` in the line
/// that starts at `p`: after a note that starts at the error, or else after
/// the end of the line and a note that follows it.
#[verifier::opaque]
pub open spec fn skip_to_next_line(s: Seq<char>, p: int, off: int) -> int {
    match note_spec(s, offset_pos(s, p, off)) {
        Ok((q, _)) => q,
        Err(_) => match lex_end_of_line(s, line_end(s, p)) {
            Ok(e) => match note_spec(s, e) {
                Ok((q, _)) => q,
                Err(_) => e,
            },
            Err(_) => line_end(s, p),
        },
    }
}

/// The declarations from `p` up to a section or the end, after `decls`,
/// with the errors found so far. A declaration error is recorded, unless it
/// is "expected a declaration" right after another error, and parsing
/// resumes on the next line.
pub open spec fn decls_loop(
    s: Seq<char>,
    p: int,
    cfg: Config,
    decls: Seq<Node<DeclModel>>,
    errors: Seq<ParserError>,
    last_was_error: bool,
) -> (int, Seq<Node<DeclModel>>, Seq<ParserError>)
    decreases s.len() - p,
{
    if !(0 <= p <= s.len()) {
        (p, decls, errors)
    } else {
        match decl_spec(s, p, cfg) {
            Ok((q, d)) => if p < q <= s.len() {
                decls_loop(s, q, cfg, decls.push(d), errors, false)
            } else {
                (p, decls, errors)
            },
            Err(f) => if at_section_or_end(s, p) {
                (p, decls, errors)
            } else {
                let e = f.inner();
                let errors2 = if last_was_error && e.reason == ParserErrorReason::Expect(ExpectKind::Decl) {
                    errors
                } else {
                    errors.push(e)
                };
                let next = skip_to_next_line(s, p, e.error_offset as int);
                if p < next <= s.len() {
                    decls_loop(s, next, cfg, decls, errors2, true)
                } else {
                    (p, decls, errors2)
                }
            },
        }
    }
}

/// The label after `section` at `p`; a recoverable error becomes a failure
/// with `reason`.
#[verifier::opaque]
pub open spec fn label_or_fail(s: Seq<char>, p: int, reason: ParserErrorReason) -> SRes<Node<Seq<char>>> {
    match lex_label(s, p) {
        Ok(e) => Ok(
            (skip_ws(s, e), node(s.subrange(p, e), span_of(s, p, e), span_of(s, e, skip_ws(s, e)))),
        ),
        Err(f) => Err(lift_fail(f, reason)),
    }
}

/// A section header at `p`: `section`, a label, the end of the line. The
/// node holds the label node.
#[verifier::opaque]
pub open spec fn section_header_spec(s: Seq<char>, p: int) -> SRes<Node<Node<Seq<char>>>> {
    match kw(s, p, ExpectKeyword::Section, ()) {
        Err(f) => Err(f),
        Ok((q, k)) => match label_or_fail(
            s,
            q,
            incomplete(k.span, IncompleteKind::Section(SectionKind::MissingLabel)),
        ) {
            Err(f) => Err(f),
            Ok((q2, lbl)) => match eol_or_fail(
                s,
                q2,
                incomplete(lbl.span, IncompleteKind::Section(SectionKind::MissingEndOfLine)),
            ) {
                Err(f) => Err(f),
                Ok((q3, eol)) => Ok((q3, node(lbl, span_join(k.span, eol.span), eol.whitespace_span))),
            },
        },
    }
}

/// The section whose header parsed as `header`, with its note and
/// declarations; it spans from the header to its last part.
pub open spec fn section_node(
    header: Node<Node<Seq<char>>>,
    note: Option<Node<Seq<char>>>,
    decls: Seq<Node<DeclModel>>,
) -> Node<SectionModel> {
    let last_span = if decls.len() > 0 {
        decls.last().span
    } else {
        match note {
            Some(n) => n.span,
            None => header.span,
        }
    };
    let ws = if decls.len() > 0 {
        decls.last().whitespace_span
    } else {
        match note {
            Some(n) => n.whitespace_span,
            None => header.whitespace_span,
        }
    };
    node(SectionModel { header, note, decls }, span_join(header.span, last_span), ws)
}

/// The section at `p`: `None` when no section header starts there. Else the
/// position after it; the section, or the declarations after a header that
/// failed; and the errors found.
pub open spec fn section_spec(s: Seq<char>, p: int, cfg: Config) -> Option<
    (int, Result<Node<SectionModel>, Seq<Node<DeclModel>>>, Seq<ParserError>),
> {
    match section_header_spec(s, p) {
        Err(Fault::Error(_)) => None,
        r => {
            let q = match r {
                Ok((q, _)) => q,
                Err(f) => skip_to_next_line(s, p, f.inner().error_offset as int),
            };
            let errs = match r {
                Ok(_) => Seq::<ParserError>::empty(),
                Err(f) => seq![f.inner()],
            };
            let q2 = match note_spec(s, q) {
                Ok((q2, _)) => q2,
                Err(_) => q,
            };
            let note = match note_spec(s, q) {
                Ok((_, n)) => Some(n),
                Err(_) => None,
            };
            let (q3, decls, derrs) = decls_loop(s, q2, cfg, Seq::empty(), Seq::empty(), false);
            match r {
                Ok((_, h)) => Some((q3, Ok(section_node(h, note, decls)), errs + derrs)),
                Err(_) => Some((q3, Err(decls), errs + derrs)),
            }
        },
    }
}

/// A section keeps the note that directly follows its header line: when a
/// header parses at `p`, the section has that header, its note is exactly
/// the note that parses right after the header's end of line (none only
/// when none does), and its declarations are read after that note.
pub proof fn lemma_section_note(s: Seq<char>, p: int, cfg: Config)
    ensures
        section_header_spec(s, p) matches Ok((k, h)) ==> {
            &&& section_spec(s, p, cfg) matches Some((_, Ok(sec), _))
            &&& sec.value.header == h
            &&& sec.value.note == note_after(s, k).1
            &&& sec.value.decls == decls_loop(s, note_after(s, k).0, cfg, Seq::empty(), Seq::empty(), false).1
        },
{
}

/// The sections from `p`, after `sections`, with the declarations of
/// failed headers gathered in `decls` and the errors in `errors`.
pub open spec fn sections_loop(
    s: Seq<char>,
    p: int,
    cfg: Config,
    sections: Seq<Node<SectionModel>>,
    decls: Seq<Node<DeclModel>>,
    errors: Seq<ParserError>,
) -> (int, Seq<Node<SectionModel>>, Seq<Node<DeclModel>>, Seq<ParserError>)
    decreases s.len() - p,
{
    match section_spec(s, p, cfg) {
        None => (p, sections, decls, errors),
        Some((q, res, errs)) => if p < q <= s.len() {
            sections_loop(
                s,
                q,
                cfg,
                match res {
                    Ok(sec) => sections.push(sec),
                    Err(_) => sections,
                },
                match res {
                    Ok(_) => decls,
                    Err(ds) => decls + ds,
                },
                errors + errs,
            )
        } else {
            (p, sections, decls, errors)
        },
    }
}

/// The end of the Unicode whitespace from `p`.
pub open spec fn whitespace_end(s: Seq<char>, p: int) -> int {
    scan_while(s, p, |c: char| white_space(c))
}

/// The error for a design file that does not start with its header.
pub open spec fn design_header_error(s: Seq<char>, p: int) -> ParserError {
    let t = whitespace_end(s, p);
    let sp = span_of(s, t, t);
    ParserError {
        error_offset: sp.start.offset,
        reason: incomplete(
            sp,
            IncompleteKind::Decl(
                if only_whitespace(s, p) {
                    DeclKind::DesignHeaderMissing
                } else {
                    DeclKind::DesignHeaderNotFirst
                },
            ),
        ),
    }
}

/// The top-level declarations from `p`, the errors, and the configuration
/// for the rest of the file: a design file must start with its header,
/// after which the design shorthand is allowed.
pub open spec fn top_decls(s: Seq<char>, p: int, cfg: Config) -> (
    int,
    Seq<Node<DeclModel>>,
    Seq<ParserError>,
    Config,
) {
    if cfg.require_design_header {
        match design_target_spec(s, p) {
            Ok((q, d)) => {
                let cfg2 = Config { allow_design_shorthand: true, ..cfg };
                let (q2, ds, es) = decls_loop(s, q, cfg2, seq![d], Seq::empty(), false);
                (q2, ds, es, cfg2)
            },
            Err(f) => {
                let rest = skip_to_next_line(s, p, f.inner().error_offset as int);
                let (q2, ds, es) = decls_loop(s, rest, cfg, Seq::empty(), seq![design_header_error(s, p)], true);
                (q2, ds, es, cfg)
            },
        }
    } else {
        let (q2, ds, es) = decls_loop(s, p, cfg, Seq::empty(), Seq::empty(), false);
        (q2, ds, es, cfg)
    }
}

/// Of two candidates for the last part of a model, the one that ends later;
/// the second on a tie.
pub open spec fn later(a: Option<(Span, Span)>, b: Option<(Span, Span)>) -> Option<(Span, Span)> {
    match (a, b) {
        (None, x) => x,
        (x, None) => x,
        (Some(x), Some(y)) => if y.0.end.offset >= x.0.end.offset {
            Some(y)
        } else {
            Some(x)
        },
    }
}

/// The spans of the last part of a model: the one of the note, the last
/// declaration and the last section that ends last; the start of the file
/// when there is none.
pub open spec fn last_spans(
    s: Seq<char>,
    q0: int,
    note: Option<Node<Seq<char>>>,
    decls: Seq<Node<DeclModel>>,
    sections: Seq<Node<SectionModel>>,
) -> (Span, Span) {
    let n = match note {
        Some(x) => Some((x.span, x.whitespace_span)),
        None => None,
    };
    let d = if decls.len() > 0 {
        Some((decls.last().span, decls.last().whitespace_span))
    } else {
        None
    };
    let c = if sections.len() > 0 {
        Some((sections.last().span, sections.last().whitespace_span))
    } else {
        None
    };
    match later(later(n, d), c) {
        Some(x) => x,
        None => (span_of(s, 0, 0), span_of(s, 0, q0)),
    }
}

/// A model file under the configuration `cfg`: the position where it
/// stopped and the model, or the model that did parse and the errors.
pub open spec fn model_spec(s: Seq<char>, cfg: Config) -> Result<
    (int, Node<FileModel>),
    (Node<FileModel>, Seq<ParserError>),
> {
    let q0 = start_of_file_end(s, 0);
    match note_spec(s, q0) {
        Err(Fault::Failure(e)) => Err(
            (
                node(
                    FileModel { note: None, decls: Seq::empty(), sections: Seq::empty() },
                    span_of(s, q0, q0),
                    span_of(s, q0, q0),
                ),
                seq![e],
            ),
        ),
        r => {
            let q1 = match r {
                Ok((q1, _)) => q1,
                Err(_) => q0,
            };
            let note = match r {
                Ok((_, n)) => Some(n),
                Err(_) => None,
            };
            let (q2, decls, derrs, cfg2) = top_decls(s, q1, cfg);
            let (q3, sections, extra, serrs) = sections_loop(
                s,
                q2,
                cfg2,
                Seq::empty(),
                Seq::empty(),
                Seq::empty(),
            );
            let all_decls = decls + extra;
            let errors = derrs + serrs;
            let (last, ws) = last_spans(s, q0, note, all_decls, sections);
            let m = node(
                FileModel { note, decls: all_decls, sections },
                Span { start: location_of(s, 0), end: last.end },
                ws,
            );
            if errors.len() == 0 {
                Ok((q3, m))
            } else {
                Err((m, errors))
            }
        },
    }
}

/// A whole model file: as `model_spec`, and "unexpected token" where input
/// remains after it.
pub open spec fn model_complete(s: Seq<char>, cfg: Config) -> Result<
    Node<FileModel>,
    (Node<FileModel>, Seq<ParserError>),
> {
    match model_spec(s, cfg) {
        Err(x) => Err(x),
        Ok((q, m)) => if q == s.len() {
            Ok(m)
        } else {
            Err(
                (
                    m,
                    seq![
                        ParserError {
                            error_offset: location_of(s, q).offset,
                            reason: ParserErrorReason::UnexpectedToken,
                        },
                    ],
                ),
            )
        },
    }
}

/// The declaration loop only adds to the declarations and errors it is
/// given.
pub proof fn lemma_decls_loop_extends(
    s: Seq<char>,
    p: int,
    cfg: Config,
    decls: Seq<Node<DeclModel>>,
    errors: Seq<ParserError>,
    last_was_error: bool,
)
    ensures
        decls_loop(s, p, cfg, decls, errors, last_was_error).1.len() >= decls.len(),
        forall|i: int|
            0 <= i < decls.len() ==> #[trigger] decls_loop(s, p, cfg, decls, errors, last_was_error).1[i]
                == decls[i],
        decls_loop(s, p, cfg, decls, errors, last_was_error).2.len() >= errors.len(),
        forall|i: int|
            0 <= i < errors.len() ==> #[trigger] decls_loop(s, p, cfg, decls, errors, last_was_error).2[i]
                == errors[i],
    decreases s.len() - p,
{
    if 0 <= p <= s.len() {
        match decl_spec(s, p, cfg) {
            Ok((q, d)) => {
                if p < q <= s.len() {
                    lemma_decls_loop_extends(s, q, cfg, decls.push(d), errors, false);
                    let r = decls_loop(s, q, cfg, decls.push(d), errors, false);
                    assert forall|i: int| 0 <= i < decls.len() implies #[trigger] r.1[i] == decls[i] by {
                        assert(decls.push(d)[i] == decls[i]);
                    }
                }
            },
            Err(f) => {
                if !at_section_or_end(s, p) {
                    let e = f.inner();
                    let errors2 = if last_was_error && e.reason == ParserErrorReason::Expect(ExpectKind::Decl) {
                        errors
                    } else {
                        errors.push(e)
                    };
                    let next = skip_to_next_line(s, p, e.error_offset as int);
                    if p < next <= s.len() {
                        lemma_decls_loop_extends(s, next, cfg, decls, errors2, true);
                        let r = decls_loop(s, next, cfg, decls, errors2, true);
                        assert forall|i: int| 0 <= i < errors.len() implies #[trigger] r.2[i] == errors[i] by {
                            assert(errors2[i] == errors[i]);
                        }
                    }
                }
            },
        }
    }
}

/// The position found for a byte offset lies between `k` and the end.
proof fn lemma_offset_pos_bounds(s: Seq<char>, k: int, off: int)
    requires
        0 <= k <= s.len(),
    ensures
        k <= offset_pos(s, k, off) <= s.len(),
    decreases s.len() - k,
{
    if k < s.len() && location_of(s, k).offset < off {
        lemma_offset_pos_bounds(s, k + 1, off);
    }
}

/// Skipping a failed line always moves forward: from any position with
/// text left, parsing resumes after it and inside the text.
pub proof fn lemma_skip_advances(s: Seq<char>, p: int, off: int)
    requires
        0 <= p < s.len(),
    ensures
        p < skip_to_next_line(s, p, off) <= s.len(),
{
    reveal(skip_to_next_line);
    lemma_offset_pos_bounds(s, p, off);
    let at = offset_pos(s, p, off);
    lemma_note_bounds(s, at);
    lemma_scan_while(s, p, |c: char| c != '\n');
    let le = line_end(s, p);
    lemma_end_of_line_shape(s, le);
    match lex_end_of_line(s, le) {
        Ok(e) => {
            lemma_note_bounds(s, e);
        },
        Err(_) => {},
    }
}

/// When a declaration fails where no section or end of text follows, its
/// error is recorded, unless it is "expected a declaration" right after
/// another error (the line may belong to the failed declaration), and
/// parsing resumes on the next line with content, which always lies after
/// the failed position.
pub proof fn lemma_decls_recovery(
    s: Seq<char>,
    p: int,
    cfg: Config,
    decls: Seq<Node<DeclModel>>,
    errors: Seq<ParserError>,
    last_was_error: bool,
)
    requires
        0 <= p <= s.len(),
        decl_spec(s, p, cfg) is Err,
        !at_section_or_end(s, p),
    ensures
        ({
            let e = decl_spec(s, p, cfg)->Err_0.inner();
            let errors2 = if last_was_error && e.reason == ParserErrorReason::Expect(ExpectKind::Decl) {
                errors
            } else {
                errors.push(e)
            };
            let next = skip_to_next_line(s, p, e.error_offset as int);
            &&& p < next <= s.len()
            &&& decls_loop(s, p, cfg, decls, errors, last_was_error) == decls_loop(
                s,
                next,
                cfg,
                decls,
                errors2,
                true,
            )
        }),
{
    assert(!only_whitespace(s, p));
    let e = decl_spec(s, p, cfg)->Err_0.inner();
    lemma_skip_advances(s, p, e.error_offset as int);
}

/// A model that fails to parse always comes with at least one error.
pub proof fn lemma_model_errors_nonempty(s: Seq<char>, cfg: Config)
    ensures
        model_complete(s, cfg) matches Err((_, errors)) ==> errors.len() > 0,
{
}

/// The errors that a model file collects: the failure of its first note, or
/// else the errors of its top-level declarations followed by those of its
/// sections.
pub open spec fn model_errors(s: Seq<char>, cfg: Config) -> Seq<ParserError> {
    let q0 = start_of_file_end(s, 0);
    match note_spec(s, q0) {
        Err(Fault::Failure(e)) => seq![e],
        r => {
            let q1 = match r {
                Ok((q1, _)) => q1,
                Err(_) => q0,
            };
            let (q2, decls, derrs, cfg2) = top_decls(s, q1, cfg);
            let (q3, sections, extra, serrs) = sections_loop(
                s,
                q2,
                cfg2,
                Seq::empty(),
                Seq::empty(),
                Seq::empty(),
            );
            derrs + serrs
        },
    }
}

/// A model parses exactly when it collects no error, and a model that does
/// not parse reports every error it collected, in order.
pub proof fn lemma_model_ok_iff_no_errors(s: Seq<char>, cfg: Config)
    ensures
        model_spec(s, cfg) is Ok <==> model_errors(s, cfg).len() == 0,
        model_spec(s, cfg) matches Err((_, errors)) ==> errors == model_errors(s, cfg),
{
}

/// In a design file whose `design <model>` line is missing or misplaced,
/// the first error reported says so: "missing" when only whitespace is
/// left, "not first" otherwise; the rest of the file is still parsed.
pub proof fn lemma_design_header_error_first(s: Seq<char>, cfg: Config)
    requires
        cfg.require_design_header,
    ensures
        ({
            let q0 = start_of_file_end(s, 0);
            let q1 = match note_spec(s, q0) {
                Ok((q1, _)) => q1,
                Err(_) => q0,
            };
            !(note_spec(s, q0) is Err && note_spec(s, q0)->Err_0 is Failure) && design_target_spec(s, q1) is Err
                ==> model_errors(s, cfg).len() > 0 && model_errors(s, cfg)[0] == design_header_error(s, q1)
        }),
{
    let q0 = start_of_file_end(s, 0);
    let q1 = match note_spec(s, q0) {
        Ok((q1, _)) => q1,
        Err(_) => q0,
    };
    match design_target_spec(s, q1) {
        Err(f) => {
            let rest = skip_to_next_line(s, q1, f.inner().error_offset as int);
            lemma_decls_loop_extends(s, rest, cfg, Seq::empty(), seq![design_header_error(s, q1)], true);
            let t = decls_loop(s, rest, cfg, Seq::empty(), seq![design_header_error(s, q1)], true);
            assert(top_decls(s, q1, cfg) == (t.0, t.1, t.2, cfg));
            assert(t.2[0] == design_header_error(s, q1));
            let (q3, sections, extra, serrs) = sections_loop(s, t.0, cfg, Seq::empty(), Seq::empty(), Seq::empty());
            assert((t.2 + serrs)[0] == t.2[0]);
        },
        Ok(_) => {},
    }
}

/// In a design file, the `design <model>` line comes first. Where it parses,
/// it is the first declaration and the lines after it are read with the
/// design shorthand allowed; where it does not, the first error says that
/// the header is missing (only whitespace is left) or not first, and the
/// following lines are still read as declarations.
#[verifier::spinoff_prover]
pub proof fn lemma_top_decls_design(s: Seq<char>, p: int, cfg: Config)
    requires
        cfg.require_design_header,
    ensures
        design_target_spec(s, p) matches Ok((q, d)) ==> {
            let r = top_decls(s, p, cfg);
            &&& d.value is DesignTarget
            &&& r.1.len() > 0
            &&& r.1[0] == d
            &&& r.3 == Config { allow_design_shorthand: true, ..cfg }
            &&& (r.0, r.1, r.2) == decls_loop(s, q, r.3, seq![d], Seq::empty(), false)
        },
        design_target_spec(s, p) matches Err(f) ==> {
            let r = top_decls(s, p, cfg);
            let rest = skip_to_next_line(s, p, f.inner().error_offset as int);
            &&& r.2.len() > 0
            &&& r.2[0] == design_header_error(s, p)
            &&& r.3 == cfg
            &&& (r.0, r.1, r.2) == decls_loop(s, rest, cfg, Seq::empty(), seq![design_header_error(s, p)], true)
            &&& (0 <= p < s.len() ==> p < rest <= s.len())
        },
        top_decls(s, p, cfg).2.len() > 0 || (top_decls(s, p, cfg).1.len() > 0
            && top_decls(s, p, cfg).1[0].value is DesignTarget),
{
    match design_target_spec(s, p) {
        Ok((q, d)) => {
            let cfg2 = Config { allow_design_shorthand: true, ..cfg };
            lemma_design_target_kind(s, p);
            lemma_decls_loop_extends(s, q, cfg2, seq![d], Seq::empty(), false);
            let t = decls_loop(s, q, cfg2, seq![d], Seq::empty(), false);
            assert(top_decls(s, p, cfg) == (t.0, t.1, t.2, cfg2));
            assert(t.1[0] == d);
        },
        Err(f) => {
            let rest = skip_to_next_line(s, p, f.inner().error_offset as int);
            if 0 <= p < s.len() {
                lemma_skip_advances(s, p, f.inner().error_offset as int);
            }
            lemma_decls_loop_extends(s, rest, cfg, Seq::empty(), seq![design_header_error(s, p)], true);
            let t = decls_loop(s, rest, cfg, Seq::empty(), seq![design_header_error(s, p)], true);
            assert(top_decls(s, p, cfg) == (t.0, t.1, t.2, cfg));
        },
    }
}

/// What `design_target_spec` parses is a design target.
proof fn lemma_design_target_kind(s: Seq<char>, p: int)
    ensures
        design_target_spec(s, p) matches Ok((_, d)) ==> d.value is DesignTarget,
{
    reveal(design_target_spec);
}

/// A design file parses only when it starts with its `design <model>`
/// line: the first declaration of the model is that design target.
#[verifier::rlimit(40)]
pub proof fn lemma_design_file_starts_with_target(s: Seq<char>, cfg: Config)
    requires
        cfg.require_design_header,
    ensures
        model_complete(s, cfg) matches Ok(m) ==> m.value.decls.len() > 0 && m.value.decls[0].value is DesignTarget,
{
    let q0 = start_of_file_end(s, 0);
    let r = note_spec(s, q0);
    let q1 = match r {
        Ok((q1, _)) => q1,
        Err(_) => q0,
    };
    lemma_top_decls_design(s, q1, cfg);
    let (q2, decls, derrs, cfg2) = top_decls(s, q1, cfg);
    let (q3, sections, extra, serrs) = sections_loop(s, q2, cfg2, Seq::empty(), Seq::empty(), Seq::empty());
    assert((derrs + serrs).len() >= derrs.len());
    if decls.len() > 0 {
        assert((decls + extra)[0] == decls[0]);
    }
}

fn only_whitespace_from(inp: &Input, pos: usize) -> (r: bool)
    requires
        inp.wf(),
        pos <= inp.text().len(),
    ensures
        r == only_whitespace(inp.text(), pos as int),
{
    let n = inp.len();
    let mut i = pos;
    while i < n
        invariant
            inp.wf(),
            n == inp.text().len(),
            pos <= i <= n,
            forall|k: int| pos <= k < i ==> white_space(#[trigger] inp.text()[k]),
        decreases n - i,
    {
        if !is_whitespace(inp.char_at(i)) {
            return false;
        }
        i = i + 1;
    }
    true
}

fn whitespace_end_from(inp: &Input, pos: usize) -> (r: usize)
    requires
        inp.wf(),
        pos <= inp.text().len(),
    ensures
        r == whitespace_end(inp.text(), pos as int),
        pos <= r <= inp.text().len(),
{
    let ghost s = inp.text();
    let n = inp.len();
    let mut i = pos;
    proof {
        crate::token::util::lemma_scan_while(s, pos as int, |c: char| white_space(c));
    }
    while i < n && is_whitespace(inp.char_at(i))
        invariant
            inp.wf(),
            s == inp.text(),
            n == s.len(),
            pos <= i <= n,
            scan_while(s, i as int, |c: char| white_space(c)) == scan_while(
                s,
                pos as int,
                |c: char| white_space(c),
            ),
        decreases n - i,
    {
        i = i + 1;
    }
    i
}

fn section_or_end(inp: &Input, pos: usize) -> (r: bool)
    requires
        inp.wf(),
        pos <= inp.text().len(),
    ensures
        r == at_section_or_end(inp.text(), pos as int),
{
    let kw_ok = crate::token::keyword::keyword(inp, pos, ExpectKeyword::Section).is_ok();
    kw_ok || only_whitespace_from(inp, pos)
}

fn offset_position(inp: &Input, pos: usize, off: usize) -> (r: usize)
    requires
        inp.wf(),
        pos <= inp.text().len(),
    ensures
        r == offset_pos(inp.text(), pos as int, off as int),
        pos <= r <= inp.text().len(),
{
    let ghost s = inp.text();
    let n = inp.len();
    let mut k = pos;
    while k < n && inp.location(k).offset < off
        invariant
            inp.wf(),
            s == inp.text(),
            n == s.len(),
            pos <= k <= n,
            offset_pos(s, k as int, off as int) == offset_pos(s, pos as int, off as int),
        decreases n - k,
    {
        k = k + 1;
    }
    k
}

fn line_end_from(inp: &Input, pos: usize) -> (r: usize)
    requires
        inp.wf(),
        pos <= inp.text().len(),
    ensures
        r == line_end(inp.text(), pos as int),
        pos <= r <= inp.text().len(),
{
    let ghost s = inp.text();
    let n = inp.len();
    let mut i = pos;
    proof {
        crate::token::util::lemma_scan_while(s, pos as int, |c: char| c != '\n');
    }
    while i < n && inp.char_at(i) != '\n'
        invariant
            inp.wf(),
            s == inp.text(),
            n == s.len(),
            pos <= i <= n,
            scan_while(s, i as int, |c: char| c != '\n') == scan_while(s, pos as int, |c: char| c != '\n'),
        decreases n - i,
    {
        i = i + 1;
    }
    i
}

fn skip_line(inp: &Input, pos: usize, off: usize) -> (r: usize)
    requires
        inp.wf(),
        pos <= inp.text().len(),
    ensures
        r == skip_to_next_line(inp.text(), pos as int, off as int),
        pos <= r <= inp.text().len(),
{
    proof {
        reveal(skip_to_next_line);
    }
    let at = offset_position(inp, pos, off);
    match parse_note(inp, at) {
        Ok((q, _)) => {
            return q;
        },
        Err(_) => {},
    }
    let le = line_end_from(inp, pos);
    match crate::token::structure::end_of_line(inp, le) {
        Ok((e, _)) => match parse_note(inp, e) {
            Ok((q, _)) => q,
            Err(_) => e,
        },
        Err(_) => le,
    }
}

fn parse_decls(
    inp: &Input,
    pos: usize,
    init_decls: Vec<Node<Decl>>,
    init_errors: Vec<ParserError>,
    init_last: bool,
) -> (r: (usize, Vec<Node<Decl>>, Vec<ParserError>))
    requires
        inp.wf(),
        pos <= inp.text().len(),
    ensures
        (r.0 as int, decls_view(r.1@), r.2@) == decls_loop(
            inp.text(),
            pos as int,
            inp.cfg(),
            decls_view(init_decls@),
            init_errors@,
            init_last,
        ),
        pos <= r.0 <= inp.text().len(),
{
    let ghost s = inp.text();
    let ghost d0 = init_decls@;
    let ghost e0 = init_errors@;
    let mut decls = init_decls;
    let mut errors = init_errors;
    let mut last = init_last;
    let mut cur = pos;
    loop
        invariant
            inp.wf(),
            s == inp.text(),
            pos <= cur <= s.len(),
            d0 == init_decls@,
            e0 == init_errors@,
            decls_loop(s, cur as int, inp.cfg(), decls_view(decls@), errors@, last) == decls_loop(
                s,
                pos as int,
                inp.cfg(),
                decls_view(d0),
                e0,
                init_last,
            ),
        decreases s.len() - cur,
    {
        match parse_decl(inp, cur) {
            Ok((q, d)) => {
                if q <= cur {
                    return (cur, decls, errors);
                }
                let ghost old = decls@;
                decls.push(d);
                proof {
                    assert(decls_view(decls@) =~= decls_view(old).push(decl_view(d)));
                }
                last = false;
                cur = q;
            },
            Err(f) => {
                if section_or_end(inp, cur) {
                    return (cur, decls, errors);
                }
                let e = match f {
                    Fault::Error(e) => e,
                    Fault::Failure(e) => e,
                };
                let expect_decl = match e.reason {
                    ParserErrorReason::Expect(ExpectKind::Decl) => true,
                    _ => false,
                };
                if !(last && expect_decl) {
                    errors.push(e);
                }
                let next = skip_line(inp, cur, e.error_offset);
                if next <= cur {
                    return (cur, decls, errors);
                }
                last = true;
                cur = next;
            },
        }
    }
}

fn section_header(inp: &Input, pos: usize) -> (r: PResult<Node<SectionHeader>, ParserError>)
    requires
        inp.wf(),
        pos <= inp.text().len(),
    ensures
        res_view(
            r,
            |h: Node<SectionHeader>|
                node(
                    node(h.value.label.value.0@, h.value.label.span, h.value.label.whitespace_span),
                    h.span,
                    h.whitespace_span,
                ),
        ) == section_header_spec(inp.text(), pos as int),
        r matches Ok((q, _)) ==> pos <= q <= inp.text().len(),
{
    proof {
        reveal(section_header_spec);
        reveal(label_or_fail);
    }
    let (q, k) = match crate::combinator::keyword_node(inp, pos, ExpectKeyword::Section, ()) {
        Err(f) => {
            return Err(f);
        },
        Ok(x) => x,
    };
    let no_label = ParserErrorReason::Incomplete {
        cause: k.span,
        kind: IncompleteKind::Section(SectionKind::MissingLabel),
    };
    let (q2, lbl) = match crate::token::naming::label(inp, q) {
        Err(f) => {
            return Err(crate::error::lift_fault_fail(f, no_label));
        },
        Ok((q2, t)) => (q2, Node::new(Label(t.lexeme_str), t.lexeme_span, t.whitespace_span)),
    };
    let no_eol = ParserErrorReason::Incomplete {
        cause: lbl.span,
        kind: IncompleteKind::Section(SectionKind::MissingEndOfLine),
    };
    let (q3, eol) = match crate::combinator::eol_node_or_fail(inp, q2, no_eol) {
        Err(f) => {
            return Err(f);
        },
        Ok(x) => x,
    };
    let sp = Span::from_start_and_end(&k.span, &eol.span);
    Ok((q3, Node::new(SectionHeader { label: lbl }, sp, eol.whitespace_span)))
}

/// What parsing a section produced: the section, or the declarations after
/// a header that failed.
enum SectionOutcome {
    Parsed(Node<Section>),
    Orphans(Vec<Node<Decl>>),
}

spec fn section_outcome_view(o: SectionOutcome) -> Result<Node<SectionModel>, Seq<Node<DeclModel>>> {
    match o {
        SectionOutcome::Parsed(n) => Ok(section_view(n)),
        SectionOutcome::Orphans(v) => Err(decls_view(v@)),
    }
}

fn parse_section(inp: &Input, pos: usize) -> (r: Option<(usize, SectionOutcome, Vec<ParserError>)>)
    requires
        inp.wf(),
        pos <= inp.text().len(),
    ensures
        match section_spec(inp.text(), pos as int, inp.cfg()) {
            None => r is None,
            Some((q, res, errs)) => r matches Some((q2, o, e2)) && q2 == q && section_outcome_view(o)
                == res && e2@ == errs,
        },
        r matches Some((q, _, _)) ==> pos <= q <= inp.text().len(),
{
    let ghost s = inp.text();
    let header = section_header(inp, pos);
    let (q, errs, h) = match header {
        Err(Fault::Error(_)) => {
            return None;
        },
        Ok((q, h)) => {
            let v: Vec<ParserError> = Vec::new();
            (q, v, Some(h))
        },
        Err(Fault::Failure(e)) => {
            let q = skip_line(inp, pos, e.error_offset);
            let mut v: Vec<ParserError> = Vec::new();
            v.push(e);
            (q, v, None)
        },
    };
    proof {
        assert(errs@ == (match section_header_spec(s, pos as int) {
            Ok(_) => Seq::<ParserError>::empty(),
            Err(f) => seq![f.inner()],
        }));
    }
    let (q2, note) = match parse_note(inp, q) {
        Ok((q2, n)) => (q2, Some(n)),
        Err(_) => (q, None),
    };
    let empty_decls: Vec<Node<Decl>> = Vec::new();
    let empty_errors: Vec<ParserError> = Vec::new();
    proof {
        assert(decls_view(empty_decls@) =~= Seq::empty());
    }
    let (q3, decls, derrs) = parse_decls(inp, q2, empty_decls, empty_errors, false);
    let mut errors = errs;
    let mut derrs = derrs;
    let ghost e1 = errors@;
    let ghost e2 = derrs@;
    errors.append(&mut derrs);
    proof {
        assert(errors@ =~= e1 + e2);
    }
    match h {
        Some(h) => {
            let n = decls.len();
            let (last_span, ws) = if n > 0 {
                (decls[n - 1].span, decls[n - 1].whitespace_span)
            } else {
                match &note {
                    Some(x) => (x.span, x.whitespace_span),
                    None => (h.span, h.whitespace_span),
                }
            };
            let sp = Span::from_start_and_end(&h.span, &last_span);
            let sec = Section { header: h, note, decls };
            Some((q3, SectionOutcome::Parsed(Node::new(sec, sp, ws)), errors))
        },
        None => Some((q3, SectionOutcome::Orphans(decls), errors)),
    }
}

fn parse_sections(inp: &Input, pos: usize) -> (r: (usize, Vec<Node<Section>>, Vec<Node<Decl>>, Vec<ParserError>))
    requires
        inp.wf(),
        pos <= inp.text().len(),
    ensures
        (r.0 as int, sections_view(r.1@), decls_view(r.2@), r.3@) == sections_loop(
            inp.text(),
            pos as int,
            inp.cfg(),
            Seq::empty(),
            Seq::empty(),
            Seq::empty(),
        ),
        pos <= r.0 <= inp.text().len(),
{
    let ghost s = inp.text();
    let mut sections: Vec<Node<Section>> = Vec::new();
    let mut decls: Vec<Node<Decl>> = Vec::new();
    let mut errors: Vec<ParserError> = Vec::new();
    let mut cur = pos;
    proof {
        assert(sections_view(sections@) =~= Seq::empty());
        assert(decls_view(decls@) =~= Seq::empty());
    }
    loop
        invariant
            inp.wf(),
            s == inp.text(),
            pos <= cur <= s.len(),
            sections_loop(s, cur as int, inp.cfg(), sections_view(sections@), decls_view(decls@), errors@)
                == sections_loop(s, pos as int, inp.cfg(), Seq::empty(), Seq::empty(), Seq::empty()),
        decreases s.len() - cur,
    {
        match parse_section(inp, cur) {
            None => {
                return (cur, sections, decls, errors);
            },
            Some((q, outcome, errs)) => {
                if q <= cur {
                    return (cur, sections, decls, errors);
                }
                match outcome {
                    SectionOutcome::Parsed(sec) => {
                        let ghost old = sections@;
                        sections.push(sec);
                        proof {
                            assert(sections_view(sections@) =~= sections_view(old).push(section_view(sec)));
                        }
                    },
                    SectionOutcome::Orphans(ds) => {
                        let ghost old = decls@;
                        let ghost added = ds@;
                        let mut ds = ds;
                        decls.append(&mut ds);
                        proof {
                            assert(decls_view(decls@) =~= decls_view(old) + decls_view(added));
                        }
                    },
                }
                let ghost old_e = errors@;
                let mut errs = errs;
                let ghost added_e = errs@;
                errors.append(&mut errs);
                proof {
                    assert(errors@ =~= old_e + added_e);
                }
                cur = q;
            },
        }
    }
}

fn top_level_decls(inp: &Input, pos: usize) -> (r: (usize, Vec<Node<Decl>>, Vec<ParserError>, Config))
    requires
        inp.wf(),
        pos <= inp.text().len(),
    ensures
        (r.0 as int, decls_view(r.1@), r.2@, r.3) == top_decls(inp.text(), pos as int, inp.cfg()),
        pos <= r.0 <= inp.text().len(),
{
    let cfg = inp.config();
    if cfg.require_design_header {
        match parse_design_target_line(inp, pos) {
            Ok((q, d)) => {
                let cfg2 = Config { require_design_header: cfg.require_design_header, allow_design_shorthand: true };
                let inp2 = inp.with_config(cfg2);
                let mut first: Vec<Node<Decl>> = Vec::new();
                first.push(d);
                proof {
                    assert(decls_view(first@) =~= seq![decl_view(d)]);
                }
                let (q2, ds, es) = parse_decls(&inp2, q, first, Vec::new(), false);
                (q2, ds, es, cfg2)
            },
            Err(f) => {
                let e = match f {
                    Fault::Error(e) => e,
                    Fault::Failure(e) => e,
                };
                let rest = skip_line(inp, pos, e.error_offset);
                let t = whitespace_end_from(inp, pos);
                let sp = inp.span(t, t);
                let kind = if only_whitespace_from(inp, pos) {
                    DeclKind::DesignHeaderMissing
                } else {
                    DeclKind::DesignHeaderNotFirst
                };
                let header_error = ParserError {
                    error_offset: sp.start.offset,
                    reason: ParserErrorReason::Incomplete { cause: sp, kind: IncompleteKind::Decl(kind) },
                };
                let mut errs: Vec<ParserError> = Vec::new();
                errs.push(header_error);
                let none: Vec<Node<Decl>> = Vec::new();
                proof {
                    assert(decls_view(none@) =~= Seq::empty());
                    assert(errs@ =~= seq![design_header_error(inp.text(), pos as int)]);
                }
                let (q2, ds, es) = parse_decls(inp, rest, none, errs, true);
                (q2, ds, es, cfg)
            },
        }
    } else {
        let none: Vec<Node<Decl>> = Vec::new();
        proof {
            assert(decls_view(none@) =~= Seq::empty());
        }
        let (q2, ds, es) = parse_decls(inp, pos, none, Vec::new(), false);
        (q2, ds, es, cfg)
    }
}

/// The model of the result of parsing a whole model file.
pub open spec fn model_result_view(r: Result<Node<Model>, (Node<Model>, Vec<ParserError>)>) -> Result<
    Node<FileModel>,
    (Node<FileModel>, Seq<ParserError>),
> {
    match r {
        Ok(m) => Ok(model_view(m)),
        Err((m, errs)) => Err((model_view(m), errs@)),
    }
}

fn pick_later(a: Option<(Span, Span)>, b: Option<(Span, Span)>) -> (r: Option<(Span, Span)>)
    ensures
        r == later(a, b),
{
    match (a, b) {
        (None, x) => x,
        (x, None) => x,
        (Some(x), Some(y)) => if y.0.end.offset >= x.0.end.offset {
            Some(y)
        } else {
            Some(x)
        },
    }
}

/// Parses a whole model file: its note, declarations and sections. On
/// errors, returns the model that did parse with all the errors found.
pub fn parse_complete(inp: &Input) -> (r: Result<Node<Model>, (Node<Model>, Vec<ParserError>)>)
    requires
        inp.wf(),
    ensures
        model_result_view(r) == model_complete(inp.text(), inp.cfg()),
{
    let ghost s = inp.text();
    let (q0, sof) = crate::token::structure::start_of_file(inp, 0);
    let (q1, note) = match parse_note(inp, q0) {
        Err(Fault::Failure(e)) => {
            let sp = inp.span(q0, q0);
            let no_decls: Vec<Node<Decl>> = Vec::new();
            let no_sections: Vec<Node<Section>> = Vec::new();
            proof {
                assert(decls_view(no_decls@) =~= Seq::empty());
                assert(sections_view(no_sections@) =~= Seq::empty());
            }
            let m = Model { note: None, decls: no_decls, sections: no_sections };
            let mut errs: Vec<ParserError> = Vec::new();
            errs.push(e);
            return Err((Node::new(m, sp, sp), errs));
        },
        Err(Fault::Error(_)) => (q0, None),
        Ok((q1, n)) => (q1, Some(n)),
    };
    let (q2, decls, derrs, cfg2) = top_level_decls(inp, q1);
    let inp2 = inp.with_config(cfg2);
    let (q3, sections, extra, serrs) = parse_sections(&inp2, q2);
    let mut all_decls = decls;
    let ghost d1 = all_decls@;
    let mut extra = extra;
    let ghost d2 = extra@;
    all_decls.append(&mut extra);
    let mut errors = derrs;
    let ghost e1 = errors@;
    let mut serrs = serrs;
    let ghost e2 = serrs@;
    errors.append(&mut serrs);
    proof {
        assert(decls_view(all_decls@) =~= decls_view(d1) + decls_view(d2));
        assert(errors@ =~= e1 + e2);
    }
    let n_cand = match &note {
        Some(x) => Some((x.span, x.whitespace_span)),
        None => None,
    };
    let nd = all_decls.len();
    let d_cand = if nd > 0 {
        Some((all_decls[nd - 1].span, all_decls[nd - 1].whitespace_span))
    } else {
        None
    };
    let ns = sections.len();
    let c_cand = if ns > 0 {
        Some((sections[ns - 1].span, sections[ns - 1].whitespace_span))
    } else {
        None
    };
    let (last, ws) = match pick_later(pick_later(n_cand, d_cand), c_cand) {
        Some(x) => x,
        None => (sof.lexeme_span, sof.whitespace_span),
    };
    let sp = Span::new(inp.location(0), last.end);
    let m = Node::new(Model { note, decls: all_decls, sections }, sp, ws);
    if errors.len() > 0 {
        return Err((m, errors));
    }
    if q3 == inp.len() {
        Ok(m)
    } else {
        let mut errs: Vec<ParserError> = Vec::new();
        errs.push(ParserError { error_offset: inp.location(q3).offset, reason: ParserErrorReason::UnexpectedToken });
        Err((m, errs))
    }
}

/// The result of a model file that did not parse cleanly: the model made
/// of what did parse, and every error found.
#[derive(Debug)]
pub struct ErrorsWithPartialResult {
    /// The model made of what did parse.
    pub partial_result: Node<Model>,
    /// The errors, in the order found.
    pub error_collection: Vec<ParserError>,
}

impl ErrorsWithPartialResult {
    /// The partial model with its errors.
    pub fn new(partial_result: Node<Model>, error_collection: Vec<ParserError>) -> (r: ErrorsWithPartialResult)
        ensures
            r.partial_result == partial_result,
            r.error_collection == error_collection,
    {
        ErrorsWithPartialResult { partial_result, error_collection }
    }
}

} // verus!
