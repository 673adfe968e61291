//! The syntax tree that the parser builds, and its mathematical model.
//!
//! Every executable type here has a model type whose strings are `Seq<char>`
//! and whose lists are `Seq`s; the `*_view` functions map a value to its
//! model. The parsers are specified over the models.
use vstd::prelude::*;

use crate::text::Span;

verus! {

/// A value of the syntax tree with the span of its text and the span of the
/// whitespace after it.
#[derive(Debug, Clone, PartialEq, Eq)]
pub struct Node<T> {
    /// The value.
    pub value: T,
    /// Where the text of the value stands.
    pub span: Span,
    /// Where the whitespace after the value stands.
    pub whitespace_span: Span,
}

impl<T> Node<T> {
    /// Creates a node.
    pub fn new(value: T, span: Span, whitespace_span: Span) -> (r: Node<T>)
        ensures
            r == (Node { value, span, whitespace_span }),
    {
        Node { value, span, whitespace_span }
    }

    /// Where the text of the value stands.
    pub fn span(&self) -> (r: Span)
        ensures
            r == self.span,
    {
        self.span
    }

    /// Where the whitespace after the value stands.
    pub fn whitespace_span(&self) -> (r: Span)
        ensures
            r == self.whitespace_span,
    {
        self.whitespace_span
    }

    /// The value.
    pub fn node_value(&self) -> (r: &T)
        ensures
            *r == self.value,
    {
        &self.value
    }

    /// The value, taken out of the node.
    pub fn take_value(self) -> (r: T)
        ensures
            r == self.value,
    {
        self.value
    }

    /// Where the text of the value stands.
    pub fn node_span(&self) -> (r: Span)
        ensures
            r == self.span,
    {
        self.span
    }
}

impl<T> core::ops::Deref for Node<T> {
    type Target = T;

    /// The value.
    fn deref(&self) -> (r: &T)
        ensures
            *r == self.value,
    {
        &self.value
    }
}

/// `r` refers to the value that `o` holds, if any.
pub open spec fn opt_ref_is<T>(r: Option<&T>, o: Option<T>) -> bool {
    match (r, o) {
        (Some(a), Some(b)) => *a == b,
        (None, None) => true,
        _ => false,
    }
}

/// The optional value `o`, by reference.
pub fn opt_ref<T>(o: &Option<T>) -> (r: Option<&T>)
    ensures
        opt_ref_is(r, *o),
{
    match o {
        Some(x) => Some(x),
        None => None,
    }
}

/// The node holding `value` with the two spans.
pub open spec fn node<T>(value: T, span: Span, whitespace_span: Span) -> Node<T> {
    Node { value, span, whitespace_span }
}

/// A name: of a parameter, a model, a function or a unit.
#[derive(Debug, Clone, PartialEq, Eq)]
pub struct Identifier(pub String);

impl Identifier {
    /// Creates an identifier.
    pub fn new(name: String) -> (r: Identifier)
        ensures
            r.0@ == name@,
    {
        Identifier(name)
    }

    /// The name.
    pub fn as_str(&self) -> (r: &str)
        ensures
            r@ == self.0@,
    {
        self.0.as_str()
    }
}

/// The model of an identifier node: the node of its characters.
pub open spec fn ident_view(n: Node<Identifier>) -> Node<Seq<char>> {
    node(n.value.0@, n.span, n.whitespace_span)
}

/// Binary operators of expressions.
#[derive(Debug, Clone, Copy, PartialEq, Eq, Structural)]
pub enum BinaryOp {
    /// `+`
    Add,
    /// `-`
    Sub,
    /// `--`
    EscapedSub,
    /// `*`
    Mul,
    /// `/`
    Div,
    /// `//`
    EscapedDiv,
    /// `%`
    Mod,
    /// `^`
    Pow,
    /// `and`
    And,
    /// `or`
    Or,
    /// `|`
    MinMax,
}

/// Unary operators of expressions.
#[derive(Debug, Clone, Copy, PartialEq, Eq, Structural)]
pub enum UnaryOp {
    /// `-`
    Neg,
    /// `not`
    Not,
}

/// Comparison operators of expressions.
#[derive(Debug, Clone, Copy, PartialEq, Eq, Structural)]
pub enum ComparisonOp {
    /// `<`
    LessThan,
    /// `<=`
    LessThanEq,
    /// `>`
    GreaterThan,
    /// `>=`
    GreaterThanEq,
    /// `==`
    Eq,
    /// `!=`
    NotEq,
}

/// Operators of unit expressions.
#[derive(Debug, Clone, Copy, PartialEq, Eq, Structural)]
pub enum UnitOp {
    /// `*`
    Multiply,
    /// `/`
    Divide,
}

/// A literal value.
#[derive(Debug, Clone, PartialEq, Eq)]
pub enum Literal {
    /// A number, as it is written in the source.
    Number(String),
    /// A string, without its quotes.
    String(String),
    /// `true` or `false`.
    Boolean(bool),
}

/// The model of a literal.
pub enum LiteralModel {
    /// A number, as written.
    Number(Seq<char>),
    /// A string, without quotes.
    Str(Seq<char>),
    /// A boolean.
    Boolean(bool),
}

/// The model of a literal.
pub open spec fn literal_view(l: Literal) -> LiteralModel {
    match l {
        Literal::Number(s) => LiteralModel::Number(s@),
        Literal::String(s) => LiteralModel::Str(s@),
        Literal::Boolean(b) => LiteralModel::Boolean(b),
    }
}

/// A reference to a parameter.
#[derive(Debug, Clone, PartialEq, Eq)]
pub enum Variable {
    /// A parameter of the current model.
    Identifier(Node<Identifier>),
    /// A parameter of a referenced model: `parameter.reference_model`.
    ModelParameter { reference_model: Node<Identifier>, parameter: Node<Identifier> },
}

/// The model of a variable.
pub enum VariableModel {
    /// A parameter of the current model.
    Identifier(Node<Seq<char>>),
    /// A parameter of a referenced model.
    ModelParameter { reference_model: Node<Seq<char>>, parameter: Node<Seq<char>> },
}

/// The model of a variable.
pub open spec fn variable_view(v: Variable) -> VariableModel {
    match v {
        Variable::Identifier(i) => VariableModel::Identifier(ident_view(i)),
        Variable::ModelParameter { reference_model, parameter } => VariableModel::ModelParameter {
            reference_model: ident_view(reference_model),
            parameter: ident_view(parameter),
        },
    }
}

/// An expression.
#[derive(Debug, PartialEq)]
pub enum Expr {
    /// A chain of comparisons: `left op right`, then each further operator
    /// and operand of `rest_chained`.
    ComparisonOp {
        op: Node<ComparisonOp>,
        left: Box<Node<Expr>>,
        right: Box<Node<Expr>>,
        rest_chained: Vec<(Node<ComparisonOp>, Node<Expr>)>,
    },
    /// A binary operation.
    BinaryOp { op: Node<BinaryOp>, left: Box<Node<Expr>>, right: Box<Node<Expr>> },
    /// A unary operation.
    UnaryOp { op: Node<UnaryOp>, expr: Box<Node<Expr>> },
    /// A call of a function with its arguments.
    FunctionCall { name: Node<Identifier>, args: Vec<Node<Expr>> },
    /// An expression in parentheses.
    Parenthesized { expr: Box<Node<Expr>> },
    /// A reference to a parameter.
    Variable(Node<Variable>),
    /// A literal value.
    Literal(Node<Literal>),
}

/// The model of an expression.
pub enum ExprModel {
    /// A chain of comparisons.
    Comparison {
        op: Node<ComparisonOp>,
        left: Box<Node<ExprModel>>,
        right: Box<Node<ExprModel>>,
        rest: Seq<(Node<ComparisonOp>, Node<ExprModel>)>,
    },
    /// A binary operation.
    Binary { op: Node<BinaryOp>, left: Box<Node<ExprModel>>, right: Box<Node<ExprModel>> },
    /// A unary operation.
    Unary { op: Node<UnaryOp>, expr: Box<Node<ExprModel>> },
    /// A function call.
    Call { name: Node<Seq<char>>, args: Seq<Node<ExprModel>> },
    /// A parenthesized expression.
    Paren { expr: Box<Node<ExprModel>> },
    /// A variable.
    Var(Node<VariableModel>),
    /// A literal.
    Lit(Node<LiteralModel>),
}

/// The model of an expression.
pub open spec fn expr_view(e: Expr) -> ExprModel
    decreases e,
{
    match e {
        Expr::ComparisonOp { op, left, right, rest_chained } => ExprModel::Comparison {
            op,
            left: Box::new(expr_node_view(*left)),
            right: Box::new(expr_node_view(*right)),
            rest: chain_view(rest_chained@),
        },
        Expr::BinaryOp { op, left, right } => ExprModel::Binary {
            op,
            left: Box::new(expr_node_view(*left)),
            right: Box::new(expr_node_view(*right)),
        },
        Expr::UnaryOp { op, expr } => ExprModel::Unary {
            op,
            expr: Box::new(expr_node_view(*expr)),
        },
        Expr::FunctionCall { name, args } => ExprModel::Call {
            name: ident_view(name),
            args: expr_nodes_view(args@),
        },
        Expr::Parenthesized { expr } => ExprModel::Paren { expr: Box::new(expr_node_view(*expr)) },
        Expr::Variable(v) => ExprModel::Var(node(variable_view(v.value), v.span, v.whitespace_span)),
        Expr::Literal(l) => ExprModel::Lit(node(literal_view(l.value), l.span, l.whitespace_span)),
    }
}

/// The model of an expression node.
pub open spec fn expr_node_view(n: Node<Expr>) -> Node<ExprModel>
    decreases n,
{
    node(expr_view(n.value), n.span, n.whitespace_span)
}

/// The models of a list of expression nodes.
pub open spec fn expr_nodes_view(s: Seq<Node<Expr>>) -> Seq<Node<ExprModel>>
    decreases s,
{
    if s.len() == 0 {
        Seq::empty()
    } else {
        expr_nodes_view(s.drop_last()).push(expr_node_view(s.last()))
    }
}

/// The models of the further links of a comparison chain.
pub open spec fn chain_view(s: Seq<(Node<ComparisonOp>, Node<Expr>)>) -> Seq<
    (Node<ComparisonOp>, Node<ExprModel>),
>
    decreases s,
{
    if s.len() == 0 {
        Seq::empty()
    } else {
        chain_view(s.drop_last()).push((s.last().0, expr_node_view(s.last().1)))
    }
}

/// The models of a list of expression nodes are the model of each node, in
/// order.
pub proof fn lemma_nodes_view(s: Seq<Node<Expr>>)
    ensures
        expr_nodes_view(s).len() == s.len(),
        forall|i: int| 0 <= i < s.len() ==> #[trigger] expr_nodes_view(s)[i] == expr_node_view(s[i]),
    decreases s.len(),
{
    if s.len() > 0 {
        lemma_nodes_view(s.drop_last());
    }
}

/// The models of the links of a comparison chain are the operator and the
/// model of the operand of each link, in order.
pub proof fn lemma_chain_view(s: Seq<(Node<ComparisonOp>, Node<Expr>)>)
    ensures
        chain_view(s).len() == s.len(),
        forall|i: int|
            0 <= i < s.len() ==> #[trigger] chain_view(s)[i] == (s[i].0, expr_node_view(s[i].1)),
    decreases s.len(),
{
    if s.len() > 0 {
        lemma_chain_view(s.drop_last());
    }
}

/// An exponent of a unit, as it is written in the source.
#[derive(Debug, Clone, PartialEq, Eq)]
pub struct UnitExponent(pub String);

/// A unit expression.
#[derive(Debug, PartialEq)]
pub enum UnitExpr {
    /// Two unit expressions joined by `*` or `/`.
    BinaryOp { op: Node<UnitOp>, left: Box<Node<UnitExpr>>, right: Box<Node<UnitExpr>> },
    /// A unit expression in parentheses.
    Parenthesized { expr: Box<Node<UnitExpr>> },
    /// The dimensionless unit `1`.
    UnitOne,
    /// A named unit with an optional exponent.
    Unit { identifier: Node<Identifier>, exponent: Option<Node<UnitExponent>> },
}

/// The model of a unit expression.
pub enum UnitModel {
    /// Two unit expressions joined by an operator.
    Binary { op: Node<UnitOp>, left: Box<Node<UnitModel>>, right: Box<Node<UnitModel>> },
    /// A parenthesized unit expression.
    Paren { expr: Box<Node<UnitModel>> },
    /// The unit `1`.
    One,
    /// A named unit and its exponent as written.
    Unit { identifier: Node<Seq<char>>, exponent: Option<Node<Seq<char>>> },
}

/// The model of an optional exponent node.
pub open spec fn exponent_view(e: Option<Node<UnitExponent>>) -> Option<Node<Seq<char>>> {
    match e {
        Some(n) => Some(node(n.value.0@, n.span, n.whitespace_span)),
        None => None,
    }
}

/// The model of a unit expression.
pub open spec fn unit_view(u: UnitExpr) -> UnitModel
    decreases u,
{
    match u {
        UnitExpr::BinaryOp { op, left, right } => UnitModel::Binary {
            op,
            left: Box::new(unit_node_view(*left)),
            right: Box::new(unit_node_view(*right)),
        },
        UnitExpr::Parenthesized { expr } => UnitModel::Paren { expr: Box::new(unit_node_view(*expr)) },
        UnitExpr::UnitOne => UnitModel::One,
        UnitExpr::Unit { identifier, exponent } => UnitModel::Unit {
            identifier: ident_view(identifier),
            exponent: exponent_view(exponent),
        },
    }
}

/// The model of a unit expression node.
pub open spec fn unit_node_view(n: Node<UnitExpr>) -> Node<UnitModel>
    decreases n,
{
    node(unit_view(n.value), n.span, n.whitespace_span)
}

/// The text of a note.
#[derive(Debug, Clone, PartialEq, Eq)]
pub struct Note(pub String);

impl Note {
    /// Creates a note.
    pub fn new(text: String) -> (r: Note)
        ensures
            r.0@ == text@,
    {
        Note(text)
    }
}

/// The model of an optional note node.
pub open spec fn note_view(n: Option<Node<Note>>) -> Option<Node<Seq<char>>> {
    match n {
        Some(x) => Some(node(x.value.0@, x.span, x.whitespace_span)),
        None => None,
    }
}

/// How much a parameter or test reports while it is evaluated.
#[derive(Debug, Clone, Copy, PartialEq, Eq, Structural)]
pub enum TraceLevel {
    /// `*`
    Trace,
    /// `**`
    Debug,
}

/// A test: an expression that must hold.
#[derive(Debug, Clone, PartialEq)]
pub struct Test {
    /// The trace level, if one was given.
    pub trace_level: Option<Node<TraceLevel>>,
    /// The expression that must hold.
    pub expr: Node<Expr>,
    /// The note attached to the test, if any.
    pub note: Option<Node<Note>>,
}

/// The model of a test.
pub struct TestModel {
    /// The trace level.
    pub trace_level: Option<Node<TraceLevel>>,
    /// The model of the expression.
    pub expr: Node<ExprModel>,
    /// The model of the note.
    pub note: Option<Node<Seq<char>>>,
}

/// The model of a test node.
pub open spec fn test_node_view(n: Node<Test>) -> Node<TestModel> {
    node(
        TestModel {
            trace_level: n.value.trace_level,
            expr: expr_node_view(n.value.expr),
            note: note_view(n.value.note),
        },
        n.span,
        n.whitespace_span,
    )
}

/// The label of a parameter: the words before its `:`.
#[derive(Debug, Clone, PartialEq, Eq)]
pub struct Label(pub String);

impl Label {
    /// The text of the label.
    pub fn as_str(&self) -> (r: &str)
        ensures
            r@ == self.0@,
    {
        self.0.as_str()
    }
}

/// The marker `$` of a parameter that counts as a performance parameter.
#[derive(Debug, Clone, Copy, PartialEq, Eq, Structural)]
pub struct PerformanceMarker;

/// The limits of a parameter's value.
#[derive(Debug, Clone, PartialEq)]
pub enum Limits {
    /// A range between two values: `(min, max)`.
    Continuous { min: Node<Expr>, max: Node<Expr> },
    /// A list of allowed values: `[a, b, ...]`.
    Discrete { values: Vec<Node<Expr>> },
}

/// The model of limits.
pub enum LimitsModel {
    /// A range.
    Continuous { min: Node<ExprModel>, max: Node<ExprModel> },
    /// A list of values.
    Discrete { values: Seq<Node<ExprModel>> },
}

/// One part of a piecewise value: `{expr if condition`.
#[derive(Debug, Clone, PartialEq)]
pub struct PiecewisePart {
    /// The value of this part.
    pub expr: Node<Expr>,
    /// The condition under which this part applies.
    pub if_expr: Node<Expr>,
}

/// The model of a piecewise part.
pub struct PartModel {
    /// The value.
    pub expr: Node<ExprModel>,
    /// The condition.
    pub if_expr: Node<ExprModel>,
}

/// The value of a parameter.
#[derive(Debug, Clone, PartialEq)]
pub enum ParameterValue {
    /// An expression with an optional unit.
    Simple(Node<Expr>, Option<Node<UnitExpr>>),
    /// Piecewise parts with an optional unit.
    Piecewise(Vec<Node<PiecewisePart>>, Option<Node<UnitExpr>>),
}

/// The model of a parameter value.
pub enum ValueModel {
    /// An expression and its unit.
    Simple(Node<ExprModel>, Option<Node<UnitModel>>),
    /// Piecewise parts and their unit.
    Piecewise(Seq<Node<PartModel>>, Option<Node<UnitModel>>),
}

/// A parameter declaration.
#[derive(Debug, Clone, PartialEq)]
pub struct Parameter {
    /// The label.
    pub label: Node<Label>,
    /// The identifier.
    pub ident: Node<Identifier>,
    /// The value.
    pub value: Node<ParameterValue>,
    /// The limits, if given.
    pub limits: Option<Node<Limits>>,
    /// The performance marker, if given.
    pub performance_marker: Option<Node<PerformanceMarker>>,
    /// The trace level, if given.
    pub trace_level: Option<Node<TraceLevel>>,
    /// The note, if any.
    pub note: Option<Node<Note>>,
}

/// The model of a parameter declaration.
pub struct ParameterModel {
    /// The label's text.
    pub label: Node<Seq<char>>,
    /// The identifier's name.
    pub ident: Node<Seq<char>>,
    /// The value.
    pub value: Node<ValueModel>,
    /// The limits.
    pub limits: Option<Node<LimitsModel>>,
    /// The performance marker.
    pub performance_marker: Option<Node<PerformanceMarker>>,
    /// The trace level.
    pub trace_level: Option<Node<TraceLevel>>,
    /// The note's text.
    pub note: Option<Node<Seq<char>>>,
}

/// The model of an optional unit node.
pub open spec fn opt_unit_view(u: Option<Node<UnitExpr>>) -> Option<Node<UnitModel>> {
    match u {
        Some(n) => Some(unit_node_view(n)),
        None => None,
    }
}

/// The model of a piecewise part node.
pub open spec fn part_view(n: Node<PiecewisePart>) -> Node<PartModel> {
    node(
        PartModel { expr: expr_node_view(n.value.expr), if_expr: expr_node_view(n.value.if_expr) },
        n.span,
        n.whitespace_span,
    )
}

/// The models of piecewise part nodes.
pub open spec fn parts_view(s: Seq<Node<PiecewisePart>>) -> Seq<Node<PartModel>> {
    s.map_values(|n: Node<PiecewisePart>| part_view(n))
}

/// The model of a parameter value node.
pub open spec fn value_view(n: Node<ParameterValue>) -> Node<ValueModel> {
    node(
        match n.value {
            ParameterValue::Simple(e, u) => ValueModel::Simple(expr_node_view(e), opt_unit_view(u)),
            ParameterValue::Piecewise(ps, u) => ValueModel::Piecewise(parts_view(ps@), opt_unit_view(u)),
        },
        n.span,
        n.whitespace_span,
    )
}

/// The model of a limits node.
pub open spec fn limits_node_view(n: Node<Limits>) -> Node<LimitsModel> {
    node(
        match n.value {
            Limits::Continuous { min, max } => LimitsModel::Continuous {
                min: expr_node_view(min),
                max: expr_node_view(max),
            },
            Limits::Discrete { values } => LimitsModel::Discrete { values: expr_nodes_view(values@) },
        },
        n.span,
        n.whitespace_span,
    )
}

/// The model of an optional limits node.
pub open spec fn limits_view(l: Option<Node<Limits>>) -> Option<Node<LimitsModel>> {
    match l {
        Some(n) => Some(limits_node_view(n)),
        None => None,
    }
}

/// The model of a parameter node.
pub open spec fn parameter_node_view(n: Node<Parameter>) -> Node<ParameterModel> {
    node(
        ParameterModel {
            label: node(n.value.label.value.0@, n.value.label.span, n.value.label.whitespace_span),
            ident: ident_view(n.value.ident),
            value: value_view(n.value.value),
            limits: limits_view(n.value.limits),
            performance_marker: n.value.performance_marker,
            trace_level: n.value.trace_level,
            note: note_view(n.value.note),
        },
        n.span,
        n.whitespace_span,
    )
}

/// A step of a directory path.
#[derive(Debug, Clone, PartialEq, Eq)]
pub enum Directory {
    /// A named directory.
    Name(String),
    /// `.`
    Current,
    /// `..`
    Parent,
}

/// The model of a directory step.
pub enum DirectoryModel {
    /// A named directory.
    Name(Seq<char>),
    /// `.`
    Current,
    /// `..`
    Parent,
}

/// The model of a directory node.
pub open spec fn dir_view(n: Node<Directory>) -> Node<DirectoryModel> {
    node(
        match n.value {
            Directory::Name(x) => DirectoryModel::Name(x@),
            Directory::Current => DirectoryModel::Current,
            Directory::Parent => DirectoryModel::Parent,
        },
        n.span,
        n.whitespace_span,
    )
}

/// The models of directory nodes.
pub open spec fn dirs_view(s: Seq<Node<Directory>>) -> Seq<Node<DirectoryModel>> {
    s.map_values(|n: Node<Directory>| dir_view(n))
}

/// The models of identifier nodes.
pub open spec fn idents_view(s: Seq<Node<Identifier>>) -> Seq<Node<Seq<char>>> {
    s.map_values(|n: Node<Identifier>| ident_view(n))
}

/// The model of an optional identifier node.
pub open spec fn opt_ident_view(o: Option<Node<Identifier>>) -> Option<Node<Seq<char>>> {
    match o {
        Some(n) => Some(ident_view(n)),
        None => None,
    }
}

/// A model reference: a top component, its subcomponents, and an alias.
#[derive(Debug, Clone, PartialEq, Eq)]
pub struct ModelInfo {
    /// The model named first.
    pub top_component: Node<Identifier>,
    /// The submodels named after it with `.`.
    pub subcomponents: Vec<Node<Identifier>>,
    /// The alias after `as`.
    pub alias: Option<Node<Identifier>>,
}

/// The model of a model reference.
pub struct ModelInfoModel {
    /// The top component.
    pub top_component: Node<Seq<char>>,
    /// The subcomponents.
    pub subcomponents: Seq<Node<Seq<char>>>,
    /// The alias.
    pub alias: Option<Node<Seq<char>>>,
}

/// The model of a model reference node.
pub open spec fn model_info_view(n: Node<ModelInfo>) -> Node<ModelInfoModel> {
    node(
        ModelInfoModel {
            top_component: ident_view(n.value.top_component),
            subcomponents: idents_view(n.value.subcomponents@),
            alias: opt_ident_view(n.value.alias),
        },
        n.span,
        n.whitespace_span,
    )
}

/// Whether a model declaration brings in a submodel or a reference.
#[derive(Debug, Clone, Copy, PartialEq, Eq, Structural)]
pub enum ModelKind {
    /// `submodel`
    Submodel,
    /// `reference`
    Reference,
}

/// A submodel or reference declaration.
#[derive(Debug, Clone, PartialEq)]
pub struct SubmodelDecl {
    /// The directory path before the model.
    pub directory_path: Vec<Node<Directory>>,
    /// The model.
    pub model_info: Node<ModelInfo>,
    /// The submodels extracted in `[...]`, if any.
    pub submodel_list: Option<Node<Vec<Node<ModelInfo>>>>,
    /// Submodel or reference.
    pub model_kind: ModelKind,
}

/// The model of a submodel declaration.
pub struct SubmodelDeclModel {
    /// The directory path.
    pub directory_path: Seq<Node<DirectoryModel>>,
    /// The model.
    pub model_info: Node<ModelInfoModel>,
    /// The extracted submodels.
    pub submodel_list: Option<Node<Seq<Node<ModelInfoModel>>>>,
    /// Submodel or reference.
    pub model_kind: ModelKind,
}

/// The models of model reference nodes.
pub open spec fn model_infos_view(s: Seq<Node<ModelInfo>>) -> Seq<Node<ModelInfoModel>> {
    s.map_values(|n: Node<ModelInfo>| model_info_view(n))
}

/// An apply declaration: a design file applied to a target, with nested
/// applies.
#[derive(Debug, PartialEq)]
pub struct ApplyDesign {
    /// The directory path before the design file.
    pub directory_path: Vec<Node<Directory>>,
    /// The design file.
    pub design_file: Node<Identifier>,
    /// The target: a model and its submodels, joined by `.`.
    pub target: Vec<Node<Identifier>>,
    /// The applies nested in `[...]`.
    pub nested_applies: Vec<Node<ApplyDesign>>,
}

/// The model of an apply declaration.
pub struct ApplyModel {
    /// The directory path.
    pub directory_path: Seq<Node<DirectoryModel>>,
    /// The design file.
    pub design_file: Node<Seq<char>>,
    /// The target.
    pub target: Seq<Node<Seq<char>>>,
    /// The nested applies.
    pub nested_applies: Seq<Node<ApplyModel>>,
}

/// The model of an apply node.
pub open spec fn apply_view(n: Node<ApplyDesign>) -> Node<ApplyModel>
    decreases n,
{
    node(
        ApplyModel {
            directory_path: dirs_view(n.value.directory_path@),
            design_file: ident_view(n.value.design_file),
            target: idents_view(n.value.target@),
            nested_applies: applies_view(n.value.nested_applies@),
        },
        n.span,
        n.whitespace_span,
    )
}

/// The models of apply nodes.
pub open spec fn applies_view(s: Seq<Node<ApplyDesign>>) -> Seq<Node<ApplyModel>>
    decreases s,
{
    if s.len() == 0 {
        Seq::empty()
    } else {
        applies_view(s.drop_last()).push(apply_view(s.last()))
    }
}

/// The target of a design file.
#[derive(Debug, Clone, PartialEq)]
pub struct DesignTarget {
    /// The directory path before the target.
    pub directory_path: Vec<Node<Directory>>,
    /// The target model.
    pub target: Node<Identifier>,
}

/// The model of a design target.
pub struct DesignTargetModel {
    /// The directory path.
    pub directory_path: Seq<Node<DirectoryModel>>,
    /// The target model.
    pub target: Node<Seq<char>>,
}

/// The LaTeX name of a parameter, without its braces.
#[derive(Debug, Clone, PartialEq, Eq)]
pub struct RenderName(pub String);

impl RenderName {
    /// The name.
    pub fn as_str(&self) -> (r: &str)
        ensures
            r@ == self.0@,
    {
        self.0.as_str()
    }
}

/// A parameter of a design file: a new parameter, or an override.
#[derive(Debug, Clone, PartialEq)]
pub struct DesignParameter {
    /// The identifier.
    pub ident: Node<Identifier>,
    /// The instance segment after `.`, for a scoped override.
    pub instance_path: Option<Node<Identifier>>,
    /// The value.
    pub value: Node<ParameterValue>,
    /// The performance marker.
    pub performance_marker: Option<Node<PerformanceMarker>>,
    /// The trace level.
    pub trace_level: Option<Node<TraceLevel>>,
    /// The note.
    pub note: Option<Node<Note>>,
    /// The label, in the full form.
    pub label: Option<Node<Label>>,
    /// The render name, in the full form.
    pub render_name: Option<Node<RenderName>>,
}

/// The model of a design parameter.
pub struct DesignParameterModel {
    /// The identifier.
    pub ident: Node<Seq<char>>,
    /// The instance segment.
    pub instance_path: Option<Node<Seq<char>>>,
    /// The value.
    pub value: Node<ValueModel>,
    /// The performance marker.
    pub performance_marker: Option<Node<PerformanceMarker>>,
    /// The trace level.
    pub trace_level: Option<Node<TraceLevel>>,
    /// The note.
    pub note: Option<Node<Seq<char>>>,
    /// The label.
    pub label: Option<Node<Seq<char>>>,
    /// The render name.
    pub render_name: Option<Node<Seq<char>>>,
}

/// An import: `import name`.
#[derive(Debug, Clone, PartialEq, Eq)]
pub struct Import {
    /// The name of the imported module.
    pub path: Node<String>,
}

impl Import {
    /// The name of the imported module.
    pub fn path(&self) -> (r: &Node<String>)
        ensures
            *r == self.path,
    {
        &self.path
    }
}

/// A declaration.
#[derive(Debug, Clone, PartialEq)]
pub enum Decl {
    /// `import name`
    Import(Node<Import>),
    /// `design target`
    DesignTarget(Node<DesignTarget>),
    /// `apply file to target`
    ApplyDesign(Node<ApplyDesign>),
    /// A parameter of a design file.
    DesignParameter(Node<DesignParameter>),
    /// `submodel ...` or `reference ...`
    Submodel(Node<SubmodelDecl>),
    /// A parameter.
    Parameter(Node<Parameter>),
    /// A test.
    Test(Node<Test>),
}

/// The model of a declaration.
pub enum DeclModel {
    /// An import of the path.
    Import(Node<Node<Seq<char>>>),
    /// A design target.
    DesignTarget(Node<DesignTargetModel>),
    /// An apply.
    ApplyDesign(Node<ApplyModel>),
    /// A design parameter.
    DesignParameter(Node<DesignParameterModel>),
    /// A submodel declaration.
    Submodel(Node<SubmodelDeclModel>),
    /// A parameter.
    Parameter(Node<ParameterModel>),
    /// A test.
    Test(Node<TestModel>),
}

/// The model of an optional label node.
pub open spec fn opt_label_view(o: Option<Node<Label>>) -> Option<Node<Seq<char>>> {
    match o {
        Some(n) => Some(node(n.value.0@, n.span, n.whitespace_span)),
        None => None,
    }
}

/// The model of an optional render name node.
pub open spec fn opt_render_view(o: Option<Node<RenderName>>) -> Option<Node<Seq<char>>> {
    match o {
        Some(n) => Some(node(n.value.0@, n.span, n.whitespace_span)),
        None => None,
    }
}

/// The model of a declaration node.
pub open spec fn decl_view(n: Node<Decl>) -> Node<DeclModel> {
    node(
        match n.value {
            Decl::Import(i) => DeclModel::Import(
                node(
                    node(i.value.path.value@, i.value.path.span, i.value.path.whitespace_span),
                    i.span,
                    i.whitespace_span,
                ),
            ),
            Decl::DesignTarget(d) => DeclModel::DesignTarget(
                node(
                    DesignTargetModel {
                        directory_path: dirs_view(d.value.directory_path@),
                        target: ident_view(d.value.target),
                    },
                    d.span,
                    d.whitespace_span,
                ),
            ),
            Decl::ApplyDesign(a) => DeclModel::ApplyDesign(apply_view(a)),
            Decl::DesignParameter(d) => DeclModel::DesignParameter(
                node(
                    DesignParameterModel {
                        ident: ident_view(d.value.ident),
                        instance_path: opt_ident_view(d.value.instance_path),
                        value: value_view(d.value.value),
                        performance_marker: d.value.performance_marker,
                        trace_level: d.value.trace_level,
                        note: note_view(d.value.note),
                        label: opt_label_view(d.value.label),
                        render_name: opt_render_view(d.value.render_name),
                    },
                    d.span,
                    d.whitespace_span,
                ),
            ),
            Decl::Submodel(m) => DeclModel::Submodel(
                node(
                    SubmodelDeclModel {
                        directory_path: dirs_view(m.value.directory_path@),
                        model_info: model_info_view(m.value.model_info),
                        submodel_list: match m.value.submodel_list {
                            Some(l) => Some(node(model_infos_view(l.value@), l.span, l.whitespace_span)),
                            None => None,
                        },
                        model_kind: m.value.model_kind,
                    },
                    m.span,
                    m.whitespace_span,
                ),
            ),
            Decl::Parameter(p) => DeclModel::Parameter(parameter_node_view(p)),
            Decl::Test(t) => DeclModel::Test(test_node_view(t)),
        },
        n.span,
        n.whitespace_span,
    )
}

/// The models of declaration nodes.
pub open spec fn decls_view(s: Seq<Node<Decl>>) -> Seq<Node<DeclModel>> {
    s.map_values(|n: Node<Decl>| decl_view(n))
}

/// The header of a section: `section` and its label.
#[derive(Debug, Clone, PartialEq, Eq)]
pub struct SectionHeader {
    /// The label of the section.
    pub label: Node<Label>,
}

impl SectionHeader {
    /// The label of the section.
    pub fn label(&self) -> (r: &Node<Label>)
        ensures
            *r == self.label,
    {
        &self.label
    }
}

/// A section of a model: its header, an optional note, its declarations.
#[derive(Debug, Clone, PartialEq)]
pub struct Section {
    /// The header: `section` and the label.
    pub header: Node<SectionHeader>,
    /// The note after the header.
    pub note: Option<Node<Note>>,
    /// The declarations of the section.
    pub decls: Vec<Node<Decl>>,
}

/// The model of a section.
pub struct SectionModel {
    /// The header with its label.
    pub header: Node<Node<Seq<char>>>,
    /// The note.
    pub note: Option<Node<Seq<char>>>,
    /// The declarations.
    pub decls: Seq<Node<DeclModel>>,
}

/// The model of a section node.
pub open spec fn section_view(n: Node<Section>) -> Node<SectionModel> {
    node(
        SectionModel {
            header: node(
                node(
                    n.value.header.value.label.value.0@,
                    n.value.header.value.label.span,
                    n.value.header.value.label.whitespace_span,
                ),
                n.value.header.span,
                n.value.header.whitespace_span,
            ),
            note: note_view(n.value.note),
            decls: decls_view(n.value.decls@),
        },
        n.span,
        n.whitespace_span,
    )
}

/// The models of section nodes.
pub open spec fn sections_view(s: Seq<Node<Section>>) -> Seq<Node<SectionModel>> {
    s.map_values(|n: Node<Section>| section_view(n))
}

/// A model file: an optional note, top-level declarations, and sections.
#[derive(Debug, Clone, PartialEq)]
pub struct Model {
    /// The note at the top of the file.
    pub note: Option<Node<Note>>,
    /// The declarations before the first section.
    pub decls: Vec<Node<Decl>>,
    /// The sections.
    pub sections: Vec<Node<Section>>,
}

/// The model of a model file.
pub struct FileModel {
    /// The note.
    pub note: Option<Node<Seq<char>>>,
    /// The top-level declarations.
    pub decls: Seq<Node<DeclModel>>,
    /// The sections.
    pub sections: Seq<Node<SectionModel>>,
}

/// The model of a model node.
pub open spec fn model_view(n: Node<Model>) -> Node<FileModel> {
    node(
        FileModel {
            note: note_view(n.value.note),
            decls: decls_view(n.value.decls@),
            sections: sections_view(n.value.sections@),
        },
        n.span,
        n.whitespace_span,
    )
}

impl Directory {
    /// The directory as it is written: its name, `.` or `..`.
    pub fn as_str(&self) -> (r: &str)
        ensures
            r@ == match *self {
                Directory::Name(x) => x@,
                Directory::Current => seq!['.'],
                Directory::Parent => seq!['.', '.'],
            },
    {
        match self {
            Directory::Name(x) => x.as_str(),
            Directory::Current => {
                proof {
                    reveal_strlit(".");
                }
                "."
            },
            Directory::Parent => {
                proof {
                    reveal_strlit("..");
                }
                ".."
            },
        }
    }
}

/// The name of the model that a model reference designates: its last
/// subcomponent, else its top component.
pub open spec fn model_name_of(m: ModelInfo) -> Node<Identifier> {
    if m.subcomponents@.len() > 0 {
        m.subcomponents@.last()
    } else {
        m.top_component
    }
}

/// The name under which a model reference is known: its alias, else the
/// name of the model.
pub open spec fn alias_of(m: ModelInfo) -> Node<Identifier> {
    match m.alias {
        Some(a) => a,
        None => model_name_of(m),
    }
}

/// A model reference is known by its `as` alias if it has one, else by its
/// last subcomponent if it has any, else by its top component.
pub proof fn lemma_alias_rule(m: ModelInfo)
    ensures
        alias_of(m) == match m.alias {
            Some(a) => a,
            None => if m.subcomponents@.len() > 0 {
                m.subcomponents@[m.subcomponents@.len() - 1]
            } else {
                m.top_component
            },
        },
{
}

impl ModelInfo {
    /// The model named first.
    pub fn top_component(&self) -> (r: &Node<Identifier>)
        ensures
            *r == self.top_component,
    {
        &self.top_component
    }

    /// The submodels named after the top component.
    pub fn subcomponents(&self) -> (r: &Vec<Node<Identifier>>)
        ensures
            *r == self.subcomponents,
    {
        &self.subcomponents
    }

    /// The alias after `as`, if any.
    pub fn alias(&self) -> (r: Option<&Node<Identifier>>)
        ensures
            opt_ref_is(r, self.alias),
    {
        opt_ref(&self.alias)
    }

    /// The name of the designated model: the last subcomponent, else the
    /// top component.
    pub fn get_model_name(&self) -> (r: &Node<Identifier>)
        ensures
            *r == model_name_of(*self),
    {
        let n = self.subcomponents.len();
        if n > 0 {
            &self.subcomponents[n - 1]
        } else {
            &self.top_component
        }
    }

    /// The name under which the model is known: the alias, else the name of
    /// the model.
    pub fn get_alias(&self) -> (r: &Node<Identifier>)
        ensures
            *r == alias_of(*self),
    {
        match &self.alias {
            Some(a) => a,
            None => self.get_model_name(),
        }
    }
}

impl SubmodelDecl {
    /// The directory path before the model.
    pub fn directory_path(&self) -> (r: &Vec<Node<Directory>>)
        ensures
            *r == self.directory_path,
    {
        &self.directory_path
    }

    /// The model.
    pub fn model_info(&self) -> (r: &Node<ModelInfo>)
        ensures
            *r == self.model_info,
    {
        &self.model_info
    }

    /// The submodels extracted in `[...]`, if any.
    pub fn imported_submodels(&self) -> (r: Option<&Node<Vec<Node<ModelInfo>>>>)
        ensures
            opt_ref_is(r, self.submodel_list),
    {
        opt_ref(&self.submodel_list)
    }

    /// Submodel or reference.
    pub fn model_kind(&self) -> (r: ModelKind)
        ensures
            r == self.model_kind,
    {
        self.model_kind
    }
}

impl DesignTarget {
    /// The directory path before the target.
    pub fn directory_path(&self) -> (r: &Vec<Node<Directory>>)
        ensures
            *r == self.directory_path,
    {
        &self.directory_path
    }

    /// The target model.
    pub fn target(&self) -> (r: &Node<Identifier>)
        ensures
            *r == self.target,
    {
        &self.target
    }
}

impl ApplyDesign {
    /// The directory path before the design file.
    pub fn directory_path(&self) -> (r: &Vec<Node<Directory>>)
        ensures
            *r == self.directory_path,
    {
        &self.directory_path
    }

    /// The design file.
    pub fn design_file(&self) -> (r: &Node<Identifier>)
        ensures
            *r == self.design_file,
    {
        &self.design_file
    }

    /// The target: the reference and its instance path.
    pub fn target(&self) -> (r: &Vec<Node<Identifier>>)
        ensures
            *r == self.target,
    {
        &self.target
    }

    /// The applies nested under this one.
    pub fn nested_applies(&self) -> (r: &Vec<Node<ApplyDesign>>)
        ensures
            *r == self.nested_applies,
    {
        &self.nested_applies
    }
}

impl PiecewisePart {
    /// The value of this part.
    pub fn expr(&self) -> (r: &Node<Expr>)
        ensures
            *r == self.expr,
    {
        &self.expr
    }

    /// The condition of this part.
    pub fn if_expr(&self) -> (r: &Node<Expr>)
        ensures
            *r == self.if_expr,
    {
        &self.if_expr
    }
}

impl Parameter {
    /// The label.
    pub fn label(&self) -> (r: &Node<Label>)
        ensures
            *r == self.label,
    {
        &self.label
    }

    /// The identifier.
    pub fn ident(&self) -> (r: &Node<Identifier>)
        ensures
            *r == self.ident,
    {
        &self.ident
    }

    /// The value.
    pub fn value(&self) -> (r: &Node<ParameterValue>)
        ensures
            *r == self.value,
    {
        &self.value
    }

    /// The limits, if any.
    pub fn limits(&self) -> (r: Option<&Node<Limits>>)
        ensures
            opt_ref_is(r, self.limits),
    {
        opt_ref(&self.limits)
    }

    /// The performance marker, if any.
    pub fn performance_marker(&self) -> (r: Option<&Node<PerformanceMarker>>)
        ensures
            opt_ref_is(r, self.performance_marker),
    {
        opt_ref(&self.performance_marker)
    }

    /// The trace level, if any.
    pub fn trace_level(&self) -> (r: Option<&Node<TraceLevel>>)
        ensures
            opt_ref_is(r, self.trace_level),
    {
        opt_ref(&self.trace_level)
    }

    /// The note, if any.
    pub fn note(&self) -> (r: Option<&Node<Note>>)
        ensures
            opt_ref_is(r, self.note),
    {
        opt_ref(&self.note)
    }
}

impl DesignParameter {
    /// The identifier.
    pub fn ident(&self) -> (r: &Node<Identifier>)
        ensures
            *r == self.ident,
    {
        &self.ident
    }

    /// The instance segment after `.`, if any.
    pub fn instance_path(&self) -> (r: Option<&Node<Identifier>>)
        ensures
            opt_ref_is(r, self.instance_path),
    {
        opt_ref(&self.instance_path)
    }

    /// The value.
    pub fn value(&self) -> (r: &Node<ParameterValue>)
        ensures
            *r == self.value,
    {
        &self.value
    }

    /// The performance marker, if any.
    pub fn performance_marker(&self) -> (r: Option<&Node<PerformanceMarker>>)
        ensures
            opt_ref_is(r, self.performance_marker),
    {
        opt_ref(&self.performance_marker)
    }

    /// The trace level, if any.
    pub fn trace_level(&self) -> (r: Option<&Node<TraceLevel>>)
        ensures
            opt_ref_is(r, self.trace_level),
    {
        opt_ref(&self.trace_level)
    }

    /// The note, if any.
    pub fn note(&self) -> (r: Option<&Node<Note>>)
        ensures
            opt_ref_is(r, self.note),
    {
        opt_ref(&self.note)
    }

    /// The label, if any.
    pub fn label(&self) -> (r: Option<&Node<Label>>)
        ensures
            opt_ref_is(r, self.label),
    {
        opt_ref(&self.label)
    }

    /// The render name, if any.
    pub fn render_name(&self) -> (r: Option<&Node<RenderName>>)
        ensures
            opt_ref_is(r, self.render_name),
    {
        opt_ref(&self.render_name)
    }
}

impl Test {
    /// The trace level, if any.
    pub fn trace_level(&self) -> (r: Option<&Node<TraceLevel>>)
        ensures
            opt_ref_is(r, self.trace_level),
    {
        opt_ref(&self.trace_level)
    }

    /// The tested expression.
    pub fn expr(&self) -> (r: &Node<Expr>)
        ensures
            *r == self.expr,
    {
        &self.expr
    }

    /// The note, if any.
    pub fn note(&self) -> (r: Option<&Node<Note>>)
        ensures
            opt_ref_is(r, self.note),
    {
        opt_ref(&self.note)
    }
}

impl Section {
    /// The header.
    pub fn header(&self) -> (r: &Node<SectionHeader>)
        ensures
            *r == self.header,
    {
        &self.header
    }

    /// The note after the header, if any.
    pub fn note(&self) -> (r: Option<&Node<Note>>)
        ensures
            opt_ref_is(r, self.note),
    {
        opt_ref(&self.note)
    }

    /// The declarations.
    pub fn decls(&self) -> (r: &Vec<Node<Decl>>)
        ensures
            *r == self.decls,
    {
        &self.decls
    }
}

impl Model {
    /// The note at the top of the file, if any.
    pub fn note(&self) -> (r: Option<&Node<Note>>)
        ensures
            opt_ref_is(r, self.note),
    {
        opt_ref(&self.note)
    }

    /// The declarations before the first section.
    pub fn decls(&self) -> (r: &Vec<Node<Decl>>)
        ensures
            *r == self.decls,
    {
        &self.decls
    }

    /// The sections.
    pub fn sections(&self) -> (r: &Vec<Node<Section>>)
        ensures
            *r == self.sections,
    {
        &self.sections
    }
}

/// A copy of an identifier node.
fn clone_ident_node(n: &Node<Identifier>) -> (r: Node<Identifier>)
    ensures
        r == *n,
{
    Node { value: Identifier(n.value.0.clone()), span: n.span, whitespace_span: n.whitespace_span }
}

/// A copy of a list of identifier nodes.
fn clone_ident_nodes(v: &Vec<Node<Identifier>>) -> (r: Vec<Node<Identifier>>)
    ensures
        r@ == v@,
{
    let mut r: Vec<Node<Identifier>> = Vec::new();
    let mut i: usize = 0;
    while i < v.len()
        invariant
            i <= v.len(),
            r@ == v@.subrange(0, i as int),
        decreases v.len() - i,
    {
        r.push(clone_ident_node(&v[i]));
        i = i + 1;
    }
    r
}

/// A copy of a list of directory nodes.
fn clone_dir_nodes(v: &Vec<Node<Directory>>) -> (r: Vec<Node<Directory>>)
    ensures
        r@ == v@,
{
    let mut r: Vec<Node<Directory>> = Vec::new();
    let mut i: usize = 0;
    while i < v.len()
        invariant
            i <= v.len(),
            r@ == v@.subrange(0, i as int),
        decreases v.len() - i,
    {
        let n = &v[i];
        let d = match &n.value {
            Directory::Name(x) => Directory::Name(x.clone()),
            Directory::Current => Directory::Current,
            Directory::Parent => Directory::Parent,
        };
        r.push(Node { value: d, span: n.span, whitespace_span: n.whitespace_span });
        i = i + 1;
    }
    r
}

/// A copy of an expression node, with the same model.
pub fn clone_expr_node(n: &Node<Expr>) -> (r: Node<Expr>)
    ensures
        expr_node_view(r) == expr_node_view(*n),
    decreases n, 0nat,
{
    Node { value: clone_expr(&n.value), span: n.span, whitespace_span: n.whitespace_span }
}

/// A copy of an expression, with the same model.
pub fn clone_expr(e: &Expr) -> (r: Expr)
    ensures
        expr_view(r) == expr_view(*e),
    decreases e, 1nat,
{
    match e {
        Expr::ComparisonOp { op, left, right, rest_chained } => {
            let l = clone_expr_node(left);
            let rr = clone_expr_node(right);
            let mut rest: Vec<(Node<ComparisonOp>, Node<Expr>)> = Vec::new();
            let mut i: usize = 0;
            while i < rest_chained.len()
                invariant
                    i <= rest_chained.len(),
                    *e is ComparisonOp,
                    (*e)->rest_chained == *rest_chained,
                    chain_view(rest@) == chain_view(rest_chained@.subrange(0, i as int)),
                decreases rest_chained.len() - i,
            {
                let (o, x) = &rest_chained[i];
                proof {
                    vstd::std_specs::vec::axiom_vec_index_decreases(*rest_chained, i as int);
                    assert(decreases_to!(*e => (*e)->rest_chained));
                    assert(decreases_to!(rest_chained[i as int] => rest_chained[i as int].1));
                    assert(decreases_to!(*e => rest_chained[i as int].1));
                }
                let c = clone_expr_node(x);
                let ghost before = rest@;
                rest.push((Node { value: o.value, span: o.span, whitespace_span: o.whitespace_span }, c));
                proof {
                    assert(rest@.drop_last() =~= before);
                    assert(rest_chained@.subrange(0, i + 1).drop_last() =~= rest_chained@.subrange(0, i as int));
                }
                i = i + 1;
            }
            proof {
                assert(rest_chained@.subrange(0, rest_chained@.len() as int) =~= rest_chained@);
            }
            Expr::ComparisonOp {
                op: Node { value: op.value, span: op.span, whitespace_span: op.whitespace_span },
                left: Box::new(l),
                right: Box::new(rr),
                rest_chained: rest,
            }
        },
        Expr::BinaryOp { op, left, right } => {
            let l = clone_expr_node(left);
            let rr = clone_expr_node(right);
            Expr::BinaryOp {
                op: Node { value: op.value, span: op.span, whitespace_span: op.whitespace_span },
                left: Box::new(l),
                right: Box::new(rr),
            }
        },
        Expr::UnaryOp { op, expr } => {
            let x = clone_expr_node(expr);
            Expr::UnaryOp {
                op: Node { value: op.value, span: op.span, whitespace_span: op.whitespace_span },
                expr: Box::new(x),
            }
        },
        Expr::FunctionCall { name, args } => {
            let mut v: Vec<Node<Expr>> = Vec::new();
            let mut i: usize = 0;
            while i < args.len()
                invariant
                    i <= args.len(),
                    *e is FunctionCall,
                    (*e)->FunctionCall_args == *args,
                    expr_nodes_view(v@) == expr_nodes_view(args@.subrange(0, i as int)),
                decreases args.len() - i,
            {
                proof {
                    vstd::std_specs::vec::axiom_vec_index_decreases(*args, i as int);
                    assert(decreases_to!(*e => (*e)->FunctionCall_args));
                    assert(decreases_to!(*e => args[i as int]));
                }
                let c = clone_expr_node(&args[i]);
                let ghost before = v@;
                v.push(c);
                proof {
                    assert(v@.drop_last() =~= before);
                    assert(args@.subrange(0, i + 1).drop_last() =~= args@.subrange(0, i as int));
                }
                i = i + 1;
            }
            proof {
                assert(args@.subrange(0, args@.len() as int) =~= args@);
            }
            Expr::FunctionCall { name: clone_ident_node(name), args: v }
        },
        Expr::Parenthesized { expr } => {
            let x = clone_expr_node(expr);
            Expr::Parenthesized { expr: Box::new(x) }
        },
        Expr::Variable(v) => {
            let c = match &v.value {
                Variable::Identifier(i) => Variable::Identifier(clone_ident_node(i)),
                Variable::ModelParameter { reference_model, parameter } => Variable::ModelParameter {
                    reference_model: clone_ident_node(reference_model),
                    parameter: clone_ident_node(parameter),
                },
            };
            Expr::Variable(Node { value: c, span: v.span, whitespace_span: v.whitespace_span })
        },
        Expr::Literal(l) => {
            let c = match &l.value {
                Literal::Number(x) => Literal::Number(x.clone()),
                Literal::String(x) => Literal::String(x.clone()),
                Literal::Boolean(b) => Literal::Boolean(*b),
            };
            Expr::Literal(Node { value: c, span: l.span, whitespace_span: l.whitespace_span })
        },
    }
}

impl Clone for Expr {
    /// A copy of the expression, with the same model.
    fn clone(&self) -> (r: Self)
        ensures
            expr_view(r) == expr_view(*self),
    {
        clone_expr(self)
    }
}

/// A copy of a unit expression node, with the same model.
pub fn clone_unit_node(n: &Node<UnitExpr>) -> (r: Node<UnitExpr>)
    ensures
        unit_node_view(r) == unit_node_view(*n),
    decreases n, 0nat,
{
    Node { value: clone_unit(&n.value), span: n.span, whitespace_span: n.whitespace_span }
}

/// A copy of a unit expression, with the same model.
pub fn clone_unit(u: &UnitExpr) -> (r: UnitExpr)
    ensures
        unit_view(r) == unit_view(*u),
    decreases u, 1nat,
{
    match u {
        UnitExpr::BinaryOp { op, left, right } => {
            let l = clone_unit_node(left);
            let rr = clone_unit_node(right);
            UnitExpr::BinaryOp {
                op: Node { value: op.value, span: op.span, whitespace_span: op.whitespace_span },
                left: Box::new(l),
                right: Box::new(rr),
            }
        },
        UnitExpr::Parenthesized { expr } => {
            let x = clone_unit_node(expr);
            UnitExpr::Parenthesized { expr: Box::new(x) }
        },
        UnitExpr::UnitOne => UnitExpr::UnitOne,
        UnitExpr::Unit { identifier, exponent } => {
            let ex = match exponent {
                Some(x) => Some(
                    Node {
                        value: UnitExponent(x.value.0.clone()),
                        span: x.span,
                        whitespace_span: x.whitespace_span,
                    },
                ),
                None => None,
            };
            UnitExpr::Unit { identifier: clone_ident_node(identifier), exponent: ex }
        },
    }
}

impl Clone for UnitExpr {
    /// A copy of the unit expression, with the same model.
    fn clone(&self) -> (r: Self)
        ensures
            unit_view(r) == unit_view(*self),
    {
        clone_unit(self)
    }
}

/// A copy of an apply node, with the same model.
pub fn clone_apply_node(n: &Node<ApplyDesign>) -> (r: Node<ApplyDesign>)
    ensures
        apply_view(r) == apply_view(*n),
    decreases n, 0nat,
{
    Node { value: clone_apply(&n.value), span: n.span, whitespace_span: n.whitespace_span }
}

/// A copy of an apply: the same path, file and target, and nested applies
/// with the same models.
pub fn clone_apply(a: &ApplyDesign) -> (r: ApplyDesign)
    ensures
        r.directory_path@ == a.directory_path@,
        r.design_file == a.design_file,
        r.target@ == a.target@,
        applies_view(r.nested_applies@) == applies_view(a.nested_applies@),
    decreases a, 1nat,
{
    let mut nested: Vec<Node<ApplyDesign>> = Vec::new();
    let mut i: usize = 0;
    let v = &a.nested_applies;
    while i < v.len()
        invariant
            i <= v.len(),
            *v == a.nested_applies,
            applies_view(nested@) == applies_view(v@.subrange(0, i as int)),
        decreases v.len() - i,
    {
        proof {
            vstd::std_specs::vec::axiom_vec_index_decreases(*v, i as int);
            assert(decreases_to!(*a => v[i as int]));
        }
        let c = clone_apply_node(&v[i]);
        let ghost before = nested@;
        nested.push(c);
        proof {
            assert(nested@.drop_last() =~= before);
            assert(v@.subrange(0, i + 1).drop_last() =~= v@.subrange(0, i as int));
        }
        i = i + 1;
    }
    proof {
        assert(v@.subrange(0, v@.len() as int) =~= v@);
    }
    ApplyDesign {
        directory_path: clone_dir_nodes(&a.directory_path),
        design_file: clone_ident_node(&a.design_file),
        target: clone_ident_nodes(&a.target),
        nested_applies: nested,
    }
}

impl Clone for ApplyDesign {
    /// A copy of the apply: the same path, file and target, and nested
    /// applies with the same models.
    fn clone(&self) -> (r: Self)
        ensures
            r.directory_path@ == self.directory_path@,
            r.design_file == self.design_file,
            r.target@ == self.target@,
            applies_view(r.nested_applies@) == applies_view(self.nested_applies@),
    {
        clone_apply(self)
    }
}

} // verus!
