//! The policy expression language: entity identifiers, literals, operators
//! and the expression tree, each node of which may carry a source location
//! and an inferred type.

use vstd::prelude::*;
use crate::text::{eid_escaped, escaped_eid};
use crate::types::{SpecType, Type};

verus! {

/// A range of a source text.
#[derive(Debug, PartialEq, Eq, Hash)]
pub struct Loc {
    /// Offset of the first byte of the range.
    pub start: usize,
    /// Offset just behind the last byte of the range.
    pub end: usize,
    /// The source text that the offsets index into.
    pub src: String,
}

/// A source range as a mathematical value.
pub struct SpecLoc {
    pub start: int,
    pub end: int,
    pub src: Seq<char>,
}

impl View for Loc {
    type V = SpecLoc;

    open spec fn view(&self) -> SpecLoc {
        SpecLoc { start: self.start as int, end: self.end as int, src: self.src@ }
    }
}

impl Clone for Loc {
    fn clone(&self) -> (out: Self)
        ensures
            out@ == self@,
    {
        Loc { start: self.start, end: self.end, src: self.src.clone() }
    }
}

impl Loc {
    /// The range from `start` up to `end` of `src`.
    pub fn new(start: usize, end: usize, src: String) -> (out: Loc)
        ensures
            out@ == (SpecLoc { start: start as int, end: end as int, src: src@ }),
    {
        Loc { start, end, src }
    }

    /// Whether both are the same range of the same text.
    pub fn same_as(&self, other: &Loc) -> (same: bool)
        ensures
            same == (self@ == other@),
    {
        self.start == other.start && self.end == other.end && self.src == other.src
    }
}

/// A copy of an optional location.
pub fn clone_loc(loc: &Option<Loc>) -> (out: Option<Loc>)
    ensures
        loc_view(out) == loc_view(*loc),
{
    match loc {
        Some(l) => Some(l.clone()),
        None => None,
    }
}

/// An optional location as a mathematical value.
pub open spec fn loc_view(loc: Option<Loc>) -> Option<SpecLoc> {
    match loc {
        Some(l) => Some(l@),
        None => None,
    }
}

/// An optional type as a mathematical value.
pub open spec fn data_view(data: Option<Type>) -> Option<SpecType> {
    match data {
        Some(t) => Some(t@),
        None => None,
    }
}

/// The type of an entity: a declared name, or none at all.
#[derive(Debug, PartialEq, Eq, Hash)]
pub enum EntityType {
    /// An entity type with a name.
    Specified(String),
    /// The type of entities that a request leaves out.
    Unspecified,
}

/// An entity type as a mathematical value.
pub enum SpecEntityType {
    Specified(Seq<char>),
    Unspecified,
}

impl View for EntityType {
    type V = SpecEntityType;

    open spec fn view(&self) -> SpecEntityType {
        match self {
            EntityType::Specified(name) => SpecEntityType::Specified(name@),
            EntityType::Unspecified => SpecEntityType::Unspecified,
        }
    }
}

impl Clone for EntityType {
    fn clone(&self) -> (out: Self)
        ensures
            out@ == self@,
    {
        match self {
            EntityType::Specified(name) => EntityType::Specified(name.clone()),
            EntityType::Unspecified => EntityType::Unspecified,
        }
    }
}

impl SpecEntityType {
    /// How the entity type reads in messages.
    pub open spec fn text(self) -> Seq<char> {
        match self {
            SpecEntityType::Specified(name) => name,
            SpecEntityType::Unspecified => "<Unspecified>"@,
        }
    }
}

impl EntityType {
    /// How the entity type reads in messages.
    pub fn to_string(&self) -> (out: String)
        ensures
            out@ == self@.text(),
    {
        match self {
            EntityType::Specified(name) => name.clone(),
            EntityType::Unspecified => String::from_str("<Unspecified>"),
        }
    }

    /// Whether both are the same entity type.
    pub fn same_as(&self, other: &EntityType) -> (same: bool)
        ensures
            same == (self@ == other@),
    {
        match (self, other) {
            (EntityType::Specified(a), EntityType::Specified(b)) => *a == *b,
            (EntityType::Unspecified, EntityType::Unspecified) => true,
            _ => false,
        }
    }
}

/// The unique identifier of an entity: its type and its id.
#[derive(Debug, PartialEq, Eq, Hash)]
pub struct EntityUID {
    pub ty: EntityType,
    pub eid: String,
}

/// An entity identifier as a mathematical value.
pub struct SpecEntityUID {
    pub ty: SpecEntityType,
    pub eid: Seq<char>,
}

impl View for EntityUID {
    type V = SpecEntityUID;

    open spec fn view(&self) -> SpecEntityUID {
        SpecEntityUID { ty: self.ty@, eid: self.eid@ }
    }
}

impl Clone for EntityUID {
    fn clone(&self) -> (out: Self)
        ensures
            out@ == self@,
    {
        EntityUID { ty: self.ty.clone(), eid: self.eid.clone() }
    }
}

/// An entity identifier as policies write it: the type, `::`, and the
/// escaped id between double quotes.
pub open spec fn quoted_entity(ty: Seq<char>, escaped: Seq<char>) -> Seq<char> {
    ty + "::\""@ + escaped + "\""@
}

/// Writes an entity identifier from its type and its escaped id.
pub fn quote_entity(ty: &str, escaped: &str) -> (out: String)
    ensures
        out@ == quoted_entity(ty@, escaped@),
{
    let mut out = String::from_str(ty);
    out.append("::\"");
    out.append(escaped);
    out.append("\"");
    out
}

impl SpecEntityUID {
    /// How the identifier reads in messages.
    pub open spec fn text(self) -> Seq<char> {
        quoted_entity(self.ty.text(), eid_escaped(self.eid))
    }
}

impl EntityUID {
    /// How the identifier reads in messages.
    pub fn to_string(&self) -> (out: String)
        ensures
            out@ == self@.text(),
    {
        let ty = self.ty.to_string();
        let escaped = escaped_eid(self.eid.as_str());
        quote_entity(ty.as_str(), escaped.as_str())
    }

    /// The entity of type `typename` with id `eid`.
    pub fn with_eid_and_type(typename: &str, eid: &str) -> (out: EntityUID)
        ensures
            out@ == (SpecEntityUID { ty: SpecEntityType::Specified(typename@), eid: eid@ }),
    {
        EntityUID {
            ty: EntityType::Specified(String::from_str(typename)),
            eid: String::from_str(eid),
        }
    }

    /// The entity's type.
    pub fn entity_type(&self) -> (out: &EntityType)
        ensures
            out == self.ty,
    {
        &self.ty
    }

    /// Whether both identify the same entity.
    pub fn same_as(&self, other: &EntityUID) -> (same: bool)
        ensures
            same == (self@ == other@),
    {
        self.ty.same_as(&other.ty) && self.eid == other.eid
    }
}

/// A literal value.
#[derive(Debug, PartialEq, Eq, Hash)]
pub enum Literal {
    Bool(bool),
    Long(i64),
    String(String),
    EntityUID(EntityUID),
}

/// A literal as a mathematical value.
pub enum SpecLiteral {
    Bool(bool),
    Long(i64),
    String(Seq<char>),
    EntityUID(SpecEntityUID),
}

impl View for Literal {
    type V = SpecLiteral;

    open spec fn view(&self) -> SpecLiteral {
        match self {
            Literal::Bool(b) => SpecLiteral::Bool(*b),
            Literal::Long(n) => SpecLiteral::Long(*n),
            Literal::String(s) => SpecLiteral::String(s@),
            Literal::EntityUID(uid) => SpecLiteral::EntityUID(uid@),
        }
    }
}

impl Clone for Literal {
    fn clone(&self) -> (out: Self)
        ensures
            out@ == self@,
    {
        match self {
            Literal::Bool(b) => Literal::Bool(*b),
            Literal::Long(n) => Literal::Long(*n),
            Literal::String(s) => Literal::String(s.clone()),
            Literal::EntityUID(uid) => Literal::EntityUID(uid.clone()),
        }
    }
}

impl Literal {
    /// Whether both are the same literal.
    pub fn same_as(&self, other: &Literal) -> (same: bool)
        ensures
            same == (self@ == other@),
    {
        match (self, other) {
            (Literal::Bool(a), Literal::Bool(b)) => *a == *b,
            (Literal::Long(a), Literal::Long(b)) => *a == *b,
            (Literal::String(a), Literal::String(b)) => *a == *b,
            (Literal::EntityUID(a), Literal::EntityUID(b)) => a.same_as(b),
            _ => false,
        }
    }
}

/// The variables of a request.
#[derive(Debug, Clone, Copy, PartialEq, Eq, Hash, Structural)]
pub enum Var {
    Principal,
    Action,
    Resource,
    Context,
}

/// The slots of a policy template.
#[derive(Debug, Clone, Copy, PartialEq, Eq, Hash, Structural)]
pub enum SlotId {
    Principal,
    Resource,
}

/// The operators with one operand.
#[derive(Debug, Clone, Copy, PartialEq, Eq, Hash, Structural)]
pub enum UnaryOp {
    /// Logical negation.
    Not,
    /// Integer negation.
    Neg,
}

/// The operators with two operands.
#[derive(Debug, Clone, Copy, PartialEq, Eq, Hash, Structural)]
pub enum BinaryOp {
    Eq,
    Less,
    LessEq,
    Add,
    Sub,
    Mul,
    In,
    Contains,
    ContainsAll,
    ContainsAny,
}

/// How an extension function is called.
#[derive(Debug, Clone, Copy, PartialEq, Eq, Hash, Structural)]
pub enum CallStyle {
    /// `foo(a, b)`
    FunctionStyle,
    /// `a.foo(b)`
    MethodStyle,
}

impl CallStyle {
    /// The style as it is named in messages.
    pub open spec fn spec_to_string(self) -> Seq<char> {
        match self {
            CallStyle::FunctionStyle => "function-style"@,
            CallStyle::MethodStyle => "method-style"@,
        }
    }

    /// The style as it is named in messages.
    pub fn to_string(&self) -> (out: String)
        ensures
            out@ == self.spec_to_string(),
    {
        match self {
            CallStyle::FunctionStyle => String::from_str("function-style"),
            CallStyle::MethodStyle => String::from_str("method-style"),
        }
    }
}

/// The forms of expression.
#[derive(Debug, PartialEq, Eq, Hash)]
pub enum ExprKind {
    /// A literal value.
    Lit(Literal),
    /// A request variable.
    Var(Var),
    /// A template slot.
    Slot(SlotId),
    /// `if test_expr then then_expr else else_expr`
    If { test_expr: Box<Expr>, then_expr: Box<Expr>, else_expr: Box<Expr> },
    /// `left && right`
    And { left: Box<Expr>, right: Box<Expr> },
    /// `left || right`
    Or { left: Box<Expr>, right: Box<Expr> },
    /// An operator applied to one operand.
    UnaryApp { op: UnaryOp, arg: Box<Expr> },
    /// An operator applied to two operands.
    BinaryApp { op: BinaryOp, arg1: Box<Expr>, arg2: Box<Expr> },
    /// A call of an extension function; the subject of a method-style call
    /// is its first argument.
    ExtensionFunctionApp { fn_name: String, style: CallStyle, args: Vec<Expr> },
    /// `expr.attr`
    GetAttr { expr: Box<Expr>, attr: String },
    /// `expr has attr`
    HasAttr { expr: Box<Expr>, attr: String },
    /// `expr like pattern`
    Like { expr: Box<Expr>, pattern: String },
    /// `expr is entity_type`
    Is { expr: Box<Expr>, entity_type: String },
    /// A set literal.
    SetLit(Vec<Expr>),
    /// A record literal.
    Record(Vec<(String, Expr)>),
}

/// An expression: its form, where it stands in the source, and the type
/// inferred for it, if any.
#[derive(Debug, PartialEq, Eq, Hash)]
pub struct Expr {
    pub expr_kind: ExprKind,
    pub source_loc: Option<Loc>,
    pub data: Option<Type>,
}

/// The forms of expression as mathematical values.
pub enum SpecExprKind {
    Lit(SpecLiteral),
    Var(Var),
    Slot(SlotId),
    If { test_expr: Box<SpecExpr>, then_expr: Box<SpecExpr>, else_expr: Box<SpecExpr> },
    And { left: Box<SpecExpr>, right: Box<SpecExpr> },
    Or { left: Box<SpecExpr>, right: Box<SpecExpr> },
    UnaryApp { op: UnaryOp, arg: Box<SpecExpr> },
    BinaryApp { op: BinaryOp, arg1: Box<SpecExpr>, arg2: Box<SpecExpr> },
    ExtensionFunctionApp { fn_name: Seq<char>, style: CallStyle, args: Seq<SpecExpr> },
    GetAttr { expr: Box<SpecExpr>, attr: Seq<char> },
    HasAttr { expr: Box<SpecExpr>, attr: Seq<char> },
    Like { expr: Box<SpecExpr>, pattern: Seq<char> },
    Is { expr: Box<SpecExpr>, entity_type: Seq<char> },
    SetLit(Seq<SpecExpr>),
    Record(Seq<(Seq<char>, SpecExpr)>),
}

/// An expression as a mathematical value.
pub struct SpecExpr {
    pub kind: SpecExprKind,
    pub source_loc: Option<SpecLoc>,
    pub data: Option<SpecType>,
}

/// The form of an expression as a mathematical value.
pub open spec fn kind_view(k: ExprKind) -> SpecExprKind
    decreases k,
{
        match k {
            ExprKind::Lit(l) => SpecExprKind::Lit(l@),
            ExprKind::Var(v) => SpecExprKind::Var(v),
            ExprKind::Slot(s) => SpecExprKind::Slot(s),
            ExprKind::If { test_expr, then_expr, else_expr } => SpecExprKind::If {
                test_expr: Box::new(expr_view(*test_expr)),
                then_expr: Box::new(expr_view(*then_expr)),
                else_expr: Box::new(expr_view(*else_expr)),
            },
            ExprKind::And { left, right } => SpecExprKind::And {
                left: Box::new(expr_view(*left)),
                right: Box::new(expr_view(*right)),
            },
            ExprKind::Or { left, right } => SpecExprKind::Or {
                left: Box::new(expr_view(*left)),
                right: Box::new(expr_view(*right)),
            },
            ExprKind::UnaryApp { op, arg } => SpecExprKind::UnaryApp {
                op,
                arg: Box::new(expr_view(*arg)),
            },
            ExprKind::BinaryApp { op, arg1, arg2 } => SpecExprKind::BinaryApp {
                op,
                arg1: Box::new(expr_view(*arg1)),
                arg2: Box::new(expr_view(*arg2)),
            },
            ExprKind::ExtensionFunctionApp { fn_name, style, args } => {
                SpecExprKind::ExtensionFunctionApp {
                    fn_name: fn_name@,
                    style,
                    args: Seq::new(
                        args@.len(),
                        |i: int|
                            if 0 <= i < args@.len() {
                                expr_view(args@[i])
                            } else {
                                arbitrary()
                            },
                    ),
                }
            },
            ExprKind::GetAttr { expr, attr } => SpecExprKind::GetAttr {
                expr: Box::new(expr_view(*expr)),
                attr: attr@,
            },
            ExprKind::HasAttr { expr, attr } => SpecExprKind::HasAttr {
                expr: Box::new(expr_view(*expr)),
                attr: attr@,
            },
            ExprKind::Like { expr, pattern } => SpecExprKind::Like {
                expr: Box::new(expr_view(*expr)),
                pattern: pattern@,
            },
            ExprKind::Is { expr, entity_type } => SpecExprKind::Is {
                expr: Box::new(expr_view(*expr)),
                entity_type: entity_type@,
            },
            ExprKind::SetLit(elems) => SpecExprKind::SetLit(
                Seq::new(
                    elems@.len(),
                    |i: int|
                        if 0 <= i < elems@.len() {
                            expr_view(elems@[i])
                        } else {
                            arbitrary()
                        },
                ),
            ),
            ExprKind::Record(entries) => SpecExprKind::Record(
                Seq::new(
                    entries@.len(),
                    |i: int|
                        if 0 <= i < entries@.len() {
                            (entries@[i].0@, expr_view(entries@[i].1))
                        } else {
                            arbitrary()
                        },
                ),
            ),
        }
}

/// An expression as a mathematical value.
pub open spec fn expr_view(e: Expr) -> SpecExpr
    decreases e,
{
    SpecExpr {
        kind: kind_view(e.expr_kind),
        source_loc: loc_view(e.source_loc),
        data: data_view(e.data),
    }
}

impl View for ExprKind {
    type V = SpecExprKind;

    open spec fn view(&self) -> SpecExprKind {
        kind_view(*self)
    }
}

impl View for Expr {
    type V = SpecExpr;

    open spec fn view(&self) -> SpecExpr {
        expr_view(*self)
    }
}

/// A list of expressions as mathematical values.
pub open spec fn exprs_view(es: Seq<Expr>) -> Seq<SpecExpr> {
    Seq::new(es.len(), |i: int| es[i]@)
}

/// The entries of a record literal as mathematical values.
pub open spec fn entries_view(es: Seq<(String, Expr)>) -> Seq<(Seq<char>, SpecExpr)> {
    Seq::new(es.len(), |i: int| (es[i].0@, es[i].1@))
}

/// The views of the list-shaped forms are the lists of the views.
pub proof fn list_views(k: ExprKind)
    ensures
        k matches ExprKind::ExtensionFunctionApp { args, .. } ==> k@->args == exprs_view(args@),
        k matches ExprKind::SetLit(elems) ==> k@->SetLit_0 == exprs_view(elems@),
        k matches ExprKind::Record(entries) ==> k@->Record_0 == entries_view(entries@),
{
    match k {
        ExprKind::ExtensionFunctionApp { args, .. } => {
            assert(k@->args =~= exprs_view(args@));
        },
        ExprKind::SetLit(elems) => {
            assert(k@->SetLit_0 =~= exprs_view(elems@));
        },
        ExprKind::Record(entries) => {
            assert(k@->Record_0 =~= entries_view(entries@));
        },
        _ => {},
    }
}

/// A copy of an optional type.
pub fn clone_data(data: &Option<Type>) -> (out: Option<Type>)
    ensures
        data_view(out) == data_view(*data),
{
    match data {
        Some(t) => Some(t.clone()),
        None => None,
    }
}

/// A copy of a list of expressions.
pub fn clone_exprs(es: &Vec<Expr>) -> (out: Vec<Expr>)
    ensures
        exprs_view(out@) == exprs_view(es@),
    decreases es,
{
    let mut out: Vec<Expr> = Vec::new();
    let mut i: usize = 0;
    while i < es.len()
        invariant
            i <= es.len(),
            out@.len() == i,
            forall|j: int| 0 <= j < i ==> (#[trigger] out@[j])@ == es@[j]@,
        decreases es.len() - i,
    {
        out.push(es[i].clone());
        i += 1;
    }
    assert(exprs_view(out@) =~= exprs_view(es@));
    out
}

/// A copy of the entries of a record literal.
pub fn clone_entries(es: &Vec<(String, Expr)>) -> (out: Vec<(String, Expr)>)
    ensures
        entries_view(out@) == entries_view(es@),
    decreases es,
{
    let mut out: Vec<(String, Expr)> = Vec::new();
    let mut i: usize = 0;
    while i < es.len()
        invariant
            i <= es.len(),
            out@.len() == i,
            forall|j: int|
                0 <= j < i ==> (#[trigger] out@[j]).0@ == es@[j].0@ && out@[j].1@ == es@[j].1@,
        decreases es.len() - i,
    {
        out.push((es[i].0.clone(), es[i].1.clone()));
        i += 1;
    }
    assert(entries_view(out@) =~= entries_view(es@));
    out
}

impl Clone for ExprKind {
    fn clone(&self) -> (out: Self)
        ensures
            out@ == self@,
        decreases self,
    {
        proof {
            list_views(*self);
        }
        let out = match self {
            ExprKind::Lit(l) => ExprKind::Lit(l.clone()),
            ExprKind::Var(v) => ExprKind::Var(*v),
            ExprKind::Slot(s) => ExprKind::Slot(*s),
            ExprKind::If { test_expr, then_expr, else_expr } => {
                let a: &Expr = test_expr;
                let b: &Expr = then_expr;
                let c: &Expr = else_expr;
                ExprKind::If {
                    test_expr: Box::new(a.clone()),
                    then_expr: Box::new(b.clone()),
                    else_expr: Box::new(c.clone()),
                }
            },
            ExprKind::And { left, right } => {
                let a: &Expr = left;
                let b: &Expr = right;
                ExprKind::And { left: Box::new(a.clone()), right: Box::new(b.clone()) }
            },
            ExprKind::Or { left, right } => {
                let a: &Expr = left;
                let b: &Expr = right;
                ExprKind::Or { left: Box::new(a.clone()), right: Box::new(b.clone()) }
            },
            ExprKind::UnaryApp { op, arg } => {
                let a: &Expr = arg;
                ExprKind::UnaryApp { op: *op, arg: Box::new(a.clone()) }
            },
            ExprKind::BinaryApp { op, arg1, arg2 } => {
                let a: &Expr = arg1;
                let b: &Expr = arg2;
                ExprKind::BinaryApp { op: *op, arg1: Box::new(a.clone()), arg2: Box::new(b.clone()) }
            },
            ExprKind::ExtensionFunctionApp { fn_name, style, args } => {
                ExprKind::ExtensionFunctionApp {
                    fn_name: fn_name.clone(),
                    style: *style,
                    args: clone_exprs(args),
                }
            },
            ExprKind::GetAttr { expr, attr } => {
                let a: &Expr = expr;
                ExprKind::GetAttr { expr: Box::new(a.clone()), attr: attr.clone() }
            },
            ExprKind::HasAttr { expr, attr } => {
                let a: &Expr = expr;
                ExprKind::HasAttr { expr: Box::new(a.clone()), attr: attr.clone() }
            },
            ExprKind::Like { expr, pattern } => {
                let a: &Expr = expr;
                ExprKind::Like { expr: Box::new(a.clone()), pattern: pattern.clone() }
            },
            ExprKind::Is { expr, entity_type } => {
                let a: &Expr = expr;
                ExprKind::Is { expr: Box::new(a.clone()), entity_type: entity_type.clone() }
            },
            ExprKind::SetLit(elems) => ExprKind::SetLit(clone_exprs(elems)),
            ExprKind::Record(entries) => ExprKind::Record(clone_entries(entries)),
        };
        proof {
            list_views(out);
        }
        out
    }
}

impl Clone for Expr {
    fn clone(&self) -> (out: Self)
        ensures
            out@ == self@,
        decreases self,
    {
        Expr {
            expr_kind: self.expr_kind.clone(),
            source_loc: clone_loc(&self.source_loc),
            data: clone_data(&self.data),
        }
    }
}

impl Expr {
    /// The form of the expression.
    pub fn expr_kind(&self) -> (out: &ExprKind)
        ensures
            out == self.expr_kind,
    {
        &self.expr_kind
    }

    /// Where the expression stands in the source.
    pub fn source_loc(&self) -> (out: Option<&Loc>)
        ensures
            out matches Some(loc) ==> self.source_loc == Some(*loc),
            out is None ==> self.source_loc is None,
    {
        self.source_loc.as_ref()
    }

    /// The type inferred for the expression.
    pub fn data(&self) -> (out: &Option<Type>)
        ensures
            out == self.data,
    {
        &self.data
    }
}

/// Builds expressions that carry a given source location and type.
#[derive(Debug)]
pub struct ExprBuilder {
    pub source_loc: Option<Loc>,
    pub data: Option<Type>,
}

impl ExprBuilder {
    /// A builder of expressions without location or type.
    pub fn new() -> (out: ExprBuilder)
        ensures
            out.source_loc is None,
            out.data is None,
    {
        ExprBuilder { source_loc: None, data: None }
    }

    /// A builder of expressions that carry `data`.
    pub fn with_data(data: Option<Type>) -> (out: ExprBuilder)
        ensures
            out.source_loc is None,
            out.data == data,
    {
        ExprBuilder { source_loc: None, data }
    }

    /// The same builder for expressions at `loc`.
    pub fn with_source_loc(self, loc: Loc) -> (out: ExprBuilder)
        ensures
            out.source_loc == Some(loc),
            out.data == self.data,
    {
        ExprBuilder { source_loc: Some(loc), data: self.data }
    }

    /// The same builder for expressions at `loc`, if there is one.
    pub fn with_maybe_source_loc(self, loc: Option<Loc>) -> (out: ExprBuilder)
        ensures
            out.source_loc == loc,
            out.data == self.data,
    {
        ExprBuilder { source_loc: loc, data: self.data }
    }

    /// The expression of form `kind`.
    pub fn with_expr_kind(self, kind: ExprKind) -> (out: Expr)
        ensures
            out.expr_kind == kind,
            out.source_loc == self.source_loc,
            out.data == self.data,
    {
        Expr { expr_kind: kind, source_loc: self.source_loc, data: self.data }
    }

    /// A literal.
    pub fn val(self, lit: Literal) -> (out: Expr)
        ensures
            out == (Expr {
                expr_kind: ExprKind::Lit(lit),
                source_loc: self.source_loc,
                data: self.data,
            }),
    {
        self.with_expr_kind(ExprKind::Lit(lit))
    }

    /// A request variable.
    pub fn var(self, v: Var) -> (out: Expr)
        ensures
            out == (Expr {
                expr_kind: ExprKind::Var(v),
                source_loc: self.source_loc,
                data: self.data,
            }),
    {
        self.with_expr_kind(ExprKind::Var(v))
    }

    /// A template slot.
    pub fn slot(self, s: SlotId) -> (out: Expr)
        ensures
            out == (Expr {
                expr_kind: ExprKind::Slot(s),
                source_loc: self.source_loc,
                data: self.data,
            }),
    {
        self.with_expr_kind(ExprKind::Slot(s))
    }

    /// `if test_expr then then_expr else else_expr`
    pub fn ite(self, test_expr: Expr, then_expr: Expr, else_expr: Expr) -> (out: Expr)
        ensures
            out == (Expr {
                expr_kind: ExprKind::If {
                    test_expr: Box::new(test_expr),
                    then_expr: Box::new(then_expr),
                    else_expr: Box::new(else_expr),
                },
                source_loc: self.source_loc,
                data: self.data,
            }),
    {
        self.with_expr_kind(
            ExprKind::If {
                test_expr: Box::new(test_expr),
                then_expr: Box::new(then_expr),
                else_expr: Box::new(else_expr),
            },
        )
    }

    /// `left && right`
    pub fn and(self, left: Expr, right: Expr) -> (out: Expr)
        ensures
            out == (Expr {
                expr_kind: ExprKind::And { left: Box::new(left), right: Box::new(right) },
                source_loc: self.source_loc,
                data: self.data,
            }),
    {
        self.with_expr_kind(ExprKind::And { left: Box::new(left), right: Box::new(right) })
    }

    /// `left || right`
    pub fn or(self, left: Expr, right: Expr) -> (out: Expr)
        ensures
            out == (Expr {
                expr_kind: ExprKind::Or { left: Box::new(left), right: Box::new(right) },
                source_loc: self.source_loc,
                data: self.data,
            }),
    {
        self.with_expr_kind(ExprKind::Or { left: Box::new(left), right: Box::new(right) })
    }

    /// An operator applied to one operand.
    pub fn unary_app(self, op: UnaryOp, arg: Expr) -> (out: Expr)
        ensures
            out == (Expr {
                expr_kind: ExprKind::UnaryApp { op, arg: Box::new(arg) },
                source_loc: self.source_loc,
                data: self.data,
            }),
    {
        self.with_expr_kind(ExprKind::UnaryApp { op, arg: Box::new(arg) })
    }

    /// `!arg`
    pub fn not(self, arg: Expr) -> (out: Expr)
        ensures
            out == (Expr {
                expr_kind: ExprKind::UnaryApp { op: UnaryOp::Not, arg: Box::new(arg) },
                source_loc: self.source_loc,
                data: self.data,
            }),
    {
        self.unary_app(UnaryOp::Not, arg)
    }

    /// `-arg`
    pub fn neg(self, arg: Expr) -> (out: Expr)
        ensures
            out == (Expr {
                expr_kind: ExprKind::UnaryApp { op: UnaryOp::Neg, arg: Box::new(arg) },
                source_loc: self.source_loc,
                data: self.data,
            }),
    {
        self.unary_app(UnaryOp::Neg, arg)
    }

    /// An operator applied to two operands.
    pub fn binary_app(self, op: BinaryOp, arg1: Expr, arg2: Expr) -> (out: Expr)
        ensures
            out == (Expr {
                expr_kind: ExprKind::BinaryApp { op, arg1: Box::new(arg1), arg2: Box::new(arg2) },
                source_loc: self.source_loc,
                data: self.data,
            }),
    {
        self.with_expr_kind(
            ExprKind::BinaryApp { op, arg1: Box::new(arg1), arg2: Box::new(arg2) },
        )
    }

    /// `arg1 == arg2`
    pub fn is_eq(self, arg1: Expr, arg2: Expr) -> (out: Expr)
        ensures
            out == (Expr {
                expr_kind: ExprKind::BinaryApp {
                    op: BinaryOp::Eq,
                    arg1: Box::new(arg1),
                    arg2: Box::new(arg2),
                },
                source_loc: self.source_loc,
                data: self.data,
            }),
    {
        self.binary_app(BinaryOp::Eq, arg1, arg2)
    }

    /// `arg1 < arg2`
    pub fn less(self, arg1: Expr, arg2: Expr) -> (out: Expr)
        ensures
            out == (Expr {
                expr_kind: ExprKind::BinaryApp {
                    op: BinaryOp::Less,
                    arg1: Box::new(arg1),
                    arg2: Box::new(arg2),
                },
                source_loc: self.source_loc,
                data: self.data,
            }),
    {
        self.binary_app(BinaryOp::Less, arg1, arg2)
    }

    /// `arg1 > arg2`, which is `arg2 < arg1`
    pub fn greater(self, arg1: Expr, arg2: Expr) -> (out: Expr)
        ensures
            out == (Expr {
                expr_kind: ExprKind::BinaryApp {
                    op: BinaryOp::Less,
                    arg1: Box::new(arg2),
                    arg2: Box::new(arg1),
                },
                source_loc: self.source_loc,
                data: self.data,
            }),
    {
        self.binary_app(BinaryOp::Less, arg2, arg1)
    }

    /// `arg1 in arg2`
    pub fn is_in(self, arg1: Expr, arg2: Expr) -> (out: Expr)
        ensures
            out == (Expr {
                expr_kind: ExprKind::BinaryApp {
                    op: BinaryOp::In,
                    arg1: Box::new(arg1),
                    arg2: Box::new(arg2),
                },
                source_loc: self.source_loc,
                data: self.data,
            }),
    {
        self.binary_app(BinaryOp::In, arg1, arg2)
    }

    /// `expr.attr`
    pub fn get_attr(self, expr: Expr, attr: String) -> (out: Expr)
        ensures
            out == (Expr {
                expr_kind: ExprKind::GetAttr { expr: Box::new(expr), attr },
                source_loc: self.source_loc,
                data: self.data,
            }),
    {
        self.with_expr_kind(ExprKind::GetAttr { expr: Box::new(expr), attr })
    }

    /// `expr has attr`
    pub fn has_attr(self, expr: Expr, attr: String) -> (out: Expr)
        ensures
            out == (Expr {
                expr_kind: ExprKind::HasAttr { expr: Box::new(expr), attr },
                source_loc: self.source_loc,
                data: self.data,
            }),
    {
        self.with_expr_kind(ExprKind::HasAttr { expr: Box::new(expr), attr })
    }

    /// `expr like pattern`
    pub fn like(self, expr: Expr, pattern: String) -> (out: Expr)
        ensures
            out == (Expr {
                expr_kind: ExprKind::Like { expr: Box::new(expr), pattern },
                source_loc: self.source_loc,
                data: self.data,
            }),
    {
        self.with_expr_kind(ExprKind::Like { expr: Box::new(expr), pattern })
    }

    /// `expr is entity_type`
    pub fn is_entity_type(self, expr: Expr, entity_type: String) -> (out: Expr)
        ensures
            out == (Expr {
                expr_kind: ExprKind::Is { expr: Box::new(expr), entity_type },
                source_loc: self.source_loc,
                data: self.data,
            }),
    {
        self.with_expr_kind(ExprKind::Is { expr: Box::new(expr), entity_type })
    }

    /// A set literal.
    pub fn set(self, elements: Vec<Expr>) -> (out: Expr)
        ensures
            out == (Expr {
                expr_kind: ExprKind::SetLit(elements),
                source_loc: self.source_loc,
                data: self.data,
            }),
    {
        self.with_expr_kind(ExprKind::SetLit(elements))
    }

    /// A record literal.
    pub fn record(self, entries: Vec<(String, Expr)>) -> (out: Expr)
        ensures
            out == (Expr {
                expr_kind: ExprKind::Record(entries),
                source_loc: self.source_loc,
                data: self.data,
            }),
    {
        self.with_expr_kind(ExprKind::Record(entries))
    }

    /// A call of an extension function.
    pub fn call_extension_fn(self, fn_name: String, style: CallStyle, args: Vec<Expr>) -> (out:
        Expr)
        ensures
            out == (Expr {
                expr_kind: ExprKind::ExtensionFunctionApp { fn_name, style, args },
                source_loc: self.source_loc,
                data: self.data,
            }),
    {
        self.with_expr_kind(ExprKind::ExtensionFunctionApp { fn_name, style, args })
    }
}

/// The shapes of the first `n` expressions of a list.
pub open spec fn shape_list(es: Seq<SpecExpr>, n: nat) -> Seq<SpecExpr>
    decreases es, n,
{
    if n == 0 || n > es.len() {
        Seq::empty()
    } else {
        shape_list(es, (n - 1) as nat).push(shape(es[n - 1]))
    }
}

/// The first `n` entries of a record literal with the shapes of their values.
pub open spec fn shape_entries(es: Seq<(Seq<char>, SpecExpr)>, n: nat) -> Seq<
    (Seq<char>, SpecExpr),
>
    decreases es, n,
{
    if n == 0 || n > es.len() {
        Seq::empty()
    } else {
        shape_entries(es, (n - 1) as nat).push((es[n - 1].0, shape(es[n - 1].1)))
    }
}

/// The shape of an expression: the expression without the source locations
/// and the types that its nodes carry. Expressions of one shape are the same
/// expression written in different places.
pub open spec fn shape(e: SpecExpr) -> SpecExpr
    decreases e, 0nat,
{
    SpecExpr {
        kind: match e.kind {
            SpecExprKind::Lit(l) => SpecExprKind::Lit(l),
            SpecExprKind::Var(v) => SpecExprKind::Var(v),
            SpecExprKind::Slot(s) => SpecExprKind::Slot(s),
            SpecExprKind::If { test_expr, then_expr, else_expr } => SpecExprKind::If {
                test_expr: Box::new(shape(*test_expr)),
                then_expr: Box::new(shape(*then_expr)),
                else_expr: Box::new(shape(*else_expr)),
            },
            SpecExprKind::And { left, right } => SpecExprKind::And {
                left: Box::new(shape(*left)),
                right: Box::new(shape(*right)),
            },
            SpecExprKind::Or { left, right } => SpecExprKind::Or {
                left: Box::new(shape(*left)),
                right: Box::new(shape(*right)),
            },
            SpecExprKind::UnaryApp { op, arg } => SpecExprKind::UnaryApp {
                op,
                arg: Box::new(shape(*arg)),
            },
            SpecExprKind::BinaryApp { op, arg1, arg2 } => SpecExprKind::BinaryApp {
                op,
                arg1: Box::new(shape(*arg1)),
                arg2: Box::new(shape(*arg2)),
            },
            SpecExprKind::ExtensionFunctionApp { fn_name, style, args } => {
                SpecExprKind::ExtensionFunctionApp {
                    fn_name,
                    style,
                    args: shape_list(args, args.len()),
                }
            },
            SpecExprKind::GetAttr { expr, attr } => SpecExprKind::GetAttr {
                expr: Box::new(shape(*expr)),
                attr,
            },
            SpecExprKind::HasAttr { expr, attr } => SpecExprKind::HasAttr {
                expr: Box::new(shape(*expr)),
                attr,
            },
            SpecExprKind::Like { expr, pattern } => SpecExprKind::Like {
                expr: Box::new(shape(*expr)),
                pattern,
            },
            SpecExprKind::Is { expr, entity_type } => SpecExprKind::Is {
                expr: Box::new(shape(*expr)),
                entity_type,
            },
            SpecExprKind::SetLit(elems) => SpecExprKind::SetLit(shape_list(elems, elems.len())),
            SpecExprKind::Record(entries) => SpecExprKind::Record(
                shape_entries(entries, entries.len()),
            ),
        },
        source_loc: None,
        data: None,
    }
}

/// The shapes of a list of expressions.
pub fn shapes_only(es: &Vec<Expr>) -> (out: Vec<Expr>)
    ensures
        exprs_view(out@) == shape_list(exprs_view(es@), es@.len()),
    decreases es,
{
    let ghost ev = exprs_view(es@);
    let mut out: Vec<Expr> = Vec::new();
    let mut i: usize = 0;
    assert(exprs_view(out@) =~= shape_list(ev, 0));
    while i < es.len()
        invariant
            i <= es.len(),
            ev == exprs_view(es@),
            exprs_view(out@) == shape_list(ev, i as nat),
        decreases es.len() - i,
    {
        let ghost before = exprs_view(out@);
        let item = es[i].shape_only();
        out.push(item);
        assert(exprs_view(out@) =~= before.push(item@));
        i += 1;
    }
    out
}

/// The entries of a record literal with the shapes of their values.
pub fn entry_shapes_only(es: &Vec<(String, Expr)>) -> (out: Vec<(String, Expr)>)
    ensures
        entries_view(out@) == shape_entries(entries_view(es@), es@.len()),
    decreases es,
{
    let ghost ev = entries_view(es@);
    let mut out: Vec<(String, Expr)> = Vec::new();
    let mut i: usize = 0;
    assert(entries_view(out@) =~= shape_entries(ev, 0));
    while i < es.len()
        invariant
            i <= es.len(),
            ev == entries_view(es@),
            entries_view(out@) == shape_entries(ev, i as nat),
        decreases es.len() - i,
    {
        let ghost before = entries_view(out@);
        let item = es[i].1.shape_only();
        let name = es[i].0.clone();
        out.push((name, item));
        assert(entries_view(out@) =~= before.push((name@, item@)));
        i += 1;
    }
    out
}

/// Whether two lists hold the same expressions.
pub fn same_exprs(a: &Vec<Expr>, b: &Vec<Expr>) -> (same: bool)
    ensures
        same == (exprs_view(a@) == exprs_view(b@)),
    decreases a,
{
    if a.len() != b.len() {
        assert(exprs_view(a@).len() != exprs_view(b@).len());
        return false;
    }
    let mut i: usize = 0;
    while i < a.len()
        invariant
            i <= a.len(),
            a.len() == b.len(),
            forall|j: int| 0 <= j < i ==> a@[j]@ == b@[j]@,
        decreases a.len() - i,
    {
        if !a[i].same_as(&b[i]) {
            assert(exprs_view(a@)[i as int] != exprs_view(b@)[i as int]);
            return false;
        }
        i += 1;
    }
    assert(exprs_view(a@) =~= exprs_view(b@));
    true
}

/// Whether two record literals hold the same entries.
pub fn same_entries(a: &Vec<(String, Expr)>, b: &Vec<(String, Expr)>) -> (same: bool)
    ensures
        same == (entries_view(a@) == entries_view(b@)),
    decreases a,
{
    if a.len() != b.len() {
        assert(entries_view(a@).len() != entries_view(b@).len());
        return false;
    }
    let mut i: usize = 0;
    while i < a.len()
        invariant
            i <= a.len(),
            a.len() == b.len(),
            forall|j: int| 0 <= j < i ==> a@[j].0@ == b@[j].0@ && a@[j].1@ == b@[j].1@,
        decreases a.len() - i,
    {
        if a[i].0 != b[i].0 || !a[i].1.same_as(&b[i].1) {
            assert(entries_view(a@)[i as int] != entries_view(b@)[i as int]);
            return false;
        }
        i += 1;
    }
    assert(entries_view(a@) =~= entries_view(b@));
    true
}

/// Whether both hold the same location, or both none.
pub fn same_loc(a: &Option<Loc>, b: &Option<Loc>) -> (same: bool)
    ensures
        same == (loc_view(*a) == loc_view(*b)),
{
    match (a, b) {
        (Some(x), Some(y)) => x.same_as(y),
        (None, None) => true,
        _ => false,
    }
}

/// Whether both hold the same type, or both none.
pub fn same_data(a: &Option<Type>, b: &Option<Type>) -> (same: bool)
    ensures
        same == (data_view(*a) == data_view(*b)),
{
    match (a, b) {
        (Some(x), Some(y)) => x.same_as(y),
        (None, None) => true,
        _ => false,
    }
}

impl ExprKind {
    /// Whether both are the same form of the same parts.
    pub fn same_as(&self, other: &ExprKind) -> (same: bool)
        ensures
            same == (self@ == other@),
        decreases self,
    {
        proof {
            list_views(*self);
            list_views(*other);
        }
        match (self, other) {
            (ExprKind::Lit(a), ExprKind::Lit(b)) => a.same_as(b),
            (ExprKind::Var(a), ExprKind::Var(b)) => *a == *b,
            (ExprKind::Slot(a), ExprKind::Slot(b)) => *a == *b,
            (
                ExprKind::If { test_expr: a1, then_expr: a2, else_expr: a3 },
                ExprKind::If { test_expr: b1, then_expr: b2, else_expr: b3 },
            ) => {
                let (a1, a2, a3): (&Expr, &Expr, &Expr) = (a1, a2, a3);
                a1.same_as(b1) && a2.same_as(b2) && a3.same_as(b3)
            },
            (ExprKind::And { left: a1, right: a2 }, ExprKind::And { left: b1, right: b2 }) => {
                let (a1, a2): (&Expr, &Expr) = (a1, a2);
                a1.same_as(b1) && a2.same_as(b2)
            },
            (ExprKind::Or { left: a1, right: a2 }, ExprKind::Or { left: b1, right: b2 }) => {
                let (a1, a2): (&Expr, &Expr) = (a1, a2);
                a1.same_as(b1) && a2.same_as(b2)
            },
            (ExprKind::UnaryApp { op: o1, arg: a1 }, ExprKind::UnaryApp { op: o2, arg: b1 }) => {
                let a1: &Expr = a1;
                *o1 == *o2 && a1.same_as(b1)
            },
            (
                ExprKind::BinaryApp { op: o1, arg1: a1, arg2: a2 },
                ExprKind::BinaryApp { op: o2, arg1: b1, arg2: b2 },
            ) => {
                let (a1, a2): (&Expr, &Expr) = (a1, a2);
                *o1 == *o2 && a1.same_as(b1) && a2.same_as(b2)
            },
            (
                ExprKind::ExtensionFunctionApp { fn_name: n1, style: s1, args: a1 },
                ExprKind::ExtensionFunctionApp { fn_name: n2, style: s2, args: b1 },
            ) => *n1 == *n2 && *s1 == *s2 && same_exprs(a1, b1),
            (
                ExprKind::GetAttr { expr: a1, attr: n1 },
                ExprKind::GetAttr { expr: b1, attr: n2 },
            ) => {
                let a1: &Expr = a1;
                *n1 == *n2 && a1.same_as(b1)
            },
            (
                ExprKind::HasAttr { expr: a1, attr: n1 },
                ExprKind::HasAttr { expr: b1, attr: n2 },
            ) => {
                let a1: &Expr = a1;
                *n1 == *n2 && a1.same_as(b1)
            },
            (
                ExprKind::Like { expr: a1, pattern: n1 },
                ExprKind::Like { expr: b1, pattern: n2 },
            ) => {
                let a1: &Expr = a1;
                *n1 == *n2 && a1.same_as(b1)
            },
            (
                ExprKind::Is { expr: a1, entity_type: n1 },
                ExprKind::Is { expr: b1, entity_type: n2 },
            ) => {
                let a1: &Expr = a1;
                *n1 == *n2 && a1.same_as(b1)
            },
            (ExprKind::SetLit(a), ExprKind::SetLit(b)) => same_exprs(a, b),
            (ExprKind::Record(a), ExprKind::Record(b)) => same_entries(a, b),
            _ => false,
        }
    }

    /// The form with the shapes of its parts.
    pub fn shape_only(&self) -> (out: ExprKind)
        ensures
            out@ == shape(SpecExpr { kind: self@, source_loc: None, data: None }).kind,
        decreases self,
    {
        proof {
            list_views(*self);
        }
        let out = match self {
            ExprKind::Lit(l) => ExprKind::Lit(l.clone()),
            ExprKind::Var(v) => ExprKind::Var(*v),
            ExprKind::Slot(s) => ExprKind::Slot(*s),
            ExprKind::If { test_expr, then_expr, else_expr } => {
                let a: &Expr = test_expr;
                let b: &Expr = then_expr;
                let c: &Expr = else_expr;
                ExprKind::If {
                    test_expr: Box::new(a.shape_only()),
                    then_expr: Box::new(b.shape_only()),
                    else_expr: Box::new(c.shape_only()),
                }
            },
            ExprKind::And { left, right } => {
                let a: &Expr = left;
                let b: &Expr = right;
                ExprKind::And { left: Box::new(a.shape_only()), right: Box::new(b.shape_only()) }
            },
            ExprKind::Or { left, right } => {
                let a: &Expr = left;
                let b: &Expr = right;
                ExprKind::Or { left: Box::new(a.shape_only()), right: Box::new(b.shape_only()) }
            },
            ExprKind::UnaryApp { op, arg } => {
                let a: &Expr = arg;
                ExprKind::UnaryApp { op: *op, arg: Box::new(a.shape_only()) }
            },
            ExprKind::BinaryApp { op, arg1, arg2 } => {
                let a: &Expr = arg1;
                let b: &Expr = arg2;
                ExprKind::BinaryApp {
                    op: *op,
                    arg1: Box::new(a.shape_only()),
                    arg2: Box::new(b.shape_only()),
                }
            },
            ExprKind::ExtensionFunctionApp { fn_name, style, args } => {
                ExprKind::ExtensionFunctionApp {
                    fn_name: fn_name.clone(),
                    style: *style,
                    args: shapes_only(args),
                }
            },
            ExprKind::GetAttr { expr, attr } => {
                let a: &Expr = expr;
                ExprKind::GetAttr { expr: Box::new(a.shape_only()), attr: attr.clone() }
            },
            ExprKind::HasAttr { expr, attr } => {
                let a: &Expr = expr;
                ExprKind::HasAttr { expr: Box::new(a.shape_only()), attr: attr.clone() }
            },
            ExprKind::Like { expr, pattern } => {
                let a: &Expr = expr;
                ExprKind::Like { expr: Box::new(a.shape_only()), pattern: pattern.clone() }
            },
            ExprKind::Is { expr, entity_type } => {
                let a: &Expr = expr;
                ExprKind::Is { expr: Box::new(a.shape_only()), entity_type: entity_type.clone() }
            },
            ExprKind::SetLit(elems) => ExprKind::SetLit(shapes_only(elems)),
            ExprKind::Record(entries) => ExprKind::Record(entry_shapes_only(entries)),
        };
        proof {
            list_views(out);
        }
        out
    }
}

impl Expr {
    /// Whether both are the same expression, with the same locations and
    /// types on all their nodes.
    pub fn same_as(&self, other: &Expr) -> (same: bool)
        ensures
            same == (self@ == other@),
        decreases self,
    {
        self.expr_kind.same_as(&other.expr_kind) && same_loc(&self.source_loc, &other.source_loc)
            && same_data(&self.data, &other.data)
    }

    /// The expression without the locations and types on its nodes.
    pub fn shape_only(&self) -> (out: Expr)
        ensures
            out@ == shape(self@),
        decreases self,
    {
        Expr { expr_kind: self.expr_kind.shape_only(), source_loc: None, data: None }
    }
}

} // verus!
