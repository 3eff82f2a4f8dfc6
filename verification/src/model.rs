//! The library's model of the parsed SQL it traverses.
//!
//! Each model node holds the fields the rewriter reads as plain values, and
//! an opaque handle to the node it came from so that everything the rewriter
//! does not touch survives reconstruction. The spec-level view types below
//! drop the handles: contracts speak about those views.

use vstd::prelude::*;
use crate::text::{spec_eq_ignore_case, eq_ignore_case, spec_lower_seq};
use crate::context::{CtxV, spec_view_lookup};

verus! {

/// A comparison or connective operator, as far as the predicate analyser
/// distinguishes them.
pub enum OpModel {
    And,
    Or,
    Eq,
    Other,
}

/// A selection expression, reduced to the shapes the predicate analyser
/// recognises; everything else is `Opaque`.
pub enum ExprModel {
    Binary { op: OpModel, left: Box<ExprModel>, right: Box<ExprModel> },
    Nested(Box<ExprModel>),
    Between { expr: Box<ExprModel>, low: Box<ExprModel>, high: Box<ExprModel> },
    InList { expr: Box<ExprModel>, list: Vec<ExprModel> },
    Ident(String),
    CompoundIdent(Vec<String>),
    Lit(String),
    Placeholder,
    Tuple(Vec<ExprModel>),
    Opaque,
}

/// A table factor of a FROM clause.
pub enum FactorModel {
    /// A plain table reference: its name parts, its alias if any, and the
    /// alias identifier handle for reconstruction.
    Table {
        parts: Vec<String>,
        alias: Option<String>,
        alias_ident: Option<sqlparser::ast::Ident>,
        handle: sqlparser::ast::TableFactor,
    },
    /// A derived table that stood in the input; never rewritten, but its
    /// subquery is read by the containment test.
    Derived { subquery: Box<QueryModel>, handle: sqlparser::ast::TableFactor },
    /// A derived table this rewriter created: a routed state-reader union
    /// (`generated`) or an inlined view body.
    Routed {
        subquery: Box<QueryModel>,
        alias_ident: Option<sqlparser::ast::Ident>,
        alias_name: String,
        generated: bool,
    },
    /// Any other factor kind; left alone.
    Leaf { handle: sqlparser::ast::TableFactor },
}

/// One FROM item: a relation and its joins.
pub struct TwjModel {
    pub relation: FactorModel,
    pub joins: Vec<FactorModel>,
    pub handle: sqlparser::ast::TableWithJoins,
}

/// A SELECT: its FROM items and its WHERE clause.
pub struct SelectModel {
    pub from: Vec<TwjModel>,
    pub selection: Option<ExprModel>,
    pub handle: sqlparser::ast::Select,
}

/// The body of a query.
pub enum SetExprModel {
    Select(Box<SelectModel>),
    Sub(Box<QueryModel>),
    SetOp(Box<SetExprModel>, Box<SetExprModel>, sqlparser::ast::SetExpr),
    Leaf(sqlparser::ast::SetExpr),
}

/// A query: its WITH CTEs and its body.
pub struct QueryModel {
    pub ctes: Vec<QueryModel>,
    pub body: SetExprModel,
    pub handle: sqlparser::ast::Query,
}

/// A top-level statement: a query, or anything else (left alone).
pub enum StatementModel {
    Query(QueryModel),
    Other(sqlparser::ast::Statement),
}

// ---------------------------------------------------------------------------
// Spec-level views: the same shapes without handles.

pub enum ExprV {
    Binary { op: OpModel, left: Box<ExprV>, right: Box<ExprV> },
    Nested(Box<ExprV>),
    Between { expr: Box<ExprV>, low: Box<ExprV>, high: Box<ExprV> },
    InList { expr: Box<ExprV>, list: Seq<ExprV> },
    Ident(Seq<char>),
    CompoundIdent(Seq<Seq<char>>),
    Lit(Seq<char>),
    Placeholder,
    Tuple(Seq<ExprV>),
    Opaque,
}

pub enum FacV {
    Table { parts: Seq<Seq<char>>, alias: Option<Seq<char>> },
    Derived(Box<QueryV>),
    Routed { subquery: Box<QueryV>, alias: Seq<char>, generated: bool },
    Leaf,
}

pub struct TwjV {
    pub relation: FacV,
    pub joins: Seq<FacV>,
}

pub struct SelV {
    pub from: Seq<TwjV>,
    pub selection: Option<ExprV>,
}

pub enum SetV {
    Select(Box<SelV>),
    Sub(Box<QueryV>),
    SetOp(Box<SetV>, Box<SetV>),
    Leaf,
}

pub struct QueryV {
    pub ctes: Seq<QueryV>,
    pub body: SetV,
}

pub enum StmtV {
    Query(QueryV),
    Other,
}

// ---------------------------------------------------------------------------
// View functions.

pub open spec fn expr_view(e: ExprModel) -> ExprV
    decreases e,
{
    match e {
        ExprModel::Binary { op, left, right } => ExprV::Binary {
            op,
            left: Box::new(expr_view(*left)),
            right: Box::new(expr_view(*right)),
        },
        ExprModel::Nested(x) => ExprV::Nested(Box::new(expr_view(*x))),
        ExprModel::Between { expr, low, high } => ExprV::Between {
            expr: Box::new(expr_view(*expr)),
            low: Box::new(expr_view(*low)),
            high: Box::new(expr_view(*high)),
        },
        ExprModel::InList { expr, list } => ExprV::InList {
            expr: Box::new(expr_view(*expr)),
            list: expr_views(list@),
        },
        ExprModel::Ident(s) => ExprV::Ident(s@),
        ExprModel::CompoundIdent(ss) => ExprV::CompoundIdent(ss.deep_view()),
        ExprModel::Lit(s) => ExprV::Lit(s@),
        ExprModel::Placeholder => ExprV::Placeholder,
        ExprModel::Tuple(xs) => ExprV::Tuple(expr_views(xs@)),
        ExprModel::Opaque => ExprV::Opaque,
    }
}

pub open spec fn expr_views(s: Seq<ExprModel>) -> Seq<ExprV>
    decreases s,
{
    if s.len() == 0 {
        Seq::empty()
    } else {
        expr_views(s.drop_last()).push(expr_view(s.last()))
    }
}

pub open spec fn fac_view(f: FactorModel) -> FacV
    decreases f,
{
    match f {
        FactorModel::Table { parts, alias, .. } => FacV::Table {
            parts: parts.deep_view(),
            alias: match alias {
                Some(a) => Some(a@),
                None => None,
            },
        },
        FactorModel::Derived { subquery, .. } => FacV::Derived(Box::new(q_view(*subquery))),
        FactorModel::Routed { subquery, alias_name, generated, .. } => FacV::Routed {
            subquery: Box::new(q_view(*subquery)),
            alias: alias_name@,
            generated,
        },
        FactorModel::Leaf { .. } => FacV::Leaf,
    }
}

pub open spec fn fac_views(s: Seq<FactorModel>) -> Seq<FacV>
    decreases s,
{
    if s.len() == 0 {
        Seq::empty()
    } else {
        fac_views(s.drop_last()).push(fac_view(s.last()))
    }
}

pub open spec fn twj_view(t: TwjModel) -> TwjV
    decreases t,
{
    TwjV { relation: fac_view(t.relation), joins: fac_views(t.joins@) }
}

pub open spec fn twj_views(s: Seq<TwjModel>) -> Seq<TwjV>
    decreases s,
{
    if s.len() == 0 {
        Seq::empty()
    } else {
        twj_views(s.drop_last()).push(twj_view(s.last()))
    }
}

pub open spec fn sel_view(s: SelectModel) -> SelV
    decreases s,
{
    SelV {
        from: twj_views(s.from@),
        selection: match s.selection {
            Some(e) => Some(expr_view(e)),
            None => None,
        },
    }
}

pub open spec fn se_view(e: SetExprModel) -> SetV
    decreases e,
{
    match e {
        SetExprModel::Select(s) => SetV::Select(Box::new(sel_view(*s))),
        SetExprModel::Sub(q) => SetV::Sub(Box::new(q_view(*q))),
        SetExprModel::SetOp(l, r, _) => SetV::SetOp(
            Box::new(se_view(*l)),
            Box::new(se_view(*r)),
        ),
        SetExprModel::Leaf(_) => SetV::Leaf,
    }
}

pub open spec fn q_view(q: QueryModel) -> QueryV
    decreases q,
{
    QueryV { ctes: q_views(q.ctes@), body: se_view(q.body) }
}

pub open spec fn q_views(s: Seq<QueryModel>) -> Seq<QueryV>
    decreases s,
{
    if s.len() == 0 {
        Seq::empty()
    } else {
        q_views(s.drop_last()).push(q_view(s.last()))
    }
}

pub open spec fn stmt_view(s: StatementModel) -> StmtV
    decreases s,
{
    match s {
        StatementModel::Query(q) => StmtV::Query(q_view(q)),
        StatementModel::Other(_) => StmtV::Other,
    }
}

pub open spec fn stmts_view(s: Seq<StatementModel>) -> Seq<StmtV>
    decreases s,
{
    if s.len() == 0 {
        Seq::empty()
    } else {
        stmts_view(s.drop_last()).push(stmt_view(s.last()))
    }
}

// ---------------------------------------------------------------------------
// Sizes, for termination of the traversal.

pub open spec fn sz_q(q: QueryV) -> nat
    decreases q,
{
    1 + sz_qs(q.ctes) + sz_se(q.body)
}

pub open spec fn sz_qs(s: Seq<QueryV>) -> nat
    decreases s,
{
    if s.len() == 0 {
        0
    } else {
        1 + sz_qs(s.drop_last()) + sz_q(s.last())
    }
}

pub open spec fn sz_se(e: SetV) -> nat
    decreases e,
{
    match e {
        SetV::Select(s) => 1 + sz_sel(*s),
        SetV::Sub(q) => 1 + sz_q(*q),
        SetV::SetOp(l, r) => 1 + sz_se(*l) + sz_se(*r),
        SetV::Leaf => 1,
    }
}

pub open spec fn sz_sel(s: SelV) -> nat
    decreases s,
{
    1 + sz_twjs(s.from)
}

pub open spec fn sz_twjs(s: Seq<TwjV>) -> nat
    decreases s,
{
    if s.len() == 0 {
        0
    } else {
        1 + sz_twjs(s.drop_last()) + sz_twj(s.last())
    }
}

pub open spec fn sz_twj(t: TwjV) -> nat
    decreases t,
{
    1 + sz_fac(t.relation) + sz_facs(t.joins)
}

pub open spec fn sz_facs(s: Seq<FacV>) -> nat
    decreases s,
{
    if s.len() == 0 {
        0
    } else {
        1 + sz_facs(s.drop_last()) + sz_fac(s.last())
    }
}

pub open spec fn sz_fac(f: FacV) -> nat
    decreases f,
{
    match f {
        FacV::Table { .. } => 1,
        FacV::Derived(q) => 1 + sz_q(*q),
        FacV::Routed { subquery, .. } => 1 + sz_q(*subquery),
        FacV::Leaf => 1,
    }
}

pub open spec fn sz_stmt(s: StmtV) -> nat
    decreases s,
{
    match s {
        StmtV::Query(q) => 1 + sz_q(q),
        StmtV::Other => 1,
    }
}

pub open spec fn sz_stmts(s: Seq<StmtV>) -> nat
    decreases s,
{
    if s.len() == 0 {
        0
    } else {
        1 + sz_stmts(s.drop_last()) + sz_stmt(s.last())
    }
}

// ---------------------------------------------------------------------------
// The recognised virtual view.

/// Whether a table factor's name parts name the state reader: exactly one,
/// unqualified part, matched case-insensitively.
pub open spec fn spec_is_reader_name(parts: Seq<Seq<char>>) -> bool {
    parts.len() == 1 && spec_eq_ignore_case(parts[0], "internal_state_reader"@)
}

/// Decides whether the given name parts reference the state reader.
pub fn is_reader_name(parts: &Vec<String>) -> (r: bool)
    ensures
        r == spec_is_reader_name(parts.deep_view()),
{
    if parts.len() != 1 {
        proof {
            assert(parts.deep_view().len() == parts@.len());
        }
        return false;
    }
    proof {
        assert(parts.deep_view()[0] == parts@[0]@);
    }
    eq_ignore_case(parts[0].as_str(), "internal_state_reader")
}

// ---------------------------------------------------------------------------
// Containment of a bare state-reader reference, as the view-inlining rule
// tests it: plain table names anywhere in the tree, including inside derived
// tables that stood in the input; a subquery this rewriter generated never
// holds one.

pub open spec fn qv_contains_reader(q: QueryV) -> bool
    decreases sz_q(q),
{
    qs_contain_reader(q.ctes) || se_contains_reader(q.body)
}

pub open spec fn qs_contain_reader(s: Seq<QueryV>) -> bool
    decreases sz_qs(s),
{
    if s.len() == 0 {
        false
    } else {
        qs_contain_reader(s.drop_last()) || qv_contains_reader(s.last())
    }
}

pub open spec fn se_contains_reader(e: SetV) -> bool
    decreases sz_se(e),
{
    match e {
        SetV::Select(s) => sel_contains_reader(*s),
        SetV::Sub(q) => qv_contains_reader(*q),
        SetV::SetOp(l, r) => se_contains_reader(*l) || se_contains_reader(*r),
        SetV::Leaf => false,
    }
}

pub open spec fn sel_contains_reader(s: SelV) -> bool
    decreases sz_sel(s),
{
    twjs_contain_reader(s.from)
}

pub open spec fn twjs_contain_reader(s: Seq<TwjV>) -> bool
    decreases sz_twjs(s),
{
    if s.len() == 0 {
        false
    } else {
        twjs_contain_reader(s.drop_last()) || twj_contains_reader(s.last())
    }
}

pub open spec fn twj_contains_reader(t: TwjV) -> bool
    decreases sz_twj(t),
{
    fac_contains_reader(t.relation) || facs_contain_reader(t.joins)
}

pub open spec fn facs_contain_reader(s: Seq<FacV>) -> bool
    decreases sz_facs(s),
{
    if s.len() == 0 {
        false
    } else {
        facs_contain_reader(s.drop_last()) || fac_contains_reader(s.last())
    }
}

pub open spec fn fac_contains_reader(f: FacV) -> bool
    decreases sz_fac(f),
{
    match f {
        FacV::Table { parts, .. } => spec_is_reader_name(parts),
        FacV::Derived(q) => qv_contains_reader(*q),
        FacV::Routed { subquery, generated, .. } => !generated && qv_contains_reader(*subquery),
        FacV::Leaf => false,
    }
}

// ---------------------------------------------------------------------------
// What the traversal can reach and would act on: a factor at a traversed
// position whose name is the state reader or a catalogued view. Derived
// tables of the input are not traversed, so their insides do not count.

/// The name the rewriter reads from a table factor: its last name part.
pub open spec fn spec_factor_table_name(parts: Seq<Seq<char>>) -> Seq<char> {
    parts.last()
}

/// Whether a traversed table factor triggers the rewriter: it names the
/// state reader, or its (lower-cased) last name part is in the catalogue.
pub open spec fn fac_mentions(f: FacV, ctx: CtxV) -> bool {
    match f {
        FacV::Table { parts, .. } => parts.len() > 0 && (spec_is_reader_name(parts)
            || spec_view_lookup(ctx.views, spec_lower_seq(spec_factor_table_name(parts))) is Some),
        FacV::Derived(_) => false,
        FacV::Routed { .. } => false,
        FacV::Leaf => false,
    }
}

pub open spec fn facs_mention(s: Seq<FacV>, ctx: CtxV) -> bool
    decreases s,
{
    if s.len() == 0 {
        false
    } else {
        facs_mention(s.drop_last(), ctx) || fac_mentions(s.last(), ctx)
    }
}

pub open spec fn twj_mentions(t: TwjV, ctx: CtxV) -> bool {
    fac_mentions(t.relation, ctx) || facs_mention(t.joins, ctx)
}

pub open spec fn twjs_mention(s: Seq<TwjV>, ctx: CtxV) -> bool
    decreases s,
{
    if s.len() == 0 {
        false
    } else {
        twjs_mention(s.drop_last(), ctx) || twj_mentions(s.last(), ctx)
    }
}

pub open spec fn sel_mentions(s: SelV, ctx: CtxV) -> bool {
    twjs_mention(s.from, ctx)
}

pub open spec fn se_mentions(e: SetV, ctx: CtxV) -> bool
    decreases e,
{
    match e {
        SetV::Select(s) => sel_mentions(*s, ctx),
        SetV::Sub(q) => qv_mentions(*q, ctx),
        SetV::SetOp(l, r) => se_mentions(*l, ctx) || se_mentions(*r, ctx),
        SetV::Leaf => false,
    }
}

pub open spec fn qv_mentions(q: QueryV, ctx: CtxV) -> bool
    decreases q,
{
    qs_mention(q.ctes, ctx) || se_mentions(q.body, ctx)
}

pub open spec fn qs_mention(s: Seq<QueryV>, ctx: CtxV) -> bool
    decreases s,
{
    if s.len() == 0 {
        false
    } else {
        qs_mention(s.drop_last(), ctx) || qv_mentions(s.last(), ctx)
    }
}

pub open spec fn stmt_mentions(s: StmtV, ctx: CtxV) -> bool {
    match s {
        StmtV::Query(q) => qv_mentions(q, ctx),
        StmtV::Other => false,
    }
}

/// Whether any statement holds, at a traversed position, a reference to the
/// state reader or to a catalogued view.
pub open spec fn stmts_mention(s: Seq<StmtV>, ctx: CtxV) -> bool
    decreases s,
{
    if s.len() == 0 {
        false
    } else {
        stmts_mention(s.drop_last(), ctx) || stmt_mentions(s.last(), ctx)
    }
}

// ---------------------------------------------------------------------------
// A bare state-reader factor at a traversed position: what the full phase
// removes wherever it does not decline.

pub open spec fn fac_traversed_reader(f: FacV) -> bool {
    match f {
        FacV::Table { parts, .. } => spec_is_reader_name(parts),
        FacV::Derived(_) => false,
        FacV::Routed { .. } => false,
        FacV::Leaf => false,
    }
}

pub open spec fn facs_traversed_reader(s: Seq<FacV>) -> bool
    decreases sz_facs(s),
{
    if s.len() == 0 {
        false
    } else {
        facs_traversed_reader(s.drop_last()) || fac_traversed_reader(s.last())
    }
}

pub open spec fn twj_traversed_reader(t: TwjV) -> bool
    decreases sz_twj(t),
{
    fac_traversed_reader(t.relation) || facs_traversed_reader(t.joins)
}

pub open spec fn twjs_traversed_reader(s: Seq<TwjV>) -> bool
    decreases sz_twjs(s),
{
    if s.len() == 0 {
        false
    } else {
        twjs_traversed_reader(s.drop_last()) || twj_traversed_reader(s.last())
    }
}

pub open spec fn sel_traversed_reader(s: SelV) -> bool
    decreases sz_sel(s),
{
    twjs_traversed_reader(s.from)
}

pub open spec fn se_traversed_reader(e: SetV) -> bool
    decreases sz_se(e),
{
    match e {
        SetV::Select(s) => sel_traversed_reader(*s),
        SetV::Sub(q) => qv_traversed_reader(*q),
        SetV::SetOp(l, r) => se_traversed_reader(*l) || se_traversed_reader(*r),
        SetV::Leaf => false,
    }
}

pub open spec fn qv_traversed_reader(q: QueryV) -> bool
    decreases sz_q(q),
{
    qs_traversed_reader(q.ctes) || se_traversed_reader(q.body)
}

pub open spec fn qs_traversed_reader(s: Seq<QueryV>) -> bool
    decreases sz_qs(s),
{
    if s.len() == 0 {
        false
    } else {
        qs_traversed_reader(s.drop_last()) || qv_traversed_reader(s.last())
    }
}

pub open spec fn stmt_traversed_reader(s: StmtV) -> bool {
    match s {
        StmtV::Query(q) => qv_traversed_reader(q),
        StmtV::Other => false,
    }
}

/// Whether any statement still holds a bare state-reader table factor at a
/// position the traversal reaches.
pub open spec fn stmts_traversed_reader(s: Seq<StmtV>) -> bool
    decreases s,
{
    if s.len() == 0 {
        false
    } else {
        stmts_traversed_reader(s.drop_last()) || stmt_traversed_reader(s.last())
    }
}

// ---------------------------------------------------------------------------
// Sizes and index facts for expressions.

pub open spec fn sz_expr(e: ExprV) -> nat
    decreases e,
{
    match e {
        ExprV::Binary { left, right, .. } => 1 + sz_expr(*left) + sz_expr(*right),
        ExprV::Nested(x) => 1 + sz_expr(*x),
        ExprV::Between { expr, low, high } => 1 + sz_expr(*expr) + sz_expr(*low) + sz_expr(*high),
        ExprV::InList { expr, list } => 1 + sz_expr(*expr) + sz_exprs(list),
        ExprV::Tuple(xs) => 1 + sz_exprs(xs),
        _ => 1,
    }
}

pub open spec fn sz_exprs(s: Seq<ExprV>) -> nat
    decreases s,
{
    if s.len() == 0 {
        0
    } else {
        1 + sz_exprs(s.drop_last()) + sz_expr(s.last())
    }
}

pub proof fn lemma_expr_views_index(s: Seq<ExprModel>, i: int)
    requires
        0 <= i < s.len(),
    ensures
        expr_views(s).len() == s.len(),
        expr_views(s)[i] == expr_view(s[i]),
    decreases s.len(),
{
    lemma_expr_views_len(s);
    if i < s.len() - 1 {
        lemma_expr_views_index(s.drop_last(), i);
    }
}

pub proof fn lemma_expr_views_len(s: Seq<ExprModel>)
    ensures
        expr_views(s).len() == s.len(),
    decreases s.len(),
{
    if s.len() > 0 {
        lemma_expr_views_len(s.drop_last());
    }
}

pub proof fn lemma_sz_exprs_index(s: Seq<ExprV>, i: int)
    requires
        0 <= i < s.len(),
    ensures
        sz_expr(s[i]) < sz_exprs(s),
    decreases s.len(),
{
    if i < s.len() - 1 {
        lemma_sz_exprs_index(s.drop_last(), i);
    }
}

pub proof fn lemma_q_views_len(s: Seq<QueryModel>)
    ensures
        q_views(s).len() == s.len(),
    decreases s.len(),
{
    if s.len() > 0 {
        lemma_q_views_len(s.drop_last());
    }
}

pub proof fn lemma_q_views_index(s: Seq<QueryModel>, i: int)
    requires
        0 <= i < s.len(),
    ensures
        q_views(s).len() == s.len(),
        q_views(s)[i] == q_view(s[i]),
    decreases s.len(),
{
    lemma_q_views_len(s);
    if i < s.len() - 1 {
        lemma_q_views_index(s.drop_last(), i);
    }
}

pub proof fn lemma_sz_qs_index(s: Seq<QueryV>, i: int)
    requires
        0 <= i < s.len(),
    ensures
        sz_q(s[i]) < sz_qs(s),
    decreases s.len(),
{
    if i < s.len() - 1 {
        lemma_sz_qs_index(s.drop_last(), i);
    }
}

pub proof fn lemma_twj_views_len(s: Seq<TwjModel>)
    ensures
        twj_views(s).len() == s.len(),
    decreases s.len(),
{
    if s.len() > 0 {
        lemma_twj_views_len(s.drop_last());
    }
}

pub proof fn lemma_twj_views_index(s: Seq<TwjModel>, i: int)
    requires
        0 <= i < s.len(),
    ensures
        twj_views(s).len() == s.len(),
        twj_views(s)[i] == twj_view(s[i]),
    decreases s.len(),
{
    lemma_twj_views_len(s);
    if i < s.len() - 1 {
        lemma_twj_views_index(s.drop_last(), i);
    }
}

pub proof fn lemma_sz_twjs_index(s: Seq<TwjV>, i: int)
    requires
        0 <= i < s.len(),
    ensures
        sz_twj(s[i]) < sz_twjs(s),
    decreases s.len(),
{
    if i < s.len() - 1 {
        lemma_sz_twjs_index(s.drop_last(), i);
    }
}

pub proof fn lemma_fac_views_len(s: Seq<FactorModel>)
    ensures
        fac_views(s).len() == s.len(),
    decreases s.len(),
{
    if s.len() > 0 {
        lemma_fac_views_len(s.drop_last());
    }
}

pub proof fn lemma_fac_views_index(s: Seq<FactorModel>, i: int)
    requires
        0 <= i < s.len(),
    ensures
        fac_views(s).len() == s.len(),
        fac_views(s)[i] == fac_view(s[i]),
    decreases s.len(),
{
    lemma_fac_views_len(s);
    if i < s.len() - 1 {
        lemma_fac_views_index(s.drop_last(), i);
    }
}

pub proof fn lemma_sz_facs_index(s: Seq<FacV>, i: int)
    requires
        0 <= i < s.len(),
    ensures
        sz_fac(s[i]) < sz_facs(s),
    decreases s.len(),
{
    if i < s.len() - 1 {
        lemma_sz_facs_index(s.drop_last(), i);
    }
}

pub proof fn lemma_stmts_view_len(s: Seq<StatementModel>)
    ensures
        stmts_view(s).len() == s.len(),
    decreases s.len(),
{
    if s.len() > 0 {
        lemma_stmts_view_len(s.drop_last());
    }
}

pub proof fn lemma_stmts_view_index(s: Seq<StatementModel>, i: int)
    requires
        0 <= i < s.len(),
    ensures
        stmts_view(s).len() == s.len(),
        stmts_view(s)[i] == stmt_view(s[i]),
    decreases s.len(),
{
    lemma_stmts_view_len(s);
    if i < s.len() - 1 {
        lemma_stmts_view_index(s.drop_last(), i);
    }
}

// ---------------------------------------------------------------------------
// The containment test, executable: does a (rewritten) query still hold a
// bare state-reader table factor anywhere the input could carry one?

pub fn query_contains_internal_state_reader(q: &QueryModel) -> (r: bool)
    ensures
        r == qv_contains_reader(q_view(*q)),
    decreases sz_q(q_view(*q)),
{
    let ghost qv = q_view(*q);
    proof {
        lemma_q_views_len(q.ctes@);
        assert(qv.ctes.subrange(0, 0).len() == 0);
    }
    let mut i: usize = 0;
    while i < q.ctes.len()
        invariant
            qv == q_view(*q),
            qv.ctes == q_views(q.ctes@),
            i <= q.ctes@.len(),
            q_views(q.ctes@).len() == q.ctes@.len(),
            !qs_contain_reader(qv.ctes.subrange(0, i as int)),
        decreases q.ctes@.len() - i,
    {
        proof {
            lemma_q_views_index(q.ctes@, i as int);
            lemma_sz_qs_index(qv.ctes, i as int);
        }
        if query_contains_internal_state_reader(&q.ctes[i]) {
            proof {
                lemma_qs_contain_member(qv.ctes, i as int);
            }
            return true;
        }
        i += 1;
        proof {
            let cur = qv.ctes.subrange(0, i as int);
            assert(cur.drop_last() =~= qv.ctes.subrange(0, i - 1));
            assert(cur.last() == qv.ctes[i - 1]);
        }
    }
    proof {
        assert(qv.ctes.subrange(0, qv.ctes.len() as int) =~= qv.ctes);
    }
    set_expr_contains_internal_state_reader(&q.body)
}

pub fn set_expr_contains_internal_state_reader(e: &SetExprModel) -> (r: bool)
    ensures
        r == se_contains_reader(se_view(*e)),
    decreases sz_se(se_view(*e)),
{
    match e {
        SetExprModel::Select(s) => select_contains_internal_state_reader(s),
        SetExprModel::Sub(q) => query_contains_internal_state_reader(q),
        SetExprModel::SetOp(l, r, _) => {
            let left = set_expr_contains_internal_state_reader(l);
            let right = set_expr_contains_internal_state_reader(r);
            left || right
        },
        SetExprModel::Leaf(_) => false,
    }
}

pub fn select_contains_internal_state_reader(s: &SelectModel) -> (r: bool)
    ensures
        r == sel_contains_reader(sel_view(*s)),
    decreases sz_sel(sel_view(*s)),
{
    let ghost sv = sel_view(*s);
    proof {
        lemma_twj_views_len(s.from@);
        assert(sv.from.subrange(0, 0).len() == 0);
    }
    let mut i: usize = 0;
    while i < s.from.len()
        invariant
            sv == sel_view(*s),
            sv.from == twj_views(s.from@),
            i <= s.from@.len(),
            twj_views(s.from@).len() == s.from@.len(),
            !twjs_contain_reader(sv.from.subrange(0, i as int)),
        decreases s.from@.len() - i,
    {
        proof {
            lemma_twj_views_index(s.from@, i as int);
            lemma_sz_twjs_index(sv.from, i as int);
        }
        if table_with_joins_contains_internal_state_reader(&s.from[i]) {
            proof {
                lemma_twjs_contain_member(sv.from, i as int);
            }
            return true;
        }
        i += 1;
        proof {
            let cur = sv.from.subrange(0, i as int);
            assert(cur.drop_last() =~= sv.from.subrange(0, i - 1));
            assert(cur.last() == sv.from[i - 1]);
        }
    }
    proof {
        assert(sv.from.subrange(0, sv.from.len() as int) =~= sv.from);
    }
    false
}

pub fn table_with_joins_contains_internal_state_reader(t: &TwjModel) -> (r: bool)
    ensures
        r == twj_contains_reader(twj_view(*t)),
    decreases sz_twj(twj_view(*t)),
{
    let ghost tv = twj_view(*t);
    proof {
        assert(sz_fac(tv.relation) <= sz_twj(tv));
    }
    if table_factor_contains_internal_state_reader(&t.relation) {
        return true;
    }
    proof {
        lemma_fac_views_len(t.joins@);
        assert(tv.joins.subrange(0, 0).len() == 0);
    }
    let mut i: usize = 0;
    while i < t.joins.len()
        invariant
            tv == twj_view(*t),
            tv.joins == fac_views(t.joins@),
            !fac_contains_reader(tv.relation),
            i <= t.joins@.len(),
            fac_views(t.joins@).len() == t.joins@.len(),
            !facs_contain_reader(tv.joins.subrange(0, i as int)),
        decreases t.joins@.len() - i,
    {
        proof {
            lemma_fac_views_index(t.joins@, i as int);
            lemma_sz_facs_index(tv.joins, i as int);
        }
        if table_factor_contains_internal_state_reader(&t.joins[i]) {
            proof {
                lemma_facs_contain_member(tv.joins, i as int);
            }
            return true;
        }
        i += 1;
        proof {
            let cur = tv.joins.subrange(0, i as int);
            assert(cur.drop_last() =~= tv.joins.subrange(0, i - 1));
            assert(cur.last() == tv.joins[i - 1]);
        }
    }
    proof {
        assert(tv.joins.subrange(0, tv.joins.len() as int) =~= tv.joins);
    }
    false
}

pub fn table_factor_contains_internal_state_reader(f: &FactorModel) -> (r: bool)
    ensures
        r == fac_contains_reader(fac_view(*f)),
    decreases sz_fac(fac_view(*f)),
{
    match f {
        FactorModel::Table { parts, .. } => is_reader_name(parts),
        FactorModel::Derived { subquery, .. } => query_contains_internal_state_reader(subquery),
        FactorModel::Routed { subquery, generated, .. } => {
            if *generated {
                false
            } else {
                query_contains_internal_state_reader(subquery)
            }
        },
        FactorModel::Leaf { .. } => false,
    }
}

pub proof fn lemma_qs_contain_member(s: Seq<QueryV>, i: int)
    requires
        0 <= i < s.len(),
        qv_contains_reader(s[i]),
    ensures
        qs_contain_reader(s),
    decreases s.len(),
{
    if i < s.len() - 1 {
        lemma_qs_contain_member(s.drop_last(), i);
    }
}

pub proof fn lemma_twjs_contain_member(s: Seq<TwjV>, i: int)
    requires
        0 <= i < s.len(),
        twj_contains_reader(s[i]),
    ensures
        twjs_contain_reader(s),
    decreases s.len(),
{
    if i < s.len() - 1 {
        lemma_twjs_contain_member(s.drop_last(), i);
    }
}

pub proof fn lemma_facs_contain_member(s: Seq<FacV>, i: int)
    requires
        0 <= i < s.len(),
        fac_contains_reader(s[i]),
    ensures
        facs_contain_reader(s),
    decreases s.len(),
{
    if i < s.len() - 1 {
        lemma_facs_contain_member(s.drop_last(), i);
    }
}

} // verus!
