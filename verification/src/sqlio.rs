//! The trusted boundary to the sqlparser crate.
//!
//! Parsing reads sqlparser's AST into the library's model; reconstruction
//! grafts rewritten model nodes back onto the opaque handles the model kept,
//! and rendering prints a statement. Verus believes the contracts here; the
//! bodies only convert between sqlparser's AST and the model, one level per
//! function, one arm per variant.

use vstd::prelude::*;
use sqlparser::ast::{
    BinaryOperator, Expr, Ident, Query, Select, SetExpr, Statement, TableAlias, TableFactor,
    TableWithJoins, Value,
};
use sqlparser::dialect::SQLiteDialect;
use sqlparser::keywords::Keyword;
use sqlparser::parser::Parser;
use sqlparser::tokenizer::{Token, Tokenizer, Word};
use crate::model::{
    ExprModel, FactorModel, OpModel, QueryModel, SelectModel, SetExprModel, StatementModel,
    StmtV, TwjModel, stmts_view,
};
use crate::text::spec_fits_digits;

verus! {

#[verifier::external_type_specification]
#[verifier::external_body]
pub struct ExStatement(Statement);

#[verifier::external_type_specification]
#[verifier::external_body]
pub struct ExQuery(Query);

#[verifier::external_type_specification]
#[verifier::external_body]
pub struct ExSetExpr(SetExpr);

#[verifier::external_type_specification]
#[verifier::external_body]
pub struct ExSelect(Select);

#[verifier::external_type_specification]
#[verifier::external_body]
pub struct ExTableWithJoins(TableWithJoins);

#[verifier::external_type_specification]
#[verifier::external_body]
pub struct ExTableFactor(TableFactor);

#[verifier::external_type_specification]
#[verifier::external_body]
pub struct ExIdent(Ident);

#[verifier::external_type_specification]
#[verifier::external_body]
pub struct ExExpr(Expr);

#[verifier::external_type_specification]
#[verifier::external_body]
pub struct ExValue(Value);

#[verifier::external_type_specification]
#[verifier::external_body]
pub struct ExBinaryOperator(BinaryOperator);

#[verifier::external_type_specification]
#[verifier::external_body]
pub struct ExLexToken(Token);

#[verifier::external_type_specification]
#[verifier::external_body]
pub struct ExLexWord(Word);

/// A token of the SQL text, as far as the parser screen reads it: the
/// keywords that open the parser's abort paths, a numeric literal with its
/// text, the word-like tokens an identifier read accepts, whitespace
/// (which includes comments), and everything else.
pub enum SqlToken {
    Granted,
    By,
    Top,
    AutoIncrement,
    Word,
    Text,
    Number(String),
    Eq,
    Space,
    Other,
}

/// The range the parser reads a TOP quantity into.
pub const TOP_LITERAL_MAX: u64 = 18446744073709551615;

/// The range the parser reads an AUTO_INCREMENT offset into.
pub const AUTO_INCREMENT_LITERAL_MAX: u64 = 4294967295;

/// What sqlparser's tokenizer yields on a given text under the SQLite
/// dialect, reduced to the screen's token kinds; the tokenizing is a
/// function of the text alone.
pub uninterp spec fn spec_sql_tokens(sql: Seq<char>) -> Result<Seq<SqlToken>, ()>;

/// Relies on sqlparser's `Word`: reads the keyword kinds the screen
/// distinguishes, one arm each. A quoted word never carries a keyword, so
/// only the bare forms map to keyword kinds.
#[verifier::external_body]
fn word_model(w: &Word) -> SqlToken {
    match w.keyword {
        Keyword::GRANTED => SqlToken::Granted,
        Keyword::BY => SqlToken::By,
        Keyword::TOP => SqlToken::Top,
        Keyword::AUTO_INCREMENT => SqlToken::AutoIncrement,
        _ => SqlToken::Word,
    }
}

/// Relies on sqlparser's `Token`: reads the token kinds the screen
/// distinguishes, one arm each; the word-like kinds are exactly those the
/// parser's identifier read accepts.
#[verifier::external_body]
fn token_model(t: &Token) -> SqlToken {
    match t {
        Token::Word(w) => word_model(w),
        Token::SingleQuotedString(_) | Token::DoubleQuotedString(_) => SqlToken::Text,
        Token::Number(text, _) => SqlToken::Number(text.clone()),
        Token::Eq => SqlToken::Eq,
        Token::Whitespace(_) => SqlToken::Space,
        _ => SqlToken::Other,
    }
}

/// Relies on sqlparser's `Tokenizer::tokenize` under the SQLite dialect: it
/// returns for every input (its one internal unwrap is peek-guarded), and
/// its result is a function of the text alone.
#[verifier::external_body]
pub(crate) fn sql_tokens(sql: &str) -> (r: Result<Vec<SqlToken>, ()>)
    ensures
        r is Ok <==> spec_sql_tokens(sql@) is Ok,
        (r matches Ok(v) ==> spec_sql_tokens(sql@) matches Ok(tv) && v@ == tv),
{
    match Tokenizer::new(&SQLiteDialect {}, sql).tokenize() {
        Ok(tokens) => Ok(tokens.iter().map(token_model).collect()),
        Err(_) => Err(()),
    }
}

/// A token the parser's identifier read accepts: any word, quoted or bare,
/// or a quoted string.
pub open spec fn spec_word_like(t: SqlToken) -> bool {
    match t {
        SqlToken::Granted => true,
        SqlToken::By => true,
        SqlToken::Top => true,
        SqlToken::AutoIncrement => true,
        SqlToken::Word => true,
        SqlToken::Text => true,
        _ => false,
    }
}

/// The first index at or after `i` whose token is not whitespace, as the
/// parser's own token cursor skips it.
pub open spec fn spec_skip_space(ts: Seq<SqlToken>, i: int) -> int
    decreases ts.len() - i,
{
    if 0 <= i < ts.len() && (ts[i] is Space) {
        spec_skip_space(ts, i + 1)
    } else {
        i
    }
}

/// Whether one of the parser's abort patterns starts at index `i`: the
/// `GRANTED BY` keywords followed by anything but an identifier (the
/// access-control reads unwrap that identifier), or `TOP` or
/// `AUTO_INCREMENT` followed by a numeric literal outside the range the
/// parser reads it into.
pub open spec fn spec_abort_at(ts: Seq<SqlToken>, i: int) -> bool {
    0 <= i < ts.len() && match ts[i] {
        SqlToken::Granted => {
            let j = spec_skip_space(ts, i + 1);
            j < ts.len() && ts[j] is By && {
                let k = spec_skip_space(ts, j + 1);
                k >= ts.len() || !spec_word_like(ts[k])
            }
        },
        SqlToken::Top => {
            let j = spec_skip_space(ts, i + 1);
            j < ts.len() && match ts[j] {
                SqlToken::Number(text) => !spec_fits_digits(text@, TOP_LITERAL_MAX as int),
                _ => false,
            }
        },
        SqlToken::AutoIncrement => {
            let j0 = spec_skip_space(ts, i + 1);
            let j = if j0 < ts.len() && (ts[j0] is Eq) {
                spec_skip_space(ts, j0 + 1)
            } else {
                j0
            };
            j < ts.len() && match ts[j] {
                SqlToken::Number(text) => !spec_fits_digits(
                    text@,
                    AUTO_INCREMENT_LITERAL_MAX as int,
                ),
                _ => false,
            }
        },
        _ => false,
    }
}

/// Whether any abort pattern occurs in the token sequence.
pub open spec fn spec_tokens_abort(ts: Seq<SqlToken>) -> bool {
    exists|i: int| 0 <= i < ts.len() && #[trigger] spec_abort_at(ts, i)
}

/// Whether the text would make the parser abort: its token stream holds an
/// abort pattern. A text the tokenizer refuses holds none (the parser then
/// fails before reading any statement).
pub open spec fn spec_sql_abort(sql: Seq<char>) -> bool {
    match spec_sql_tokens(sql) {
        Ok(ts) => spec_tokens_abort(ts),
        Err(()) => false,
    }
}

/// What sqlparser's `Parser::parse_sql` yields on a given text under the
/// SQLite dialect, read into the library's model: the statement views on
/// success, the error's display text on failure. The parse is a function of
/// the text alone.
pub uninterp spec fn spec_parse_sql(sql: Seq<char>) -> Result<Seq<StmtV>, Seq<char>>;

/// Relies on sqlparser's `BinaryOperator`: reads the operator kind.
#[verifier::external_body]
fn extract_op(op: &BinaryOperator) -> OpModel {
    match op {
        BinaryOperator::And => OpModel::And,
        BinaryOperator::Or => OpModel::Or,
        BinaryOperator::Eq => OpModel::Eq,
        _ => OpModel::Other,
    }
}

/// Relies on sqlparser's `Value`: reads the literal kinds the predicate
/// analyser accepts.
#[verifier::external_body]
fn extract_value(v: &Value) -> ExprModel {
    match v {
        Value::SingleQuotedString(s) => ExprModel::Lit(s.clone()),
        Value::DoubleQuotedString(s) => ExprModel::Lit(s.clone()),
        Value::NationalStringLiteral(s) => ExprModel::Lit(s.clone()),
        Value::Number(s, _) => ExprModel::Lit(s.clone()),
        Value::Placeholder(_) => ExprModel::Placeholder,
        _ => ExprModel::Opaque,
    }
}

/// Relies on sqlparser's `Expr`: reads one expression node into the model,
/// one arm per recognised variant.
#[verifier::external_body]
fn extract_expr(e: &Expr) -> ExprModel {
    match e {
        Expr::BinaryOp { left, op, right } => ExprModel::Binary { op: extract_op(op), left: extract_boxed(left), right: extract_boxed(right) },
        Expr::Nested(x) => ExprModel::Nested(extract_boxed(x)),
        Expr::Between { expr, low, high, .. } => ExprModel::Between { expr: extract_boxed(expr), low: extract_boxed(low), high: extract_boxed(high) },
        Expr::InList { expr, list, .. } => ExprModel::InList { expr: extract_boxed(expr), list: extract_exprs(list) },
        Expr::Tuple(xs) => ExprModel::Tuple(extract_exprs(xs)),
        _ => extract_expr_leaf(e),
    }
}

/// Relies on sqlparser's `Expr`: reads one boxed child expression.
#[verifier::external_body]
fn extract_boxed(e: &Expr) -> Box<ExprModel> {
    Box::new(extract_expr(e))
}

/// Relies on sqlparser's `Expr`: reads a list of expressions in order.
#[verifier::external_body]
fn extract_exprs(es: &Vec<Expr>) -> Vec<ExprModel> {
    es.iter().map(extract_expr).collect()
}

/// Relies on sqlparser's `Ident`: reads the bare name of each identifier.
#[verifier::external_body]
fn ident_values(is: &Vec<Ident>) -> Vec<String> {
    is.iter().map(|i: &Ident| i.value.clone()).collect()
}

/// Relies on sqlparser's `Expr`: reads the leaf shapes the analyser knows.
#[verifier::external_body]
fn extract_expr_leaf(e: &Expr) -> ExprModel {
    match e {
        Expr::Identifier(i) => ExprModel::Ident(i.value.clone()),
        Expr::CompoundIdentifier(is) => ExprModel::CompoundIdent(ident_values(is)),
        Expr::Value(v) => extract_value(v),
        _ => ExprModel::Opaque,
    }
}

/// Relies on sqlparser's `TableFactor`: reads a table's name parts and
/// alias, or a derived table's subquery; other kinds stay opaque.
#[verifier::external_body]
fn extract_factor(f: &TableFactor) -> FactorModel {
    match f {
        TableFactor::Table { name, alias, .. } => FactorModel::Table {
            parts: ident_values(&name.0),
            alias: alias.as_ref().map(|a: &TableAlias| a.name.value.clone()),
            alias_ident: alias.as_ref().map(|a: &TableAlias| a.name.clone()),
            handle: f.clone(),
        },
        TableFactor::Derived { subquery, .. } => FactorModel::Derived { subquery: Box::new(extract_query(subquery)), handle: f.clone() },
        _ => FactorModel::Leaf { handle: f.clone() },
    }
}

/// Relies on sqlparser's `TableWithJoins`: reads the relation and each
/// join's relation.
#[verifier::external_body]
fn extract_twj(t: &TableWithJoins) -> TwjModel {
    TwjModel {
        relation: extract_factor(&t.relation),
        joins: t.joins.iter().map(|j| extract_factor(&j.relation)).collect(),
        handle: t.clone(),
    }
}

/// Relies on sqlparser's `Select`: reads the FROM items and the selection.
#[verifier::external_body]
fn extract_select(s: &Select) -> SelectModel {
    SelectModel {
        from: s.from.iter().map(extract_twj).collect(),
        selection: s.selection.as_ref().map(extract_expr),
        handle: s.clone(),
    }
}

/// Relies on sqlparser's `SetExpr`: reads a select, a nested query or a set
/// operation; other bodies stay opaque.
#[verifier::external_body]
fn extract_set_expr(e: &SetExpr) -> SetExprModel {
    match e {
        SetExpr::Select(s) => SetExprModel::Select(Box::new(extract_select(s))),
        SetExpr::Query(q) => SetExprModel::Sub(Box::new(extract_query(q))),
        SetExpr::SetOperation { left, right, .. } => SetExprModel::SetOp(Box::new(extract_set_expr(left)), Box::new(extract_set_expr(right)), e.clone()),
        _ => SetExprModel::Leaf(e.clone()),
    }
}

/// Relies on sqlparser's `Query`: reads the WITH list and the body.
#[verifier::external_body]
fn extract_query(q: &Query) -> QueryModel {
    QueryModel {
        ctes: match &q.with {
            Some(w) => w.cte_tables.iter().map(|c| extract_query(&c.query)).collect(),
            None => Vec::new(),
        },
        body: extract_set_expr(&q.body),
        handle: q.clone(),
    }
}

/// Relies on sqlparser's `Statement`: a query is read into the model, any
/// other statement stays an opaque handle.
#[verifier::external_body]
fn extract_statement(s: &Statement) -> StatementModel {
    match s {
        Statement::Query(q) => StatementModel::Query(extract_query(q)),
        _ => StatementModel::Other(s.clone()),
    }
}

/// Relies on sqlparser's `Parser::parse_sql` under the SQLite dialect: the
/// result is a function of the SQL text alone; its statements are read into
/// the model, its error printed through its display form. The parser aborts
/// instead of erring on three reads — the identifier after `GRANTED BY`,
/// and the numeric literals after `TOP` and `AUTO_INCREMENT` beyond their
/// ranges — so texts holding those patterns are excluded here and screened
/// out by every caller.
#[verifier::external_body]
pub(crate) fn parse_sql_to_models(sql: &str) -> (r: Result<Vec<StatementModel>, String>)
    requires
        !spec_sql_abort(sql@),
    ensures
        r is Ok <==> spec_parse_sql(sql@) is Ok,
        (r matches Ok(v) ==> spec_parse_sql(sql@) matches Ok(sv) && stmts_view(v@) == sv),
        (r matches Err(e) ==> spec_parse_sql(sql@) matches Err(ev) && e@ == ev),
{
    match Parser::parse_sql(&SQLiteDialect {}, sql) {
        Ok(stmts) => Ok(stmts.iter().map(extract_statement).collect()),
        Err(e) => Err(format!("{}", e)),
    }
}

/// Relies on sqlparser's `Query` being a plain struct: puts the rewritten
/// CTE queries and body back onto the kept handle.
#[verifier::external_body]
fn rebuild_query(m: &QueryModel) -> Query {
    let mut q = m.handle.clone();
    if let Some(w) = q.with.as_mut() {
        for (c, cm) in w.cte_tables.iter_mut().zip(m.ctes.iter()) {
            c.query = Box::new(rebuild_query(cm));
        }
    }
    q.body = Box::new(rebuild_set_expr(&m.body));
    q
}

/// Relies on sqlparser's `SetExpr`: puts rewritten children back onto the
/// kept handle, one arm per variant.
#[verifier::external_body]
fn rebuild_set_expr(m: &SetExprModel) -> SetExpr {
    match m {
        SetExprModel::Select(s) => SetExpr::Select(Box::new(rebuild_select(s))),
        SetExprModel::Sub(q) => SetExpr::Query(Box::new(rebuild_query(q))),
        SetExprModel::SetOp(l, r, h) => {
            let mut e = h.clone();
            if let SetExpr::SetOperation { left, right, .. } = &mut e {
                *left = Box::new(rebuild_set_expr(l));
                *right = Box::new(rebuild_set_expr(r));
            }
            e
        },
        SetExprModel::Leaf(h) => h.clone(),
    }
}

/// Relies on sqlparser's `Select`: puts the rewritten FROM items back onto
/// the kept handle; every other clause stays as it was.
#[verifier::external_body]
fn rebuild_select(m: &SelectModel) -> Select {
    let mut s = m.handle.clone();
    s.from = m.from.iter().map(rebuild_twj).collect();
    s
}

/// Relies on sqlparser's `TableWithJoins`: puts the rewritten relation and
/// join relations back onto the kept handle.
#[verifier::external_body]
fn rebuild_twj(m: &TwjModel) -> TableWithJoins {
    let mut t = m.handle.clone();
    t.relation = rebuild_factor(&m.relation);
    for (j, jm) in t.joins.iter_mut().zip(m.joins.iter()) {
        j.relation = rebuild_factor(jm);
    }
    t
}

/// Relies on sqlparser's `TableFactor`: an untouched factor is its kept
/// handle; a routed one is rebuilt as a derived table.
#[verifier::external_body]
fn rebuild_factor(m: &FactorModel) -> TableFactor {
    match m {
        FactorModel::Table { handle, .. } => handle.clone(),
        FactorModel::Derived { handle, .. } => handle.clone(),
        FactorModel::Leaf { handle } => handle.clone(),
        FactorModel::Routed { subquery, alias_ident, alias_name, .. } => rebuild_routed(
            subquery,
            alias_ident,
            alias_name,
        ),
    }
}

/// Relies on sqlparser's `TableFactor::Derived` and `Ident::new`: wraps a
/// routed subquery as a derived table under the original alias, with LIMIT
/// and OFFSET cleared at the subquery boundary.
#[verifier::external_body]
fn rebuild_routed(
    subquery: &QueryModel,
    alias_ident: &Option<Ident>,
    alias_name: &String,
) -> TableFactor {
    let mut q = rebuild_query(subquery);
    q.limit = None;
    q.offset = None;
    let name = alias_ident.clone().unwrap_or_else(|| Ident::new(alias_name.as_str()));
    TableFactor::Derived {
        lateral: false,
        subquery: Box::new(q),
        alias: Some(TableAlias { name, columns: vec![] }),
    }
}

/// What printing a statement model yields: reconstruction around the kept
/// handles followed by sqlparser's display form, a function of the model
/// alone.
pub uninterp spec fn spec_render_stmt(m: StatementModel) -> Seq<char>;

/// Relies on sqlparser's display implementations: prints one statement,
/// rebuilding a rewritten query around its kept handles first; both steps
/// are functions of the model alone.
#[verifier::external_body]
pub(crate) fn render_statement(m: &StatementModel) -> (r: String)
    ensures
        r@ == spec_render_stmt(*m),
{
    match m {
        StatementModel::Query(q) => format!("{}", Statement::Query(Box::new(rebuild_query(q)))),
        StatementModel::Other(h) => format!("{}", h),
    }
}

} // verus!
