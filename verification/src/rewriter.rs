//! The AST rewriter: walks parsed statements, expands catalogued views in
//! place, and replaces each recognised state-reader reference with the
//! derived union the branch builder emits.
//!
//! Every step is pinned by a specification mirror, so the whole pass is a
//! mathematical function of the parsed statements, the context and the
//! phase.

use vstd::prelude::*;
use crate::model::{
    ExprModel, ExprV, FacV, FactorModel, QueryModel, QueryV, SelV, SelectModel, SetExprModel,
    SetV, StatementModel, StmtV, TwjModel, TwjV, expr_view, fac_view, fac_views, is_reader_name,
    lemma_fac_views_len, lemma_q_views_len, lemma_stmts_view_index, lemma_stmts_view_len,
    lemma_twj_views_len, q_view, q_views, qv_contains_reader,
    query_contains_internal_state_reader, sel_view, se_view, spec_is_reader_name, stmt_view,
    stmts_view, sz_fac, sz_facs, sz_q, sz_qs, sz_se, sz_sel, sz_stmt, sz_stmts, sz_twj, sz_twjs,
    twj_view, twj_views,
};
use crate::context::{
    CtxV, RewriteContext, ctx_view, spec_cache_tables, spec_should_include_cache,
    spec_should_include_inheritance, spec_view_lookup,
};
use crate::output::{
    AccV, ErrV, RewriteAccumulator, RewriteError, acc_view, acc_wf, err_view, spec_touch,
    spec_touch_any,
};
use crate::resolver::{PlaceholderResolver, RsvV, rsv_view};
use crate::filters::{collect_schema_filters, spec_collect};
use crate::branches::{
    build_internal_state_reader_subquery, cache_table_name, spec_cache_table_name, spec_reader_subquery,
};
use crate::sqlio::{
    AUTO_INCREMENT_LITERAL_MAX, SqlToken, TOP_LITERAL_MAX, parse_sql_to_models, spec_abort_at,
    spec_parse_sql, spec_skip_space, spec_sql_abort, spec_tokens_abort, spec_word_like,
    sql_tokens,
};
use crate::text::{
    digits_fit, spec_lower_seq, spec_strip_semis_end, spec_trim, str_eq, strip_semis_end,
    to_chars, trim_chars, chars_string, trimmed,
};

verus! {

/// Which of the two traversals is running: the expand-only pass that yields
/// the fully view-inlined form, or the full pass that routes the reader and
/// records hints.
#[derive(Clone, Copy, PartialEq, Eq, Structural)]
pub enum RewritePhase {
    ExpandOnly,
    Full,
}

/// Per-call flags of the traversal.
pub struct RewriteStats {
    /// Whether any substitution was made that the expansion view shows.
    pub expanded: bool,
    /// Whether any state-reader reference was declined (two or more
    /// distinct schema keys extracted) and left in place.
    pub declined: bool,
}

/// The traversal's threaded state at the specification level.
pub struct StV {
    pub acc: AccV,
    pub rs: RsvV,
    pub expanded: bool,
    pub declined: bool,
}

pub open spec fn st_of(
    acc: &RewriteAccumulator,
    resolver: &PlaceholderResolver,
    stats: &RewriteStats,
) -> StV {
    StV {
        acc: acc_view(acc),
        rs: rsv_view(resolver),
        expanded: stats.expanded,
        declined: stats.declined,
    }
}

// ---------------------------------------------------------------------------
// The specification mirror.

/// Decides `spec_word_like`.
fn word_like(t: &SqlToken) -> (r: bool)
    ensures
        r == spec_word_like(*t),
{
    match t {
        SqlToken::Granted => true,
        SqlToken::By => true,
        SqlToken::Top => true,
        SqlToken::AutoIncrement => true,
        SqlToken::Word => true,
        SqlToken::Text => true,
        _ => false,
    }
}

/// Advances past whitespace tokens, as the parser's cursor does.
fn skip_spaces(ts: &Vec<SqlToken>, from: usize) -> (r: usize)
    requires
        from <= ts@.len(),
    ensures
        r as int == spec_skip_space(ts@, from as int),
        from <= r <= ts@.len(),
{
    let mut i = from;
    while i < ts.len() && matches!(ts[i], SqlToken::Space)
        invariant
            from <= i <= ts@.len(),
            spec_skip_space(ts@, from as int) == spec_skip_space(ts@, i as int),
        decreases ts@.len() - i,
    {
        i += 1;
    }
    i
}

/// Decides `spec_abort_at`: whether a parser abort pattern starts here.
fn abort_pattern_at(ts: &Vec<SqlToken>, i: usize) -> (r: bool)
    requires
        i < ts@.len(),
    ensures
        r == spec_abort_at(ts@, i as int),
{
    let n = ts.len();
    proof {
        assert(i < n);
    }
    match &ts[i] {
        SqlToken::Granted => {
            let j = skip_spaces(ts, i + 1);
            if j < ts.len() && matches!(ts[j], SqlToken::By) {
                let k = skip_spaces(ts, j + 1);
                if k >= ts.len() {
                    true
                } else {
                    !word_like(&ts[k])
                }
            } else {
                false
            }
        },
        SqlToken::Top => {
            let j = skip_spaces(ts, i + 1);
            if j < ts.len() {
                match &ts[j] {
                    SqlToken::Number(text) => !digits_fit(text.as_str(), TOP_LITERAL_MAX),
                    _ => false,
                }
            } else {
                false
            }
        },
        SqlToken::AutoIncrement => {
            let j0 = skip_spaces(ts, i + 1);
            let j = if j0 < ts.len() && matches!(ts[j0], SqlToken::Eq) {
                skip_spaces(ts, j0 + 1)
            } else {
                j0
            };
            if j < ts.len() {
                match &ts[j] {
                    SqlToken::Number(text) => !digits_fit(
                        text.as_str(),
                        AUTO_INCREMENT_LITERAL_MAX,
                    ),
                    _ => false,
                }
            } else {
                false
            }
        },
        _ => false,
    }
}

/// Decides `spec_sql_abort`: whether the text would make the parser abort.
/// Such texts never reach the parser; the caller reports a parse error for
/// them instead.
pub fn sql_aborts(sql: &str) -> (r: bool)
    ensures
        r == spec_sql_abort(sql@),
{
    let ts = match sql_tokens(sql) {
        Ok(ts) => ts,
        Err(()) => {
            return false;
        },
    };
    let ghost tv = ts@;
    let mut i: usize = 0;
    while i < ts.len()
        invariant
            tv == ts@,
            i <= tv.len(),
            spec_sql_abort(sql@) == spec_tokens_abort(tv),
            forall|j: int| 0 <= j < i ==> !#[trigger] spec_abort_at(tv, j),
        decreases tv.len() - i,
    {
        if abort_pattern_at(&ts, i) {
            proof {
                assert(spec_abort_at(tv, i as int));
            }
            return true;
        }
        i += 1;
    }
    proof {
        assert(!spec_tokens_abort(tv)) by {
            if spec_tokens_abort(tv) {
                let w = choose|w: int| 0 <= w < tv.len() && #[trigger] spec_abort_at(tv, w);
                assert(!spec_abort_at(tv, w));
            }
        }
    }
    false
}

/// What parsing a view body yields: the cleaned text's single query, or the
/// error the caller reports.
pub open spec fn spec_parse_select_query(sql: Seq<char>) -> Result<QueryV, ErrV> {
    let cleaned = spec_trim(spec_strip_semis_end(spec_trim(sql)));
    if cleaned.len() == 0 {
        Err(ErrV::SubqueryParse("View definition produced an empty query"@))
    } else if spec_sql_abort(cleaned) {
        Err(ErrV::SubqueryParse("Failed to parse view query: unsupported SQL construct"@))
    } else {
        match spec_parse_sql(cleaned) {
            Err(e) => Err(ErrV::SubqueryParse("Failed to parse view query: "@ + e)),
            Ok(sv) => {
                if sv.len() == 0 {
                    Err(ErrV::SubqueryParse("View definition did not contain a query"@))
                } else {
                    match sv[0] {
                        StmtV::Query(q) => Ok(q),
                        StmtV::Other => Err(
                            ErrV::SubqueryParse("View definition is not a SELECT query"@),
                        ),
                    }
                }
            },
        }
    }
}

/// The shard list of the any-schema form: the known shards without the
/// descriptor shard, order kept.
pub open spec fn spec_remove_descriptor(tables: Seq<Seq<char>>) -> Seq<Seq<char>>
    decreases tables.len(),
{
    if tables.len() == 0 {
        Seq::empty()
    } else {
        let rest = spec_remove_descriptor(tables.drop_last());
        if tables.last() == spec_cache_table_name("lix_version_descriptor"@) {
            rest
        } else {
            rest.push(tables.last())
        }
    }
}

/// One factor step of the traversal. A state-reader reference is routed
/// under its extracted schema keys, or declined on two and more; a
/// catalogued view is expanded under the remaining expansion budget; all
/// other factors stay.
pub open spec fn spec_rw_factor(
    f: FacV,
    selection: Option<ExprV>,
    ctx: CtxV,
    phase: RewritePhase,
    st: StV,
    fuel: nat,
) -> Result<(FacV, bool, StV), ErrV>
    decreases fuel, sz_fac(f),
{
    match f {
        FacV::Table { parts, alias } => {
            if parts.len() == 0 {
                Ok((f, false, st))
            } else {
                let alias_name = match alias {
                    Some(a) => a,
                    None => parts.last(),
                };
                if spec_is_reader_name(parts) {
                    let got = match selection {
                        Some(e) => spec_collect(e, alias_name, Seq::empty(), st.rs),
                        None => (Seq::empty(), st.rs),
                    };
                    let st2 = StV { rs: got.1, ..st };
                    let inh = spec_should_include_inheritance(ctx);
                    if got.0.len() == 0 {
                        let tables = spec_remove_descriptor(spec_cache_tables(ctx));
                        spec_route(None, tables, inh, alias_name, f, phase, st2)
                    } else if got.0.len() == 1 {
                        let key = got.0[0];
                        let tables: Seq<Seq<char>> = if spec_should_include_cache(ctx, key) {
                            seq![spec_cache_table_name(key)]
                        } else {
                            Seq::empty()
                        };
                        spec_route(Some(key), tables, inh, alias_name, f, phase, st2)
                    } else {
                        Ok((f, false, StV { declined: true, ..st2 }))
                    }
                } else {
                    match spec_view_lookup(ctx.views, spec_lower_seq(parts.last())) {
                        None => Ok((f, false, st)),
                        Some(vsql) => {
                            if fuel == 0 {
                                Ok((f, false, st))
                            } else {
                                match spec_parse_select_query(vsql) {
                                    Err(e) => Err(e),
                                    Ok(qv) => match spec_rw_query(
                                        qv,
                                        ctx,
                                        phase,
                                        st,
                                        (fuel - 1) as nat,
                                    ) {
                                        Err(e) => Err(e),
                                        Ok(inner) => {
                                            let references = qv_contains_reader(inner.0);
                                            let routed = FacV::Routed {
                                                subquery: Box::new(inner.0),
                                                alias: alias_name,
                                                generated: false,
                                            };
                                            if phase == RewritePhase::ExpandOnly {
                                                Ok((routed, true, StV { expanded: true, ..inner.2 }))
                                            } else if references {
                                                Ok((routed, true, StV { expanded: true, ..inner.2 }))
                                            } else {
                                                Ok((f, false, inner.2))
                                            }
                                        },
                                    },
                                }
                            }
                        },
                    }
                }
            }
        },
        _ => Ok((f, false, st)),
    }
}

/// Routing one reader reference: the branch builder's union is parsed into
/// a generated derived table, the accumulator is touched in the full phase,
/// and the expansion flag is raised in the expand-only phase.
pub open spec fn spec_route(
    key: Option<Seq<char>>,
    tables: Seq<Seq<char>>,
    inh: bool,
    alias_name: Seq<char>,
    f: FacV,
    phase: RewritePhase,
    st: StV,
) -> Result<(FacV, bool, StV), ErrV> {
    let sub_sql = spec_reader_subquery(key, tables, inh);
    match spec_parse_select_query(sub_sql) {
        Err(e) => Err(e),
        Ok(qv) => {
            let st3 = if phase == RewritePhase::Full {
                match key {
                    Some(k) => StV { acc: spec_touch(st.acc, k, inh), ..st },
                    None => StV { acc: spec_touch_any(st.acc, inh), ..st },
                }
            } else {
                StV { expanded: true, ..st }
            };
            Ok((
                FacV::Routed { subquery: Box::new(qv), alias: alias_name, generated: true },
                true,
                st3,
            ))
        },
    }
}

pub open spec fn spec_rw_facs(
    fs: Seq<FacV>,
    selection: Option<ExprV>,
    ctx: CtxV,
    phase: RewritePhase,
    st: StV,
    fuel: nat,
) -> Result<(Seq<FacV>, bool, StV), ErrV>
    decreases fuel, sz_facs(fs),
{
    if fs.len() == 0 {
        Ok((Seq::empty(), false, st))
    } else {
        match spec_rw_facs(fs.drop_last(), selection, ctx, phase, st, fuel) {
            Err(e) => Err(e),
            Ok(pre) => match spec_rw_factor(fs.last(), selection, ctx, phase, pre.2, fuel) {
                Err(e) => Err(e),
                Ok(lst) => Ok((pre.0.push(lst.0), pre.1 || lst.1, lst.2)),
            },
        }
    }
}

pub open spec fn spec_rw_twj(
    t: TwjV,
    selection: Option<ExprV>,
    ctx: CtxV,
    phase: RewritePhase,
    st: StV,
    fuel: nat,
) -> Result<(TwjV, bool, StV), ErrV>
    decreases fuel, sz_twj(t),
{
    match spec_rw_factor(t.relation, selection, ctx, phase, st, fuel) {
        Err(e) => Err(e),
        Ok(rel) => match spec_rw_facs(t.joins, selection, ctx, phase, rel.2, fuel) {
            Err(e) => Err(e),
            Ok(js) => Ok((TwjV { relation: rel.0, joins: js.0 }, rel.1 || js.1, js.2)),
        },
    }
}

pub open spec fn spec_rw_twjs(
    ts: Seq<TwjV>,
    selection: Option<ExprV>,
    ctx: CtxV,
    phase: RewritePhase,
    st: StV,
    fuel: nat,
) -> Result<(Seq<TwjV>, bool, StV), ErrV>
    decreases fuel, sz_twjs(ts),
{
    if ts.len() == 0 {
        Ok((Seq::empty(), false, st))
    } else {
        match spec_rw_twjs(ts.drop_last(), selection, ctx, phase, st, fuel) {
            Err(e) => Err(e),
            Ok(pre) => match spec_rw_twj(ts.last(), selection, ctx, phase, pre.2, fuel) {
                Err(e) => Err(e),
                Ok(lst) => Ok((pre.0.push(lst.0), pre.1 || lst.1, lst.2)),
            },
        }
    }
}

pub open spec fn spec_rw_sel(
    s: SelV,
    ctx: CtxV,
    phase: RewritePhase,
    st: StV,
    fuel: nat,
) -> Result<(SelV, bool, StV), ErrV>
    decreases fuel, sz_sel(s),
{
    match spec_rw_twjs(s.from, s.selection, ctx, phase, st, fuel) {
        Err(e) => Err(e),
        Ok(fr) => Ok((SelV { from: fr.0, selection: s.selection }, fr.1, fr.2)),
    }
}

pub open spec fn spec_rw_set(
    e: SetV,
    ctx: CtxV,
    phase: RewritePhase,
    st: StV,
    fuel: nat,
) -> Result<(SetV, bool, StV), ErrV>
    decreases fuel, sz_se(e),
{
    match e {
        SetV::Select(s) => match spec_rw_sel(*s, ctx, phase, st, fuel) {
            Err(er) => Err(er),
            Ok(x) => Ok((SetV::Select(Box::new(x.0)), x.1, x.2)),
        },
        SetV::Sub(q) => match spec_rw_query(*q, ctx, phase, st, fuel) {
            Err(er) => Err(er),
            Ok(x) => Ok((SetV::Sub(Box::new(x.0)), x.1, x.2)),
        },
        SetV::SetOp(l, r) => match spec_rw_set(*l, ctx, phase, st, fuel) {
            Err(er) => Err(er),
            Ok(lx) => match spec_rw_set(*r, ctx, phase, lx.2, fuel) {
                Err(er) => Err(er),
                Ok(rx) => Ok((
                    SetV::SetOp(Box::new(lx.0), Box::new(rx.0)),
                    lx.1 || rx.1,
                    rx.2,
                )),
            },
        },
        SetV::Leaf => Ok((e, false, st)),
    }
}

pub open spec fn spec_rw_query(
    q: QueryV,
    ctx: CtxV,
    phase: RewritePhase,
    st: StV,
    fuel: nat,
) -> Result<(QueryV, bool, StV), ErrV>
    decreases fuel, sz_q(q),
{
    match spec_rw_qs(q.ctes, ctx, phase, st, fuel) {
        Err(e) => Err(e),
        Ok(cs) => match spec_rw_set(q.body, ctx, phase, cs.2, fuel) {
            Err(e) => Err(e),
            Ok(b) => Ok((QueryV { ctes: cs.0, body: b.0 }, cs.1 || b.1, b.2)),
        },
    }
}

pub open spec fn spec_rw_qs(
    qs: Seq<QueryV>,
    ctx: CtxV,
    phase: RewritePhase,
    st: StV,
    fuel: nat,
) -> Result<(Seq<QueryV>, bool, StV), ErrV>
    decreases fuel, sz_qs(qs),
{
    if qs.len() == 0 {
        Ok((Seq::empty(), false, st))
    } else {
        match spec_rw_qs(qs.drop_last(), ctx, phase, st, fuel) {
            Err(e) => Err(e),
            Ok(pre) => match spec_rw_query(qs.last(), ctx, phase, pre.2, fuel) {
                Err(e) => Err(e),
                Ok(lst) => Ok((pre.0.push(lst.0), pre.1 || lst.1, lst.2)),
            },
        }
    }
}

pub open spec fn spec_rw_stmt(
    s: StmtV,
    ctx: CtxV,
    phase: RewritePhase,
    st: StV,
    fuel: nat,
) -> Result<(StmtV, bool, StV), ErrV>
    decreases fuel, sz_stmt(s),
{
    match s {
        StmtV::Query(q) => match spec_rw_query(q, ctx, phase, st, fuel) {
            Err(e) => Err(e),
            Ok(x) => Ok((StmtV::Query(x.0), x.1, x.2)),
        },
        StmtV::Other => Ok((s, false, st)),
    }
}

pub open spec fn spec_rw_stmts(
    ss: Seq<StmtV>,
    ctx: CtxV,
    phase: RewritePhase,
    st: StV,
    fuel: nat,
) -> Result<(Seq<StmtV>, bool, StV), ErrV>
    decreases fuel, sz_stmts(ss),
{
    if ss.len() == 0 {
        Ok((Seq::empty(), false, st))
    } else {
        match spec_rw_stmts(ss.drop_last(), ctx, phase, st, fuel) {
            Err(e) => Err(e),
            Ok(pre) => match spec_rw_stmt(ss.last(), ctx, phase, pre.2, fuel) {
                Err(e) => Err(e),
                Ok(lst) => Ok((pre.0.push(lst.0), pre.1 || lst.1, lst.2)),
            },
        }
    }
}

// ---------------------------------------------------------------------------
// The executable traversal.

/// Parses one view body (or a generated union) into a single query model:
/// the text is trimmed, trailing semicolons dropped, and the first and only
/// statement must be a query.
pub fn parse_select_query(sql: &str) -> (r: Result<QueryModel, RewriteError>)
    ensures
        ({
            let m = spec_parse_select_query(sql@);
            match r {
                Ok(q) => m matches Ok(qv) && q_view(q) == qv,
                Err(e) => m matches Err(me) && err_view(&e) == me,
            }
        }),
{
    let t1 = trimmed(sql);
    let v1 = to_chars(t1.as_str());
    let v2 = strip_semis_end(&v1);
    let v3 = trim_chars(&v2);
    let cleaned = chars_string(&v3);
    if cleaned.unicode_len() == 0 {
        return Err(
            RewriteError::SubqueryParse(
                String::from_str("View definition produced an empty query"),
            ),
        );
    }
    if sql_aborts(cleaned.as_str()) {
        return Err(
            RewriteError::SubqueryParse(
                String::from_str("Failed to parse view query: unsupported SQL construct"),
            ),
        );
    }
    match parse_sql_to_models(cleaned.as_str()) {
        Err(e) => {
            let mut m = String::from_str("Failed to parse view query: ");
            m.append(e.as_str());
            Err(RewriteError::SubqueryParse(m))
        },
        Ok(mut models) => {
            proof {
                lemma_stmts_view_len(models@);
            }
            if models.len() == 0 {
                return Err(
                    RewriteError::SubqueryParse(
                        String::from_str("View definition did not contain a query"),
                    ),
                );
            }
            proof {
                lemma_stmts_view_index(models@, 0);
            }
            let first = models.remove(0);
            match first {
                StatementModel::Query(q) => Ok(q),
                _ => Err(
                    RewriteError::SubqueryParse(
                        String::from_str("View definition is not a SELECT query"),
                    ),
                ),
            }
        },
    }
}

/// Drops the descriptor shard from the known-shard list, keeping order.
fn remove_descriptor(tables: Vec<String>) -> (r: Vec<String>)
    ensures
        r.deep_view() == spec_remove_descriptor(tables.deep_view()),
{
    let descriptor = cache_table_name("lix_version_descriptor");
    let ghost tv = tables.deep_view();
    proof {
        assert(tv.subrange(0, 0).len() == 0);
    }
    let mut out: Vec<String> = Vec::new();
    proof {
        assert(out.deep_view() =~= Seq::<Seq<char>>::empty());
    }
    let mut i: usize = 0;
    while i < tables.len()
        invariant
            descriptor@ == spec_cache_table_name("lix_version_descriptor"@),
            tv == tables.deep_view(),
            tv.len() == tables@.len(),
            forall|j: int| 0 <= j < tables@.len() ==> tv[j] == tables@[j]@,
            i <= tables@.len(),
            out.deep_view() == spec_remove_descriptor(tv.subrange(0, i as int)),
        decreases tables@.len() - i,
    {
        if !str_eq(tables[i].as_str(), descriptor.as_str()) {
            out.push(tables[i].clone());
        }
        i += 1;
        proof {
            let cur = tv.subrange(0, i as int);
            assert(cur.drop_last() =~= tv.subrange(0, i - 1));
            assert(cur.last() == tv[i - 1]);
            assert(out.deep_view() =~= spec_remove_descriptor(cur));
        }
    }
    proof {
        assert(tv.subrange(0, tv.len() as int) =~= tv);
    }
    out
}

/// Rewrites one table factor, as `spec_rw_factor` says.
#[verifier::rlimit(100)]
pub fn rewrite_table_factor(
    f: FactorModel,
    selection: &Option<ExprModel>,
    ctx: &RewriteContext,
    phase: RewritePhase,
    acc: &mut RewriteAccumulator,
    resolver: &mut PlaceholderResolver,
    stats: &mut RewriteStats,
    fuel: usize,
) -> (r: Result<(FactorModel, bool), RewriteError>)
    requires
        acc_wf(old(acc)),
    ensures
        acc_wf(final(acc)),
        ({
            let m = spec_rw_factor(
                fac_view(f),
                sel_opt_view(*selection),
                ctx_view(ctx),
                phase,
                st_of(old(acc), old(resolver), old(stats)),
                fuel as nat,
            );
            match r {
                Ok(p) => m matches Ok(mm) && fac_view(p.0) == mm.0 && p.1 == mm.1 && st_of(
                    final(acc),
                    final(resolver),
                    final(stats),
                ) == mm.2,
                Err(e) => m matches Err(me) && err_view(&e) == me,
            }
        }),
    decreases fuel, sz_fac(fac_view(f)), 1int,
{
    match f {
        FactorModel::Table { parts, alias, alias_ident, handle } => {
            proof {
                assert(parts.deep_view().len() == parts@.len());
            }
            if parts.len() == 0 {
                return Ok((
                    FactorModel::Table { parts, alias, alias_ident, handle },
                    false,
                ));
            }
            let alias_name: String = match &alias {
                Some(a) => a.clone(),
                None => parts[parts.len() - 1].clone(),
            };
            proof {
                assert(parts.deep_view()[parts@.len() - 1] == parts@[parts@.len() - 1]@);
            }
            if is_reader_name(&parts) {
                let filters: Vec<String> = match selection {
                    Some(e) => collect_schema_filters(e, alias_name.as_str(), resolver),
                    None => {
                        let empty_filters: Vec<String> = Vec::new();
                        proof {
                            assert(empty_filters.deep_view() =~= Seq::<Seq<char>>::empty());
                        }
                        empty_filters
                    },
                };
                proof {
                    assert(filters.deep_view().len() == filters@.len());
                }
                let inh = ctx.should_include_inheritance();
                if filters.len() == 0 {
                    let tables = remove_descriptor(ctx.cache_tables());
                    let sub_sql = build_internal_state_reader_subquery(None, &tables, inh);
                    match parse_select_query(sub_sql.as_str()) {
                        Err(e) => Err(e),
                        Ok(qm) => {
                            if matches!(phase, RewritePhase::Full) {
                                acc.touch_internal_state_reader_any(inh);
                            } else {
                                stats.expanded = true;
                            }
                            Ok((
                                FactorModel::Routed {
                                    subquery: Box::new(qm),
                                    alias_ident,
                                    alias_name,
                                    generated: true,
                                },
                                true,
                            ))
                        },
                    }
                } else if filters.len() == 1 {
                    proof {
                        assert(filters.deep_view()[0] == filters@[0]@);
                    }
                    let key = filters[0].clone();
                    let include_cache = ctx.should_include_cache(key.as_str());
                    let mut tables: Vec<String> = Vec::new();
                    proof {
                        assert(tables.deep_view() =~= Seq::<Seq<char>>::empty());
                    }
                    if include_cache {
                        tables.push(cache_table_name(key.as_str()));
                        proof {
                            assert(tables.deep_view() =~= seq![
                                spec_cache_table_name(key@),
                            ]);
                        }
                    }
                    let sub_sql = build_internal_state_reader_subquery(Some(&key), &tables, inh);
                    match parse_select_query(sub_sql.as_str()) {
                        Err(e) => Err(e),
                        Ok(qm) => {
                            if matches!(phase, RewritePhase::Full) {
                                acc.touch_internal_state_reader(key, inh);
                            } else {
                                stats.expanded = true;
                            }
                            Ok((
                                FactorModel::Routed {
                                    subquery: Box::new(qm),
                                    alias_ident,
                                    alias_name,
                                    generated: true,
                                },
                                true,
                            ))
                        },
                    }
                } else {
                    stats.declined = true;
                    Ok((
                        FactorModel::Table { parts, alias, alias_ident, handle },
                        false,
                    ))
                }
            } else {
                let looked = ctx.view_sql(parts[parts.len() - 1].as_str());
                match looked {
                    None => Ok((
                        FactorModel::Table { parts, alias, alias_ident, handle },
                        false,
                    )),
                    Some(view_sql) => {
                        if fuel == 0 {
                            return Ok((
                                FactorModel::Table { parts, alias, alias_ident, handle },
                                false,
                            ));
                        }
                        match parse_select_query(view_sql.as_str()) {
                            Err(e) => Err(e),
                            Ok(parsed) => {
                                match rewrite_query(
                                    parsed,
                                    ctx,
                                    phase,
                                    acc,
                                    resolver,
                                    stats,
                                    fuel - 1,
                                ) {
                                    Err(e) => Err(e),
                                    Ok(inner) => {
                                        let (inner_q, _inner_changed) = inner;
                                        let references = query_contains_internal_state_reader(
                                            &inner_q,
                                        );
                                        if matches!(phase, RewritePhase::ExpandOnly) {
                                            stats.expanded = true;
                                            Ok((
                                                FactorModel::Routed {
                                                    subquery: Box::new(inner_q),
                                                    alias_ident,
                                                    alias_name,
                                                    generated: false,
                                                },
                                                true,
                                            ))
                                        } else if references {
                                            stats.expanded = true;
                                            Ok((
                                                FactorModel::Routed {
                                                    subquery: Box::new(inner_q),
                                                    alias_ident,
                                                    alias_name,
                                                    generated: false,
                                                },
                                                true,
                                            ))
                                        } else {
                                            Ok((
                                                FactorModel::Table {
                                                    parts,
                                                    alias,
                                                    alias_ident,
                                                    handle,
                                                },
                                                false,
                                            ))
                                        }
                                    },
                                }
                            },
                        }
                    },
                }
            }
        },
        other => Ok((other, false)),
    }
}

pub open spec fn sel_opt_view(selection: Option<ExprModel>) -> Option<ExprV> {
    match selection {
        Some(e) => Some(expr_view(e)),
        None => None,
    }
}

/// Rewrites the joined factors of one FROM item, left to right.
#[verifier::rlimit(60)]
fn rewrite_factors(
    fs: Vec<FactorModel>,
    selection: &Option<ExprModel>,
    ctx: &RewriteContext,
    phase: RewritePhase,
    acc: &mut RewriteAccumulator,
    resolver: &mut PlaceholderResolver,
    stats: &mut RewriteStats,
    fuel: usize,
) -> (r: Result<(Vec<FactorModel>, bool), RewriteError>)
    requires
        acc_wf(old(acc)),
    ensures
        acc_wf(final(acc)),
        ({
            let m = spec_rw_facs(
                fac_views(fs@),
                sel_opt_view(*selection),
                ctx_view(ctx),
                phase,
                st_of(old(acc), old(resolver), old(stats)),
                fuel as nat,
            );
            match r {
                Ok(p) => m matches Ok(mm) && fac_views(p.0@) == mm.0 && p.1 == mm.1 && st_of(
                    final(acc),
                    final(resolver),
                    final(stats),
                ) == mm.2,
                Err(e) => m matches Err(me) && err_view(&e) == me,
            }
        }),
    decreases fuel, sz_facs(fac_views(fs@)), 2int,
{
    let mut fs = fs;
    if fs.len() == 0 {
        proof {
            assert(fac_views(fs@).len() == 0);
            assert(fac_views(Seq::<FactorModel>::empty()) =~= Seq::<FacV>::empty());
        }
        return Ok((fs, false));
    }
    let ghost orig = fs@;
    let ghost all = fac_views(fs@);
    let last = fs.pop().unwrap();
    proof {
        lemma_fac_views_len(fs@);
        assert(orig.drop_last() =~= fs@);
        assert(orig.last() == last);
        assert(all == fac_views(orig));
        assert(all == fac_views(orig.drop_last()).push(fac_view(orig.last())));
        assert(all == fac_views(fs@).push(fac_view(last)));
        assert(all.drop_last() =~= fac_views(fs@));
        assert(all.last() == fac_view(last));
        crate::model::lemma_sz_facs_index(all, all.len() - 1);
    }
    match rewrite_factors(fs, selection, ctx, phase, acc, resolver, stats, fuel) {
        Err(e) => Err(e),
        Ok(pre) => {
            let (mut out, ch1) = pre;
            match rewrite_table_factor(last, selection, ctx, phase, acc, resolver, stats, fuel) {
                Err(e) => Err(e),
                Ok(lst) => {
                    let (nf, ch2) = lst;
                    let ghost prevv = out@;
                    out.push(nf);
                    proof {
                        assert(out@.last() == nf);
                        assert(out@.drop_last() =~= prevv);
                        assert(fac_views(out@) == fac_views(prevv).push(fac_view(nf)));
                    }
                    Ok((out, ch1 || ch2))
                },
            }
        },
    }
}

/// Rewrites one FROM item: its relation, then each join's relation.
#[verifier::rlimit(60)]
pub fn rewrite_table_with_joins(
    t: TwjModel,
    selection: &Option<ExprModel>,
    ctx: &RewriteContext,
    phase: RewritePhase,
    acc: &mut RewriteAccumulator,
    resolver: &mut PlaceholderResolver,
    stats: &mut RewriteStats,
    fuel: usize,
) -> (r: Result<(TwjModel, bool), RewriteError>)
    requires
        acc_wf(old(acc)),
    ensures
        acc_wf(final(acc)),
        ({
            let m = spec_rw_twj(
                twj_view(t),
                sel_opt_view(*selection),
                ctx_view(ctx),
                phase,
                st_of(old(acc), old(resolver), old(stats)),
                fuel as nat,
            );
            match r {
                Ok(p) => m matches Ok(mm) && twj_view(p.0) == mm.0 && p.1 == mm.1 && st_of(
                    final(acc),
                    final(resolver),
                    final(stats),
                ) == mm.2,
                Err(e) => m matches Err(me) && err_view(&e) == me,
            }
        }),
    decreases fuel, sz_twj(twj_view(t)), 3int,
{
    let TwjModel { relation, joins, handle } = t;
    match rewrite_table_factor(relation, selection, ctx, phase, acc, resolver, stats, fuel) {
        Err(e) => Err(e),
        Ok(rel) => {
            let (new_rel, ch1) = rel;
            match rewrite_factors(joins, selection, ctx, phase, acc, resolver, stats, fuel) {
                Err(e) => Err(e),
                Ok(js) => {
                    let (new_joins, ch2) = js;
                    Ok((
                        TwjModel { relation: new_rel, joins: new_joins, handle },
                        ch1 || ch2,
                    ))
                },
            }
        },
    }
}

/// Rewrites the FROM items of one SELECT, left to right, each against the
/// SELECT's own WHERE clause.
#[verifier::rlimit(60)]
fn rewrite_twjs(
    ts: Vec<TwjModel>,
    selection: &Option<ExprModel>,
    ctx: &RewriteContext,
    phase: RewritePhase,
    acc: &mut RewriteAccumulator,
    resolver: &mut PlaceholderResolver,
    stats: &mut RewriteStats,
    fuel: usize,
) -> (r: Result<(Vec<TwjModel>, bool), RewriteError>)
    requires
        acc_wf(old(acc)),
    ensures
        acc_wf(final(acc)),
        ({
            let m = spec_rw_twjs(
                twj_views(ts@),
                sel_opt_view(*selection),
                ctx_view(ctx),
                phase,
                st_of(old(acc), old(resolver), old(stats)),
                fuel as nat,
            );
            match r {
                Ok(p) => m matches Ok(mm) && twj_views(p.0@) == mm.0 && p.1 == mm.1 && st_of(
                    final(acc),
                    final(resolver),
                    final(stats),
                ) == mm.2,
                Err(e) => m matches Err(me) && err_view(&e) == me,
            }
        }),
    decreases fuel, sz_twjs(twj_views(ts@)), 4int,
{
    let mut ts = ts;
    if ts.len() == 0 {
        proof {
            assert(twj_views(ts@).len() == 0);
        }
        return Ok((ts, false));
    }
    let ghost orig = ts@;
    let ghost all = twj_views(ts@);
    let last = ts.pop().unwrap();
    proof {
        lemma_twj_views_len(ts@);
        assert(orig.drop_last() =~= ts@);
        assert(orig.last() == last);
        assert(all == twj_views(orig));
        assert(all == twj_views(orig.drop_last()).push(twj_view(orig.last())));
        assert(all == twj_views(ts@).push(twj_view(last)));
        assert(all.drop_last() =~= twj_views(ts@));
        assert(all.last() == twj_view(last));
        crate::model::lemma_sz_twjs_index(all, all.len() - 1);
    }
    match rewrite_twjs(ts, selection, ctx, phase, acc, resolver, stats, fuel) {
        Err(e) => Err(e),
        Ok(pre) => {
            let (mut out, ch1) = pre;
            match rewrite_table_with_joins(
                last,
                selection,
                ctx,
                phase,
                acc,
                resolver,
                stats,
                fuel,
            ) {
                Err(e) => Err(e),
                Ok(lst) => {
                    let (nt, ch2) = lst;
                    let ghost prevv = out@;
                    out.push(nt);
                    proof {
                        assert(out@.last() == nt);
                        assert(out@.drop_last() =~= prevv);
                        assert(twj_views(out@) == twj_views(prevv).push(twj_view(nt)));
                    }
                    Ok((out, ch1 || ch2))
                },
            }
        },
    }
}

/// Rewrites one SELECT: every FROM item, against the SELECT's WHERE.
pub fn rewrite_select(
    s: SelectModel,
    ctx: &RewriteContext,
    phase: RewritePhase,
    acc: &mut RewriteAccumulator,
    resolver: &mut PlaceholderResolver,
    stats: &mut RewriteStats,
    fuel: usize,
) -> (r: Result<(SelectModel, bool), RewriteError>)
    requires
        acc_wf(old(acc)),
    ensures
        acc_wf(final(acc)),
        ({
            let m = spec_rw_sel(
                sel_view(s),
                ctx_view(ctx),
                phase,
                st_of(old(acc), old(resolver), old(stats)),
                fuel as nat,
            );
            match r {
                Ok(p) => m matches Ok(mm) && sel_view(p.0) == mm.0 && p.1 == mm.1 && st_of(
                    final(acc),
                    final(resolver),
                    final(stats),
                ) == mm.2,
                Err(e) => m matches Err(me) && err_view(&e) == me,
            }
        }),
    decreases fuel, sz_sel(sel_view(s)), 5int,
{
    let SelectModel { from, selection, handle } = s;
    match rewrite_twjs(from, &selection, ctx, phase, acc, resolver, stats, fuel) {
        Err(e) => Err(e),
        Ok(fr) => {
            let (new_from, ch) = fr;
            Ok((SelectModel { from: new_from, selection, handle }, ch))
        },
    }
}

/// Rewrites a query body: a select, a parenthesised query, or both sides of
/// a set operation; values and other bodies stay.
pub fn rewrite_set_expr(
    e: SetExprModel,
    ctx: &RewriteContext,
    phase: RewritePhase,
    acc: &mut RewriteAccumulator,
    resolver: &mut PlaceholderResolver,
    stats: &mut RewriteStats,
    fuel: usize,
) -> (r: Result<(SetExprModel, bool), RewriteError>)
    requires
        acc_wf(old(acc)),
    ensures
        acc_wf(final(acc)),
        ({
            let m = spec_rw_set(
                se_view(e),
                ctx_view(ctx),
                phase,
                st_of(old(acc), old(resolver), old(stats)),
                fuel as nat,
            );
            match r {
                Ok(p) => m matches Ok(mm) && se_view(p.0) == mm.0 && p.1 == mm.1 && st_of(
                    final(acc),
                    final(resolver),
                    final(stats),
                ) == mm.2,
                Err(e) => m matches Err(me) && err_view(&e) == me,
            }
        }),
    decreases fuel, sz_se(se_view(e)), 6int,
{
    match e {
        SetExprModel::Select(s) => {
            match rewrite_select(*s, ctx, phase, acc, resolver, stats, fuel) {
                Err(er) => Err(er),
                Ok(x) => {
                    let (ns, ch) = x;
                    Ok((SetExprModel::Select(Box::new(ns)), ch))
                },
            }
        },
        SetExprModel::Sub(q) => {
            match rewrite_query(*q, ctx, phase, acc, resolver, stats, fuel) {
                Err(er) => Err(er),
                Ok(x) => {
                    let (nq, ch) = x;
                    Ok((SetExprModel::Sub(Box::new(nq)), ch))
                },
            }
        },
        SetExprModel::SetOp(l, r, h) => {
            match rewrite_set_expr(*l, ctx, phase, acc, resolver, stats, fuel) {
                Err(er) => Err(er),
                Ok(lx) => {
                    let (nl, ch1) = lx;
                    match rewrite_set_expr(*r, ctx, phase, acc, resolver, stats, fuel) {
                        Err(er) => Err(er),
                        Ok(rx) => {
                            let (nr, ch2) = rx;
                            Ok((
                                SetExprModel::SetOp(Box::new(nl), Box::new(nr), h),
                                ch1 || ch2,
                            ))
                        },
                    }
                },
            }
        },
        SetExprModel::Leaf(h) => Ok((SetExprModel::Leaf(h), false)),
    }
}

/// Rewrites one query: its WITH CTEs first, then its body.
pub fn rewrite_query(
    q: QueryModel,
    ctx: &RewriteContext,
    phase: RewritePhase,
    acc: &mut RewriteAccumulator,
    resolver: &mut PlaceholderResolver,
    stats: &mut RewriteStats,
    fuel: usize,
) -> (r: Result<(QueryModel, bool), RewriteError>)
    requires
        acc_wf(old(acc)),
    ensures
        acc_wf(final(acc)),
        ({
            let m = spec_rw_query(
                q_view(q),
                ctx_view(ctx),
                phase,
                st_of(old(acc), old(resolver), old(stats)),
                fuel as nat,
            );
            match r {
                Ok(p) => m matches Ok(mm) && q_view(p.0) == mm.0 && p.1 == mm.1 && st_of(
                    final(acc),
                    final(resolver),
                    final(stats),
                ) == mm.2,
                Err(e) => m matches Err(me) && err_view(&e) == me,
            }
        }),
    decreases fuel, sz_q(q_view(q)), 7int,
{
    let QueryModel { ctes, body, handle } = q;
    match rewrite_ctes(ctes, ctx, phase, acc, resolver, stats, fuel) {
        Err(e) => Err(e),
        Ok(cs) => {
            let (new_ctes, ch1) = cs;
            match rewrite_set_expr(body, ctx, phase, acc, resolver, stats, fuel) {
                Err(e) => Err(e),
                Ok(b) => {
                    let (new_body, ch2) = b;
                    Ok((
                        QueryModel { ctes: new_ctes, body: new_body, handle },
                        ch1 || ch2,
                    ))
                },
            }
        },
    }
}

/// Rewrites the CTE queries of a WITH clause, left to right.
#[verifier::rlimit(60)]
fn rewrite_ctes(
    qs: Vec<QueryModel>,
    ctx: &RewriteContext,
    phase: RewritePhase,
    acc: &mut RewriteAccumulator,
    resolver: &mut PlaceholderResolver,
    stats: &mut RewriteStats,
    fuel: usize,
) -> (r: Result<(Vec<QueryModel>, bool), RewriteError>)
    requires
        acc_wf(old(acc)),
    ensures
        acc_wf(final(acc)),
        ({
            let m = spec_rw_qs(
                q_views(qs@),
                ctx_view(ctx),
                phase,
                st_of(old(acc), old(resolver), old(stats)),
                fuel as nat,
            );
            match r {
                Ok(p) => m matches Ok(mm) && q_views(p.0@) == mm.0 && p.1 == mm.1 && st_of(
                    final(acc),
                    final(resolver),
                    final(stats),
                ) == mm.2,
                Err(e) => m matches Err(me) && err_view(&e) == me,
            }
        }),
    decreases fuel, sz_qs(q_views(qs@)), 8int,
{
    let mut qs = qs;
    if qs.len() == 0 {
        proof {
            assert(q_views(qs@).len() == 0);
        }
        return Ok((qs, false));
    }
    let ghost orig = qs@;
    let ghost all = q_views(qs@);
    let last = qs.pop().unwrap();
    proof {
        lemma_q_views_len(qs@);
        assert(orig.drop_last() =~= qs@);
        assert(orig.last() == last);
        assert(all == q_views(orig));
        assert(all == q_views(orig.drop_last()).push(q_view(orig.last())));
        assert(all == q_views(qs@).push(q_view(last)));
        assert(all.drop_last() =~= q_views(qs@));
        assert(all.last() == q_view(last));
        crate::model::lemma_sz_qs_index(all, all.len() - 1);
    }
    match rewrite_ctes(qs, ctx, phase, acc, resolver, stats, fuel) {
        Err(e) => Err(e),
        Ok(pre) => {
            let (mut out, ch1) = pre;
            match rewrite_query(last, ctx, phase, acc, resolver, stats, fuel) {
                Err(e) => Err(e),
                Ok(lst) => {
                    let (nq, ch2) = lst;
                    let ghost prevv = out@;
                    out.push(nq);
                    proof {
                        assert(out@.last() == nq);
                        assert(out@.drop_last() =~= prevv);
                        assert(q_views(out@) == q_views(prevv).push(q_view(nq)));
                    }
                    Ok((out, ch1 || ch2))
                },
            }
        },
    }
}

/// Rewrites one statement: only queries are traversed.
pub fn rewrite_statement(
    s: StatementModel,
    ctx: &RewriteContext,
    phase: RewritePhase,
    acc: &mut RewriteAccumulator,
    resolver: &mut PlaceholderResolver,
    stats: &mut RewriteStats,
    fuel: usize,
) -> (r: Result<(StatementModel, bool), RewriteError>)
    requires
        acc_wf(old(acc)),
    ensures
        acc_wf(final(acc)),
        ({
            let m = spec_rw_stmt(
                stmt_view(s),
                ctx_view(ctx),
                phase,
                st_of(old(acc), old(resolver), old(stats)),
                fuel as nat,
            );
            match r {
                Ok(p) => m matches Ok(mm) && stmt_view(p.0) == mm.0 && p.1 == mm.1 && st_of(
                    final(acc),
                    final(resolver),
                    final(stats),
                ) == mm.2,
                Err(e) => m matches Err(me) && err_view(&e) == me,
            }
        }),
    decreases fuel, sz_stmt(stmt_view(s)), 9int,
{
    match s {
        StatementModel::Query(q) => {
            match rewrite_query(q, ctx, phase, acc, resolver, stats, fuel) {
                Err(e) => Err(e),
                Ok(x) => {
                    let (nq, ch) = x;
                    Ok((StatementModel::Query(nq), ch))
                },
            }
        },
        other => Ok((other, false)),
    }
}

/// Rewrites every statement of a call, left to right, under one threaded
/// accumulator and resolver.
#[verifier::rlimit(60)]
pub fn rewrite_statements(
    ss: Vec<StatementModel>,
    ctx: &RewriteContext,
    phase: RewritePhase,
    acc: &mut RewriteAccumulator,
    resolver: &mut PlaceholderResolver,
    stats: &mut RewriteStats,
    fuel: usize,
) -> (r: Result<(Vec<StatementModel>, bool), RewriteError>)
    requires
        acc_wf(old(acc)),
    ensures
        acc_wf(final(acc)),
        ({
            let m = spec_rw_stmts(
                stmts_view(ss@),
                ctx_view(ctx),
                phase,
                st_of(old(acc), old(resolver), old(stats)),
                fuel as nat,
            );
            match r {
                Ok(p) => m matches Ok(mm) && stmts_view(p.0@) == mm.0 && p.1 == mm.1 && st_of(
                    final(acc),
                    final(resolver),
                    final(stats),
                ) == mm.2,
                Err(e) => m matches Err(me) && err_view(&e) == me,
            }
        }),
    decreases fuel, sz_stmts(stmts_view(ss@)), 10int,
{
    let mut ss = ss;
    if ss.len() == 0 {
        proof {
            assert(stmts_view(ss@).len() == 0);
        }
        return Ok((ss, false));
    }
    let ghost orig = ss@;
    let ghost all = stmts_view(ss@);
    let last = ss.pop().unwrap();
    proof {
        lemma_stmts_view_len(ss@);
        assert(orig.drop_last() =~= ss@);
        assert(orig.last() == last);
        assert(all == stmts_view(orig));
        assert(all == stmts_view(orig.drop_last()).push(stmt_view(orig.last())));
        assert(all == stmts_view(ss@).push(stmt_view(last)));
        assert(all.drop_last() =~= stmts_view(ss@));
        assert(all.last() == stmt_view(last));
    }
    match rewrite_statements(ss, ctx, phase, acc, resolver, stats, fuel) {
        Err(e) => Err(e),
        Ok(pre) => {
            let (mut out, ch1) = pre;
            match rewrite_statement(last, ctx, phase, acc, resolver, stats, fuel) {
                Err(e) => Err(e),
                Ok(lst) => {
                    let (ns, ch2) = lst;
                    let ghost prevv = out@;
                    out.push(ns);
                    proof {
                        assert(out@.last() == ns);
                        assert(out@.drop_last() =~= prevv);
                        assert(stmts_view(out@) == stmts_view(prevv).push(stmt_view(ns)));
                    }
                    Ok((out, ch1 || ch2))
                },
            }
        },
    }
}

} // verus!
