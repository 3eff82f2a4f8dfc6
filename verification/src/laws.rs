//! Laws of the traversal, proved over its specification mirror.
//!
//! Two families: a statement that references neither the state reader nor
//! any catalogued view passes through both phases unchanged; and wherever a
//! pass did not decline a reader reference, its output holds no bare
//! state-reader table factor at a traversed position.

use vstd::prelude::*;
use crate::model::{
    twjs_mention, twjs_traversed_reader,
    ExprV, FacV, QueryV, SelV, SetV, StmtV, TwjV, fac_mentions, fac_traversed_reader,
    facs_mention, facs_traversed_reader, qs_mention, qs_traversed_reader, qv_mentions,
    qv_traversed_reader, se_mentions, se_traversed_reader, sel_mentions, sel_traversed_reader,
    stmt_mentions, stmt_traversed_reader, stmts_mention, stmts_traversed_reader, sz_fac, sz_facs,
    sz_q, sz_qs, sz_se, sz_sel, sz_stmt, sz_stmts, sz_twj, sz_twjs, twj_mentions,
    twj_traversed_reader,
};
use crate::context::CtxV;
use crate::rewriter::{
    RewritePhase, StV, spec_rw_facs, spec_rw_factor, spec_rw_qs, spec_rw_query, spec_rw_sel,
    spec_rw_set, spec_rw_stmt, spec_rw_stmts, spec_rw_twj, spec_rw_twjs,
};

verus! {

// ---------------------------------------------------------------------------
// Unrelated input passes through unchanged: no mention of the state reader
// or a catalogued view at a traversed position means the traversal returns
// its input, reports no change, and leaves the accumulator, the resolver
// and the flags exactly as they were.

pub proof fn lemma_noop_factor(
    f: FacV,
    selection: Option<ExprV>,
    ctx: CtxV,
    phase: RewritePhase,
    st: StV,
    fuel: nat,
)
    requires
        !fac_mentions(f, ctx),
    ensures
        spec_rw_factor(f, selection, ctx, phase, st, fuel) == Ok::<_, crate::output::ErrV>(
            (f, false, st),
        ),
{
}

pub proof fn lemma_noop_facs(
    fs: Seq<FacV>,
    selection: Option<ExprV>,
    ctx: CtxV,
    phase: RewritePhase,
    st: StV,
    fuel: nat,
)
    requires
        !facs_mention(fs, ctx),
    ensures
        spec_rw_facs(fs, selection, ctx, phase, st, fuel) == Ok::<_, crate::output::ErrV>(
            (fs, false, st),
        ),
    decreases fs.len(),
{
    if fs.len() == 0 {
        assert(fs =~= Seq::<FacV>::empty());
    } else {
        lemma_noop_facs(fs.drop_last(), selection, ctx, phase, st, fuel);
        lemma_noop_factor(fs.last(), selection, ctx, phase, st, fuel);
        assert(fs.drop_last().push(fs.last()) =~= fs);
    }
}

pub proof fn lemma_noop_twj(
    t: TwjV,
    selection: Option<ExprV>,
    ctx: CtxV,
    phase: RewritePhase,
    st: StV,
    fuel: nat,
)
    requires
        !twj_mentions(t, ctx),
    ensures
        spec_rw_twj(t, selection, ctx, phase, st, fuel) == Ok::<_, crate::output::ErrV>(
            (t, false, st),
        ),
{
    lemma_noop_factor(t.relation, selection, ctx, phase, st, fuel);
    lemma_noop_facs(t.joins, selection, ctx, phase, st, fuel);
}

pub proof fn lemma_noop_twjs(
    ts: Seq<TwjV>,
    selection: Option<ExprV>,
    ctx: CtxV,
    phase: RewritePhase,
    st: StV,
    fuel: nat,
)
    requires
        !twjs_mention(ts, ctx),
    ensures
        spec_rw_twjs(ts, selection, ctx, phase, st, fuel) == Ok::<_, crate::output::ErrV>(
            (ts, false, st),
        ),
    decreases ts.len(),
{
    if ts.len() == 0 {
        assert(ts =~= Seq::<TwjV>::empty());
    } else {
        lemma_noop_twjs(ts.drop_last(), selection, ctx, phase, st, fuel);
        lemma_noop_twj(ts.last(), selection, ctx, phase, st, fuel);
        assert(ts.drop_last().push(ts.last()) =~= ts);
    }
}

pub proof fn lemma_noop_sel(s: SelV, ctx: CtxV, phase: RewritePhase, st: StV, fuel: nat)
    requires
        !sel_mentions(s, ctx),
    ensures
        spec_rw_sel(s, ctx, phase, st, fuel) == Ok::<_, crate::output::ErrV>((s, false, st)),
{
    lemma_noop_twjs(s.from, s.selection, ctx, phase, st, fuel);
    assert((SelV { from: s.from, selection: s.selection }) == s);
}

pub proof fn lemma_noop_set(e: SetV, ctx: CtxV, phase: RewritePhase, st: StV, fuel: nat)
    requires
        !se_mentions(e, ctx),
    ensures
        spec_rw_set(e, ctx, phase, st, fuel) == Ok::<_, crate::output::ErrV>((e, false, st)),
    decreases sz_se(e),
{
    match e {
        SetV::Select(s) => {
            lemma_noop_sel(*s, ctx, phase, st, fuel);
        },
        SetV::Sub(q) => {
            lemma_noop_query(*q, ctx, phase, st, fuel);
        },
        SetV::SetOp(l, r) => {
            lemma_noop_set(*l, ctx, phase, st, fuel);
            lemma_noop_set(*r, ctx, phase, st, fuel);
        },
        SetV::Leaf => {},
    }
}

pub proof fn lemma_noop_query(q: QueryV, ctx: CtxV, phase: RewritePhase, st: StV, fuel: nat)
    requires
        !qv_mentions(q, ctx),
    ensures
        spec_rw_query(q, ctx, phase, st, fuel) == Ok::<_, crate::output::ErrV>((q, false, st)),
    decreases sz_q(q),
{
    lemma_noop_qs(q.ctes, ctx, phase, st, fuel);
    lemma_noop_set(q.body, ctx, phase, st, fuel);
    assert((QueryV { ctes: q.ctes, body: q.body }) == q);
}

pub proof fn lemma_noop_qs(qs: Seq<QueryV>, ctx: CtxV, phase: RewritePhase, st: StV, fuel: nat)
    requires
        !qs_mention(qs, ctx),
    ensures
        spec_rw_qs(qs, ctx, phase, st, fuel) == Ok::<_, crate::output::ErrV>((qs, false, st)),
    decreases sz_qs(qs),
{
    if qs.len() == 0 {
        assert(qs =~= Seq::<QueryV>::empty());
    } else {
        lemma_noop_qs(qs.drop_last(), ctx, phase, st, fuel);
        lemma_noop_query(qs.last(), ctx, phase, st, fuel);
        assert(qs.drop_last().push(qs.last()) =~= qs);
    }
}

pub proof fn lemma_noop_stmt(s: StmtV, ctx: CtxV, phase: RewritePhase, st: StV, fuel: nat)
    requires
        !stmt_mentions(s, ctx),
    ensures
        spec_rw_stmt(s, ctx, phase, st, fuel) == Ok::<_, crate::output::ErrV>((s, false, st)),
{
    match s {
        StmtV::Query(q) => {
            lemma_noop_query(q, ctx, phase, st, fuel);
        },
        StmtV::Other => {},
    }
}

/// Statements that reference neither the state reader nor any catalogued
/// view pass through a whole phase unchanged, with no change reported and
/// the threaded state untouched.
pub proof fn lemma_noop_stmts(
    ss: Seq<StmtV>,
    ctx: CtxV,
    phase: RewritePhase,
    st: StV,
    fuel: nat,
)
    requires
        !stmts_mention(ss, ctx),
    ensures
        spec_rw_stmts(ss, ctx, phase, st, fuel) == Ok::<_, crate::output::ErrV>((ss, false, st)),
    decreases ss.len(),
{
    if ss.len() == 0 {
        assert(ss =~= Seq::<StmtV>::empty());
    } else {
        lemma_noop_stmts(ss.drop_last(), ctx, phase, st, fuel);
        lemma_noop_stmt(ss.last(), ctx, phase, st, fuel);
        assert(ss.drop_last().push(ss.last()) =~= ss);
    }
}

// ---------------------------------------------------------------------------
// Routing leaves no bare reader behind: the declined flag and the
// accumulator's inheritance flag are only ever raised, never cleared, and
// unless a reference was declined, the pass's output holds no bare
// state-reader table factor at a traversed position.

pub proof fn lemma_routed_factor(
    f: FacV,
    selection: Option<ExprV>,
    ctx: CtxV,
    phase: RewritePhase,
    st: StV,
    fuel: nat,
)
    ensures
        match spec_rw_factor(f, selection, ctx, phase, st, fuel) {
            Ok(o) => (st.declined ==> o.2.declined) && (st.acc.inh ==> o.2.acc.inh) && (
                !o.2.declined
                ==> !fac_traversed_reader(o.0)),
            Err(_) => true,
        },
    decreases fuel, sz_fac(f),
{
    match f {
        FacV::Table { parts, alias } => {
            if parts.len() == 0 {
            } else if crate::model::spec_is_reader_name(parts) {
            } else {
                match crate::context::spec_view_lookup(
                    ctx.views,
                    crate::text::spec_lower_seq(parts.last()),
                ) {
                    None => {},
                    Some(vsql) => {
                        if fuel == 0 {
                        } else {
                            match crate::rewriter::spec_parse_select_query(vsql) {
                                Err(_) => {},
                                Ok(qv) => {
                                    lemma_routed_query(qv, ctx, phase, st, (fuel - 1) as nat);
                                },
                            }
                        }
                    },
                }
            }
        },
        _ => {},
    }
}

pub proof fn lemma_routed_facs(
    fs: Seq<FacV>,
    selection: Option<ExprV>,
    ctx: CtxV,
    phase: RewritePhase,
    st: StV,
    fuel: nat,
)
    ensures
        match spec_rw_facs(fs, selection, ctx, phase, st, fuel) {
            Ok(o) => (st.declined ==> o.2.declined) && (st.acc.inh ==> o.2.acc.inh) && (
                !o.2.declined
                ==> !facs_traversed_reader(o.0)),
            Err(_) => true,
        },
    decreases fuel, sz_facs(fs),
{
    if fs.len() == 0 {
        assert(!facs_traversed_reader(Seq::<FacV>::empty()));
    } else {
        lemma_routed_facs(fs.drop_last(), selection, ctx, phase, st, fuel);
        match spec_rw_facs(fs.drop_last(), selection, ctx, phase, st, fuel) {
            Err(_) => {},
            Ok(pre) => {
                lemma_routed_factor(fs.last(), selection, ctx, phase, pre.2, fuel);
                match spec_rw_factor(fs.last(), selection, ctx, phase, pre.2, fuel) {
                    Err(_) => {},
                    Ok(lst) => {
                        assert(pre.0.push(lst.0).drop_last() =~= pre.0);
                        assert(pre.0.push(lst.0).last() == lst.0);
                    },
                }
            },
        }
    }
}

pub proof fn lemma_routed_twj(
    t: TwjV,
    selection: Option<ExprV>,
    ctx: CtxV,
    phase: RewritePhase,
    st: StV,
    fuel: nat,
)
    ensures
        match spec_rw_twj(t, selection, ctx, phase, st, fuel) {
            Ok(o) => (st.declined ==> o.2.declined) && (st.acc.inh ==> o.2.acc.inh) && (
                !o.2.declined
                ==> !twj_traversed_reader(o.0)),
            Err(_) => true,
        },
    decreases fuel, sz_twj(t),
{
    lemma_routed_factor(t.relation, selection, ctx, phase, st, fuel);
    match spec_rw_factor(t.relation, selection, ctx, phase, st, fuel) {
        Err(_) => {},
        Ok(rel) => {
            lemma_routed_facs(t.joins, selection, ctx, phase, rel.2, fuel);
        },
    }
}

pub proof fn lemma_routed_twjs(
    ts: Seq<TwjV>,
    selection: Option<ExprV>,
    ctx: CtxV,
    phase: RewritePhase,
    st: StV,
    fuel: nat,
)
    ensures
        match spec_rw_twjs(ts, selection, ctx, phase, st, fuel) {
            Ok(o) => (st.declined ==> o.2.declined) && (st.acc.inh ==> o.2.acc.inh) && (
                !o.2.declined
                ==> !twjs_traversed_reader(o.0)),
            Err(_) => true,
        },
    decreases fuel, sz_twjs(ts),
{
    if ts.len() == 0 {
        assert(!twjs_traversed_reader(Seq::<TwjV>::empty()));
    } else {
        lemma_routed_twjs(ts.drop_last(), selection, ctx, phase, st, fuel);
        match spec_rw_twjs(ts.drop_last(), selection, ctx, phase, st, fuel) {
            Err(_) => {},
            Ok(pre) => {
                lemma_routed_twj(ts.last(), selection, ctx, phase, pre.2, fuel);
                match spec_rw_twj(ts.last(), selection, ctx, phase, pre.2, fuel) {
                    Err(_) => {},
                    Ok(lst) => {
                        assert(pre.0.push(lst.0).drop_last() =~= pre.0);
                        assert(pre.0.push(lst.0).last() == lst.0);
                    },
                }
            },
        }
    }
}

pub proof fn lemma_routed_sel(s: SelV, ctx: CtxV, phase: RewritePhase, st: StV, fuel: nat)
    ensures
        match spec_rw_sel(s, ctx, phase, st, fuel) {
            Ok(o) => (st.declined ==> o.2.declined) && (st.acc.inh ==> o.2.acc.inh) && (
                !o.2.declined
                ==> !sel_traversed_reader(o.0)),
            Err(_) => true,
        },
    decreases fuel, sz_sel(s),
{
    lemma_routed_twjs(s.from, s.selection, ctx, phase, st, fuel);
}

pub proof fn lemma_routed_set(e: SetV, ctx: CtxV, phase: RewritePhase, st: StV, fuel: nat)
    ensures
        match spec_rw_set(e, ctx, phase, st, fuel) {
            Ok(o) => (st.declined ==> o.2.declined) && (st.acc.inh ==> o.2.acc.inh) && (
                !o.2.declined
                ==> !se_traversed_reader(o.0)),
            Err(_) => true,
        },
    decreases fuel, sz_se(e),
{
    match e {
        SetV::Select(s) => {
            lemma_routed_sel(*s, ctx, phase, st, fuel);
        },
        SetV::Sub(q) => {
            lemma_routed_query(*q, ctx, phase, st, fuel);
        },
        SetV::SetOp(l, r) => {
            lemma_routed_set(*l, ctx, phase, st, fuel);
            match spec_rw_set(*l, ctx, phase, st, fuel) {
                Err(_) => {},
                Ok(lx) => {
                    lemma_routed_set(*r, ctx, phase, lx.2, fuel);
                },
            }
        },
        SetV::Leaf => {},
    }
}

pub proof fn lemma_routed_query(q: QueryV, ctx: CtxV, phase: RewritePhase, st: StV, fuel: nat)
    ensures
        match spec_rw_query(q, ctx, phase, st, fuel) {
            Ok(o) => (st.declined ==> o.2.declined) && (st.acc.inh ==> o.2.acc.inh) && (
                !o.2.declined
                ==> !qv_traversed_reader(o.0)),
            Err(_) => true,
        },
    decreases fuel, sz_q(q),
{
    lemma_routed_qs(q.ctes, ctx, phase, st, fuel);
    match spec_rw_qs(q.ctes, ctx, phase, st, fuel) {
        Err(_) => {},
        Ok(cs) => {
            lemma_routed_set(q.body, ctx, phase, cs.2, fuel);
        },
    }
}

pub proof fn lemma_routed_qs(qs: Seq<QueryV>, ctx: CtxV, phase: RewritePhase, st: StV, fuel: nat)
    ensures
        match spec_rw_qs(qs, ctx, phase, st, fuel) {
            Ok(o) => (st.declined ==> o.2.declined) && (st.acc.inh ==> o.2.acc.inh) && (
                !o.2.declined
                ==> !qs_traversed_reader(o.0)),
            Err(_) => true,
        },
    decreases fuel, sz_qs(qs),
{
    if qs.len() == 0 {
        assert(!qs_traversed_reader(Seq::<QueryV>::empty()));
    } else {
        lemma_routed_qs(qs.drop_last(), ctx, phase, st, fuel);
        match spec_rw_qs(qs.drop_last(), ctx, phase, st, fuel) {
            Err(_) => {},
            Ok(pre) => {
                lemma_routed_query(qs.last(), ctx, phase, pre.2, fuel);
                match spec_rw_query(qs.last(), ctx, phase, pre.2, fuel) {
                    Err(_) => {},
                    Ok(lst) => {
                        assert(pre.0.push(lst.0).drop_last() =~= pre.0);
                        assert(pre.0.push(lst.0).last() == lst.0);
                    },
                }
            },
        }
    }
}

pub proof fn lemma_routed_stmt(s: StmtV, ctx: CtxV, phase: RewritePhase, st: StV, fuel: nat)
    ensures
        match spec_rw_stmt(s, ctx, phase, st, fuel) {
            Ok(o) => (st.declined ==> o.2.declined) && (st.acc.inh ==> o.2.acc.inh) && (
                !o.2.declined
                ==> !stmt_traversed_reader(o.0)),
            Err(_) => true,
        },
{
    match s {
        StmtV::Query(q) => {
            lemma_routed_query(q, ctx, phase, st, fuel);
        },
        StmtV::Other => {},
    }
}

/// Unless a pass declined a reader reference (two or more distinct schema
/// keys), its output statements hold no bare state-reader table factor at
/// any position the traversal reaches; the declined flag and the sticky
/// inheritance flag are never cleared along the way.
pub proof fn lemma_routed_stmts(
    ss: Seq<StmtV>,
    ctx: CtxV,
    phase: RewritePhase,
    st: StV,
    fuel: nat,
)
    ensures
        match spec_rw_stmts(ss, ctx, phase, st, fuel) {
            Ok(o) => (st.declined ==> o.2.declined) && (st.acc.inh ==> o.2.acc.inh) && (
                !o.2.declined
                ==> !stmts_traversed_reader(o.0)),
            Err(_) => true,
        },
    decreases ss.len(),
{
    if ss.len() == 0 {
        assert(!stmts_traversed_reader(Seq::<StmtV>::empty()));
    } else {
        lemma_routed_stmts(ss.drop_last(), ctx, phase, st, fuel);
        match spec_rw_stmts(ss.drop_last(), ctx, phase, st, fuel) {
            Err(_) => {},
            Ok(pre) => {
                lemma_routed_stmt(ss.last(), ctx, phase, pre.2, fuel);
                match spec_rw_stmt(ss.last(), ctx, phase, pre.2, fuel) {
                    Err(_) => {},
                    Ok(lst) => {
                        assert(pre.0.push(lst.0).drop_last() =~= pre.0);
                        assert(pre.0.push(lst.0).last() == lst.0);
                    },
                }
            },
        }
    }
}

} // verus!
