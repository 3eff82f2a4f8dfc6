//! The public operations: building a rewrite context from caller JSON, and
//! rewriting SQL under a context.

use vstd::prelude::*;
use crate::context::{CtxV, RewriteContext, ctx_view, ctx_wf, spec_cooked};
use crate::jsonio::{read_context, spec_read_context};
use crate::model::{StatementModel, StmtV, stmts_mention, stmts_view};
use crate::output::{
    AccV, ErrV, PayloadV, RewriteAccumulator, RewriteError, RewriteOutput, err_view, hints_view,
    spec_into_hints,
};
use crate::resolver::{PlaceholderResolver, RsvV};
use crate::rewriter::{
    RewritePhase, RewriteStats, StV, rewrite_statements, spec_rw_stmts, sql_aborts,
};
use crate::sqlio::{
    parse_sql_to_models, render_statement, spec_parse_sql, spec_render_stmt, spec_sql_abort,
};
use crate::text::spec_sorted_unique;
use crate::laws::lemma_noop_stmts;

verus! {

/// The decision-level outcome of one rewrite call: what both phases make
/// of the parsed statements, and the hints the full phase collects.
pub struct OutcomeV {
    pub expand_stmts: Seq<StmtV>,
    pub expanded_present: bool,
    pub full_stmts: Seq<StmtV>,
    pub full_changed: bool,
    pub hints: Option<PayloadV>,
    pub declined: bool,
}

/// The fresh threaded state both phases start from: an untouched
/// accumulator and a resolver at the first parameter.
pub open spec fn spec_fresh_state(cv: CtxV, expanded: bool, declined: bool) -> StV {
    StV {
        acc: AccV { touched: false, keys: Seq::empty(), inh: false },
        rs: RsvV { params: cv.parameters, pos: 0 },
        expanded,
        declined,
    }
}

/// What a rewrite call decides, as a function of the parsed statements and
/// the context: the expand-only pass runs first, the full pass second, the
/// expansion budget is the catalogue's size.
pub open spec fn spec_rewrite_outcome(sv: Seq<StmtV>, cv: CtxV) -> Result<OutcomeV, ErrV> {
    let fuel = cv.views.len() as nat;
    match spec_rw_stmts(sv, cv, RewritePhase::ExpandOnly, spec_fresh_state(cv, false, false), fuel) {
        Err(e) => Err(e),
        Ok(ex) => {
            match spec_rw_stmts(
                sv,
                cv,
                RewritePhase::Full,
                spec_fresh_state(cv, ex.2.expanded, ex.2.declined),
                fuel,
            ) {
                Err(e) => Err(e),
                Ok(fl) => Ok(OutcomeV {
                    expand_stmts: ex.0,
                    expanded_present: ex.1 && ex.2.expanded,
                    full_stmts: fl.0,
                    full_changed: fl.1,
                    hints: spec_into_hints(fl.2.acc),
                    declined: fl.2.declined,
                }),
            }
        },
    }
}

/// Builds a context from the caller's JSON. No JSON at all gives the empty
/// context; malformed JSON or a wrongly shaped field is a context-parse
/// error, and the caller's previous context stays whatever it was.
fn context_from_json(json: Option<&str>) -> (r: Result<RewriteContext, RewriteError>)
    ensures
        (r matches Ok(c) ==> ctx_wf(&c)),
        (r matches Err(e) ==> err_view(&e) is ContextParse),
        json is None ==> (r matches Ok(c) && ctx_view(&c) == (CtxV {
            table_cache: None::<Seq<Seq<char>>>,
            views: Seq::<(Seq<char>, Seq<char>)>::empty(),
            parameters: Seq::<Option<Seq<char>>>::empty(),
        })),
        (json matches Some(j) ==> match spec_read_context(j@) {
            Ok(rawv) => r matches Ok(c) && ctx_view(&c) == spec_cooked(rawv),
            Err(ev) => r matches Err(e) && err_view(&e) == ErrV::ContextParse(
                "Failed to parse rewrite context: "@ + ev,
            ),
        }),
{
    let raw = match json {
        None => {
            return Ok(RewriteContext::empty());
        },
        Some(raw) => raw,
    };
    match read_context(raw) {
        Ok(fields) => Ok(RewriteContext::from_raw(fields)),
        Err(message) => {
            let mut m = String::from_str("Failed to parse rewrite context: ");
            m.append(message.as_str());
            Err(RewriteError::ContextParse(m))
        },
    }
}

/// Parses the caller's context JSON into the context that should replace
/// the cached one. A missing argument resets to the empty context; on an
/// error the caller keeps its previous context.
pub fn set_rewrite_context(context_json: Option<&str>) -> (r: Result<
    RewriteContext,
    RewriteError,
>)
    ensures
        (r matches Ok(c) ==> ctx_wf(&c)),
        (r matches Err(e) ==> err_view(&e) is ContextParse),
        context_json is None ==> (r matches Ok(c) && ctx_view(&c) == (CtxV {
            table_cache: None::<Seq<Seq<char>>>,
            views: Seq::<(Seq<char>, Seq<char>)>::empty(),
            parameters: Seq::<Option<Seq<char>>>::empty(),
        })),
        (context_json matches Some(j) ==> match spec_read_context(j@) {
            Ok(rawv) => r matches Ok(c) && ctx_view(&c) == spec_cooked(rawv),
            Err(ev) => r matches Err(e) && err_view(&e) == ErrV::ContextParse(
                "Failed to parse rewrite context: "@ + ev,
            ),
        }),
{
    context_from_json(context_json)
}

/// What printing a script yields: the statements' prints joined by a
/// semicolon separator.
pub open spec fn spec_render_join(s: Seq<StatementModel>) -> Seq<char>
    decreases s.len(),
{
    if s.len() == 0 {
        Seq::empty()
    } else if s.len() == 1 {
        spec_render_stmt(s[0])
    } else {
        spec_render_join(s.drop_last()) + "; "@ + spec_render_stmt(s.last())
    }
}

/// Prints the statements, joined as one script.
fn render_join(stmts: &Vec<StatementModel>) -> (r: String)
    ensures
        r@ == spec_render_join(stmts@),
{
    let mut r = String::new();
    let mut i: usize = 0;
    proof {
        assert(stmts@.subrange(0, 0).len() == 0);
    }
    while i < stmts.len()
        invariant
            i <= stmts@.len(),
            r@ == spec_render_join(stmts@.subrange(0, i as int)),
        decreases stmts@.len() - i,
    {
        if i > 0 {
            r.append("; ");
        }
        r.append(render_statement(&stmts[i]).as_str());
        i += 1;
        proof {
            let cur = stmts@.subrange(0, i as int);
            assert(cur.drop_last() =~= stmts@.subrange(0, i - 1));
            assert(cur.last() == stmts@[i - 1]);
        }
    }
    proof {
        assert(stmts@.subrange(0, stmts@.len() as int) =~= stmts@);
    }
    r
}

/// What a rewrite result must look like for a given SQL text and context:
/// a text the parser would abort on is a parse error; anything else
/// follows the parse and the two-phase outcome, with the printed output
/// tied to the rewritten statements.
pub open spec fn spec_rewrite_obeys(
    sql: Seq<char>,
    cv: CtxV,
    r: Result<RewriteOutput, RewriteError>,
) -> bool {
    if spec_sql_abort(sql) {
        r matches Err(e) && err_view(&e) == ErrV::SqlParse(
            "SQL parse error: unsupported SQL construct"@,
        )
    } else {
        match spec_parse_sql(sql) {
            Err(pe) => r matches Err(e) && err_view(&e) == ErrV::SqlParse(
                "SQL parse error: "@ + pe,
            ),
            Ok(sv) => match spec_rewrite_outcome(sv, cv) {
                Err(me) => r matches Err(e) && err_view(&e) == me,
                Ok(oc) => r matches Ok(out) && {
                    &&& (out.expanded_sql is Some) == oc.expanded_present
                    &&& match out.cache_hints {
                        Some(h) => oc.hints is Some && hints_view(&h) == oc.hints,
                        None => oc.hints is None,
                    }
                    &&& (!oc.full_changed ==> out.sql@ == sql)
                    &&& (oc.full_changed ==> exists|ms: Seq<StatementModel>|
                        #[trigger] stmts_view(ms) == oc.full_stmts && out.sql@
                            == spec_render_join(ms))
                    &&& (match out.expanded_sql {
                        Some(es) => exists|ms: Seq<StatementModel>|
                            #[trigger] stmts_view(ms) == oc.expand_stmts && es@
                                == spec_render_join(ms),
                        None => true,
                    })
                    &&& (oc.hints matches Some(p) ==> spec_sorted_unique(p.keys))
                },
            },
        }
    }
}

/// Rewrites the SQL under an explicit context.
///
/// The decision level is pinned exactly: the cache hints, the change flags
/// and the rewritten statements' shapes are the spec outcome of the parsed
/// input and the context, so two calls on equal inputs decide equally. A
/// statement that references neither the state reader nor any catalogued
/// view comes back verbatim, with no expansion and no hints.
pub fn rewrite_sql_with_context(sql: &str, ctx: &RewriteContext) -> (r: Result<
    RewriteOutput,
    RewriteError,
>)
    requires
        ctx_wf(ctx),
    ensures
        spec_rewrite_obeys(sql@, ctx_view(ctx), r),
        !spec_sql_abort(sql@) && spec_parse_sql(sql@) is Ok && !stmts_mention(
            spec_parse_sql(sql@)->Ok_0,
            ctx_view(ctx),
        ) ==> (r matches Ok(out) && out.sql@ == sql@ && out.expanded_sql is None
            && out.cache_hints is None),
{
    if sql_aborts(sql) {
        return Err(
            RewriteError::SqlParse(
                String::from_str("SQL parse error: unsupported SQL construct"),
            ),
        );
    }
    let models_expand = match parse_sql_to_models(sql) {
        Ok(m) => m,
        Err(e) => {
            let mut m = String::from_str("SQL parse error: ");
            m.append(e.as_str());
            return Err(RewriteError::SqlParse(m));
        },
    };
    let models_full = match parse_sql_to_models(sql) {
        Ok(m) => m,
        Err(e) => {
            let mut m = String::from_str("SQL parse error: ");
            m.append(e.as_str());
            return Err(RewriteError::SqlParse(m));
        },
    };
    proof {
        let cv = ctx_view(ctx);
        let parsed = spec_parse_sql(sql@);
        if parsed is Ok && !stmts_mention(parsed->Ok_0, cv) {
            let sv = parsed->Ok_0;
            lemma_noop_stmts(
                sv,
                cv,
                RewritePhase::ExpandOnly,
                spec_fresh_state(cv, false, false),
                cv.views.len() as nat,
            );
            lemma_noop_stmts(
                sv,
                cv,
                RewritePhase::Full,
                spec_fresh_state(cv, false, false),
                cv.views.len() as nat,
            );
        }
    }
    let fuel = ctx.views.len();
    let mut stats = RewriteStats { expanded: false, declined: false };
    let mut noop_acc = RewriteAccumulator::new();
    let mut expand_resolver = PlaceholderResolver::new(ctx.parameters());
    let expand_result = match rewrite_statements(
        models_expand,
        ctx,
        RewritePhase::ExpandOnly,
        &mut noop_acc,
        &mut expand_resolver,
        &mut stats,
        fuel,
    ) {
        Ok(x) => x,
        Err(e) => {
            return Err(e);
        },
    };
    let (expanded_stmts, expanded_changed) = expand_result;
    let expanded_sql: Option<String> = if expanded_changed && stats.expanded {
        Some(render_join(&expanded_stmts))
    } else {
        None
    };
    let mut acc = RewriteAccumulator::new();
    let mut resolver = PlaceholderResolver::new(ctx.parameters());
    let full_result = match rewrite_statements(
        models_full,
        ctx,
        RewritePhase::Full,
        &mut acc,
        &mut resolver,
        &mut stats,
        fuel,
    ) {
        Ok(x) => x,
        Err(e) => {
            return Err(e);
        },
    };
    let (full_stmts, final_changed) = full_result;
    let output_sql = if final_changed {
        render_join(&full_stmts)
    } else {
        String::from_str(sql)
    };
    let cache_hints = acc.into_cache_hints();
    proof {
        assert(output_sql@ == spec_render_join(full_stmts@) || !final_changed);
        assert(stmts_view(full_stmts@) == stmts_view(full_stmts@));
        assert(stmts_view(expanded_stmts@) == stmts_view(expanded_stmts@));
        match expanded_sql {
            Some(ref es) => {
                assert(es@ == spec_render_join(expanded_stmts@));
            },
            None => {},
        }
    }
    Ok(RewriteOutput { sql: output_sql, expanded_sql, cache_hints })
}

/// Rewrites the SQL under the given per-call context JSON, or under the
/// cached context when no JSON is given; the cached context itself is
/// never touched. Either way the result obeys the rewrite's specification
/// under the context actually used.
pub fn rewrite_sql(sql: &str, context_json: Option<&str>, cached: &RewriteContext) -> (r: Result<
    RewriteOutput,
    RewriteError,
>)
    requires
        ctx_wf(cached),
    ensures
        context_json is None ==> spec_rewrite_obeys(sql@, ctx_view(cached), r),
        (context_json matches Some(j) ==> match spec_read_context(j@) {
            Ok(rawv) => spec_rewrite_obeys(sql@, spec_cooked(rawv), r),
            Err(ev) => r matches Err(e) && err_view(&e) == ErrV::ContextParse(
                "Failed to parse rewrite context: "@ + ev,
            ),
        }),
        context_json is None && !spec_sql_abort(sql@) && spec_parse_sql(sql@) is Ok
            && !stmts_mention(spec_parse_sql(sql@)->Ok_0, ctx_view(cached)) ==> (
        r matches Ok(out) && out.sql@ == sql@ && out.expanded_sql is None
            && out.cache_hints is None),
{
    match context_json {
        Some(json) => {
            let per_call = match context_from_json(Some(json)) {
                Ok(c) => c,
                Err(e) => {
                    return Err(e);
                },
            };
            rewrite_sql_with_context(sql, &per_call)
        },
        None => rewrite_sql_with_context(sql, cached),
    }
}

} // verus!
