//! The predicate analyser: walks a selection expression and collects the
//! distinct literal values compared for equality to the discriminator
//! column `schema_key`, draining positional placeholders in source order as
//! it goes.

use vstd::prelude::*;
use crate::model::{ExprModel, ExprV, OpModel, expr_view, expr_views, sz_expr, sz_exprs,
    lemma_expr_views_index, lemma_expr_views_len, lemma_sz_exprs_index};
use crate::resolver::{PlaceholderResolver, RsvV, rsv_view, spec_resolve};
use crate::text::{spec_eq_ignore_case, eq_ignore_case, spec_contains_str, contains_str};

verus! {

/// Whether an expression is the discriminator column under the reader's
/// alias: the bare identifier, or the two-part form with a matching alias,
/// both case-insensitive.
pub open spec fn spec_matches_col(e: ExprV, alias: Seq<char>) -> bool {
    match e {
        ExprV::Ident(v) => spec_eq_ignore_case(v, "schema_key"@),
        ExprV::CompoundIdent(ids) => ids.len() == 2 && spec_eq_ignore_case(ids[1], "schema_key"@)
            && spec_eq_ignore_case(ids[0], alias),
        _ => false,
    }
}

/// The literal values one value-position expression yields, and the resolver
/// after it: quoted strings, numbers, a bound placeholder, the members of a
/// list, a parenthesised inner value; anything else yields none.
pub open spec fn spec_extract(e: ExprV, rs: RsvV) -> (Seq<Seq<char>>, RsvV)
    decreases sz_expr(e),
{
    match e {
        ExprV::Lit(s) => (seq![s], rs),
        ExprV::Placeholder => {
            let step = spec_resolve(rs);
            match step.1 {
                Some(s) => (seq![s], step.0),
                None => (Seq::empty(), step.0),
            }
        },
        ExprV::InList { list, .. } => spec_extract_list(list, rs),
        ExprV::Nested(x) => spec_extract(*x, rs),
        _ => (Seq::empty(), rs),
    }
}

pub open spec fn spec_extract_list(es: Seq<ExprV>, rs: RsvV) -> (Seq<Seq<char>>, RsvV)
    decreases sz_exprs(es),
{
    if es.len() == 0 {
        (Seq::empty(), rs)
    } else {
        let pre = spec_extract_list(es.drop_last(), rs);
        let lst = spec_extract(es.last(), pre.1);
        (pre.0 + lst.0, lst.1)
    }
}

/// The resolver after the placeholders of an expression were drained, in
/// source order; placeholders inside unrecognised shapes stay.
pub open spec fn spec_consume(e: ExprV, rs: RsvV) -> RsvV
    decreases sz_expr(e),
{
    match e {
        ExprV::Placeholder => spec_resolve(rs).0,
        ExprV::Binary { left, right, .. } => spec_consume(*right, spec_consume(*left, rs)),
        ExprV::Nested(x) => spec_consume(*x, rs),
        ExprV::Between { expr, low, high } => spec_consume(
            *high,
            spec_consume(*low, spec_consume(*expr, rs)),
        ),
        ExprV::InList { expr, list } => spec_consume_list(list, spec_consume(*expr, rs)),
        ExprV::Tuple(xs) => spec_consume_list(xs, rs),
        _ => rs,
    }
}

pub open spec fn spec_consume_list(es: Seq<ExprV>, rs: RsvV) -> RsvV
    decreases sz_exprs(es),
{
    if es.len() == 0 {
        rs
    } else {
        spec_consume(es.last(), spec_consume_list(es.drop_last(), rs))
    }
}

/// Adds one extracted value to the output: empty values are dropped, and a
/// value already present is not added again.
pub open spec fn spec_add(out: Seq<Seq<char>>, v: Seq<char>) -> Seq<Seq<char>> {
    if v.len() == 0 {
        out
    } else if spec_contains_str(out, v) {
        out
    } else {
        out.push(v)
    }
}

pub open spec fn spec_add_all(out: Seq<Seq<char>>, vs: Seq<Seq<char>>) -> Seq<Seq<char>>
    decreases vs.len(),
{
    if vs.len() == 0 {
        out
    } else {
        spec_add(spec_add_all(out, vs.drop_last()), vs.last())
    }
}

/// One analyser step over a selection expression: equality and IN forms on
/// the discriminator contribute their literals; conjunctions and
/// disjunctions recurse into both sides; only a BETWEEN's inner expression
/// contributes, its bounds merely drain; any other operator stops the
/// extraction on that branch but still drains its placeholders.
pub open spec fn spec_collect(
    e: ExprV,
    alias: Seq<char>,
    out: Seq<Seq<char>>,
    rs: RsvV,
) -> (Seq<Seq<char>>, RsvV)
    decreases sz_expr(e),
{
    match e {
        ExprV::Binary { op, left, right } => {
            if spec_matches_col(*left, alias) && op == OpModel::Eq {
                let got = spec_extract(*right, rs);
                (spec_add_all(out, got.0), got.1)
            } else if spec_matches_col(*right, alias) && op == OpModel::Eq {
                let got = spec_extract(*left, rs);
                (spec_add_all(out, got.0), got.1)
            } else if op == OpModel::And || op == OpModel::Or {
                let first = spec_collect(*left, alias, out, rs);
                spec_collect(*right, alias, first.0, first.1)
            } else {
                (out, spec_consume(*right, spec_consume(*left, rs)))
            }
        },
        ExprV::Nested(x) => spec_collect(*x, alias, out, rs),
        ExprV::Between { expr, low, high } => {
            let a = spec_collect(*expr, alias, out, rs);
            (a.0, spec_consume(*high, spec_consume(*low, a.1)))
        },
        ExprV::InList { expr, list } => {
            if spec_matches_col(*expr, alias) {
                let got = spec_extract_list(list, rs);
                (spec_add_all(out, got.0), got.1)
            } else {
                (out, spec_consume_list(list, spec_consume(*expr, rs)))
            }
        },
        _ => (out, spec_consume(e, rs)),
    }
}

/// Decides `spec_matches_col`.
pub fn matches_schema_column(e: &ExprModel, alias: &str) -> (r: bool)
    ensures
        r == spec_matches_col(expr_view(*e), alias@),
{
    match e {
        ExprModel::Ident(v) => eq_ignore_case(v.as_str(), "schema_key"),
        ExprModel::CompoundIdent(ids) => {
            if ids.len() != 2 {
                proof {
                    assert(ids.deep_view().len() == ids@.len());
                }
                return false;
            }
            proof {
                assert(ids.deep_view()[0] == ids@[0]@);
                assert(ids.deep_view()[1] == ids@[1]@);
            }
            eq_ignore_case(ids[1].as_str(), "schema_key") && eq_ignore_case(
                ids[0].as_str(),
                alias,
            )
        },
        _ => false,
    }
}

/// Extracts the literal values of one value-position expression, advancing
/// the resolver exactly as the analyser's specification says.
pub fn extract_literal_values(e: &ExprModel, resolver: &mut PlaceholderResolver) -> (r: Vec<
    String,
>)
    ensures
        ({
            let got = spec_extract(expr_view(*e), rsv_view(old(resolver)));
            r.deep_view() == got.0 && rsv_view(final(resolver)) == got.1
        }),
    decreases sz_expr(expr_view(*e)),
{
    match e {
        ExprModel::Lit(s) => {
            let mut r: Vec<String> = Vec::new();
            r.push(s.clone());
            proof {
                assert(r.deep_view() =~= seq![s@]);
            }
            r
        },
        ExprModel::Placeholder => {
            match resolver.resolve_next_string() {
                Some(s) => {
                    let mut r: Vec<String> = Vec::new();
                    r.push(s);
                    proof {
                        let got = spec_extract(expr_view(*e), rsv_view(old(resolver)));
                        assert(r.deep_view() =~= got.0);
                    }
                    r
                },
                None => {
                    let r: Vec<String> = Vec::new();
                    proof {
                        let got = spec_extract(expr_view(*e), rsv_view(old(resolver)));
                        assert(r.deep_view() =~= got.0);
                    }
                    r
                },
            }
        },
        ExprModel::InList { list, .. } => {
            let ghost lv = expr_views(list@);
            proof {
                lemma_expr_views_len(list@);
                assert(lv.subrange(0, 0).len() == 0);
            }
            let mut r: Vec<String> = Vec::new();
            proof {
                assert(r.deep_view() =~= Seq::<Seq<char>>::empty());
            }
            let mut i: usize = 0;
            while i < list.len()
                invariant
                    lv == expr_views(list@),
                    lv.len() == list@.len(),
                    i <= list@.len(),
                    sz_exprs(lv) < sz_expr(expr_view(*e)),
                    ({
                        let got = spec_extract_list(
                            lv.subrange(0, i as int),
                            rsv_view(old(resolver)),
                        );
                        r.deep_view() == got.0 && rsv_view(resolver) == got.1
                    }),
                decreases list@.len() - i,
            {
                proof {
                    lemma_expr_views_index(list@, i as int);
                    lemma_sz_exprs_index(lv, i as int);
                }
                let mut more = extract_literal_values(&list[i], resolver);
                r.append(&mut more);
                i += 1;
                proof {
                    let cur = lv.subrange(0, i as int);
                    assert(cur.drop_last() =~= lv.subrange(0, i - 1));
                    assert(cur.last() == lv[i - 1]);
                    assert(r.deep_view() =~= spec_extract_list(
                        cur,
                        rsv_view(old(resolver)),
                    ).0);
                }
            }
            proof {
                assert(lv.subrange(0, lv.len() as int) =~= lv);
            }
            r
        },
        ExprModel::Nested(x) => extract_literal_values(x, resolver),
        _ => {
            let r: Vec<String> = Vec::new();
            proof {
                assert(r.deep_view() =~= Seq::<Seq<char>>::empty());
            }
            r
        },
    }
}

/// Drains the placeholders of an expression without extracting values.
pub fn consume_placeholders(e: &ExprModel, resolver: &mut PlaceholderResolver)
    ensures
        rsv_view(final(resolver)) == spec_consume(expr_view(*e), rsv_view(old(resolver))),
    decreases sz_expr(expr_view(*e)),
{
    match e {
        ExprModel::Placeholder => {
            let _unused = resolver.resolve_next_string();
        },
        ExprModel::Binary { left, right, .. } => {
            consume_placeholders(left, resolver);
            consume_placeholders(right, resolver);
        },
        ExprModel::Nested(x) => {
            consume_placeholders(x, resolver);
        },
        ExprModel::Between { expr, low, high } => {
            consume_placeholders(expr, resolver);
            consume_placeholders(low, resolver);
            consume_placeholders(high, resolver);
        },
        ExprModel::InList { expr, list } => {
            consume_placeholders(expr, resolver);
            consume_expr_list(list, resolver);
        },
        ExprModel::Tuple(xs) => {
            consume_expr_list(xs, resolver);
        },
        _ => {},
    }
}

/// Drains the placeholders of a list of expressions, left to right.
fn consume_expr_list(es: &Vec<ExprModel>, resolver: &mut PlaceholderResolver)
    ensures
        rsv_view(final(resolver)) == spec_consume_list(
            expr_views(es@),
            rsv_view(old(resolver)),
        ),
    decreases sz_exprs(expr_views(es@)),
{
    let ghost lv = expr_views(es@);
    proof {
        lemma_expr_views_len(es@);
        assert(lv.subrange(0, 0).len() == 0);
    }
    let mut i: usize = 0;
    while i < es.len()
        invariant
            lv == expr_views(es@),
            lv.len() == es@.len(),
            i <= es@.len(),
            rsv_view(resolver) == spec_consume_list(
                lv.subrange(0, i as int),
                rsv_view(old(resolver)),
            ),
        decreases es@.len() - i,
    {
        proof {
            lemma_expr_views_index(es@, i as int);
            lemma_sz_exprs_index(lv, i as int);
        }
        consume_placeholders(&es[i], resolver);
        i += 1;
        proof {
            let cur = lv.subrange(0, i as int);
            assert(cur.drop_last() =~= lv.subrange(0, i - 1));
            assert(cur.last() == lv[i - 1]);
        }
    }
    proof {
        assert(lv.subrange(0, lv.len() as int) =~= lv);
    }
}

/// Adds extracted values to the output, dropping empties and duplicates.
fn add_values(output: &mut Vec<String>, values: Vec<String>)
    ensures
        final(output).deep_view() == spec_add_all(old(output).deep_view(), values.deep_view()),
{
    let ghost vv = values.deep_view();
    proof {
        assert(vv.subrange(0, 0).len() == 0);
    }
    let mut i: usize = 0;
    while i < values.len()
        invariant
            vv == values.deep_view(),
            vv.len() == values@.len(),
            forall|j: int| 0 <= j < values@.len() ==> vv[j] == values@[j]@,
            i <= values@.len(),
            output.deep_view() == spec_add_all(old(output).deep_view(), vv.subrange(0, i as int)),
        decreases values@.len() - i,
    {
        let keep = values[i].unicode_len() > 0 && !contains_str(output, values[i].as_str());
        if keep {
            output.push(values[i].clone());
        }
        i += 1;
        proof {
            let cur = vv.subrange(0, i as int);
            assert(cur.drop_last() =~= vv.subrange(0, i - 1));
            assert(cur.last() == vv[i - 1]);
            if keep {
                assert(output.deep_view() =~= spec_add_all(
                    old(output).deep_view(),
                    cur,
                ));
            }
        }
    }
    proof {
        assert(vv.subrange(0, vv.len() as int) =~= vv);
    }
}

/// One analyser step, mutating the output set and the resolver.
pub fn collect_schema_filters_recursive(
    e: &ExprModel,
    alias: &str,
    resolver: &mut PlaceholderResolver,
    output: &mut Vec<String>,
)
    ensures
        ({
            let got = spec_collect(
                expr_view(*e),
                alias@,
                old(output).deep_view(),
                rsv_view(old(resolver)),
            );
            final(output).deep_view() == got.0 && rsv_view(final(resolver)) == got.1
        }),
    decreases sz_expr(expr_view(*e)),
{
    match e {
        ExprModel::Binary { op, left, right } => {
            let left_is_col = matches_schema_column(left, alias);
            let right_is_col = matches_schema_column(right, alias);
            let is_eq = matches!(op, OpModel::Eq);
            let is_logical = matches!(op, OpModel::And | OpModel::Or);
            if left_is_col && is_eq {
                let values = extract_literal_values(right, resolver);
                add_values(output, values);
            } else if right_is_col && is_eq {
                let values = extract_literal_values(left, resolver);
                add_values(output, values);
            } else if is_logical {
                collect_schema_filters_recursive(left, alias, resolver, output);
                collect_schema_filters_recursive(right, alias, resolver, output);
            } else {
                consume_placeholders(left, resolver);
                consume_placeholders(right, resolver);
            }
        },
        ExprModel::Nested(x) => {
            collect_schema_filters_recursive(x, alias, resolver, output);
        },
        ExprModel::Between { expr, low, high } => {
            collect_schema_filters_recursive(expr, alias, resolver, output);
            consume_placeholders(low, resolver);
            consume_placeholders(high, resolver);
        },
        ExprModel::InList { expr, list } => {
            if matches_schema_column(expr, alias) {
                let ghost lv = expr_views(list@);
                proof {
                    lemma_expr_views_len(list@);
                    assert(lv.subrange(0, 0).len() == 0);
                }
                let mut i: usize = 0;
                while i < list.len()
                    invariant
                        lv == expr_views(list@),
                        lv.len() == list@.len(),
                        i <= list@.len(),
                        sz_exprs(lv) < sz_expr(expr_view(*e)),
                        ({
                            let got = spec_extract_list(
                                lv.subrange(0, i as int),
                                rsv_view(old(resolver)),
                            );
                            output.deep_view() == spec_add_all(old(output).deep_view(), got.0)
                                && rsv_view(resolver) == got.1
                        }),
                    decreases list@.len() - i,
                {
                    proof {
                        lemma_expr_views_index(list@, i as int);
                        lemma_sz_exprs_index(lv, i as int);
                    }
                    let values = extract_literal_values(&list[i], resolver);
                    add_values(output, values);
                    i += 1;
                    proof {
                        let cur = lv.subrange(0, i as int);
                        assert(cur.drop_last() =~= lv.subrange(0, i - 1));
                        assert(cur.last() == lv[i - 1]);
                        let pre = spec_extract_list(cur.drop_last(), rsv_view(old(resolver)));
                        let lst = spec_extract(cur.last(), pre.1);
                        lemma_add_all_append(old(output).deep_view(), pre.0, lst.0);
                    }
                }
                proof {
                    assert(lv.subrange(0, lv.len() as int) =~= lv);
                }
            } else {
                consume_placeholders(expr, resolver);
                consume_expr_list(list, resolver);
            }
        },
        ExprModel::Ident(_) => {
            proof {
                assert(spec_consume(expr_view(*e), rsv_view(old(resolver)))
                    == rsv_view(old(resolver)));
            }
        },
        ExprModel::CompoundIdent(_) => {
        },
        ExprModel::Lit(_) => {
        },
        ExprModel::Placeholder => {
            let _unused = resolver.resolve_next_string();
        },
        ExprModel::Tuple(xs) => {
            consume_expr_list(xs, resolver);
        },
        ExprModel::Opaque => {
        },
    }
}

proof fn lemma_add_all_append(out: Seq<Seq<char>>, a: Seq<Seq<char>>, b: Seq<Seq<char>>)
    ensures
        spec_add_all(out, a + b) == spec_add_all(spec_add_all(out, a), b),
    decreases b.len(),
{
    if b.len() == 0 {
        assert(a + b =~= a);
    } else {
        assert((a + b).drop_last() =~= a + b.drop_last());
        assert((a + b).last() == b.last());
        lemma_add_all_append(out, a, b.drop_last());
    }
}

/// Collects the distinct schema keys an enclosing SELECT's WHERE clause
/// compares the discriminator to, in first-appearance order, draining the
/// resolver along the walk.
pub fn collect_schema_filters(
    e: &ExprModel,
    alias: &str,
    resolver: &mut PlaceholderResolver,
) -> (r: Vec<String>)
    ensures
        ({
            let got = spec_collect(
                expr_view(*e),
                alias@,
                Seq::<Seq<char>>::empty(),
                rsv_view(old(resolver)),
            );
            r.deep_view() == got.0 && rsv_view(final(resolver)) == got.1
        }),
{
    let mut output: Vec<String> = Vec::new();
    proof {
        assert(output.deep_view() =~= Seq::<Seq<char>>::empty());
    }
    collect_schema_filters_recursive(e, alias, resolver, &mut output);
    output
}

} // verus!
