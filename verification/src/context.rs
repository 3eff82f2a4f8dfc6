//! The rewrite context: the set of shard tables known to exist, the view
//! catalogue, and the bound parameters, with the queries the rewriter asks
//! of them.

use vstd::prelude::*;
use crate::text::{
    spec_sorted_unique, spec_insert_sorted, insert_sorted_unique, spec_contains_str, contains_str,
    spec_lower_seq, lower_str, spec_trim, trimmed, str_eq,
};
use crate::branches::spec_cache_table_name;
use crate::branches::cache_table_name;

verus! {

/// The specification-level value of a rewrite context.
pub struct CtxV {
    pub table_cache: Option<Seq<Seq<char>>>,
    pub views: Seq<(Seq<char>, Seq<char>)>,
    pub parameters: Seq<Option<Seq<char>>>,
}

/// The caller-supplied fields exactly as the context JSON carried them,
/// before normalisation.
pub struct RawContext {
    /// Shard names; absent means every shard is assumed to exist.
    pub table_cache: Option<Vec<String>>,
    /// View name and SQL pairs, in the order the JSON object gave them.
    pub views: Vec<(String, String)>,
    /// Bound parameters, each already reduced to its literal string form.
    pub parameters: Vec<Option<String>>,
}

/// The rewrite context, immutable once built.
#[derive(Debug, Clone)]
pub struct RewriteContext {
    pub table_cache: Option<Vec<String>>,
    pub views: Vec<(String, String)>,
    pub parameters: Vec<Option<String>>,
}

pub open spec fn ctx_view(c: &RewriteContext) -> CtxV {
    CtxV {
        table_cache: match c.table_cache {
            Some(ref t) => Some(t.deep_view()),
            None => None,
        },
        views: c.views.deep_view(),
        parameters: c.parameters.deep_view(),
    }
}

pub open spec fn ctx_wf(c: &RewriteContext) -> bool {
    match ctx_view(c).table_cache {
        Some(t) => spec_sorted_unique(t),
        None => true,
    }
}

/// The shard names as a sorted duplicate-free sequence.
pub open spec fn spec_sorted_set(s: Seq<Seq<char>>) -> Seq<Seq<char>>
    decreases s.len(),
{
    if s.len() == 0 {
        Seq::empty()
    } else {
        spec_insert_sorted(spec_sorted_set(s.drop_last()), s.last())
    }
}

/// View-catalogue normalisation: names lower-cased, bodies trimmed, entries
/// with empty bodies dropped, order kept.
pub open spec fn spec_cook_views(vs: Seq<(Seq<char>, Seq<char>)>) -> Seq<(Seq<char>, Seq<char>)>
    decreases vs.len(),
{
    if vs.len() == 0 {
        Seq::empty()
    } else {
        let rest = spec_cook_views(vs.drop_last());
        let t = spec_trim(vs.last().1);
        if t.len() == 0 {
            rest
        } else {
            rest.push((spec_lower_seq(vs.last().0), t))
        }
    }
}

/// What a raw context becomes once normalised.
pub open spec fn spec_cooked(raw: CtxV) -> CtxV {
    CtxV {
        table_cache: match raw.table_cache {
            Some(t) => Some(spec_sorted_set(t)),
            None => None,
        },
        views: spec_cook_views(raw.views),
        parameters: raw.parameters,
    }
}

pub open spec fn raw_view(raw: &RawContext) -> CtxV {
    CtxV {
        table_cache: match raw.table_cache {
            Some(ref t) => Some(t.deep_view()),
            None => None,
        },
        views: raw.views.deep_view(),
        parameters: raw.parameters.deep_view(),
    }
}

proof fn lemma_sorted_set_sorted(s: Seq<Seq<char>>)
    ensures
        spec_sorted_unique(spec_sorted_set(s)),
    decreases s.len(),
{
    if s.len() == 0 {
        assert(spec_sorted_unique(Seq::<Seq<char>>::empty()));
    } else {
        lemma_sorted_set_sorted(s.drop_last());
        crate::text::lemma_insert_sorted_props(spec_sorted_set(s.drop_last()), s.last());
    }
}

impl RewriteContext {
    /// The empty context: no shard list (all assumed present), no views, no
    /// parameters.
    pub fn empty() -> (c: RewriteContext)
        ensures
            ctx_wf(&c),
            ctx_view(&c) == (CtxV {
                table_cache: None::<Seq<Seq<char>>>,
                views: Seq::<(Seq<char>, Seq<char>)>::empty(),
                parameters: Seq::<Option<Seq<char>>>::empty(),
            }),
    {
        let c = RewriteContext { table_cache: None, views: Vec::new(), parameters: Vec::new() };
        proof {
            assert(c.views.deep_view() =~= Seq::<(Seq<char>, Seq<char>)>::empty());
            assert(c.parameters.deep_view() =~= Seq::<Option<Seq<char>>>::empty());
        }
        c
    }

    /// Normalises a raw context: shard names become a sorted set, view names
    /// are lower-cased and their bodies trimmed, empty bodies dropped.
    pub fn from_raw(raw: RawContext) -> (c: RewriteContext)
        ensures
            ctx_wf(&c),
            ctx_view(&c) == spec_cooked(raw_view(&raw)),
    {
        let ghost rv = raw_view(&raw);
        let RawContext { table_cache, views, parameters } = raw;
        let cooked_cache: Option<Vec<String>> = match table_cache {
            Some(t) => {
                let ghost tdv = t.deep_view();
                let mut sorted: Vec<String> = Vec::new();
                proof {
                    assert(sorted.deep_view() =~= Seq::<Seq<char>>::empty());
                    assert(tdv.subrange(0, 0).len() == 0);
                }
                let mut i: usize = 0;
                while i < t.len()
                    invariant
                        tdv == t.deep_view(),
                        tdv.len() == t@.len(),
                        forall|j: int| 0 <= j < t@.len() ==> tdv[j] == t@[j]@,
                        i <= t@.len(),
                        spec_sorted_unique(sorted.deep_view()),
                        sorted.deep_view() == spec_sorted_set(tdv.subrange(0, i as int)),
                    decreases t@.len() - i,
                {
                    insert_sorted_unique(&mut sorted, t[i].clone());
                    i += 1;
                    proof {
                        let cur = tdv.subrange(0, i as int);
                        assert(cur.drop_last() =~= tdv.subrange(0, i - 1));
                        assert(cur.last() == tdv[i - 1]);
                    }
                }
                proof {
                    assert(tdv.subrange(0, tdv.len() as int) =~= tdv);
                }
                Some(sorted)
            },
            None => None,
        };
        let ghost vdv = views.deep_view();
        let mut cooked_views: Vec<(String, String)> = Vec::new();
        proof {
            assert(cooked_views.deep_view() =~= Seq::<(Seq<char>, Seq<char>)>::empty());
            assert(vdv.subrange(0, 0).len() == 0);
        }
        let mut i: usize = 0;
        while i < views.len()
            invariant
                vdv == views.deep_view(),
                vdv.len() == views@.len(),
                forall|j: int| 0 <= j < views@.len() ==> vdv[j] == views@[j].deep_view(),
                i <= views@.len(),
                cooked_views.deep_view() == spec_cook_views(vdv.subrange(0, i as int)),
            decreases views@.len() - i,
        {
            let name = lower_str(views[i].0.as_str());
            let body = trimmed(views[i].1.as_str());
            proof {
                assert(vdv[i as int] == (views@[i as int].0@, views@[i as int].1@));
            }
            if body.unicode_len() > 0 {
                cooked_views.push((name, body));
            }
            i += 1;
            proof {
                let cur = vdv.subrange(0, i as int);
                assert(cur.drop_last() =~= vdv.subrange(0, i - 1));
                assert(cur.last() == vdv[i - 1]);
                assert(cooked_views.deep_view() =~= spec_cook_views(cur));
            }
        }
        proof {
            assert(vdv.subrange(0, vdv.len() as int) =~= vdv);
        }
        let c = RewriteContext {
            table_cache: cooked_cache,
            views: cooked_views,
            parameters,
        };
        proof {
            match rv.table_cache {
                Some(t) => {
                    lemma_sorted_set_sorted(t);
                },
                None => {},
            }
        }
        c
    }

    /// Whether a rewrite for this schema key may read its shard: true when
    /// no shard list was given, else a membership test of the shard name.
    pub fn should_include_cache(&self, schema_key: &str) -> (r: bool)
        ensures
            r == spec_should_include_cache(ctx_view(self), schema_key@),
    {
        match &self.table_cache {
            Some(cache) => {
                let table_name = cache_table_name(schema_key);
                contains_str(cache, table_name.as_str())
            },
            None => true,
        }
    }

    /// Whether inheritance branches may be emitted: true when no shard list
    /// was given, else a membership test of the descriptor shard.
    pub fn should_include_inheritance(&self) -> (r: bool)
        ensures
            r == spec_should_include_inheritance(ctx_view(self)),
    {
        match &self.table_cache {
            Some(cache) => {
                let descriptor = cache_table_name("lix_version_descriptor");
                contains_str(cache, descriptor.as_str())
            },
            None => true,
        }
    }

    /// The known shard names, ascending; empty when no list was given.
    pub fn cache_tables(&self) -> (r: Vec<String>)
        ensures
            r.deep_view() == spec_cache_tables(ctx_view(self)),
    {
        match &self.table_cache {
            Some(cache) => {
                let mut out: Vec<String> = Vec::new();
                let mut i: usize = 0;
                while i < cache.len()
                    invariant
                        i <= cache@.len(),
                        out@.len() == i,
                        forall|j: int| 0 <= j < i ==> out@[j]@ == cache@[j]@,
                    decreases cache@.len() - i,
                {
                    out.push(cache[i].clone());
                    i += 1;
                }
                proof {
                    assert(out.deep_view() =~= cache.deep_view());
                }
                out
            },
            None => Vec::new(),
        }
    }

    /// Looks a table name up in the view catalogue, case-insensitively.
    pub fn view_sql(&self, table_name: &str) -> (r: Option<String>)
        ensures
            r.deep_view() == spec_view_lookup(ctx_view(self).views, spec_lower_seq(table_name@)),
    {
        let key = lower_str(table_name);
        let ghost vs = self.views.deep_view();
        proof {
            assert(vs.subrange(0, vs.len() as int) =~= vs);
        }
        let mut i: usize = 0;
        while i < self.views.len()
            invariant
                key@ == spec_lower_seq(table_name@),
                vs == self.views.deep_view(),
                vs.len() == self.views@.len(),
                forall|j: int| 0 <= j < self.views@.len()
                    ==> vs[j] == self.views@[j].deep_view(),
                i <= self.views@.len(),
                spec_view_lookup(vs, key@) == spec_view_lookup(
                    vs.subrange(i as int, vs.len() as int),
                    key@,
                ),
            decreases self.views@.len() - i,
        {
            proof {
                assert(vs[i as int] == (self.views@[i as int].0@, self.views@[i as int].1@));
                assert(vs.subrange(i as int, vs.len() as int)[0] == vs[i as int]);
            }
            if str_eq(self.views[i].0.as_str(), key.as_str()) {
                let r = Some(self.views[i].1.clone());
                proof {
                    let tail = vs.subrange(i as int, vs.len() as int);
                    assert(vs[i as int] == (self.views@[i as int].0@, self.views@[i as int].1@));
                    assert(tail[0] == vs[i as int]);
                    assert(tail[0].0 == key@);
                    assert(tail.len() > 0);
                    assert(spec_view_lookup(tail, key@) == Some(tail[0].1));
                    assert(spec_view_lookup(vs, key@) == Some(vs[i as int].1));
                    assert(r.deep_view() == Some(self.views@[i as int].1@));
                    assert(ctx_view(self).views == vs);
                    assert(key@ == spec_lower_seq(table_name@));
                }
                return r;
            }
            i += 1;
            proof {
                assert(vs.subrange(i - 1, vs.len() as int).drop_first()
                    =~= vs.subrange(i as int, vs.len() as int));
            }
        }
        proof {
            assert(vs.subrange(i as int, vs.len() as int).len() == 0);
        }
        None
    }

    /// The bound parameters, in source order.
    pub fn parameters(&self) -> (r: &Vec<Option<String>>)
        ensures
            r.deep_view() == ctx_view(self).parameters,
    {
        &self.parameters
    }
}

pub open spec fn spec_should_include_cache(c: CtxV, schema_key: Seq<char>) -> bool {
    match c.table_cache {
        Some(t) => spec_contains_str(t, spec_cache_table_name(schema_key)),
        None => true,
    }
}

pub open spec fn spec_should_include_inheritance(c: CtxV) -> bool {
    match c.table_cache {
        Some(t) => spec_contains_str(t, spec_cache_table_name("lix_version_descriptor"@)),
        None => true,
    }
}

pub open spec fn spec_cache_tables(c: CtxV) -> Seq<Seq<char>> {
    match c.table_cache {
        Some(t) => t,
        None => Seq::empty(),
    }
}

/// First match wins in the catalogue lookup.
pub open spec fn spec_view_lookup(
    vs: Seq<(Seq<char>, Seq<char>)>,
    key: Seq<char>,
) -> Option<Seq<char>>
    decreases vs.len(),
{
    if vs.len() == 0 {
        None
    } else if vs[0].0 == key {
        Some(vs[0].1)
    } else {
        spec_view_lookup(vs.drop_first(), key)
    }
}

} // verus!
