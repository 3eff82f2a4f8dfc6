//! The placeholder resolver: a single-pass cursor over the context's bound
//! parameters. Each placeholder consumes exactly one parameter; exhausting
//! the parameters yields no value, as does a parameter that was not a JSON
//! scalar.

use vstd::prelude::*;

verus! {

/// The specification-level state of a resolver.
pub struct RsvV {
    pub params: Seq<Option<Seq<char>>>,
    pub pos: int,
}

/// A cursor over the bound parameters, already reduced to their literal
/// string forms (`None` for a value that yields no literal).
pub struct PlaceholderResolver {
    pub parameters: Vec<Option<String>>,
    pub position: usize,
}

pub open spec fn rsv_view(r: &PlaceholderResolver) -> RsvV {
    RsvV { params: r.parameters.deep_view(), pos: r.position as int }
}

/// One resolver step: at the end of the parameters nothing changes and no
/// value comes back; otherwise the cursor advances and the parameter at the
/// old position is the result.
pub open spec fn spec_resolve(v: RsvV) -> (RsvV, Option<Seq<char>>) {
    if v.pos < 0 || v.pos >= v.params.len() {
        (v, None)
    } else {
        (RsvV { params: v.params, pos: v.pos + 1 }, v.params[v.pos])
    }
}

impl PlaceholderResolver {
    pub fn new(parameters: &Vec<Option<String>>) -> (r: PlaceholderResolver)
        ensures
            rsv_view(&r) == (RsvV { params: parameters.deep_view(), pos: 0int }),
    {
        let mut copy: Vec<Option<String>> = Vec::new();
        let mut i: usize = 0;
        while i < parameters.len()
            invariant
                i <= parameters@.len(),
                copy@.len() == i,
                forall|j: int| 0 <= j < i ==> copy@[j].deep_view()
                    == parameters@[j].deep_view(),
            decreases parameters@.len() - i,
        {
            let item: Option<String> = match &parameters[i] {
                Some(s) => Some(s.clone()),
                None => None,
            };
            proof {
                assert(item.deep_view() == parameters@[i as int].deep_view());
            }
            copy.push(item);
            i += 1;
        }
        proof {
            assert(copy.deep_view() =~= parameters.deep_view());
        }
        proof {
            assert(copy.deep_view() =~= parameters.deep_view());
        }
        PlaceholderResolver { parameters: copy, position: 0 }
    }

    /// Consumes the next parameter, if any, returning its literal form.
    pub fn resolve_next_string(&mut self) -> (r: Option<String>)
        ensures
            rsv_view(final(self)) == spec_resolve(rsv_view(old(self))).0,
            r.deep_view() == spec_resolve(rsv_view(old(self))).1,
    {
        if self.position >= self.parameters.len() {
            return None;
        }
        let value: Option<String> = match &self.parameters[self.position] {
            Some(s) => Some(s.clone()),
            None => None,
        };
        self.position += 1;
        value
    }
}

} // verus!
