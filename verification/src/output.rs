//! Error and output types of the rewriter, and the per-call accumulator that
//! collects cache hints while statements are rewritten.

use vstd::prelude::*;
use crate::text::{spec_sorted_unique, spec_insert_sorted, insert_sorted_unique};

verus! {

/// The three failure kinds of a rewrite call.
#[derive(Debug)]
pub enum RewriteError {
    /// The input SQL failed to parse.
    SqlParse(String),
    /// The context JSON was malformed or of the wrong shape.
    ContextParse(String),
    /// A view body was empty, not a single query, or failed to parse.
    SubqueryParse(String),
}

/// The specification-level value of a `RewriteError`.
pub enum ErrV {
    SqlParse(Seq<char>),
    ContextParse(Seq<char>),
    SubqueryParse(Seq<char>),
}

pub open spec fn err_view(e: &RewriteError) -> ErrV {
    match e {
        RewriteError::SqlParse(m) => ErrV::SqlParse(m@),
        RewriteError::ContextParse(m) => ErrV::ContextParse(m@),
        RewriteError::SubqueryParse(m) => ErrV::SubqueryParse(m@),
    }
}

pub open spec fn spec_error_message(e: ErrV) -> Seq<char> {
    match e {
        ErrV::SqlParse(m) => m,
        ErrV::ContextParse(m) => m,
        ErrV::SubqueryParse(m) => m,
    }
}

impl RewriteError {
    /// The error's message, as its display form shows it.
    pub fn message(&self) -> (r: &String)
        ensures
            r@ == spec_error_message(err_view(self)),
    {
        match self {
            RewriteError::SqlParse(m) => m,
            RewriteError::ContextParse(m) => m,
            RewriteError::SubqueryParse(m) => m,
        }
    }
}

/// The hint payload for the state reader: which schema keys the rewrite
/// depended on, and whether inheritance branches were emitted.
#[derive(Debug)]
pub struct InternalStateReaderHintPayload {
    pub schema_keys: Vec<String>,
    pub include_inheritance: bool,
}

/// The cache hints of one rewrite call.
#[derive(Debug)]
pub struct CacheHints {
    pub internal_state_reader: Option<InternalStateReaderHintPayload>,
}

/// The specification-level value of a hint payload.
pub struct PayloadV {
    pub keys: Seq<Seq<char>>,
    pub inh: bool,
}

pub open spec fn payload_view(p: &InternalStateReaderHintPayload) -> PayloadV {
    PayloadV { keys: p.schema_keys.deep_view(), inh: p.include_inheritance }
}

pub open spec fn hints_view(h: &CacheHints) -> Option<PayloadV> {
    match h.internal_state_reader {
        Some(ref p) => Some(payload_view(p)),
        None => None,
    }
}

impl CacheHints {
    /// The state-reader hint, if the rewrite routed any reference to it.
    pub fn internal_state_reader(&self) -> (r: Option<&InternalStateReaderHintPayload>)
        ensures
            match r {
                Some(p) => hints_view(self) == Some(payload_view(p)),
                None => hints_view(self) is None,
            },
    {
        self.internal_state_reader.as_ref()
    }
}

impl InternalStateReaderHintPayload {
    /// The schema keys, sorted ascending and duplicate-free.
    pub fn schema_keys(&self) -> (r: &Vec<String>)
        ensures
            r.deep_view() == payload_view(self).keys,
    {
        &self.schema_keys
    }

    /// Whether inheritance branches were emitted for any routed reference.
    pub fn include_inheritance(&self) -> (r: bool)
        ensures
            r == payload_view(self).inh,
    {
        self.include_inheritance
    }
}

/// The result of one rewrite call.
#[derive(Debug)]
pub struct RewriteOutput {
    /// The routed SQL; the input itself when nothing changed.
    pub sql: String,
    /// The fully view-inlined form, present iff expansion changed something.
    pub expanded_sql: Option<String>,
    /// Present iff at least one state-reader reference was routed.
    pub cache_hints: Option<CacheHints>,
}

/// The specification-level state of the accumulator.
pub struct AccV {
    pub touched: bool,
    pub keys: Seq<Seq<char>>,
    pub inh: bool,
}

/// Collects, across one call, the schema keys touched on the state reader
/// and the sticky inheritance flag.
pub struct RewriteAccumulator {
    pub touched: bool,
    pub schema_keys: Vec<String>,
    pub include_inheritance: bool,
}

pub open spec fn acc_view(a: &RewriteAccumulator) -> AccV {
    AccV { touched: a.touched, keys: a.schema_keys.deep_view(), inh: a.include_inheritance }
}

pub open spec fn acc_wf(a: &RewriteAccumulator) -> bool {
    spec_sorted_unique(a.schema_keys.deep_view())
}

/// A touch with a known schema key: records the key and ors the flag.
pub open spec fn spec_touch(a: AccV, key: Seq<char>, inh: bool) -> AccV {
    AccV { touched: true, keys: spec_insert_sorted(a.keys, key), inh: a.inh || inh }
}

/// A touch without a schema key: only marks the reader and ors the flag.
pub open spec fn spec_touch_any(a: AccV, inh: bool) -> AccV {
    AccV { touched: true, keys: a.keys, inh: a.inh || inh }
}

/// The hints that a finished accumulator yields.
pub open spec fn spec_into_hints(a: AccV) -> Option<PayloadV> {
    if a.touched {
        Some(PayloadV { keys: a.keys, inh: a.inh })
    } else {
        None
    }
}

impl RewriteAccumulator {
    pub fn new() -> (r: RewriteAccumulator)
        ensures
            acc_wf(&r),
            acc_view(&r) == (AccV { touched: false, keys: Seq::<Seq<char>>::empty(), inh: false }),
    {
        let r = RewriteAccumulator {
            touched: false,
            schema_keys: Vec::new(),
            include_inheritance: false,
        };
        proof {
            assert(r.schema_keys.deep_view() =~= Seq::<Seq<char>>::empty());
        }
        r
    }

    /// Records a routed reference with one extracted schema key. The
    /// inheritance flag is only ever promoted, never cleared.
    pub fn touch_internal_state_reader(&mut self, schema_key: String, include_inheritance: bool)
        requires
            acc_wf(old(self)),
        ensures
            acc_wf(final(self)),
            acc_view(final(self)) == spec_touch(acc_view(old(self)), schema_key@, include_inheritance),
            acc_view(old(self)).inh ==> acc_view(final(self)).inh,
    {
        self.touched = true;
        insert_sorted_unique(&mut self.schema_keys, schema_key);
        if include_inheritance {
            self.include_inheritance = true;
        }
    }

    /// Records a routed reference without a schema key. The inheritance flag
    /// is only ever promoted, never cleared.
    pub fn touch_internal_state_reader_any(&mut self, include_inheritance: bool)
        requires
            acc_wf(old(self)),
        ensures
            acc_wf(final(self)),
            acc_view(final(self)) == spec_touch_any(acc_view(old(self)), include_inheritance),
            acc_view(old(self)).inh ==> acc_view(final(self)).inh,
    {
        self.touched = true;
        if include_inheritance {
            self.include_inheritance = true;
        }
    }

    /// Turns the accumulator into the call's cache hints: present iff some
    /// state-reader reference was routed, with the keys sorted ascending and
    /// duplicate-free.
    pub fn into_cache_hints(self) -> (r: Option<CacheHints>)
        requires
            acc_wf(&self),
        ensures
            match r {
                Some(h) => {
                    &&& hints_view(&h) == spec_into_hints(acc_view(&self))
                    &&& hints_view(&h) is Some
                    &&& spec_sorted_unique(hints_view(&h)->0.keys)
                },
                None => spec_into_hints(acc_view(&self)) is None,
            },
    {
        if self.touched {
            Some(CacheHints {
                internal_state_reader: Some(InternalStateReaderHintPayload {
                    schema_keys: self.schema_keys,
                    include_inheritance: self.include_inheritance,
                }),
            })
        } else {
            None
        }
    }
}

} // verus!
