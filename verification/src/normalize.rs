//! The request normalizer.
//!
//! A pre-decoding transform that rewrites a raw message into the canonical
//! shape the structural decoder expects: it strips an explicit-but-empty
//! `params` from an `initialized` notification, and for a `cancelled`
//! notification promotes `request_id`/`requestId` and `reason` nested under
//! `params` up to the envelope's top level, never overwriting fields that
//! are already there. Messages of any other method pass through unchanged.

use vstd::prelude::*;

use crate::json::{
    entries_view, lemma_obj_view, obj_has_key, obj_lookup, spec_has_key, spec_lookup, str_is,
    JsonSpec, JsonValue,
};

verus! {

/// The method named by an object's entries, if its `method` field is a
/// string.
pub open spec fn spec_method(entries: Seq<(Seq<char>, JsonSpec)>) -> Option<Seq<char>> {
    match spec_lookup(entries, "method"@) {
        Some(JsonSpec::Str(m)) => Some(m),
        _ => None,
    }
}

/// The value a `cancelled` notification's nested `request_id` is promoted
/// from: `request_id` under `params`, or failing that `requestId`.
pub open spec fn spec_rid_source(pe: Seq<(Seq<char>, JsonSpec)>) -> Option<JsonSpec> {
    match spec_lookup(pe, "request_id"@) {
        Some(v) => Some(v),
        None => spec_lookup(pe, "requestId"@),
    }
}

/// The entries of a `cancelled` notification after promoting the nested
/// `request_id` and `reason` out of its `params` object: each is appended
/// only when no top-level field of that name exists.
pub open spec fn spec_promote(
    entries: Seq<(Seq<char>, JsonSpec)>,
    pe: Seq<(Seq<char>, JsonSpec)>,
) -> Seq<(Seq<char>, JsonSpec)> {
    let e1 = if !spec_has_key(entries, "request_id"@) && !spec_has_key(entries, "requestId"@) {
        match spec_rid_source(pe) {
            Some(val) => entries.push(("request_id"@, val)),
            None => entries,
        }
    } else {
        entries
    };
    if !spec_has_key(entries, "reason"@) {
        match spec_lookup(pe, "reason"@) {
            Some(rv) => e1.push(("reason"@, rv)),
            None => e1,
        }
    } else {
        e1
    }
}

/// The normalized form of a message node.
///
/// Only two shapes are rewritten: an `initialized` notification whose
/// `params` is an empty object loses that field, and a `cancelled`
/// notification with a `params` object has `request_id`/`reason` promoted
/// to the top level. Every other node is left exactly as it came.
pub open spec fn spec_normalize(v: JsonSpec) -> JsonSpec {
    match v {
        JsonSpec::Obj(entries) => {
            if spec_method(entries) == Some("notifications/initialized"@) {
                if spec_lookup(entries, "params"@) matches Some(JsonSpec::Obj(pe))
                    && pe.len() == 0 {
                    JsonSpec::Obj(entries.filter(|p: (Seq<char>, JsonSpec)| p.0 != "params"@))
                } else {
                    v
                }
            } else if spec_method(entries) == Some("notifications/cancelled"@) {
                match spec_lookup(entries, "params"@) {
                    Some(JsonSpec::Obj(pe)) => JsonSpec::Obj(spec_promote(entries, pe)),
                    _ => v,
                }
            } else {
                v
            }
        },
        _ => v,
    }
}

/// Rewrite one raw message node into the canonical shape the structural
/// decoder expects; see [`spec_normalize`] for the exact rules.
pub fn normalize_request(v: JsonValue) -> (r: JsonValue)
    ensures
        r@ == spec_normalize(v@),
{
    let entries = match v {
        JsonValue::Obj(entries) => entries,
        other => {
            return other;
        },
    };
    let ghost ev = entries_view(entries@);
    proof {
        lemma_obj_view(entries);
        assert(v == JsonValue::Obj(entries));
        assert(v@ == JsonSpec::Obj(ev));
    }
    if method_matches(&entries, "notifications/initialized") {
        let params_key = "params".to_owned();
        let empty_params = match obj_lookup(&entries, &params_key) {
            Some(JsonValue::Obj(pe)) => {
                proof {
                    lemma_obj_view(*pe);
                }
                pe.len() == 0
            },
            Some(_) => false,
            None => false,
        };
        if empty_params {
            let mut out: Vec<(String, JsonValue)> = Vec::new();
            let ghost pred = |p: (Seq<char>, JsonSpec)| p.0 != "params"@;
            proof {
                assert(ev.take(0) =~= Seq::<(Seq<char>, JsonSpec)>::empty());
                reveal(vstd::seq::Seq::filter);
                assert(entries_view(out@) =~= ev.take(0).filter(pred));
            }
            let mut i: usize = 0;
            #[verifier::loop_isolation(false)]
            while i < entries.len()
                invariant
                    i <= entries.len(),
                    entries_view(out@) == ev.take(i as int).filter(pred),
                decreases entries.len() - i,
            {
                proof {
                    broadcast use vstd::prelude::Seq::lemma_filter_push;

                    ev.lemma_take_succ_push(i as int);
                }
                if !entries[i].0.eq(&params_key) {
                    let key = entries[i].0.clone();
                    let val = entries[i].1.clone();
                    let ghost old_out = out@;
                    out.push((key, val));
                    proof {
                        assert(entries_view(out@) =~= entries_view(old_out).push(ev[i as int]));
                    }
                }
                i += 1;
            }
            proof {
                assert(ev.take(entries@.len() as int) =~= ev);
                lemma_obj_view(out);
            }
            JsonValue::Obj(out)
        } else {
            JsonValue::Obj(entries)
        }
    } else if method_matches(&entries, "notifications/cancelled") {
        let rid_key = "request_id".to_owned();
        let rid_alias_key = "requestId".to_owned();
        let reason_key = "reason".to_owned();
        let top_has_rid = obj_has_key(&entries, &rid_key) || obj_has_key(&entries, &rid_alias_key);
        let top_has_reason = obj_has_key(&entries, &reason_key);
        let params_key = "params".to_owned();
        let mut params_is_obj = false;
        let mut add_rid: Option<JsonValue> = None;
        let mut add_reason: Option<JsonValue> = None;
        match obj_lookup(&entries, &params_key) {
            Some(JsonValue::Obj(pe)) => {
                proof {
                    lemma_obj_view(*pe);
                }
                params_is_obj = true;
                if !top_has_rid {
                    add_rid = match obj_lookup(pe, &rid_key) {
                        Some(val) => Some(val.clone()),
                        None => match obj_lookup(pe, &rid_alias_key) {
                            Some(val) => Some(val.clone()),
                            None => None,
                        },
                    };
                }
                if !top_has_reason {
                    add_reason = match obj_lookup(pe, &reason_key) {
                        Some(rv) => Some(rv.clone()),
                        None => None,
                    };
                }
            },
            _ => {},
        }
        if params_is_obj {
            let mut out = entries;
            match add_rid {
                Some(val) => {
                    let ghost before = out@;
                    out.push(("request_id".to_owned(), val));
                    proof {
                        assert(entries_view(out@) =~= entries_view(before).push(
                            ("request_id"@, out@[out@.len() - 1].1@),
                        ));
                    }
                },
                None => {},
            }
            match add_reason {
                Some(rv) => {
                    let ghost before = out@;
                    out.push(("reason".to_owned(), rv));
                    proof {
                        assert(entries_view(out@) =~= entries_view(before).push(
                            ("reason"@, out@[out@.len() - 1].1@),
                        ));
                    }
                },
                None => {},
            }
            proof {
                lemma_obj_view(out);
            }
            JsonValue::Obj(out)
        } else {
            JsonValue::Obj(entries)
        }
    } else {
        JsonValue::Obj(entries)
    }
}

/// Whether an object's entries name the given method.
fn method_matches(entries: &Vec<(String, JsonValue)>, name: &str) -> (r: bool)
    ensures
        r == (spec_method(entries_view(entries@)) == Some(name@)),
{
    let method_key = "method".to_owned();
    match obj_lookup(entries, &method_key) {
        Some(m) => str_is(m, name),
        None => false,
    }
}

} // verus!
