//! The layer's general guarantees, stated and proved once over all inputs:
//! shape mirroring for single and batch traffic, whole-batch rejection of
//! malformed input, the normalizer's round trip for `initialized`
//! notifications, the equivalence of the nested and top-level forms of a
//! `cancelled` notification, and the normalizer's idempotence.

use vstd::prelude::*;

use crate::decode::{spec_decode_batch, spec_decode_elems, spec_decode_request, ErrSpec};
use crate::json::{spec_has_key, spec_lookup, JsonSpec};
use crate::normalize::{spec_method, spec_normalize, spec_promote, spec_rid_source};
use crate::rpc::{BatchRequest, BatchRequestSpec, RequestSpec};

verus! {

/// A key is present exactly when some entry carries it.
pub proof fn lemma_lookup_index(entries: Seq<(Seq<char>, JsonSpec)>, key: Seq<char>)
    ensures
        spec_has_key(entries, key) <==> exists|i: int|
            0 <= i < entries.len() && (#[trigger] entries[i].0) == key,
    decreases entries.len(),
{
    if entries.len() > 0 {
        lemma_lookup_index(entries.drop_first(), key);
        if entries[0].0 != key && spec_has_key(entries.drop_first(), key) {
            let i = choose|i: int|
                0 <= i < entries.drop_first().len() && (#[trigger] entries.drop_first()[i].0)
                    == key;
            assert(entries[i + 1].0 == key);
        }
        if exists|i: int| 0 <= i < entries.len() && (#[trigger] entries[i].0) == key {
            let i = choose|i: int| 0 <= i < entries.len() && (#[trigger] entries[i].0) == key;
            if entries[0].0 != key {
                assert(entries.drop_first()[i - 1].0 == key);
            }
        }
    }
}

/// Appending an entry leaves every earlier key's lookup unchanged, and
/// answers for its own key only where that key was absent.
pub proof fn lemma_lookup_push(
    entries: Seq<(Seq<char>, JsonSpec)>,
    x: (Seq<char>, JsonSpec),
    key: Seq<char>,
)
    ensures
        spec_lookup(entries.push(x), key) == (if spec_has_key(entries, key) {
            spec_lookup(entries, key)
        } else if x.0 == key {
            Some(x.1)
        } else {
            None::<JsonSpec>
        }),
    decreases entries.len(),
{
    if entries.len() == 0 {
        assert(entries.push(x)[0] == x);
        assert(entries.push(x).drop_first() =~= entries);
    } else {
        lemma_lookup_push(entries.drop_first(), x, key);
        assert(entries.push(x)[0] == entries[0]);
        assert(entries.push(x).drop_first() =~= entries.drop_first().push(x));
    }
}

/// Filtering by a predicate that keeps everything but a key the entries
/// never carried changes nothing.
pub proof fn lemma_filter_absent_key(
    entries: Seq<(Seq<char>, JsonSpec)>,
    key: Seq<char>,
    pred: spec_fn((Seq<char>, JsonSpec)) -> bool,
)
    requires
        !spec_has_key(entries, key),
        forall|q: (Seq<char>, JsonSpec)| #[trigger] pred(q) == (q.0 != key),
    ensures
        entries.filter(pred) == entries,
    decreases entries.len(),
{
    reveal(Seq::filter);
    lemma_lookup_index(entries, key);
    if entries.len() > 0 {
        lemma_lookup_index(entries.drop_last(), key);
        if spec_has_key(entries.drop_last(), key) {
            let i = choose|i: int|
                0 <= i < entries.drop_last().len() && (#[trigger] entries.drop_last()[i].0)
                    == key;
            assert(entries[i].0 == key);
            assert(false);
        }
        lemma_filter_absent_key(entries.drop_last(), key, pred);
        assert(pred(entries[entries.len() - 1]));
        assert(entries.drop_last().push(entries.last()) =~= entries);
    } else {
        assert(entries.filter(pred) =~= entries);
    }
}

/// A single-object input that decodes does so to the single arm, carrying
/// exactly the one normalized, decoded request: the reply to it is then a
/// single response object, never an array.
pub proof fn lemma_single_mirrors(v: JsonSpec)
    requires
        v is Obj,
        spec_decode_batch(v) is Ok,
    ensures
        spec_decode_batch(v)->Ok_0 matches BatchRequestSpec::Single(r) && Ok::<
            RequestSpec,
            ErrSpec,
        >(r) == spec_decode_request(spec_normalize(v)),
{
}

/// A decoded single-object batch exposes exactly its one request through
/// the uniform request view.
pub proof fn lemma_single_view(b: BatchRequest)
    requires
        b@ is Single,
    ensures
        b.req_seq().len() == 1,
        b.req_seq()[0]@ == b@->Single_0,
{
}

/// When an element list decodes from position `k` on, every element
/// decodes, and the results line up one to one, in order.
pub proof fn lemma_elems_ok_inverse(items: Seq<JsonSpec>, k: int)
    requires
        0 <= k <= items.len(),
        spec_decode_elems(items, k) is Ok,
    ensures
        spec_decode_elems(items, k)->Ok_0.len() == items.len() - k,
        forall|j: int|
            k <= j < items.len() ==> (#[trigger] spec_decode_request(spec_normalize(items[j])))
                is Ok && spec_decode_elems(items, k)->Ok_0[j - k] == spec_decode_request(
                spec_normalize(items[j]),
            )->Ok_0,
    decreases items.len() - k,
{
    if k < items.len() {
        lemma_elems_ok_inverse(items, k + 1);
    }
}

/// A valid array input of length `N` decodes to the batch arm with exactly
/// `N` requests, in the original order.
pub proof fn lemma_batch_mirrors(items: Seq<JsonSpec>)
    requires
        spec_decode_batch(JsonSpec::Arr(items)) is Ok,
    ensures
        spec_decode_batch(JsonSpec::Arr(items))->Ok_0 matches BatchRequestSpec::Batch(rs)
            && rs.len() == items.len() && (forall|j: int|
            0 <= j < items.len() ==> rs[j] == (#[trigger] spec_decode_request(
                spec_normalize(items[j]),
            ))->Ok_0),
{
    lemma_elems_ok_inverse(items, 0);
}

/// One malformed element rejects the whole batch: no partial batch is
/// ever decoded.
pub proof fn lemma_batch_rejected_whole(items: Seq<JsonSpec>, k: int)
    requires
        0 <= k < items.len(),
        spec_decode_request(spec_normalize(items[k])) is Err,
    ensures
        spec_decode_batch(JsonSpec::Arr(items)) is Err,
{
    if spec_decode_elems(items, 0) is Ok {
        lemma_elems_ok_inverse(items, 0);
    }
}

/// An empty array input decodes to an empty batch; answered, it yields an
/// empty response array, never a null reply.
pub proof fn lemma_empty_batch()
    ensures
        spec_decode_batch(JsonSpec::Arr(Seq::empty())) == Ok::<BatchRequestSpec, ErrSpec>(
            BatchRequestSpec::Batch(Seq::empty()),
        ),
{
}

/// Normalizing an `initialized` notification whose `params` is an empty
/// object decodes exactly as the same message with the `params` entry
/// dropped; appended fresh, it decodes as if it had never been written.
pub proof fn lemma_initialized_empty_params_round_trip(entries: Seq<(Seq<char>, JsonSpec)>)
    requires
        spec_method(entries) == Some("notifications/initialized"@),
        !spec_has_key(entries, "params"@),
    ensures
        spec_decode_request(
            spec_normalize(
                JsonSpec::Obj(
                    entries.push(("params"@, JsonSpec::Obj(Seq::<(Seq<char>, JsonSpec)>::empty()))),
                ),
            ),
        ) == spec_decode_request(JsonSpec::Obj(entries)),
{
    reveal_strlit("method");
    reveal_strlit("params");
    let x = ("params"@, JsonSpec::Obj(Seq::<(Seq<char>, JsonSpec)>::empty()));
    let pushed = entries.push(x);
    lemma_lookup_push(entries, x, "method"@);
    lemma_lookup_push(entries, x, "params"@);
    assert(spec_method(pushed) == Some("notifications/initialized"@));
    assert(spec_lookup(pushed, "params"@) == Some(x.1));
    let pred = |p: (Seq<char>, JsonSpec)| p.0 != "params"@;
    broadcast use vstd::prelude::Seq::lemma_filter_push;

    lemma_filter_absent_key(entries, "params"@, pred);
    assert(!pred(x));
    assert(pushed.filter(pred) == entries);
    assert(spec_normalize(JsonSpec::Obj(pushed)) == JsonSpec::Obj(entries));
}

/// An `initialized` notification whose `params` object is not empty is
/// left untouched by the normalizer, and the decoder then rejects it:
/// only empty `params` objects are stripped.
pub proof fn lemma_initialized_nonempty_params_rejected(
    entries: Seq<(Seq<char>, JsonSpec)>,
    pe: Seq<(Seq<char>, JsonSpec)>,
)
    requires
        spec_method(entries) == Some("notifications/initialized"@),
        spec_lookup(entries, "params"@) == Some(JsonSpec::Obj(pe)),
        pe.len() > 0,
    ensures
        spec_normalize(JsonSpec::Obj(entries)) == JsonSpec::Obj(entries),
        spec_decode_request(JsonSpec::Obj(entries)) is Err,
{
    reveal_strlit("notifications/initialized");
    reveal_strlit("notifications/cancelled");
    reveal_strlit("ping");
    reveal_strlit("initialize");
    let m = "notifications/initialized"@;
    assert(spec_lookup(entries, "method"@) == Some(JsonSpec::Str(m)));
    assert(m.len() == 25);
    assert("ping"@.len() == 4);
    assert("initialize"@.len() == 10);
    assert(m != "ping"@ && m != "initialize"@);
    assert(crate::decode::spec_decode_body(entries, m) is Err);
}

/// A `cancelled` notification that nests its `requestId` and `reason`
/// under `params` decodes exactly as the same notification carrying them
/// at the top level: the normalizer promotes the nested pair, and the
/// decoder reads the promoted fields.
pub proof fn lemma_cancelled_promotion(
    entries: Seq<(Seq<char>, JsonSpec)>,
    pe: Seq<(Seq<char>, JsonSpec)>,
    rid: JsonSpec,
    rv: JsonSpec,
)
    requires
        spec_method(entries) == Some("notifications/cancelled"@),
        !spec_has_key(entries, "params"@),
        !spec_has_key(entries, "request_id"@),
        !spec_has_key(entries, "requestId"@),
        !spec_has_key(entries, "reason"@),
        spec_rid_source(pe) == Some(rid),
        spec_lookup(pe, "reason"@) == Some(rv),
    ensures
        spec_decode_request(
            spec_normalize(JsonSpec::Obj(entries.push(("params"@, JsonSpec::Obj(pe))))),
        ) == spec_decode_request(
            spec_normalize(
                JsonSpec::Obj(entries.push(("requestId"@, rid)).push(("reason"@, rv))),
            ),
        ),
{
    broadcast use vstd::string::group_string_axioms;

    reveal_strlit("jsonrpc");
    reveal_strlit("id");
    reveal_strlit("method");
    reveal_strlit("params");
    reveal_strlit("request_id");
    reveal_strlit("requestId");
    reveal_strlit("reason");
    reveal_strlit("ping");
    reveal_strlit("initialize");
    reveal_strlit("notifications/initialized");
    reveal_strlit("notifications/cancelled");
    assert("ping"@.len() == 4 && "initialize"@.len() == 10 && "notifications/initialized"@.len()
        == 25 && "notifications/cancelled"@.len() == 23);
    assert("jsonrpc"@.len() == 7 && "id"@.len() == 2 && "request_id"@.len() == 10
        && "requestId"@.len() == 9);
    assert("method"@.len() == 6 && "params"@.len() == 6 && "reason"@.len() == 6);
    assert("method"@[0] == 'm' && "params"@[0] == 'p' && "reason"@[0] == 'r');
    assert("method"@ != "params"@ && "method"@ != "reason"@ && "params"@ != "reason"@);

    let pentry = ("params"@, JsonSpec::Obj(pe));
    let nested = entries.push(pentry);
    lemma_lookup_push(entries, pentry, "method"@);
    lemma_lookup_push(entries, pentry, "params"@);
    lemma_lookup_push(entries, pentry, "request_id"@);
    lemma_lookup_push(entries, pentry, "requestId"@);
    lemma_lookup_push(entries, pentry, "reason"@);
    assert(spec_method(nested) == Some("notifications/cancelled"@));
    assert(spec_lookup(nested, "params"@) == Some(JsonSpec::Obj(pe)));
    let promoted = nested.push(("request_id"@, rid)).push(("reason"@, rv));
    assert(spec_normalize(JsonSpec::Obj(nested)) == JsonSpec::Obj(promoted));
    lemma_lookup_push(nested, ("request_id"@, rid), "jsonrpc"@);
    lemma_lookup_push(nested.push(("request_id"@, rid)), ("reason"@, rv), "jsonrpc"@);
    lemma_lookup_push(entries, pentry, "jsonrpc"@);
    lemma_lookup_push(nested, ("request_id"@, rid), "id"@);
    lemma_lookup_push(nested.push(("request_id"@, rid)), ("reason"@, rv), "id"@);
    lemma_lookup_push(entries, pentry, "id"@);
    lemma_lookup_push(nested, ("request_id"@, rid), "method"@);
    lemma_lookup_push(nested.push(("request_id"@, rid)), ("reason"@, rv), "method"@);
    lemma_lookup_push(nested, ("request_id"@, rid), "request_id"@);
    lemma_lookup_push(nested.push(("request_id"@, rid)), ("reason"@, rv), "request_id"@);
    lemma_lookup_push(nested, ("request_id"@, rid), "reason"@);
    lemma_lookup_push(nested.push(("request_id"@, rid)), ("reason"@, rv), "reason"@);
    assert(spec_lookup(promoted, "jsonrpc"@) == spec_lookup(entries, "jsonrpc"@));
    assert(spec_lookup(promoted, "id"@) == spec_lookup(entries, "id"@));
    assert(spec_method(promoted) == Some("notifications/cancelled"@));
    assert(spec_lookup(promoted, "request_id"@) == Some(rid));
    assert(spec_lookup(promoted, "reason"@) == Some(rv));

    let top = entries.push(("requestId"@, rid)).push(("reason"@, rv));
    lemma_lookup_push(entries, ("requestId"@, rid), "method"@);
    lemma_lookup_push(entries.push(("requestId"@, rid)), ("reason"@, rv), "method"@);
    lemma_lookup_push(entries, ("requestId"@, rid), "params"@);
    lemma_lookup_push(entries.push(("requestId"@, rid)), ("reason"@, rv), "params"@);
    assert(spec_method(top) == Some("notifications/cancelled"@));
    assert(spec_lookup(top, "params"@) is None);
    assert(spec_normalize(JsonSpec::Obj(top)) == JsonSpec::Obj(top));
    lemma_lookup_push(entries, ("requestId"@, rid), "jsonrpc"@);
    lemma_lookup_push(entries.push(("requestId"@, rid)), ("reason"@, rv), "jsonrpc"@);
    lemma_lookup_push(entries, ("requestId"@, rid), "id"@);
    lemma_lookup_push(entries.push(("requestId"@, rid)), ("reason"@, rv), "id"@);
    lemma_lookup_push(entries, ("requestId"@, rid), "request_id"@);
    lemma_lookup_push(entries.push(("requestId"@, rid)), ("reason"@, rv), "request_id"@);
    lemma_lookup_push(entries, ("requestId"@, rid), "requestId"@);
    lemma_lookup_push(entries.push(("requestId"@, rid)), ("reason"@, rv), "requestId"@);
    lemma_lookup_push(entries, ("requestId"@, rid), "reason"@);
    lemma_lookup_push(entries.push(("requestId"@, rid)), ("reason"@, rv), "reason"@);
    assert(spec_lookup(top, "jsonrpc"@) == spec_lookup(entries, "jsonrpc"@));
    assert(spec_lookup(top, "id"@) == spec_lookup(entries, "id"@));
    assert(spec_lookup(top, "request_id"@) is None);
    assert(spec_lookup(top, "requestId"@) == Some(rid));
    assert(spec_lookup(top, "reason"@) == Some(rv));
}

/// Filtering one key out removes it entirely and leaves every other
/// key's lookup unchanged.
pub proof fn lemma_filter_lookups(
    s: Seq<(Seq<char>, JsonSpec)>,
    key: Seq<char>,
    pred: spec_fn((Seq<char>, JsonSpec)) -> bool,
)
    requires
        forall|q: (Seq<char>, JsonSpec)| #[trigger] pred(q) == (q.0 != key),
    ensures
        !spec_has_key(s.filter(pred), key),
        forall|k2: Seq<char>|
            k2 != key ==> #[trigger] spec_lookup(s.filter(pred), k2) == spec_lookup(s, k2),
    decreases s.len(),
{
    reveal(Seq::filter);
    if s.len() > 0 {
        let h = seq![s[0]];
        let t = s.drop_first();
        assert(s =~= h + t);
        vstd::prelude::Seq::filter_distributes_over_add(h, t, pred);
        assert(h.drop_last() =~= Seq::<(Seq<char>, JsonSpec)>::empty());
        assert(h.last() == s[0]);
        assert(h.drop_last().filter(pred) =~= h.drop_last());
        assert(h.drop_last().filter(pred).push(s[0]) =~= h);
        assert(h.filter(pred) == if pred(s[0]) { h } else { h.drop_last() });
        lemma_filter_lookups(t, key, pred);
        if pred(s[0]) {
            assert(s.filter(pred) =~= h + t.filter(pred));
            assert((h + t.filter(pred))[0] == s[0]);
            assert((h + t.filter(pred)).drop_first() =~= t.filter(pred));
            assert(spec_lookup(s.filter(pred), key) == spec_lookup(t.filter(pred), key));
            assert forall|k2: Seq<char>| k2 != key implies #[trigger] spec_lookup(
                s.filter(pred),
                k2,
            ) == spec_lookup(s, k2) by {
                assert(spec_lookup(s, k2) == if s[0].0 == k2 {
                    Some(s[0].1)
                } else {
                    spec_lookup(t, k2)
                });
                assert(s.filter(pred) == h + t.filter(pred));
                assert(spec_lookup(s.filter(pred), k2) == if s[0].0 == k2 {
                    Some(s[0].1)
                } else {
                    spec_lookup(t.filter(pred), k2)
                });
            }
        } else {
            assert(s.filter(pred) =~= t.filter(pred));
            assert(s[0].0 == key);
            assert forall|k2: Seq<char>| k2 != key implies #[trigger] spec_lookup(
                s.filter(pred),
                k2,
            ) == spec_lookup(s, k2) by {
                assert(spec_lookup(s, k2) == spec_lookup(t, k2));
            }
        }
    } else {
        assert(s.filter(pred) =~= s);
    }
}

/// Normalizing is idempotent: a second pass changes nothing. A message
/// whose method is outside the two special cases is never altered at all,
/// which is immediate from [`spec_normalize`].
pub proof fn lemma_normalize_idempotent(v: JsonSpec)
    ensures
        spec_normalize(spec_normalize(v)) == spec_normalize(v),
{
    broadcast use vstd::string::group_string_axioms;

    reveal_strlit("method");
    reveal_strlit("params");
    reveal_strlit("request_id");
    reveal_strlit("requestId");
    reveal_strlit("reason");
    reveal_strlit("notifications/initialized");
    reveal_strlit("notifications/cancelled");
    assert("method"@.len() == 6 && "params"@.len() == 6 && "reason"@.len() == 6
        && "request_id"@.len() == 10 && "requestId"@.len() == 9);
    assert("method"@[0] == 'm' && "params"@[0] == 'p' && "reason"@[0] == 'r');
    assert("notifications/initialized"@.len() == 25 && "notifications/cancelled"@.len() == 23);

    if let JsonSpec::Obj(entries) = v {
        if spec_method(entries) == Some("notifications/initialized"@) {
            if let Some(JsonSpec::Obj(pe)) = spec_lookup(entries, "params"@) {
                if pe.len() == 0 {
                let pred = |p: (Seq<char>, JsonSpec)| p.0 != "params"@;
                let filtered = entries.filter(pred);
                lemma_filter_lookups(entries, "params"@, pred);
                assert(spec_lookup(filtered, "method"@) == spec_lookup(entries, "method"@));
                assert(spec_method(filtered) == Some("notifications/initialized"@));
                assert(!spec_has_key(filtered, "params"@));
                assert(spec_normalize(JsonSpec::Obj(entries)) == JsonSpec::Obj(filtered));
                assert(spec_normalize(JsonSpec::Obj(filtered)) == JsonSpec::Obj(filtered));
            }
            }
        } else if spec_method(entries) == Some("notifications/cancelled"@) {
            if let Some(JsonSpec::Obj(pe)) = spec_lookup(entries, "params"@) {
                let promoted = spec_promote(entries, pe);
                let e1 = if !spec_has_key(entries, "request_id"@) && !spec_has_key(
                    entries,
                    "requestId"@,
                ) {
                    match spec_rid_source(pe) {
                        Some(val) => entries.push(("request_id"@, val)),
                        None => entries,
                    }
                } else {
                    entries
                };
                assert forall|k: Seq<char>| #[trigger] spec_lookup(e1, k) == spec_lookup(
                    entries,
                    k,
                ) || (k == "request_id"@ && spec_lookup(e1, k) is Some) by {
                    if e1 != entries {
                        let val = spec_rid_source(pe)->Some_0;
                        lemma_lookup_push(entries, ("request_id"@, val), k);
                    }
                }
                assert forall|k: Seq<char>| #[trigger] spec_lookup(promoted, k) == spec_lookup(
                    e1,
                    k,
                ) || (k == "reason"@ && spec_lookup(promoted, k) is Some) by {
                    if promoted != e1 {
                        lemma_lookup_push(e1, ("reason"@, spec_lookup(pe, "reason"@)->Some_0), k);
                    }
                }
                assert(spec_lookup(promoted, "method"@) == spec_lookup(entries, "method"@));
                assert(spec_method(promoted) == Some("notifications/cancelled"@));
                assert(spec_lookup(promoted, "params"@) == Some(JsonSpec::Obj(pe)));
                if !spec_has_key(entries, "request_id"@) && !spec_has_key(entries, "requestId"@)
                    && spec_rid_source(pe) is Some {
                    let val = spec_rid_source(pe)->Some_0;
                    lemma_lookup_push(entries, ("request_id"@, val), "request_id"@);
                    assert(spec_has_key(e1, "request_id"@));
                }
                assert(spec_has_key(e1, "request_id"@) || spec_has_key(e1, "requestId"@)
                    || spec_rid_source(pe) is None);
                assert(spec_has_key(promoted, "request_id"@) || spec_has_key(
                    promoted,
                    "requestId"@,
                ) || spec_rid_source(pe) is None);
                if !spec_has_key(entries, "reason"@) && spec_lookup(pe, "reason"@) is Some {
                    lemma_lookup_push(e1, ("reason"@, spec_lookup(pe, "reason"@)->Some_0),
                        "reason"@);
                    assert(spec_has_key(promoted, "reason"@));
                }
                assert(spec_has_key(promoted, "reason"@) || spec_lookup(pe, "reason"@) is None);
                assert(spec_promote(promoted, pe) == promoted);
                assert(spec_normalize(JsonSpec::Obj(promoted)) == JsonSpec::Obj(promoted));
            }
        }
    }
}

} // verus!
