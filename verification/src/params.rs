//! The consistency-parameter merger: combines the client's default
//! datacenter with a call's options into the query-string pairs that encode
//! the blocking-query contract.
use vstd::prelude::*;

use crate::common::{opt_string_view, QueryOptions, WriteOptions};
use crate::numbers::dec_str_of;
use crate::urls::pairs_view;
use crate::Config;

verus! {

/// The query parameters as a map from key to value. A later pair with the
/// same key wins, as repeated insertion into a hash map behaves.
pub open spec fn params_map(s: Seq<(Seq<char>, Seq<char>)>) -> Map<Seq<char>, Seq<char>>
    decreases s.len(),
{
    if s.len() == 0 {
        Map::empty()
    } else {
        params_map(s.drop_last()).insert(s.last().0, s.last().1)
    }
}

/// The datacenter a call is scoped to: the per-call override wins over the
/// client default; `None` when neither is set.
pub open spec fn resolved_datacenter(
    default_dc: Option<Seq<char>>,
    call_dc: Option<Seq<char>>,
) -> Option<Seq<char>> {
    if call_dc is Some {
        call_dc
    } else {
        default_dc
    }
}

/// The text of the `wait` parameter for a wait-time in milliseconds: whole
/// seconds, truncated, with a unit suffix.
pub open spec fn wait_text(ms: u64) -> Seq<char> {
    dec_str_of((ms / 1000) as nat).push('s')
}

/// The pairs the read-path merger appends: `dc`, `index`, `wait`, in that
/// order, each present only when set.
pub open spec fn query_additions(
    default_dc: Option<Seq<char>>,
    call_dc: Option<Seq<char>>,
    wait_index: Option<u64>,
    wait_time: Option<u64>,
) -> Seq<(Seq<char>, Seq<char>)> {
    (match resolved_datacenter(default_dc, call_dc) {
        Some(d) => seq![("dc"@, d)],
        None => Seq::empty(),
    }) + (match wait_index {
        Some(i) => seq![("index"@, dec_str_of(i as nat))],
        None => Seq::empty(),
    }) + (match wait_time {
        Some(t) => seq![("wait"@, wait_text(t))],
        None => Seq::empty(),
    })
}

/// The pair the write-path merger appends: only `dc`, when set; wait-index
/// and wait-time are a read-path concept.
pub open spec fn write_additions(
    default_dc: Option<Seq<char>>,
    call_dc: Option<Seq<char>>,
) -> Seq<(Seq<char>, Seq<char>)> {
    match resolved_datacenter(default_dc, call_dc) {
        Some(d) => seq![("dc"@, d)],
        None => Seq::empty(),
    }
}

/// The call-level datacenter of optional read options.
pub open spec fn q_dc(options: Option<&QueryOptions>) -> Option<Seq<char>> {
    match options {
        Some(o) => opt_string_view(o.datacenter),
        None => None,
    }
}

/// The wait-index of optional read options.
pub open spec fn q_index(options: Option<&QueryOptions>) -> Option<u64> {
    match options {
        Some(o) => o.wait_index,
        None => None,
    }
}

/// The wait-time of optional read options.
pub open spec fn q_wait(options: Option<&QueryOptions>) -> Option<u64> {
    match options {
        Some(o) => o.wait_time,
        None => None,
    }
}

/// The call-level datacenter of optional write options.
pub open spec fn w_dc(options: Option<&WriteOptions>) -> Option<Seq<char>> {
    match options {
        Some(o) => opt_string_view(o.datacenter),
        None => None,
    }
}

/// The read-path parameter map after merging: over the base parameters,
/// the resolved datacenter, the wait-index and the wait-time entries are
/// set, each only when present.
pub open spec fn merged_query_map(
    m: Map<Seq<char>, Seq<char>>,
    default_dc: Option<Seq<char>>,
    call_dc: Option<Seq<char>>,
    wait_index: Option<u64>,
    wait_time: Option<u64>,
) -> Map<Seq<char>, Seq<char>> {
    let m1 = match resolved_datacenter(default_dc, call_dc) {
        Some(d) => m.insert("dc"@, d),
        None => m,
    };
    let m2 = match wait_index {
        Some(i) => m1.insert("index"@, dec_str_of(i as nat)),
        None => m1,
    };
    match wait_time {
        Some(t) => m2.insert("wait"@, wait_text(t)),
        None => m2,
    }
}

proof fn lemma_params_map_snoc(s: Seq<(Seq<char>, Seq<char>)>, p: (Seq<char>, Seq<char>))
    ensures
        params_map(s.push(p)) == params_map(s).insert(p.0, p.1),
{
    assert(s.push(p).drop_last() =~= s);
}

/// Law: appending the read-path merger's pairs to a base parameter list
/// sets exactly the merged entries in the parameter map.
pub proof fn lemma_query_merge(
    base: Seq<(Seq<char>, Seq<char>)>,
    default_dc: Option<Seq<char>>,
    call_dc: Option<Seq<char>>,
    wait_index: Option<u64>,
    wait_time: Option<u64>,
)
    ensures
        params_map(base + query_additions(default_dc, call_dc, wait_index, wait_time))
            == merged_query_map(params_map(base), default_dc, call_dc, wait_index, wait_time),
{
    let dc_part = (match resolved_datacenter(default_dc, call_dc) {
        Some(d) => seq![("dc"@, d)],
        None => Seq::<(Seq<char>, Seq<char>)>::empty(),
    });
    let index_part = (match wait_index {
        Some(i) => seq![("index"@, dec_str_of(i as nat))],
        None => Seq::<(Seq<char>, Seq<char>)>::empty(),
    });
    let wait_part = (match wait_time {
        Some(t) => seq![("wait"@, wait_text(t))],
        None => Seq::<(Seq<char>, Seq<char>)>::empty(),
    });
    let s1 = base + dc_part;
    match resolved_datacenter(default_dc, call_dc) {
        Some(d) => {
            assert(s1 =~= base.push(("dc"@, d)));
            lemma_params_map_snoc(base, ("dc"@, d));
        },
        None => {
            assert(s1 =~= base);
        },
    }
    let s2 = s1 + index_part;
    match wait_index {
        Some(i) => {
            assert(s2 =~= s1.push(("index"@, dec_str_of(i as nat))));
            lemma_params_map_snoc(s1, ("index"@, dec_str_of(i as nat)));
        },
        None => {
            assert(s2 =~= s1);
        },
    }
    let s3 = s2 + wait_part;
    match wait_time {
        Some(t) => {
            assert(s3 =~= s2.push(("wait"@, wait_text(t))));
            lemma_params_map_snoc(s2, ("wait"@, wait_text(t)));
        },
        None => {
            assert(s3 =~= s2);
        },
    }
    assert(base + query_additions(default_dc, call_dc, wait_index, wait_time) =~= s3);
}

/// Law: the merged parameters hold a `dc` entry exactly when the client
/// default or the call-level datacenter is set, and the call-level value
/// wins when both are.
pub proof fn lemma_datacenter_resolution(
    m: Map<Seq<char>, Seq<char>>,
    default_dc: Option<Seq<char>>,
    call_dc: Option<Seq<char>>,
    wait_index: Option<u64>,
    wait_time: Option<u64>,
)
    requires
        !m.dom().contains("dc"@),
    ensures
        merged_query_map(m, default_dc, call_dc, wait_index, wait_time).dom().contains("dc"@)
            <==> (default_dc is Some || call_dc is Some),
        call_dc matches Some(d) ==> merged_query_map(
            m,
            default_dc,
            call_dc,
            wait_index,
            wait_time,
        )["dc"@] == d,
        call_dc is None ==> (default_dc matches Some(d) ==> merged_query_map(
            m,
            default_dc,
            call_dc,
            wait_index,
            wait_time,
        )["dc"@] == d),
{
    reveal_strlit("dc");
    reveal_strlit("index");
    reveal_strlit("wait");
    assert("dc"@.len() == 2 && "index"@.len() == 5 && "wait"@.len() == 4);
}

/// Law: a supplied wait-time is emitted as whole seconds with an `s`
/// suffix, truncating (never rounding up) a fractional second.
pub proof fn lemma_wait_truncation(
    m: Map<Seq<char>, Seq<char>>,
    default_dc: Option<Seq<char>>,
    call_dc: Option<Seq<char>>,
    wait_index: Option<u64>,
    wait_time_ms: u64,
)
    ensures
        merged_query_map(m, default_dc, call_dc, wait_index, Some(wait_time_ms)).dom().contains(
            "wait"@,
        ),
        merged_query_map(m, default_dc, call_dc, wait_index, Some(wait_time_ms))["wait"@]
            == dec_str_of((wait_time_ms / 1000) as nat).push('s'),
        1000 * ((wait_time_ms / 1000) as int) <= wait_time_ms as int,
        (wait_time_ms as int) < 1000 * ((wait_time_ms / 1000) as int) + 1000,
{
    vstd::arithmetic::div_mod::lemma_fundamental_div_mod(wait_time_ms as int, 1000);
}

/// Law: merging twice with identical inputs is a no-op on the parameter
/// map.
pub proof fn lemma_merge_idempotent(
    m: Map<Seq<char>, Seq<char>>,
    default_dc: Option<Seq<char>>,
    call_dc: Option<Seq<char>>,
    wait_index: Option<u64>,
    wait_time: Option<u64>,
)
    ensures
        merged_query_map(
            merged_query_map(m, default_dc, call_dc, wait_index, wait_time),
            default_dc,
            call_dc,
            wait_index,
            wait_time,
        ) == merged_query_map(m, default_dc, call_dc, wait_index, wait_time),
{
    assert(merged_query_map(
        merged_query_map(m, default_dc, call_dc, wait_index, wait_time),
        default_dc,
        call_dc,
        wait_index,
        wait_time,
    ) =~= merged_query_map(m, default_dc, call_dc, wait_index, wait_time));
}

/// Law: two parameters with distinct keys may be attached in either order;
/// the parameter map is the same.
pub proof fn lemma_param_order_immaterial(
    m: Map<Seq<char>, Seq<char>>,
    k1: Seq<char>,
    v1: Seq<char>,
    k2: Seq<char>,
    v2: Seq<char>,
)
    requires
        k1 != k2,
    ensures
        m.insert(k1, v1).insert(k2, v2) == m.insert(k2, v2).insert(k1, v1),
{
    assert(m.insert(k1, v1).insert(k2, v2) =~= m.insert(k2, v2).insert(k1, v1));
}

pub(crate) proof fn lemma_pairs_view_push(s: Seq<(String, String)>, p: (String, String))
    ensures
        pairs_view(s.push(p)) == pairs_view(s).push((p.0@, p.1@)),
{
    assert(pairs_view(s.push(p)) =~= pairs_view(s).push((p.0@, p.1@)));
}

/// Appends the read-path consistency parameters to `params`: the resolved
/// datacenter, then the wait-index, then the wait-time, each only when set.
pub fn fill_query_params(
    params: &mut Vec<(String, String)>,
    config: &Config,
    options: Option<&QueryOptions>,
)
    ensures
        pairs_view(final(params)@) == pairs_view(old(params)@) + query_additions(
            opt_string_view(config.datacenter),
            q_dc(options),
            q_index(options),
            q_wait(options),
        ),
{
    let ghost base = pairs_view(params@);
    let ghost default_dc = opt_string_view(config.datacenter);
    let ghost call_dc = q_dc(options);
    let ghost dc_part = (match resolved_datacenter(default_dc, call_dc) {
        Some(d) => seq![("dc"@, d)],
        None => Seq::<(Seq<char>, Seq<char>)>::empty(),
    });
    let ghost index_part = (match q_index(options) {
        Some(i) => seq![("index"@, dec_str_of(i as nat))],
        None => Seq::<(Seq<char>, Seq<char>)>::empty(),
    });
    let ghost wait_part = (match q_wait(options) {
        Some(t) => seq![("wait"@, wait_text(t))],
        None => Seq::<(Seq<char>, Seq<char>)>::empty(),
    });
    let dc: Option<&String> = match options {
        Some(o) => match &o.datacenter {
            Some(d) => Some(d),
            None => config.datacenter.as_ref(),
        },
        None => config.datacenter.as_ref(),
    };
    if let Some(d) = dc {
        let ghost before = params@;
        let pair = ("dc".to_owned(), d.clone());
        let ghost pairg = pair;
        params.push(pair);
        proof {
            lemma_pairs_view_push(before, pairg);
        }
    }
    proof {
        assert(pairs_view(params@) =~= base + dc_part);
    }
    if let Some(o) = options {
        if let Some(i) = o.wait_index {
            let ghost before = params@;
            let pair = ("index".to_owned(), crate::numbers::u64_to_dec(i));
            let ghost pairg = pair;
            params.push(pair);
            proof {
                lemma_pairs_view_push(before, pairg);
            }
        }
        proof {
            assert(pairs_view(params@) =~= base + dc_part + index_part);
        }
        if let Some(t) = o.wait_time {
            let ghost before = params@;
            let mut text = crate::numbers::u64_to_dec(t / 1000);
            crate::text::push_char(&mut text, 's');
            let pair = ("wait".to_owned(), text);
            let ghost pairg = pair;
            params.push(pair);
            proof {
                lemma_pairs_view_push(before, pairg);
            }
        }
    }
    proof {
        assert(pairs_view(params@) =~= base + dc_part + index_part + wait_part);
        assert(base + dc_part + index_part + wait_part =~= base + (dc_part + index_part
            + wait_part));
    }
}

/// Appends the write-path consistency parameters to `params`: only the
/// resolved datacenter, when set.
pub fn fill_write_params(
    params: &mut Vec<(String, String)>,
    config: &Config,
    options: Option<&WriteOptions>,
)
    ensures
        pairs_view(final(params)@) == pairs_view(old(params)@) + write_additions(
            opt_string_view(config.datacenter),
            w_dc(options),
        ),
{
    let ghost base = pairs_view(params@);
    let dc: Option<&String> = match options {
        Some(o) => match &o.datacenter {
            Some(d) => Some(d),
            None => config.datacenter.as_ref(),
        },
        None => config.datacenter.as_ref(),
    };
    if let Some(d) = dc {
        let ghost before = params@;
        let pair = ("dc".to_owned(), d.clone());
        let ghost pairg = pair;
        params.push(pair);
        proof {
            lemma_pairs_view_push(before, pairg);
        }
    }
    proof {
        assert(pairs_view(params@) =~= base + write_additions(
            opt_string_view(config.datacenter),
            w_dc(options),
        ));
    }
}

} // verus!
