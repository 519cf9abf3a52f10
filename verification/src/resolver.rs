//! Query resolution: bang parsing against a registry, network-aware default
//! engine selection, and the search and suggestion redirect targets.

use vstd::prelude::*;
use vstd::string::StrSliceExecFns;
use crate::encoding::{format_url, formatted};
use crate::engines::{
    duckduckgo,
    duckduckgo_view,
    google,
    google_view,
    lookup_in,
    EngineRegistry,
    EngineView,
    EntryView,
    SearchEngine,
};
use crate::text::{contains_seq, is_ws_char, str_contains, str_eq, ws_char};

verus! {

/// The ambient-network capability: the SSID of the wireless network
/// currently joined, or `None` when it cannot be determined. Callers supply
/// an implementation; nothing is assumed of what it returns, and every
/// possible answer leads to a well-defined engine choice.
pub trait NetworkContextProvider {
    /// Current wireless network name, best effort.
    fn current_ssid(&self) -> Option<String>;
}

/// The SSID substring that marks the trusted, managed network.
pub open spec fn trusted_marker() -> Seq<char> {
    "BVSD"@
}

/// Value of an optional SSID argument.
pub open spec fn ssid_view(ssid: Option<&str>) -> Option<Seq<char>> {
    match ssid {
        Some(s) => Some(s@),
        None => None,
    }
}

/// Engine chosen for a given ambient SSID: Google on a network whose name
/// carries the trusted marker, DuckDuckGo otherwise or when no SSID is
/// available.
pub open spec fn engine_for_ssid_spec(ssid: Option<Seq<char>>) -> EngineView {
    match ssid {
        None => duckduckgo_view(),
        Some(s) => if contains_seq(s, trusted_marker()) {
            google_view()
        } else {
            duckduckgo_view()
        },
    }
}

/// Default engine for a known SSID value.
pub fn engine_for_ssid(ssid: Option<&str>) -> (e: SearchEngine)
    ensures
        e@ == engine_for_ssid_spec(ssid_view(ssid)),
{
    match ssid {
        None => duckduckgo(),
        Some(s) => if str_contains(s, "BVSD") {
            google()
        } else {
            duckduckgo()
        },
    }
}

/// Default engine from the ambient network: asks the provider once and
/// decides by `engine_for_ssid`. This never fails a request; an absent SSID
/// yields the privacy-preserving default.
pub fn base_engine<P: NetworkContextProvider>(provider: &P) -> (e: SearchEngine)
    ensures
        e@ == google_view() || e@ == duckduckgo_view(),
{
    let ssid = provider.current_ssid();
    match &ssid {
        None => engine_for_ssid(None),
        Some(s) => engine_for_ssid(Some(s.as_str())),
    }
}

/// The engine used for suggestion requests that carried a bang: the engine
/// a bang selects tends to handle bang-prefixed suggestion queries poorly,
/// so DuckDuckGo's suggester stands in for it.
pub fn get_bang_suggester() -> (r: Option<SearchEngine>)
    ensures
        r matches Some(e) && e@ == duckduckgo_view(),
{
    Some(duckduckgo())
}

/// Index of the first whitespace character of `q` at or after `i`, or
/// `q.len()` when there is none.
pub open spec fn first_ws_from(q: Seq<char>, i: int) -> int
    decreases q.len() - i,
{
    if i < 0 || i >= q.len() {
        q.len() as int
    } else if is_ws_char(q[i]) {
        i
    } else {
        first_ws_from(q, i + 1)
    }
}

proof fn lemma_first_ws_bounds(q: Seq<char>, lo: int)
    requires
        0 <= lo <= q.len(),
    ensures
        lo <= first_ws_from(q, lo) <= q.len(),
    decreases q.len() - lo,
{
    if lo < q.len() && !is_ws_char(q[lo]) {
        lemma_first_ws_bounds(q, lo + 1);
    }
}

proof fn lemma_first_ws_at(q: Seq<char>, lo: int, i: int)
    requires
        0 <= lo <= i <= q.len(),
        forall|j: int| lo <= j < i ==> !is_ws_char(q[j]),
        i == q.len() || is_ws_char(q[i]),
    ensures
        first_ws_from(q, lo) == i,
    decreases i - lo,
{
    if lo < i {
        lemma_first_ws_at(q, lo + 1, i);
    }
}

/// The bang resolution of `q` against `entries`: `Some((engine, rest))`
/// when `q` leads with `!`, the keyword before the first whitespace is
/// registered, and the keyword leaves room for a remainder after its
/// separating character; `None` when resolution falls through to the
/// default engine with `q` unchanged.
pub open spec fn resolve_spec(entries: Seq<EntryView>, q: Seq<char>) -> Option<
    (EngineView, Seq<char>),
> {
    if q.len() >= 1 && q[0] == '!' {
        let b = first_ws_from(q, 1);
        let bang = q.subrange(1, b);
        match lookup_in(entries, bang) {
            Some(e) => if bang.len() + 2 <= q.len() {
                Some((e, q.skip(bang.len() as int + 2)))
            } else {
                None
            },
            None => None,
        }
    } else {
        None
    }
}

/// Selects the engine for a raw query. A query `!key rest` whose keyword is
/// registered yields that engine and `rest`; any other query — no leading
/// `!`, an unknown keyword, or no room for a remainder — yields the network
/// default and the original query unchanged, leading `!` included.
pub fn get_engine<'a, P: NetworkContextProvider>(
    registry: &EngineRegistry,
    provider: &P,
    query: &'a str,
) -> (r: (SearchEngine, &'a str))
    ensures
        match resolve_spec(registry@, query@) {
            Some((e, rest)) => r.0@ == e && r.1@ == rest,
            None => (r.0@ == google_view() || r.0@ == duckduckgo_view()) && r.1@ == query@,
        },
{
    let n = query.unicode_len();
    if n >= 1 && query.get_char(0) == '!' {
        let mut i: usize = 1;
        while i < n && !ws_char(query.get_char(i))
            invariant
                n == query@.len(),
                1 <= i <= n,
                forall|j: int| 1 <= j < i ==> !is_ws_char(query@[j]),
            decreases n - i,
        {
            i += 1;
        }
        proof {
            lemma_first_ws_at(query@, 1, i as int);
        }
        let bang = query.substring_char(1, i);
        match registry.lookup(bang) {
            Some(engine) => {
                if i < n {
                    let rest = query.substring_char(i + 1, n);
                    proof {
                        assert(query@.skip(bang@.len() as int + 2) =~= query@.subrange(
                            i as int + 1,
                            n as int,
                        ));
                    }
                    return (engine, rest);
                }
            },
            None => {},
        }
    }
    (base_engine(provider), query)
}

/// The search redirect for a raw query: the resolved engine's search
/// template, formatted with the resolved remainder.
pub fn search<P: NetworkContextProvider>(
    registry: &EngineRegistry,
    provider: &P,
    q: &str,
) -> (url: String)
    ensures
        match resolve_spec(registry@, q@) {
            Some((e, rest)) => url@ == formatted(e.search_url, rest),
            None => url@ == formatted(google_view().search_url, q@) || url@ == formatted(
                duckduckgo_view().search_url,
                q@,
            ),
        },
{
    let (engine, new_query) = get_engine(registry, provider, q);
    format_url(new_query, engine.search_url)
}

/// The suggestion redirect for a raw query. When a bang was stripped, the
/// bang suggester stands in for the resolved engine. Either way the
/// suggestion template receives the original query unchanged, bang prefix
/// included: the stand-in suggester tolerates a leading bang token in its
/// query parameter.
pub fn suggest<P: NetworkContextProvider>(
    registry: &EngineRegistry,
    provider: &P,
    q: &str,
) -> (url: String)
    ensures
        match resolve_spec(registry@, q@) {
            Some(_) => url@ == formatted(duckduckgo_view().suggest_url, q@),
            None => url@ == formatted(google_view().suggest_url, q@) || url@ == formatted(
                duckduckgo_view().suggest_url,
                q@,
            ),
        },
{
    let (resolved, new_query) = get_engine(registry, provider, q);
    let mut engine = resolved;
    proof {
        if q@.len() >= 1 && q@[0] == '!' {
            lemma_first_ws_bounds(q@, 1);
        }
    }
    if !str_eq(new_query, q) {
        engine = match get_bang_suggester() {
            Some(e) => e,
            None => engine,
        };
    }
    format_url(q, engine.suggest_url)
}

/// A query that does not lead with `!` always falls through to default
/// resolution, with the query passed on unchanged.
pub proof fn lemma_resolve_no_bang(entries: Seq<EntryView>, q: Seq<char>)
    requires
        q.len() == 0 || q[0] != '!',
    ensures
        resolve_spec(entries, q) is None,
{
}

/// A query built as `!` + keyword + space + rest, with a registered,
/// whitespace-free keyword, resolves to that keyword's engine with exactly
/// `rest` as the remainder.
pub proof fn lemma_resolve_registered_bang(entries: Seq<EntryView>, b: Seq<char>, rest: Seq<char>)
    requires
        lookup_in(entries, b) is Some,
        forall|j: int| 0 <= j < b.len() ==> !is_ws_char(b[j]),
    ensures
        ({
            let q = seq!['!'] + b + seq![' '] + rest;
            resolve_spec(entries, q) == Some((lookup_in(entries, b)->Some_0, rest))
        }),
{
    let q = seq!['!'] + b + seq![' '] + rest;
    assert(q.len() == b.len() + 2 + rest.len());
    assert(q[0] == '!');
    assert forall|j: int| 1 <= j < 1 + b.len() as int implies !is_ws_char(q[j]) by {
        assert(q[j] == b[j - 1]);
    }
    assert(q[1 + b.len() as int] == ' ');
    assert(is_ws_char(' '));
    lemma_first_ws_at(q, 1, 1 + b.len() as int);
    assert(q.subrange(1, 1 + b.len() as int) =~= b);
    assert(q.skip(b.len() as int + 2) =~= rest);
}

/// A query built as `!` + keyword + space + rest, with an unregistered,
/// whitespace-free keyword, falls through to default resolution: the bang
/// is not stripped and the full original query is passed on.
pub proof fn lemma_resolve_unknown_bang(entries: Seq<EntryView>, x: Seq<char>, rest: Seq<char>)
    requires
        lookup_in(entries, x) is None,
        forall|j: int| 0 <= j < x.len() ==> !is_ws_char(x[j]),
    ensures
        resolve_spec(entries, seq!['!'] + x + seq![' '] + rest) is None,
{
    let q = seq!['!'] + x + seq![' '] + rest;
    assert(q[0] == '!');
    assert forall|j: int| 1 <= j < 1 + x.len() as int implies !is_ws_char(q[j]) by {
        assert(q[j] == x[j - 1]);
    }
    assert(q[1 + x.len() as int] == ' ');
    assert(is_ws_char(' '));
    lemma_first_ws_at(q, 1, 1 + x.len() as int);
    assert(q.subrange(1, 1 + x.len() as int) =~= x);
}

} // verus!

