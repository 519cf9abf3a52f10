//! The engine catalog: search engine definitions and the registry that maps
//! a bang keyword (such as `g` or `w`) to an engine.

use vstd::prelude::*;
use crate::text::{is_ws_char, str_eq};

verus! {

/// A search engine that the service can redirect to. Each template holds one
/// `{searchTerms}` placeholder that the encoded query is substituted into.
#[derive(Clone, Copy)]
pub struct SearchEngine {
    pub search_url: &'static str,
    pub suggest_url: &'static str,
}

/// Mathematical value of a `SearchEngine`: its two URL templates as
/// character sequences.
#[verifier::ext_equal]
pub struct EngineView {
    pub search_url: Seq<char>,
    pub suggest_url: Seq<char>,
}

impl View for SearchEngine {
    type V = EngineView;

    open spec fn view(&self) -> EngineView {
        EngineView { search_url: self.search_url@, suggest_url: self.suggest_url@ }
    }
}

/// The shared suggestion template, used by engines whose native suggestion
/// API is unsuitable.
pub open spec fn default_suggest_view() -> Seq<char> {
    "https://duckduckgo.com/ac/?q={searchTerms}&type=list"@
}

pub open spec fn google_view() -> EngineView {
    EngineView {
        search_url: "https://www.google.com/search?hl=en&q={searchTerms}"@,
        suggest_url: "https://www.google.com/complete/search?hl=en&client=firefox&q={searchTerms}"@,
    }
}

pub fn google() -> (e: SearchEngine)
    ensures
        e@ == google_view(),
{
    SearchEngine {
        search_url: "https://www.google.com/search?hl=en&q={searchTerms}",
        suggest_url: "https://www.google.com/complete/search?hl=en&client=firefox&q={searchTerms}",
    }
}

pub open spec fn duckduckgo_view() -> EngineView {
    EngineView {
        search_url: "https://duckduckgo.com/?q={searchTerms}"@,
        suggest_url: default_suggest_view(),
    }
}

pub fn duckduckgo() -> (e: SearchEngine)
    ensures
        e@ == duckduckgo_view(),
{
    SearchEngine {
        search_url: "https://duckduckgo.com/?q={searchTerms}",
        suggest_url: "https://duckduckgo.com/ac/?q={searchTerms}&type=list",
    }
}

pub open spec fn wikipedia_view() -> EngineView {
    EngineView {
        search_url: "https://en.wikipedia.org/w/index.php?title=Special:Search&search={searchTerms}"@,
        suggest_url: "https://en.wikipedia.org/w/api.php?action=opensearch&search={searchTerms}&namespace=0"@,
    }
}

pub fn wikipedia() -> (e: SearchEngine)
    ensures
        e@ == wikipedia_view(),
{
    SearchEngine {
        search_url: "https://en.wikipedia.org/w/index.php?title=Special:Search&search={searchTerms}",
        suggest_url: "https://en.wikipedia.org/w/api.php?action=opensearch&search={searchTerms}&namespace=0",
    }
}

pub open spec fn nws_view() -> EngineView {
    EngineView {
        search_url: "https://forecast.weather.gov/zipcity.php?inputstring={searchTerms}"@,
        suggest_url: default_suggest_view(),
    }
}

pub fn nws() -> (e: SearchEngine)
    ensures
        e@ == nws_view(),
{
    SearchEngine {
        search_url: "https://forecast.weather.gov/zipcity.php?inputstring={searchTerms}",
        suggest_url: "https://duckduckgo.com/ac/?q={searchTerms}&type=list",
    }
}

pub open spec fn cpp_view() -> EngineView {
    EngineView {
        search_url: "https://en.cppreference.com/mwiki/index.php?search={searchTerms}"@,
        suggest_url: default_suggest_view(),
    }
}

pub fn cpp() -> (e: SearchEngine)
    ensures
        e@ == cpp_view(),
{
    SearchEngine {
        search_url: "https://en.cppreference.com/mwiki/index.php?search={searchTerms}",
        suggest_url: "https://duckduckgo.com/ac/?q={searchTerms}&type=list",
    }
}

pub open spec fn rust_docs_view() -> EngineView {
    EngineView {
        search_url: "https://doc.rust-lang.org/std/?search={searchTerms}"@,
        suggest_url: default_suggest_view(),
    }
}

pub fn rust_docs() -> (e: SearchEngine)
    ensures
        e@ == rust_docs_view(),
{
    SearchEngine {
        search_url: "https://doc.rust-lang.org/std/?search={searchTerms}",
        suggest_url: "https://duckduckgo.com/ac/?q={searchTerms}&type=list",
    }
}

pub open spec fn crates_view() -> EngineView {
    EngineView {
        search_url: "https://crates.io/search?q={searchTerms}"@,
        suggest_url: default_suggest_view(),
    }
}

pub fn crates() -> (e: SearchEngine)
    ensures
        e@ == crates_view(),
{
    SearchEngine {
        search_url: "https://crates.io/search?q={searchTerms}",
        suggest_url: "https://duckduckgo.com/ac/?q={searchTerms}&type=list",
    }
}

/// One registry entry: a bang keyword and the engine it selects.
#[derive(Clone, Copy)]
pub struct RegistryEntry {
    pub bang: &'static str,
    pub engine: SearchEngine,
}

/// Mathematical value of a `RegistryEntry`.
#[verifier::ext_equal]
pub struct EntryView {
    pub bang: Seq<char>,
    pub engine: EngineView,
}

impl View for RegistryEntry {
    type V = EntryView;

    open spec fn view(&self) -> EntryView {
        EntryView { bang: self.bang@, engine: self.engine@ }
    }
}

/// First engine among `entries` whose bang keyword equals `bang`.
pub open spec fn lookup_in(entries: Seq<EntryView>, bang: Seq<char>) -> Option<EngineView>
    decreases entries.len(),
{
    if entries.len() == 0 {
        None
    } else if entries[0].bang == bang {
        Some(entries[0].engine)
    } else {
        lookup_in(entries.drop_first(), bang)
    }
}

/// The bang-to-engine catalog. It is built once at startup and only read
/// afterwards; lookup is exact and case-sensitive.
pub struct EngineRegistry {
    pub entries: Vec<RegistryEntry>,
}

impl View for EngineRegistry {
    type V = Seq<EntryView>;

    open spec fn view(&self) -> Seq<EntryView> {
        self.entries@.map_values(|e: RegistryEntry| e@)
    }
}

impl EngineRegistry {
    /// What `lookup` returns, as a function of the registry's value.
    pub open spec fn spec_lookup(&self, bang: Seq<char>) -> Option<EngineView> {
        lookup_in(self@, bang)
    }

    /// Exact-match lookup of a bang keyword; `None` when the keyword is not
    /// registered.
    pub fn lookup(&self, bang: &str) -> (r: Option<SearchEngine>)
        ensures
            match r {
                Some(e) => self.spec_lookup(bang@) == Some(e@),
                None => self.spec_lookup(bang@) is None,
            },
    {
        let n = self.entries.len();
        let mut i: usize = 0;
        proof {
            assert(self@.skip(0) =~= self@);
        }
        while i < n
            invariant
                n == self.entries.len(),
                i <= n,
                lookup_in(self@, bang@) == lookup_in(self@.skip(i as int), bang@),
            decreases n - i,
        {
            let entry = &self.entries[i];
            if str_eq(entry.bang, bang) {
                assert(self@.skip(i as int)[0] == self@[i as int]);
                return Some(entry.engine);
            }
            proof {
                assert(self@.skip(i as int)[0] == self@[i as int]);
                assert(self@.skip(i as int).drop_first() =~= self@.skip(i as int + 1));
            }
            i += 1;
        }
        proof {
            assert(self@.skip(n as int) =~= Seq::<EntryView>::empty());
        }
        None
    }
}

/// The catalog of the service: Google, DuckDuckGo, Wikipedia, the National
/// Weather Service zip lookup, cppreference, the Rust std docs and crates.io.
pub open spec fn standard_entries() -> Seq<EntryView> {
    seq![
        EntryView { bang: "g"@, engine: google_view() },
        EntryView { bang: "ddg"@, engine: duckduckgo_view() },
        EntryView { bang: "w"@, engine: wikipedia_view() },
        EntryView { bang: "nws"@, engine: nws_view() },
        EntryView { bang: "cpp"@, engine: cpp_view() },
        EntryView { bang: "rust"@, engine: rust_docs_view() },
        EntryView { bang: "crates"@, engine: crates_view() },
    ]
}

/// A keyword that the standard catalog registers is one of its seven keys.
pub proof fn lemma_standard_key_values(b: Seq<char>)
    requires
        lookup_in(standard_entries(), b) is Some,
    ensures
        b == "g"@ || b == "ddg"@ || b == "w"@ || b == "nws"@ || b == "cpp"@ || b == "rust"@ || b
            == "crates"@,
{
    let e0 = standard_entries();
    let e1 = e0.drop_first();
    let e2 = e1.drop_first();
    let e3 = e2.drop_first();
    let e4 = e3.drop_first();
    let e5 = e4.drop_first();
    let e6 = e5.drop_first();
    let e7 = e6.drop_first();
    assert(e1[0] == e0[1] && e1[1] == e0[2] && e1[2] == e0[3] && e1[3] == e0[4] && e1[4] == e0[5]
        && e1[5] == e0[6]);
    assert(e2[0] == e0[2] && e2[1] == e0[3] && e2[2] == e0[4] && e2[3] == e0[5] && e2[4] == e0[6]);
    assert(e3[0] == e0[3] && e3[1] == e0[4] && e3[2] == e0[5] && e3[3] == e0[6]);
    assert(e4[0] == e0[4] && e4[1] == e0[5] && e4[2] == e0[6]);
    assert(e5[0] == e0[5] && e5[1] == e0[6]);
    assert(e6[0] == e0[6]);
    assert(e7.len() == 0);
    if b != e0[0].bang && b != e0[1].bang && b != e0[2].bang && b != e0[3].bang && b != e0[4].bang
        && b != e0[5].bang && b != e0[6].bang {
        assert(lookup_in(e0, b) == lookup_in(e1, b));
        assert(lookup_in(e1, b) == lookup_in(e2, b));
        assert(lookup_in(e2, b) == lookup_in(e3, b));
        assert(lookup_in(e3, b) == lookup_in(e4, b));
        assert(lookup_in(e4, b) == lookup_in(e5, b));
        assert(lookup_in(e5, b) == lookup_in(e6, b));
        assert(lookup_in(e6, b) == lookup_in(e7, b));
        assert(lookup_in(e7, b) is None);
    }
}

/// No keyword of the standard catalog contains whitespace, so each can be
/// scanned whole at the front of a query.
pub proof fn lemma_standard_keys_no_ws(b: Seq<char>)
    requires
        lookup_in(standard_entries(), b) is Some,
    ensures
        forall|j: int| 0 <= j < b.len() ==> !is_ws_char(b[j]),
{
    lemma_standard_key_values(b);
    reveal_strlit("g");
    reveal_strlit("ddg");
    reveal_strlit("w");
    reveal_strlit("nws");
    reveal_strlit("cpp");
    reveal_strlit("rust");
    reveal_strlit("crates");
    assert forall|j: int| 0 <= j < b.len() implies !is_ws_char(b[j]) by {
        if b == "g"@ {
            assert(!is_ws_char(b[j]));
        } else if b == "ddg"@ {
            assert(!is_ws_char(b[j]));
        } else if b == "w"@ {
            assert(!is_ws_char(b[j]));
        } else if b == "nws"@ {
            assert(!is_ws_char(b[j]));
        } else if b == "cpp"@ {
            assert(!is_ws_char(b[j]));
        } else if b == "rust"@ {
            assert(!is_ws_char(b[j]));
        } else {
            assert(!is_ws_char(b[j]));
        }
    }
}

/// Builds the standard catalog.
pub fn standard_registry() -> (r: EngineRegistry)
    ensures
        r@ == standard_entries(),
{
    let mut entries: Vec<RegistryEntry> = Vec::new();
    entries.push(RegistryEntry { bang: "g", engine: google() });
    entries.push(RegistryEntry { bang: "ddg", engine: duckduckgo() });
    entries.push(RegistryEntry { bang: "w", engine: wikipedia() });
    entries.push(RegistryEntry { bang: "nws", engine: nws() });
    entries.push(RegistryEntry { bang: "cpp", engine: cpp() });
    entries.push(RegistryEntry { bang: "rust", engine: rust_docs() });
    entries.push(RegistryEntry { bang: "crates", engine: crates() });
    let r = EngineRegistry { entries };
    proof {
        assert(r@ =~= standard_entries());
    }
    r
}

} // verus!
