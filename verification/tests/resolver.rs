use bangs::encoding::format_url;
use bangs::engines::{standard_registry, EngineRegistry, RegistryEntry, SearchEngine};
use bangs::resolver::{
    base_engine, engine_for_ssid, get_bang_suggester, get_engine, search, suggest,
    NetworkContextProvider,
};

struct NoSsid;

impl NetworkContextProvider for NoSsid {
    fn current_ssid(&self) -> Option<String> {
        None
    }
}

struct FixedSsid(&'static str);

impl NetworkContextProvider for FixedSsid {
    fn current_ssid(&self) -> Option<String> {
        Some(self.0.to_string())
    }
}

const GOOGLE_SEARCH: &str = "https://www.google.com/search?hl=en&q={searchTerms}";
const DDG_SEARCH: &str = "https://duckduckgo.com/?q={searchTerms}";
const DDG_SUGGEST: &str = "https://duckduckgo.com/ac/?q={searchTerms}&type=list";

#[test]
fn plain_query_uses_default_engine() {
    let reg = standard_registry();
    let (engine, rest) = get_engine(&reg, &NoSsid, "plain words");
    assert_eq!(engine.search_url, DDG_SEARCH);
    assert_eq!(rest, "plain words");
}

#[test]
fn empty_query_uses_default_engine() {
    let reg = standard_registry();
    let (engine, rest) = get_engine(&reg, &NoSsid, "");
    assert_eq!(engine.search_url, DDG_SEARCH);
    assert_eq!(rest, "");
}

#[test]
fn registered_bang_strips_keyword() {
    let reg = standard_registry();
    let (engine, rest) = get_engine(&reg, &NoSsid, "!w verus project");
    assert_eq!(
        engine.search_url,
        "https://en.wikipedia.org/w/index.php?title=Special:Search&search={searchTerms}"
    );
    assert_eq!(rest, "verus project");
}

#[test]
fn every_catalog_bang_resolves() {
    let reg = standard_registry();
    let cases = [
        ("!g q", GOOGLE_SEARCH),
        ("!ddg q", DDG_SEARCH),
        (
            "!w q",
            "https://en.wikipedia.org/w/index.php?title=Special:Search&search={searchTerms}",
        ),
        (
            "!nws q",
            "https://forecast.weather.gov/zipcity.php?inputstring={searchTerms}",
        ),
        (
            "!cpp q",
            "https://en.cppreference.com/mwiki/index.php?search={searchTerms}",
        ),
        ("!rust q", "https://doc.rust-lang.org/std/?search={searchTerms}"),
        ("!crates q", "https://crates.io/search?q={searchTerms}"),
    ];
    for (query, expected) in cases {
        let (engine, rest) = get_engine(&reg, &NoSsid, query);
        assert_eq!(engine.search_url, expected);
        assert_eq!(rest, "q");
    }
}

#[test]
fn unknown_bang_keeps_full_query() {
    let reg = standard_registry();
    let (engine, rest) = get_engine(&reg, &NoSsid, "!zzz rest of it");
    assert_eq!(engine.search_url, DDG_SEARCH);
    assert_eq!(rest, "!zzz rest of it");
}

#[test]
fn bang_without_remainder_keeps_full_query() {
    let reg = standard_registry();
    let (engine, rest) = get_engine(&reg, &NoSsid, "!g");
    assert_eq!(engine.search_url, DDG_SEARCH);
    assert_eq!(rest, "!g");
}

#[test]
fn bang_with_trailing_space_leaves_empty_remainder() {
    let reg = standard_registry();
    let (engine, rest) = get_engine(&reg, &NoSsid, "!g ");
    assert_eq!(engine.search_url, GOOGLE_SEARCH);
    assert_eq!(rest, "");
}

#[test]
fn tab_ends_the_bang_keyword() {
    let reg = standard_registry();
    let (engine, rest) = get_engine(&reg, &NoSsid, "!g\tfoo");
    assert_eq!(engine.search_url, GOOGLE_SEARCH);
    assert_eq!(rest, "foo");
}

#[test]
fn lookup_finds_registered_keyword() {
    let reg = standard_registry();
    let engine = reg.lookup("cpp").unwrap();
    assert_eq!(
        engine.search_url,
        "https://en.cppreference.com/mwiki/index.php?search={searchTerms}"
    );
    assert_eq!(engine.suggest_url, DDG_SUGGEST);
    assert!(reg.lookup("unknown").is_none());
    assert!(reg.lookup("G").is_none());
    assert!(reg.lookup("").is_none());
}

#[test]
fn custom_registry_is_honoured() {
    let google = standard_registry().lookup("g").unwrap();
    let reg = EngineRegistry {
        entries: vec![RegistryEntry { bang: "search", engine: google }],
    };
    let (engine, rest) = get_engine(&reg, &NoSsid, "!search things");
    assert_eq!(engine.search_url, GOOGLE_SEARCH);
    assert_eq!(rest, "things");
    let (fallback, rest) = get_engine(&reg, &NoSsid, "!g things");
    assert_eq!(fallback.search_url, DDG_SEARCH);
    assert_eq!(rest, "!g things");
}

#[test]
fn format_url_percent_encodes_reserved_characters() {
    let url = format_url("c++ vector", "https://x/?q={searchTerms}");
    assert_eq!(url, "https://x/?q=c%2B%2B%20vector");
}

#[test]
fn format_url_without_placeholder_returns_template() {
    let url = format_url("anything", "https://example.com/fixed");
    assert_eq!(url, "https://example.com/fixed");
}

#[test]
fn format_url_encodes_in_a_single_pass() {
    let url = format_url("a%20b", "https://x/?q={searchTerms}");
    assert_eq!(url, "https://x/?q=a%2520b");
}

#[test]
fn format_url_encodes_utf8_bytes() {
    let url = format_url("caf\u{e9}", "https://x/?q={searchTerms}");
    assert_eq!(url, "https://x/?q=caf%C3%A9");
}

#[test]
fn default_engine_without_ssid_is_duckduckgo() {
    let engine = engine_for_ssid(None);
    assert_eq!(engine.search_url, DDG_SEARCH);
    let engine = base_engine(&NoSsid);
    assert_eq!(engine.search_url, DDG_SEARCH);
}

#[test]
fn default_engine_on_trusted_network_is_google() {
    let engine = engine_for_ssid(Some("BVSD-guest"));
    assert_eq!(engine.search_url, GOOGLE_SEARCH);
    let engine = base_engine(&FixedSsid("campus BVSD wifi"));
    assert_eq!(engine.search_url, GOOGLE_SEARCH);
}

#[test]
fn default_engine_on_other_network_is_duckduckgo() {
    let engine = engine_for_ssid(Some("HomeNet"));
    assert_eq!(engine.search_url, DDG_SEARCH);
    let engine = base_engine(&FixedSsid("bvsd lowercase does not count"));
    assert_eq!(engine.search_url, DDG_SEARCH);
}

#[test]
fn bang_suggester_is_duckduckgo() {
    let engine = get_bang_suggester().unwrap();
    assert_eq!(engine.suggest_url, DDG_SUGGEST);
}

#[test]
fn search_formats_the_remainder() {
    let reg = standard_registry();
    let url = search(&reg, &NoSsid, "!g rust lang");
    assert_eq!(url, "https://www.google.com/search?hl=en&q=rust%20lang");
}

#[test]
fn search_without_bang_uses_default() {
    let reg = standard_registry();
    let url = search(&reg, &NoSsid, "c++ vector");
    assert_eq!(url, "https://duckduckgo.com/?q=c%2B%2B%20vector");
    let url = search(&reg, &FixedSsid("BVSD"), "c++ vector");
    assert_eq!(url, "https://www.google.com/search?hl=en&q=c%2B%2B%20vector");
}

#[test]
fn suggest_with_bang_uses_the_suggester_and_full_query() {
    let reg = standard_registry();
    let url = suggest(&reg, &NoSsid, "!g foo");
    assert_eq!(url, "https://duckduckgo.com/ac/?q=%21g%20foo&type=list");
}

#[test]
fn suggest_without_bang_uses_resolved_engine() {
    let reg = standard_registry();
    let url = suggest(&reg, &FixedSsid("BVSD"), "foo");
    assert_eq!(
        url,
        "https://www.google.com/complete/search?hl=en&client=firefox&q=foo"
    );
    let url = suggest(&reg, &NoSsid, "foo bar");
    assert_eq!(url, "https://duckduckgo.com/ac/?q=foo%20bar&type=list");
}

#[test]
fn suggest_with_unknown_bang_is_not_overridden() {
    let reg = standard_registry();
    let url = suggest(&reg, &NoSsid, "!zzz foo");
    assert_eq!(url, "https://duckduckgo.com/ac/?q=%21zzz%20foo&type=list");
}

struct FailingLookup;

impl NetworkContextProvider for FailingLookup {
    fn current_ssid(&self) -> Option<String> {
        None
    }
}

#[test]
fn ssid_lookup_failure_never_fails_the_request() {
    let reg = standard_registry();
    let url = search(&reg, &FailingLookup, "!g");
    assert_eq!(url, "https://duckduckgo.com/?q=%21g");
}
