//! EasyList / EasyPrivacy network matching through the `adblock` engine:
//! which list files a configuration loads, building the engine from their
//! text, and asking it about one request. Reading the files and sharing
//! the engine between threads is left to the caller.

use vstd::prelude::*;
use crate::bookmarks_chrome::{join_path, path_join};
use crate::url_match::string_seq_views;

verus! {

#[verifier::external_type_specification]
#[verifier::external_body]
pub struct ExEngine(adblock::Engine);

#[verifier::external_type_specification]
#[verifier::external_body]
pub struct ExFilterSet(adblock::lists::FilterSet);

/// Which list files to load from `filters_dir`.
pub struct FilterEngineConfig {
    pub easylist: bool,
    pub easyprivacy: bool,
    pub filters_dir: String,
}

/// The list files a configuration asks for, in load order.
pub open spec fn list_paths(easylist: bool, easyprivacy: bool, dir: Seq<char>) -> Seq<Seq<char>> {
    (if easylist {
        seq![path_join(dir, "easylist.txt"@)]
    } else {
        Seq::empty()
    }) + (if easyprivacy {
        seq![path_join(dir, "easyprivacy.txt"@)]
    } else {
        Seq::empty()
    })
}

pub fn list_files(config: &FilterEngineConfig) -> (r: Vec<String>)
    ensures
        string_seq_views(r@) == list_paths(config.easylist, config.easyprivacy, config.filters_dir@),
{
    let mut r: Vec<String> = Vec::new();
    if config.easylist {
        r.push(join_path(config.filters_dir.as_str(), "easylist.txt"));
    }
    let ghost first = string_seq_views(r@);
    if config.easyprivacy {
        r.push(join_path(config.filters_dir.as_str(), "easyprivacy.txt"));
    }
    assert(string_seq_views(r@) =~= list_paths(
        config.easylist,
        config.easyprivacy,
        config.filters_dir@,
    ));
    r
}

/// The list texts a filter set holds, in the order they were added (its
/// `list_sources`, each parsed with the standard ABP/uBO syntax).
pub uninterp spec fn filter_set_lists(set: adblock::lists::FilterSet) -> Seq<Seq<char>>;

/// The list texts an engine was built from, in order.
pub uninterp spec fn engine_lists(engine: adblock::Engine) -> Seq<Seq<char>>;

/// `FilterSet::new(false)`: an empty set that keeps no debug information.
#[verifier::external_body]
fn new_filter_set() -> (r: adblock::lists::FilterSet)
    ensures
        filter_set_lists(r) == Seq::<Seq<char>>::empty(),
{
    adblock::lists::FilterSet::new(false)
}

/// `FilterSet::add_filter_list` with the standard (ABP/uBO) syntax: the
/// text is appended to the set's list sources.
#[verifier::external_body]
fn add_filter_list(set: &mut adblock::lists::FilterSet, text: String)
    ensures
        filter_set_lists(*final(set)) == filter_set_lists(*old(set)).push(text@),
{
    let _ = set.add_filter_list(
        text,
        adblock::lists::ParseOptions {
            format: adblock::lists::FilterFormat::Standard,
            ..adblock::lists::ParseOptions::default()
        },
    );
}

/// `Engine::new_with_filter_set`: an engine over the set's lists.
#[verifier::external_body]
fn engine_from_filter_set(set: adblock::lists::FilterSet) -> (r: adblock::Engine)
    ensures
        engine_lists(r) == filter_set_lists(set),
{
    adblock::Engine::new_with_filter_set(set)
}

/// Whether `adblock::request::Request::new` accepts these arguments (it
/// fails when the URL has no host it can parse); a function of them alone.
pub uninterp spec fn request_accepted(
    url: Seq<char>,
    source_url: Seq<char>,
    request_type: Seq<char>,
    method: Seq<char>,
) -> bool;

/// `BlockerResult::should_block` of what `Engine::check_network_request`
/// answers for the request built from these arguments, on an engine built
/// from `lists` with no tags enabled and no resources: a matched important
/// rule, or a matched rule without a matched exception. A function of the
/// lists and the request alone.
pub uninterp spec fn adblock_blocks(
    lists: Seq<Seq<char>>,
    url: Seq<char>,
    source_url: Seq<char>,
    request_type: Seq<char>,
    method: Seq<char>,
) -> bool;

/// `Request::new` (its error dropped), then `Engine::check_network_request`
/// and `BlockerResult::should_block` on the request: `None` when the
/// request cannot be formed, else the engine's verdict.
#[verifier::external_body]
fn engine_blocks(
    engine: &adblock::Engine,
    url: &str,
    source_url: &str,
    request_type: &str,
    method: &str,
) -> (r: Option<bool>)
    ensures
        r is Some == request_accepted(url@, source_url@, request_type@, method@),
        r matches Some(b) ==> b == adblock_blocks(
            engine_lists(*engine),
            url@,
            source_url@,
            request_type@,
            method@,
        ),
{
    match adblock::request::Request::new(url, source_url, request_type, method) {
        Ok(request) => Some(engine.check_network_request(&request).should_block()),
        Err(_) => None,
    }
}

/// A built filter engine.
pub struct FilterEngine {
    engine: adblock::Engine,
}

impl FilterEngine {
    /// The list texts the engine was built from, in order.
    pub closed spec fn lists(&self) -> Seq<Seq<char>> {
        engine_lists(self.engine)
    }

    /// Builds an engine from the text of every list that was read, in
    /// order; no lists, no engine.
    pub fn from_lists(texts: Vec<String>) -> (r: Option<FilterEngine>)
        ensures
            r is Some <==> texts@.len() > 0,
            r matches Some(e) ==> e.lists() == string_seq_views(texts@),
    {
        if texts.len() == 0 {
            return None;
        }
        let ghost all = string_seq_views(texts@);
        let mut set = new_filter_set();
        let mut texts = texts;
        while texts.len() > 0
            invariant
                filter_set_lists(set) + string_seq_views(texts@) == all,
            decreases texts@.len(),
        {
            let ghost before = texts@;
            let t = texts.remove(0);
            add_filter_list(&mut set, t);
            assert(string_seq_views(before) =~= seq![t@] + string_seq_views(texts@));
        }
        assert(filter_set_lists(set) =~= all);
        Some(FilterEngine { engine: engine_from_filter_set(set) })
    }
}

/// What kind of resource a request loads.
#[derive(Clone, Copy, Debug, PartialEq, Eq, Structural)]
pub enum ResourceKind {
    MainFrame,
    SubFrame,
    Stylesheet,
    Script,
    Image,
    Font,
    Xhr,
    Media,
    Ping,
    CspReport,
    Favicon,
    Other,
}

/// The request type name the filter rules use for a resource kind.
pub open spec fn request_type_spec(kind: ResourceKind) -> &'static str {
    match kind {
        ResourceKind::MainFrame => "document",
        ResourceKind::SubFrame => "sub_frame",
        ResourceKind::Stylesheet => "stylesheet",
        ResourceKind::Script => "script",
        ResourceKind::Image => "image",
        ResourceKind::Font => "font",
        ResourceKind::Xhr => "xmlhttprequest",
        ResourceKind::Media => "media",
        ResourceKind::Ping => "ping",
        ResourceKind::CspReport => "csp_report",
        ResourceKind::Favicon => "image",
        ResourceKind::Other => "other",
    }
}

pub fn request_type(kind: ResourceKind) -> (r: &'static str)
    ensures
        r == request_type_spec(kind),
{
    match kind {
        ResourceKind::MainFrame => "document",
        ResourceKind::SubFrame => "sub_frame",
        ResourceKind::Stylesheet => "stylesheet",
        ResourceKind::Script => "script",
        ResourceKind::Image => "image",
        ResourceKind::Font => "font",
        ResourceKind::Xhr => "xmlhttprequest",
        ResourceKind::Media => "media",
        ResourceKind::Ping => "ping",
        ResourceKind::CspReport => "csp_report",
        ResourceKind::Favicon => "image",
        ResourceKind::Other => "other",
    }
}

/// The page a request counts as coming from: its initiator, or the URL
/// itself when there is none.
pub open spec fn source_of(url: Seq<char>, source_url: Seq<char>) -> Seq<char> {
    if source_url.len() == 0 {
        url
    } else {
        source_url
    }
}

/// The engine's verdict on a `GET` request for `url` from the page at
/// `source_url` (the URL itself when empty): blocked when there is an
/// engine, the request can be formed, and a rule of its lists blocks it.
pub open spec fn engine_verdict(
    engine: Option<&FilterEngine>,
    url: Seq<char>,
    source_url: Seq<char>,
    kind: ResourceKind,
) -> bool {
    let source = source_of(url, source_url);
    &&& engine is Some
    &&& request_accepted(url, source, request_type_spec(kind)@, "GET"@)
    &&& adblock_blocks(engine->0.lists(), url, source, request_type_spec(kind)@, "GET"@)
}

/// Whether an enabled EasyList/EasyPrivacy rule blocks the request: never
/// without an engine, nor when the request cannot be formed; otherwise
/// the engine decides.
pub fn check_request(engine: Option<&FilterEngine>, url: &str, source_url: &str, kind: ResourceKind) -> (r:
    bool)
    ensures
        r == engine_verdict(engine, url@, source_url@, kind),
{
    let e = match engine {
        Some(e) => e,
        None => {
            return false;
        },
    };
    let source = if source_url.is_empty() {
        url
    } else {
        source_url
    };
    match engine_blocks(&e.engine, url, source, request_type(kind), "GET") {
        Some(b) => b,
        None => false,
    }
}

} // verus!
