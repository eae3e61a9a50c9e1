//! The command line client's logic: the shortcuts it bootstraps a data plane with, the
//! requests it makes of the control plane, and how it pages through shortcuts.
use vstd::prelude::*;

use crate::control_plane::model::{
    AddAliasesForShortcutRequest, Alias, CreateShortcutRequest, CreateShortcutRequestShortcut,
    DeleteAliasForShortcutRequest, DeleteShortcutRequest, GetShortcutRequest, ListShortcutsRequest,
    ListShortcutsResponse, Shortcut,
    Reference, SetDefaultFallbackShortcutRequest, ShortcutReference, UpdateShortcutRequest,
    UpdateShortcutRequestShortcut,
};
use crate::control_plane::service::str_views;
use crate::data_plane::error::RpcCode;
use crate::data_plane::pagination::{PaginationContinuation, PaginationRequest};

verus! {

/// A shortcut that bootstrapping creates.
#[derive(Debug, Clone)]
pub struct BootstrapShortcut {
    pub url: &'static str,
    pub is_fallback: bool,
    pub description: &'static str,
    pub aliases: Vec<&'static str>,
}

/// A bootstrap shortcut as plain values: URL, whether it is a fallback, description, aliases.
pub open spec fn bootstrap_view(shortcut: BootstrapShortcut) -> (Seq<char>, bool, Seq<char>, Seq<Seq<char>>) {
    (shortcut.url@, shortcut.is_fallback, shortcut.description@, str_views(shortcut.aliases@))
}

/// The shortcuts that bootstrapping creates, in order.
pub open spec fn bootstrap_table() -> Seq<(Seq<char>, bool, Seq<char>, Seq<Seq<char>>)> {
    seq![
        ("https://duckduckgo.com/?q={}"@, true, "Search DuckDuckGo"@, seq!["d"@, "ddg"@, "duckduckgo"@]),
        ("https://www.google.com/search?q={}"@, true, "Search Google"@, seq!["g"@, "google"@]),
        ("https://www.bing.com/search?q={}"@, true, "Search Bing"@, seq!["bing"@]),
        ("https://en.wikipedia.org/w/index.php?search={}"@, false, "Search Wikipedia"@, seq!["w"@, "wp"@, "wikipedia"@]),
        ("https://www.reddit.com/r/{}"@, false, "Reddit - browse to specific subreddit"@, seq!["r"@, "reddit"@]),
        ("https://www.reddit.com/search/?q={}"@, false, "Search Reddit"@, seq!["rs"@, "redditsearch"@]),
        ("https://x.com/{}"@, false, "Twitter (X) - browse to specific user"@, seq!["x"@, "t"@, "twitter"@]),
        ("https://x.com/search?q={}"@, false, "Search Twitter (X)"@, seq!["xs"@, "ts"@, "xsearch"@, "twittersearch"@]),
        ("https://www.youtube.com/results?search_query={}"@, false, "Search YouTube"@, seq!["yt"@, "youtube"@]),
        ("https://www.youtube.com/c/{}"@, false, "YouTube - browse to specific channel"@, seq!["ytc"@, "youtubechannel"@]),
        ("https://time.gov/?t=24"@, false, "National Institute of Standards and Technology (NIST) Official Time"@, seq!["time"@]),
        ("https://www.nytimes.com"@, false, "New York Times - main page"@, seq!["nyt"@, "newyorktimes"@]),
        ("https://cnn.com/"@, false, "CNN - main page"@, seq!["cnn"@]),
        ("https://www.foxnews.com/"@, false, "Fox News - main page"@, seq!["fox"@, "foxnews"@]),
        ("https://apnews.com/"@, false, "Associated Press News - main page"@, seq!["apn"@, "apnews"@]),
        ("https://www.npr.org/"@, false, "NPR News - main page"@, seq!["npr"@]),
        ("https://pypi.org/project/{}/"@, false, "PyPI - browse to specific library"@, seq!["pypi"@]),
        ("https://pypi.org/search/?q={}"@, false, "Search PyPI"@, seq!["pypis"@, "pypisearch"@]),
        ("https://crates.io/crates/{}"@, false, "Crates.io - browse to specific crate"@, seq!["crate"@]),
        ("https://crates.io/search?q={}"@, false, "Search Crates.io"@, seq!["crates"@, "cratesearch"@]),
        ("https://www.npmjs.com/package/{}"@, false, "NPM - browse to specific package"@, seq!["npmp"@, "npmpackage"@]),
        ("https://www.npmjs.com/search?q={}"@, false, "Search NPM"@, seq!["npms"@, "npmsearch"@]),
        ("https://rubygems.org/gems/{}"@, false, "RubyGems - browse to specific gem"@, seq!["gem"@]),
        ("https://rubygems.org/search?query={}"@, false, "Search RubyGems"@, seq!["gems"@, "gemsearch"@]),
    ]
}

/// The shortcuts to bootstrap a data plane with: common search engines, news sites and
/// package registries; the search engines are fallbacks.
pub fn bootstrap_shortcuts() -> (shortcuts: Vec<BootstrapShortcut>)
    ensures
        shortcuts@.map_values(|s: BootstrapShortcut| bootstrap_view(s)) == bootstrap_table(),
{
    let mut shortcuts: Vec<BootstrapShortcut> = Vec::new();
    shortcuts.push(BootstrapShortcut { url: "https://duckduckgo.com/?q={}", is_fallback: true, description: "Search DuckDuckGo", aliases: vec!["d", "ddg", "duckduckgo"] });
    assert(str_views(shortcuts@[0].aliases@) =~= bootstrap_table()[0].3);
    shortcuts.push(BootstrapShortcut { url: "https://www.google.com/search?q={}", is_fallback: true, description: "Search Google", aliases: vec!["g", "google"] });
    assert(str_views(shortcuts@[1].aliases@) =~= bootstrap_table()[1].3);
    shortcuts.push(BootstrapShortcut { url: "https://www.bing.com/search?q={}", is_fallback: true, description: "Search Bing", aliases: vec!["bing"] });
    assert(str_views(shortcuts@[2].aliases@) =~= bootstrap_table()[2].3);
    shortcuts.push(BootstrapShortcut { url: "https://en.wikipedia.org/w/index.php?search={}", is_fallback: false, description: "Search Wikipedia", aliases: vec!["w", "wp", "wikipedia"] });
    assert(str_views(shortcuts@[3].aliases@) =~= bootstrap_table()[3].3);
    shortcuts.push(BootstrapShortcut { url: "https://www.reddit.com/r/{}", is_fallback: false, description: "Reddit - browse to specific subreddit", aliases: vec!["r", "reddit"] });
    assert(str_views(shortcuts@[4].aliases@) =~= bootstrap_table()[4].3);
    shortcuts.push(BootstrapShortcut { url: "https://www.reddit.com/search/?q={}", is_fallback: false, description: "Search Reddit", aliases: vec!["rs", "redditsearch"] });
    assert(str_views(shortcuts@[5].aliases@) =~= bootstrap_table()[5].3);
    shortcuts.push(BootstrapShortcut { url: "https://x.com/{}", is_fallback: false, description: "Twitter (X) - browse to specific user", aliases: vec!["x", "t", "twitter"] });
    assert(str_views(shortcuts@[6].aliases@) =~= bootstrap_table()[6].3);
    shortcuts.push(BootstrapShortcut { url: "https://x.com/search?q={}", is_fallback: false, description: "Search Twitter (X)", aliases: vec!["xs", "ts", "xsearch", "twittersearch"] });
    assert(str_views(shortcuts@[7].aliases@) =~= bootstrap_table()[7].3);
    shortcuts.push(BootstrapShortcut { url: "https://www.youtube.com/results?search_query={}", is_fallback: false, description: "Search YouTube", aliases: vec!["yt", "youtube"] });
    assert(str_views(shortcuts@[8].aliases@) =~= bootstrap_table()[8].3);
    shortcuts.push(BootstrapShortcut { url: "https://www.youtube.com/c/{}", is_fallback: false, description: "YouTube - browse to specific channel", aliases: vec!["ytc", "youtubechannel"] });
    assert(str_views(shortcuts@[9].aliases@) =~= bootstrap_table()[9].3);
    shortcuts.push(BootstrapShortcut { url: "https://time.gov/?t=24", is_fallback: false, description: "National Institute of Standards and Technology (NIST) Official Time", aliases: vec!["time"] });
    assert(str_views(shortcuts@[10].aliases@) =~= bootstrap_table()[10].3);
    shortcuts.push(BootstrapShortcut { url: "https://www.nytimes.com", is_fallback: false, description: "New York Times - main page", aliases: vec!["nyt", "newyorktimes"] });
    assert(str_views(shortcuts@[11].aliases@) =~= bootstrap_table()[11].3);
    shortcuts.push(BootstrapShortcut { url: "https://cnn.com/", is_fallback: false, description: "CNN - main page", aliases: vec!["cnn"] });
    assert(str_views(shortcuts@[12].aliases@) =~= bootstrap_table()[12].3);
    shortcuts.push(BootstrapShortcut { url: "https://www.foxnews.com/", is_fallback: false, description: "Fox News - main page", aliases: vec!["fox", "foxnews"] });
    assert(str_views(shortcuts@[13].aliases@) =~= bootstrap_table()[13].3);
    shortcuts.push(BootstrapShortcut { url: "https://apnews.com/", is_fallback: false, description: "Associated Press News - main page", aliases: vec!["apn", "apnews"] });
    assert(str_views(shortcuts@[14].aliases@) =~= bootstrap_table()[14].3);
    shortcuts.push(BootstrapShortcut { url: "https://www.npr.org/", is_fallback: false, description: "NPR News - main page", aliases: vec!["npr"] });
    assert(str_views(shortcuts@[15].aliases@) =~= bootstrap_table()[15].3);
    shortcuts.push(BootstrapShortcut { url: "https://pypi.org/project/{}/", is_fallback: false, description: "PyPI - browse to specific library", aliases: vec!["pypi"] });
    assert(str_views(shortcuts@[16].aliases@) =~= bootstrap_table()[16].3);
    shortcuts.push(BootstrapShortcut { url: "https://pypi.org/search/?q={}", is_fallback: false, description: "Search PyPI", aliases: vec!["pypis", "pypisearch"] });
    assert(str_views(shortcuts@[17].aliases@) =~= bootstrap_table()[17].3);
    shortcuts.push(BootstrapShortcut { url: "https://crates.io/crates/{}", is_fallback: false, description: "Crates.io - browse to specific crate", aliases: vec!["crate"] });
    assert(str_views(shortcuts@[18].aliases@) =~= bootstrap_table()[18].3);
    shortcuts.push(BootstrapShortcut { url: "https://crates.io/search?q={}", is_fallback: false, description: "Search Crates.io", aliases: vec!["crates", "cratesearch"] });
    assert(str_views(shortcuts@[19].aliases@) =~= bootstrap_table()[19].3);
    shortcuts.push(BootstrapShortcut { url: "https://www.npmjs.com/package/{}", is_fallback: false, description: "NPM - browse to specific package", aliases: vec!["npmp", "npmpackage"] });
    assert(str_views(shortcuts@[20].aliases@) =~= bootstrap_table()[20].3);
    shortcuts.push(BootstrapShortcut { url: "https://www.npmjs.com/search?q={}", is_fallback: false, description: "Search NPM", aliases: vec!["npms", "npmsearch"] });
    assert(str_views(shortcuts@[21].aliases@) =~= bootstrap_table()[21].3);
    shortcuts.push(BootstrapShortcut { url: "https://rubygems.org/gems/{}", is_fallback: false, description: "RubyGems - browse to specific gem", aliases: vec!["gem"] });
    assert(str_views(shortcuts@[22].aliases@) =~= bootstrap_table()[22].3);
    shortcuts.push(BootstrapShortcut { url: "https://rubygems.org/search?query={}", is_fallback: false, description: "Search RubyGems", aliases: vec!["gems", "gemsearch"] });
    assert(str_views(shortcuts@[23].aliases@) =~= bootstrap_table()[23].3);
    assert(shortcuts@.map_values(|s: BootstrapShortcut| bootstrap_view(s)) =~= bootstrap_table());
    shortcuts
}

/// Whether `aliases` are new aliases (without UID) named `names`, in order.
pub open spec fn new_aliases(aliases: Seq<Alias>, names: Seq<Seq<char>>) -> bool {
    &&& aliases.len() == names.len()
    &&& forall|i: int| 0 <= i < names.len() ==> (#[trigger] aliases[i]).uid is None && aliases[i].name@ == names[i]
}

/// New aliases, without UID, with these names.
fn aliases_named(names: &Vec<&str>) -> (aliases: Vec<Alias>)
    ensures
        new_aliases(aliases@, str_views(names@)),
{
    let mut aliases: Vec<Alias> = Vec::new();
    let mut i: usize = 0;
    while i < names.len()
        invariant
            i <= names.len(),
            aliases@.len() == i,
            forall|k: int| 0 <= k < i ==> (#[trigger] aliases@[k]).uid is None && aliases@[k].name@ == names@[k]@,
        decreases names.len() - i,
    {
        aliases.push(Alias { uid: None, name: names[i].to_owned() });
        i = i + 1;
    }
    aliases
}

/// The request to create a shortcut.
pub fn create_shortcut_request(url: &str, is_fallback: bool, description: &str, aliases: &Vec<&str>) -> (request:
    CreateShortcutRequest)
    ensures
        request.shortcut matches Some(s) && s.url@ == url@ && s.is_fallback == Some(is_fallback)
            && s.description@ == description@ && new_aliases(s.aliases@, str_views(aliases@)),
{
    CreateShortcutRequest {
        shortcut: Some(
            CreateShortcutRequestShortcut {
                url: url.to_owned(),
                is_fallback: Some(is_fallback),
                description: description.to_owned(),
                aliases: aliases_named(aliases),
            },
        ),
    }
}

/// The request that creates a bootstrap shortcut.
pub fn bootstrap_request(shortcut: &BootstrapShortcut) -> (request: CreateShortcutRequest)
    ensures
        request.shortcut matches Some(s) && s.url@ == shortcut.url@ && s.is_fallback == Some(shortcut.is_fallback)
            && s.description@ == shortcut.description@ && new_aliases(s.aliases@, str_views(shortcut.aliases@)),
{
    create_shortcut_request(shortcut.url, shortcut.is_fallback, shortcut.description, &shortcut.aliases)
}

/// The request to add aliases to the shortcut with this UID.
pub fn add_aliases_request(uid: &str, aliases: &Vec<&str>) -> (request: AddAliasesForShortcutRequest)
    ensures
        request.shortcut_ref matches Some(r) && r.reference matches Some(Reference::Uid(u)) && u@ == uid@,
        new_aliases(request.aliases@, str_views(aliases@)),
{
    AddAliasesForShortcutRequest {
        shortcut_ref: Some(ShortcutReference { reference: Some(Reference::Uid(uid.to_owned())) }),
        aliases: aliases_named(aliases),
    }
}

/// Whether a reference names the shortcut by this UID, or else by this alias, or holds
/// nothing without either.
pub open spec fn reference_names(reference: Option<Reference>, uid: Option<&str>, alias: Option<&str>) -> bool {
    match uid {
        Some(u) => reference matches Some(Reference::Uid(x)) && x@ == u@,
        None => match alias {
            Some(a) => reference matches Some(Reference::Alias(x)) && x@ == a@,
            None => reference is None,
        },
    }
}

/// The reference to a shortcut by UID, or else by alias; it holds neither without either.
pub fn shortcut_reference(uid: Option<&str>, alias: Option<&str>) -> (shortcut_ref: ShortcutReference)
    ensures
        reference_names(shortcut_ref.reference, uid, alias),
{
    match uid {
        Some(u) => ShortcutReference { reference: Some(Reference::Uid(u.to_owned())) },
        None => match alias {
            Some(a) => ShortcutReference { reference: Some(Reference::Alias(a.to_owned())) },
            None => ShortcutReference { reference: None },
        },
    }
}

/// The request to get a shortcut by UID or alias.
pub fn get_shortcut_request(uid: Option<&str>, alias: Option<&str>) -> (request: GetShortcutRequest)
    ensures
        request.shortcut_ref matches Some(r) && reference_names(r.reference, uid, alias),
{
    GetShortcutRequest { shortcut_ref: Some(shortcut_reference(uid, alias)) }
}

/// The request to make the shortcut with this UID or alias the default fallback.
pub fn set_default_fallback_request(uid: Option<&str>, alias: Option<&str>) -> (request:
    SetDefaultFallbackShortcutRequest)
    ensures
        request.shortcut_ref matches Some(r) && reference_names(r.reference, uid, alias),
{
    SetDefaultFallbackShortcutRequest { shortcut_ref: Some(shortcut_reference(uid, alias)) }
}

/// The request to delete the shortcut with this UID.
pub fn delete_shortcut_request(uid: &str) -> (request: DeleteShortcutRequest)
    ensures
        request.shortcut_ref matches Some(r) && r.reference matches Some(Reference::Uid(u)) && u@ == uid@,
{
    DeleteShortcutRequest { shortcut_ref: Some(ShortcutReference { reference: Some(Reference::Uid(uid.to_owned())) }) }
}

/// The request to delete an alias.
pub fn delete_alias_request(alias: &str) -> (request: DeleteAliasForShortcutRequest)
    ensures
        request.alias@ == alias@,
{
    DeleteAliasForShortcutRequest { alias: alias.to_owned() }
}

/// The request to update the shortcut with this UID or alias with the given values.
pub fn update_shortcut_request(
    uid: Option<&str>,
    alias: Option<&str>,
    url: Option<&str>,
    is_fallback: Option<bool>,
    description: Option<&str>,
) -> (request: UpdateShortcutRequest)
    ensures
        request.shortcut_ref matches Some(r) && reference_names(r.reference, uid, alias),
        request.shortcut matches Some(s) && opt_text(s.url) == opt_str_text(url) && s.is_fallback == is_fallback
            && opt_text(s.description) == opt_str_text(description),
{
    UpdateShortcutRequest {
        shortcut_ref: Some(shortcut_reference(uid, alias)),
        shortcut: Some(
            UpdateShortcutRequestShortcut {
                url: match url {
                    Some(u) => Some(u.to_owned()),
                    None => None,
                },
                is_fallback,
                description: match description {
                    Some(d) => Some(d.to_owned()),
                    None => None,
                },
            },
        ),
    }
}

pub open spec fn opt_text(s: Option<String>) -> Option<Seq<char>> {
    match s {
        Some(t) => Some(t@),
        None => None,
    }
}

pub open spec fn opt_str_text(s: Option<&str>) -> Option<Seq<char>> {
    match s {
        Some(t) => Some(t@),
        None => None,
    }
}

/// The request for the first page of shortcuts, of this size.
pub fn list_shortcuts_request(page_size: i32) -> (request: ListShortcutsRequest)
    ensures
        request.pagination == Some(PaginationRequest { continuation_token: None, page_size: Some(page_size) }),
{
    ListShortcutsRequest { pagination: Some(PaginationRequest { continuation_token: None, page_size: Some(page_size) }) }
}

/// The request for the next page, given how the last page said to continue: none when it
/// gave no continuation token.
pub open spec fn next_list_request_of(continuation: Option<PaginationContinuation>) -> Option<ListShortcutsRequest> {
    match continuation {
        Some(PaginationContinuation { next_continuation_token: Some(token) }) => Some(
            ListShortcutsRequest {
                pagination: Some(PaginationRequest { continuation_token: Some(token), page_size: None }),
            },
        ),
        _ => None,
    }
}

/// The request for the next page of shortcuts, given how the last page said to continue:
/// none when it gave no continuation token.
pub fn next_list_request(continuation: Option<PaginationContinuation>) -> (request: Option<ListShortcutsRequest>)
    ensures
        request == next_list_request_of(continuation),
{
    match continuation {
        Some(PaginationContinuation { next_continuation_token: Some(token) }) => Some(
            ListShortcutsRequest {
                pagination: Some(PaginationRequest { continuation_token: Some(token), page_size: None }),
            },
        ),
        _ => None,
    }
}

/// One step of listing every shortcut: add the page that came back to those listed so
/// far, and ask for the next page, if the page says there is one.
pub fn list_step(listed: Vec<Shortcut>, page: ListShortcutsResponse) -> (next: (Vec<Shortcut>, Option<ListShortcutsRequest>))
    ensures
        next.0@ == listed@ + page.shortcuts@,
        next.1 == next_list_request_of(page.pagination_continuation),
{
    let mut all = listed;
    let mut shortcuts = page.shortcuts;
    all.append(&mut shortcuts);
    (all, next_list_request(page.pagination_continuation))
}

/// The alias of the search engine that bootstrapping makes the default fallback: Google
/// if asked for, else DuckDuckGo if asked for, else none.
pub fn bootstrap_default_fallback(google: bool, duckduckgo: bool) -> (alias: Option<&'static str>)
    ensures
        google ==> (alias matches Some(a) && a@ == "google"@),
        !google && duckduckgo ==> (alias matches Some(a) && a@ == "duckduckgo"@),
        !google && !duckduckgo ==> alias is None,
{
    if google {
        Some("google")
    } else if duckduckgo {
        Some("duckduckgo")
    } else {
        None
    }
}

/// What the last request of a bootstrap gave.
#[derive(Debug, Clone, Copy, PartialEq, Eq, Structural)]
pub enum BootstrapEvent {
    /// Nothing was requested yet.
    Begin,
    /// The shortcut was created.
    Created,
    /// Creating the shortcut failed with this status code.
    CreateFailed(RpcCode),
    /// The default fallback was set.
    DefaultFallbackSet,
    /// Setting the default fallback failed.
    DefaultFallbackFailed,
}

/// What a bootstrap does next.
#[derive(Debug)]
pub enum BootstrapAction {
    /// Create this shortcut.
    Create(CreateShortcutRequest),
    /// Make this shortcut the default fallback.
    SetDefaultFallback(SetDefaultFallbackShortcutRequest),
    /// Stop: the bootstrap failed.
    Fail,
    /// Stop: the bootstrap is complete.
    Done,
}

/// A bootstrap's next action as plain values.
pub enum BootstrapMove {
    /// Create the bootstrap shortcut at this position of the table.
    Create(nat),
    /// Make the shortcut with this alias the default fallback.
    SetDefaultFallback(Seq<char>),
    Fail,
    Done,
}

/// The alias that bootstrapping makes the default fallback.
pub open spec fn bootstrap_default_alias(google: bool, duckduckgo: bool) -> Option<Seq<char>> {
    if google {
        Some("google"@)
    } else if duckduckgo {
        Some("duckduckgo"@)
    } else {
        None
    }
}

/// Go on with a bootstrap that has dealt with the shortcuts before position `next`: create
/// the next shortcut of the table, then set the default fallback if one was asked for,
/// then stop.
pub open spec fn bootstrap_proceed(next: nat, google: bool, duckduckgo: bool) -> (nat, BootstrapMove) {
    if next < bootstrap_table().len() {
        ((next + 1) as nat, BootstrapMove::Create(next))
    } else if next == bootstrap_table().len() {
        match bootstrap_default_alias(google, duckduckgo) {
            Some(alias) => ((next + 1) as nat, BootstrapMove::SetDefaultFallback(alias)),
            None => ((next + 1) as nat, BootstrapMove::Done),
        }
    } else {
        (next, BootstrapMove::Done)
    }
}

/// The next position and action of a bootstrap, given what its last request gave: a
/// shortcut that already exists is no failure, any other failure stops the bootstrap.
pub open spec fn bootstrap_next(next: nat, google: bool, duckduckgo: bool, event: BootstrapEvent) -> (
    nat,
    BootstrapMove,
) {
    match event {
        BootstrapEvent::CreateFailed(code) => if code == RpcCode::AlreadyExists {
            bootstrap_proceed(next, google, duckduckgo)
        } else {
            (next, BootstrapMove::Fail)
        },
        BootstrapEvent::DefaultFallbackSet => (next, BootstrapMove::Done),
        BootstrapEvent::DefaultFallbackFailed => (next, BootstrapMove::Fail),
        _ => bootstrap_proceed(next, google, duckduckgo),
    }
}

/// Whether a request creates the bootstrap shortcut at position `i` of the table.
pub open spec fn is_bootstrap_request(request: CreateShortcutRequest, i: int) -> bool {
    &&& request.shortcut matches Some(s)
    &&& s.url@ == bootstrap_table()[i].0
    &&& s.is_fallback == Some(bootstrap_table()[i].1)
    &&& s.description@ == bootstrap_table()[i].2
    &&& new_aliases(s.aliases@, bootstrap_table()[i].3)
}

/// Whether an action is the move `m`.
pub open spec fn bootstrap_action_is(action: BootstrapAction, m: BootstrapMove) -> bool {
    match m {
        BootstrapMove::Create(i) => action matches BootstrapAction::Create(r) && is_bootstrap_request(r, i as int),
        BootstrapMove::SetDefaultFallback(alias) => action matches BootstrapAction::SetDefaultFallback(r) && (
        r.shortcut_ref matches Some(sr) && sr.reference matches Some(Reference::Alias(x)) && x@ == alias),
        BootstrapMove::Fail => action is Fail,
        BootstrapMove::Done => action is Done,
    }
}

fn bootstrap_proceed_step(next: usize, google: bool, duckduckgo: bool) -> (out: (usize, BootstrapAction))
    ensures
        out.0 == bootstrap_proceed(next as nat, google, duckduckgo).0,
        bootstrap_action_is(out.1, bootstrap_proceed(next as nat, google, duckduckgo).1),
{
    let shortcuts = bootstrap_shortcuts();
    proof {
        assert(shortcuts@.map_values(|s: BootstrapShortcut| bootstrap_view(s)).len() == shortcuts@.len());
    }
    if next < shortcuts.len() {
        let request = bootstrap_request(&shortcuts[next]);
        proof {
            assert(bootstrap_view(shortcuts@[next as int]) == bootstrap_table()[next as int]);
        }
        (next + 1, BootstrapAction::Create(request))
    } else if next == shortcuts.len() {
        match bootstrap_default_fallback(google, duckduckgo) {
            Some(alias) => (next + 1, BootstrapAction::SetDefaultFallback(set_default_fallback_request(None, Some(alias)))),
            None => (next + 1, BootstrapAction::Done),
        }
    } else {
        (next, BootstrapAction::Done)
    }
}

/// One step of bootstrapping a data plane: `next` is the position in the table of the
/// next shortcut to create. Each shortcut of the table is created in turn, one that
/// already exists is skipped, any other failure stops the bootstrap; then the default
/// fallback is set if Google or DuckDuckGo was asked for. The caller performs each action
/// and hands back what it gave.
pub fn bootstrap_step(next: usize, google: bool, duckduckgo: bool, event: BootstrapEvent) -> (out: (
    usize,
    BootstrapAction,
))
    ensures
        out.0 == bootstrap_next(next as nat, google, duckduckgo, event).0,
        bootstrap_action_is(out.1, bootstrap_next(next as nat, google, duckduckgo, event).1),
{
    match event {
        BootstrapEvent::CreateFailed(code) => {
            if code == RpcCode::AlreadyExists {
                bootstrap_proceed_step(next, google, duckduckgo)
            } else {
                (next, BootstrapAction::Fail)
            }
        },
        BootstrapEvent::DefaultFallbackSet => (next, BootstrapAction::Done),
        BootstrapEvent::DefaultFallbackFailed => (next, BootstrapAction::Fail),
        _ => bootstrap_proceed_step(next, google, duckduckgo),
    }
}

/// Every shortcut that bootstrapping creates has at least one alias, as the control
/// plane requires of a new shortcut.
pub proof fn lemma_bootstrap_shortcuts_have_aliases()
    ensures
        forall|i: int| 0 <= i < bootstrap_table().len() ==> #[trigger] bootstrap_table()[i].3.len() > 0,
{
}

/// The aliases that bootstrapping can make the default fallback, `google` and
/// `duckduckgo`, belong to its shortcuts, and only to fallbacks: only a fallback may
/// become the default fallback.
pub proof fn lemma_bootstrap_default_fallbacks_are_fallbacks()
    ensures
        bootstrap_table()[0].3.contains("duckduckgo"@),
        bootstrap_table()[1].3.contains("google"@),
        forall|i: int|
            0 <= i < bootstrap_table().len() && #[trigger] bootstrap_table()[i].3.contains("google"@)
                ==> bootstrap_table()[i].1,
        forall|i: int|
            0 <= i < bootstrap_table().len() && #[trigger] bootstrap_table()[i].3.contains("duckduckgo"@)
                ==> bootstrap_table()[i].1,
{
    reveal_strlit("apn");
    reveal_strlit("apnews");
    reveal_strlit("bing");
    reveal_strlit("cnn");
    reveal_strlit("crate");
    reveal_strlit("crates");
    reveal_strlit("cratesearch");
    reveal_strlit("d");
    reveal_strlit("ddg");
    reveal_strlit("duckduckgo");
    reveal_strlit("fox");
    reveal_strlit("foxnews");
    reveal_strlit("g");
    reveal_strlit("google");
    reveal_strlit("gem");
    reveal_strlit("gems");
    reveal_strlit("gemsearch");
    reveal_strlit("npmp");
    reveal_strlit("npmpackage");
    reveal_strlit("npms");
    reveal_strlit("npmsearch");
    reveal_strlit("npr");
    reveal_strlit("nyt");
    reveal_strlit("newyorktimes");
    reveal_strlit("pypi");
    reveal_strlit("pypis");
    reveal_strlit("pypisearch");
    reveal_strlit("r");
    reveal_strlit("reddit");
    reveal_strlit("rs");
    reveal_strlit("redditsearch");
    reveal_strlit("time");
    reveal_strlit("w");
    reveal_strlit("wp");
    reveal_strlit("wikipedia");
    reveal_strlit("x");
    reveal_strlit("t");
    reveal_strlit("twitter");
    reveal_strlit("xs");
    reveal_strlit("ts");
    reveal_strlit("xsearch");
    reveal_strlit("twittersearch");
    reveal_strlit("yt");
    reveal_strlit("youtube");
    reveal_strlit("ytc");
    reveal_strlit("youtubechannel");
    assert(bootstrap_table()[0].3[2] == "duckduckgo"@);
    assert(bootstrap_table()[1].3[1] == "google"@);
    assert forall|i: int|
        0 <= i < bootstrap_table().len() && !(#[trigger] bootstrap_table()[i]).1 implies
            !bootstrap_table()[i].3.contains("google"@) && !bootstrap_table()[i].3.contains("duckduckgo"@) by {
        if i == 0 {
        } else if i == 1 {
        } else if i == 2 {
        } else if i == 3 {
            let names = bootstrap_table()[3].3;
            assert forall|k: int| 0 <= k < names.len() implies names[k] != "google"@ && names[k] != "duckduckgo"@ by {
                if k == 0 {
                } else if k == 1 {
                } else if k == 2 {
                }
            }
        } else if i == 4 {
            let names = bootstrap_table()[4].3;
            assert forall|k: int| 0 <= k < names.len() implies names[k] != "google"@ && names[k] != "duckduckgo"@ by {
                if k == 0 {
                } else if k == 1 {
                    assert(names[1][0] != "google"@[0]);
                }
            }
        } else if i == 5 {
            let names = bootstrap_table()[5].3;
            assert forall|k: int| 0 <= k < names.len() implies names[k] != "google"@ && names[k] != "duckduckgo"@ by {
                if k == 0 {
                } else if k == 1 {
                }
            }
        } else if i == 6 {
            let names = bootstrap_table()[6].3;
            assert forall|k: int| 0 <= k < names.len() implies names[k] != "google"@ && names[k] != "duckduckgo"@ by {
                if k == 0 {
                } else if k == 1 {
                } else if k == 2 {
                }
            }
        } else if i == 7 {
            let names = bootstrap_table()[7].3;
            assert forall|k: int| 0 <= k < names.len() implies names[k] != "google"@ && names[k] != "duckduckgo"@ by {
                if k == 0 {
                } else if k == 1 {
                } else if k == 2 {
                } else if k == 3 {
                }
            }
        } else if i == 8 {
            let names = bootstrap_table()[8].3;
            assert forall|k: int| 0 <= k < names.len() implies names[k] != "google"@ && names[k] != "duckduckgo"@ by {
                if k == 0 {
                } else if k == 1 {
                }
            }
        } else if i == 9 {
            let names = bootstrap_table()[9].3;
            assert forall|k: int| 0 <= k < names.len() implies names[k] != "google"@ && names[k] != "duckduckgo"@ by {
                if k == 0 {
                } else if k == 1 {
                }
            }
        } else if i == 10 {
            let names = bootstrap_table()[10].3;
            assert forall|k: int| 0 <= k < names.len() implies names[k] != "google"@ && names[k] != "duckduckgo"@ by {
                if k == 0 {
                }
            }
        } else if i == 11 {
            let names = bootstrap_table()[11].3;
            assert forall|k: int| 0 <= k < names.len() implies names[k] != "google"@ && names[k] != "duckduckgo"@ by {
                if k == 0 {
                } else if k == 1 {
                }
            }
        } else if i == 12 {
            let names = bootstrap_table()[12].3;
            assert forall|k: int| 0 <= k < names.len() implies names[k] != "google"@ && names[k] != "duckduckgo"@ by {
                if k == 0 {
                }
            }
        } else if i == 13 {
            let names = bootstrap_table()[13].3;
            assert forall|k: int| 0 <= k < names.len() implies names[k] != "google"@ && names[k] != "duckduckgo"@ by {
                if k == 0 {
                } else if k == 1 {
                }
            }
        } else if i == 14 {
            let names = bootstrap_table()[14].3;
            assert forall|k: int| 0 <= k < names.len() implies names[k] != "google"@ && names[k] != "duckduckgo"@ by {
                if k == 0 {
                } else if k == 1 {
                    assert(names[1][0] != "google"@[0]);
                }
            }
        } else if i == 15 {
            let names = bootstrap_table()[15].3;
            assert forall|k: int| 0 <= k < names.len() implies names[k] != "google"@ && names[k] != "duckduckgo"@ by {
                if k == 0 {
                }
            }
        } else if i == 16 {
            let names = bootstrap_table()[16].3;
            assert forall|k: int| 0 <= k < names.len() implies names[k] != "google"@ && names[k] != "duckduckgo"@ by {
                if k == 0 {
                }
            }
        } else if i == 17 {
            let names = bootstrap_table()[17].3;
            assert forall|k: int| 0 <= k < names.len() implies names[k] != "google"@ && names[k] != "duckduckgo"@ by {
                if k == 0 {
                } else if k == 1 {
                    assert(names[1][0] != "duckduckgo"@[0]);
                }
            }
        } else if i == 18 {
            let names = bootstrap_table()[18].3;
            assert forall|k: int| 0 <= k < names.len() implies names[k] != "google"@ && names[k] != "duckduckgo"@ by {
                if k == 0 {
                }
            }
        } else if i == 19 {
            let names = bootstrap_table()[19].3;
            assert forall|k: int| 0 <= k < names.len() implies names[k] != "google"@ && names[k] != "duckduckgo"@ by {
                if k == 0 {
                    assert(names[0][0] != "google"@[0]);
                } else if k == 1 {
                }
            }
        } else if i == 20 {
            let names = bootstrap_table()[20].3;
            assert forall|k: int| 0 <= k < names.len() implies names[k] != "google"@ && names[k] != "duckduckgo"@ by {
                if k == 0 {
                } else if k == 1 {
                    assert(names[1][0] != "duckduckgo"@[0]);
                }
            }
        } else if i == 21 {
            let names = bootstrap_table()[21].3;
            assert forall|k: int| 0 <= k < names.len() implies names[k] != "google"@ && names[k] != "duckduckgo"@ by {
                if k == 0 {
                } else if k == 1 {
                }
            }
        } else if i == 22 {
            let names = bootstrap_table()[22].3;
            assert forall|k: int| 0 <= k < names.len() implies names[k] != "google"@ && names[k] != "duckduckgo"@ by {
                if k == 0 {
                }
            }
        } else if i == 23 {
            let names = bootstrap_table()[23].3;
            assert forall|k: int| 0 <= k < names.len() implies names[k] != "google"@ && names[k] != "duckduckgo"@ by {
                if k == 0 {
                } else if k == 1 {
                }
            }
        }
    }
}

/// Whether bootstrapping creates the alias `alias` for a shortcut with this URL,
/// fallback flag and description.
pub open spec fn bootstraps(alias: Seq<char>, url: Seq<char>, is_fallback: bool, description: Seq<char>) -> bool {
    exists|i: int|
        0 <= i < bootstrap_table().len() && (#[trigger] bootstrap_table()[i]).0 == url && bootstrap_table()[i].1
            == is_fallback && bootstrap_table()[i].2 == description && bootstrap_table()[i].3.contains(alias)
}

/// The number of aliases in a table of shortcuts.
pub open spec fn alias_total(table: Seq<(Seq<char>, bool, Seq<char>, Seq<Seq<char>>)>) -> nat
    decreases table.len(),
{
    if table.len() == 0 {
        0
    } else {
        table.last().3.len() + alias_total(table.drop_last())
    }
}

/// Bootstrapping creates 24 shortcuts with 46 aliases in all, and each alias leads to its
/// shortcut: `d`, `ddg` and `duckduckgo` to the DuckDuckGo search (a fallback), `g` and
/// `google` to the Google search (a fallback), `w`, `wp` and `wikipedia` to the Wikipedia
/// search, and so on for every news site and package registry.
pub proof fn lemma_bootstrap_aliases()
    ensures
        bootstrap_table().len() == 24,
        alias_total(bootstrap_table()) == 46,
        bootstraps("d"@, "https://duckduckgo.com/?q={}"@, true, "Search DuckDuckGo"@),
        bootstraps("ddg"@, "https://duckduckgo.com/?q={}"@, true, "Search DuckDuckGo"@),
        bootstraps("duckduckgo"@, "https://duckduckgo.com/?q={}"@, true, "Search DuckDuckGo"@),
        bootstraps("g"@, "https://www.google.com/search?q={}"@, true, "Search Google"@),
        bootstraps("google"@, "https://www.google.com/search?q={}"@, true, "Search Google"@),
        bootstraps("bing"@, "https://www.bing.com/search?q={}"@, true, "Search Bing"@),
        bootstraps("w"@, "https://en.wikipedia.org/w/index.php?search={}"@, false, "Search Wikipedia"@),
        bootstraps("wp"@, "https://en.wikipedia.org/w/index.php?search={}"@, false, "Search Wikipedia"@),
        bootstraps("wikipedia"@, "https://en.wikipedia.org/w/index.php?search={}"@, false, "Search Wikipedia"@),
        bootstraps("r"@, "https://www.reddit.com/r/{}"@, false, "Reddit - browse to specific subreddit"@),
        bootstraps("reddit"@, "https://www.reddit.com/r/{}"@, false, "Reddit - browse to specific subreddit"@),
        bootstraps("rs"@, "https://www.reddit.com/search/?q={}"@, false, "Search Reddit"@),
        bootstraps("redditsearch"@, "https://www.reddit.com/search/?q={}"@, false, "Search Reddit"@),
        bootstraps("x"@, "https://x.com/{}"@, false, "Twitter (X) - browse to specific user"@),
        bootstraps("t"@, "https://x.com/{}"@, false, "Twitter (X) - browse to specific user"@),
        bootstraps("twitter"@, "https://x.com/{}"@, false, "Twitter (X) - browse to specific user"@),
        bootstraps("xs"@, "https://x.com/search?q={}"@, false, "Search Twitter (X)"@),
        bootstraps("ts"@, "https://x.com/search?q={}"@, false, "Search Twitter (X)"@),
        bootstraps("xsearch"@, "https://x.com/search?q={}"@, false, "Search Twitter (X)"@),
        bootstraps("twittersearch"@, "https://x.com/search?q={}"@, false, "Search Twitter (X)"@),
        bootstraps("yt"@, "https://www.youtube.com/results?search_query={}"@, false, "Search YouTube"@),
        bootstraps("youtube"@, "https://www.youtube.com/results?search_query={}"@, false, "Search YouTube"@),
        bootstraps("ytc"@, "https://www.youtube.com/c/{}"@, false, "YouTube - browse to specific channel"@),
        bootstraps("youtubechannel"@, "https://www.youtube.com/c/{}"@, false, "YouTube - browse to specific channel"@),
        bootstraps("time"@, "https://time.gov/?t=24"@, false, "National Institute of Standards and Technology (NIST) Official Time"@),
        bootstraps("nyt"@, "https://www.nytimes.com"@, false, "New York Times - main page"@),
        bootstraps("newyorktimes"@, "https://www.nytimes.com"@, false, "New York Times - main page"@),
        bootstraps("cnn"@, "https://cnn.com/"@, false, "CNN - main page"@),
        bootstraps("fox"@, "https://www.foxnews.com/"@, false, "Fox News - main page"@),
        bootstraps("foxnews"@, "https://www.foxnews.com/"@, false, "Fox News - main page"@),
        bootstraps("apn"@, "https://apnews.com/"@, false, "Associated Press News - main page"@),
        bootstraps("apnews"@, "https://apnews.com/"@, false, "Associated Press News - main page"@),
        bootstraps("npr"@, "https://www.npr.org/"@, false, "NPR News - main page"@),
        bootstraps("pypi"@, "https://pypi.org/project/{}/"@, false, "PyPI - browse to specific library"@),
        bootstraps("pypis"@, "https://pypi.org/search/?q={}"@, false, "Search PyPI"@),
        bootstraps("pypisearch"@, "https://pypi.org/search/?q={}"@, false, "Search PyPI"@),
        bootstraps("crate"@, "https://crates.io/crates/{}"@, false, "Crates.io - browse to specific crate"@),
        bootstraps("crates"@, "https://crates.io/search?q={}"@, false, "Search Crates.io"@),
        bootstraps("cratesearch"@, "https://crates.io/search?q={}"@, false, "Search Crates.io"@),
        bootstraps("npmp"@, "https://www.npmjs.com/package/{}"@, false, "NPM - browse to specific package"@),
        bootstraps("npmpackage"@, "https://www.npmjs.com/package/{}"@, false, "NPM - browse to specific package"@),
        bootstraps("npms"@, "https://www.npmjs.com/search?q={}"@, false, "Search NPM"@),
        bootstraps("npmsearch"@, "https://www.npmjs.com/search?q={}"@, false, "Search NPM"@),
        bootstraps("gem"@, "https://rubygems.org/gems/{}"@, false, "RubyGems - browse to specific gem"@),
        bootstraps("gems"@, "https://rubygems.org/search?query={}"@, false, "Search RubyGems"@),
        bootstraps("gemsearch"@, "https://rubygems.org/search?query={}"@, false, "Search RubyGems"@),
{
    reveal_with_fuel(alias_total, 25);
    assert(bootstrap_table()[0].3[0] == "d"@);
    assert(bootstrap_table()[0].3.contains("d"@));
    assert(bootstrap_table()[0].3[1] == "ddg"@);
    assert(bootstrap_table()[0].3.contains("ddg"@));
    assert(bootstrap_table()[0].3[2] == "duckduckgo"@);
    assert(bootstrap_table()[0].3.contains("duckduckgo"@));
    assert(bootstrap_table()[1].3[0] == "g"@);
    assert(bootstrap_table()[1].3.contains("g"@));
    assert(bootstrap_table()[1].3[1] == "google"@);
    assert(bootstrap_table()[1].3.contains("google"@));
    assert(bootstrap_table()[2].3[0] == "bing"@);
    assert(bootstrap_table()[2].3.contains("bing"@));
    assert(bootstrap_table()[3].3[0] == "w"@);
    assert(bootstrap_table()[3].3.contains("w"@));
    assert(bootstrap_table()[3].3[1] == "wp"@);
    assert(bootstrap_table()[3].3.contains("wp"@));
    assert(bootstrap_table()[3].3[2] == "wikipedia"@);
    assert(bootstrap_table()[3].3.contains("wikipedia"@));
    assert(bootstrap_table()[4].3[0] == "r"@);
    assert(bootstrap_table()[4].3.contains("r"@));
    assert(bootstrap_table()[4].3[1] == "reddit"@);
    assert(bootstrap_table()[4].3.contains("reddit"@));
    assert(bootstrap_table()[5].3[0] == "rs"@);
    assert(bootstrap_table()[5].3.contains("rs"@));
    assert(bootstrap_table()[5].3[1] == "redditsearch"@);
    assert(bootstrap_table()[5].3.contains("redditsearch"@));
    assert(bootstrap_table()[6].3[0] == "x"@);
    assert(bootstrap_table()[6].3.contains("x"@));
    assert(bootstrap_table()[6].3[1] == "t"@);
    assert(bootstrap_table()[6].3.contains("t"@));
    assert(bootstrap_table()[6].3[2] == "twitter"@);
    assert(bootstrap_table()[6].3.contains("twitter"@));
    assert(bootstrap_table()[7].3[0] == "xs"@);
    assert(bootstrap_table()[7].3.contains("xs"@));
    assert(bootstrap_table()[7].3[1] == "ts"@);
    assert(bootstrap_table()[7].3.contains("ts"@));
    assert(bootstrap_table()[7].3[2] == "xsearch"@);
    assert(bootstrap_table()[7].3.contains("xsearch"@));
    assert(bootstrap_table()[7].3[3] == "twittersearch"@);
    assert(bootstrap_table()[7].3.contains("twittersearch"@));
    assert(bootstrap_table()[8].3[0] == "yt"@);
    assert(bootstrap_table()[8].3.contains("yt"@));
    assert(bootstrap_table()[8].3[1] == "youtube"@);
    assert(bootstrap_table()[8].3.contains("youtube"@));
    assert(bootstrap_table()[9].3[0] == "ytc"@);
    assert(bootstrap_table()[9].3.contains("ytc"@));
    assert(bootstrap_table()[9].3[1] == "youtubechannel"@);
    assert(bootstrap_table()[9].3.contains("youtubechannel"@));
    assert(bootstrap_table()[10].3[0] == "time"@);
    assert(bootstrap_table()[10].3.contains("time"@));
    assert(bootstrap_table()[11].3[0] == "nyt"@);
    assert(bootstrap_table()[11].3.contains("nyt"@));
    assert(bootstrap_table()[11].3[1] == "newyorktimes"@);
    assert(bootstrap_table()[11].3.contains("newyorktimes"@));
    assert(bootstrap_table()[12].3[0] == "cnn"@);
    assert(bootstrap_table()[12].3.contains("cnn"@));
    assert(bootstrap_table()[13].3[0] == "fox"@);
    assert(bootstrap_table()[13].3.contains("fox"@));
    assert(bootstrap_table()[13].3[1] == "foxnews"@);
    assert(bootstrap_table()[13].3.contains("foxnews"@));
    assert(bootstrap_table()[14].3[0] == "apn"@);
    assert(bootstrap_table()[14].3.contains("apn"@));
    assert(bootstrap_table()[14].3[1] == "apnews"@);
    assert(bootstrap_table()[14].3.contains("apnews"@));
    assert(bootstrap_table()[15].3[0] == "npr"@);
    assert(bootstrap_table()[15].3.contains("npr"@));
    assert(bootstrap_table()[16].3[0] == "pypi"@);
    assert(bootstrap_table()[16].3.contains("pypi"@));
    assert(bootstrap_table()[17].3[0] == "pypis"@);
    assert(bootstrap_table()[17].3.contains("pypis"@));
    assert(bootstrap_table()[17].3[1] == "pypisearch"@);
    assert(bootstrap_table()[17].3.contains("pypisearch"@));
    assert(bootstrap_table()[18].3[0] == "crate"@);
    assert(bootstrap_table()[18].3.contains("crate"@));
    assert(bootstrap_table()[19].3[0] == "crates"@);
    assert(bootstrap_table()[19].3.contains("crates"@));
    assert(bootstrap_table()[19].3[1] == "cratesearch"@);
    assert(bootstrap_table()[19].3.contains("cratesearch"@));
    assert(bootstrap_table()[20].3[0] == "npmp"@);
    assert(bootstrap_table()[20].3.contains("npmp"@));
    assert(bootstrap_table()[20].3[1] == "npmpackage"@);
    assert(bootstrap_table()[20].3.contains("npmpackage"@));
    assert(bootstrap_table()[21].3[0] == "npms"@);
    assert(bootstrap_table()[21].3.contains("npms"@));
    assert(bootstrap_table()[21].3[1] == "npmsearch"@);
    assert(bootstrap_table()[21].3.contains("npmsearch"@));
    assert(bootstrap_table()[22].3[0] == "gem"@);
    assert(bootstrap_table()[22].3.contains("gem"@));
    assert(bootstrap_table()[23].3[0] == "gems"@);
    assert(bootstrap_table()[23].3.contains("gems"@));
    assert(bootstrap_table()[23].3[1] == "gemsearch"@);
    assert(bootstrap_table()[23].3.contains("gemsearch"@));
}

/// A bootstrap creates the shortcuts of the table one after the other, in order, with no
/// gap: after the shortcut at position `n` it creates the one at `n + 1`; a shortcut that
/// already exists is passed over just as one that was created, and any other failure
/// stops the bootstrap. After the last shortcut it makes Google, or else DuckDuckGo, the
/// default fallback when asked to, and otherwise is done.
pub proof fn lemma_bootstrap_creates_in_order(n: nat, google: bool, duckduckgo: bool, code: RpcCode)
    ensures
        n < bootstrap_table().len() ==> bootstrap_next(n, google, duckduckgo, BootstrapEvent::Created) == (
            n + 1,
            BootstrapMove::Create(n),
        ),
        n < bootstrap_table().len() ==> bootstrap_next(n, google, duckduckgo, BootstrapEvent::Begin) == (
            n + 1,
            BootstrapMove::Create(n),
        ),
        bootstrap_next(n, google, duckduckgo, BootstrapEvent::CreateFailed(RpcCode::AlreadyExists))
            == bootstrap_next(n, google, duckduckgo, BootstrapEvent::Created),
        code != RpcCode::AlreadyExists ==> bootstrap_next(n, google, duckduckgo, BootstrapEvent::CreateFailed(code)).1
            is Fail,
        n == bootstrap_table().len() && google ==> bootstrap_next(n, google, duckduckgo, BootstrapEvent::Created).1
            == BootstrapMove::SetDefaultFallback("google"@),
        n == bootstrap_table().len() && !google && duckduckgo ==> bootstrap_next(
            n,
            google,
            duckduckgo,
            BootstrapEvent::Created,
        ).1 == BootstrapMove::SetDefaultFallback("duckduckgo"@),
        n == bootstrap_table().len() && !google && !duckduckgo ==> bootstrap_next(
            n,
            google,
            duckduckgo,
            BootstrapEvent::Created,
        ).1 is Done,
        bootstrap_next(n, google, duckduckgo, BootstrapEvent::DefaultFallbackSet).1 is Done,
        bootstrap_next(n, google, duckduckgo, BootstrapEvent::DefaultFallbackFailed).1 is Fail,
{
}

} // verus!
