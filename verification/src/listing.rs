//! Listing with cursor-based pagination and metadata search. The store
//! hands back pages; a session accumulates them — one page, or, in
//! all-pages mode, page after page until the store reports completion —
//! and the accumulated entries are then filtered by the search substring
//! and rendered into link records.

use vstd::prelude::*;
use vstd::string::StrSliceExecFns;
use vstd::string::StringExecFns;
use crate::auth::is_authorized;
use crate::auth::spec_authorized;
use crate::auth::spec_opt_text;
use crate::errors::ApiError;
use crate::text::has_substring;
use crate::text::spec_has_substring;
use crate::METADATA_LIMIT;

verus! {

/// The query parameters of a list request: an optional search substring,
/// an optional continuation cursor, and the all-pages flag.
pub struct ListQuery {
    pub q: Option<String>,
    pub c: Option<String>,
    pub all: Option<bool>,
}

/// One key as the store lists it: its name, the metadata stored beside it,
/// and its expiration timestamp.
pub struct StoreEntry {
    pub name: String,
    pub metadata: Option<String>,
    pub expiration: i64,
}

/// One page of a store listing: the listed keys, the continuation cursor,
/// and whether the listing is complete.
pub struct StorePage {
    pub keys: Vec<StoreEntry>,
    pub cursor: Option<String>,
    pub list_complete: bool,
}

/// A listing in progress: the mode and search carried over from the query,
/// the cursor to fetch at, the entries accumulated so far, and the store's
/// completion flag.
pub struct ListSession {
    pub all: bool,
    pub q: Option<String>,
    pub cursor: Option<String>,
    pub entries: Vec<StoreEntry>,
    pub complete: bool,
}

/// Opens a listing: authorization first, then a fresh session. The caller
/// fetches a page at the session's cursor, folds it in with `absorb`, and
/// fetches again while `absorb` asks for more.
pub fn list_begin(header: &Option<String>, tokens: &Vec<String>, query: ListQuery) -> (r: Result<
    ListSession,
    ApiError,
>)
    ensures
        !spec_authorized(spec_opt_text(*header), tokens@) ==> r == Result::<
            ListSession,
            ApiError,
        >::Err(ApiError::Forbidden),
        spec_authorized(spec_opt_text(*header), tokens@) ==> (r matches Ok(s) && s.all
            == (query.all == Option::Some(true)) && s.q == query.q && s.cursor == query.c
            && s.entries@ == Seq::<StoreEntry>::empty() && s.complete == false),
{
    if !is_authorized(header, tokens) {
        return Result::Err(ApiError::Forbidden);
    }
    let all = match query.all {
        Option::Some(v) => v,
        Option::None => false,
    };
    Result::Ok(
        ListSession { all, q: query.q, cursor: query.c, entries: Vec::new(), complete: false },
    )
}

impl ListSession {
    /// Folds one fetched page into the session: the page's entries are
    /// appended in order, the completion flag is taken over, and in
    /// all-pages mode the cursor advances to the page's cursor (one-page
    /// mode answers with the cursor the request supplied). Returns whether
    /// another page must still be fetched.
    pub fn absorb(&mut self, page: StorePage) -> (more: bool)
        ensures
            final(self).entries@ == old(self).entries@ + page.keys@,
            final(self).cursor == (if old(self).all {
                page.cursor
            } else {
                old(self).cursor
            }),
            final(self).complete == page.list_complete,
            final(self).all == old(self).all,
            final(self).q == old(self).q,
            more == (old(self).all && !page.list_complete),
    {
        let StorePage { keys: mut incoming, cursor, list_complete } = page;
        self.entries.append(&mut incoming);
        if self.all {
            self.cursor = cursor;
        }
        self.complete = list_complete;
        self.all && !list_complete
    }
}

/// One rendered link: the key, the `{domain}/{key}` form, the
/// `https://{domain}/{key}` form, the recoverable target, and the
/// expiration timestamp.
pub struct LinkRecord {
    pub key: String,
    pub no_https: String,
    pub full: String,
    pub url: Option<String>,
    pub expiration: i64,
}

/// The answer of a list request.
pub struct ListAnswer {
    pub cursor: Option<String>,
    pub list_complete: bool,
    pub links: Vec<LinkRecord>,
}

/// The metadata text of an entry; an entry without metadata reads as empty.
pub open spec fn spec_meta_text(m: Option<String>) -> Seq<char> {
    match m {
        Option::Some(s) => s@,
        Option::None => Seq::<char>::empty(),
    }
}

/// Whether the search keeps an entry: no search keeps every entry; a search
/// keeps the entries whose metadata contains it as a substring (an entry
/// without metadata is dropped).
pub open spec fn spec_keeps(e: StoreEntry, q: Option<Seq<char>>) -> bool {
    match q {
        Option::None => true,
        Option::Some(needle) => e.metadata matches Some(m) && spec_has_substring(m@, needle),
    }
}

/// How one entry is rendered. The `url` field carries the metadata text —
/// the truncated stored target — unless that text is exactly the truncation
/// limit long, the mark that the true target is too large to recover, in
/// which case the field is omitted.
pub open spec fn spec_link_matches(r: LinkRecord, e: StoreEntry, domain: Seq<char>) -> bool {
    &&& r.key@ == e.name@
    &&& r.no_https@ == domain + "/"@ + e.name@
    &&& r.full@ == "https://"@ + domain + "/"@ + e.name@
    &&& (spec_meta_text(e.metadata).len() == METADATA_LIMIT as int ==> r.url is None)
    &&& (spec_meta_text(e.metadata).len() != METADATA_LIMIT as int ==> (r.url matches Some(u) && u@
        == spec_meta_text(e.metadata)))
    &&& r.expiration == e.expiration
}

/// The links rendered for a run of entries, in order: exactly the entries
/// the search keeps, each rendered per `spec_link_matches`.
pub open spec fn spec_rendered(
    entries: Seq<StoreEntry>,
    q: Option<Seq<char>>,
    domain: Seq<char>,
    links: Seq<LinkRecord>,
) -> bool
    decreases entries.len(),
{
    if entries.len() == 0 {
        links.len() == 0
    } else if spec_keeps(entries.last(), q) {
        links.len() >= 1 && spec_link_matches(links.last(), entries.last(), domain)
            && spec_rendered(entries.drop_last(), q, domain, links.drop_last())
    } else {
        spec_rendered(entries.drop_last(), q, domain, links)
    }
}

/// Renders the accumulated session into the list answer: the entries are
/// filtered by the search substring and each survivor becomes a link record
/// for the given request domain.
pub fn list_render(session: &ListSession, domain: &str) -> (r: ListAnswer)
    ensures
        spec_opt_text(r.cursor) == spec_opt_text(session.cursor),
        r.list_complete == session.complete,
        spec_rendered(session.entries@, spec_opt_text(session.q), domain@, r.links@),
{
    let mut links: Vec<LinkRecord> = Vec::new();
    let n = session.entries.len();
    let mut i: usize = 0;
    while i < n
        invariant
            n == session.entries@.len(),
            i <= n,
            spec_rendered(
                session.entries@.subrange(0, i as int),
                spec_opt_text(session.q),
                domain@,
                links@,
            ),
        decreases n - i,
    {
        let e = &session.entries[i];
        let keep = match &session.q {
            Option::None => true,
            Option::Some(needle) => match &e.metadata {
                Option::Some(m) => has_substring(m.as_str(), needle.as_str()),
                Option::None => false,
            },
        };
        let ghost prev_links = links@;
        if keep {
            let meta_len = match &e.metadata {
                Option::Some(m) => m.as_str().unicode_len(),
                Option::None => 0,
            };
            let url: Option<String> = if meta_len == METADATA_LIMIT {
                Option::None
            } else {
                match &e.metadata {
                    Option::Some(m) => Option::Some(m.clone()),
                    Option::None => Option::Some(String::new()),
                }
            };
            let rec = LinkRecord {
                key: e.name.clone(),
                no_https: domain.to_owned().concat("/").concat(e.name.as_str()),
                full: String::from_str("https://").concat(domain).concat("/").concat(
                    e.name.as_str(),
                ),
                url,
                expiration: e.expiration,
            };
            links.push(rec);
        }
        i += 1;
        proof {
            let done = session.entries@.subrange(0, i as int);
            assert(done.drop_last() =~= session.entries@.subrange(0, i as int - 1));
            assert(done.last() == session.entries@[i as int - 1]);
            if keep {
                assert(links@.drop_last() =~= prev_links);
            }
        }
    }
    proof {
        assert(session.entries@.subrange(0, n as int) =~= session.entries@);
    }
    let cursor = match &session.cursor {
        Option::Some(c) => Option::Some(c.clone()),
        Option::None => Option::None,
    };
    ListAnswer { cursor, list_complete: session.complete, links }
}

} // verus!
