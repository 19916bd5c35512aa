use vstd::prelude::*;
use vstd::string::StringExecFns;
use crate::cache::{Cache, CacheKey, CacheKeyV, CachedResponse, CachedResponseV, SearchKind};
use crate::errors::{Error, ErrorV};
use crate::models::{CodeSearchResponse, RateLimit, SearchResponse};

verus! {

// ---------------------------------------------------------------------------
// HTTP status classification
// ---------------------------------------------------------------------------

/// How an HTTP status of a search response is classified, with the raw body
/// as context: the three specific codes first, then the general client and
/// server classes, and no error for anything else.
pub open spec fn classified_error(status: u16, body: Seq<char>) -> Option<ErrorV> {
    if status == 422 {
        Option::Some(ErrorV::InvalidQuery(body))
    } else if status == 401 {
        Option::Some(ErrorV::AuthenticationFailed(body))
    } else if status == 403 {
        Option::Some(ErrorV::PermissionDenied(body))
    } else if 400 <= status && status <= 499 {
        Option::Some(ErrorV::UnexpectedClientError(body))
    } else if 500 <= status && status <= 599 {
        Option::Some(ErrorV::UnexpectedServerError(body))
    } else {
        Option::None
    }
}

/// Turns a response status and raw body into the error the status class
/// calls for, or into `Ok` when the status is no error at all.
pub fn classify_status(status: u16, body: &str) -> (r: Result<(), Error>)
    ensures
        match r {
            Result::Ok(_) => classified_error(status, body@) is None,
            Result::Err(e) => Option::Some(e.deep_view()) == classified_error(status, body@),
        },
{
    if status == 422 {
        Result::Err(Error::InvalidQuery(body.to_owned()))
    } else if status == 401 {
        Result::Err(Error::AuthenticationFailed(body.to_owned()))
    } else if status == 403 {
        Result::Err(Error::PermissionDenied(body.to_owned()))
    } else if 400 <= status && status <= 499 {
        Result::Err(Error::UnexpectedClientError(body.to_owned()))
    } else if 500 <= status && status <= 599 {
        Result::Err(Error::UnexpectedServerError(body.to_owned()))
    } else {
        Result::Ok(())
    }
}

// ---------------------------------------------------------------------------
// Cache keys for the two search operations
// ---------------------------------------------------------------------------

/// The page size a search uses when the caller gives none.
pub open spec fn per_page_or_default(per_page: Option<u32>) -> u32 {
    match per_page {
        Option::Some(pp) => pp,
        Option::None => 10,
    }
}

/// The full code-search expression: the query, then a ` filename:<x>`
/// qualifier when a filename filter is given.
pub open spec fn code_query_text(query: Seq<char>, filename: Option<Seq<char>>) -> Seq<char> {
    match filename {
        Option::Some(f) => query + " filename:"@ + f,
        Option::None => query,
    }
}

/// The key a repository search is cached under.
pub open spec fn repo_key_view(query: Seq<char>, per_page: Option<u32>) -> CacheKeyV {
    CacheKeyV {
        kind: SearchKind::Repositories,
        query: query,
        per_page: per_page_or_default(per_page),
    }
}

/// The key a code search is cached under: it is derived from the full
/// expression, filename filter included, so filtered and unfiltered
/// searches never collide.
pub open spec fn code_key_view(
    query: Seq<char>,
    filename: Option<Seq<char>>,
    per_page: Option<u32>,
) -> CacheKeyV {
    CacheKeyV {
        kind: SearchKind::Code,
        query: code_query_text(query, filename),
        per_page: per_page_or_default(per_page),
    }
}

/// Appends the ` filename:<x>` qualifier to a code-search query when a
/// filename filter is given.
pub fn build_code_query(query: &str, filename: Option<&str>) -> (r: String)
    ensures
        r@ == code_query_text(query@, filename.deep_view()),
{
    let mut full = query.to_owned();
    match filename {
        Option::Some(fname) => {
            full.append(" filename:");
            full.append(fname);
        },
        Option::None => {},
    }
    proof {
        assert(full@ =~= code_query_text(query@, filename.deep_view()));
    }
    full
}

// ---------------------------------------------------------------------------
// Search steps: consult the cache, and only on a miss ask for a fetch
// ---------------------------------------------------------------------------

/// What a repository search does next: a cache hit answers at once and asks
/// for no request; a miss asks for exactly one fetch under the given key.
pub enum RepoSearchStep {
    Cached(SearchResponse),
    Fetch(CacheKey),
}

/// What a code search does next, as for `RepoSearchStep`.
pub enum CodeSearchStep {
    Cached(CodeSearchResponse),
    Fetch(CacheKey),
}

/// Consults the cache for a repository search. A `Cached` step carries the
/// stored response and means no request is to be made; a `Fetch` step comes
/// exactly when the key holds no repository response, and names the one
/// request to make.
pub fn repo_search_step(cache: &Cache, query: &str, per_page: Option<u32>) -> (s: RepoSearchStep)
    requires
        cache.wf(),
    ensures
        match s {
            RepoSearchStep::Cached(resp) => cache@.contains_key(repo_key_view(query@, per_page))
                && cache@[repo_key_view(query@, per_page)] == CachedResponseV::Search(
                resp.deep_view(),
            ),
            RepoSearchStep::Fetch(k) => k.deep_view() == repo_key_view(query@, per_page) && (
            cache@.contains_key(k.deep_view()) ==> !(cache@[k.deep_view()] is Search)),
        },
{
    let pp = match per_page {
        Option::Some(pp) => pp,
        Option::None => 10,
    };
    let key = CacheKey { kind: SearchKind::Repositories, query: query.to_owned(), per_page: pp };
    match cache.get(&key) {
        Option::Some(CachedResponse::Search(resp)) => RepoSearchStep::Cached(resp),
        Option::Some(CachedResponse::Code(_)) => RepoSearchStep::Fetch(key),
        Option::None => RepoSearchStep::Fetch(key),
    }
}

/// Consults the cache for a code search, keying by the full expression with
/// any filename filter already appended, as for `repo_search_step`.
pub fn code_search_step(
    cache: &Cache,
    query: &str,
    filename: Option<&str>,
    per_page: Option<u32>,
) -> (s: CodeSearchStep)
    requires
        cache.wf(),
    ensures
        match s {
            CodeSearchStep::Cached(resp) => cache@.contains_key(
                code_key_view(query@, filename.deep_view(), per_page),
            ) && cache@[code_key_view(query@, filename.deep_view(), per_page)]
                == CachedResponseV::Code(resp.deep_view()),
            CodeSearchStep::Fetch(k) => k.deep_view() == code_key_view(
                query@,
                filename.deep_view(),
                per_page,
            ) && (cache@.contains_key(k.deep_view()) ==> !(cache@[k.deep_view()] is Code)),
        },
{
    let pp = match per_page {
        Option::Some(pp) => pp,
        Option::None => 10,
    };
    let full_query = build_code_query(query, filename);
    let key = CacheKey { kind: SearchKind::Code, query: full_query, per_page: pp };
    match cache.get(&key) {
        Option::Some(CachedResponse::Code(resp)) => CodeSearchStep::Cached(resp),
        Option::Some(CachedResponse::Search(_)) => CodeSearchStep::Fetch(key),
        Option::None => CodeSearchStep::Fetch(key),
    }
}

// ---------------------------------------------------------------------------
// Settling a fetched response: classify, then parse, then cache
// ---------------------------------------------------------------------------

/// Settles a fetched repository-search response. An error status yields its
/// classified error and leaves the cache alone; a success status with no
/// parsed body is a malformed response; a success status with a parsed body
/// stores it under the key and returns it.
pub fn settle_repo_search(
    cache: &mut Cache,
    key: &CacheKey,
    status: u16,
    body: &str,
    parsed: Option<SearchResponse>,
) -> (r: Result<SearchResponse, Error>)
    requires
        old(cache).wf(),
    ensures
        final(cache).wf(),
        match classified_error(status, body@) {
            Option::Some(ev) => final(cache)@ == old(cache)@ && (r matches Result::Err(e)
                && e.deep_view() == ev),
            Option::None => match parsed {
                Option::Some(sr) => final(cache)@ == old(cache)@.insert(
                    key.deep_view(),
                    CachedResponseV::Search(sr.deep_view()),
                ) && (r matches Result::Ok(out) && out.deep_view() == sr.deep_view()),
                Option::None => final(cache)@ == old(cache)@ && (r matches Result::Err(e)
                    && e.deep_view() == ErrorV::MalformedResponse(body@)),
            },
        },
{
    match classify_status(status, body) {
        Result::Err(e) => Result::Err(e),
        Result::Ok(()) => match parsed {
            Option::Some(sr) => {
                cache.insert(key, CachedResponse::Search(sr.clone()));
                Result::Ok(sr)
            },
            Option::None => Result::Err(Error::MalformedResponse(body.to_owned())),
        },
    }
}

/// Settles a fetched code-search response, as for `settle_repo_search`.
pub fn settle_code_search(
    cache: &mut Cache,
    key: &CacheKey,
    status: u16,
    body: &str,
    parsed: Option<CodeSearchResponse>,
) -> (r: Result<CodeSearchResponse, Error>)
    requires
        old(cache).wf(),
    ensures
        final(cache).wf(),
        match classified_error(status, body@) {
            Option::Some(ev) => final(cache)@ == old(cache)@ && (r matches Result::Err(e)
                && e.deep_view() == ev),
            Option::None => match parsed {
                Option::Some(cr) => final(cache)@ == old(cache)@.insert(
                    key.deep_view(),
                    CachedResponseV::Code(cr.deep_view()),
                ) && (r matches Result::Ok(out) && out.deep_view() == cr.deep_view()),
                Option::None => final(cache)@ == old(cache)@ && (r matches Result::Err(e)
                    && e.deep_view() == ErrorV::MalformedResponse(body@)),
            },
        },
{
    match classify_status(status, body) {
        Result::Err(e) => Result::Err(e),
        Result::Ok(()) => match parsed {
            Option::Some(cr) => {
                cache.insert(key, CachedResponse::Code(cr.clone()));
                Result::Ok(cr)
            },
            Option::None => Result::Err(Error::MalformedResponse(body.to_owned())),
        },
    }
}

// ---------------------------------------------------------------------------
// Rate limit guard
// ---------------------------------------------------------------------------

/// Reset timestamps up to 9999-12-31T23:59:59Z are rendered as a date; the
/// bound keeps the rendering far inside chrono's representable range.
pub const MAX_FORMATTABLE_RESET: u64 = 253402300799;

/// The `%Y-%m-%d %H:%M:%S` rendering of a Unix timestamp.
pub uninterp spec fn reset_time_text(ts: u64) -> Seq<char>;

/// Relies on `chrono::DateTime::from_timestamp` and chrono's `format`: for
/// a timestamp within range, the rendered `%Y-%m-%d %H:%M:%S` text exists
/// and depends on the timestamp alone.
#[verifier::external_body]
fn format_reset_time(ts: u64) -> (r: String)
    requires
        ts <= MAX_FORMATTABLE_RESET,
    ensures
        r@ == reset_time_text(ts),
{
    let dt = chrono::DateTime::from_timestamp(ts as i64, 0).expect("timestamp in range");
    dt.naive_utc().format("%Y-%m-%d %H:%M:%S").to_string()
}

/// The pre-flight rate-limit check: with no request left in the window the
/// caller gets `RateLimitExceeded`, carrying the counters and the rendered
/// reset time; with any request left the status passes through unchanged.
pub fn check_rate_limit_status(rl: &RateLimit) -> (r: Result<RateLimit, Error>)
    requires
        rl.rate.reset <= MAX_FORMATTABLE_RESET,
    ensures
        rl.rate.remaining >= 1 ==> (r matches Result::Ok(x) && x == *rl),
        rl.rate.remaining == 0 ==> (r matches Result::Err(e) && e.deep_view() == (
        ErrorV::RateLimitExceeded {
            remaining: rl.rate.remaining,
            limit: rl.rate.limit,
            reset_text: reset_time_text(rl.rate.reset),
        })),
{
    if rl.rate.remaining < 1 {
        Result::Err(
            Error::RateLimitExceeded {
                remaining: rl.rate.remaining,
                limit: rl.rate.limit,
                reset_text: format_reset_time(rl.rate.reset),
            },
        )
    } else {
        Result::Ok(*rl)
    }
}

// ---------------------------------------------------------------------------
// Laws relating the two search operations' keys
// ---------------------------------------------------------------------------

/// Law: a filename filter always changes the code-search cache key, so a
/// filtered and an unfiltered search of the same base term and page size
/// may hold distinct cached results at the same time.
pub proof fn lemma_filename_distinguishes_keys(
    query: Seq<char>,
    filename: Seq<char>,
    per_page: Option<u32>,
)
    ensures
        code_key_view(query, Option::Some(filename), per_page) != code_key_view(
            query,
            Option::None,
            per_page,
        ),
{
    reveal_strlit(" filename:");
    assert(code_query_text(query, Option::Some(filename)).len() > query.len());
}

/// Law: a repository search and a code search never share a cache key,
/// whatever their query texts and page sizes.
pub proof fn lemma_kinds_distinguish_keys(
    rq: Seq<char>,
    cq: Seq<char>,
    cf: Option<Seq<char>>,
    rpp: Option<u32>,
    cpp: Option<u32>,
)
    ensures
        repo_key_view(rq, rpp) != code_key_view(cq, cf, cpp),
{
}

} // verus!
