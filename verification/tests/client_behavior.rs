use github_search::{
    build_code_query, check_rate_limit_status, classify_status, code_search_step,
    repo_search_step, settle_code_search, settle_repo_search, Cache, CodeSearchFile,
    CodeSearchResponse, CodeSearchStep, Error, RateLimit, RateLimitInfo, Repo, RepoSearchStep,
    Repository, SearchResponse,
};

fn repo_page(total: u32) -> SearchResponse {
    SearchResponse {
        total_count: total,
        incomplete_results: false,
        items: vec![
            Repo {
                full_name: "tokio-rs/tokio".to_string(),
                description: Some("A runtime".to_string()),
                stargazers_count: 25000,
                language: Some("Rust".to_string()),
                html_url: "https://github.com/tokio-rs/tokio".to_string(),
            },
            Repo {
                full_name: "async-rs/async-std".to_string(),
                description: None,
                stargazers_count: 7000,
                language: Some("Rust".to_string()),
                html_url: "https://github.com/async-rs/async-std".to_string(),
            },
        ],
    }
}

fn code_page(total: u32, name: &str) -> CodeSearchResponse {
    CodeSearchResponse {
        total_count: total,
        incomplete_results: false,
        items: vec![CodeSearchFile {
            name: name.to_string(),
            path: format!("src/{}", name),
            sha: "0123abcd".to_string(),
            url: "https://api.github.com/f".to_string(),
            git_url: "https://api.github.com/g".to_string(),
            html_url: "https://github.com/f".to_string(),
            repository: Repository {
                name: "demo".to_string(),
                full_name: "acme/demo".to_string(),
                html_url: "https://github.com/acme/demo".to_string(),
            },
        }],
    }
}

// -- status-code classification --------------------------------------------

#[test]
fn status_422_is_invalid_query() {
    assert_eq!(classify_status(422, "bad syntax"), Err(Error::InvalidQuery("bad syntax".to_string())));
}

#[test]
fn status_401_is_authentication_failed() {
    assert_eq!(classify_status(401, "b"), Err(Error::AuthenticationFailed("b".to_string())));
}

#[test]
fn status_403_is_permission_denied() {
    assert_eq!(classify_status(403, "b"), Err(Error::PermissionDenied("b".to_string())));
}

#[test]
fn other_4xx_is_unexpected_client_error() {
    assert_eq!(classify_status(404, "b"), Err(Error::UnexpectedClientError("b".to_string())));
    assert_eq!(classify_status(429, "b"), Err(Error::UnexpectedClientError("b".to_string())));
}

#[test]
fn any_5xx_is_unexpected_server_error() {
    assert_eq!(classify_status(500, "b"), Err(Error::UnexpectedServerError("b".to_string())));
    assert_eq!(classify_status(503, "b"), Err(Error::UnexpectedServerError("b".to_string())));
}

#[test]
fn success_statuses_classify_as_ok() {
    assert_eq!(classify_status(200, "b"), Ok(()));
    assert_eq!(classify_status(201, "b"), Ok(()));
    assert_eq!(classify_status(304, "b"), Ok(()));
}

#[test]
fn specific_codes_win_over_the_general_class() {
    assert!(matches!(classify_status(422, "b"), Err(Error::InvalidQuery(_))));
    assert!(matches!(classify_status(401, "b"), Err(Error::AuthenticationFailed(_))));
    assert!(matches!(classify_status(403, "b"), Err(Error::PermissionDenied(_))));
}

#[test]
fn transport_failure_carries_its_context() {
    let e = Error::TransportFailure("connection reset".to_string());
    assert!(matches!(e, Error::TransportFailure(ref s) if s == "connection reset"));
}

// -- repository search: cache consultation and settling --------------------

#[test]
fn scenario_repo_search_caches_and_reuses() {
    let mut cache = Cache::new();
    let query = "rust async language:rust stars:>=5000";

    let key = match repo_search_step(&cache, query, Some(1)) {
        RepoSearchStep::Fetch(key) => key,
        RepoSearchStep::Cached(_) => panic!("fresh cache cannot hit"),
    };
    assert_eq!(key.query, query);
    assert_eq!(key.per_page, 1);

    let fetched = settle_repo_search(&mut cache, &key, 200, "{}", Some(repo_page(2)))
        .expect("a parsed success settles as Ok");
    assert_eq!(fetched.total_count, 2);

    match repo_search_step(&cache, query, Some(1)) {
        RepoSearchStep::Cached(resp) => assert_eq!(resp, repo_page(2)),
        RepoSearchStep::Fetch(_) => panic!("second identical call must hit the cache"),
    }
}

#[test]
fn repo_search_default_per_page_is_ten() {
    let cache = Cache::new();
    match repo_search_step(&cache, "q", None) {
        RepoSearchStep::Fetch(key) => assert_eq!(key.per_page, 10),
        RepoSearchStep::Cached(_) => panic!("fresh cache cannot hit"),
    }
}

#[test]
fn settle_error_status_leaves_cache_empty() {
    let mut cache = Cache::new();
    let key = match repo_search_step(&cache, "q", None) {
        RepoSearchStep::Fetch(key) => key,
        RepoSearchStep::Cached(_) => panic!("fresh cache cannot hit"),
    };
    let r = settle_repo_search(&mut cache, &key, 500, "oops", Some(repo_page(1)));
    assert_eq!(r, Err(Error::UnexpectedServerError("oops".to_string())));
    assert!(matches!(repo_search_step(&cache, "q", None), RepoSearchStep::Fetch(_)));
}

#[test]
fn settle_unparsed_success_is_malformed_response() {
    let mut cache = Cache::new();
    let key = match repo_search_step(&cache, "q", None) {
        RepoSearchStep::Fetch(key) => key,
        RepoSearchStep::Cached(_) => panic!("fresh cache cannot hit"),
    };
    let r = settle_repo_search(&mut cache, &key, 200, "not json", None);
    assert_eq!(r, Err(Error::MalformedResponse("not json".to_string())));
    assert!(matches!(repo_search_step(&cache, "q", None), RepoSearchStep::Fetch(_)));
}

// -- code search: filename qualifier and distinct keys ----------------------

#[test]
fn code_query_appends_filename() {
    assert_eq!(build_code_query("usize", Some("main.rs")), "usize filename:main.rs");
    assert_eq!(build_code_query("usize", None), "usize");
}

#[test]
fn filtered_and_unfiltered_code_searches_have_distinct_keys() {
    let cache = Cache::new();
    let with = match code_search_step(&cache, "usize", Some("main.rs"), None) {
        CodeSearchStep::Fetch(key) => key,
        CodeSearchStep::Cached(_) => panic!("fresh cache cannot hit"),
    };
    let without = match code_search_step(&cache, "usize", None, None) {
        CodeSearchStep::Fetch(key) => key,
        CodeSearchStep::Cached(_) => panic!("fresh cache cannot hit"),
    };
    assert_ne!(with, without);
    assert_eq!(with.query, "usize filename:main.rs");
    assert_eq!(without.query, "usize");
}

#[test]
fn filtered_and_unfiltered_code_searches_cache_side_by_side() {
    let mut cache = Cache::new();
    let with = match code_search_step(&cache, "usize", Some("main.rs"), None) {
        CodeSearchStep::Fetch(key) => key,
        CodeSearchStep::Cached(_) => panic!("fresh cache cannot hit"),
    };
    let without = match code_search_step(&cache, "usize", None, None) {
        CodeSearchStep::Fetch(key) => key,
        CodeSearchStep::Cached(_) => panic!("fresh cache cannot hit"),
    };
    settle_code_search(&mut cache, &with, 200, "{}", Some(code_page(5, "main.rs"))).unwrap();
    settle_code_search(&mut cache, &without, 200, "{}", Some(code_page(9, "lib.rs"))).unwrap();

    match code_search_step(&cache, "usize", Some("main.rs"), None) {
        CodeSearchStep::Cached(resp) => assert_eq!(resp, code_page(5, "main.rs")),
        CodeSearchStep::Fetch(_) => panic!("filtered search must hit its own entry"),
    }
    match code_search_step(&cache, "usize", None, None) {
        CodeSearchStep::Cached(resp) => assert_eq!(resp, code_page(9, "lib.rs")),
        CodeSearchStep::Fetch(_) => panic!("unfiltered search must hit its own entry"),
    }
}

#[test]
fn repo_and_code_searches_never_share_an_entry() {
    let mut cache = Cache::new();
    let key = match repo_search_step(&cache, "q", None) {
        RepoSearchStep::Fetch(key) => key,
        RepoSearchStep::Cached(_) => panic!("fresh cache cannot hit"),
    };
    settle_repo_search(&mut cache, &key, 200, "{}", Some(repo_page(1))).unwrap();
    assert!(matches!(code_search_step(&cache, "q", None, None), CodeSearchStep::Fetch(_)));
}

// -- rate limit guard --------------------------------------------------------

#[test]
fn zero_remaining_is_rate_limit_exceeded() {
    let rl = RateLimit { rate: RateLimitInfo { limit: 60, remaining: 0, reset: 0 } };
    let r = check_rate_limit_status(&rl);
    assert_eq!(
        r,
        Err(Error::RateLimitExceeded {
            remaining: 0,
            limit: 60,
            reset_text: "1970-01-01 00:00:00".to_string(),
        })
    );
}

#[test]
fn one_remaining_passes_the_guard() {
    let rl = RateLimit { rate: RateLimitInfo { limit: 60, remaining: 1, reset: 1700000000 } };
    assert_eq!(check_rate_limit_status(&rl), Ok(rl));
}

#[test]
fn reset_time_renders_as_utc_date() {
    let rl = RateLimit { rate: RateLimitInfo { limit: 5000, remaining: 0, reset: 1700000000 } };
    match check_rate_limit_status(&rl) {
        Err(Error::RateLimitExceeded { remaining, limit, reset_text }) => {
            assert_eq!(remaining, 0);
            assert_eq!(limit, 5000);
            assert_eq!(reset_text, "2023-11-14 22:13:20");
        }
        other => panic!("expected RateLimitExceeded, got {:?}", other),
    }
}
