mod api_client;
mod cache;
mod errors;
mod models;
mod search_query;

pub use api_client::CodeSearchStep;
pub use api_client::MAX_FORMATTABLE_RESET;
pub use api_client::RepoSearchStep;
pub use api_client::build_code_query;
pub use api_client::check_rate_limit_status;
pub use api_client::classified_error;
pub use api_client::classify_status;
pub use api_client::code_key_view;
pub use api_client::code_query_text;
pub use api_client::code_search_step;
pub use api_client::lemma_filename_distinguishes_keys;
pub use api_client::lemma_kinds_distinguish_keys;
pub use api_client::per_page_or_default;
pub use api_client::repo_key_view;
pub use api_client::repo_search_step;
pub use api_client::reset_time_text;
pub use api_client::settle_code_search;
pub use api_client::settle_repo_search;
pub use cache::Cache;
pub use cache::CacheKey;
pub use cache::CacheKeyV;
pub use cache::CachedResponse;
pub use cache::CachedResponseV;
pub use cache::SearchKind;
pub use cache::lemma_insert_idempotent;
pub use cache::lemma_miss_on_unknown_key;
pub use cache::lemma_read_after_write;
pub use errors::Error;
pub use errors::ErrorV;
pub use models::CodeSearchFile;
pub use models::CodeSearchFileV;
pub use models::CodeSearchResponse;
pub use models::CodeSearchResponseV;
pub use models::RateLimit;
pub use models::RateLimitInfo;
pub use models::Repo;
pub use models::RepoV;
pub use models::Repository;
pub use models::RepositoryV;
pub use models::SearchResponse;
pub use models::SearchResponseV;
pub use search_query::GithubSearchQuery;
pub use search_query::GithubSearchQueryV;
pub use search_query::language_clause;
pub use search_query::lemma_query_rendering_deterministic;
pub use search_query::lemma_query_text_starts_with_term;
pub use search_query::query_text;
pub use search_query::stars_clause;
pub use search_query::topic_clause;
