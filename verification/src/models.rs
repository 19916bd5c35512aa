use vstd::prelude::*;
use vstd::pervasive::cloned;

verus! {

// ---------------------------------------------------------------------------
// Repository search results
// ---------------------------------------------------------------------------

/// One repository entry returned by a repository search, in the API's
/// relevance order.
#[derive(Debug, PartialEq, Eq)]
pub struct Repo {
    pub full_name: String,
    pub description: Option<String>,
    pub stargazers_count: u32,
    pub language: Option<String>,
    pub html_url: String,
}

/// Mathematical image of a `Repo`: every text field as a sequence of characters.
pub struct RepoV {
    pub full_name: Seq<char>,
    pub description: Option<Seq<char>>,
    pub stargazers_count: u32,
    pub language: Option<Seq<char>>,
    pub html_url: Seq<char>,
}

impl DeepView for Repo {
    type V = RepoV;

    open spec fn deep_view(&self) -> RepoV {
        RepoV {
            full_name: self.full_name.deep_view(),
            description: self.description.deep_view(),
            stargazers_count: self.stargazers_count,
            language: self.language.deep_view(),
            html_url: self.html_url.deep_view(),
        }
    }
}

/// A single page of repository search results.
#[derive(Debug, PartialEq, Eq)]
pub struct SearchResponse {
    pub total_count: u32,
    pub incomplete_results: bool,
    pub items: Vec<Repo>,
}

/// Mathematical image of a `SearchResponse`.
pub struct SearchResponseV {
    pub total_count: u32,
    pub incomplete_results: bool,
    pub items: Seq<RepoV>,
}

impl DeepView for SearchResponse {
    type V = SearchResponseV;

    open spec fn deep_view(&self) -> SearchResponseV {
        SearchResponseV {
            total_count: self.total_count,
            incomplete_results: self.incomplete_results,
            items: self.items.deep_view(),
        }
    }
}

// ---------------------------------------------------------------------------
// Code search results
// ---------------------------------------------------------------------------

/// The repository a matching file belongs to.
#[derive(Debug, PartialEq, Eq)]
pub struct Repository {
    pub name: String,
    pub full_name: String,
    pub html_url: String,
}

/// Mathematical image of a `Repository`.
pub struct RepositoryV {
    pub name: Seq<char>,
    pub full_name: Seq<char>,
    pub html_url: Seq<char>,
}

impl DeepView for Repository {
    type V = RepositoryV;

    open spec fn deep_view(&self) -> RepositoryV {
        RepositoryV {
            name: self.name.deep_view(),
            full_name: self.full_name.deep_view(),
            html_url: self.html_url.deep_view(),
        }
    }
}

/// One file entry returned by a code search.
#[derive(Debug, PartialEq, Eq)]
pub struct CodeSearchFile {
    pub name: String,
    pub path: String,
    pub sha: String,
    pub url: String,
    pub git_url: String,
    pub html_url: String,
    pub repository: Repository,
}

/// Mathematical image of a `CodeSearchFile`.
pub struct CodeSearchFileV {
    pub name: Seq<char>,
    pub path: Seq<char>,
    pub sha: Seq<char>,
    pub url: Seq<char>,
    pub git_url: Seq<char>,
    pub html_url: Seq<char>,
    pub repository: RepositoryV,
}

impl DeepView for CodeSearchFile {
    type V = CodeSearchFileV;

    open spec fn deep_view(&self) -> CodeSearchFileV {
        CodeSearchFileV {
            name: self.name.deep_view(),
            path: self.path.deep_view(),
            sha: self.sha.deep_view(),
            url: self.url.deep_view(),
            git_url: self.git_url.deep_view(),
            html_url: self.html_url.deep_view(),
            repository: self.repository.deep_view(),
        }
    }
}

/// A single page of code search results.
#[derive(Debug, PartialEq, Eq)]
pub struct CodeSearchResponse {
    pub total_count: u32,
    pub incomplete_results: bool,
    pub items: Vec<CodeSearchFile>,
}

/// Mathematical image of a `CodeSearchResponse`.
pub struct CodeSearchResponseV {
    pub total_count: u32,
    pub incomplete_results: bool,
    pub items: Seq<CodeSearchFileV>,
}

impl DeepView for CodeSearchResponse {
    type V = CodeSearchResponseV;

    open spec fn deep_view(&self) -> CodeSearchResponseV {
        CodeSearchResponseV {
            total_count: self.total_count,
            incomplete_results: self.incomplete_results,
            items: self.items.deep_view(),
        }
    }
}

// ---------------------------------------------------------------------------
// Rate limit status
// ---------------------------------------------------------------------------

/// The core quota counters of the rate-limit endpoint.
#[derive(Debug, Clone, Copy, PartialEq, Eq, Structural)]
pub struct RateLimitInfo {
    pub limit: u32,
    pub remaining: u32,
    pub reset: u64,
}

/// The rate-limit endpoint's answer.
#[derive(Debug, Clone, Copy, PartialEq, Eq, Structural)]
pub struct RateLimit {
    pub rate: RateLimitInfo,
}

// ---------------------------------------------------------------------------
// Clone implementations: a clone has the same mathematical image
// ---------------------------------------------------------------------------

fn clone_opt_string(o: &Option<String>) -> (r: Option<String>)
    ensures
        r.deep_view() == o.deep_view(),
{
    match o {
        Option::Some(s) => Option::Some(s.clone()),
        Option::None => Option::None,
    }
}

impl Clone for Repo {
    fn clone(&self) -> (r: Self)
        ensures
            r.deep_view() == self.deep_view(),
    {
        Repo {
            full_name: self.full_name.clone(),
            description: clone_opt_string(&self.description),
            stargazers_count: self.stargazers_count,
            language: clone_opt_string(&self.language),
            html_url: self.html_url.clone(),
        }
    }
}

impl Clone for SearchResponse {
    fn clone(&self) -> (r: Self)
        ensures
            r.deep_view() == self.deep_view(),
    {
        let items = self.items.clone();
        proof {
            assert forall|i: int| 0 <= i < items@.len() implies items.deep_view()[i]
                == self.items.deep_view()[i] by {
                assert(cloned::<Repo>(self.items[i], items[i]));
            }
            assert(items.deep_view() =~= self.items.deep_view());
        }
        SearchResponse {
            total_count: self.total_count,
            incomplete_results: self.incomplete_results,
            items,
        }
    }
}

impl Clone for Repository {
    fn clone(&self) -> (r: Self)
        ensures
            r.deep_view() == self.deep_view(),
    {
        Repository {
            name: self.name.clone(),
            full_name: self.full_name.clone(),
            html_url: self.html_url.clone(),
        }
    }
}

impl Clone for CodeSearchFile {
    fn clone(&self) -> (r: Self)
        ensures
            r.deep_view() == self.deep_view(),
    {
        CodeSearchFile {
            name: self.name.clone(),
            path: self.path.clone(),
            sha: self.sha.clone(),
            url: self.url.clone(),
            git_url: self.git_url.clone(),
            html_url: self.html_url.clone(),
            repository: self.repository.clone(),
        }
    }
}

impl Clone for CodeSearchResponse {
    fn clone(&self) -> (r: Self)
        ensures
            r.deep_view() == self.deep_view(),
    {
        let items = self.items.clone();
        proof {
            assert forall|i: int| 0 <= i < items@.len() implies items.deep_view()[i]
                == self.items.deep_view()[i] by {
                assert(cloned::<CodeSearchFile>(self.items[i], items[i]));
            }
            assert(items.deep_view() =~= self.items.deep_view());
        }
        CodeSearchResponse {
            total_count: self.total_count,
            incomplete_results: self.incomplete_results,
            items,
        }
    }
}

} // verus!
