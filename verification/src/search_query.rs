use vstd::prelude::*;
use vstd::string::StringExecFns;

verus! {

/// A repository or code search expression: a required base term plus
/// optional qualifiers for language, minimum star count and topic.
///
/// Immutable once built; `to_query_string` renders it deterministically,
/// with the qualifiers in a fixed order.
#[derive(Debug, PartialEq, Eq)]
pub struct GithubSearchQuery {
    pub term: String,
    pub language: Option<String>,
    pub min_stars: Option<String>,
    pub topic: Option<String>,
}

/// Mathematical image of a `GithubSearchQuery`.
pub struct GithubSearchQueryV {
    pub term: Seq<char>,
    pub language: Option<Seq<char>>,
    pub min_stars: Option<Seq<char>>,
    pub topic: Option<Seq<char>>,
}

impl DeepView for GithubSearchQuery {
    type V = GithubSearchQueryV;

    open spec fn deep_view(&self) -> GithubSearchQueryV {
        GithubSearchQueryV {
            term: self.term.deep_view(),
            language: self.language.deep_view(),
            min_stars: self.min_stars.deep_view(),
            topic: self.topic.deep_view(),
        }
    }
}

/// The ` language:<x>` qualifier, or nothing when no language is set.
pub open spec fn language_clause(q: GithubSearchQueryV) -> Seq<char> {
    match q.language {
        Option::Some(l) => " language:"@ + l,
        Option::None => Seq::<char>::empty(),
    }
}

/// The ` stars:>=<x>` qualifier, or nothing when no threshold is set.
pub open spec fn stars_clause(q: GithubSearchQueryV) -> Seq<char> {
    match q.min_stars {
        Option::Some(s) => " stars:>="@ + s,
        Option::None => Seq::<char>::empty(),
    }
}

/// The ` (topic:<x>)` qualifier, or nothing when no topic is set.
pub open spec fn topic_clause(q: GithubSearchQueryV) -> Seq<char> {
    match q.topic {
        Option::Some(t) => " (topic:"@ + t + ")"@,
        Option::None => Seq::<char>::empty(),
    }
}

/// The rendered search expression: the base term, then each present
/// qualifier, always in the order term, language, stars, topic.
pub open spec fn query_text(q: GithubSearchQueryV) -> Seq<char> {
    q.term + language_clause(q) + stars_clause(q) + topic_clause(q)
}

impl GithubSearchQuery {
    /// Starts a query from a base search term; the term must not be empty.
    pub fn new(term: &str) -> (q: Self)
        requires
            term@.len() > 0,
        ensures
            q.deep_view() == (GithubSearchQueryV {
                term: term@,
                language: Option::None,
                min_stars: Option::None,
                topic: Option::None,
            }),
    {
        GithubSearchQuery {
            term: term.to_owned(),
            language: Option::None,
            min_stars: Option::None,
            topic: Option::None,
        }
    }

    /// Sets the language qualifier, leaving every other field as it was.
    pub fn language(self, lang: &str) -> (q: Self)
        ensures
            q.deep_view() == (GithubSearchQueryV {
                language: Option::Some(lang@),
                ..self.deep_view()
            }),
    {
        GithubSearchQuery { language: Option::Some(lang.to_owned()), ..self }
    }

    /// Sets the minimum-stars qualifier, leaving every other field as it was.
    pub fn min_stars(self, stars: &str) -> (q: Self)
        ensures
            q.deep_view() == (GithubSearchQueryV {
                min_stars: Option::Some(stars@),
                ..self.deep_view()
            }),
    {
        GithubSearchQuery { min_stars: Option::Some(stars.to_owned()), ..self }
    }

    /// Sets the topic qualifier, leaving every other field as it was.
    pub fn topic(self, topic: &str) -> (q: Self)
        ensures
            q.deep_view() == (GithubSearchQueryV {
                topic: Option::Some(topic@),
                ..self.deep_view()
            }),
    {
        GithubSearchQuery { topic: Option::Some(topic.to_owned()), ..self }
    }

    /// Renders the query; the result is exactly `query_text` of the fields.
    pub fn to_query_string(&self) -> (r: String)
        ensures
            r@ == query_text(self.deep_view()),
    {
        let mut query = self.term.clone();
        match &self.language {
            Option::Some(language) => {
                query.append(" language:");
                query.append(language.as_str());
            },
            Option::None => {},
        }
        match &self.min_stars {
            Option::Some(stars) => {
                query.append(" stars:>=");
                query.append(stars.as_str());
            },
            Option::None => {},
        }
        match &self.topic {
            Option::Some(topic) => {
                query.append(" (topic:");
                query.append(topic.as_str());
                query.append(")");
            },
            Option::None => {},
        }
        proof {
            assert(query@ =~= query_text(self.deep_view()));
        }
        query
    }
}

/// Law: rendering is deterministic — two queries whose fields read the same
/// render to the same string, however often they are rendered.
pub proof fn lemma_query_rendering_deterministic(a: GithubSearchQuery, b: GithubSearchQuery)
    requires
        a.deep_view() == b.deep_view(),
    ensures
        query_text(a.deep_view()) == query_text(b.deep_view()),
{
}

/// Law: the rendered string always begins with the base term; the
/// qualifiers only ever follow it.
pub proof fn lemma_query_text_starts_with_term(q: GithubSearchQueryV)
    ensures
        query_text(q).len() >= q.term.len(),
        query_text(q).subrange(0, q.term.len() as int) == q.term,
{
    assert(query_text(q).subrange(0, q.term.len() as int) =~= q.term);
}

} // verus!
