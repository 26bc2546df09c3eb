//! Building one adapter per enabled source, and gathering the fetched
//! results in declaration order.

use vstd::prelude::*;

use crate::config::{SemanticScholarMode, SourceConfig, SourceEntry};
use crate::error::FetchError;
use crate::source::reddit::RedditClient;
use crate::source::semantic_scholar::SemanticScholarClient;
use crate::source::{Content, Source};

verus! {

/// An adapter of any provider kind.
#[derive(Debug, Clone)]
pub enum SourceAdapter {
    Reddit(RedditClient),
    SemanticScholar(SemanticScholarClient),
}

/// The configuration an adapter was built from.
pub open spec fn adapter_config(a: SourceAdapter) -> SourceConfig {
    match a {
        SourceAdapter::Reddit(c) => SourceConfig::Reddit(c.spec_config()),
        SourceAdapter::SemanticScholar(c) => SourceConfig::SemanticScholar(c.spec_config()),
    }
}

/// Why an adapter cannot be built from a configuration, if it cannot.
pub open spec fn construction_error(c: SourceConfig) -> Option<FetchError> {
    match c {
        SourceConfig::Reddit(r) => if r.subreddit@.len() == 0 {
            Some(FetchError::EmptySubreddit)
        } else if r.user_agent@.len() == 0 {
            Some(FetchError::EmptyUserAgent)
        } else {
            None
        },
        SourceConfig::SemanticScholar(s) => match s.mode {
            SemanticScholarMode::Search { query, .. } => if query@.len() == 0 {
                Some(FetchError::EmptyQuery)
            } else {
                None
            },
            SemanticScholarMode::Recommendations { paper_id } => if paper_id@.len() == 0 {
                Some(FetchError::EmptyPaperId)
            } else {
                None
            },
        },
    }
}

/// Whether an entry takes part in the run.
pub open spec fn is_enabled() -> spec_fn(SourceEntry) -> bool {
    |e: SourceEntry| e.enabled
}

/// The configurations of the enabled entries, in declaration order.
pub open spec fn enabled_configs(entries: Seq<SourceEntry>) -> Seq<SourceConfig> {
    entries.filter(is_enabled()).map_values(|e: SourceEntry| e.config)
}

impl Source for SourceAdapter {
    open spec fn spec_source_type(&self) -> Seq<char> {
        match self {
            SourceAdapter::Reddit(c) => c.spec_source_type(),
            SourceAdapter::SemanticScholar(c) => c.spec_source_type(),
        }
    }

    open spec fn spec_source_id(&self) -> Seq<char> {
        match self {
            SourceAdapter::Reddit(c) => c.spec_source_id(),
            SourceAdapter::SemanticScholar(c) => c.spec_source_id(),
        }
    }

    fn source_type(&self) -> (r: &'static str) {
        match self {
            SourceAdapter::Reddit(c) => c.source_type(),
            SourceAdapter::SemanticScholar(c) => c.source_type(),
        }
    }

    fn source_id(&self) -> (r: String) {
        match self {
            SourceAdapter::Reddit(c) => c.source_id(),
            SourceAdapter::SemanticScholar(c) => c.source_id(),
        }
    }
}

/// Builds the adapter of one source configuration.
pub fn build_source(config: SourceConfig) -> (r: Result<SourceAdapter, FetchError>)
    ensures
        match construction_error(config) {
            Some(e) => r == Err::<SourceAdapter, FetchError>(e),
            None => r matches Ok(a) && adapter_config(a) == config,
        },
{
    match config {
        SourceConfig::Reddit(c) => match RedditClient::new(c) {
            Ok(client) => Ok(SourceAdapter::Reddit(client)),
            Err(e) => Err(e),
        },
        SourceConfig::SemanticScholar(c) => match SemanticScholarClient::new(c) {
            Ok(client) => Ok(SourceAdapter::SemanticScholar(client)),
            Err(e) => Err(e),
        },
    }
}

/// Builds one adapter per enabled entry, in declaration order, failing on
/// the first entry that cannot be built.
pub fn build_sources(entries: Vec<SourceEntry>) -> (r: Result<Vec<SourceAdapter>, FetchError>)
    ensures
        ({
            let wanted = enabled_configs(entries@);
            &&& r is Ok <==> forall|i: int| 0 <= i < wanted.len() ==> construction_error(
                #[trigger] wanted[i],
            ) is None
            &&& r matches Ok(v) ==> v@.len() == wanted.len() && forall|i: int|
                0 <= i < v@.len() ==> adapter_config(#[trigger] v@[i]) == wanted[i]
            &&& r matches Err(e) ==> exists|k: int|
                0 <= k < wanted.len() && construction_error(#[trigger] wanted[k]) == Some(e)
                    && forall|j: int| 0 <= j < k ==> construction_error(#[trigger] wanted[j]) is None
        }),
{
    let ghost all = entries@;
    let ghost wanted = enabled_configs(all);
    let mut out: Vec<SourceAdapter> = Vec::new();
    for entry in it: entries.into_iter()
        invariant
            it.seq() == all,
            wanted == enabled_configs(all),
            out@.len() == enabled_configs(all.subrange(0, it.index() as int)).len(),
            forall|i: int|
                0 <= i < out@.len() ==> adapter_config(#[trigger] out@[i]) == enabled_configs(
                    all.subrange(0, it.index() as int),
                )[i],
            forall|i: int|
                0 <= i < out@.len() ==> construction_error(
                    #[trigger] enabled_configs(all.subrange(0, it.index() as int))[i],
                ) is None,
    {
        let ghost i = it.index() as int;
        proof {
            assert(all.subrange(0, i + 1).drop_last() =~= all.subrange(0, i));
            assert(entry == all[i]);
            reveal(Seq::filter);
            lemma_enabled_prefix(all, i + 1);
        }
        proof {
            let pre = all.subrange(0, i);
            let cur = all.subrange(0, i + 1);
            assert(cur.drop_last() == pre);
            if entry.enabled {
                assert(cur.filter(is_enabled()) == pre.filter(is_enabled()).push(entry));
                assert(enabled_configs(cur) =~= enabled_configs(pre).push(entry.config));
            } else {
                assert(cur.filter(is_enabled()) == pre.filter(is_enabled()));
                assert(enabled_configs(cur) =~= enabled_configs(pre));
            }
        }
        if entry.enabled {
            match build_source(entry.config) {
                Ok(a) => {
                    out.push(a);
                },
                Err(e) => {
                    proof {
                        lemma_enabled_prefix(all, i + 1);
                        let k = out@.len() as int;
                        assert(wanted[k] == enabled_configs(all.subrange(0, i + 1))[k]);
                        assert forall|j: int| 0 <= j < k implies construction_error(
                            #[trigger] wanted[j],
                        ) is None by {
                            assert(wanted[j] == enabled_configs(all.subrange(0, i + 1))[j]);
                            assert(enabled_configs(all.subrange(0, i + 1))[j] == enabled_configs(
                                all.subrange(0, i),
                            )[j]);
                        }
                    }
                    return Err(e);
                },
            }
        }
    }
    proof {
        assert(all.subrange(0, all.len() as int) =~= all);
    }
    Ok(out)
}

/// The enabled configurations of a prefix are a prefix of those of the
/// whole.
proof fn lemma_enabled_prefix(all: Seq<SourceEntry>, n: int)
    requires
        0 <= n <= all.len(),
    ensures
        enabled_configs(all.subrange(0, n)).len() <= enabled_configs(all).len(),
        forall|j: int|
            0 <= j < enabled_configs(all.subrange(0, n)).len() ==> #[trigger] enabled_configs(
                all.subrange(0, n),
            )[j] == enabled_configs(all)[j],
{
    let pre = all.subrange(0, n);
    let post = all.subrange(n, all.len() as int);
    assert(all =~= pre + post);
    Seq::filter_distributes_over_add(pre, post, is_enabled());
    assert(all.filter(is_enabled()) == pre.filter(is_enabled()) + post.filter(is_enabled()));
}

/// The contents of successful results, concatenated in order.
pub open spec fn all_contents(results: Seq<Result<Vec<Content>, FetchError>>) -> Seq<Content>
    decreases results.len(),
{
    if results.len() == 0 {
        Seq::empty()
    } else {
        all_contents(results.drop_last()) + match results.last() {
            Ok(v) => v@,
            Err(_) => Seq::empty(),
        }
    }
}

/// Position of the first failed result, or the length when none failed.
pub open spec fn first_failure(results: Seq<Result<Vec<Content>, FetchError>>) -> int
    decreases results.len(),
{
    if results.len() == 0 {
        0
    } else if results[0] is Err {
        0
    } else {
        1 + first_failure(results.drop_first())
    }
}

/// Gathers the per-source results, given in declaration order: the first
/// failure in that order is the overall result; otherwise every content
/// list, concatenated in order.
pub fn collect_results(results: Vec<Result<Vec<Content>, FetchError>>) -> (r: Result<
    Vec<Content>,
    FetchError,
>)
    ensures
        first_failure(results@) < results@.len() ==> r == results@[first_failure(results@)],
        first_failure(results@) >= results@.len() ==> (r matches Ok(v) && v@ == all_contents(
            results@,
        )),
{
    let ghost all = results@;
    proof {
        lemma_first_failure(all);
    }
    let mut out: Vec<Content> = Vec::new();
    for res in it: results.into_iter()
        invariant
            it.seq() == all,
            0 <= first_failure(all) <= all.len(),
            first_failure(all) < all.len() ==> all[first_failure(all)] is Err,
            forall|j: int| 0 <= j < first_failure(all) ==> all[j] is Ok,
            it.index() <= first_failure(all),
            out@ == all_contents(all.subrange(0, it.index() as int)),
    {
        let ghost i = it.index() as int;
        proof {
            assert(all.subrange(0, i + 1).drop_last() =~= all.subrange(0, i));
            assert(res == all[i]);
        }
        match res {
            Ok(mut items) => {
                out.append(&mut items);
            },
            Err(e) => {
                return Err(e);
            },
        }
    }
    proof {
        assert(all.subrange(0, all.len() as int) =~= all);
    }
    Ok(out)
}

/// `first_failure` is the position of the first failed result.
proof fn lemma_first_failure(s: Seq<Result<Vec<Content>, FetchError>>)
    ensures
        0 <= first_failure(s) <= s.len(),
        first_failure(s) < s.len() ==> s[first_failure(s)] is Err,
        forall|j: int| 0 <= j < first_failure(s) ==> s[j] is Ok,
    decreases s.len(),
{
    if s.len() > 0 && s[0] is Ok {
        lemma_first_failure(s.drop_first());
        assert forall|j: int| 0 <= j < first_failure(s) implies s[j] is Ok by {
            if j > 0 {
                assert(s[j] == s.drop_first()[j - 1]);
            }
        }
    }
}

} // verus!
