//! Keyword filtering of content items by case-insensitive substring search
//! over the title and the body taken separately.

use vstd::prelude::*;

use crate::source::{texts, Content};
use crate::text::{contains_seq, contains_text, lower_of, lowercase, same_text};

verus! {

/// Keyword match policy.
#[derive(Debug, Clone, Copy, PartialEq, Eq, Structural)]
pub enum MatchMode {
    /// At least one keyword must be found.
    Any,
    /// Every keyword must be found.
    All,
}

impl MatchMode {
    /// Reads a mode name, ignoring case; anything but `all` means `Any`.
    pub fn from_str(s: &str) -> (r: Self)
        ensures
            r == (if lower_of(s@) == "all"@ {
                MatchMode::All
            } else {
                MatchMode::Any
            }),
    {
        let lower = lowercase(s);
        if same_text(lower.as_str(), "all") {
            MatchMode::All
        } else {
            MatchMode::Any
        }
    }
}

/// A (case-folded) keyword is found in the case-folded title or body.
pub open spec fn found_in(c: Content, keyword: Seq<char>) -> bool {
    contains_seq(lower_of(c.title@), keyword) || contains_seq(lower_of(c.body@), keyword)
}

/// Whether an item satisfies the case-folded keywords under `mode`.
pub open spec fn keyword_match(c: Content, keywords: Seq<Seq<char>>, mode: MatchMode) -> bool {
    match mode {
        MatchMode::Any => exists|i: int| 0 <= i < keywords.len() && #[trigger] found_in(c, keywords[i]),
        MatchMode::All => forall|i: int| 0 <= i < keywords.len() ==> #[trigger] found_in(c, keywords[i]),
    }
}

/// The keyword match as a predicate on items.
pub open spec fn keyword_keeps(keywords: Seq<Seq<char>>, mode: MatchMode) -> spec_fn(Content) -> bool {
    |c: Content| keyword_match(c, keywords, mode)
}

/// Keeps, in order, the items that match the keywords (compared without case).
pub fn filter_by_keywords(contents: Vec<Content>, keywords: &[String], mode: MatchMode) -> (r: Vec<
    Content,
>)
    ensures
        r@ == contents@.filter(
            keyword_keeps(keywords@.map_values(|k: String| lower_of(k@)), mode),
        ),
{
    let mut lowered: Vec<String> = Vec::new();
    let mut i: usize = 0;
    while i < keywords.len()
        invariant
            i <= keywords.len(),
            lowered@.len() == i,
            forall|j: int| 0 <= j < i ==> #[trigger] lowered@[j]@ == lower_of(keywords@[j]@),
        decreases keywords.len() - i,
    {
        lowered.push(lowercase(keywords[i].as_str()));
        i = i + 1;
    }
    let ghost kws = keywords@.map_values(|k: String| lower_of(k@));
    assert(texts(lowered@) =~= kws);
    let ghost pred = keyword_keeps(kws, mode);
    let ghost all = contents@;
    let mut out: Vec<Content> = Vec::new();
    for c in it: contents.into_iter()
        invariant
            it.seq() == all,
            texts(lowered@) == kws,
            pred == keyword_keeps(kws, mode),
            out@ == all.subrange(0, it.index() as int).filter(pred),
    {
        proof {
            assert(all.subrange(0, it.index() + 1).drop_last() =~= all.subrange(0, it.index() as int));
            assert(c == all[it.index() as int]);
            reveal(Seq::filter);
        }
        let keep = matches_keywords(&c, lowered.as_slice(), &mode);
        assert(keep == pred(c));
        if keep {
            out.push(c);
        }
    }
    assert(all.subrange(0, all.len() as int) =~= all);
    out
}

/// Whether one item matches keywords that are already case-folded.
pub fn matches_keywords(content: &Content, lowercase_keywords: &[String], mode: &MatchMode) -> (r: bool)
    ensures
        r == keyword_match(*content, texts(lowercase_keywords@), *mode),
{
    let title_lower = lowercase(content.title.as_str());
    let body_lower = lowercase(content.body.as_str());
    let ghost kws = texts(lowercase_keywords@);
    let n = lowercase_keywords.len();
    let mut i: usize = 0;
    match mode {
        MatchMode::Any => {
            while i < n
                invariant
                    i <= n,
                    n == kws.len(),
                    kws == texts(lowercase_keywords@),
                    *mode == MatchMode::Any,
                    title_lower@ == lower_of(content.title@),
                    body_lower@ == lower_of(content.body@),
                    forall|j: int| 0 <= j < i ==> !#[trigger] found_in(*content, kws[j]),
                decreases n - i,
            {
                let k = lowercase_keywords[i].as_str();
                assert(kws[i as int] == k@);
                if contains_text(title_lower.as_str(), k) || contains_text(body_lower.as_str(), k) {
                    assert(found_in(*content, kws[i as int]));
                    return true;
                }
                i = i + 1;
            }
            false
        },
        MatchMode::All => {
            while i < n
                invariant
                    i <= n,
                    n == kws.len(),
                    kws == texts(lowercase_keywords@),
                    *mode == MatchMode::All,
                    title_lower@ == lower_of(content.title@),
                    body_lower@ == lower_of(content.body@),
                    forall|j: int| 0 <= j < i ==> #[trigger] found_in(*content, kws[j]),
                decreases n - i,
            {
                let k = lowercase_keywords[i].as_str();
                assert(kws[i as int] == k@);
                if !(contains_text(title_lower.as_str(), k) || contains_text(body_lower.as_str(), k)) {
                    assert(!found_in(*content, kws[i as int]));
                    return false;
                }
                i = i + 1;
            }
            true
        },
    }
}


/// Keyword filtering never adds items, and every item it keeps has at least
/// one (`Any`) or every (`All`) case-folded keyword in its case-folded title
/// or its case-folded body.
pub proof fn lemma_filter_by_keywords_sound(contents: Seq<Content>, keywords: Seq<Seq<char>>, mode: MatchMode)
    ensures
        contents.filter(keyword_keeps(keywords, mode)).len() <= contents.len(),
        forall|i: int|
            0 <= i < contents.filter(keyword_keeps(keywords, mode)).len() ==> {
                let kept = #[trigger] contents.filter(keyword_keeps(keywords, mode))[i];
                &&& mode == MatchMode::Any ==> exists|j: int|
                    0 <= j < keywords.len() && #[trigger] found_in(kept, keywords[j])
                &&& mode == MatchMode::All ==> forall|j: int|
                    0 <= j < keywords.len() ==> #[trigger] found_in(kept, keywords[j])
            },
{
    let pred = keyword_keeps(keywords, mode);
    contents.lemma_filter_len(pred);
    assert forall|i: int| 0 <= i < contents.filter(pred).len() implies pred(
        #[trigger] contents.filter(pred)[i],
    ) by {
        contents.lemma_filter_pred(pred, i);
    }
}

} // verus!
