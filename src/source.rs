//! The normalized content record, the runtime keyword filters shared by every
//! adapter, and the capability that each adapter offers.

pub mod reddit;
pub mod semantic_scholar;

use vstd::prelude::*;

use crate::text::{contains_seq, contains_text, lower_of, lowercase, same_text};

verus! {

/// One crawled item, in the shape that every provider is mapped into.
#[derive(Debug, Clone)]
pub struct Content {
    pub id: String,
    pub title: String,
    pub body: String,
    pub url: Option<String>,
    pub author: String,
    pub created_utc: i64,
    pub score: i32,
    pub num_comments: i32,
    /// Which provider kind produced the item.
    pub source_type: String,
    /// Which configured instance produced the item.
    pub source_id: String,
}

/// What every adapter offers besides fetching: its identity.
pub trait Source {
    /// The provider kind, as text.
    spec fn spec_source_type(&self) -> Seq<char>;

    /// The identifier of the configured instance, as text.
    spec fn spec_source_id(&self) -> Seq<char>;

    /// The provider kind.
    fn source_type(&self) -> (r: &'static str)
        ensures
            r@ == self.spec_source_type(),
    ;

    /// The identifier of the configured instance.
    fn source_id(&self) -> (r: String)
        ensures
            r@ == self.spec_source_id(),
    ;
}

/// Keyword match policy of the runtime filters.
#[derive(Debug, Clone, Copy, PartialEq, Eq, Structural)]
pub enum MatchMode {
    /// At least one keyword must appear.
    Any,
    /// Every keyword must appear.
    All,
}

/// A match mode name that is neither `any` nor `all`.
#[derive(Debug, Clone)]
pub struct InvalidMatchMode {
    pub given: String,
}

impl InvalidMatchMode {
    /// Human-readable description of the rejection.
    pub fn message(&self) -> (r: String)
        ensures
            r@ == "Invalid match mode: "@ + self.given@ + ". Must be 'any' or 'all'"@,
    {
        let r = String::from_str("Invalid match mode: ");
        let r = r.concat(self.given.as_str());
        r.concat(". Must be 'any' or 'all'")
    }
}

impl MatchMode {
    /// Parses a match mode name, ignoring case.
    pub fn from_str(s: &str) -> (r: Result<Self, InvalidMatchMode>)
        ensures
            lower_of(s@) == "any"@ ==> r == Ok::<MatchMode, InvalidMatchMode>(MatchMode::Any),
            lower_of(s@) == "all"@ ==> r == Ok::<MatchMode, InvalidMatchMode>(MatchMode::All),
            lower_of(s@) != "any"@ && lower_of(s@) != "all"@ ==> (r matches Err(e)
                && e.given@ == s@),
    {
        proof {
            reveal_strlit("any");
            reveal_strlit("all");
            assert("any"@[1] != "all"@[1]);
        }
        let lower = lowercase(s);
        if same_text(lower.as_str(), "any") {
            Ok(MatchMode::Any)
        } else if same_text(lower.as_str(), "all") {
            Ok(MatchMode::All)
        } else {
            Err(InvalidMatchMode { given: String::from_str(s) })
        }
    }
}

/// The text that keywords are looked for in: title and body joined by a
/// space, then case-folded.
pub open spec fn folded_text(c: Content) -> Seq<char> {
    lower_of(c.title@ + seq![' '] + c.body@)
}

/// Whether `text` satisfies the (already case-folded) keywords under `mode`.
/// No keywords at all means no restriction.
pub open spec fn text_matches(text: Seq<char>, keywords: Seq<Seq<char>>, mode: MatchMode) -> bool {
    keywords.len() == 0 || match mode {
        MatchMode::Any => exists|i: int|
            0 <= i < keywords.len() && #[trigger] contains_seq(text, keywords[i]),
        MatchMode::All => forall|i: int|
            0 <= i < keywords.len() ==> #[trigger] contains_seq(text, keywords[i]),
    }
}

/// Whether a content item passes the keyword filter.
pub open spec fn content_matches(c: Content, keywords: Seq<Seq<char>>, mode: MatchMode) -> bool {
    text_matches(folded_text(c), keywords, mode)
}

/// The keyword filter as a predicate on items.
pub open spec fn keeps(keywords: Seq<Seq<char>>, mode: MatchMode) -> spec_fn(Content) -> bool {
    |c: Content| content_matches(c, keywords, mode)
}

/// The views of a list of strings.
pub open spec fn texts(v: Seq<String>) -> Seq<Seq<char>> {
    v.map_values(|s: String| s@)
}

/// The case-folded views of a list of strings.
pub open spec fn folded_texts(v: Seq<String>) -> Seq<Seq<char>> {
    v.map_values(|s: String| lower_of(s@))
}

/// Runtime filters, built once per run and shared read-only by every fetch.
#[derive(Debug, Clone)]
pub struct SourceFilters {
    /// The keywords as given, kept for display.
    pub keywords: Vec<String>,
    /// The keywords case-folded, as matching uses them.
    pub lowercase_keywords: Vec<String>,
    pub match_mode: MatchMode,
}

impl SourceFilters {
    /// The case-folded keywords that matching uses.
    pub open spec fn folded(&self) -> Seq<Seq<char>> {
        texts(self.lowercase_keywords@)
    }

    /// The keywords as given.
    pub open spec fn given(&self) -> Seq<String> {
        self.keywords@
    }

    /// The match mode that matching uses.
    pub open spec fn mode(&self) -> MatchMode {
        self.match_mode
    }

    /// The filter as a predicate on items.
    pub open spec fn spec_keeps(&self) -> spec_fn(Content) -> bool {
        keeps(self.folded(), self.mode())
    }

    /// Builds the filters, folding the case of each keyword once.
    pub fn new(keywords: Vec<String>, match_mode: MatchMode) -> (r: Self)
        ensures
            r.given() == keywords@,
            r.mode() == match_mode,
            r.folded() == folded_texts(keywords@),
    {
        let mut lowercase_keywords: Vec<String> = Vec::new();
        let mut i: usize = 0;
        while i < keywords.len()
            invariant
                i <= keywords.len(),
                lowercase_keywords@.len() == i,
                forall|j: int|
                    0 <= j < i ==> #[trigger] lowercase_keywords@[j]@ == lower_of(keywords@[j]@),
            decreases keywords.len() - i,
        {
            let k = lowercase(keywords[i].as_str());
            lowercase_keywords.push(k);
            i = i + 1;
        }
        let r = SourceFilters { keywords, lowercase_keywords, match_mode };
        assert(r.folded() =~= folded_texts(keywords@));
        r
    }

    /// Whether a content item passes the keyword filter.
    pub fn matches(&self, content: &Content) -> (r: bool)
        ensures
            r == content_matches(*content, self.folded(), self.mode()),
    {
        let n = self.lowercase_keywords.len();
        if n == 0 {
            return true;
        }
        proof {
            reveal_strlit(" ");
        }
        let joined = content.title.clone().concat(" ").concat(content.body.as_str());
        assert(joined@ =~= content.title@ + seq![' '] + content.body@);
        let text = lowercase(joined.as_str());
        let ghost kws = self.folded();
        let mut i: usize = 0;
        match self.match_mode {
            MatchMode::Any => {
                while i < n
                    invariant
                        i <= n,
                        n == kws.len(),
                        kws == self.folded(),
                        self.mode() == MatchMode::Any,
                        text@ == folded_text(*content),
                        forall|j: int| 0 <= j < i ==> !#[trigger] contains_seq(text@, kws[j]),
                    decreases n - i,
                {
                    assert(kws[i as int] == self.lowercase_keywords@[i as int]@);
                    if contains_text(text.as_str(), self.lowercase_keywords[i].as_str()) {
                        return true;
                    }
                    i = i + 1;
                }
                false
            },
            MatchMode::All => {
                while i < n
                    invariant
                        i <= n,
                        n == kws.len(),
                        kws == self.folded(),
                        self.mode() == MatchMode::All,
                        text@ == folded_text(*content),
                        forall|j: int| 0 <= j < i ==> #[trigger] contains_seq(text@, kws[j]),
                    decreases n - i,
                {
                    assert(kws[i as int] == self.lowercase_keywords@[i as int]@);
                    if !contains_text(text.as_str(), self.lowercase_keywords[i].as_str()) {
                        return false;
                    }
                    i = i + 1;
                }
                true
            },
        }
    }

    /// Keeps the items that pass the keyword filter, in their order.
    pub fn retain_matching(&self, contents: Vec<Content>) -> (r: Vec<Content>)
        ensures
            r@ == contents@.filter(self.spec_keeps()),
    {
        let ghost all = contents@;
        let mut out: Vec<Content> = Vec::new();
        for c in it: contents.into_iter()
            invariant
                it.seq() == all,
                out@ == all.subrange(0, it.index() as int).filter(self.spec_keeps()),
        {
            proof {
                assert(all.subrange(0, it.index() + 1).drop_last() =~= all.subrange(0, it.index() as int));
                assert(c == all[it.index() as int]);
                reveal(Seq::filter);
            }
            let keep = self.matches(&c);
            assert(keep == (self.spec_keeps())(c));
            if keep {
                out.push(c);
            }
        }
        assert(all.subrange(0, all.len() as int) =~= all);
        out
    }
}


/// Filtering twice with the same predicate gives what filtering once gave.
pub proof fn lemma_filter_idempotent<A>(s: Seq<A>, pred: spec_fn(A) -> bool)
    ensures
        s.filter(pred).filter(pred) == s.filter(pred),
    decreases s.len(),
{
    reveal(Seq::filter);
    if s.len() > 0 {
        lemma_filter_idempotent(s.drop_last(), pred);
        let f = s.drop_last().filter(pred);
        if pred(s.last()) {
            assert(f.push(s.last()).drop_last() =~= f);
        }
    }
}

/// The keyword filter never adds items, and every item it keeps has, in its
/// case-folded title and body, at least one of the case-folded keywords
/// (`Any`) or every one of them (`All`); with no keywords it keeps all.
pub proof fn lemma_keyword_filter_sound(filters: SourceFilters, items: Seq<Content>)
    ensures
        items.filter(filters.spec_keeps()).len() <= items.len(),
        filters.folded().len() == 0 ==> items.filter(filters.spec_keeps()) == items,
        forall|i: int|
            0 <= i < items.filter(filters.spec_keeps()).len() ==> {
                let kept = #[trigger] items.filter(filters.spec_keeps())[i];
                let kws = filters.folded();
                &&& (filters.mode() == MatchMode::Any && kws.len() > 0) ==> exists|j: int|
                    0 <= j < kws.len() && contains_seq(folded_text(kept), #[trigger] kws[j])
                &&& filters.mode() == MatchMode::All ==> forall|j: int|
                    0 <= j < kws.len() ==> contains_seq(folded_text(kept), #[trigger] kws[j])
            },
{
    let pred = filters.spec_keeps();
    items.lemma_filter_len(pred);
    assert forall|i: int| 0 <= i < items.filter(pred).len() implies pred(
        #[trigger] items.filter(pred)[i],
    ) by {
        items.lemma_filter_pred(pred, i);
    }
    if filters.folded().len() == 0 {
        lemma_filter_all(items, pred);
    }
}

/// A filter whose predicate holds everywhere keeps everything.
proof fn lemma_filter_all(s: Seq<Content>, pred: spec_fn(Content) -> bool)
    requires
        forall|c: Content| #[trigger] pred(c),
    ensures
        s.filter(pred) == s,
    decreases s.len(),
{
    reveal(Seq::filter);
    if s.len() > 0 {
        lemma_filter_all(s.drop_last(), pred);
        assert(s.drop_last().push(s.last()) =~= s);
    }
}

/// Running the keyword filter again over its own output changes nothing.
pub proof fn lemma_keyword_filter_idempotent(filters: SourceFilters, items: Seq<Content>)
    ensures
        items.filter(filters.spec_keeps()).filter(filters.spec_keeps()) == items.filter(
            filters.spec_keeps(),
        ),
{
    lemma_filter_idempotent(items, filters.spec_keeps());
}

} // verus!
