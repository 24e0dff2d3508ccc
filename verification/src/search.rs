//! The bounded, page by page search of a commit's history.
//!
//! A search fetches nothing itself. It says what to do next, a page to fetch
//! or the answer to give, and is told what each fetch brought. It asks for at
//! most `MAX_ATTEMPTS` pages, each from the cursor that the page before it
//! gave, and ends at the first page that holds the target, at the first
//! fetch that fails, or when the pages are used up.

use vstd::prelude::*;
use crate::fetch::Fetched;
use crate::json_doc::json_text_tree;
use crate::outcome::{SearchError, SearchOutcome};
use crate::page::{
    decode_page, page_cursor, page_ids, page_of, page_of_text, page_view, HistoryPage, PageView,
};
use crate::query::{history_query, history_query_text};
use crate::tree::Tree;

verus! {

/// The number of pages that a search may fetch.
pub const MAX_ATTEMPTS: usize = 5;

/// Where a search stands: the cursor after which the next page starts, empty
/// before the first page, and the number of fetches made so far.
#[derive(Clone, Debug, PartialEq, Eq)]
pub struct SearchState {
    pub cursor: String,
    pub attempts_used: usize,
}

/// A `SearchState` as mathematical values.
pub struct StateView {
    pub cursor: Seq<char>,
    pub attempts_used: nat,
}

impl View for SearchState {
    type V = StateView;

    open spec fn view(&self) -> StateView {
        StateView { cursor: self.cursor@, attempts_used: self.attempts_used as nat }
    }
}

/// What a search asks of its caller.
#[derive(Clone, Debug, PartialEq, Eq)]
pub enum SearchAction {
    /// Send this query, and hand back what came of it.
    Fetch(String),
    /// Stop: this is the answer.
    Finish(SearchOutcome),
}

/// A search for `target` in the history of `root`.
#[derive(Debug, PartialEq, Eq)]
pub struct HistorySearch {
    root: String,
    target: String,
    state: SearchState,
    outcome: Option<SearchOutcome>,
}

/// A `HistorySearch` as mathematical values.
pub struct SearchView {
    pub root: Seq<char>,
    pub target: Seq<char>,
    pub state: StateView,
    pub outcome: Option<SearchOutcome>,
}

impl SearchView {
    /// A search keeps within its budget, and one that has used it up has its
    /// answer.
    pub open spec fn well_formed(self) -> bool {
        &&& self.state.attempts_used <= MAX_ATTEMPTS
        &&& self.outcome is None ==> self.state.attempts_used < MAX_ATTEMPTS
    }
}

/// The search for `target` in the history of `root` before its first fetch.
pub open spec fn initial(root: Seq<char>, target: Seq<char>) -> SearchView {
    SearchView {
        root,
        target,
        state: StateView { cursor: Seq::empty(), attempts_used: 0 },
        outcome: None,
    }
}

/// The search after it was told what one more fetch brought.
///
/// A search that has its answer stays as it is. Otherwise the fetch counts as
/// one attempt. A fetch that failed ends the search with its error. A page
/// moves the cursor on; it ends the search where it holds the target, or
/// where it was the last page that the search may fetch.
pub open spec fn recorded(s: SearchView, fetched: Result<PageView, SearchError>) -> SearchView {
    if s.outcome is Some {
        s
    } else {
        match fetched {
            Err(e) => SearchView {
                state: StateView { attempts_used: s.state.attempts_used + 1, ..s.state },
                outcome: Some(SearchOutcome::Error(e)),
                ..s
            },
            Ok(page) => SearchView {
                state: StateView {
                    cursor: page.next_cursor,
                    attempts_used: s.state.attempts_used + 1,
                },
                outcome: if page.commits.contains(s.target) {
                    Some(SearchOutcome::Found)
                } else if s.state.attempts_used + 1 >= MAX_ATTEMPTS {
                    Some(SearchOutcome::NotFound)
                } else {
                    None
                },
                ..s
            },
        }
    }
}

/// What a fetch brought, as the search takes it: the page in the body of an
/// answer, or the error that the failure stands for.
pub open spec fn observed(fetched: Fetched) -> Result<PageView, SearchError> {
    match fetched {
        Fetched::Body(body) => page_of_text(body@),
        Fetched::TransportFailure => Err(SearchError::Transport),
        Fetched::AuthRejected => Err(SearchError::Auth),
    }
}

/// The search after it was told, one by one, what a sequence of fetches
/// brought.
pub open spec fn replayed(s: SearchView, fetches: Seq<Result<PageView, SearchError>>) -> SearchView
    decreases fetches.len(),
{
    if fetches.len() == 0 {
        s
    } else {
        recorded(replayed(s, fetches.drop_last()), fetches.last())
    }
}

/// A sequence of fetch results, each page taken by its view.
pub open spec fn page_views(fetches: Seq<Result<HistoryPage, SearchError>>) -> Seq<
    Result<PageView, SearchError>,
> {
    Seq::new(fetches.len(), |i: int| page_view(fetches[i]))
}

/// The search after it was asked what to do next: one that has no answer yet
/// and whose query cannot be written ends with a `Template` error.
pub open spec fn asked(s: SearchView) -> SearchView {
    if s.outcome is None && history_query_text(s.root, s.state.cursor) is None {
        SearchView { outcome: Some(SearchOutcome::Error(SearchError::Template)), ..s }
    } else {
        s
    }
}

impl View for HistorySearch {
    type V = SearchView;

    closed spec fn view(&self) -> SearchView {
        SearchView {
            root: self.root@,
            target: self.target@,
            state: self.state@,
            outcome: self.outcome,
        }
    }
}

impl HistorySearch {
    #[verifier::type_invariant]
    spec fn budget_kept(self) -> bool {
        self@.well_formed()
    }

    /// A search for `target` in the history of `root`, before its first
    /// fetch.
    pub fn new(root: &str, target: &str) -> (r: Self)
        ensures
            r@ == initial(root@, target@),
    {
        HistorySearch {
            root: root.to_owned(),
            target: target.to_owned(),
            state: SearchState { cursor: String::new(), attempts_used: 0 },
            outcome: None,
        }
    }

    /// The commit whose history is searched.
    pub fn root(&self) -> (r: &str)
        ensures
            r@ == self@.root,
    {
        self.root.as_str()
    }

    /// The commit identifier that is looked for.
    pub fn target(&self) -> (r: &str)
        ensures
            r@ == self@.target,
    {
        self.target.as_str()
    }

    /// Where the search stands.
    pub fn state(&self) -> (r: &SearchState)
        ensures
            r@ == self@.state,
            r.attempts_used <= MAX_ATTEMPTS,
    {
        proof {
            use_type_invariant(self);
        }
        &self.state
    }

    /// The cursor after which the next page starts.
    pub fn cursor(&self) -> (r: &str)
        ensures
            r@ == self@.state.cursor,
    {
        self.state.cursor.as_str()
    }

    /// The number of fetches made so far; never more than `MAX_ATTEMPTS`.
    pub fn attempts_used(&self) -> (r: usize)
        ensures
            r == self@.state.attempts_used,
            r <= MAX_ATTEMPTS,
    {
        proof {
            use_type_invariant(self);
        }
        self.state.attempts_used
    }

    /// The answer, once the search has one.
    pub fn outcome(&self) -> (r: Option<SearchOutcome>)
        ensures
            r == self@.outcome,
            self@.well_formed(),
    {
        proof {
            use_type_invariant(self);
        }
        self.outcome
    }

    /// Tells the search what one more fetch brought, already read as a page
    /// or as an error.
    pub fn record(&mut self, fetched: &Result<HistoryPage, SearchError>)
        ensures
            final(self)@ == recorded(old(self)@, page_view(*fetched)),
    {
        proof {
            use_type_invariant(&*self);
        }
        if self.outcome.is_some() {
            return ;
        }
        let attempts: usize = self.state.attempts_used + 1;
        match fetched {
            Err(e) => {
                self.outcome = Some(SearchOutcome::Error(*e));
                self.state.attempts_used = attempts;
            },
            Ok(page) => {
                if page.contains(self.target.as_str()) {
                    self.outcome = Some(SearchOutcome::Found);
                } else if attempts >= MAX_ATTEMPTS {
                    self.outcome = Some(SearchOutcome::NotFound);
                }
                self.state.cursor = page.next_cursor.clone();
                self.state.attempts_used = attempts;
            },
        }
    }

    /// Tells the search what one more fetch brought. A body is read as a
    /// history page; one that is none ends the search with
    /// `InvalidResponse`.
    pub fn receive(&mut self, fetched: &Fetched)
        ensures
            final(self)@ == recorded(old(self)@, observed(*fetched)),
    {
        let page = match fetched {
            Fetched::Body(body) => decode_page(body.as_str()),
            Fetched::TransportFailure => Err(SearchError::Transport),
            Fetched::AuthRejected => Err(SearchError::Auth),
        };
        self.record(&page);
    }

    /// What to do next: give the answer where the search has one, else fetch
    /// the page after the cursor. A search whose query cannot be written
    /// ends here, with a `Template` error.
    pub fn action(&mut self) -> (r: SearchAction)
        ensures
            final(self)@ == asked(old(self)@),
            match r {
                SearchAction::Finish(outcome) => final(self)@.outcome == Some(outcome),
                SearchAction::Fetch(query) => final(self)@.outcome is None && history_query_text(
                    old(self)@.root,
                    old(self)@.state.cursor,
                ) == Some(query@),
            },
    {
        proof {
            use_type_invariant(&*self);
        }
        match self.outcome {
            Some(outcome) => SearchAction::Finish(outcome),
            None => match history_query(self.root.as_str(), self.state.cursor.as_str()) {
                Ok(query) => SearchAction::Fetch(query),
                Err(e) => {
                    self.outcome = Some(SearchOutcome::Error(e));
                    SearchAction::Finish(SearchOutcome::Error(e))
                },
            },
        }
    }

    /// One turn of the search: takes what the fetch that it asked for
    /// brought, and says what to do next.
    pub fn step(&mut self, fetched: &Fetched) -> (r: SearchAction)
        ensures
            final(self)@ == asked(recorded(old(self)@, observed(*fetched))),
            match r {
                SearchAction::Finish(outcome) => final(self)@.outcome == Some(outcome),
                SearchAction::Fetch(query) => final(self)@.outcome is None && history_query_text(
                    final(self)@.root,
                    final(self)@.state.cursor,
                ) == Some(query@),
            },
    {
        self.receive(fetched);
        self.action()
    }

    /// Tells the search, one by one, what a sequence of fetches brought. The
    /// search takes no notice of what comes after the fetch that ends it.
    pub fn replay(&mut self, fetches: &Vec<Result<HistoryPage, SearchError>>)
        ensures
            final(self)@ == replayed(old(self)@, page_views(fetches@)),
    {
        let ghost all = page_views(fetches@);
        let mut i: usize = 0;
        assert(all.take(0) =~= Seq::empty());
        while i < fetches.len() && self.outcome.is_none()
            invariant
                i <= fetches.len(),
                all == page_views(fetches@),
                self@ == replayed(old(self)@, all.take(i as int)),
            decreases fetches.len() - i,
        {
            assert(all.take(i + 1).drop_last() =~= all.take(i as int));
            assert(all.take(i + 1).last() == page_view(fetches@[i as int]));
            self.record(&fetches[i]);
            i += 1;
        }
        proof {
            if i < fetches.len() {
                lemma_answer_stays(old(self)@, all, i as int);
            } else {
                assert(all.take(i as int) =~= all);
            }
        }
    }
}

/// Whether a fetch brought a page that does not hold the target.
pub open spec fn misses(fetched: Result<PageView, SearchError>, target: Seq<char>) -> bool {
    fetched matches Ok(page) && !page.commits.contains(target)
}

/// Whether a fetch brought a page that holds the target.
pub open spec fn hits(fetched: Result<PageView, SearchError>, target: Seq<char>) -> bool {
    fetched matches Ok(page) && page.commits.contains(target)
}

/// The cursor from which fetch number `j`, counted from 0, is made in a run
/// of fetches that all brought pages: empty for the first, and then the
/// cursor that the page before gave.
pub open spec fn cursor_before(fetches: Seq<Result<PageView, SearchError>>, j: int) -> Seq<char> {
    if j <= 0 {
        Seq::empty()
    } else {
        match fetches[j - 1] {
            Ok(page) => page.next_cursor,
            Err(_) => Seq::empty(),
        }
    }
}

/// Once a search has its answer, nothing that it is told changes it.
pub proof fn lemma_answer_stays(s: SearchView, fetches: Seq<Result<PageView, SearchError>>, n: int)
    requires
        0 <= n <= fetches.len(),
        replayed(s, fetches.take(n)).outcome is Some,
    ensures
        replayed(s, fetches) == replayed(s, fetches.take(n)),
    decreases fetches.len(),
{
    if n == fetches.len() {
        assert(fetches.take(n) =~= fetches);
    } else {
        assert(fetches.drop_last().take(n) =~= fetches.take(n));
        lemma_answer_stays(s, fetches.drop_last(), n);
    }
}

/// A search never makes more than `MAX_ATTEMPTS` fetches, and has its answer
/// when it has made that many.
pub proof fn lemma_budget_kept(s: SearchView, fetches: Seq<Result<PageView, SearchError>>)
    requires
        s.well_formed(),
    ensures
        replayed(s, fetches).well_formed(),
        replayed(s, fetches).root == s.root,
        replayed(s, fetches).target == s.target,
    decreases fetches.len(),
{
    if fetches.len() > 0 {
        lemma_budget_kept(s, fetches.drop_last());
    }
}

/// While every page misses the target and the budget is not used up, the
/// search goes on: after `j` such pages it has made `j` fetches, has no
/// answer, and stands at the cursor that the last of them gave.
pub proof fn lemma_search_goes_on(
    root: Seq<char>,
    target: Seq<char>,
    fetches: Seq<Result<PageView, SearchError>>,
    j: int,
)
    requires
        0 <= j <= fetches.len(),
        j < MAX_ATTEMPTS,
        forall|i: int| 0 <= i < j ==> misses(#[trigger] fetches[i], target),
    ensures
        replayed(initial(root, target), fetches.take(j)) == (SearchView {
            root,
            target,
            state: StateView { cursor: cursor_before(fetches, j), attempts_used: j as nat },
            outcome: None,
        }),
    decreases j,
{
    if j == 0 {
        assert(fetches.take(0) =~= Seq::empty());
    } else {
        lemma_search_goes_on(root, target, fetches, j - 1);
        assert(fetches.take(j).drop_last() =~= fetches.take(j - 1));
        assert(fetches.take(j).last() == fetches[j - 1]);
        assert(misses(fetches[j - 1], target));
    }
}

/// A target on page `k`, counted from 1 and within the budget, is found
/// after exactly `k` fetches: the search has no answer before the `k`-th
/// fetch, and takes no notice of anything after it.
pub proof fn lemma_found_after_k_fetches(
    root: Seq<char>,
    target: Seq<char>,
    fetches: Seq<Result<PageView, SearchError>>,
    k: int,
)
    requires
        1 <= k <= MAX_ATTEMPTS,
        k <= fetches.len(),
        forall|i: int| 0 <= i < k - 1 ==> misses(#[trigger] fetches[i], target),
        hits(fetches[k - 1], target),
    ensures
        replayed(initial(root, target), fetches).outcome == Some(SearchOutcome::Found),
        replayed(initial(root, target), fetches).state.attempts_used == k,
        forall|j: int|
            0 <= j < k ==> (#[trigger] replayed(initial(root, target), fetches.take(j))).outcome
                is None,
{
    lemma_search_goes_on(root, target, fetches, k - 1);
    assert(fetches.take(k).drop_last() =~= fetches.take(k - 1));
    assert(fetches.take(k).last() == fetches[k - 1]);
    lemma_answer_stays(initial(root, target), fetches, k);
    assert forall|j: int| 0 <= j < k implies (#[trigger] replayed(
        initial(root, target),
        fetches.take(j),
    )).outcome is None by {
        lemma_search_goes_on(root, target, fetches, j);
    }
}

/// A target on none of the first `MAX_ATTEMPTS` pages is not found, after
/// exactly `MAX_ATTEMPTS` fetches.
pub proof fn lemma_not_found_after_budget(
    root: Seq<char>,
    target: Seq<char>,
    fetches: Seq<Result<PageView, SearchError>>,
)
    requires
        MAX_ATTEMPTS <= fetches.len(),
        forall|i: int| 0 <= i < MAX_ATTEMPTS ==> misses(#[trigger] fetches[i], target),
    ensures
        replayed(initial(root, target), fetches).outcome == Some(SearchOutcome::NotFound),
        replayed(initial(root, target), fetches).state.attempts_used == MAX_ATTEMPTS,
        forall|j: int|
            0 <= j < MAX_ATTEMPTS ==> (#[trigger] replayed(
                initial(root, target),
                fetches.take(j),
            )).outcome is None,
{
    let n = MAX_ATTEMPTS as int;
    lemma_search_goes_on(root, target, fetches, n - 1);
    assert(fetches.take(n).drop_last() =~= fetches.take(n - 1));
    assert(fetches.take(n).last() == fetches[n - 1]);
    assert(misses(fetches[n - 1], target));
    lemma_answer_stays(initial(root, target), fetches, n);
    assert forall|j: int| 0 <= j < MAX_ATTEMPTS implies (#[trigger] replayed(
        initial(root, target),
        fetches.take(j),
    )).outcome is None by {
        lemma_search_goes_on(root, target, fetches, j);
    }
}

/// A fetch that fails, or brings what is no history page, ends the search
/// at once with its error: the search has made one fetch more than the pages
/// before it, and takes no notice of anything after it. With `Transport`
/// this is a page that could not be fetched, with `InvalidResponse` an
/// answer that lacks the cursor or the list of nodes.
pub proof fn lemma_failed_fetch_ends_search(
    root: Seq<char>,
    target: Seq<char>,
    fetches: Seq<Result<PageView, SearchError>>,
    j: int,
    e: SearchError,
)
    requires
        0 <= j < MAX_ATTEMPTS,
        j < fetches.len(),
        forall|i: int| 0 <= i < j ==> misses(#[trigger] fetches[i], target),
        fetches[j] == Err::<PageView, SearchError>(e),
    ensures
        replayed(initial(root, target), fetches).outcome == Some(SearchOutcome::Error(e)),
        replayed(initial(root, target), fetches).state.attempts_used == j + 1,
{
    lemma_search_goes_on(root, target, fetches, j);
    assert(fetches.take(j + 1).drop_last() =~= fetches.take(j));
    assert(fetches.take(j + 1).last() == fetches[j]);
    lemma_answer_stays(initial(root, target), fetches, j + 1);
}

/// Each query but the first is made from the cursor that the page before it
/// gave: after `j` pages that miss the target, the search asks for the page
/// after the cursor of the `j`-th.
pub proof fn lemma_cursor_follows_pages(
    root: Seq<char>,
    target: Seq<char>,
    fetches: Seq<Result<PageView, SearchError>>,
    j: int,
)
    requires
        1 <= j <= fetches.len(),
        j < MAX_ATTEMPTS,
        forall|i: int| 0 <= i < j ==> misses(#[trigger] fetches[i], target),
    ensures
        fetches[j - 1] matches Ok(page) && replayed(
            initial(root, target),
            fetches.take(j),
        ).state.cursor == page.next_cursor,
{
    lemma_search_goes_on(root, target, fetches, j);
    assert(misses(fetches[j - 1], target));
}

/// An answer that lacks the cursor of the next page or the list of nodes is
/// no history page: the fetch that brought it ends a search that had no
/// answer yet, with `InvalidResponse`.
pub proof fn lemma_incomplete_answer_ends_search(doc: Tree, s: SearchView)
    requires
        page_cursor(doc) is None || page_ids(doc) is None,
        s.outcome is None,
    ensures
        page_of(doc) == Err::<PageView, SearchError>(SearchError::InvalidResponse),
        forall|body: String|
            json_text_tree(body@) == Some(doc) ==> (#[trigger] recorded(
                s,
                observed(Fetched::Body(body)),
            )).outcome == Some(SearchOutcome::Error(SearchError::InvalidResponse)),
{
}

/// What the answer of a search says of the fetches that it was told, whatever
/// they were. With `n` the number of fetches that the search made:
/// it has no answer only while fewer than `MAX_ATTEMPTS` pages came, all
/// without the target, and it has taken them all; `Found` only where the
/// `n`-th fetch brought a page with the target; `NotFound` only where `n` is
/// `MAX_ATTEMPTS`; an error only where the `n`-th fetch failed with it. In
/// every case the fetches before the last one made brought pages without the
/// target, and so did the last one where the target was not found.
pub proof fn lemma_answer_explained(
    root: Seq<char>,
    target: Seq<char>,
    fetches: Seq<Result<PageView, SearchError>>,
)
    ensures
        ({
            let end = replayed(initial(root, target), fetches);
            let n = end.state.attempts_used as int;
            &&& n <= fetches.len()
            &&& n <= MAX_ATTEMPTS
            &&& forall|i: int| 0 <= i < n - 1 ==> misses(#[trigger] fetches[i], target)
            &&& match end.outcome {
                None => n == fetches.len() && n < MAX_ATTEMPTS && (n >= 1 ==> misses(
                    fetches[n - 1],
                    target,
                )),
                Some(SearchOutcome::Found) => n >= 1 && hits(fetches[n - 1], target),
                Some(SearchOutcome::NotFound) => n == MAX_ATTEMPTS && misses(
                    fetches[n - 1],
                    target,
                ),
                Some(SearchOutcome::Error(e)) => n >= 1 && fetches[n - 1] == Err::<
                    PageView,
                    SearchError,
                >(e),
            }
        }),
    decreases fetches.len(),
{
    if fetches.len() > 0 {
        let before = fetches.drop_last();
        lemma_answer_explained(root, target, before);
        let mid = replayed(initial(root, target), before);
        let m = mid.state.attempts_used as int;
        lemma_budget_kept(initial(root, target), before);
        assert forall|i: int| 0 <= i < before.len() implies before[i] == fetches[i] by {}
        if mid.outcome is None {
            assert(fetches.last() == fetches[m]);
            assert forall|i: int| 0 <= i < m implies misses(#[trigger] fetches[i], target) by {
                if i < m - 1 {
                    assert(misses(before[i], target));
                } else {
                    assert(misses(before[m - 1], target));
                }
            }
        } else {
            assert(m >= 1 ==> before[m - 1] == fetches[m - 1]);
        }
    }
}

} // verus!
