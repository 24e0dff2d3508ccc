//! One page of a commit's history, and how it is read out of the answer to a
//! history query.

use vstd::prelude::*;
use crate::json_doc::{json_child, json_items, json_text, json_text_tree, json_tree, json_trees, parse_json};
use crate::outcome::SearchError;
use crate::tree::{items_of, text_of, text_view, under, Tree};

verus! {

/// One page of a commit's history: the identifiers of its commits, in the
/// order in which the remote service gave them, and the cursor after which
/// the next page starts.
#[derive(Clone, Debug, PartialEq, Eq)]
pub struct HistoryPage {
    pub commits: Vec<String>,
    pub next_cursor: String,
}

/// A `HistoryPage` as sequences of characters.
pub struct PageView {
    pub commits: Seq<Seq<char>>,
    pub next_cursor: Seq<char>,
}

impl View for HistoryPage {
    type V = PageView;

    open spec fn view(&self) -> PageView {
        PageView {
            commits: Seq::new(self.commits@.len(), |i: int| self.commits@[i]@),
            next_cursor: self.next_cursor@,
        }
    }
}

impl HistoryPage {
    /// Whether `target` is one of the page's commits. An identifier matches
    /// only where it is the same sequence of characters as `target`: no
    /// shorter form and no other case of letters does.
    pub fn contains(&self, target: &str) -> (r: bool)
        ensures
            r == self@.commits.contains(target@),
    {
        let wanted = target.to_owned();
        let mut i: usize = 0;
        while i < self.commits.len()
            invariant
                i <= self.commits.len(),
                wanted@ == target@,
                forall|j: int| 0 <= j < i ==> self@.commits[j] != target@,
            decreases self.commits.len() - i,
        {
            if self.commits[i] == wanted {
                assert(self@.commits[i as int] == target@);
                return true;
            }
            i += 1;
        }
        false
    }
}

/// The identifiers looked up in the nodes of a page, each by its view.
pub open spec fn ids_view(ids: Option<Vec<Option<String>>>) -> Option<Seq<Option<Seq<char>>>> {
    match ids {
        Some(ids) => Some(Seq::new(ids@.len(), |i: int| text_view(ids@[i]))),
        None => None,
    }
}

/// Whether every node had an identifier.
pub open spec fn all_present(ids: Seq<Option<Seq<char>>>) -> bool {
    forall|i: int| 0 <= i < ids.len() ==> (#[trigger] ids[i]) is Some
}

/// The page made of what was looked up in an answer: the cursor, and for each
/// node its identifier. There is a page only where the cursor, the list of
/// nodes and the identifier of every node were found.
pub open spec fn built_page(cursor: Option<Seq<char>>, ids: Option<Seq<Option<Seq<char>>>>) -> Result<
    PageView,
    SearchError,
> {
    match (cursor, ids) {
        (Some(cursor), Some(ids)) => if all_present(ids) {
            Ok(PageView { commits: Seq::new(ids.len(), |i: int| ids[i].unwrap()), next_cursor: cursor })
        } else {
            Err(SearchError::InvalidResponse)
        },
        _ => Err(SearchError::InvalidResponse),
    }
}

/// The `data.repository.object.history` table of an answer.
pub open spec fn history_node(doc: Tree) -> Option<Tree> {
    under(under(under(doc.child("data"@), "repository"@), "object"@), "history"@)
}

/// The string at `pageInfo.endCursor` of an answer's history.
pub open spec fn page_cursor(doc: Tree) -> Option<Seq<char>> {
    text_of(under(under(history_node(doc), "pageInfo"@), "endCursor"@))
}

/// The string at `oid` of a node.
pub open spec fn node_id(node: Tree) -> Option<Seq<char>> {
    text_of(node.child("oid"@))
}

/// For each element of the list at `nodes` of an answer's history, its
/// identifier.
pub open spec fn page_ids(doc: Tree) -> Option<Seq<Option<Seq<char>>>> {
    match items_of(under(history_node(doc), "nodes"@)) {
        Some(nodes) => Some(Seq::new(nodes.len(), |i: int| node_id(nodes[i]))),
        None => None,
    }
}

/// The page that a parsed answer holds.
pub open spec fn page_of(doc: Tree) -> Result<PageView, SearchError> {
    built_page(page_cursor(doc), page_ids(doc))
}

/// The page that the body of an answer holds.
pub open spec fn page_of_text(body: Seq<char>) -> Result<PageView, SearchError> {
    match json_text_tree(body) {
        Some(doc) => page_of(doc),
        None => Err(SearchError::InvalidResponse),
    }
}

/// A result with its page taken by its view.
pub open spec fn page_view(r: Result<HistoryPage, SearchError>) -> Result<PageView, SearchError> {
    match r {
        Ok(page) => Ok(page@),
        Err(e) => Err(e),
    }
}

/// Makes a page of what was looked up in an answer, or rejects the answer
/// where the cursor, the list of nodes or the identifier of a node is
/// missing.
pub fn build_page(cursor: Option<String>, ids: Option<Vec<Option<String>>>) -> (r: Result<
    HistoryPage,
    SearchError,
>)
    ensures
        page_view(r) == built_page(text_view(cursor), ids_view(ids)),
{
    let next_cursor = match cursor {
        Some(cursor) => cursor,
        None => { return Err(SearchError::InvalidResponse); },
    };
    let nodes = match ids {
        Some(nodes) => nodes,
        None => { return Err(SearchError::InvalidResponse); },
    };
    let ghost found = ids_view(ids).unwrap();
    let mut commits: Vec<String> = Vec::new();
    let mut i: usize = 0;
    while i < nodes.len()
        invariant
            i <= nodes.len(),
            cursor is Some,
            ids == Some(nodes),
            found == ids_view(ids).unwrap(),
            commits@.len() == i,
            forall|j: int| 0 <= j < i ==> (#[trigger] found[j]) is Some,
            forall|j: int| 0 <= j < i ==> (#[trigger] commits@[j])@ == found[j].unwrap(),
        decreases nodes.len() - i,
    {
        match &nodes[i] {
            Some(id) => {
                commits.push(id.clone());
            },
            None => {
                assert(found[i as int] is None);
                return Err(SearchError::InvalidResponse);
            },
        }
        i += 1;
    }
    let page = HistoryPage { commits, next_cursor };
    assert(page@.commits =~= Seq::new(found.len(), |i: int| found[i].unwrap()));
    Ok(page)
}

/// Looks up the cursor of the next page in a parsed answer.
pub fn cursor_in(doc: &serde_json::Value) -> (r: Option<String>)
    ensures
        text_view(r) == page_cursor(json_tree(*doc)),
{
    let history = match history_in(doc) {
        Some(history) => history,
        None => { return None; },
    };
    let info = match json_child(history, "pageInfo") {
        Some(info) => info,
        None => { return None; },
    };
    let cursor = match json_child(info, "endCursor") {
        Some(cursor) => cursor,
        None => { return None; },
    };
    match json_text(cursor) {
        Some(s) => Some(s.to_owned()),
        None => None,
    }
}

/// Looks up, for each node of a parsed answer, its identifier.
pub fn ids_in(doc: &serde_json::Value) -> (r: Option<Vec<Option<String>>>)
    ensures
        ids_view(r) == page_ids(json_tree(*doc)),
{
    let history = match history_in(doc) {
        Some(history) => history,
        None => { return None; },
    };
    let list = match json_child(history, "nodes") {
        Some(list) => list,
        None => { return None; },
    };
    let nodes = match json_items(list) {
        Some(nodes) => nodes,
        None => { return None; },
    };
    let ghost trees = json_trees(nodes@);
    let mut ids: Vec<Option<String>> = Vec::new();
    let mut i: usize = 0;
    while i < nodes.len()
        invariant
            i <= nodes.len(),
            trees == json_trees(nodes@),
            ids@.len() == i,
            forall|j: int| 0 <= j < i ==> text_view(#[trigger] ids@[j]) == node_id(trees[j]),
        decreases nodes.len() - i,
    {
        let id = match json_child(&nodes[i], "oid") {
            Some(entry) => match json_text(entry) {
                Some(s) => Some(s.to_owned()),
                None => None,
            },
            None => None,
        };
        ids.push(id);
        i += 1;
    }
    assert(ids_view(Some(ids)).unwrap() =~= page_ids(json_tree(*doc)).unwrap());
    Some(ids)
}

/// Reads a history page out of a parsed answer.
pub fn page_from_document(doc: &serde_json::Value) -> (r: Result<HistoryPage, SearchError>)
    ensures
        page_view(r) == page_of(json_tree(*doc)),
{
    let cursor = cursor_in(doc);
    let ids = ids_in(doc);
    build_page(cursor, ids)
}

/// Reads a history page out of the body of an answer. A body that is not
/// JSON, or that lacks the cursor, the list of nodes or the identifier of a
/// node, is an `InvalidResponse`.
pub fn decode_page(body: &str) -> (r: Result<HistoryPage, SearchError>)
    ensures
        page_view(r) == page_of_text(body@),
{
    match parse_json(body) {
        Ok(doc) => page_from_document(&doc),
        Err(_) => Err(SearchError::InvalidResponse),
    }
}

/// The `data.repository.object.history` table of a parsed answer.
fn history_in<'a>(doc: &'a serde_json::Value) -> (r: Option<&'a serde_json::Value>)
    ensures
        match r {
            Some(history) => history_node(json_tree(*doc)) == Some(json_tree(*history)),
            None => history_node(json_tree(*doc)) is None,
        },
{
    let data = match json_child(doc, "data") {
        Some(data) => data,
        None => { return None; },
    };
    let repository = match json_child(data, "repository") {
        Some(repository) => repository,
        None => { return None; },
    };
    let object = match json_child(repository, "object") {
        Some(object) => object,
        None => { return None; },
    };
    json_child(object, "history")
}

} // verus!
