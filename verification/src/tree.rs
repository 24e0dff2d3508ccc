//! A mathematical model of a parsed document.
//!
//! The build manifest and the history pages both arrive as nested documents
//! of tables, lists and strings. Contracts speak of such a document through
//! `Tree`, which keeps exactly what the library reads of it.

use vstd::prelude::*;

verus! {

/// The shape of a parsed document, as far as the library reads it.
pub enum Tree {
    /// A string.
    Text(Seq<char>),
    /// An ordered list of values.
    List(Seq<Tree>),
    /// A table from keys to values.
    Table(Map<Seq<char>, Tree>),
    /// Any other value: a number, a boolean, a date, an absent value.
    Other,
}

impl Tree {
    /// The value stored under `key`, if this is a table that has that key.
    pub open spec fn child(self, key: Seq<char>) -> Option<Tree> {
        match self {
            Tree::Table(entries) => if entries.dom().contains(key) {
                Some(entries[key])
            } else {
                None
            },
            _ => None,
        }
    }

    /// The string that this value is, if it is one.
    pub open spec fn text(self) -> Option<Seq<char>> {
        match self {
            Tree::Text(s) => Some(s),
            _ => None,
        }
    }

    /// The elements of this value, if it is a list.
    pub open spec fn items(self) -> Option<Seq<Tree>> {
        match self {
            Tree::List(items) => Some(items),
            _ => None,
        }
    }
}

/// One more step down a path of keys: the value under `key` in `node`, where
/// the path has led to a table with that key so far.
pub open spec fn under(node: Option<Tree>, key: Seq<char>) -> Option<Tree> {
    match node {
        Some(tree) => tree.child(key),
        None => None,
    }
}

/// The string at the end of a path of keys, where the path has led to one.
pub open spec fn text_of(node: Option<Tree>) -> Option<Seq<char>> {
    match node {
        Some(tree) => tree.text(),
        None => None,
    }
}

/// The list at the end of a path of keys, where the path has led to one.
pub open spec fn items_of(node: Option<Tree>) -> Option<Seq<Tree>> {
    match node {
        Some(tree) => tree.items(),
        None => None,
    }
}

/// The view of a string that may be absent.
pub open spec fn text_view(s: Option<String>) -> Option<Seq<char>> {
    match s {
        Some(s) => Some(s@),
        None => None,
    }
}

} // verus!
