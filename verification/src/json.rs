//! JSON documents.
//!
//! A document is parsed by `serde_json` and then copied, level by level, into
//! a `Json`, a tree of plain values; its model is a `Tree`. What a byte
//! string denotes is not defined here: it is named, by `tree_of_bytes`, as
//! what the parser reads from it. Everything that happens to the parsed
//! value after that is verified.

use crate::text::same_text;
use vstd::prelude::*;

verus! {

/// A JSON number, held as the integers it can be read as.
///
/// `unsigned` is present for an integer from 0 to 2^64 - 1, `signed` for an
/// integer from -2^63 to 2^63 - 1. Both are absent for a number that is
/// written with a fraction or an exponent, or is out of both ranges.
#[derive(Debug, PartialEq, Eq)]
pub struct JsonNumber {
    pub unsigned: Option<u64>,
    pub signed: Option<i64>,
}

/// A JSON document.
#[derive(Debug, PartialEq, Eq)]
pub enum Json {
    Null,
    Bool(bool),
    Number(JsonNumber),
    Text(String),
    Array(Vec<Json>),
    /// The members of an object, each with its name.
    Object(Vec<(String, Json)>),
}

/// A JSON document as a mathematical value.
pub enum Tree {
    Null,
    Bool(bool),
    Number(JsonNumber),
    Text(Seq<char>),
    Array(Seq<Tree>),
    Object(Seq<(Seq<char>, Tree)>),
}

/// The tree that a document is.
pub open spec fn tree(json: Json) -> Tree
    decreases json,
{
    match json {
        Json::Null => Tree::Null,
        Json::Bool(flag) => Tree::Bool(flag),
        Json::Number(number) => Tree::Number(number),
        Json::Text(text) => Tree::Text(text@),
        Json::Array(items) => Tree::Array(
            Seq::new(
                items@.len(),
                |i: int|
                    if 0 <= i < items@.len() {
                        tree(items@[i])
                    } else {
                        Tree::Null
                    },
            ),
        ),
        Json::Object(members) => Tree::Object(
            Seq::new(
                members@.len(),
                |i: int|
                    if 0 <= i < members@.len() {
                        (members@[i].0@, tree(members@[i].1))
                    } else {
                        (Seq::empty(), Tree::Null)
                    },
            ),
        ),
    }
}

/// The trees of a list of documents.
pub open spec fn trees(list: Seq<Json>) -> Seq<Tree> {
    Seq::new(list.len(), |i: int| list[i]@)
}

impl View for Json {
    type V = Tree;

    open spec fn view(&self) -> Tree {
        tree(*self)
    }
}

/// The number of levels of a document that `parse` reads. The parser itself
/// gives up on a document before it is nested as deeply.
pub const NESTING_LIMIT: usize = 256;

/// Whether a tree has at most `levels` levels: a value that is neither an
/// array nor an object has one, an array or an object has one more than the
/// deepest of its parts.
pub open spec fn fits(tree: Tree, levels: nat) -> bool
    decreases levels,
{
    levels > 0 && match tree {
        Tree::Array(items) => forall|i: int|
            0 <= i < items.len() ==> fits(#[trigger] items[i], (levels - 1) as nat),
        Tree::Object(members) => forall|i: int|
            0 <= i < members.len() ==> fits((#[trigger] members[i]).1, (levels - 1) as nat),
        _ => true,
    }
}

#[verifier::external_type_specification]
#[verifier::external_body]
pub struct ExValue(serde_json::Value);

#[verifier::external_type_specification]
#[verifier::external_body]
pub struct ExError(serde_json::Error);

/// The tree that `serde_json` reads from a byte string, or `None` where it
/// reads none: the bytes are not one JSON value written in UTF-8, with
/// nothing but white space around it, or the value is nested too deeply for
/// the parser.
pub uninterp spec fn tree_of_bytes(bytes: Seq<u8>) -> Option<Tree>;

/// The tree that a `serde_json::Value` holds.
pub uninterp spec fn tree_of_value(value: serde_json::Value) -> Tree;

/// The topmost level of a `serde_json::Value`: what kind of value it is, and
/// what it holds; for an array and an object, the values in it as they are.
enum Node<'a> {
    Null,
    Bool(bool),
    Number(JsonNumber),
    Text(&'a String),
    Array(&'a Vec<serde_json::Value>),
    Object(Vec<(&'a String, &'a serde_json::Value)>),
}

/// The tree that a node stands for: the tree of the value whose topmost
/// level it is.
spec fn node_tree(node: Node) -> Tree {
    match node {
        Node::Null => Tree::Null,
        Node::Bool(flag) => Tree::Bool(flag),
        Node::Number(number) => Tree::Number(number),
        Node::Text(text) => Tree::Text(text@),
        Node::Array(items) => Tree::Array(
            Seq::new(items@.len(), |i: int| tree_of_value(items@[i])),
        ),
        Node::Object(members) => Tree::Object(
            Seq::new(members@.len(), |i: int| (members@[i].0@, tree_of_value(*members@[i].1))),
        ),
    }
}

/// Calls `serde_json::from_slice` for a `serde_json::Value`.
///
/// Trusted: whether the bytes parse, and to which value, depends on the bytes
/// alone. The contract claims no more; it gives the outcome its name.
#[verifier::external_body]
fn read_value(bytes: &[u8]) -> (out: Result<serde_json::Value, serde_json::Error>)
    ensures
        match out {
            Ok(value) => tree_of_bytes(bytes@) == Some(tree_of_value(value)),
            Err(_) => tree_of_bytes(bytes@) is None,
        },
{
    serde_json::from_slice::<serde_json::Value>(bytes)
}

/// Takes the topmost level of a `serde_json::Value` apart: one arm for each
/// variant, which hands on what the variant holds. A number is given as
/// `Number::as_u64` and `Number::as_i64` read it, the members of an object
/// in the order in which `Map::iter` walks them.
///
/// Trusted: the tree of a value is made of what the value holds, in this
/// way: a value that is neither an array nor an object is a leaf of the same
/// kind with the same content; an array is the trees of its elements, in
/// their order; an object is the names of its members with the trees of
/// their values, in the order of the map.
#[verifier::external_body]
fn open_value(value: &serde_json::Value) -> (out: Node<'_>)
    ensures
        node_tree(out) == tree_of_value(*value),
{
    match value {
        serde_json::Value::Null => Node::Null,
        serde_json::Value::Bool(flag) => Node::Bool(*flag),
        serde_json::Value::Number(n) => Node::Number(JsonNumber { unsigned: n.as_u64(), signed: n.as_i64() }),
        serde_json::Value::String(text) => Node::Text(text),
        serde_json::Value::Array(items) => Node::Array(items),
        serde_json::Value::Object(members) => Node::Object(members.iter().collect()),
    }
}

/// Copies a parsed value into a document, down to `levels` levels.
fn copy_value(value: &serde_json::Value, levels: usize) -> (out: Option<Json>)
    ensures
        match out {
            Some(json) => json@ == tree_of_value(*value) && fits(json@, levels as nat),
            None => !fits(tree_of_value(*value), levels as nat),
        },
    decreases levels,
{
    if levels == 0 {
        return None;
    }
    match open_value(value) {
        Node::Null => Some(Json::Null),
        Node::Bool(flag) => Some(Json::Bool(flag)),
        Node::Number(number) => Some(Json::Number(number)),
        Node::Text(text) => Some(Json::Text(text.clone())),
        Node::Array(items) => {
            let mut out: Vec<Json> = Vec::new();
            let mut at: usize = 0;
            while at < items.len()
                invariant
                    levels > 0,
                    at <= items.len(),
                    out@.len() == at,
                    tree_of_value(*value) == Tree::Array(
                        Seq::new(items@.len(), |i: int| tree_of_value(items@[i])),
                    ),
                    forall|i: int|
                        0 <= i < at ==> (#[trigger] out@[i])@ == tree_of_value(items@[i]) && fits(
                            out@[i]@,
                            (levels - 1) as nat,
                        ),
                decreases items.len() - at,
            {
                match copy_value(&items[at], levels - 1) {
                    Some(child) => {
                        out.push(child);
                    },
                    None => {
                        proof {
                            let listed = tree_of_value(*value)->Array_0;
                            assert(listed[at as int] == tree_of_value(items@[at as int]));
                        }
                        return None;
                    },
                }
                at = at + 1;
            }
            let json = Json::Array(out);
            assert(json@->Array_0 =~= tree_of_value(*value)->Array_0);
            Some(json)
        },
        Node::Object(members) => {
            let mut out: Vec<(String, Json)> = Vec::new();
            let mut at: usize = 0;
            while at < members.len()
                invariant
                    levels > 0,
                    at <= members.len(),
                    out@.len() == at,
                    tree_of_value(*value) == Tree::Object(
                        Seq::new(
                            members@.len(),
                            |i: int| (members@[i].0@, tree_of_value(*members@[i].1)),
                        ),
                    ),
                    forall|i: int|
                        0 <= i < at ==> (#[trigger] out@[i]).0@ == members@[i].0@ && out@[i].1@
                            == tree_of_value(*members@[i].1) && fits(
                            out@[i].1@,
                            (levels - 1) as nat,
                        ),
                decreases members.len() - at,
            {
                match copy_value(members[at].1, levels - 1) {
                    Some(child) => {
                        out.push((members[at].0.clone(), child));
                    },
                    None => {
                        proof {
                            let listed = tree_of_value(*value)->Object_0;
                            assert(listed[at as int].1 == tree_of_value(*members@[at as int].1));
                        }
                        return None;
                    },
                }
                at = at + 1;
            }
            let json = Json::Object(out);
            assert(json@->Object_0 =~= tree_of_value(*value)->Object_0);
            Some(json)
        },
    }
}

/// The document that a byte string denotes: the tree that the parser reads
/// from it, unless it has more than `NESTING_LIMIT` levels.
pub open spec fn document_of(bytes: Seq<u8>) -> Option<Tree> {
    match tree_of_bytes(bytes) {
        Some(tree) => if fits(tree, NESTING_LIMIT as nat) {
            Some(tree)
        } else {
            None
        },
        None => None,
    }
}

/// Parses one JSON document.
pub fn parse(bytes: &[u8]) -> (out: Option<Json>)
    ensures
        match out {
            Some(json) => document_of(bytes@) == Some(json@),
            None => document_of(bytes@) is None,
        },
{
    match read_value(bytes) {
        Ok(value) => copy_value(&value, NESTING_LIMIT),
        Err(_) => None,
    }
}

/// The value of the first of `members`, from position `from` on, whose name
/// is `name`.
pub open spec fn find_member(members: Seq<(Seq<char>, Tree)>, name: Seq<char>, from: int) -> Option<
    Tree,
>
    decreases members.len() - from,
{
    if from < 0 || from >= members.len() {
        None
    } else if members[from].0 == name {
        Some(members[from].1)
    } else {
        find_member(members, name, from + 1)
    }
}

/// The value of the member `name` of an object: of the first one, should the
/// name occur twice.
pub open spec fn member_of(tree: Tree, name: Seq<char>) -> Option<Tree> {
    match tree {
        Tree::Object(members) => find_member(members, name, 0),
        _ => None,
    }
}

/// A field of a record. A record of `arity` fields is written as an object,
/// which names its fields and may hold more members, or as an array of
/// exactly `arity` elements, which gives them by position.
pub open spec fn field_of(tree: Tree, name: Seq<char>, position: int, arity: int) -> Option<Tree> {
    match tree {
        Tree::Object(_) => member_of(tree, name),
        Tree::Array(items) => if items.len() == arity && 0 <= position < arity {
            Some(items[position])
        } else {
            None
        },
        _ => None,
    }
}

/// The characters of a string value.
pub open spec fn text_of(value: Option<Tree>) -> Option<Seq<char>> {
    match value {
        Some(Tree::Text(text)) => Some(text),
        _ => None,
    }
}

/// The value of a number that is an integer from 0 to 2^64 - 1.
pub open spec fn unsigned_of(value: Option<Tree>) -> Option<u64> {
    match value {
        Some(Tree::Number(number)) => number.unsigned,
        _ => None,
    }
}

/// The value of a number that is an integer from -2^63 to 2^63 - 1.
pub open spec fn signed_of(value: Option<Tree>) -> Option<i64> {
    match value {
        Some(Tree::Number(number)) => number.signed,
        _ => None,
    }
}

/// The elements of an array.
pub open spec fn items_of(value: Option<Tree>) -> Option<Seq<Tree>> {
    match value {
        Some(Tree::Array(items)) => Some(items),
        _ => None,
    }
}

impl Json {
    /// Looks a member of an object up by name.
    pub fn member(&self, name: &str) -> (out: Option<&Json>)
        ensures
            match out {
                Some(found) => member_of(self@, name@) == Some(found@),
                None => member_of(self@, name@) is None,
            },
    {
        match self {
            Json::Object(members) => {
                let ghost listed = self@->Object_0;
                let mut at: usize = 0;
                while at < members.len()
                    invariant
                        at <= members.len(),
                        listed.len() == members@.len(),
                        forall|i: int|
                            0 <= i < members@.len() ==> #[trigger] listed[i] == (
                                members@[i].0@,
                                members@[i].1@,
                            ),
                        member_of(self@, name@) == find_member(listed, name@, 0),
                        find_member(listed, name@, at as int) == find_member(listed, name@, 0),
                    decreases members.len() - at,
                {
                    assert(listed[at as int] == (members@[at as int].0@, members@[at as int].1@));
                    if same_text(members[at].0.as_str(), name) {
                        return Some(&members[at].1);
                    }
                    at = at + 1;
                }
                None
            },
            _ => None,
        }
    }

    /// Looks a field of a record up, by name in an object and by position in
    /// an array.
    pub fn field(&self, name: &str, position: usize, arity: usize) -> (out: Option<&Json>)
        ensures
            match out {
                Some(found) => field_of(self@, name@, position as int, arity as int) == Some(
                    found@,
                ),
                None => field_of(self@, name@, position as int, arity as int) is None,
            },
    {
        match self {
            Json::Object(_) => self.member(name),
            Json::Array(items) => {
                if items.len() == arity && position < arity {
                    Some(&items[position])
                } else {
                    None
                }
            },
            _ => None,
        }
    }

    /// The string that a string value holds.
    pub fn as_text(&self) -> (out: Option<&String>)
        ensures
            match out {
                Some(text) => text_of(Some(self@)) == Some(text@),
                None => text_of(Some(self@)) is None,
            },
    {
        match self {
            Json::Text(text) => Some(text),
            _ => None,
        }
    }

    /// The number, where it is an integer from 0 to 2^64 - 1.
    pub fn as_unsigned(&self) -> (out: Option<u64>)
        ensures
            out == unsigned_of(Some(self@)),
    {
        match self {
            Json::Number(number) => number.unsigned,
            _ => None,
        }
    }

    /// The number, where it is an integer from -2^63 to 2^63 - 1.
    pub fn as_signed(&self) -> (out: Option<i64>)
        ensures
            out == signed_of(Some(self@)),
    {
        match self {
            Json::Number(number) => number.signed,
            _ => None,
        }
    }

    /// The elements of an array.
    pub fn as_array(&self) -> (out: Option<&Vec<Json>>)
        ensures
            match out {
                Some(items) => items_of(Some(self@)) == Some(trees(items@)),
                None => items_of(Some(self@)) is None,
            },
    {
        match self {
            Json::Array(items) => {
                assert(self@->Array_0 =~= trees(items@));
                Some(items)
            },
            _ => None,
        }
    }
}

} // verus!
