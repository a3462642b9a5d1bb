//! The s-expression document that a netlist is read from.
//!
//! `Sexp` is the document as the program holds it, `Tree` is what it stands
//! for: the same shape with text as sequences of characters. Lists are chains
//! of pairs, as in Lisp; records are lists whose elements are pairs of a name
//! and a value, and are read by name.

use vstd::prelude::*;
use vstd::string::StringExecFns;

use crate::text::char_text;
use crate::text::decode_lossy;
use crate::text::lossy_text;

verus! {

/// The mathematical value of a document.
pub enum Tree {
    Nil,
    Null,
    Bool(bool),
    Number(Seq<char>),
    Char(char),
    Str(Seq<char>),
    Symbol(Seq<char>),
    Keyword(Seq<char>),
    Bytes(Seq<u8>),
    Cons(Box<Tree>, Box<Tree>),
    Vector(Seq<Tree>),
}

/// A parsed s-expression. A number is held as the text it is written with.
#[derive(Debug, PartialEq, Eq)]
pub enum Sexp {
    Nil,
    Null,
    Bool(bool),
    Number(String),
    Char(char),
    Str(String),
    Symbol(String),
    Keyword(String),
    Bytes(Vec<u8>),
    Cons(Box<Sexp>, Box<Sexp>),
    Vector(Vec<Sexp>),
}

impl Tree {
    /// A list is the empty list or a pair.
    pub open spec fn is_list(self) -> bool {
        self is Cons || self is Null
    }

    /// The elements of a chain of pairs, in order. Whatever ends the chain is
    /// no element, and a value that is no pair has none.
    pub open spec fn items(self) -> Seq<Tree>
        decreases self,
    {
        match self {
            Tree::Cons(head, rest) => seq![*head] + rest.items(),
            _ => Seq::empty(),
        }
    }

    /// The elements of a list, and nothing for what is no list.
    pub open spec fn elements(self) -> Option<Seq<Tree>> {
        if self.is_list() {
            Some(self.items())
        } else {
            None
        }
    }

    /// The text of a symbol, a keyword or a string.
    pub open spec fn name(self) -> Option<Seq<char>> {
        match self {
            Tree::Symbol(s) => Some(s),
            Tree::Keyword(s) => Some(s),
            Tree::Str(s) => Some(s),
            _ => None,
        }
    }

    /// Whether this value is a pair whose first part is named `key`.
    pub open spec fn is_entry(self, key: Seq<char>) -> bool {
        self matches Tree::Cons(k, _) && k.name() == Some(key)
    }

    /// The value of the first element of the chain that is an entry for
    /// `key`: what follows the name in that element.
    pub open spec fn field(self, key: Seq<char>) -> Option<Tree>
        decreases self,
    {
        match self {
            Tree::Cons(head, rest) => if head.is_entry(key) {
                Some(*head->Cons_1)
            } else {
                rest.field(key)
            },
            _ => None,
        }
    }

    /// The element at position `n` of a vector or of a chain of pairs.
    pub open spec fn nth(self, n: nat) -> Option<Tree> {
        match self {
            Tree::Vector(items) => if n < items.len() {
                Some(items[n as int])
            } else {
                None
            },
            Tree::Cons(_, _) => if n < self.items().len() {
                Some(self.items()[n as int])
            } else {
                None
            },
            _ => None,
        }
    }

    /// All the text in this value, in order and with nothing between the
    /// parts.
    pub open spec fn joined(self) -> Seq<char>
        decreases self,
    {
        match self {
            Tree::Nil => Seq::empty(),
            Tree::Null => Seq::empty(),
            Tree::Bool(b) => if b {
                "true"@
            } else {
                "false"@
            },
            Tree::Number(s) => s,
            Tree::Char(c) => seq![c],
            Tree::Str(s) => s,
            Tree::Symbol(s) => s,
            Tree::Keyword(s) => s,
            Tree::Bytes(b) => lossy_text(b),
            Tree::Cons(left, right) => left.joined() + right.joined(),
            Tree::Vector(items) => Tree::joined_all(items),
        }
    }

    /// The texts of a sequence of values, one after the other.
    pub open spec fn joined_all(items: Seq<Tree>) -> Seq<char>
        decreases items,
    {
        if items.len() == 0 {
            Seq::empty()
        } else {
            Tree::joined_all(items.drop_last()) + items.last().joined()
        }
    }

    /// The text of this value. A pair or a vector has one only where its
    /// parts are to be joined.
    pub open spec fn text(self, join: bool) -> Option<Seq<char>> {
        if !join && (self is Cons || self is Vector) {
            None
        } else {
            Some(self.joined())
        }
    }

    /// The value of the field `key`, and `Nil` where there is no such field.
    pub open spec fn child(self, key: Seq<char>) -> Tree {
        match self.field(key) {
            Some(value) => value,
            None => Tree::Nil,
        }
    }

    /// The element at position `n`, and `Nil` where there is none.
    pub open spec fn item(self, n: nat) -> Tree {
        match self.nth(n) {
            Some(value) => value,
            None => Tree::Nil,
        }
    }

    /// The joined text of the field `key`; the empty text where there is no
    /// such field.
    pub open spec fn field_text(self, key: Seq<char>) -> Seq<char> {
        self.child(key).joined()
    }
}

impl Sexp {
    /// The value that this expression stands for.
    pub open spec fn tree(self) -> Tree
        decreases self,
    {
        match self {
            Sexp::Nil => Tree::Nil,
            Sexp::Null => Tree::Null,
            Sexp::Bool(b) => Tree::Bool(b),
            Sexp::Number(s) => Tree::Number(s@),
            Sexp::Char(c) => Tree::Char(c),
            Sexp::Str(s) => Tree::Str(s@),
            Sexp::Symbol(s) => Tree::Symbol(s@),
            Sexp::Keyword(s) => Tree::Keyword(s@),
            Sexp::Bytes(b) => Tree::Bytes(b@),
            Sexp::Cons(a, b) => Tree::Cons(Box::new(a.tree()), Box::new(b.tree())),
            Sexp::Vector(items) => Tree::Vector(
                Seq::new(
                    items@.len(),
                    |i: int|
                        if 0 <= i < items@.len() {
                            items@[i].tree()
                        } else {
                            Tree::Nil
                        },
                ),
            ),
        }
    }
}

impl View for Sexp {
    type V = Tree;

    open spec fn view(&self) -> Tree {
        self.tree()
    }
}

impl Sexp {
    /// Whether this expression is a symbol, a keyword or a string with the
    /// text `key`.
    pub fn is_named(&self, key: &String) -> (r: bool)
        ensures
            r == (self@.name() == Some(key@)),
    {
        match self {
            Sexp::Symbol(s) => *s == *key,
            Sexp::Keyword(s) => *s == *key,
            Sexp::Str(s) => *s == *key,
            _ => false,
        }
    }

    /// The elements of a list, in order; `None` for what is no list.
    pub fn list_items(&self) -> (r: Option<Vec<&Sexp>>)
        ensures
            r is Some == self@.is_list(),
            r matches Some(items) ==> trees(items@) == self@.items(),
    {
        match self {
            Sexp::Cons(_, _) => {},
            Sexp::Null => {},
            _ => {
                return None;
            },
        }
        let mut out: Vec<&Sexp> = Vec::new();
        let mut cur: &Sexp = self;
        assert(trees(out@) + cur@.items() =~= self@.items());
        loop
            invariant
                trees(out@) + cur@.items() == self@.items(),
            ensures
                trees(out@) == self@.items(),
            decreases cur,
        {
            match cur {
                Sexp::Cons(head, rest) => {
                    let ghost before = out@;
                    out.push(&**head);
                    proof {
                        assert(trees(out@) =~= trees(before).push(head@));
                        assert(trees(out@) + rest@.items() =~= trees(before) + cur@.items());
                    }
                    cur = &**rest;
                },
                _ => {
                    assert(trees(out@) + cur@.items() =~= trees(out@));
                    break ;
                },
            }
        }
        Some(out)
    }

    /// The value of the field `key` of a record: what follows the name in
    /// the first element that is a pair beginning with that name.
    pub fn get(&self, key: &str) -> (r: Option<&Sexp>)
        ensures
            r is Some == self@.field(key@) is Some,
            r matches Some(value) ==> self@.field(key@) == Some(value@),
    {
        let wanted = key.to_owned();
        let mut cur: &Sexp = self;
        loop
            invariant
                wanted@ == key@,
                cur@.field(key@) == self@.field(key@),
            decreases cur,
        {
            match cur {
                Sexp::Cons(head, rest) => {
                    match &**head {
                        Sexp::Cons(name, value) => {
                            if name.is_named(&wanted) {
                                assert(head@.is_entry(key@));
                                assert(cur@.field(key@) == Some(value@));
                                return Some(&**value);
                            }
                            assert(!head@.is_entry(key@));
                        },
                        _ => {
                            assert(!head@.is_entry(key@));
                        },
                    }
                    assert(cur@.field(key@) == rest@.field(key@));
                    cur = &**rest;
                },
                _ => {
                    return None;
                },
            }
        }
    }

    /// The element at position `n` of a vector or of a chain of pairs.
    pub fn at(&self, n: usize) -> (r: Option<&Sexp>)
        ensures
            r is Some == self@.nth(n as nat) is Some,
            r matches Some(value) ==> self@.nth(n as nat) == Some(value@),
    {
        match self {
            Sexp::Vector(items) => {
                if n < items.len() {
                    Some(&items[n])
                } else {
                    None
                }
            },
            Sexp::Cons(_, _) => {
                let mut cur: &Sexp = self;
                let mut i: usize = 0;
                loop
                    invariant
                        i <= n,
                        cur@ is Cons,
                        self@.items().len() == i + cur@.items().len(),
                        n < self@.items().len() ==> self@.items()[n as int] == cur@.items()[n - i],
                    decreases cur,
                {
                    match cur {
                        Sexp::Cons(head, rest) => {
                            if i == n {
                                return Some(&**head);
                            }
                            match &**rest {
                                Sexp::Cons(_, _) => {
                                    cur = &**rest;
                                    i = i + 1;
                                },
                                _ => {
                                    assert(rest@.items() =~= Seq::empty());
                                    assert(cur@.items().len() == 1);
                                    return None;
                                },
                            }
                        },
                        _ => {
                            return None;
                        },
                    }
                }
            },
            _ => None,
        }
    }

    /// All the text in this expression, in order and with nothing between
    /// the parts.
    pub fn joined_text(&self) -> (r: String)
        ensures
            r@ == self@.joined(),
        decreases self,
    {
        match self {
            Sexp::Nil => String::new(),
            Sexp::Null => String::new(),
            Sexp::Bool(b) => if *b {
                "true".to_owned()
            } else {
                "false".to_owned()
            },
            Sexp::Number(s) => s.clone(),
            Sexp::Char(c) => char_text(*c),
            Sexp::Str(s) => s.clone(),
            Sexp::Symbol(s) => s.clone(),
            Sexp::Keyword(s) => s.clone(),
            Sexp::Bytes(b) => decode_lossy(b),
            Sexp::Cons(left, right) => {
                let mut out = left.joined_text();
                let tail = right.joined_text();
                out.append(tail.as_str());
                out
            },
            Sexp::Vector(items) => {
                let mut out = String::new();
                let mut i: usize = 0;
                while i < items.len()
                    invariant
                        i <= items.len(),
                        self == Sexp::Vector(*items),
                        out@ == Tree::joined_all(self@->Vector_0.take(i as int)),
                    decreases items.len() - i,
                {
                    let part = items[i].joined_text();
                    proof {
                        let all = self@->Vector_0;
                        assert(all.take(i + 1).drop_last() =~= all.take(i as int));
                        assert(all.take(i + 1).last() == items[i as int]@);
                    }
                    out.append(part.as_str());
                    i = i + 1;
                }
                assert(self@->Vector_0.take(i as int) =~= self@->Vector_0);
                out
            },
        }
    }

    /// The joined text of the element at position `n`; the empty text where
    /// there is no such element.
    pub fn item_text(&self, n: usize) -> (r: String)
        ensures
            r@ == self@.item(n as nat).joined(),
    {
        match self.at(n) {
            Some(value) => value.joined_text(),
            None => String::new(),
        }
    }

    /// The joined text of the field `key`; the empty text where the record
    /// has no such field.
    pub fn field_text(&self, key: &str) -> (r: String)
        ensures
            r@ == self@.field_text(key@),
    {
        match self.get(key) {
            Some(value) => value.joined_text(),
            None => String::new(),
        }
    }
}

/// The text that an optional string holds.
pub open spec fn text_view(text: Option<String>) -> Option<Seq<char>> {
    match text {
        Some(s) => Some(s@),
        None => None,
    }
}

/// A value that can be read as text, either as the single value it is or
/// with all its parts joined.
pub trait IntoText {
    /// The text of the value; `None` where it has no text of that kind.
    spec fn text_model(&self, join: bool) -> Option<Seq<char>>;

    /// Joined, every value has a text.
    proof fn lemma_joined_text_exists(&self)
        ensures
            self.text_model(true) is Some,
    ;

    fn into_text_internal(&self, join: bool) -> (r: Option<String>)
        ensures
            text_view(r) == self.text_model(join),
    ;

    /// The text of a single value; `None` for a value made of parts.
    fn text(&self) -> (r: Option<String>)
        ensures
            text_view(r) == self.text_model(false),
    {
        self.into_text_internal(false)
    }

    /// The text of the value with all its parts joined.
    fn text_join(&self) -> (r: String)
        ensures
            Some(r@) == self.text_model(true),
    {
        proof {
            self.lemma_joined_text_exists();
        }
        match self.into_text_internal(true) {
            Some(text) => text,
            None => vstd::pervasive::unreached(),
        }
    }
}

impl IntoText for Sexp {
    open spec fn text_model(&self, join: bool) -> Option<Seq<char>> {
        self@.text(join)
    }

    proof fn lemma_joined_text_exists(&self) {
    }

    fn into_text_internal(&self, join: bool) -> (r: Option<String>) {
        if join {
            Some(self.joined_text())
        } else {
            match self {
                Sexp::Cons(_, _) => None,
                Sexp::Vector(_) => None,
                _ => Some(self.joined_text()),
            }
        }
    }
}

/// The values that a sequence of expressions stands for.
pub open spec fn trees(items: Seq<&Sexp>) -> Seq<Tree> {
    items.map_values(|item: &Sexp| item@)
}

} // verus!
