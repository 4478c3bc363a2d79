//! The loosely typed arguments that a template hands to a formatting function.

use vstd::prelude::*;
use crate::text::{same_text, texts};

verus! {

/// A number as a template can write it.
#[derive(Clone, Copy, Debug, PartialEq, Eq)]
pub enum Number {
    /// A whole number that is not negative.
    Unsigned(u64),
    /// A whole number with a sign.
    Signed(i64),
    /// A binary64 number, held as its 64 bits.
    Float(u64),
}

impl Number {
    /// The number as an unsigned integer, where it is a whole number that is
    /// not negative.
    pub open spec fn spec_as_u64(self) -> Option<u64> {
        match self {
            Number::Unsigned(n) => Some(n),
            Number::Signed(i) => if i >= 0 {
                Some(i as u64)
            } else {
                None
            },
            Number::Float(_) => None,
        }
    }

    /// The number as an unsigned integer, where it is a whole number that is
    /// not negative.
    pub fn as_u64(&self) -> (r: Option<u64>)
        ensures
            r == self.spec_as_u64(),
    {
        match self {
            Number::Unsigned(n) => Some(*n),
            Number::Signed(i) => if *i >= 0 {
                Some(*i as u64)
            } else {
                None
            },
            Number::Float(_) => None,
        }
    }
}

/// One value of an argument mapping, or the result of a formatting function.
#[derive(Debug, PartialEq)]
pub enum ArgValue {
    Number(Number),
    Bool(bool),
    Text(String),
    List(Vec<String>),
}

/// What an [`ArgValue`] holds, as mathematics.
pub enum ArgValueView {
    Number(Number),
    Bool(bool),
    Text(Seq<char>),
    List(Seq<Seq<char>>),
}

impl View for ArgValue {
    type V = ArgValueView;

    open spec fn view(&self) -> ArgValueView {
        match self {
            ArgValue::Number(n) => ArgValueView::Number(*n),
            ArgValue::Bool(b) => ArgValueView::Bool(*b),
            ArgValue::Text(s) => ArgValueView::Text(s@),
            ArgValue::List(v) => ArgValueView::List(texts(v@)),
        }
    }
}

/// The unsigned integer bound to `name`, if `name` is bound to one.
pub open spec fn arg_u64(args: Map<Seq<char>, ArgValueView>, name: Seq<char>) -> Option<u64> {
    if args.contains_key(name) {
        match args[name] {
            ArgValueView::Number(n) => n.spec_as_u64(),
            _ => None,
        }
    } else {
        None
    }
}

/// The truth value bound to `name`, if `name` is bound to one.
pub open spec fn arg_bool(args: Map<Seq<char>, ArgValueView>, name: Seq<char>) -> Option<bool> {
    if args.contains_key(name) {
        match args[name] {
            ArgValueView::Bool(b) => Some(b),
            _ => None,
        }
    } else {
        None
    }
}

/// The number bound to `name`, if `name` is bound to a number of any kind.
pub open spec fn arg_number(args: Map<Seq<char>, ArgValueView>, name: Seq<char>) -> Option<
    Number,
> {
    if args.contains_key(name) {
        match args[name] {
            ArgValueView::Number(n) => Some(n),
            _ => None,
        }
    } else {
        None
    }
}

/// One named argument.
#[derive(Debug, PartialEq)]
pub struct Arg {
    pub name: String,
    pub value: ArgValue,
}

/// An argument mapping: names bound to values, each name at most once.
/// Binding a name again replaces what it was bound to.
#[derive(Debug)]
pub struct Args {
    entries: Vec<Arg>,
}

/// The mapping that a list of bindings stands for: a later binding of a name
/// replaces an earlier one.
pub open spec fn bindings(entries: Seq<Arg>) -> Map<Seq<char>, ArgValueView>
    decreases entries.len(),
{
    if entries.len() == 0 {
        Map::empty()
    } else {
        bindings(entries.drop_last()).insert(entries.last().name@, entries.last().value@)
    }
}

/// A name that no binding carries is not bound.
proof fn lemma_unbound(entries: Seq<Arg>, name: Seq<char>)
    requires
        forall|j: int| 0 <= j < entries.len() ==> entries[j].name@ != name,
    ensures
        !bindings(entries).contains_key(name),
    decreases entries.len(),
{
    if entries.len() > 0 {
        lemma_unbound(entries.drop_last(), name);
    }
}

/// A name is bound to the value of the last binding that carries it.
proof fn lemma_bound(entries: Seq<Arg>, name: Seq<char>, k: int)
    requires
        0 <= k < entries.len(),
        entries[k].name@ == name,
        forall|j: int| k < j < entries.len() ==> entries[j].name@ != name,
    ensures
        bindings(entries).contains_key(name),
        bindings(entries)[name] == entries[k].value@,
    decreases entries.len(),
{
    if k < entries.len() - 1 {
        lemma_bound(entries.drop_last(), name, k);
    }
}

impl View for Args {
    type V = Map<Seq<char>, ArgValueView>;

    closed spec fn view(&self) -> Map<Seq<char>, ArgValueView> {
        bindings(self.entries@)
    }
}

impl Args {
    /// The mapping that binds nothing.
    pub fn new() -> (r: Args)
        ensures
            r@ == Map::<Seq<char>, ArgValueView>::empty(),
    {
        Args { entries: Vec::new() }
    }

    /// Binds `name` to `value`, in place of what it was bound to before.
    pub fn insert(&mut self, name: String, value: ArgValue)
        ensures
            final(self)@ == old(self)@.insert(name@, value@),
    {
        self.entries.push(Arg { name, value });
        proof {
            assert(self.entries@.drop_last() =~= old(self).entries@);
        }
    }

    /// The value bound to `name`, if there is one.
    pub fn get(&self, name: &str) -> (r: Option<&ArgValue>)
        ensures
            match r {
                Some(v) => self@.contains_key(name@) && self@[name@] == v@,
                None => !self@.contains_key(name@),
            },
    {
        let mut i: usize = self.entries.len();
        while i > 0
            invariant
                i <= self.entries.len(),
                forall|j: int| i <= j < self.entries.len() ==> self.entries@[j].name@ != name@,
            decreases i,
        {
            i = i - 1;
            if same_text(self.entries[i].name.as_str(), name) {
                proof {
                    lemma_bound(self.entries@, name@, i as int);
                }
                return Some(&self.entries[i].value);
            }
        }
        proof {
            lemma_unbound(self.entries@, name@);
        }
        None
    }

    /// The unsigned integer bound to `name`, if `name` is bound to one.
    pub fn get_u64(&self, name: &str) -> (r: Option<u64>)
        ensures
            r == arg_u64(self@, name@),
    {
        match self.get(name) {
            Some(ArgValue::Number(n)) => n.as_u64(),
            _ => None,
        }
    }

    /// The truth value bound to `name`, if `name` is bound to one.
    pub fn get_bool(&self, name: &str) -> (r: Option<bool>)
        ensures
            r == arg_bool(self@, name@),
    {
        match self.get(name) {
            Some(ArgValue::Bool(b)) => Some(*b),
            _ => None,
        }
    }

    /// The number bound to `name`, if `name` is bound to a number of any kind.
    pub fn get_number(&self, name: &str) -> (r: Option<Number>)
        ensures
            r == arg_number(self@, name@),
    {
        match self.get(name) {
            Some(ArgValue::Number(n)) => Some(*n),
            _ => None,
        }
    }
}

} // verus!
