//! Scopes: a binding table from names to values, and the scope record
//! that chains tables into lexical environments.
//!
//! The interpreter keeps every scope in one arena (a vector of
//! `Environment` records); a record names its enclosing scope by
//! arena index. Looking a name up walks outward along those indices;
//! `define` always writes the innermost table. The ghost model of a
//! table is a `Map` from the name's characters to value models.

use vstd::prelude::*;

use crate::token::Token;
use crate::value::{Interpretable, ValueModel};

verus! {

/// Mathematical model of one scope.
#[verifier::ext_equal]
pub ghost struct ScopeModel {
    pub bindings: Map<Seq<char>, ValueModel>,
    pub parent: Option<int>,
}

/// The binding table of one scope. Entries are appended; the latest
/// entry for a name is its current value.
#[derive(Debug)]
pub struct ValueMap {
    values: Vec<(String, Interpretable)>,
}

/// The map a sequence of entries denotes: later entries override
/// earlier ones.
pub open spec fn assoc_map(s: Seq<(String, Interpretable)>) -> Map<Seq<char>, ValueModel>
    decreases s,
{
    if s.len() == 0 {
        Map::empty()
    } else {
        assoc_map(s.subrange(0, s.len() - 1)).insert(s[s.len() - 1].0@, s[s.len() - 1].1@)
    }
}

impl View for ValueMap {
    type V = Map<Seq<char>, ValueModel>;

    closed spec fn view(&self) -> Map<Seq<char>, ValueModel> {
        assoc_map(self.values@)
    }
}

/// Entries at positions `i` and beyond whose keys all differ from `k`
/// do not affect what the table says about `k`.
proof fn lemma_assoc_prefix(s: Seq<(String, Interpretable)>, k: Seq<char>, i: int)
    requires
        0 <= i <= s.len(),
        forall|j: int| i <= j < s.len() ==> (#[trigger] s[j]).0@ != k,
    ensures
        assoc_map(s).contains_key(k) <==> assoc_map(s.subrange(0, i)).contains_key(k),
        assoc_map(s).contains_key(k) ==> assoc_map(s)[k] == assoc_map(s.subrange(0, i))[k],
    decreases s.len() - i,
{
    if i < s.len() {
        lemma_assoc_prefix(s, k, i + 1);
        let t = s.subrange(0, i + 1);
        assert(t.subrange(0, t.len() - 1) =~= s.subrange(0, i));
        assert(s.subrange(0, s.len() as int) =~= s);
    } else {
        assert(s.subrange(0, s.len() as int) =~= s);
    }
}

/// Appending an entry inserts its binding into the denoted map.
proof fn lemma_assoc_push(s: Seq<(String, Interpretable)>, p: (String, Interpretable))
    ensures
        assoc_map(s.push(p)) == assoc_map(s).insert(p.0@, p.1@),
{
    assert(s.push(p).subrange(0, s.push(p).len() - 1) =~= s);
}

impl ValueMap {
    pub fn new() -> (r: Self)
        ensures
            r@ == Map::<Seq<char>, ValueModel>::empty(),
    {
        ValueMap { values: Vec::new() }
    }

    /// The current value bound to the name in this table alone, if
    /// any.
    pub fn lookup_str(&self, name: &str) -> (r: Option<&Interpretable>)
        ensures
            match r {
                Some(v) => self@.contains_key(name@) && v@ == self@[name@],
                None => !self@.contains_key(name@),
            },
    {
        let ghost k = name@;
        let owned = name.to_owned();
        let mut i: usize = self.values.len();
        while i > 0
            invariant
                owned@ == k,
                k == name@,
                0 <= i <= self.values.len(),
                forall|j: int| i <= j < self.values@.len() ==> (#[trigger] self.values@[j]).0@
                    != k,
            decreases i,
        {
            i = i - 1;
            if self.values[i].0 == owned {
                proof {
                    lemma_assoc_prefix(self.values@, k, i + 1);
                    let sub = self.values@.subrange(0, i + 1);
                    assert(sub[sub.len() - 1] == self.values@[i as int]);
                    assert(sub.subrange(0, i as int) =~= self.values@.subrange(0, i as int));
                }
                return Some(&self.values[i].1);
            }
        }
        proof {
            lemma_assoc_prefix(self.values@, k, 0);
            assert(self.values@.subrange(0, 0) =~= Seq::<(String, Interpretable)>::empty());
        }
        None
    }

    /// The current value bound to the token's lexeme in this table
    /// alone, if any.
    pub fn get(&self, name: &Token) -> (r: Option<&Interpretable>)
        ensures
            match r {
                Some(v) => self@.contains_key(name@.lexeme) && v@ == self@[name@.lexeme],
                None => !self@.contains_key(name@.lexeme),
            },
    {
        self.lookup_str(name.lexeme.as_str())
    }

    /// Rebind the token's lexeme in this table, if it is bound at all;
    /// the previous value comes back. An unbound name is left alone.
    pub fn assign(&mut self, name: &Token, value: &Interpretable) -> (r: Option<Interpretable>)
        ensures
            match r {
                Some(prev) => {
                    &&& old(self)@.contains_key(name@.lexeme)
                    &&& prev@ == old(self)@[name@.lexeme]
                    &&& final(self)@ == old(self)@.insert(name@.lexeme, value@)
                },
                None => {
                    &&& !old(self)@.contains_key(name@.lexeme)
                    &&& final(self)@ == old(self)@
                },
            },
    {
        let prev: Option<&Interpretable> = self.get(name);
        match prev {
            Some(p) => {
                let old_value = p.clone();
                let entry = (name.lexeme.clone(), value.clone());
                proof {
                    lemma_assoc_push(self.values@, entry);
                }
                self.values.push(entry);
                Some(old_value)
            },
            None => None,
        }
    }

    /// Bind the name in this table, shadowing or overwriting any
    /// earlier binding; the previous value, if any, comes back.
    pub fn define(&mut self, name: String, value: Interpretable) -> (r: Option<Interpretable>)
        ensures
            final(self)@ == old(self)@.insert(name@, value@),
            match r {
                Some(prev) => old(self)@.contains_key(name@) && prev@ == old(self)@[name@],
                None => !old(self)@.contains_key(name@),
            },
    {
        let prev_ref: Option<&Interpretable> = self.lookup_str(name.as_str());
        let prev: Option<Interpretable> = match prev_ref {
            Some(p) => Some(p.clone()),
            None => None,
        };
        let entry = (name, value);
        proof {
            lemma_assoc_push(self.values@, entry);
        }
        self.values.push(entry);
        prev
    }
}

/// One scope: its binding table and, for every scope but the global
/// one, the arena index of the scope it is nested in.
#[derive(Debug)]
pub struct Environment {
    pub values: ValueMap,
    pub enclosing: Option<usize>,
}

impl View for Environment {
    type V = ScopeModel;

    open spec fn view(&self) -> ScopeModel {
        ScopeModel {
            bindings: self.values@,
            parent: match self.enclosing {
                Some(p) => Some(p as int),
                None => None,
            },
        }
    }
}

impl Environment {
    /// A fresh scope with no enclosing scope.
    pub fn new() -> (r: Self)
        ensures
            r@ == (ScopeModel {
                bindings: Map::<Seq<char>, ValueModel>::empty(),
                parent: None,
            }),
    {
        Environment { values: ValueMap::new(), enclosing: None }
    }

    /// A fresh scope nested in the scope at the given arena index.
    pub fn from(parent: usize) -> (r: Self)
        ensures
            r@ == (ScopeModel {
                bindings: Map::<Seq<char>, ValueModel>::empty(),
                parent: Some(parent as int),
            }),
    {
        Environment { values: ValueMap::new(), enclosing: Some(parent) }
    }

    /// Bind a name in this scope, shadowing or overwriting any earlier
    /// binding; the previous value, if any, comes back.
    pub fn define(&mut self, name: String, value: Interpretable) -> (r: Option<Interpretable>)
        ensures
            final(self)@ == (ScopeModel {
                bindings: old(self)@.bindings.insert(name@, value@),
                parent: old(self)@.parent,
            }),
            match r {
                Some(prev) => old(self)@.bindings.contains_key(name@) && prev@ == old(
                    self,
                )@.bindings[name@],
                None => !old(self)@.bindings.contains_key(name@),
            },
    {
        self.values.define(name, value)
    }
}

/// The value bound to `name`, looking outward along the scope chain
/// from the scope at index `i`. A parent index that does not point at
/// an earlier arena slot ends the walk; the interpreter only ever
/// creates parents that do.
pub open spec fn lookup_chain(envs: Seq<ScopeModel>, i: int, name: Seq<char>) -> Option<
    ValueModel,
>
    decreases i,
{
    if 0 <= i < envs.len() {
        let sc = envs[i];
        if sc.bindings.contains_key(name) {
            Some(sc.bindings[name])
        } else {
            match sc.parent {
                Some(p) => if 0 <= p < i {
                    lookup_chain(envs, p, name)
                } else {
                    None
                },
                None => None,
            }
        }
    } else {
        None
    }
}

/// The arena after rebinding `name` in the nearest scope on the chain
/// from index `i` that binds it, or `None` if no scope on the chain
/// does.
pub open spec fn assign_chain(
    envs: Seq<ScopeModel>,
    i: int,
    name: Seq<char>,
    v: ValueModel,
) -> Option<(Seq<ScopeModel>, ValueModel)>
    decreases i,
{
    if 0 <= i < envs.len() {
        let sc = envs[i];
        if sc.bindings.contains_key(name) {
            Some(
                (
                    envs.update(
                        i,
                        ScopeModel { bindings: sc.bindings.insert(name, v), parent: sc.parent },
                    ),
                    sc.bindings[name],
                ),
            )
        } else {
            match sc.parent {
                Some(p) => if 0 <= p < i {
                    assign_chain(envs, p, name, v)
                } else {
                    None
                },
                None => None,
            }
        }
    } else {
        None
    }
}

} // verus!
