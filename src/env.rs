//! The typing context and the operation signature table.
use vstd::prelude::*;
use crate::types::{Operation, Type, copy_type};

verus! {

/// The map that a list of key/value entries stands for: a later entry for a
/// key overrides every earlier one.
pub open spec fn assoc_map<K, V>(s: Seq<(K, V)>) -> Map<K, V>
    decreases s.len(),
{
    if s.len() == 0 {
        Map::empty()
    } else {
        assoc_map(s.drop_last()).insert(s.last().0, s.last().1)
    }
}

/// Entries past index `i` that do not mention `k` leave what `k` maps to as it
/// was among the first `i` entries.
pub proof fn lemma_assoc_map_prefix<K, V>(s: Seq<(K, V)>, i: int, k: K)
    requires
        0 <= i <= s.len(),
        forall|j: int| i <= j < s.len() ==> (#[trigger] s[j]).0 != k,
    ensures
        assoc_map(s).contains_key(k) == assoc_map(s.take(i)).contains_key(k),
        assoc_map(s).contains_key(k) ==> assoc_map(s)[k] == assoc_map(s.take(i))[k],
    decreases s.len(),
{
    if i == s.len() {
        assert(s.take(i) =~= s);
    } else {
        let t = s.drop_last();
        assert(t.take(i) =~= s.take(i));
        assert(s[s.len() - 1].0 != k);
        lemma_assoc_map_prefix(t, i, k);
    }
}

/// The types of free variables: a stack of bindings in which the newest
/// binding of a name is the one that counts.
pub struct Context {
    bindings: Vec<(char, Type)>,
}

impl Context {
    /// The bindings, oldest first.
    pub closed spec fn entries(&self) -> Seq<(char, Type)> {
        self.bindings@
    }

    /// An empty context.
    pub fn new() -> (r: Context)
        ensures
            r.entries().len() == 0,
            r@ == Map::<char, Type>::empty(),
    {
        Context { bindings: Vec::new() }
    }

    /// An independent copy of the context, with the same bindings.
    pub fn copy(&self) -> (r: Context)
        ensures
            r.entries() == self.entries(),
            r@ == self@,
    {
        let mut bindings: Vec<(char, Type)> = Vec::new();
        let mut i: usize = 0;
        while i < self.bindings.len()
            invariant
                i <= self.bindings@.len(),
                bindings@ == self.bindings@.take(i as int),
            decreases self.bindings@.len() - i,
        {
            let name = self.bindings[i].0;
            let ty = copy_type(&self.bindings[i].1);
            bindings.push((name, ty));
            i = i + 1;
            assert(bindings@ =~= self.bindings@.take(i as int));
        }
        assert(bindings@ =~= self.bindings@);
        Context { bindings }
    }

    /// Binds `name` to `ty`, hiding any earlier binding of `name`.
    pub fn insert(&mut self, name: char, ty: Type)
        ensures
            final(self).entries() == old(self).entries().push((name, ty)),
            final(self)@ == old(self)@.insert(name, ty),
    {
        self.bindings.push((name, ty));
        assert(final(self).entries().drop_last() =~= old(self).entries());
    }

    /// Drops the newest binding, uncovering whatever it hid.
    pub fn remove_newest(&mut self)
        requires
            old(self).entries().len() > 0,
        ensures
            final(self).entries() == old(self).entries().drop_last(),
    {
        self.bindings.pop();
    }

    /// The type bound to `name`, if any.
    pub fn get(&self, name: char) -> (r: Option<&Type>)
        ensures
            r matches Some(t) ==> self@.contains_key(name) && *t == self@[name],
            r is None ==> !self@.contains_key(name),
    {
        let mut i: usize = self.bindings.len();
        while i > 0
            invariant
                i <= self.bindings@.len(),
                forall|j: int| i <= j < self.bindings@.len() ==> (#[trigger] self.bindings@[j]).0 != name,
            decreases i,
        {
            if self.bindings[i - 1].0 == name {
                proof {
                    let s = self.bindings@;
                    lemma_assoc_map_prefix(s, i as int, name);
                    assert(s.take(i as int).drop_last() =~= s.take(i - 1));
                }
                return Some(&self.bindings[i - 1].1);
            }
            i = i - 1;
        }
        proof {
            lemma_assoc_map_prefix(self.bindings@, 0, name);
        }
        None
    }
}

impl View for Context {
    type V = Map<char, Type>;

    open spec fn view(&self) -> Map<char, Type> {
        assoc_map(self.entries())
    }
}

/// A signature: the left operand type, the right operand type and the result type.
pub type Signature = (Type, Type, Type);

/// The accepted signature of each operation, at most one per operation.
pub struct OpTable {
    entries: Vec<(Operation, Signature)>,
}

impl OpTable {
    /// The entries, oldest first.
    pub closed spec fn entries(&self) -> Seq<(Operation, Signature)> {
        self.entries@
    }

    /// An empty table.
    pub fn new() -> (r: OpTable)
        ensures
            r@ == Map::<Operation, Signature>::empty(),
    {
        OpTable { entries: Vec::new() }
    }

    /// Stores `sig` as the signature of `op`, replacing any earlier one.
    pub fn insert(&mut self, op: Operation, sig: Signature)
        ensures
            final(self)@ == old(self)@.insert(op, sig),
    {
        self.entries.push((op, sig));
        assert(final(self).entries().drop_last() =~= old(self).entries());
    }

    /// The signature stored for `op`, if any.
    pub fn get(&self, op: Operation) -> (r: Option<&Signature>)
        ensures
            r matches Some(sig) ==> self@.contains_key(op) && *sig == self@[op],
            r is None ==> !self@.contains_key(op),
    {
        let mut i: usize = self.entries.len();
        while i > 0
            invariant
                i <= self.entries@.len(),
                forall|j: int| i <= j < self.entries@.len() ==> (#[trigger] self.entries@[j]).0 != op,
            decreases i,
        {
            if self.entries[i - 1].0 == op {
                proof {
                    let s = self.entries@;
                    lemma_assoc_map_prefix(s, i as int, op);
                    assert(s.take(i as int).drop_last() =~= s.take(i - 1));
                }
                return Some(&self.entries[i - 1].1);
            }
            i = i - 1;
        }
        proof {
            lemma_assoc_map_prefix(self.entries@, 0, op);
        }
        None
    }
}

impl View for OpTable {
    type V = Map<Operation, Signature>;

    open spec fn view(&self) -> Map<Operation, Signature> {
        assoc_map(self.entries())
    }
}

} // verus!
