//! A small map keyed by symbol, kept as a list in which no symbol occurs twice.

use vstd::prelude::*;
use crate::bytes::bytes_equal;
use crate::Symbol;

verus! {

/// The map that pairs `symbols[i]` with `values[i]`.
pub open spec fn map_of<V>(symbols: Seq<Seq<u8>>, values: Seq<V>) -> Map<Seq<u8>, V> {
    Map::new(|k: Seq<u8>| symbols.contains(k), |k: Seq<u8>| values[symbols.index_of(k)])
}

/// In a list without duplicates, a symbol is found where it stands.
pub proof fn lemma_index_of<V>(symbols: Seq<Seq<u8>>, values: Seq<V>, i: int)
    requires
        symbols.no_duplicates(),
        0 <= i < symbols.len(),
    ensures
        symbols.contains(symbols[i]),
        symbols.index_of(symbols[i]) == i,
        map_of(symbols, values).contains_key(symbols[i]),
        map_of(symbols, values)[symbols[i]] == values[i],
{
    let j = symbols.index_of(symbols[i]);
    assert(0 <= j < symbols.len() && symbols[j] == symbols[i]);
}

/// Adding a pair under a new symbol inserts it into the map.
pub proof fn lemma_map_of_push<V>(symbols: Seq<Seq<u8>>, values: Seq<V>, symbol: Seq<u8>, value: V)
    requires
        symbols.no_duplicates(),
        symbols.len() == values.len(),
        !symbols.contains(symbol),
    ensures
        symbols.push(symbol).no_duplicates(),
        map_of(symbols.push(symbol), values.push(value)) == map_of(symbols, values).insert(
            symbol,
            value,
        ),
{
    let s2 = symbols.push(symbol);
    let v2 = values.push(value);
    assert forall|i: int, j: int| 0 <= i < s2.len() && 0 <= j < s2.len() && i != j implies s2[i]
        != s2[j] by {
        if i < symbols.len() && j < symbols.len() {
            assert(s2[i] == symbols[i] && s2[j] == symbols[j]);
        } else if i < symbols.len() {
            assert(symbols[i] != symbol);
        } else {
            assert(symbols[j] != symbol);
        }
    }
    let lhs = map_of(s2, v2);
    let rhs = map_of(symbols, values).insert(symbol, value);
    assert forall|k: Seq<u8>| lhs.contains_key(k) == rhs.contains_key(k) by {
        if symbols.contains(k) {
            let i = symbols.index_of(k);
            assert(s2[i] == k);
        }
        if k == symbol {
            assert(s2[symbols.len() as int] == k);
        }
        if s2.contains(k) {
            let i = s2.index_of(k);
            if i < symbols.len() {
                assert(symbols[i] == k);
            }
        }
    }
    assert forall|k: Seq<u8>| lhs.contains_key(k) implies lhs[k] == rhs[k] by {
        let i = s2.index_of(k);
        if k == symbol {
            lemma_index_of(s2, v2, symbols.len() as int);
        } else {
            assert(symbols[i] == k);
            lemma_index_of(symbols, values, i);
        }
    }
    assert(lhs =~= rhs);
}

/// Taking the pair at `i` out removes its symbol from the map.
pub proof fn lemma_map_of_remove<V>(symbols: Seq<Seq<u8>>, values: Seq<V>, i: int)
    requires
        symbols.no_duplicates(),
        symbols.len() == values.len(),
        0 <= i < symbols.len(),
    ensures
        symbols.remove(i).no_duplicates(),
        !symbols.remove(i).contains(symbols[i]),
        map_of(symbols.remove(i), values.remove(i)) == map_of(symbols, values).remove(symbols[i]),
{
    let s2 = symbols.remove(i);
    let v2 = values.remove(i);
    symbols.remove_ensures(i);
    values.remove_ensures(i);
    assert forall|a: int, b: int| 0 <= a < s2.len() && 0 <= b < s2.len() && a != b implies s2[a]
        != s2[b] by {
        let a1 = if a < i { a } else { a + 1 };
        let b1 = if b < i { b } else { b + 1 };
        assert(s2[a] == symbols[a1] && s2[b] == symbols[b1]);
    }
    assert forall|a: int| 0 <= a < s2.len() implies s2[a] != symbols[i] by {
        let a1 = if a < i { a } else { a + 1 };
        assert(s2[a] == symbols[a1]);
    }
    let lhs = map_of(s2, v2);
    let rhs = map_of(symbols, values).remove(symbols[i]);
    assert forall|k: Seq<u8>| lhs.contains_key(k) == rhs.contains_key(k) by {
        if s2.contains(k) {
            let a = s2.index_of(k);
            let a1 = if a < i { a } else { a + 1 };
            assert(symbols[a1] == k);
        }
        if symbols.contains(k) && k != symbols[i] {
            let a1 = symbols.index_of(k);
            let a = if a1 < i { a1 } else { a1 - 1 };
            assert(s2[a] == k);
        }
    }
    assert forall|k: Seq<u8>| lhs.contains_key(k) implies lhs[k] == rhs[k] by {
        let a = s2.index_of(k);
        let a1 = if a < i { a } else { a + 1 };
        assert(symbols[a1] == k);
        lemma_index_of(symbols, values, a1);
        lemma_index_of(s2, v2, a);
    }
    assert(lhs =~= rhs);
}

/// Putting another value at place `i` puts it under the symbol that stands
/// there.
pub proof fn lemma_map_of_update<V>(symbols: Seq<Seq<u8>>, values: Seq<V>, i: int, value: V)
    requires
        symbols.no_duplicates(),
        symbols.len() == values.len(),
        0 <= i < symbols.len(),
    ensures
        map_of(symbols, values.update(i, value)) == map_of(symbols, values).insert(
            symbols[i],
            value,
        ),
{
    let v2 = values.update(i, value);
    let lhs = map_of(symbols, v2);
    let rhs = map_of(symbols, values).insert(symbols[i], value);
    assert forall|k: Seq<u8>| lhs.contains_key(k) == rhs.contains_key(k) by {
        lemma_index_of(symbols, values, i);
    }
    assert forall|k: Seq<u8>| lhs.contains_key(k) implies lhs[k] == rhs[k] by {
        let a = symbols.index_of(k);
        lemma_index_of(symbols, values, a);
        lemma_index_of(symbols, v2, a);
        lemma_index_of(symbols, values, i);
    }
    assert(lhs =~= rhs);
}

/// A map from symbols to values of type `V`.
pub struct SymbolMap<V> {
    keys: Vec<Symbol>,
    values: Vec<V>,
}

impl<V> SymbolMap<V> {
    /// The symbols, in the order in which the map keeps them.
    pub closed spec fn symbols(&self) -> Seq<Seq<u8>> {
        self.keys@.map_values(|k: Symbol| k@)
    }

    /// The values, in the order of their symbols.
    pub closed spec fn values(&self) -> Seq<V> {
        self.values@
    }

    /// Every symbol has one value, and no symbol occurs twice.
    pub open spec fn wf(&self) -> bool {
        &&& self.symbols().len() == self.values().len()
        &&& self.symbols().no_duplicates()
    }

    /// The map itself.
    pub open spec fn entries(&self) -> Map<Seq<u8>, V> {
        map_of(self.symbols(), self.values())
    }

    /// An empty map.
    pub fn new() -> (m: Self)
        ensures
            m.wf(),
            m.symbols() == Seq::<Seq<u8>>::empty(),
            m.values() == Seq::<V>::empty(),
            m.entries() == Map::<Seq<u8>, V>::empty(),
    {
        let m = SymbolMap { keys: Vec::new(), values: Vec::new() };
        assert(m.symbols() =~= Seq::<Seq<u8>>::empty());
        assert(m.entries() =~= Map::<Seq<u8>, V>::empty());
        m
    }

    /// The number of symbols.
    pub fn len(&self) -> (n: usize)
        requires
            self.wf(),
        ensures
            n == self.symbols().len(),
    {
        self.keys.len()
    }

    /// Where `symbol` stands, if the map holds it.
    pub fn position(&self, symbol: &[u8]) -> (r: Option<usize>)
        requires
            self.wf(),
        ensures
            r is Some <==> self.entries().contains_key(symbol@),
            r matches Some(i) ==> i < self.symbols().len() && self.symbols()[i as int] == symbol@
                && self.entries()[symbol@] == self.values()[i as int],
    {
        let mut i: usize = 0;
        while i < self.keys.len()
            invariant
                i <= self.keys.len(),
                self.wf(),
                forall|k: int| 0 <= k < i ==> self.symbols()[k] != symbol@,
            decreases self.keys.len() - i,
        {
            if bytes_equal(self.keys[i].as_slice(), symbol) {
                proof {
                    lemma_index_of(self.symbols(), self.values(), i as int);
                }
                return Some(i);
            }
            i += 1;
        }
        None
    }

    /// The symbol at place `i`.
    pub fn symbol_at(&self, i: usize) -> (symbol: &Symbol)
        requires
            self.wf(),
            i < self.symbols().len(),
        ensures
            symbol@ == self.symbols()[i as int],
            self.entries().contains_key(symbol@),
    {
        proof {
            lemma_index_of(self.symbols(), self.values(), i as int);
        }
        &self.keys[i]
    }

    /// The value at place `i`.
    pub fn value_at(&self, i: usize) -> (value: &V)
        requires
            self.wf(),
            i < self.symbols().len(),
        ensures
            *value == self.values()[i as int],
            self.entries()[self.symbols()[i as int]] == *value,
    {
        proof {
            lemma_index_of(self.symbols(), self.values(), i as int);
        }
        &self.values[i]
    }

    /// Adds `value` under `symbol`, which the map does not hold yet.
    pub fn insert(&mut self, symbol: Symbol, value: V)
        requires
            old(self).wf(),
            !old(self).entries().contains_key(symbol@),
        ensures
            final(self).wf(),
            final(self).symbols() == old(self).symbols().push(symbol@),
            final(self).values() == old(self).values().push(value),
            final(self).entries() == old(self).entries().insert(symbol@, value),
    {
        proof {
            lemma_map_of_push(self.symbols(), self.values(), symbol@, value);
        }
        let ghost before = self.symbols();
        self.keys.push(symbol);
        self.values.push(value);
        assert(self.symbols() =~= before.push(symbol@));
    }

    /// Takes out the pair at place `i`.
    pub fn remove_at(&mut self, i: usize) -> (pair: (Symbol, V))
        requires
            old(self).wf(),
            i < old(self).symbols().len(),
        ensures
            final(self).wf(),
            pair.0@ == old(self).symbols()[i as int],
            pair.1 == old(self).values()[i as int],
            final(self).symbols() == old(self).symbols().remove(i as int),
            final(self).values() == old(self).values().remove(i as int),
            final(self).entries() == old(self).entries().remove(pair.0@),
            !final(self).entries().contains_key(pair.0@),
    {
        proof {
            lemma_map_of_remove(self.symbols(), self.values(), i as int);
        }
        let ghost before = self.symbols();
        let symbol = self.keys.remove(i);
        let value = self.values.remove(i);
        assert(self.symbols() =~= before.remove(i as int));
        (symbol, value)
    }

    /// Puts `value` at place `i`, under the symbol that stands there, and hands
    /// out the value that was there.
    pub fn replace_at(&mut self, i: usize, value: V) -> (previous: V)
        requires
            old(self).wf(),
            i < old(self).symbols().len(),
        ensures
            final(self).wf(),
            previous == old(self).values()[i as int],
            final(self).symbols() == old(self).symbols(),
            final(self).values() == old(self).values().update(i as int, value),
            final(self).entries() == old(self).entries().insert(
                old(self).symbols()[i as int],
                value,
            ),
    {
        proof {
            lemma_map_of_update(self.symbols(), self.values(), i as int, value);
        }
        let ghost before = self.values@;
        self.values.push(value);
        let previous = self.values.swap_remove(i);
        assert(self.values@ =~= before.update(i as int, value));
        previous
    }
}

} // verus!
