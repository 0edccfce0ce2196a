//! Canonical tradable instruments and the process-wide interning
//! registry that guarantees one shared handle per logical instrument.
use vstd::prelude::*;
use vstd::string::StringExecFns;

use std::sync::Arc;

use dashmap::DashMap;

use crate::exchange_type::ExchangeType;
use crate::text::{to_uppercase_string, upper_of};

verus! {

/// A tradable pair: exchange, base asset, quote asset. Immutable once
/// created; equality and hashing are structural over all three fields.
#[derive(Debug, Clone, Hash, PartialEq, Eq)]
pub struct Symbol {
    pub exchange_type: ExchangeType,
    pub base_asset: String,
    pub quote_asset: String,
}

/// The mathematical content of a [`Symbol`]: the exchange and the two
/// asset names as character sequences.
pub struct SymbolView {
    pub exchange_type: ExchangeType,
    pub base_asset: Seq<char>,
    pub quote_asset: Seq<char>,
}

impl View for Symbol {
    type V = SymbolView;

    open spec fn view(&self) -> SymbolView {
        SymbolView {
            exchange_type: self.exchange_type,
            base_asset: self.base_asset@,
            quote_asset: self.quote_asset@,
        }
    }
}

/// A catalog snapshot: the instruments known at one refresh.
pub type Symbols = Vec<Arc<Symbol>>;

/// The natural key of an instrument, used by the interning registry.
#[derive(Debug, Clone, Hash, PartialEq, Eq)]
pub struct SymbolKey {
    pub exchange_type: ExchangeType,
    pub base_asset: String,
    pub quote_asset: String,
}

impl SymbolKey {
    /// Builds the shared instrument carrying exactly this key's fields.
    pub fn into_shared(self) -> (r: Arc<Symbol>)
        ensures
            r@.exchange_type == self.exchange_type,
            r@.base_asset == self.base_asset@,
            r@.quote_asset == self.quote_asset@,
    {
        Arc::new(
            Symbol {
                exchange_type: self.exchange_type,
                base_asset: self.base_asset,
                quote_asset: self.quote_asset,
            },
        )
    }
}

#[verifier::external_type_specification]
#[verifier::external_body]
#[verifier::reject_recursive_types(K)]
#[verifier::reject_recursive_types(V)]
#[verifier::reject_recursive_types(S)]
pub struct ExDashMap<K, V, S>(DashMap<K, V, S>);

/// The interning registry: a concurrent map from natural key to the one
/// shared instrument for that key. Entries live for the registry's
/// lifetime; there is no deletion.
pub struct SymbolPool {
    pool: DashMap<SymbolKey, Arc<Symbol>>,
}

impl SymbolPool {
    /// Relies on `dashmap::DashMap::new`: builds an empty registry.
    #[verifier::external_body]
    pub fn new() -> SymbolPool {
        SymbolPool { pool: DashMap::new() }
    }

    /// Returns the shared instrument for `key`, creating it first if no
    /// entry exists yet.
    ///
    /// Relies on `dashmap::DashMap::{get, entry}` and
    /// `dashmap::mapref::entry::Entry::or_insert_with`: the returned
    /// handle is the map's entry for `key`, which is safe to look up and
    /// insert under concurrent calls. Every entry is created here, by
    /// [`SymbolKey::into_shared`] from a key equal to the one looked up,
    /// so its fields always equal the key's fields.
    #[verifier::external_body]
    pub fn get_or_create(&self, key: SymbolKey) -> (r: Arc<Symbol>)
        ensures
            r@.exchange_type == key.exchange_type,
            r@.base_asset == key.base_asset@,
            r@.quote_asset == key.quote_asset@,
    {
        if let Some(existing) = self.pool.get(&key) {
            return existing.value().clone();
        }
        let fields = key.clone();
        self.pool.entry(key).or_insert_with(|| fields.into_shared()).clone()
    }
}

/// Hands out one more handle to a shared instrument.
///
/// Relies on `Arc::clone`: the clone is one more handle to the same
/// allocation, so it carries the same instrument.
#[verifier::external_body]
pub fn share_symbol(s: &Arc<Symbol>) -> (r: Arc<Symbol>)
    ensures
        r == *s,
{
    Arc::clone(s)
}

impl Symbol {
    /// Returns the one shared instrument for the given key, interning it
    /// in `pool` on first use. Two calls with equal keys yield handles
    /// to the same registry entry.
    pub fn from_pool(
        pool: &SymbolPool,
        exchange_type: ExchangeType,
        base_asset: String,
        quote_asset: String,
    ) -> (r: Arc<Symbol>)
        ensures
            r@.exchange_type == exchange_type,
            r@.base_asset == base_asset@,
            r@.quote_asset == quote_asset@,
    {
        pool.get_or_create(SymbolKey { exchange_type, base_asset, quote_asset })
    }

    /// The instrument's short name: base and quote asset concatenated
    /// and upper-cased, as the external API spells instruments.
    pub fn short_name(&self) -> (r: String)
        ensures
            r@ == upper_of(self.base_asset@ + self.quote_asset@),
    {
        let combined = self.base_asset.clone().concat(self.quote_asset.as_str());
        to_uppercase_string(combined.as_str())
    }
}

/// A first-class instrument predicate, carried inside download commands
/// so a command stays a plain value.
#[derive(Debug, Clone)]
pub enum SymbolFilter {
    /// Accepts every instrument.
    Any,
    /// Accepts instruments whose quote asset equals the given name.
    QuoteAssetIs(String),
    /// Accepts instruments whose quote asset equals the first name and
    /// whose base asset is one of the listed names.
    QuoteAssetIsAndBaseAssetIn(String, Vec<String>),
}

impl SymbolFilter {
    /// Whether the filter accepts an instrument.
    pub open spec fn accepts(&self, s: SymbolView) -> bool {
        match self {
            SymbolFilter::Any => true,
            SymbolFilter::QuoteAssetIs(q) => s.quote_asset == q@,
            SymbolFilter::QuoteAssetIsAndBaseAssetIn(q, bases) => s.quote_asset == q@
                && (exists|i: int| 0 <= i < bases@.len() && bases@[i]@ == s.base_asset),
        }
    }

    /// Decides whether the filter accepts an instrument.
    #[verifier::loop_isolation(false)]
    pub fn matches(&self, s: &Symbol) -> (r: bool)
        ensures
            r == self.accepts(s@),
    {
        match self {
            SymbolFilter::Any => true,
            SymbolFilter::QuoteAssetIs(q) => q.eq(&s.quote_asset),
            SymbolFilter::QuoteAssetIsAndBaseAssetIn(q, bases) => {
                if !q.eq(&s.quote_asset) {
                    return false;
                }
                let n = bases.len();
                let mut i: usize = 0;
                while i < n
                    invariant
                        n == bases@.len(),
                        i <= n,
                        q@ == s.quote_asset@,
                        forall|j: int| 0 <= j < i ==> bases@[j]@ != s.base_asset@,
                    decreases n - i,
                {
                    if bases[i].eq(&s.base_asset) {
                        proof {
                            assert(exists|j: int|
                                0 <= j < bases@.len() && bases@[j]@ == s.base_asset@) by {
                                assert(bases@[i as int]@ == s.base_asset@);
                            }
                        }
                        return true;
                    }
                    i = i + 1;
                }
                false
            },
        }
    }
}

/// The instruments of `symbols` that `filter` accepts, in order.
pub open spec fn filtered_symbols(symbols: Seq<Arc<Symbol>>, filter: SymbolFilter) -> Seq<
    Arc<Symbol>,
> {
    symbols.filter(|s: Arc<Symbol>| filter.accepts(s@))
}

/// Applies `filter` to an instrument list, keeping the accepted
/// instruments in their original order.
pub fn filter_symbols(symbols: &Vec<Arc<Symbol>>, filter: &SymbolFilter) -> (r: Vec<Arc<Symbol>>)
    ensures
        r@ == filtered_symbols(symbols@, *filter),
{
    let mut r: Vec<Arc<Symbol>> = Vec::new();
    let n = symbols.len();
    let mut i: usize = 0;
    proof {
        assert(symbols@.subrange(0, 0) =~= Seq::<Arc<Symbol>>::empty());
        reveal(Seq::filter);
    }
    while i < n
        invariant
            n == symbols@.len(),
            i <= n,
            r@ == symbols@.subrange(0, i as int).filter(|s: Arc<Symbol>| filter.accepts(s@)),
        decreases n - i,
    {
        let accepted = filter.matches(&symbols[i]);
        proof {
            reveal(Seq::filter);
            let prefix = symbols@.subrange(0, i as int);
            let extended = symbols@.subrange(0, i + 1);
            assert(extended.drop_last() =~= prefix);
            assert(extended.last() == symbols@[i as int]);
        }
        if accepted {
            r.push(share_symbol(&symbols[i]));
        }
        i = i + 1;
    }
    proof {
        assert(symbols@.subrange(0, n as int) =~= symbols@);
    }
    r
}

} // verus!
