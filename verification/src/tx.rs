use vstd::prelude::*;

use crate::cbor::{cbor_u64, decode_u64};
use crate::charms::{lookup, AppId, AppKey, CharmEntry, CharmSet, TOKEN};
use crate::market::MarketState;

verus! {

/// A spent UTXO: its id (transaction id and output index) and its charms.
#[derive(Debug)]
pub struct TxInput {
    pub txid: [u8; 32],
    pub vout: u32,
    pub charms: CharmSet,
}

/// What the contract reads of a Charms transaction: the charms of the spent
/// UTXOs, in order, those of the created outputs, in order, and, when known,
/// the native coin amounts (sats) of the spent and of the created UTXOs, in
/// the same orders.
#[derive(Debug)]
pub struct Transaction {
    pub ins: Vec<TxInput>,
    pub outs: Vec<CharmSet>,
    pub coin_ins: Option<Vec<u64>>,
    pub coin_outs: Option<Vec<u64>>,
}

/// The charm sets on one side of a transaction.
pub open spec fn sets_of(tx: &Transaction, inputs: bool) -> Seq<Seq<CharmEntry>> {
    if inputs {
        tx.ins@.map_values(|i: TxInput| i.charms@)
    } else {
        tx.outs@.map_values(|c: CharmSet| c@)
    }
}

/// The charms stored under `key` in each set, in the order of the sets (a set
/// without such a charm contributes nothing).
pub open spec fn charm_values(key: AppKey, sets: Seq<Seq<CharmEntry>>) -> Seq<CharmEntry>
    decreases sets.len(),
{
    if sets.len() == 0 {
        Seq::empty()
    } else {
        let rest = charm_values(key, sets.drop_last());
        match lookup(sets.last(), key) {
            Some(e) => rest.push(e),
            None => rest,
        }
    }
}

/// The first market state among the given charms.
pub open spec fn first_market(values: Seq<CharmEntry>) -> Option<MarketState>
    decreases values.len(),
{
    if values.len() == 0 {
        None
    } else {
        match first_market(values.drop_last()) {
            Some(s) => Some(s),
            None => values.last().market,
        }
    }
}

/// The market state held by the first charm under `key` whose data is a
/// market state, on one side of the transaction.
pub open spec fn market_state_on(key: AppKey, tx: &Transaction, inputs: bool) -> Option<MarketState> {
    first_market(charm_values(key, sets_of(tx, inputs)))
}

/// Token amounts of the given charms (`None` where the data is not an amount).
pub open spec fn amounts(values: Seq<CharmEntry>) -> Seq<Option<u64>> {
    values.map_values(|e: CharmEntry| cbor_u64(e.data@))
}

/// Every charm's data is an amount.
pub open spec fn all_decoded(s: Seq<Option<u64>>) -> bool {
    forall|i: int| 0 <= i < s.len() ==> #[trigger] s[i] is Some
}

/// Sum of the amounts that come before the first charm whose data is not an
/// amount.
pub open spec fn decoded_prefix_sum(s: Seq<Option<u64>>) -> int
    decreases s.len(),
{
    if s.len() == 0 {
        0
    } else if all_decoded(s.drop_last()) && s.last() is Some {
        decoded_prefix_sum(s.drop_last()) + s.last()->0
    } else {
        decoded_prefix_sum(s.drop_last())
    }
}

/// Outcome of summing token amounts.
#[derive(Clone, Copy, Debug, PartialEq, Eq, Structural)]
pub enum TokenSum {
    /// Every charm's data is an amount, and this is their sum.
    Total(u64),
    /// The app is not a token, or some charm's data is not an amount.
    Invalid,
    /// The amounts added before the first failure exceed `u64::MAX`.
    Overflow,
}

/// The sum of the token amounts stored under `key` in the given sets.
pub open spec fn token_sum(key: AppKey, sets: Seq<Seq<CharmEntry>>) -> TokenSum {
    let s = amounts(charm_values(key, sets));
    if key.tag != TOKEN {
        TokenSum::Invalid
    } else if decoded_prefix_sum(s) > u64::MAX {
        TokenSum::Overflow
    } else if all_decoded(s) {
        TokenSum::Total(decoded_prefix_sum(s) as u64)
    } else {
        TokenSum::Invalid
    }
}

/// The token total on one side, with a total that is not a sum read as zero
/// (`None` when the sum overflows).
pub open spec fn total_or_zero(sum: TokenSum) -> Option<u64> {
    match sum {
        TokenSum::Total(n) => Some(n),
        TokenSum::Invalid => Some(0),
        TokenSum::Overflow => None,
    }
}

/// Net amount of `key` tokens created by the transaction (outputs minus inputs,
/// at least zero); `None` when a side's sum overflows.
pub open spec fn minted_amount(key: AppKey, tx: &Transaction) -> Option<u64> {
    match (total_or_zero(token_sum(key, sets_of(tx, false))), total_or_zero(token_sum(key, sets_of(tx, true)))) {
        (Some(o), Some(i)) => Some(if o >= i { (o - i) as u64 } else { 0 }),
        _ => None,
    }
}

/// Net amount of `key` tokens destroyed by the transaction (inputs minus
/// outputs, at least zero); `None` when a side's sum overflows.
pub open spec fn burned_amount(key: AppKey, tx: &Transaction) -> Option<u64> {
    match (total_or_zero(token_sum(key, sets_of(tx, true))), total_or_zero(token_sum(key, sets_of(tx, false)))) {
        (Some(i), Some(o)) => Some(if i >= o { (i - o) as u64 } else { 0 }),
        _ => None,
    }
}

proof fn lemma_values_step(key: AppKey, sets: Seq<Seq<CharmEntry>>, i: int)
    requires
        0 <= i < sets.len(),
    ensures
        charm_values(key, sets.take(i + 1)) == (match lookup(sets[i], key) {
            Some(e) => charm_values(key, sets.take(i)).push(e),
            None => charm_values(key, sets.take(i)),
        }),
{
    assert(sets.take(i + 1).drop_last() =~= sets.take(i));
    assert(sets.take(i + 1).last() == sets[i]);
}

proof fn lemma_amounts_push(values: Seq<CharmEntry>, e: CharmEntry)
    ensures
        amounts(values.push(e)) == amounts(values).push(cbor_u64(e.data@)),
{
    assert(amounts(values.push(e)) =~= amounts(values).push(cbor_u64(e.data@)));
}

proof fn lemma_sum_push(s: Seq<Option<u64>>, x: Option<u64>)
    ensures
        decoded_prefix_sum(s.push(x)) == if all_decoded(s) && x is Some {
            decoded_prefix_sum(s) + x->0
        } else {
            decoded_prefix_sum(s)
        },
        all_decoded(s.push(x)) == (all_decoded(s) && x is Some),
{
    assert(s.push(x).drop_last() =~= s);
    if all_decoded(s) && x is Some {
        assert forall|i: int| 0 <= i < s.push(x).len() implies #[trigger] s.push(x)[i] is Some by {
            if i < s.len() {
                assert(s.push(x)[i] == s[i]);
            }
        }
    }
    if !all_decoded(s) {
        let i = choose|i: int| 0 <= i < s.len() && !(#[trigger] s[i] is Some);
        assert(s.push(x)[i] == s[i]);
    }
    if x is None {
        assert(s.push(x)[s.len() as int] == x);
    }
}

/// The charm set at position `i` on one side of a transaction.
pub fn set_at(tx: &Transaction, inputs: bool, i: usize) -> (set: &CharmSet)
    requires
        i < sets_of(tx, inputs).len(),
    ensures
        set@ == sets_of(tx, inputs)[i as int],
{
    if inputs {
        &tx.ins[i].charms
    } else {
        &tx.outs[i]
    }
}

/// Number of charm sets on one side of a transaction.
pub fn side_len(tx: &Transaction, inputs: bool) -> (n: usize)
    ensures
        n == sets_of(tx, inputs).len(),
{
    if inputs {
        tx.ins.len()
    } else {
        tx.outs.len()
    }
}

/// Sums the amounts of the `app` tokens on one side of the transaction, as
/// `charms_data::sum_token_amount` does: not a token app or an undecodable
/// amount gives `Invalid`, and a sum past `u64::MAX` gives `Overflow`.
pub fn sum_token_amount(app: &AppId, tx: &Transaction, inputs: bool) -> (sum: TokenSum)
    ensures
        sum == token_sum(app@, sets_of(tx, inputs)),
{
    if app.tag != TOKEN {
        return TokenSum::Invalid;
    }
    let ghost key = app@;
    let ghost sets = sets_of(tx, inputs);
    let n = side_len(tx, inputs);
    let mut acc: u64 = 0;
    let mut failed = false;
    let mut overflowed = false;
    let mut i: usize = 0;
    assert(sets.take(0) =~= Seq::<Seq<CharmEntry>>::empty());
    while i < n
        invariant
            n == sets.len(),
            sets == sets_of(tx, inputs),
            key == app@,
            i <= n,
            failed == !all_decoded(amounts(charm_values(key, sets.take(i as int)))),
            overflowed == (decoded_prefix_sum(amounts(charm_values(key, sets.take(i as int))))
                > u64::MAX),
            !overflowed ==> acc == decoded_prefix_sum(
                amounts(charm_values(key, sets.take(i as int))),
            ),
        decreases n - i,
    {
        let set = set_at(tx, inputs, i);
        proof {
            lemma_values_step(key, sets, i as int);
        }
        match set.get(app) {
            Some(e) => {
                proof {
                    lemma_amounts_push(charm_values(key, sets.take(i as int)), *e);
                    lemma_sum_push(amounts(charm_values(key, sets.take(i as int))), cbor_u64(e.data@));
                }
                if !failed {
                    match decode_u64(e.data.as_slice()) {
                        Some(a) => {
                            if !overflowed {
                                match acc.checked_add(a) {
                                    Some(x) => {
                                        acc = x;
                                    },
                                    None => {
                                        overflowed = true;
                                    },
                                }
                            }
                        },
                        None => {
                            failed = true;
                        },
                    }
                }
            },
            None => {},
        }
        i = i + 1;
    }
    assert(sets.take(n as int) =~= sets);
    if overflowed {
        TokenSum::Overflow
    } else if failed {
        TokenSum::Invalid
    } else {
        TokenSum::Total(acc)
    }
}

/// Net amount of `app` tokens created: outputs minus inputs, at least zero,
/// with a side that is not a valid sum read as zero. `None` when a sum
/// overflows.
pub fn count_token_minted(tx: &Transaction, app: &AppId) -> (minted: Option<u64>)
    ensures
        minted == minted_amount(app@, tx),
{
    let output_total = match sum_token_amount(app, tx, false) {
        TokenSum::Total(n) => n,
        TokenSum::Invalid => 0,
        TokenSum::Overflow => return None,
    };
    let input_total = match sum_token_amount(app, tx, true) {
        TokenSum::Total(n) => n,
        TokenSum::Invalid => 0,
        TokenSum::Overflow => return None,
    };
    Some(output_total.saturating_sub(input_total))
}

/// Net amount of `app` tokens destroyed: inputs minus outputs, at least zero,
/// with a side that is not a valid sum read as zero. `None` when a sum
/// overflows.
pub fn count_token_burned(tx: &Transaction, app: &AppId) -> (burned: Option<u64>)
    ensures
        burned == burned_amount(app@, tx),
{
    let input_total = match sum_token_amount(app, tx, true) {
        TokenSum::Total(n) => n,
        TokenSum::Invalid => 0,
        TokenSum::Overflow => return None,
    };
    let output_total = match sum_token_amount(app, tx, false) {
        TokenSum::Total(n) => n,
        TokenSum::Invalid => 0,
        TokenSum::Overflow => return None,
    };
    Some(input_total.saturating_sub(output_total))
}

proof fn lemma_first_market_step(values: Seq<CharmEntry>, e: CharmEntry)
    ensures
        first_market(values.push(e)) == match first_market(values) {
            Some(s) => Some(s),
            None => e.market,
        },
{
    assert(values.push(e).drop_last() =~= values);
}

/// The position of the set that holds the first charm under `key` whose data
/// is a market state.
pub open spec fn market_index(key: AppKey, sets: Seq<Seq<CharmEntry>>) -> Option<int>
    decreases sets.len(),
{
    if sets.len() == 0 {
        None
    } else {
        match market_index(key, sets.drop_last()) {
            Some(i) => Some(i),
            None => match lookup(sets.last(), key) {
                Some(e) => if e.market is Some {
                    Some(sets.len() - 1)
                } else {
                    None
                },
                None => None,
            },
        }
    }
}

/// The native coin amounts of one side of a transaction, when known.
pub open spec fn coins_of(tx: &Transaction, inputs: bool) -> Option<Seq<u64>> {
    let coins = if inputs {
        tx.coin_ins
    } else {
        tx.coin_outs
    };
    match coins {
        Some(v) => Some(v@),
        None => None,
    }
}

/// The native coin amount of the UTXO at position `i` on one side.
pub open spec fn coin_amount(tx: &Transaction, inputs: bool, i: int) -> Option<u64> {
    match coins_of(tx, inputs) {
        Some(c) => if 0 <= i < c.len() {
            Some(c[i])
        } else {
            None
        },
        None => None,
    }
}

/// The sats held by the UTXO of the market NFT `key` on one side (the UTXO
/// whose charm under `key` is the market state read on that side).
pub open spec fn market_sats(key: AppKey, tx: &Transaction, inputs: bool) -> Option<u64> {
    match market_index(key, sets_of(tx, inputs)) {
        Some(i) => coin_amount(tx, inputs, i),
        None => None,
    }
}

/// The native coin amount of the UTXO at position `i` on one side, when known.
pub fn coin_at(tx: &Transaction, inputs: bool, i: usize) -> (amount: Option<u64>)
    ensures
        amount == coin_amount(tx, inputs, i as int),
{
    let coins = if inputs {
        &tx.coin_ins
    } else {
        &tx.coin_outs
    };
    match coins {
        Some(v) => if i < v.len() {
            Some(v[i])
        } else {
            None
        },
        None => None,
    }
}

/// The market state in the first charm under `app`, on one side of the
/// transaction, whose data is a market state, with the position of its UTXO.
pub fn find_market_state<'a>(app: &AppId, tx: &'a Transaction, inputs: bool) -> (found: Option<
    (usize, &'a MarketState),
>)
    ensures
        found matches Some((i, s)) ==> market_state_on(app@, tx, inputs) == Some(*s) && market_index(
            app@,
            sets_of(tx, inputs),
        ) == Some(i as int),
        found is None ==> market_state_on(app@, tx, inputs) is None && market_index(
            app@,
            sets_of(tx, inputs),
        ) is None,
{
    let ghost key = app@;
    let ghost sets = sets_of(tx, inputs);
    let n = side_len(tx, inputs);
    let mut i: usize = 0;
    assert(sets.take(0) =~= Seq::<Seq<CharmEntry>>::empty());
    while i < n
        invariant
            n == sets.len(),
            sets == sets_of(tx, inputs),
            key == app@,
            i <= n,
            first_market(charm_values(key, sets.take(i as int))) is None,
            market_index(key, sets.take(i as int)) is None,
        decreases n - i,
    {
        let set = set_at(tx, inputs, i);
        proof {
            lemma_values_step(key, sets, i as int);
            assert(sets.take(i + 1).drop_last() =~= sets.take(i as int));
        }
        match set.get(app) {
            Some(e) => {
                proof {
                    lemma_first_market_step(charm_values(key, sets.take(i as int)), *e);
                }
                match &e.market {
                    Some(state) => {
                        proof {
                            lemma_market_prefix(key, sets, i as int + 1);
                        }
                        return Some((i, state));
                    },
                    None => {},
                }
            },
            None => {},
        }
        i = i + 1;
    }
    assert(sets.take(n as int) =~= sets);
    None
}

/// Once a prefix of the sets holds a market state, the whole side has that
/// same first market state, in the same set.
proof fn lemma_market_prefix(key: AppKey, sets: Seq<Seq<CharmEntry>>, k: int)
    requires
        0 <= k <= sets.len(),
        first_market(charm_values(key, sets.take(k))) is Some,
        market_index(key, sets.take(k)) is Some,
    ensures
        first_market(charm_values(key, sets)) == first_market(charm_values(key, sets.take(k))),
        market_index(key, sets) == market_index(key, sets.take(k)),
    decreases sets.len() - k,
{
    if k < sets.len() {
        lemma_values_step(key, sets, k);
        assert(sets.take(k + 1).drop_last() =~= sets.take(k));
        match lookup(sets[k], key) {
            Some(e) => lemma_first_market_step(charm_values(key, sets.take(k)), e),
            None => {},
        }
        lemma_market_prefix(key, sets, k + 1);
    } else {
        assert(sets.take(k) =~= sets);
    }
}

/// The charm under `app` among the outputs, when exactly one output holds one.
pub fn sole_output_value<'a>(app: &AppId, tx: &'a Transaction) -> (found: Option<&'a CharmEntry>)
    ensures
        found matches Some(e) ==> charm_values(app@, sets_of(tx, false)).len() == 1 && charm_values(
            app@,
            sets_of(tx, false),
        )[0] == *e,
        found is None ==> charm_values(app@, sets_of(tx, false)).len() != 1,
{
    let ghost key = app@;
    let ghost sets = sets_of(tx, false);
    let n = tx.outs.len();
    let mut i: usize = 0;
    let mut count: usize = 0;
    let mut first: Option<&CharmEntry> = None;
    assert(sets.take(0) =~= Seq::<Seq<CharmEntry>>::empty());
    while i < n
        invariant
            n == sets.len(),
            sets == sets_of(tx, false),
            key == app@,
            i <= n,
            count == charm_values(key, sets.take(i as int)).len(),
            count <= i,
            count > 0 ==> (first matches Some(e) && charm_values(key, sets.take(i as int))[0] == *e),
        decreases n - i,
    {
        let set = set_at(tx, false, i);
        proof {
            lemma_values_step(key, sets, i as int);
        }
        match set.get(app) {
            Some(e) => {
                if count == 0 {
                    first = Some(e);
                }
                count = count + 1;
            },
            None => {},
        }
        i = i + 1;
    }
    assert(sets.take(n as int) =~= sets);
    if count == 1 {
        first
    } else {
        None
    }
}

} // verus!
