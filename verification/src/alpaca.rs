//! Stock-feed batch preparation: the store handles one table per record
//! kind, so a mixed batch is split into its bars, quotes and trades — each
//! group in arrival order, control records dropped — before insertion.

use vstd::prelude::*;

verus! {

/// What kind of record a stock-feed message carries.
#[derive(Clone, Copy, Debug, PartialEq, Eq, Structural)]
pub enum AlpacaRecordKind {
    /// One bar of market data.
    Bar,
    /// One quote (bid/ask pair).
    Quote,
    /// One trade print.
    Trade,
    /// A control message (connection status, subscription state): nothing
    /// to store.
    Control,
}

/// The records of one kind in a tagged batch, in arrival order.
pub open spec fn records_of<T>(items: Seq<(AlpacaRecordKind, T)>, kind: AlpacaRecordKind) -> Seq<
    T,
> {
    items.filter(|p: (AlpacaRecordKind, T)| p.0 == kind).map_values(
        |p: (AlpacaRecordKind, T)| p.1,
    )
}

/// Splits a tagged batch into its bars, quotes and trades, each group in
/// arrival order; control records are dropped.
pub fn partition_records<T>(items: Vec<(AlpacaRecordKind, T)>) -> (r: (Vec<T>, Vec<T>, Vec<T>))
    ensures
        r.0@ == records_of(items@, AlpacaRecordKind::Bar),
        r.1@ == records_of(items@, AlpacaRecordKind::Quote),
        r.2@ == records_of(items@, AlpacaRecordKind::Trade),
{
    let ghost orig = items@;
    let mut rest = items;
    let mut bars: Vec<T> = Vec::new();
    let mut quotes: Vec<T> = Vec::new();
    let mut trades: Vec<T> = Vec::new();
    let ghost mut i: int = 0;
    proof {
        assert(orig.take(0) =~= Seq::<(AlpacaRecordKind, T)>::empty());
        lemma_records_of_empty::<T>(AlpacaRecordKind::Bar);
        lemma_records_of_empty::<T>(AlpacaRecordKind::Quote);
        lemma_records_of_empty::<T>(AlpacaRecordKind::Trade);
    }
    loop
        invariant
            orig == items@,
            0 <= i <= orig.len(),
            rest@ == orig.skip(i),
            bars@ == records_of(orig.take(i), AlpacaRecordKind::Bar),
            quotes@ == records_of(orig.take(i), AlpacaRecordKind::Quote),
            trades@ == records_of(orig.take(i), AlpacaRecordKind::Trade),
        decreases rest@.len(),
    {
        if rest.len() == 0 {
            proof {
                assert(orig.take(i) =~= orig);
            }
            return (bars, quotes, trades);
        }
        let item = rest.remove(0);
        proof {
            assert(item == orig[i]);
            assert(rest@ =~= orig.skip(i + 1));
            lemma_records_of_step(orig, i, AlpacaRecordKind::Bar);
            lemma_records_of_step(orig, i, AlpacaRecordKind::Quote);
            lemma_records_of_step(orig, i, AlpacaRecordKind::Trade);
        }
        match item.0 {
            AlpacaRecordKind::Bar => bars.push(item.1),
            AlpacaRecordKind::Quote => quotes.push(item.1),
            AlpacaRecordKind::Trade => trades.push(item.1),
            AlpacaRecordKind::Control => {},
        }
        proof {
            i = i + 1;
        }
    }
}

/// No records of any kind stand in an empty batch.
proof fn lemma_records_of_empty<T>(kind: AlpacaRecordKind)
    ensures
        records_of(Seq::<(AlpacaRecordKind, T)>::empty(), kind) == Seq::<T>::empty(),
{
    reveal(Seq::filter);
    assert(records_of(Seq::<(AlpacaRecordKind, T)>::empty(), kind) =~= Seq::<T>::empty());
}

/// One more tagged record extends exactly the group of its own kind.
proof fn lemma_records_of_step<T>(items: Seq<(AlpacaRecordKind, T)>, i: int, kind: AlpacaRecordKind)
    requires
        0 <= i < items.len(),
    ensures
        items[i].0 == kind ==> records_of(items.take(i + 1), kind) == records_of(
            items.take(i),
            kind,
        ).push(items[i].1),
        items[i].0 != kind ==> records_of(items.take(i + 1), kind) == records_of(
            items.take(i),
            kind,
        ),
{
    reveal(Seq::filter);
    let pred = |p: (AlpacaRecordKind, T)| p.0 == kind;
    let proj = |p: (AlpacaRecordKind, T)| p.1;
    assert(items.take(i + 1).drop_last() =~= items.take(i));
    assert(items.take(i + 1).last() == items[i]);
    if items[i].0 == kind {
        assert(items.take(i + 1).filter(pred) == items.take(i).filter(pred).push(items[i]));
        assert(items.take(i + 1).filter(pred).map_values(proj) =~= items.take(i).filter(
            pred,
        ).map_values(proj).push(items[i].1));
    } else {
        assert(items.take(i + 1).filter(pred) == items.take(i).filter(pred));
    }
}

} // verus!
