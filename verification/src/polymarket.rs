//! Prediction-market connector logic: the pagination decisions of the two
//! market clients, and the batch preparation rules of the market sink
//! (deduplication by key, chunking of large inserts).
//!
//! The HTTP calls themselves are I/O and stay outside the library; every
//! decision about where a paginated fetch goes next, and about which rows
//! of a batch reach the store, is made here on plain values.

use vstd::prelude::*;

verus! {

/// How many markets one page request asks for.
pub const PAGE_LIMIT: usize = 500;

/// How many rows one multi-row insert statement carries at most.
pub const INSERT_CHUNK_SIZE: usize = 100;

/// Client for fetching market data from the order-book API.
pub struct PolymarketClient {
    private_key: String,
    request_delay_ms: u64,
}

impl PolymarketClient {
    /// The key used to authenticate against the API.
    pub closed spec fn key(self) -> Seq<char> {
        self.private_key@
    }

    /// The delay between paginated requests, in milliseconds.
    pub closed spec fn delay_ms(self) -> u64 {
        self.request_delay_ms
    }

    /// Creates a client from a private key and a request delay.
    pub fn new(private_key: String, request_delay_ms: u64) -> (c: Self)
        ensures
            c.key() == private_key@,
            c.delay_ms() == request_delay_ms,
    {
        PolymarketClient { private_key, request_delay_ms }
    }

    /// The key used to authenticate against the API.
    pub fn private_key(&self) -> (r: &str)
        ensures
            r@ == self.key(),
    {
        self.private_key.as_str()
    }

    /// The delay between paginated requests, in milliseconds.
    pub fn request_delay_ms(&self) -> (r: u64)
        ensures
            r == self.delay_ms(),
    {
        self.request_delay_ms
    }
}

/// Client for fetching market data from the public query API.
pub struct PolymarketGammaClient {
    request_delay_ms: u64,
    end_date_min: String,
}

impl PolymarketGammaClient {
    /// The delay between paginated requests, in milliseconds.
    pub closed spec fn delay_ms(self) -> u64 {
        self.request_delay_ms
    }

    /// The earliest market end date the client asks for.
    pub closed spec fn end_date(self) -> Seq<char> {
        self.end_date_min@
    }

    /// Creates a client from a request delay and a minimum end date.
    pub fn new(request_delay_ms: u64, end_date_min: String) -> (c: Self)
        ensures
            c.delay_ms() == request_delay_ms,
            c.end_date() == end_date_min@,
    {
        PolymarketGammaClient { request_delay_ms, end_date_min }
    }

    /// The delay between paginated requests, in milliseconds.
    pub fn request_delay_ms(&self) -> (r: u64)
        ensures
            r == self.delay_ms(),
    {
        self.request_delay_ms
    }

    /// The earliest market end date the client asks for.
    pub fn end_date_min(&self) -> (r: &str)
        ensures
            r@ == self.end_date(),
    {
        self.end_date_min.as_str()
    }
}

/// Offset-based pagination: a page that came back shorter than the limit
/// was the last one; a full page is followed by the next offset.
pub fn next_page_offset(offset: usize, received: usize, limit: usize) -> (r: Option<usize>)
    requires
        offset + limit <= usize::MAX,
    ensures
        r == if received < limit {
            None::<usize>
        } else {
            Some((offset + limit) as usize)
        },
{
    if received < limit {
        None
    } else {
        Some(offset + limit)
    }
}

/// What a cursor-based pagination does next.
pub enum CursorAction {
    /// No cursor, or the empty cursor: the last page was reached.
    Stop,
    /// Fetch the next page at this cursor.
    Next(String),
}

/// Cursor-based pagination: a missing or empty `next_cursor` ends the
/// fetch; any other cursor names the next page.
pub fn next_cursor_action(cursor: Option<String>) -> (r: CursorAction)
    ensures
        match cursor {
            Some(c) => if c@.len() == 0 {
                r is Stop
            } else {
                r matches CursorAction::Next(n) && n == c
            },
            None => r is Stop,
        },
{
    match cursor {
        Some(c) => if c.as_str().is_empty() {
            CursorAction::Stop
        } else {
            CursorAction::Next(c)
        },
        None => CursorAction::Stop,
    }
}

/// The keyed rows that an upsert keeps: of the rows that share a key, only
/// the last one survives, standing where that last occurrence stood.
pub open spec fn dedup_last_spec<T>(items: Seq<(String, T)>, i: int) -> Seq<(String, T)>
    decreases items.len() - i,
{
    if i < 0 || i >= items.len() {
        Seq::empty()
    } else if exists|j: int| i < j < items.len() && items[j].0@ == items[i].0@ {
        dedup_last_spec(items, i + 1)
    } else {
        seq![items[i]] + dedup_last_spec(items, i + 1)
    }
}

/// Deduplicates keyed rows for a single upsert statement, keeping for each
/// key exactly the row of its last occurrence, in occurrence order — which
/// is what inserting them one by one with a per-key overwrite would leave.
pub fn dedup_keep_last<T>(items: Vec<(String, T)>) -> (r: Vec<(String, T)>)
    ensures
        r@ == dedup_last_spec(items@, 0),
{
    let ghost orig = items@;
    let mut rest = items;
    let mut r: Vec<(String, T)> = Vec::new();
    let ghost mut i: int = 0;
    loop
        invariant
            orig == items@,
            0 <= i <= orig.len(),
            rest@ == orig.skip(i),
            r@ + dedup_last_spec(orig, i) == dedup_last_spec(orig, 0),
        decreases rest@.len(),
    {
        if rest.len() == 0 {
            proof {
                assert(r@ =~= r@ + dedup_last_spec(orig, i));
            }
            return r;
        }
        let item = rest.remove(0);
        proof {
            assert(item == orig[i]);
            assert(rest@ =~= orig.skip(i + 1));
        }
        let mut found = false;
        let mut j: usize = 0;
        while j < rest.len()
            invariant
                0 <= j <= rest@.len(),
                found <==> exists|k: int| 0 <= k < j && rest@[k].0@ == item.0@,
            decreases rest@.len() - j,
        {
            if rest[j].0 == item.0 {
                found = true;
                proof {
                    assert(rest@[j as int].0@ == item.0@);
                }
            }
            j = j + 1;
        }
        proof {
            assert((exists|k: int| 0 <= k < rest@.len() && rest@[k].0@ == item.0@) <==> (
            exists|m: int| i < m < orig.len() && orig[m].0@ == orig[i].0@)) by {
                if exists|k: int| 0 <= k < rest@.len() && rest@[k].0@ == item.0@ {
                    let k = choose|k: int| 0 <= k < rest@.len() && rest@[k].0@ == item.0@;
                    assert(orig[i + 1 + k] == rest@[k]);
                }
                if exists|m: int| i < m < orig.len() && orig[m].0@ == orig[i].0@ {
                    let m = choose|m: int| i < m < orig.len() && orig[m].0@ == orig[i].0@;
                    assert(rest@[m - i - 1] == orig[m]);
                }
            }
        }
        let ghost r_before = r@;
        if !found {
            r.push(item);
            proof {
                assert(dedup_last_spec(orig, i) =~= seq![orig[i]] + dedup_last_spec(orig, i + 1));
                assert(r@ + dedup_last_spec(orig, i + 1) =~= r_before + dedup_last_spec(orig, i));
            }
        } else {
            proof {
                assert(dedup_last_spec(orig, i) =~= dedup_last_spec(orig, i + 1));
            }
        }
        proof {
            i = i + 1;
        }
    }
}

/// Splits rows into insert-sized chunks: concatenated back together the
/// chunks are exactly the rows, in order; every chunk is at most
/// `chunk_size` long, and only the last one may be shorter.
pub fn chunk_rows<T>(items: Vec<T>, chunk_size: usize) -> (r: Vec<Vec<T>>)
    requires
        chunk_size >= 1,
    ensures
        r@.map_values(|c: Vec<T>| c@).flatten() == items@,
        forall|i: int| 0 <= i < r@.len() ==> 1 <= #[trigger] r@[i]@.len() <= chunk_size,
        forall|i: int| 0 <= i < r@.len() - 1 ==> #[trigger] r@[i]@.len() == chunk_size,
{
    let ghost orig = items@;
    let mut rest = items;
    let mut r: Vec<Vec<T>> = Vec::new();
    loop
        invariant
            orig == items@,
            chunk_size >= 1,
            r@.map_values(|c: Vec<T>| c@).flatten() + rest@ == orig,
            forall|i: int| 0 <= i < r@.len() ==> 1 <= #[trigger] r@[i]@.len() <= chunk_size,
            forall|i: int| 0 <= i < r@.len() - 1 ==> #[trigger] r@[i]@.len() == chunk_size,
            rest@.len() > 0 && r@.len() > 0 ==> r@[r@.len() - 1]@.len() == chunk_size,
        decreases rest@.len(),
    {
        if rest.len() == 0 {
            proof {
                assert(r@.map_values(|c: Vec<T>| c@).flatten() =~= orig);
            }
            return r;
        }
        let mut chunk: Vec<T> = Vec::new();
        let ghost flat_before = r@.map_values(|c: Vec<T>| c@).flatten();
        while chunk.len() < chunk_size && rest.len() > 0
            invariant
                chunk@.len() <= chunk_size,
                flat_before == r@.map_values(|c: Vec<T>| c@).flatten(),
                flat_before + chunk@ + rest@ == orig,
                chunk@.len() == 0 ==> rest@.len() > 0,
            decreases rest@.len(),
        {
            let x = rest.remove(0);
            let ghost chunk_before = chunk@;
            let ghost rest_before_drop = rest@;
            chunk.push(x);
            proof {
                assert(flat_before + chunk@ + rest@ =~= orig);
            }
        }
        let ghost r_before = r@;
        let ghost chunk_view = chunk@;
        r.push(chunk);
        proof {
            assert(r@.map_values(|c: Vec<T>| c@) =~= r_before.map_values(|c: Vec<T>| c@).push(
                chunk_view,
            ));
            r_before.map_values(|c: Vec<T>| c@).lemma_flatten_push(chunk_view);
            assert(r@.map_values(|c: Vec<T>| c@).flatten() + rest@ =~= orig);
        }
    }
}

} // verus!
