//! The data source boundary: the record layout shared with the foreign side
//! and the bounded, sentinel-terminated decoding of what it returns.

use vstd::prelude::*;

verus! {

/// Most records that are ever examined in one foreign response.
pub const MAX_BUFFS: usize = 50;

/// One record of the foreign array: a buff identifier and its stack count.
/// The identifier zero is reserved: it ends the list.
#[derive(Clone, Copy, Debug, PartialEq, Eq, Structural)]
pub struct MyBoons {
    pub id: u32,
    pub count: i32,
}

/// Why the data source gave no snapshot.
#[derive(Clone, Copy, Debug, PartialEq, Eq, Structural)]
pub enum AdapterError {
    /// The foreign entry point is missing. This never changes while the
    /// process lives.
    Unavailable,
    /// No record with identifier zero stands among the records examined.
    MalformedResponse,
}

/// The list in `items` ends at index `n`: record `n` is the first one whose
/// identifier is zero, and it stands among the first `MAX_BUFFS` records.
pub open spec fn ends_at(items: Seq<MyBoons>, n: int) -> bool {
    &&& 0 <= n < items.len()
    &&& n < MAX_BUFFS
    &&& items[n].id == 0
    &&& forall|j: int| 0 <= j < n ==> (#[trigger] items[j]).id != 0
}

/// `items` holds an end marker within the bound.
pub open spec fn terminated(items: Seq<MyBoons>) -> bool {
    exists|n: int| ends_at(items, n)
}

/// The index of the end marker of a terminated list.
pub open spec fn sentinel_index(items: Seq<MyBoons>) -> int {
    choose|n: int| ends_at(items, n)
}

/// What decoding `items` yields: the records in front of the end marker, or
/// `MalformedResponse` where there is no end marker within the bound.
pub open spec fn decoded(items: Seq<MyBoons>) -> Result<Seq<MyBoons>, AdapterError> {
    if terminated(items) {
        Ok(items.take(sentinel_index(items)))
    } else {
        Err(AdapterError::MalformedResponse)
    }
}

/// A list ends at one index at most.
pub proof fn lemma_end_unique(items: Seq<MyBoons>, a: int, b: int)
    requires
        ends_at(items, a),
        ends_at(items, b),
    ensures
        a == b,
{
    if a < b {
        assert(items[a].id != 0);
    } else if b < a {
        assert(items[b].id != 0);
    }
}

/// Where a list ends at `n`, `n` is its sentinel index and decoding gives the
/// `n` records in front of it.
pub proof fn lemma_ends_at_decoded(items: Seq<MyBoons>, n: int)
    requires
        ends_at(items, n),
    ensures
        terminated(items),
        sentinel_index(items) == n,
        decoded(items) == Ok::<Seq<MyBoons>, AdapterError>(items.take(n)),
{
    lemma_end_unique(items, sentinel_index(items), n);
}

/// Counts the records in front of the end marker. Only the first `MAX_BUFFS`
/// records are examined; a response without an end marker among them is
/// refused rather than cut short.
pub fn get_len(items: &[MyBoons]) -> (r: Result<usize, AdapterError>)
    ensures
        match r {
            Ok(n) => ends_at(items@, n as int),
            Err(e) => e == AdapterError::MalformedResponse && !terminated(items@),
        },
{
    let mut len: usize = 0;
    while len < items.len() && len < MAX_BUFFS
        invariant
            len <= items.len(),
            len <= MAX_BUFFS,
            forall|j: int| 0 <= j < len ==> (#[trigger] items@[j]).id != 0,
        decreases items.len() - len,
    {
        if items[len].id == 0 {
            return Ok(len);
        }
        len += 1;
    }
    proof {
        assert forall|n: int| !ends_at(items@, n) by {
            if 0 <= n < items@.len() && n < MAX_BUFFS {
                assert(items@[n].id != 0);
            }
        }
    }
    Err(AdapterError::MalformedResponse)
}

/// Decodes one foreign response: the records in front of the end marker, in
/// the order in which they stand, or `MalformedResponse`.
pub fn decode(items: &[MyBoons]) -> (r: Result<Vec<MyBoons>, AdapterError>)
    ensures
        snapshot_of(r) == decoded(items@),
{
    match get_len(items) {
        Err(e) => Err(e),
        Ok(len) => {
            let mut live: Vec<MyBoons> = Vec::new();
            let mut i: usize = 0;
            while i < len
                invariant
                    i <= len < items.len(),
                    live@ == items@.take(i as int),
                decreases len - i,
            {
                live.push(items[i]);
                i += 1;
                assert(items@.take(i as int) == items@.take(i - 1).push(items@[i - 1]));
            }
            proof {
                lemma_ends_at_decoded(items@, len as int);
            }
            Ok(live)
        },
    }
}

/// The data source as the polling side sees it. Whether the foreign entry
/// point could be had is decided once, when the value is made, and never
/// again.
#[derive(Clone, Copy, Debug)]
pub struct DataSource {
    available: bool,
}

/// What one poll of the source gives: `Unavailable` where the entry point is
/// missing, whatever the response holds, else the decoding of the response.
pub open spec fn poll_result(available: bool, response: Seq<MyBoons>) -> Result<
    Seq<MyBoons>,
    AdapterError,
> {
    if available {
        decoded(response)
    } else {
        Err(AdapterError::Unavailable)
    }
}

impl DataSource {
    /// Whether the foreign entry point can be called.
    pub closed spec fn available(self) -> bool {
        self.available
    }

    /// The source is available exactly where the library was loaded and the
    /// entry point was found in it.
    pub fn new(library_loaded: bool, entry_resolved: bool) -> (source: Self)
        ensures
            source.available() == (library_loaded && entry_resolved),
    {
        DataSource { available: library_loaded && entry_resolved }
    }

    /// Whether the foreign entry point can be called.
    pub fn is_available(&self) -> (b: bool)
        ensures
            b == self.available(),
    {
        self.available
    }

    /// Turns the records that the foreign call returned into a snapshot.
    /// Nothing is kept from one call to the next.
    pub fn poll(&self, response: &[MyBoons]) -> (r: Result<Vec<MyBoons>, AdapterError>)
        ensures
            snapshot_of(r) == poll_result(self.available(), response@),
    {
        if !self.available {
            return Err(AdapterError::Unavailable);
        }
        decode(response)
    }
}

/// The outcome of a poll with the snapshot taken as a sequence.
pub open spec fn snapshot_of(polled: Result<Vec<MyBoons>, AdapterError>) -> Result<
    Seq<MyBoons>,
    AdapterError,
> {
    match polled {
        Ok(v) => Ok(v@),
        Err(e) => Err(e),
    }
}

} // verus!
