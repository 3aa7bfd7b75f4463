use vstd::prelude::*;
use vstd::slice::slice_subrange;

verus! {

/// The size of the staging region, in bytes.
pub const BUFFER_CAPACITY: usize = 65536;

/// A staging region that one owner at a time may lease: the owner reads a
/// chunk into it and writes that chunk out before the lease ends.
pub trait Buffer {
    /// Who holds the lease, if anyone.
    spec fn holder(&self) -> Option<u64>;

    /// How many leading bytes of the region hold the chunk last read.
    spec fn filled(&self) -> nat;

    /// The size of the region.
    spec fn capacity(&self) -> nat;

    /// The bytes of the region.
    spec fn contents(&self) -> Seq<u8>;

    /// Whether the region is in a consistent state.
    spec fn wf(&self) -> bool;

    /// Takes the lease for `owner`, for a read into the region. Fails, and
    /// changes nothing, while another owner holds it.
    fn lease_read(&mut self, owner: u64) -> (r: bool)
        requires
            old(self).wf(),
        ensures
            final(self).wf(),
            final(self).capacity() == old(self).capacity(),
            r == (old(self).holder() is None || old(self).holder() == Some(owner)),
            final(self).contents() == old(self).contents(),
            r ==> final(self).holder() == Some(owner) && final(self).filled() == 0,
            !r ==> final(self).holder() == old(self).holder() && final(self).filled()
                == old(self).filled(),
    ;

    /// Records that `n` bytes landed at the start of the region.
    fn record_read(&mut self, owner: u64, n: usize)
        requires
            old(self).wf(),
            old(self).holder() == Some(owner),
            n <= old(self).capacity(),
        ensures
            final(self).wf(),
            final(self).capacity() == old(self).capacity(),
            final(self).holder() == Some(owner),
            final(self).filled() == n,
            final(self).contents() == old(self).contents(),
    ;

    /// Ends the lease of `owner`, once the chunk has gone out. Does nothing
    /// when `owner` holds no lease.
    fn lease_write(&mut self, owner: u64)
        requires
            old(self).wf(),
        ensures
            final(self).wf(),
            final(self).capacity() == old(self).capacity(),
            final(self).contents() == old(self).contents(),
            old(self).holder() == Some(owner) ==> final(self).holder() is None
                && final(self).filled() == 0,
            old(self).holder() != Some(owner) ==> final(self).holder() == old(self).holder()
                && final(self).filled() == old(self).filled(),
    ;
}

/// The process-wide staging region of the proxy.
pub struct RcBuffer {
    data: Vec<u8>,
    valid: usize,
    owner: Option<u64>,
}

impl RcBuffer {
    /// A region of `BUFFER_CAPACITY` zero bytes, free, holding no chunk.
    pub fn new() -> (r: RcBuffer)
        ensures
            r.wf(),
            r.capacity() == BUFFER_CAPACITY,
            r.holder() is None,
            r.filled() == 0,
            r.contents() == Seq::new(BUFFER_CAPACITY as nat, |i: int| 0u8),
    {
        let mut data: Vec<u8> = Vec::new();
        let mut i: usize = 0;
        while i < BUFFER_CAPACITY
            invariant
                i <= BUFFER_CAPACITY,
                data@ == Seq::new(i as nat, |j: int| 0u8),
            decreases BUFFER_CAPACITY - i,
        {
            data.push(0u8);
            i = i + 1;
            assert(data@ =~= Seq::new(i as nat, |j: int| 0u8));
        }
        RcBuffer { data, valid: 0, owner: None }
    }

    /// Who holds the lease, if anyone.
    pub fn current_holder(&self) -> (r: Option<u64>)
        ensures
            r == self.holder(),
    {
        self.owner
    }

    /// A consistent region is `BUFFER_CAPACITY` bytes long and its chunk
    /// fits in it.
    pub proof fn lemma_wf(&self)
        requires
            self.wf(),
        ensures
            self.contents().len() == self.capacity(),
            self.capacity() == BUFFER_CAPACITY,
            self.filled() <= self.capacity(),
    {
    }

    /// How many leading bytes of the region hold the chunk last read.
    pub fn filled_len(&self) -> (r: usize)
        ensures
            r == self.filled(),
    {
        self.valid
    }

    /// The size of the region.
    pub fn size(&self) -> (r: usize)
        requires
            self.wf(),
        ensures
            r == self.capacity(),
    {
        self.data.len()
    }

    /// The whole region, for a reader to fill.
    pub fn region_mut(&mut self) -> (r: &mut [u8])
        requires
            old(self).wf(),
        ensures
            r@ == old(self).contents(),
            r@.len() == old(self).capacity(),
            final(r)@.len() == old(self).capacity() ==> final(self).wf(),
            final(self).contents() == final(r)@,
            final(self).holder() == old(self).holder(),
            final(self).filled() == old(self).filled(),
    {
        self.data.as_mut_slice()
    }

    /// The chunk last read: the first `filled()` bytes of the region.
    pub fn chunk(&self, start: usize, end: usize) -> (r: &[u8])
        requires
            self.wf(),
            start <= end <= self.filled(),
        ensures
            r@ == self.contents().subrange(start as int, end as int),
            r@.len() == end - start,
    {
        slice_subrange(self.data.as_slice(), start, end)
    }
}

impl Buffer for RcBuffer {
    closed spec fn holder(&self) -> Option<u64> {
        self.owner
    }

    closed spec fn filled(&self) -> nat {
        self.valid as nat
    }

    closed spec fn capacity(&self) -> nat {
        self.data@.len()
    }

    closed spec fn contents(&self) -> Seq<u8> {
        self.data@
    }

    closed spec fn wf(&self) -> bool {
        self.data@.len() == BUFFER_CAPACITY && self.valid <= self.data@.len()
    }

    fn lease_read(&mut self, owner: u64) -> (r: bool) {
        match self.owner {
            Some(o) => {
                if o != owner {
                    return false;
                }
            },
            None => {},
        }
        self.owner = Some(owner);
        self.valid = 0;
        true
    }

    fn record_read(&mut self, owner: u64, n: usize) {
        self.valid = n;
    }

    fn lease_write(&mut self, owner: u64) {
        if self.owner == Some(owner) {
            self.owner = None;
            self.valid = 0;
        }
    }
}

} // verus!
