//! The packet buffer: the bytes of one frame and the room in front of it.
use vstd::prelude::*;

verus! {

/// A frame being processed. Its head can grow into `headroom` or shrink,
/// which invalidates every offset computed before.
pub struct Packet {
    pub data: Vec<u8>,
    pub headroom: usize,
}

impl Packet {
    pub fn new(data: Vec<u8>, headroom: usize) -> (r: Packet)
        ensures
            r.data@ == data@,
            r.headroom == headroom,
    {
        Packet { data, headroom }
    }

    /// Current length of the frame.
    pub fn len(&self) -> (r: usize)
        ensures
            r == self.data@.len(),
    {
        self.data.len()
    }

    /// Prepends `n` zero bytes taken from the headroom. Fails, leaving the
    /// packet unchanged, when the headroom is smaller than `n` or the frame
    /// would no longer fit in memory.
    pub fn grow_head(&mut self, n: usize) -> (ok: bool)
        ensures
            ok == (n <= old(self).headroom && old(self).data@.len() + n <= usize::MAX),
            ok ==> final(self).data@ == Seq::new(n as nat, |i: int| 0u8) + old(self).data@,
            ok ==> final(self).headroom == old(self).headroom - n,
            !ok ==> *final(self) == *old(self),
    {
        if n > self.headroom || n > usize::MAX - self.data.len() {
            return false;
        }
        let mut v: Vec<u8> = Vec::with_capacity(n + self.data.len());
        let mut i: usize = 0;
        while i < n
            invariant
                i <= n,
                v@ == Seq::new(i as nat, |k: int| 0u8),
            decreases n - i,
        {
            v.push(0u8);
            i = i + 1;
            assert(v@ =~= Seq::new(i as nat, |k: int| 0u8));
        }
        let ghost prefix = v@;
        let mut j: usize = 0;
        while j < self.data.len()
            invariant
                j <= self.data@.len(),
                prefix == Seq::new(n as nat, |k: int| 0u8),
                v@ == prefix + self.data@.subrange(0, j as int),
            decreases self.data@.len() - j,
        {
            v.push(self.data[j]);
            j = j + 1;
            assert(v@ =~= prefix + self.data@.subrange(0, j as int));
        }
        assert(self.data@.subrange(0, self.data@.len() as int) =~= self.data@);
        self.data = v;
        self.headroom = self.headroom - n;
        true
    }

    /// Removes the first `n` bytes, returning them to the headroom. Fails,
    /// leaving the packet unchanged, when fewer than an Ethernet header's
    /// worth of bytes would remain.
    pub fn shrink_head(&mut self, n: usize) -> (ok: bool)
        ensures
            ok == (n as nat + crate::wire::ETH_HDR_LEN <= old(self).data@.len()
                && old(self).headroom + n <= usize::MAX),
            ok ==> final(self).data@ == old(self).data@.subrange(n as int, old(self).data@.len() as int),
            ok ==> final(self).headroom == old(self).headroom + n,
            !ok ==> *final(self) == *old(self),
    {
        if self.data.len() < crate::wire::ETH_HDR_LEN || n > self.data.len() - crate::wire::ETH_HDR_LEN
            || n > usize::MAX - self.headroom {
            return false;
        }
        let mut v: Vec<u8> = Vec::with_capacity(self.data.len() - n);
        let mut j: usize = n;
        while j < self.data.len()
            invariant
                n <= j <= self.data@.len(),
                v@ == self.data@.subrange(n as int, j as int),
            decreases self.data@.len() - j,
        {
            v.push(self.data[j]);
            j = j + 1;
            assert(v@ =~= self.data@.subrange(n as int, j as int));
        }
        self.data = v;
        self.headroom = self.headroom + n;
        true
    }
}

} // verus!
