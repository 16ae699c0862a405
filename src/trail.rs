use vstd::prelude::*;
use crate::geometry::{Vec3, origin};

verus! {

/// The positions the head has left, oldest first.
pub struct Trail {
    entries: Vec<Vec3>,
}

/// The most recent entry, or the origin while nothing was recorded.
pub open spec fn last_or_origin(t: Seq<Vec3>) -> Vec3 {
    if t.len() == 0 {
        origin()
    } else {
        t.last()
    }
}

/// The trail after the head is seen at `p`: `p` is appended unless it equals
/// the most recent entry (the origin, for an empty trail).
pub open spec fn recorded(t: Seq<Vec3>, p: Vec3) -> Seq<Vec3> {
    if last_or_origin(t) == p {
        t
    } else {
        t.push(p)
    }
}

/// The last `n` entries (all of them, if fewer), most recent first.
pub open spec fn recent_spec(t: Seq<Vec3>, n: nat) -> Seq<Vec3> {
    let k = if n < t.len() { n } else { t.len() };
    Seq::new(k, |i: int| t[t.len() - 1 - i])
}

impl View for Trail {
    type V = Seq<Vec3>;

    closed spec fn view(&self) -> Seq<Vec3> {
        self.entries@
    }
}

impl Trail {
    pub fn new() -> (r: Trail)
        ensures
            r@ == Seq::<Vec3>::empty(),
    {
        Trail { entries: Vec::new() }
    }

    /// A trail holding `entries`, oldest first.
    pub fn from_vec(entries: Vec<Vec3>) -> (r: Trail)
        ensures
            r@ == entries@,
    {
        Trail { entries }
    }

    pub fn len(&self) -> (r: usize)
        ensures
            r == self@.len(),
    {
        self.entries.len()
    }

    pub fn get(&self, i: usize) -> (r: Vec3)
        requires
            i < self@.len(),
        ensures
            r == self@[i as int],
    {
        self.entries[i]
    }

    /// The most recent entry, or the origin for an empty trail.
    pub fn last(&self) -> (r: Vec3)
        ensures
            r == last_or_origin(self@),
    {
        let n = self.entries.len();
        if n == 0 {
            Vec3::zero()
        } else {
            self.entries[n - 1]
        }
    }

    /// Records that the head is at `p`; returns whether an entry was appended.
    pub fn record(&mut self, p: Vec3) -> (appended: bool)
        ensures
            final(self)@ == recorded(old(self)@, p),
            appended == (last_or_origin(old(self)@) != p),
    {
        let last = self.last();
        if last != p {
            self.entries.push(p);
            true
        } else {
            false
        }
    }

    /// The last `n` entries (all of them, if fewer), most recent first.
    pub fn recent(&self, n: usize) -> (r: Vec<Vec3>)
        ensures
            r@ == recent_spec(self@, n as nat),
    {
        let len = self.entries.len();
        let k = if n < len { n } else { len };
        let mut out: Vec<Vec3> = Vec::new();
        let mut i: usize = 0;
        while i < k
            invariant
                k <= len == self.entries@.len(),
                i <= k,
                out@ =~= Seq::new(i as nat, |j: int| self.entries@[len - 1 - j]),
            decreases k - i,
        {
            out.push(self.entries[len - 1 - i]);
            i = i + 1;
        }
        assert(out@ =~= recent_spec(self@, n as nat));
        out
    }
}

} // verus!
