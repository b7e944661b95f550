//! A bounded list of earlier inputs that the user can scroll through.
use std::collections::VecDeque;
use vstd::prelude::*;

verus! {

/// The last `n` items of `s`, or all of `s` where it holds fewer.
pub open spec fn keep_last(s: Seq<Seq<char>>, n: nat) -> Seq<Seq<char>> {
    if s.len() > n {
        s.subrange(s.len() - n, s.len() as int)
    } else {
        s
    }
}

/// The remainder of `i / n` rounded toward zero: it takes the sign of `i`.
pub open spec fn trunc_rem(i: int, n: int) -> int
    recommends
        n > 0,
{
    if i >= 0 {
        i % n
    } else {
        -((-i) % n)
    }
}

/// The position that `get_index(index)` reads in a list of `len` entries and
/// capacity `cap`: the index is reduced modulo the length (toward zero), and a
/// negative result is shifted up by the capacity.
pub open spec fn history_slot(index: int, len: nat, cap: nat) -> int {
    let r = if len > 0 {
        trunc_rem(index, len as int)
    } else {
        index
    };
    if r < 0 {
        r + cap
    } else {
        r
    }
}

/// Inputs available for the user to scroll through, oldest first, at most
/// `maxlen` of them.
pub struct InputList {
    ilist: VecDeque<String>,
    maxlen: usize,
}

impl InputList {
    /// The entries, oldest first.
    pub closed spec fn entries(&self) -> Seq<Seq<char>> {
        self.ilist@.map_values(|s: String| s@)
    }

    /// The most entries the list keeps.
    pub closed spec fn capacity(&self) -> nat {
        self.maxlen as nat
    }

    /// An empty list that keeps at most `maxlen` entries.
    pub fn new(maxlen: usize) -> (r: Self)
        ensures
            r.entries() == Seq::<Seq<char>>::empty(),
            r.capacity() == maxlen,
    {
        let r = Self { ilist: VecDeque::new(), maxlen };
        assert(r.entries() =~= Seq::<Seq<char>>::empty());
        r
    }

    /// Drops the oldest entries until at most `maxlen` are left.
    fn trim(&mut self)
        ensures
            final(self).entries() == keep_last(old(self).entries(), old(self).capacity()),
            final(self).capacity() == old(self).capacity(),
    {
        let ghost start = self.entries();
        while self.ilist.len() > self.maxlen
            invariant
                self.maxlen == old(self).maxlen,
                start == old(self).entries(),
                self.ilist@.len() >= self.maxlen ==> self.entries() == start.subrange(
                    start.len() - self.ilist@.len(),
                    start.len() as int,
                ),
                self.ilist@.len() < self.maxlen ==> self.entries() == start,
                self.ilist@.len() <= start.len(),
            decreases self.ilist@.len(),
        {
            let ghost before = self.ilist@;
            let _ = self.ilist.pop_front();
            assert(self.entries() =~= before.map_values(|s: String| s@).subrange(
                1,
                before.len() as int,
            ));
        }
        assert(self.ilist@.len() < self.maxlen ==> self.ilist@.len() == start.len());
        assert(start.subrange(0, start.len() as int) =~= start);
    }

    /// Appends `string` as the newest entry; where that makes the list longer
    /// than its capacity, the oldest entries are dropped.
    pub fn add(&mut self, string: &str)
        ensures
            final(self).entries() == keep_last(old(self).entries().push(string@), old(self).capacity()),
            final(self).capacity() == old(self).capacity(),
            final(self).entries().len() <= final(self).capacity(),
    {
        self.ilist.push_back(string.to_owned());
        assert(self.entries() =~= old(self).entries().push(string@));
        self.trim();
    }

    /// The entry at `index`, which may be negative or past the end: see
    /// `history_slot`. `None` where that position holds no entry.
    pub fn get_index(&self, index: i32) -> (r: Option<&String>)
        ensures
            ({
                let slot = history_slot(index as int, self.entries().len(), self.capacity());
                match r {
                    Some(s) => 0 <= slot < self.entries().len() && s@ == self.entries()[slot],
                    None => !(0 <= slot < self.entries().len()),
                }
            }),
    {
        let len = self.ilist.len();
        if len == 0 {
            return None;
        }
        let n = len as u64;
        let mag: u64 = if index >= 0 {
            index as u64
        } else {
            (-(index as i64)) as u64
        };
        let m: u64 = mag % n;
        let slot: usize = if index >= 0 || m == 0 {
            m as usize
        } else if self.maxlen >= m as usize {
            self.maxlen - m as usize
        } else {
            return None;
        };
        if slot < len {
            Some(&self.ilist[slot])
        } else {
            None
        }
    }
}

} // verus!
