//! The connection's state word: twelve flags packed into sixteen bits, seen
//! in contracts as a set of [`Flag`].

use vstd::prelude::*;

verus! {

/// One bit of the state word.
#[derive(Copy, Clone, Debug, PartialEq, Eq, Hash, Structural)]
pub enum Flag {
    /// The head of the filter chain has bytes for the dispatcher.
    RdReady,
    /// The read buffer is above its high watermark: the read pump pauses.
    RdBufFull,
    /// The read side has finished.
    RdShutdown,
    /// The dispatcher waits for the write buffer to drain completely.
    WrWait,
    /// The write buffer is above twice its high watermark: the service stalls.
    WrBackpressure,
    /// A fatal transport error is recorded.
    IoErr,
    /// Graceful shutdown is in progress.
    IoShutdown,
    /// The connection has terminated.
    IoStopped,
    /// The filter chain asks for a shutdown sweep.
    IoFilters,
    /// The dispatcher is asked to stop.
    DspStop,
    /// The keep-alive timer has expired.
    DspKeepalive,
    /// A dispatcher timeout has expired.
    DspTimeout,
}

/// The bit that stands for a flag.
pub open spec fn mask(f: Flag) -> u16 {
    match f {
        Flag::RdReady => 0x0001,
        Flag::RdBufFull => 0x0002,
        Flag::RdShutdown => 0x0004,
        Flag::WrWait => 0x0008,
        Flag::WrBackpressure => 0x0010,
        Flag::IoErr => 0x0020,
        Flag::IoShutdown => 0x0040,
        Flag::IoStopped => 0x0080,
        Flag::IoFilters => 0x0100,
        Flag::DspStop => 0x0200,
        Flag::DspKeepalive => 0x0400,
        Flag::DspTimeout => 0x0800,
    }
}

/// True of the twelve bits in use, one at a time.
pub open spec fn is_bit(m: u16) -> bool {
    m == 0x0001 || m == 0x0002 || m == 0x0004 || m == 0x0008 || m == 0x0010 || m == 0x0020
        || m == 0x0040 || m == 0x0080 || m == 0x0100 || m == 0x0200 || m == 0x0400 || m
        == 0x0800
}

/// The flags whose bits are set in a word.
pub open spec fn flags_of(bits: u16) -> Set<Flag> {
    Set::new(|f: Flag| bits & mask(f) != 0)
}

/// A set of flags, bit-packed.
#[derive(Copy, Clone, Debug)]
pub struct Flags {
    bits: u16,
}

impl View for Flags {
    type V = Set<Flag>;

    closed spec fn view(&self) -> Set<Flag> {
        flags_of(self.bits)
    }
}

proof fn lemma_mask_is_bit(f: Flag)
    ensures
        is_bit(mask(f)),
{
}

proof fn lemma_mask_injective(f: Flag, g: Flag)
    ensures
        mask(f) == mask(g) <==> f == g,
{
}

proof fn lemma_or_bit(bits: u16, a: u16, b: u16)
    requires
        is_bit(a),
        is_bit(b),
    ensures
        ((bits | a) & b != 0) == (a == b || bits & b != 0),
{
    assert(((bits | a) & b != 0) == (a == b || bits & b != 0)) by (bit_vector)
        requires
            a == 0x0001 || a == 0x0002 || a == 0x0004 || a == 0x0008 || a == 0x0010 || a
                == 0x0020 || a == 0x0040 || a == 0x0080 || a == 0x0100 || a == 0x0200 || a
                == 0x0400 || a == 0x0800,
            b == 0x0001 || b == 0x0002 || b == 0x0004 || b == 0x0008 || b == 0x0010 || b
                == 0x0020 || b == 0x0040 || b == 0x0080 || b == 0x0100 || b == 0x0200 || b
                == 0x0400 || b == 0x0800,
    ;
}

proof fn lemma_clear_bit(bits: u16, a: u16, b: u16)
    requires
        is_bit(a),
        is_bit(b),
    ensures
        ((bits & !a) & b != 0) == (a != b && bits & b != 0),
{
    assert(((bits & !a) & b != 0) == (a != b && bits & b != 0)) by (bit_vector)
        requires
            a == 0x0001 || a == 0x0002 || a == 0x0004 || a == 0x0008 || a == 0x0010 || a
                == 0x0020 || a == 0x0040 || a == 0x0080 || a == 0x0100 || a == 0x0200 || a
                == 0x0400 || a == 0x0800,
            b == 0x0001 || b == 0x0002 || b == 0x0004 || b == 0x0008 || b == 0x0010 || b
                == 0x0020 || b == 0x0040 || b == 0x0080 || b == 0x0100 || b == 0x0200 || b
                == 0x0400 || b == 0x0800,
    ;
}

proof fn lemma_or_words(x: u16, y: u16, b: u16)
    ensures
        ((x | y) & b != 0) == (x & b != 0 || y & b != 0),
        b != 0 ==> (0u16 & b == 0),
{
    assert(((x | y) & b != 0) == (x & b != 0 || y & b != 0)) by (bit_vector);
    assert(0u16 & b == 0) by (bit_vector);
}

proof fn lemma_clear_words(x: u16, y: u16, b: u16)
    requires
        is_bit(b),
    ensures
        ((x & !y) & b != 0) == (x & b != 0 && !(y & b != 0)),
{
    assert(((x & !y) & b != 0) == (x & b != 0 && !(y & b != 0))) by (bit_vector)
        requires
            b == 0x0001 || b == 0x0002 || b == 0x0004 || b == 0x0008 || b == 0x0010 || b
                == 0x0020 || b == 0x0040 || b == 0x0080 || b == 0x0100 || b == 0x0200 || b
                == 0x0400 || b == 0x0800,
    ;
}

proof fn lemma_common_bit(x: u16, y: u16)
    ensures
        (x & y & 0x0fff != 0) == (exists|f: Flag| x & mask(f) != 0 && y & mask(f) != 0),
{
    assert((x & y & 0x0fff != 0) == ((x & 0x0001 != 0 && y & 0x0001 != 0) || (x & 0x0002 != 0
        && y & 0x0002 != 0) || (x & 0x0004 != 0 && y & 0x0004 != 0) || (x & 0x0008 != 0 && y
        & 0x0008 != 0) || (x & 0x0010 != 0 && y & 0x0010 != 0) || (x & 0x0020 != 0 && y
        & 0x0020 != 0) || (x & 0x0040 != 0 && y & 0x0040 != 0) || (x & 0x0080 != 0 && y
        & 0x0080 != 0) || (x & 0x0100 != 0 && y & 0x0100 != 0) || (x & 0x0200 != 0 && y
        & 0x0200 != 0) || (x & 0x0400 != 0 && y & 0x0400 != 0) || (x & 0x0800 != 0 && y
        & 0x0800 != 0))) by (bit_vector);
    let both = |f: Flag| x & mask(f) != 0 && y & mask(f) != 0;
    if x & y & 0x0fff != 0 {
        assert(both(Flag::RdReady) || both(Flag::RdBufFull) || both(Flag::RdShutdown) || both(
            Flag::WrWait,
        ) || both(Flag::WrBackpressure) || both(Flag::IoErr) || both(Flag::IoShutdown) || both(
            Flag::IoStopped,
        ) || both(Flag::IoFilters) || both(Flag::DspStop) || both(Flag::DspKeepalive) || both(
            Flag::DspTimeout,
        ));
    }
    if exists|f: Flag| x & mask(f) != 0 && y & mask(f) != 0 {
        let f = choose|f: Flag| x & mask(f) != 0 && y & mask(f) != 0;
        lemma_mask_is_bit(f);
    }
}

impl Flags {
    /// No flag.
    pub fn empty() -> (r: Flags)
        ensures
            r@ == Set::<Flag>::empty(),
    {
        let r = Flags { bits: 0 };
        proof {
            assert forall|f: Flag| !r@.contains(f) by {
                lemma_or_words(0, 0, mask(f));
            }
            assert(r@ =~= Set::<Flag>::empty());
        }
        r
    }

    /// The bit of one flag, as executable code computes it.
    fn bit(f: Flag) -> (m: u16)
        ensures
            m == mask(f),
            is_bit(m),
    {
        match f {
            Flag::RdReady => 0x0001,
            Flag::RdBufFull => 0x0002,
            Flag::RdShutdown => 0x0004,
            Flag::WrWait => 0x0008,
            Flag::WrBackpressure => 0x0010,
            Flag::IoErr => 0x0020,
            Flag::IoShutdown => 0x0040,
            Flag::IoStopped => 0x0080,
            Flag::IoFilters => 0x0100,
            Flag::DspStop => 0x0200,
            Flag::DspKeepalive => 0x0400,
            Flag::DspTimeout => 0x0800,
        }
    }

    /// The set of one flag.
    pub fn of(f: Flag) -> (r: Flags)
        ensures
            r@ == Set::<Flag>::empty().insert(f),
    {
        let mut r = Flags::empty();
        r.insert(f);
        r
    }

    /// Whether `f` is set.
    pub fn contains(&self, f: Flag) -> (r: bool)
        ensures
            r == self@.contains(f),
    {
        self.bits & Flags::bit(f) != 0
    }

    /// Sets `f`.
    pub fn insert(&mut self, f: Flag)
        ensures
            final(self)@ == old(self)@.insert(f),
    {
        let m = Flags::bit(f);
        let ghost before = self.bits;
        self.bits = self.bits | m;
        proof {
            assert forall|g: Flag| self@.contains(g) == old(self)@.insert(f).contains(g) by {
                lemma_mask_is_bit(g);
                lemma_mask_injective(f, g);
                lemma_or_bit(before, m, mask(g));
            }
            assert(self@ =~= old(self)@.insert(f));
        }
    }

    /// Clears `f`.
    pub fn remove(&mut self, f: Flag)
        ensures
            final(self)@ == old(self)@.remove(f),
    {
        let m = Flags::bit(f);
        let ghost before = self.bits;
        self.bits = self.bits & !m;
        proof {
            assert forall|g: Flag| self@.contains(g) == old(self)@.remove(f).contains(g) by {
                lemma_mask_is_bit(g);
                lemma_mask_injective(f, g);
                lemma_clear_bit(before, m, mask(g));
            }
            assert(self@ =~= old(self)@.remove(f));
        }
    }

    /// The flags of either set.
    pub fn union(self, other: Flags) -> (r: Flags)
        ensures
            r@ == self@.union(other@),
    {
        let r = Flags { bits: self.bits | other.bits };
        proof {
            assert forall|g: Flag| r@.contains(g) == self@.union(other@).contains(g) by {
                lemma_or_words(self.bits, other.bits, mask(g));
            }
            assert(r@ =~= self@.union(other@));
        }
        r
    }

    /// Whether some flag of `other` is set.
    pub fn intersects(&self, other: Flags) -> (r: bool)
        ensures
            r == (exists|f: Flag| self@.contains(f) && other@.contains(f)),
    {
        let r = self.bits & other.bits & 0x0fff != 0;
        proof {
            lemma_common_bit(self.bits, other.bits);
            if r {
                let f = choose|f: Flag| self.bits & mask(f) != 0 && other.bits & mask(f) != 0;
                assert(self@.contains(f) && other@.contains(f));
            }
            if exists|f: Flag| self@.contains(f) && other@.contains(f) {
                let f = choose|f: Flag| self@.contains(f) && other@.contains(f);
                assert(self.bits & mask(f) != 0 && other.bits & mask(f) != 0);
            }
        }
        r
    }

    /// Sets every flag of `other`.
    pub fn insert_all(&mut self, other: Flags)
        ensures
            final(self)@ == old(self)@.union(other@),
    {
        let r = self.union(other);
        *self = r;
    }

    /// Clears every flag of `other`.
    pub fn remove_all(&mut self, other: Flags)
        ensures
            final(self)@ == old(self)@.difference(other@),
    {
        let ghost before = self.bits;
        self.bits = self.bits & !other.bits;
        proof {
            assert forall|g: Flag|
                self@.contains(g) == old(self)@.difference(other@).contains(g) by {
                lemma_mask_is_bit(g);
                lemma_clear_words(before, other.bits, mask(g));
            }
            assert(self@ =~= old(self)@.difference(other@));
        }
    }
}

} // verus!
