//! Readiness nodes packed into a single word.
//!
//! A readiness node of a cross-thread readiness queue keeps its whole state
//! in one `usize`, so that it can be read and updated atomically: the current
//! readiness, the interests, the poll options, two token slot positions, and
//! the queued and dropped flags. [`ReadinessState`] reads and writes these
//! fields; each setter changes its own field and no other.
//!
//! | bits  | field                 |
//! |-------|-----------------------|
//! | 0-7   | readiness             |
//! | 8-15  | interests             |
//! | 16-19 | poll options          |
//! | 20-21 | token read position   |
//! | 22-23 | token write position  |
//! | 24    | queued                |
//! | 25    | dropped               |

use vstd::prelude::*;

use crate::poll::token::Token;

verus! {

/// Mask of a two bit field.
pub const MASK_2: usize = 3;

/// Mask of a four bit field.
pub const MASK_4: usize = 15;

/// Mask of an eight bit field.
pub const MASK_8: usize = 255;

/// Shift of the readiness field.
pub const READINESS_SHIFT: usize = 0;

/// Shift of the interests field.
pub const INTEREST_SHIFT: usize = 8;

/// Shift of the poll options field.
pub const POLL_OPT_SHIFT: usize = 16;

/// Shift of the token read position.
pub const TOKEN_RD_SHIFT: usize = 20;

/// Shift of the token write position.
pub const TOKEN_WR_SHIFT: usize = 22;

/// Shift of the queued flag.
pub const QUEUED_SHIFT: usize = 24;

/// Shift of the dropped flag.
pub const DROPPED_SHIFT: usize = 25;

/// The queued flag.
pub const QUEUED_MASK: usize = 0x100_0000;

/// The dropped flag.
pub const DROPPED_MASK: usize = 0x200_0000;

/// Bit of readable readiness.
pub const READABLE: u8 = 1;

/// Bit of writable readiness.
pub const WRITABLE: u8 = 2;

/// Bit of error readiness.
pub const ERROR: u8 = 4;

/// Bit of hup readiness.
pub const HUP: u8 = 16;

/// Bit of AIO completion readiness.
pub const AIO: u8 = 32;

/// Bit of LIO completion readiness.
pub const LIO: u8 = 64;

/// All readiness bits.
pub const READY_ALL: u8 = 0x77;

/// Bit of edge-triggered notifications.
pub const EDGE: u8 = 1;

/// Bit of level-triggered notifications.
pub const LEVEL: u8 = 2;

/// Bit of oneshot notifications.
pub const ONESHOT: u8 = 4;

/// All poll option bits.
pub const OPT_ALL: u8 = 7;

/// The values of the flags, masked by the sets of all flags.
pub proof fn lemma_flag_values()
    ensures
        1u8 & 0x77u8 == 1u8,
        2u8 & 0x77u8 == 2u8,
        4u8 & 0x77u8 == 4u8,
        16u8 & 0x77u8 == 16u8,
        32u8 & 0x77u8 == 32u8,
        64u8 & 0x77u8 == 64u8,
        0u8 & 7u8 == 0u8,
        1u8 & 7u8 == 1u8,
        2u8 & 7u8 == 2u8,
        4u8 & 7u8 == 4u8,
{
    assert(1u8 & 0x77u8 == 1u8 && 2u8 & 0x77u8 == 2u8 && 4u8 & 0x77u8 == 4u8 && 16u8 & 0x77u8 == 16u8
        && 32u8 & 0x77u8 == 32u8 && 64u8 & 0x77u8 == 64u8 && 0u8 & 7u8 == 0u8 && 1u8 & 7u8 == 1u8
        && 2u8 & 7u8 == 2u8 && 4u8 & 7u8 == 4u8) by (bit_vector);
}

/// Masking a value that holds no bits outside the mask changes nothing.
pub proof fn lemma_and_within(a: u8, b: u8, m: u8)
    requires
        a & !m == 0,
    ensures
        (a & b) & m == a & b,
{
    assert(a & !m == 0 ==> (a & b) & m == a & b) by (bit_vector);
}

/// A set of readiness event kinds of a readiness node, as bit flags.
#[derive(Copy, Clone, PartialEq, Eq, Structural, PartialOrd, Ord, Hash, Debug)]
pub struct Ready(u8);

impl Ready {
    /// The raw bits.
    pub closed spec fn bits_spec(self) -> u8 {
        self.0
    }

    /// Only known flags are set.
    #[verifier::type_invariant]
    closed spec fn wf(self) -> bool {
        self.0 & !READY_ALL == 0
    }

    /// The empty set.
    pub fn empty() -> (r: Ready)
        ensures
            r.bits_spec() == 0,
    {
        assert(0u8 & !0x77u8 == 0u8) by (bit_vector);
        Ready(0)
    }

    /// Readable readiness.
    pub fn readable() -> (r: Ready)
        ensures
            r.bits_spec() == READABLE,
    {
        proof {
            lemma_flag_values();
        }
        Ready::from_bits_truncate(READABLE)
    }

    /// Writable readiness.
    pub fn writable() -> (r: Ready)
        ensures
            r.bits_spec() == WRITABLE,
    {
        proof {
            lemma_flag_values();
        }
        Ready::from_bits_truncate(WRITABLE)
    }

    /// Error readiness.
    pub fn error() -> (r: Ready)
        ensures
            r.bits_spec() == ERROR,
    {
        proof {
            lemma_flag_values();
        }
        Ready::from_bits_truncate(ERROR)
    }

    /// Hup readiness, Unix specific.
    pub fn hup() -> (r: Ready)
        ensures
            r.bits_spec() == HUP,
    {
        proof {
            lemma_flag_values();
        }
        Ready::from_bits_truncate(HUP)
    }

    /// AIO completion readiness, specific to the BSD family.
    pub fn aio() -> (r: Ready)
        ensures
            r.bits_spec() == AIO,
    {
        proof {
            lemma_flag_values();
        }
        Ready::from_bits_truncate(AIO)
    }

    /// LIO completion readiness, specific to DragonFly and FreeBSD.
    pub fn lio() -> (r: Ready)
        ensures
            r.bits_spec() == LIO,
    {
        proof {
            lemma_flag_values();
        }
        Ready::from_bits_truncate(LIO)
    }

    /// The set of the known flags of `bits`; other bits are dropped.
    pub fn from_bits_truncate(bits: u8) -> (r: Ready)
        ensures
            r.bits_spec() == bits & READY_ALL,
    {
        assert((bits & 0x77u8) & !0x77u8 == 0u8) by (bit_vector);
        Ready(bits & READY_ALL)
    }

    /// The raw bits.
    pub fn bits(self) -> (b: u8)
        ensures
            b == self.bits_spec(),
    {
        self.0
    }

    /// Whether the set is empty.
    pub fn is_empty(self) -> (r: bool)
        ensures
            r == (self.bits_spec() == 0),
    {
        self.0 == 0
    }

    /// Whether all flags of `other` are in `self`.
    pub fn contains(self, other: Ready) -> (r: bool)
        ensures
            r == (self.bits_spec() & other.bits_spec() == other.bits_spec()),
    {
        self.0 & other.0 == other.0
    }

    /// The flags of both sets.
    pub fn intersection(self, other: Ready) -> (r: Ready)
        ensures
            r.bits_spec() == self.bits_spec() & other.bits_spec(),
    {
        proof {
            use_type_invariant(self);
            lemma_and_within(self.0, other.0, READY_ALL);
        }
        Ready::from_bits_truncate(self.0 & other.0)
    }

    /// Returns true if the value includes readable readiness.
    pub fn is_readable(self) -> (r: bool)
        ensures
            r == (self.bits_spec() & READABLE == READABLE),
    {
        self.contains(Ready::readable())
    }

    /// Returns true if the value includes writable readiness.
    pub fn is_writable(self) -> (r: bool)
        ensures
            r == (self.bits_spec() & WRITABLE == WRITABLE),
    {
        self.contains(Ready::writable())
    }

    /// Returns true if the value includes error readiness.
    pub fn is_error(self) -> (r: bool)
        ensures
            r == (self.bits_spec() & ERROR == ERROR),
    {
        self.contains(Ready::error())
    }

    /// Returns true if the value includes hup readiness.
    pub fn is_hup(self) -> (r: bool)
        ensures
            r == (self.bits_spec() & HUP == HUP),
    {
        self.contains(Ready::hup())
    }

    /// Returns true if the value includes AIO completion readiness.
    pub fn is_aio(self) -> (r: bool)
        ensures
            r == (self.bits_spec() & AIO == AIO),
    {
        self.contains(Ready::aio())
    }

    /// Returns true if the value includes LIO completion readiness.
    pub fn is_lio(self) -> (r: bool)
        ensures
            r == (self.bits_spec() & LIO == LIO),
    {
        self.contains(Ready::lio())
    }
}

/// Options supplied when registering a handle, as bit flags.
#[derive(Copy, Clone, PartialEq, Eq, Structural, PartialOrd, Ord, Hash, Debug)]
pub struct PollOpt(u8);

impl PollOpt {
    /// The raw bits.
    pub closed spec fn bits_spec(self) -> u8 {
        self.0
    }

    /// Only known flags are set.
    #[verifier::type_invariant]
    closed spec fn wf(self) -> bool {
        self.0 & !OPT_ALL == 0
    }

    /// No options.
    pub fn empty() -> (o: PollOpt)
        ensures
            o.bits_spec() == 0,
    {
        proof {
            lemma_flag_values();
        }
        PollOpt::from_bits_truncate(0)
    }

    /// Edge-triggered notifications.
    pub fn edge() -> (o: PollOpt)
        ensures
            o.bits_spec() == EDGE,
    {
        proof {
            lemma_flag_values();
        }
        PollOpt::from_bits_truncate(EDGE)
    }

    /// Level-triggered notifications.
    pub fn level() -> (o: PollOpt)
        ensures
            o.bits_spec() == LEVEL,
    {
        proof {
            lemma_flag_values();
        }
        PollOpt::from_bits_truncate(LEVEL)
    }

    /// Oneshot notifications.
    pub fn oneshot() -> (o: PollOpt)
        ensures
            o.bits_spec() == ONESHOT,
    {
        proof {
            lemma_flag_values();
        }
        PollOpt::from_bits_truncate(ONESHOT)
    }

    /// The options of the known flags of `bits`; other bits are dropped.
    pub fn from_bits_truncate(bits: u8) -> (o: PollOpt)
        ensures
            o.bits_spec() == bits & OPT_ALL,
    {
        assert((bits & 7u8) & !7u8 == 0u8) by (bit_vector);
        PollOpt(bits & OPT_ALL)
    }

    /// The raw bits.
    pub fn bits(self) -> (b: u8)
        ensures
            b == self.bits_spec(),
    {
        self.0
    }

    /// Whether all flags of `other` are in `self`.
    pub fn contains(self, other: PollOpt) -> (r: bool)
        ensures
            r == (self.bits_spec() & other.bits_spec() == other.bits_spec()),
    {
        self.0 & other.0 == other.0
    }

    /// Returns true if the options include edge-triggered notifications.
    pub fn is_edge(&self) -> (r: bool)
        ensures
            r == (self.bits_spec() & EDGE == EDGE),
    {
        self.contains(PollOpt::edge())
    }

    /// Returns true if the options include level-triggered notifications.
    pub fn is_level(&self) -> (r: bool)
        ensures
            r == (self.bits_spec() & LEVEL == LEVEL),
    {
        self.contains(PollOpt::level())
    }

    /// Returns true if the options include oneshot notifications.
    pub fn is_oneshot(&self) -> (r: bool)
        ensures
            r == (self.bits_spec() & ONESHOT == ONESHOT),
    {
        self.contains(PollOpt::oneshot())
    }
}

} // verus!

verus! {

/// The field of `v` under `mask` at `shift`.
pub open spec fn field(v: usize, mask: usize, shift: usize) -> usize {
    (v >> shift) & mask
}

/// `v` with the field under `mask` at `shift` replaced by `val`.
pub open spec fn with_field(v: usize, val: usize, mask: usize, shift: usize) -> usize {
    (v & !(mask << shift)) | (val << shift)
}

/// Writing a field stores the value in it and leaves the bits outside it as
/// they were.
pub proof fn lemma_with_field(v: usize, val: usize, w: usize, shift: usize, w2: usize, shift2: usize)
    requires
        1 <= w <= 8,
        1 <= w2 <= 8,
        shift + w <= 26,
        shift2 + w2 <= 26,
        val < (1usize << w),
        shift + w <= shift2 || shift2 + w2 <= shift,
    ensures
        field(with_field(v, val, ((1usize << w) - 1) as usize, shift), ((1usize << w) - 1) as usize, shift) == val,
        field(with_field(v, val, ((1usize << w) - 1) as usize, shift), ((1usize << w2) - 1) as usize, shift2)
            == field(v, ((1usize << w2) - 1) as usize, shift2),
        with_field(v, val, ((1usize << w) - 1) as usize, shift) >> 26usize == v >> 26usize,
{
    let m = ((1usize << w) - 1) as usize;
    let m2 = ((1usize << w2) - 1) as usize;
    let r = (v & !(m << shift)) | (val << shift);
    assert(((r >> shift) & m) == val && ((r >> shift2) & m2) == ((v >> shift2) & m2) && (r >> 26usize)
        == (v >> 26usize)) by (bit_vector)
        requires
            1 <= w <= 8,
            1 <= w2 <= 8,
            shift + w <= 26,
            shift2 + w2 <= 26,
            val < (1usize << w),
            shift + w <= shift2 || shift2 + w2 <= shift,
            m == ((1usize << w) - 1) as usize,
            m2 == ((1usize << w2) - 1) as usize,
            r == (v & !(m << shift)) | (val << shift),
    ;
}

} // verus!

verus! {

/// The masks of the fields are `2^width - 1`.
pub proof fn lemma_masks()
    ensures
        ((1usize << 8usize) - 1) as usize == MASK_8,
        ((1usize << 4usize) - 1) as usize == MASK_4,
        ((1usize << 2usize) - 1) as usize == MASK_2,
        ((1usize << 1usize) - 1) as usize == 1usize,
        1usize << 8usize == 256usize,
        1usize << 4usize == 16usize,
        1usize << 2usize == 4usize,
        1usize << 1usize == 2usize,
{
    assert(((1usize << 8usize) - 1) as usize == 255usize && ((1usize << 4usize) - 1) as usize == 15usize && ((
    1usize << 2usize) - 1) as usize == 3usize && ((1usize << 1usize) - 1) as usize == 1usize && 1usize
        << 8usize == 256usize && 1usize << 4usize == 16usize && 1usize << 2usize == 4usize && 1usize
        << 1usize == 2usize) by (bit_vector);
}

/// Facts of the flag fields: setting and clearing a flag writes the one bit
/// field, the flag is set exactly when its field is one, and the empty word
/// has every field zero.
pub proof fn lemma_flags(v: usize, s: usize)
    requires
        s == 24 || s == 25,
    ensures
        v | (1usize << s) == with_field(v, 1, 1, s),
        v & !(1usize << s) == with_field(v, 0, 1, s),
        (v & (1usize << s) == (1usize << s)) == (field(v, 1, s) == 1),
        1usize << 24usize == QUEUED_MASK,
        1usize << 25usize == DROPPED_MASK,
        field(0, 255, 0) == 0,
        field(0, 255, 8) == 0,
        field(0, 15, 16) == 0,
        field(0, 3, 20) == 0,
        field(0, 3, 22) == 0,
        field(0, 1, 24) == 0,
        field(0, 1, 25) == 0,
        0usize >> 26usize == 0,
{
    assert(v | (1usize << s) == (v & !(1usize << s)) | (1usize << s) && v & !(1usize << s) == (v & !(1usize
        << s)) | (0usize << s) && ((v & (1usize << s) == (1usize << s)) == (((v >> s) & 1usize) == 1usize))
        && 1usize << 24usize == 0x100_0000usize && 1usize << 25usize == 0x200_0000usize && (0usize
        >> 0usize) & 255usize == 0usize && (0usize >> 8usize) & 255usize == 0usize && (0usize >> 16usize)
        & 15usize == 0usize && (0usize >> 20usize) & 3usize == 0usize && (0usize >> 22usize) & 3usize
        == 0usize && (0usize >> 24usize) & 1usize == 0usize && (0usize >> 25usize) & 1usize == 0usize
        && 0usize >> 26usize == 0usize) by (bit_vector)
        requires
            s == 24 || s == 25,
    ;
}

/// The fields of a packed readiness state.
#[derive(Copy, Clone, PartialEq, Eq, Structural, Debug)]
pub struct Fields {
    /// Current readiness, bits 0-7.
    pub readiness: usize,
    /// Interests, bits 8-15.
    pub interest: usize,
    /// Poll options, bits 16-19.
    pub opt: usize,
    /// Token read position, bits 20-21.
    pub rd: usize,
    /// Token write position, bits 22-23.
    pub wr: usize,
    /// Queued flag, bit 24.
    pub queued: usize,
    /// Dropped flag, bit 25.
    pub dropped: usize,
    /// The bits above, 26 and up.
    pub high: usize,
}

/// The fields of the word `v`.
pub open spec fn fields_of(v: usize) -> Fields {
    Fields {
        readiness: field(v, MASK_8, READINESS_SHIFT),
        interest: field(v, MASK_8, INTEREST_SHIFT),
        opt: field(v, MASK_4, POLL_OPT_SHIFT),
        rd: field(v, MASK_2, TOKEN_RD_SHIFT),
        wr: field(v, MASK_2, TOKEN_WR_SHIFT),
        queued: field(v, 1, QUEUED_SHIFT),
        dropped: field(v, 1, DROPPED_SHIFT),
        high: v >> 26usize,
    }
}

/// The unused token slot given the read position `rd` and the write
/// position `wr`.
pub open spec fn next_token_pos_spec(rd: usize, wr: usize) -> usize {
    if wr == 0 {
        if rd == 1 { 2 } else { 1 }
    } else if wr == 1 {
        if rd == 2 { 0 } else { 2 }
    } else {
        if rd == 0 { 1 } else { 0 }
    }
}

/// The state of a readiness node, packed into one word.
#[derive(Copy, Clone, PartialEq, Eq, Structural, Debug)]
pub struct ReadinessState(usize);

impl ReadinessState {
    /// The word holding the state.
    pub closed spec fn word(self) -> usize {
        self.0
    }

    /// The fields of the state.
    pub open spec fn fields(self) -> Fields {
        fields_of(self.word())
    }

    /// The state with interests `interest` and options `opt`, not ready, not
    /// queued, not dropped, both token positions at slot 0.
    pub fn new(interest: Ready, opt: PollOpt) -> (s: ReadinessState)
        ensures
            s.fields() == (Fields {
                readiness: 0,
                interest: interest.bits_spec() as usize,
                opt: opt.bits_spec() as usize,
                rd: 0,
                wr: 0,
                queued: 0,
                dropped: 0,
                high: 0,
            }),
    {
        proof {
            lemma_flags(0, 24);
        }
        let mut state = ReadinessState(0);
        state.set_interest(interest);
        state.set_poll_opt(opt);
        state
    }

    /// The field under `mask` at `shift`.
    fn get(&self, mask: usize, shift: usize) -> (v: usize)
        requires
            shift < 26,
        ensures
            v == field(self.word(), mask, shift),
    {
        (self.0 >> shift) & mask
    }

    /// Replaces the field under `mask` at `shift` by `val`.
    fn set(&mut self, val: usize, mask: usize, shift: usize)
        requires
            shift < 26,
            mask <= MASK_8,
            val <= mask,
        ensures
            final(self).word() == with_field(old(self).word(), val, mask, shift),
    {
        self.0 = (self.0 & !(mask << shift)) | (val << shift)
    }

    /// The current readiness.
    pub fn readiness(&self) -> (r: Ready)
        ensures
            r.bits_spec() == (self.fields().readiness as u8) & READY_ALL,
    {
        Ready::from_bits_truncate(self.get(MASK_8, READINESS_SHIFT) as u8)
    }

    /// The readiness the node has interest in: readiness and interests.
    pub fn effective_readiness(&self) -> (r: Ready)
        ensures
            r.bits_spec() == ((self.fields().readiness as u8) & READY_ALL) & ((self.fields().interest as u8)
                & READY_ALL),
    {
        self.readiness().intersection(self.interest())
    }

    /// Sets the current readiness; the other fields stay.
    pub fn set_readiness(&mut self, v: Ready)
        ensures
            final(self).fields() == (Fields { readiness: v.bits_spec() as usize, ..old(self).fields() }),
    {
        proof {
            lemma_masks();
            lemma_set_others(old(self).word(), v.bits_spec() as usize, 8, READINESS_SHIFT);
        }
        self.set(v.bits() as usize, MASK_8, READINESS_SHIFT);
    }

    /// The interests.
    pub fn interest(&self) -> (r: Ready)
        ensures
            r.bits_spec() == (self.fields().interest as u8) & READY_ALL,
    {
        Ready::from_bits_truncate(self.get(MASK_8, INTEREST_SHIFT) as u8)
    }

    /// Sets the interests; the other fields stay.
    pub fn set_interest(&mut self, v: Ready)
        ensures
            final(self).fields() == (Fields { interest: v.bits_spec() as usize, ..old(self).fields() }),
    {
        proof {
            lemma_masks();
            lemma_set_others(old(self).word(), v.bits_spec() as usize, 8, INTEREST_SHIFT);
        }
        self.set(v.bits() as usize, MASK_8, INTEREST_SHIFT);
    }

    /// Clears the interests, so that no event is delivered; the other fields
    /// stay.
    pub fn disarm(&mut self)
        ensures
            final(self).fields() == (Fields { interest: 0, ..old(self).fields() }),
    {
        self.set_interest(Ready::empty());
    }

    /// The poll options.
    pub fn poll_opt(&self) -> (o: PollOpt)
        ensures
            o.bits_spec() == (self.fields().opt as u8) & OPT_ALL,
    {
        PollOpt::from_bits_truncate(self.get(MASK_4, POLL_OPT_SHIFT) as u8)
    }

    /// Sets the poll options; the other fields stay.
    pub fn set_poll_opt(&mut self, v: PollOpt)
        ensures
            final(self).fields() == (Fields { opt: v.bits_spec() as usize, ..old(self).fields() }),
    {
        proof {
            use_type_invariant(v);
            let b = v.bits_spec();
            assert(b & !7u8 == 0u8 ==> b <= 7u8) by (bit_vector);
            lemma_masks();
            lemma_set_others(old(self).word(), v.bits_spec() as usize, 4, POLL_OPT_SHIFT);
        }
        self.set(v.bits() as usize, MASK_4, POLL_OPT_SHIFT);
    }

    /// Whether the node is queued.
    pub fn is_queued(&self) -> (r: bool)
        ensures
            r == (self.fields().queued == 1),
    {
        proof {
            lemma_flags(self.word(), QUEUED_SHIFT);
        }
        self.0 & QUEUED_MASK == QUEUED_MASK
    }

    /// Marks the node as queued; the other fields stay. Dropped nodes are
    /// never queued.
    pub fn set_queued(&mut self)
        requires
            old(self).fields().dropped != 1,
        ensures
            final(self).fields() == (Fields { queued: 1, ..old(self).fields() }),
    {
        proof {
            lemma_flags(old(self).word(), QUEUED_SHIFT);
            lemma_masks();
            lemma_set_others(old(self).word(), 1, 1, QUEUED_SHIFT);
        }
        self.0 = self.0 | QUEUED_MASK;
    }

    /// Marks a queued node as no longer queued; the other fields stay.
    pub fn set_dequeued(&mut self)
        requires
            old(self).fields().queued == 1,
        ensures
            final(self).fields() == (Fields { queued: 0, ..old(self).fields() }),
    {
        proof {
            lemma_flags(old(self).word(), QUEUED_SHIFT);
            lemma_masks();
            lemma_set_others(old(self).word(), 0, 1, QUEUED_SHIFT);
        }
        self.0 = self.0 & !QUEUED_MASK;
    }

    /// Whether the node is dropped.
    pub fn is_dropped(&self) -> (r: bool)
        ensures
            r == (self.fields().dropped == 1),
    {
        proof {
            lemma_flags(self.word(), DROPPED_SHIFT);
        }
        self.0 & DROPPED_MASK == DROPPED_MASK
    }

    /// The token slot `poll` reads.
    pub fn token_read_pos(&self) -> (p: usize)
        ensures
            p == self.fields().rd,
    {
        self.get(MASK_2, TOKEN_RD_SHIFT)
    }

    /// The token slot with the latest token.
    pub fn token_write_pos(&self) -> (p: usize)
        ensures
            p == self.fields().wr,
    {
        self.get(MASK_2, TOKEN_WR_SHIFT)
    }

    /// A token slot that neither `poll` reads nor holds the latest token,
    /// where a new token can be written.
    pub fn next_token_pos(&self) -> (p: usize)
        requires
            self.fields().rd <= 2,
            self.fields().wr <= 2,
        ensures
            p == next_token_pos_spec(self.fields().rd, self.fields().wr),
            p <= 2,
            p != self.fields().rd,
            p != self.fields().wr,
    {
        let rd = self.token_read_pos();
        let wr = self.token_write_pos();
        match wr {
            0 => match rd {
                1 => 2,
                2 => 1,
                _ => 1,
            },
            1 => match rd {
                0 => 2,
                2 => 0,
                _ => 2,
            },
            _ => match rd {
                0 => 1,
                1 => 0,
                _ => 0,
            },
        }
    }

    /// Sets the slot with the latest token; the other fields stay.
    pub fn set_token_write_pos(&mut self, val: usize)
        requires
            val <= MASK_2,
        ensures
            final(self).fields() == (Fields { wr: val, ..old(self).fields() }),
    {
        proof {
            lemma_masks();
            lemma_set_others(old(self).word(), val, 2, TOKEN_WR_SHIFT);
        }
        self.set(val, MASK_2, TOKEN_WR_SHIFT);
    }

    /// Moves the read position to the write position, so that `poll` reads
    /// the latest token; the other fields stay.
    pub fn update_token_read_pos(&mut self)
        ensures
            final(self).fields() == (Fields { rd: old(self).fields().wr, ..old(self).fields() }),
    {
        let val = self.token_write_pos();
        proof {
            lemma_masks();
            assert(val <= 3) by {
                let w = self.word();
                assert((w >> 22usize) & 3usize <= 3usize) by (bit_vector);
            }
            lemma_set_others(old(self).word(), val, 2, TOKEN_RD_SHIFT);
        }
        self.set(val, MASK_2, TOKEN_RD_SHIFT);
    }
}

impl ReadinessState {
    /// The state a queued node takes when `poll` dequeues it, and the
    /// readiness to report for it, or `None` where the node was dropped and
    /// is released instead.
    ///
    /// The readiness is the effective readiness. An edge-triggered node
    /// leaves the queue, and a oneshot one with readiness to report is
    /// disarmed; a level-triggered one leaves the queue only without
    /// readiness, so that it is polled again while ready. Either way the read
    /// position moves to the latest token.
    pub fn dequeue_step(self) -> (r: Option<(ReadinessState, Ready)>)
        requires
            self.fields().queued == 1,
        ensures
            self.fields().dropped == 1 ==> r is None,
            self.fields().dropped != 1 ==> (r matches Some((next, readiness)) && {
                let f = self.fields();
                let eff = ((f.readiness as u8) & READY_ALL) & ((f.interest as u8) & READY_ALL);
                let opt = (f.opt as u8) & OPT_ALL;
                let edge = opt & EDGE == EDGE;
                let oneshot = opt & ONESHOT == ONESHOT;
                &&& readiness.bits_spec() == eff
                &&& next.fields() == (Fields {
                    queued: if edge || eff == 0 { 0 } else { 1 },
                    interest: if edge && oneshot && eff != 0 { 0 } else { f.interest },
                    rd: f.wr,
                    ..f
                })
            }),
    {
        if self.is_dropped() {
            return None;
        }
        let mut next = self;
        let readiness = self.effective_readiness();
        let opt = self.poll_opt();
        if opt.is_edge() {
            next.set_dequeued();
            if opt.is_oneshot() && !readiness.is_empty() {
                next.disarm();
            }
        } else if readiness.is_empty() {
            next.set_dequeued();
        }
        next.update_token_read_pos();
        Some((next, readiness))
    }
}

/// The token in the slot `pos` of a node's three token slots, the slot that
/// `token_read_pos` or `token_write_pos` names.
pub fn token(tokens: &[Token; 3], pos: usize) -> (t: Token)
    requires
        pos < 3,
    ensures
        t == tokens@[pos as int],
{
    tokens[pos]
}

/// Writing the field of width `w` at `shift` stores the value in it and
/// leaves every other field of the state as it was.
proof fn lemma_set_others(v: usize, val: usize, w: usize, shift: usize)
    requires
        w == 1 || w == 2 || w == 4 || w == 8,
        shift == READINESS_SHIFT && w == 8 || shift == INTEREST_SHIFT && w == 8 || shift == POLL_OPT_SHIFT && w
            == 4 || shift == TOKEN_RD_SHIFT && w == 2 || shift == TOKEN_WR_SHIFT && w == 2 || shift
            == QUEUED_SHIFT && w == 1 || shift == DROPPED_SHIFT && w == 1,
        val < (1usize << w),
    ensures
        ({
            let r = with_field(v, val, ((1usize << w) - 1) as usize, shift);
            &&& field(r, ((1usize << w) - 1) as usize, shift) == val
            &&& shift != READINESS_SHIFT ==> field(r, MASK_8, READINESS_SHIFT) == field(v, MASK_8, READINESS_SHIFT)
            &&& shift != INTEREST_SHIFT ==> field(r, MASK_8, INTEREST_SHIFT) == field(v, MASK_8, INTEREST_SHIFT)
            &&& shift != POLL_OPT_SHIFT ==> field(r, MASK_4, POLL_OPT_SHIFT) == field(v, MASK_4, POLL_OPT_SHIFT)
            &&& shift != TOKEN_RD_SHIFT ==> field(r, MASK_2, TOKEN_RD_SHIFT) == field(v, MASK_2, TOKEN_RD_SHIFT)
            &&& shift != TOKEN_WR_SHIFT ==> field(r, MASK_2, TOKEN_WR_SHIFT) == field(v, MASK_2, TOKEN_WR_SHIFT)
            &&& shift != QUEUED_SHIFT ==> field(r, 1, QUEUED_SHIFT) == field(v, 1, QUEUED_SHIFT)
            &&& shift != DROPPED_SHIFT ==> field(r, 1, DROPPED_SHIFT) == field(v, 1, DROPPED_SHIFT)
            &&& r >> 26usize == v >> 26usize
        }),
{
    lemma_masks();
    if shift != READINESS_SHIFT {
        lemma_with_field(v, val, w, shift, 8, READINESS_SHIFT);
    }
    if shift != INTEREST_SHIFT {
        lemma_with_field(v, val, w, shift, 8, INTEREST_SHIFT);
    }
    if shift != POLL_OPT_SHIFT {
        lemma_with_field(v, val, w, shift, 4, POLL_OPT_SHIFT);
    }
    if shift != TOKEN_RD_SHIFT {
        lemma_with_field(v, val, w, shift, 2, TOKEN_RD_SHIFT);
    }
    if shift != TOKEN_WR_SHIFT {
        lemma_with_field(v, val, w, shift, 2, TOKEN_WR_SHIFT);
    }
    if shift != QUEUED_SHIFT {
        lemma_with_field(v, val, w, shift, 1, QUEUED_SHIFT);
    }
    if shift != DROPPED_SHIFT {
        lemma_with_field(v, val, w, shift, 1, DROPPED_SHIFT);
    }
}

impl From<ReadinessState> for usize {
    fn from(src: ReadinessState) -> (n: usize) {
        src.0
    }
}

impl vstd::std_specs::convert::FromSpecImpl<ReadinessState> for usize {
    open spec fn obeys_from_spec() -> bool {
        true
    }

    open spec fn from_spec(src: ReadinessState) -> usize {
        src.word()
    }
}

impl From<usize> for ReadinessState {
    fn from(src: usize) -> (s: ReadinessState) {
        ReadinessState(src)
    }
}

impl vstd::std_specs::convert::FromSpecImpl<usize> for ReadinessState {
    open spec fn obeys_from_spec() -> bool {
        true
    }

    open spec fn from_spec(src: usize) -> ReadinessState {
        ReadinessState::from_word(src)
    }
}

impl ReadinessState {
    /// The state held in the word `v`.
    pub closed spec fn from_word(v: usize) -> ReadinessState {
        ReadinessState(v)
    }

    /// The word of `from_word(v)` is `v`.
    pub proof fn lemma_from_word(v: usize)
        ensures
            ReadinessState::from_word(v).word() == v,
    {
    }
}

} // verus!
