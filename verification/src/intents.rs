//! Gateway intents: a set of flags carried in a 64-bit integer that selects which events the
//! gateway sends. Some intents are privileged and need approval.
use vstd::prelude::*;
use crate::permissions::bits_contain;

verus! {

/// Every intent flag that this library knows.
pub const INTENTS_KNOWN: u64 = 0x0331_FFFF;

/// The privileged intents: guild members, guild presences and message content.
pub const INTENTS_PRIVILEGED: u64 = 0x8102;

/// Every known intent that is not privileged.
pub const INTENTS_NON_PRIVILEGED: u64 = 0x0331_7EFD;

/// Gateway intents control which events Discord sends to a bot.
#[derive(Debug, Clone, Copy, PartialEq, Eq, Hash, Structural)]
pub struct Intents(u64);

impl View for Intents {
    type V = u64;

    closed spec fn view(&self) -> u64 {
        self.0
    }
}

/// The flags that `bits` holds once unknown flags are dropped.
pub open spec fn intents_truncate(bits: u64) -> u64 {
    bits & INTENTS_KNOWN
}

impl Default for Intents {
    fn default() -> (r: Self)
        ensures
            r@ == INTENTS_NON_PRIVILEGED,
    {
        Intents(INTENTS_NON_PRIVILEGED)
    }
}

impl Intents {
    /// The permission set with the single flag at position `shift`.
    fn flag(shift: u64) -> (r: Intents)
        requires
            shift < 64,
        ensures
            r@ == 1u64 << shift,
    {
        Intents(1u64 << shift)
    }

    /// Includes events for guild creation, update, delete, role changes, etc.
    #[allow(non_snake_case)]
    pub fn GUILDS() -> (r: Intents)
        ensures
            r@ == 1u64 << 0u64,
    {
        Self::flag(0)
    }

    /// Includes events for member joins, updates, removes. Privileged.
    #[allow(non_snake_case)]
    pub fn GUILD_MEMBERS() -> (r: Intents)
        ensures
            r@ == 1u64 << 1u64,
    {
        Self::flag(1)
    }

    /// Includes events for guild bans.
    #[allow(non_snake_case)]
    pub fn GUILD_MODERATION() -> (r: Intents)
        ensures
            r@ == 1u64 << 2u64,
    {
        Self::flag(2)
    }

    /// Includes events for emoji and sticker updates.
    #[allow(non_snake_case)]
    pub fn GUILD_EMOJIS_AND_STICKERS() -> (r: Intents)
        ensures
            r@ == 1u64 << 3u64,
    {
        Self::flag(3)
    }

    /// Includes events for integration updates.
    #[allow(non_snake_case)]
    pub fn GUILD_INTEGRATIONS() -> (r: Intents)
        ensures
            r@ == 1u64 << 4u64,
    {
        Self::flag(4)
    }

    /// Includes events for webhook updates.
    #[allow(non_snake_case)]
    pub fn GUILD_WEBHOOKS() -> (r: Intents)
        ensures
            r@ == 1u64 << 5u64,
    {
        Self::flag(5)
    }

    /// Includes events for invite creation/deletion.
    #[allow(non_snake_case)]
    pub fn GUILD_INVITES() -> (r: Intents)
        ensures
            r@ == 1u64 << 6u64,
    {
        Self::flag(6)
    }

    /// Includes events for voice state updates.
    #[allow(non_snake_case)]
    pub fn GUILD_VOICE_STATES() -> (r: Intents)
        ensures
            r@ == 1u64 << 7u64,
    {
        Self::flag(7)
    }

    /// Includes events for user presence updates. Privileged.
    #[allow(non_snake_case)]
    pub fn GUILD_PRESENCES() -> (r: Intents)
        ensures
            r@ == 1u64 << 8u64,
    {
        Self::flag(8)
    }

    /// Includes events for messages in guilds (not content without MESSAGE_CONTENT).
    #[allow(non_snake_case)]
    pub fn GUILD_MESSAGES() -> (r: Intents)
        ensures
            r@ == 1u64 << 9u64,
    {
        Self::flag(9)
    }

    /// Includes events for message reactions in guilds.
    #[allow(non_snake_case)]
    pub fn GUILD_MESSAGE_REACTIONS() -> (r: Intents)
        ensures
            r@ == 1u64 << 10u64,
    {
        Self::flag(10)
    }

    /// Includes events for typing indicators in guilds.
    #[allow(non_snake_case)]
    pub fn GUILD_MESSAGE_TYPING() -> (r: Intents)
        ensures
            r@ == 1u64 << 11u64,
    {
        Self::flag(11)
    }

    /// Includes events for direct messages.
    #[allow(non_snake_case)]
    pub fn DIRECT_MESSAGES() -> (r: Intents)
        ensures
            r@ == 1u64 << 12u64,
    {
        Self::flag(12)
    }

    /// Includes events for DM reactions.
    #[allow(non_snake_case)]
    pub fn DIRECT_MESSAGE_REACTIONS() -> (r: Intents)
        ensures
            r@ == 1u64 << 13u64,
    {
        Self::flag(13)
    }

    /// Includes events for DM typing indicators.
    #[allow(non_snake_case)]
    pub fn DIRECT_MESSAGE_TYPING() -> (r: Intents)
        ensures
            r@ == 1u64 << 14u64,
    {
        Self::flag(14)
    }

    /// Enables receiving message content in MESSAGE_CREATE events. Privileged.
    #[allow(non_snake_case)]
    pub fn MESSAGE_CONTENT() -> (r: Intents)
        ensures
            r@ == 1u64 << 15u64,
    {
        Self::flag(15)
    }

    /// Includes events for scheduled events.
    #[allow(non_snake_case)]
    pub fn GUILD_SCHEDULED_EVENTS() -> (r: Intents)
        ensures
            r@ == 1u64 << 16u64,
    {
        Self::flag(16)
    }

    /// Includes events for AutoMod configuration changes.
    #[allow(non_snake_case)]
    pub fn AUTO_MODERATION_CONFIGURATION() -> (r: Intents)
        ensures
            r@ == 1u64 << 20u64,
    {
        Self::flag(20)
    }

    /// Includes events for AutoMod action execution.
    #[allow(non_snake_case)]
    pub fn AUTO_MODERATION_EXECUTION() -> (r: Intents)
        ensures
            r@ == 1u64 << 21u64,
    {
        Self::flag(21)
    }

    /// Includes events for poll votes in guilds.
    #[allow(non_snake_case)]
    pub fn GUILD_MESSAGE_POLLS() -> (r: Intents)
        ensures
            r@ == 1u64 << 24u64,
    {
        Self::flag(24)
    }

    /// Includes events for poll votes in DMs.
    #[allow(non_snake_case)]
    pub fn DIRECT_MESSAGE_POLLS() -> (r: Intents)
        ensures
            r@ == 1u64 << 25u64,
    {
        Self::flag(25)
    }

    /// All non-privileged intents.
    #[allow(non_snake_case)]
    pub fn NON_PRIVILEGED() -> (r: Intents)
        ensures
            r@ == INTENTS_NON_PRIVILEGED,
    {
        Intents(INTENTS_NON_PRIVILEGED)
    }

    /// All privileged intents (they require approval).
    #[allow(non_snake_case)]
    pub fn PRIVILEGED() -> (r: Intents)
        ensures
            r@ == INTENTS_PRIVILEGED,
    {
        Intents(INTENTS_PRIVILEGED)
    }

    /// All intents.
    #[allow(non_snake_case)]
    pub fn ALL() -> (r: Intents)
        ensures
            r@ == INTENTS_KNOWN,
    {
        Intents(INTENTS_KNOWN)
    }

    /// The empty set of intents.
    pub fn empty() -> (r: Intents)
        ensures
            r@ == 0,
    {
        Intents(0)
    }

    /// Every known permission.
    pub fn all() -> (r: Intents)
        ensures
            r@ == INTENTS_KNOWN,
    {
        Intents(INTENTS_KNOWN)
    }

    /// The raw flag bits.
    pub fn bits(&self) -> (r: u64)
        ensures
            r == self@,
    {
        self.0
    }

    /// The set with these bits, or `None` when a bit names no known permission.
    pub fn from_bits(bits: u64) -> (r: Option<Intents>)
        ensures
            intents_truncate(bits) == bits ==> (r matches Some(p) && p@ == bits),
            intents_truncate(bits) != bits ==> r is None,
    {
        if bits & INTENTS_KNOWN == bits {
            Some(Intents(bits))
        } else {
            None
        }
    }

    /// The set with these bits, dropping those that name no known permission.
    pub fn from_bits_truncate(bits: u64) -> (r: Intents)
        ensures
            r@ == intents_truncate(bits),
    {
        Intents(bits & INTENTS_KNOWN)
    }

    /// The set with exactly these bits, unknown ones included.
    pub fn from_bits_retain(bits: u64) -> (r: Intents)
        ensures
            r@ == bits,
    {
        Intents(bits)
    }

    /// Whether no flag is set.
    pub fn is_empty(&self) -> (r: bool)
        ensures
            r == (self@ == 0),
    {
        self.0 == 0
    }

    /// Whether every known flag is set.
    pub fn is_all(&self) -> (r: bool)
        ensures
            r == bits_contain(self@, INTENTS_KNOWN),
    {
        self.0 & INTENTS_KNOWN == INTENTS_KNOWN
    }

    /// Whether every flag of `other` is set here.
    pub fn contains(&self, other: Intents) -> (r: bool)
        ensures
            r == bits_contain(self@, other@),
    {
        self.0 & other.0 == other.0
    }

    /// Whether some flag of `other` is set here.
    pub fn intersects(&self, other: Intents) -> (r: bool)
        ensures
            r == (self@ & other@ != 0),
    {
        self.0 & other.0 != 0
    }

    /// Sets every flag of `other`.
    pub fn insert(&mut self, other: Intents)
        ensures
            final(self)@ == old(self)@ | other@,
    {
        self.0 = self.0 | other.0;
    }

    /// Clears every flag of `other`.
    pub fn remove(&mut self, other: Intents)
        ensures
            final(self)@ == old(self)@ & !other@,
    {
        self.0 = self.0 & !other.0;
    }

    /// Flips every flag of `other`.
    pub fn toggle(&mut self, other: Intents)
        ensures
            final(self)@ == old(self)@ ^ other@,
    {
        self.0 = self.0 ^ other.0;
    }

    /// Sets (`value` true) or clears (`value` false) every flag of `other`.
    pub fn set(&mut self, other: Intents, value: bool)
        ensures
            value ==> final(self)@ == old(self)@ | other@,
            !value ==> final(self)@ == old(self)@ & !other@,
    {
        if value {
            self.insert(other);
        } else {
            self.remove(other);
        }
    }

    /// The flags set in either.
    pub fn union(self, other: Intents) -> (r: Intents)
        ensures
            r@ == self@ | other@,
    {
        Intents(self.0 | other.0)
    }

    /// The flags set in both.
    pub fn intersection(self, other: Intents) -> (r: Intents)
        ensures
            r@ == self@ & other@,
    {
        Intents(self.0 & other.0)
    }

    /// The flags set here and not in `other`.
    pub fn difference(self, other: Intents) -> (r: Intents)
        ensures
            r@ == self@ & !other@,
    {
        Intents(self.0 & !other.0)
    }

    /// The known flags not set here.
    pub fn complement(self) -> (r: Intents)
        ensures
            r@ == intents_truncate(!self@),
    {
        Intents(!self.0 & INTENTS_KNOWN)
    }
}

impl core::ops::BitOr for Intents {
    type Output = Self;

    fn bitor(self, rhs: Self) -> (r: Self)
        ensures
            r@ == self@ | rhs@,
    {
        Intents(self.0 | rhs.0)
    }
}

impl vstd::std_specs::ops::BitOrSpecImpl for Intents {
    open spec fn obeys_bitor_spec() -> bool {
        true
    }

    open spec fn bitor_req(self, rhs: Self) -> bool {
        true
    }

    closed spec fn bitor_spec(self, rhs: Self) -> Self {
        Intents(self.0 | rhs.0)
    }
}

impl core::ops::BitAnd for Intents {
    type Output = Self;

    fn bitand(self, rhs: Self) -> (r: Self)
        ensures
            r@ == self@ & rhs@,
    {
        Intents(self.0 & rhs.0)
    }
}

impl vstd::std_specs::ops::BitAndSpecImpl for Intents {
    open spec fn obeys_bitand_spec() -> bool {
        true
    }

    open spec fn bitand_req(self, rhs: Self) -> bool {
        true
    }

    closed spec fn bitand_spec(self, rhs: Self) -> Self {
        Intents(self.0 & rhs.0)
    }
}

/// A union holds every flag of both of its operands.
pub proof fn lemma_intents_union_contains(a: Intents, b: Intents)
    ensures
        bits_contain(a@ | b@, a@),
        bits_contain(a@ | b@, b@),
{
    let x = a@;
    let y = b@;
    assert((x | y) & x == x && (x | y) & y == y) by (bit_vector);
}

/// After `insert(f)` the set contains `f`; after `remove(f)` it shares no flag with `f`.
pub proof fn lemma_intents_insert_remove(p: Intents, f: Intents)
    ensures
        bits_contain(p@ | f@, f@),
        (p@ & !f@) & f@ == 0,
        bits_contain(p@ | f@, p@),
        bits_contain(p@, p@ & !f@),
{
    let x = p@;
    let y = f@;
    assert((x | y) & y == y && (x & !y) & y == 0 && (x | y) & x == x && x & (x & !y) == (x & !y))
        by (bit_vector);
}

/// Truncation keeps every known flag and is idempotent; `from_bits` accepts exactly the
/// truncated values.
pub proof fn lemma_intents_truncate(bits: u64)
    ensures
        intents_truncate(intents_truncate(bits)) == intents_truncate(bits),
        bits_contain(INTENTS_KNOWN, intents_truncate(bits)),
{
    assert((bits & 0x0331_FFFFu64) & 0x0331_FFFFu64 == bits & 0x0331_FFFFu64
        && 0x0331_FFFFu64 & (bits & 0x0331_FFFFu64) == bits & 0x0331_FFFFu64)
        by (bit_vector);
}

/// The complement of the complement of a set of known flags is the set itself.
pub proof fn lemma_intents_complement_involutive(p: Intents)
    requires
        intents_truncate(p@) == p@,
    ensures
        intents_truncate(!intents_truncate(!p@)) == p@,
{
    let x = p@;
    assert(x & 0x0331_FFFFu64 == x ==> !(!x & 0x0331_FFFFu64) & 0x0331_FFFFu64 == x)
        by (bit_vector);
}

/// The privileged and the non-privileged intents split the known intents in two.
pub proof fn lemma_intents_privilege_partition()
    ensures
        INTENTS_NON_PRIVILEGED | INTENTS_PRIVILEGED == INTENTS_KNOWN,
        INTENTS_NON_PRIVILEGED & INTENTS_PRIVILEGED == 0,
{
    assert(0x0331_7EFDu64 | 0x8102u64 == 0x0331_FFFFu64 && 0x0331_7EFDu64 & 0x8102u64 == 0)
        by (bit_vector);
}

} // verus!
