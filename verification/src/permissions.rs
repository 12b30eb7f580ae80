//! Discord permissions: a set of flags carried in a 64-bit integer, written as a decimal string.
use vstd::prelude::*;
use crate::text::{decimal, parse_u64, parse_u64_spec, u64_to_decimal, lemma_parse_decimal_roundtrip};

verus! {

/// Every permission flag that this library knows.
pub const PERMISSIONS_KNOWN: u64 = 0x67FF_FFFF_FFFF;

/// Permissions that can be assigned to a Role or User.
#[derive(Debug, Clone, Copy, PartialEq, Eq, Hash, Structural)]
pub struct Permissions(u64);

impl View for Permissions {
    type V = u64;

    closed spec fn view(&self) -> u64 {
        self.0
    }
}

/// The flags that `bits` holds once unknown flags are dropped.
pub open spec fn permissions_truncate(bits: u64) -> u64 {
    bits & PERMISSIONS_KNOWN
}

/// Whether the flag set `a` holds every flag of `b`.
pub open spec fn bits_contain(a: u64, b: u64) -> bool {
    a & b == b
}

impl Default for Permissions {
    fn default() -> (r: Self)
        ensures
            r@ == 0,
    {
        Permissions(0)
    }
}

impl Permissions {
    /// The permission set with the single flag at position `shift`.
    fn flag(shift: u64) -> (r: Permissions)
        requires
            shift < 64,
        ensures
            r@ == 1u64 << shift,
    {
        Permissions(1u64 << shift)
    }

    /// Allows creation of instant invites.
    #[allow(non_snake_case)]
    pub fn CREATE_INSTANT_INVITE() -> (r: Permissions)
        ensures
            r@ == 1u64 << 0u64,
    {
        Self::flag(0)
    }

    /// Allows kicking members.
    #[allow(non_snake_case)]
    pub fn KICK_MEMBERS() -> (r: Permissions)
        ensures
            r@ == 1u64 << 1u64,
    {
        Self::flag(1)
    }

    /// Allows banning members.
    #[allow(non_snake_case)]
    pub fn BAN_MEMBERS() -> (r: Permissions)
        ensures
            r@ == 1u64 << 2u64,
    {
        Self::flag(2)
    }

    /// Allows all permissions and bypasses channel permission overwrites.
    #[allow(non_snake_case)]
    pub fn ADMINISTRATOR() -> (r: Permissions)
        ensures
            r@ == 1u64 << 3u64,
    {
        Self::flag(3)
    }

    /// Allows management and editing of channels.
    #[allow(non_snake_case)]
    pub fn MANAGE_CHANNELS() -> (r: Permissions)
        ensures
            r@ == 1u64 << 4u64,
    {
        Self::flag(4)
    }

    /// Allows management and editing of the guild.
    #[allow(non_snake_case)]
    pub fn MANAGE_GUILD() -> (r: Permissions)
        ensures
            r@ == 1u64 << 5u64,
    {
        Self::flag(5)
    }

    /// Allows adding reactions to messages.
    #[allow(non_snake_case)]
    pub fn ADD_REACTIONS() -> (r: Permissions)
        ensures
            r@ == 1u64 << 6u64,
    {
        Self::flag(6)
    }

    /// Allows viewing the audit log.
    #[allow(non_snake_case)]
    pub fn VIEW_AUDIT_LOG() -> (r: Permissions)
        ensures
            r@ == 1u64 << 7u64,
    {
        Self::flag(7)
    }

    /// Allows using priority speaker in a voice channel.
    #[allow(non_snake_case)]
    pub fn PRIORITY_SPEAKER() -> (r: Permissions)
        ensures
            r@ == 1u64 << 8u64,
    {
        Self::flag(8)
    }

    /// Allows the user to go live.
    #[allow(non_snake_case)]
    pub fn STREAM() -> (r: Permissions)
        ensures
            r@ == 1u64 << 9u64,
    {
        Self::flag(9)
    }

    /// Allows viewing guild content (channels, members, etc).
    #[allow(non_snake_case)]
    pub fn VIEW_CHANNEL() -> (r: Permissions)
        ensures
            r@ == 1u64 << 10u64,
    {
        Self::flag(10)
    }

    /// Allows sending messages in a channel.
    #[allow(non_snake_case)]
    pub fn SEND_MESSAGES() -> (r: Permissions)
        ensures
            r@ == 1u64 << 11u64,
    {
        Self::flag(11)
    }

    /// Allows sending TTS messages.
    #[allow(non_snake_case)]
    pub fn SEND_TTS_MESSAGES() -> (r: Permissions)
        ensures
            r@ == 1u64 << 12u64,
    {
        Self::flag(12)
    }

    /// Allows managing messages of others.
    #[allow(non_snake_case)]
    pub fn MANAGE_MESSAGES() -> (r: Permissions)
        ensures
            r@ == 1u64 << 13u64,
    {
        Self::flag(13)
    }

    /// Allows embedding content in messages (e.g. links).
    #[allow(non_snake_case)]
    pub fn EMBED_LINKS() -> (r: Permissions)
        ensures
            r@ == 1u64 << 14u64,
    {
        Self::flag(14)
    }

    /// Allows attaching files.
    #[allow(non_snake_case)]
    pub fn ATTACH_FILES() -> (r: Permissions)
        ensures
            r@ == 1u64 << 15u64,
    {
        Self::flag(15)
    }

    /// Allows reading of message history.
    #[allow(non_snake_case)]
    pub fn READ_MESSAGE_HISTORY() -> (r: Permissions)
        ensures
            r@ == 1u64 << 16u64,
    {
        Self::flag(16)
    }

    /// Allows mentioning @everyone, @here, and all roles.
    #[allow(non_snake_case)]
    pub fn MENTION_EVERYONE() -> (r: Permissions)
        ensures
            r@ == 1u64 << 17u64,
    {
        Self::flag(17)
    }

    /// Allows using external emojis.
    #[allow(non_snake_case)]
    pub fn USE_EXTERNAL_EMOJIS() -> (r: Permissions)
        ensures
            r@ == 1u64 << 18u64,
    {
        Self::flag(18)
    }

    /// Allows viewing guild insights.
    #[allow(non_snake_case)]
    pub fn VIEW_GUILD_INSIGHTS() -> (r: Permissions)
        ensures
            r@ == 1u64 << 19u64,
    {
        Self::flag(19)
    }

    /// Allows connecting to a voice channel.
    #[allow(non_snake_case)]
    pub fn CONNECT() -> (r: Permissions)
        ensures
            r@ == 1u64 << 20u64,
    {
        Self::flag(20)
    }

    /// Allows speaking in a voice channel.
    #[allow(non_snake_case)]
    pub fn SPEAK() -> (r: Permissions)
        ensures
            r@ == 1u64 << 21u64,
    {
        Self::flag(21)
    }

    /// Allows muting members in a voice channel.
    #[allow(non_snake_case)]
    pub fn MUTE_MEMBERS() -> (r: Permissions)
        ensures
            r@ == 1u64 << 22u64,
    {
        Self::flag(22)
    }

    /// Allows deafening members in a voice channel.
    #[allow(non_snake_case)]
    pub fn DEAFEN_MEMBERS() -> (r: Permissions)
        ensures
            r@ == 1u64 << 23u64,
    {
        Self::flag(23)
    }

    /// Allows moving members between voice channels.
    #[allow(non_snake_case)]
    pub fn MOVE_MEMBERS() -> (r: Permissions)
        ensures
            r@ == 1u64 << 24u64,
    {
        Self::flag(24)
    }

    /// Allows using voice-activity-detection.
    #[allow(non_snake_case)]
    pub fn USE_VAD() -> (r: Permissions)
        ensures
            r@ == 1u64 << 25u64,
    {
        Self::flag(25)
    }

    /// Allows changing own nickname.
    #[allow(non_snake_case)]
    pub fn CHANGE_NICKNAME() -> (r: Permissions)
        ensures
            r@ == 1u64 << 26u64,
    {
        Self::flag(26)
    }

    /// Allows managing nicknames of others.
    #[allow(non_snake_case)]
    pub fn MANAGE_NICKNAMES() -> (r: Permissions)
        ensures
            r@ == 1u64 << 27u64,
    {
        Self::flag(27)
    }

    /// Allows managing roles.
    #[allow(non_snake_case)]
    pub fn MANAGE_ROLES() -> (r: Permissions)
        ensures
            r@ == 1u64 << 28u64,
    {
        Self::flag(28)
    }

    /// Allows managing webhooks.
    #[allow(non_snake_case)]
    pub fn MANAGE_WEBHOOKS() -> (r: Permissions)
        ensures
            r@ == 1u64 << 29u64,
    {
        Self::flag(29)
    }

    /// Allows managing emojis and stickers.
    #[allow(non_snake_case)]
    pub fn MANAGE_EMOJIS_AND_STICKERS() -> (r: Permissions)
        ensures
            r@ == 1u64 << 30u64,
    {
        Self::flag(30)
    }

    /// Allows using application commands.
    #[allow(non_snake_case)]
    pub fn USE_APPLICATION_COMMANDS() -> (r: Permissions)
        ensures
            r@ == 1u64 << 31u64,
    {
        Self::flag(31)
    }

    /// Allows requesting to speak in stage channels.
    #[allow(non_snake_case)]
    pub fn REQUEST_TO_SPEAK() -> (r: Permissions)
        ensures
            r@ == 1u64 << 32u64,
    {
        Self::flag(32)
    }

    /// Allows creating, editing, and deleting events.
    #[allow(non_snake_case)]
    pub fn MANAGE_EVENTS() -> (r: Permissions)
        ensures
            r@ == 1u64 << 33u64,
    {
        Self::flag(33)
    }

    /// Allows managing threads.
    #[allow(non_snake_case)]
    pub fn MANAGE_THREADS() -> (r: Permissions)
        ensures
            r@ == 1u64 << 34u64,
    {
        Self::flag(34)
    }

    /// Allows creating public threads.
    #[allow(non_snake_case)]
    pub fn CREATE_PUBLIC_THREADS() -> (r: Permissions)
        ensures
            r@ == 1u64 << 35u64,
    {
        Self::flag(35)
    }

    /// Allows creating private threads.
    #[allow(non_snake_case)]
    pub fn CREATE_PRIVATE_THREADS() -> (r: Permissions)
        ensures
            r@ == 1u64 << 36u64,
    {
        Self::flag(36)
    }

    /// Allows using external stickers.
    #[allow(non_snake_case)]
    pub fn USE_EXTERNAL_STICKERS() -> (r: Permissions)
        ensures
            r@ == 1u64 << 37u64,
    {
        Self::flag(37)
    }

    /// Allows sending messages in threads.
    #[allow(non_snake_case)]
    pub fn SEND_MESSAGES_IN_THREADS() -> (r: Permissions)
        ensures
            r@ == 1u64 << 38u64,
    {
        Self::flag(38)
    }

    /// Allows using embedded activities.
    #[allow(non_snake_case)]
    pub fn USE_EMBEDDED_ACTIVITIES() -> (r: Permissions)
        ensures
            r@ == 1u64 << 39u64,
    {
        Self::flag(39)
    }

    /// Allows timing out users.
    #[allow(non_snake_case)]
    pub fn MODERATE_MEMBERS() -> (r: Permissions)
        ensures
            r@ == 1u64 << 40u64,
    {
        Self::flag(40)
    }

    /// Allows viewing creator monetization analytics.
    #[allow(non_snake_case)]
    pub fn VIEW_CREATOR_MONETIZATION_ANALYTICS() -> (r: Permissions)
        ensures
            r@ == 1u64 << 41u64,
    {
        Self::flag(41)
    }

    /// Allows using soundboard.
    #[allow(non_snake_case)]
    pub fn USE_SOUNDBOARD() -> (r: Permissions)
        ensures
            r@ == 1u64 << 42u64,
    {
        Self::flag(42)
    }

    /// Allows using external sounds.
    #[allow(non_snake_case)]
    pub fn USE_EXTERNAL_SOUNDS() -> (r: Permissions)
        ensures
            r@ == 1u64 << 45u64,
    {
        Self::flag(45)
    }

    /// Allows sending voice messages.
    #[allow(non_snake_case)]
    pub fn SEND_VOICE_MESSAGES() -> (r: Permissions)
        ensures
            r@ == 1u64 << 46u64,
    {
        Self::flag(46)
    }

    /// The empty set of permissions.
    pub fn empty() -> (r: Permissions)
        ensures
            r@ == 0,
    {
        Permissions(0)
    }

    /// Every known permission.
    pub fn all() -> (r: Permissions)
        ensures
            r@ == PERMISSIONS_KNOWN,
    {
        Permissions(PERMISSIONS_KNOWN)
    }

    /// The raw flag bits.
    pub fn bits(&self) -> (r: u64)
        ensures
            r == self@,
    {
        self.0
    }

    /// The set with these bits, or `None` when a bit names no known permission.
    pub fn from_bits(bits: u64) -> (r: Option<Permissions>)
        ensures
            permissions_truncate(bits) == bits ==> (r matches Some(p) && p@ == bits),
            permissions_truncate(bits) != bits ==> r is None,
    {
        if bits & PERMISSIONS_KNOWN == bits {
            Some(Permissions(bits))
        } else {
            None
        }
    }

    /// The set with these bits, dropping those that name no known permission.
    pub fn from_bits_truncate(bits: u64) -> (r: Permissions)
        ensures
            r@ == permissions_truncate(bits),
    {
        Permissions(bits & PERMISSIONS_KNOWN)
    }

    /// The set with exactly these bits, unknown ones included.
    pub fn from_bits_retain(bits: u64) -> (r: Permissions)
        ensures
            r@ == bits,
    {
        Permissions(bits)
    }

    /// Whether no flag is set.
    pub fn is_empty(&self) -> (r: bool)
        ensures
            r == (self@ == 0),
    {
        self.0 == 0
    }

    /// Whether every known flag is set.
    pub fn is_all(&self) -> (r: bool)
        ensures
            r == bits_contain(self@, PERMISSIONS_KNOWN),
    {
        self.0 & PERMISSIONS_KNOWN == PERMISSIONS_KNOWN
    }

    /// Whether every flag of `other` is set here.
    pub fn contains(&self, other: Permissions) -> (r: bool)
        ensures
            r == bits_contain(self@, other@),
    {
        self.0 & other.0 == other.0
    }

    /// Whether some flag of `other` is set here.
    pub fn intersects(&self, other: Permissions) -> (r: bool)
        ensures
            r == (self@ & other@ != 0),
    {
        self.0 & other.0 != 0
    }

    /// Sets every flag of `other`.
    pub fn insert(&mut self, other: Permissions)
        ensures
            final(self)@ == old(self)@ | other@,
    {
        self.0 = self.0 | other.0;
    }

    /// Clears every flag of `other`.
    pub fn remove(&mut self, other: Permissions)
        ensures
            final(self)@ == old(self)@ & !other@,
    {
        self.0 = self.0 & !other.0;
    }

    /// Flips every flag of `other`.
    pub fn toggle(&mut self, other: Permissions)
        ensures
            final(self)@ == old(self)@ ^ other@,
    {
        self.0 = self.0 ^ other.0;
    }

    /// Sets (`value` true) or clears (`value` false) every flag of `other`.
    pub fn set(&mut self, other: Permissions, value: bool)
        ensures
            value ==> final(self)@ == old(self)@ | other@,
            !value ==> final(self)@ == old(self)@ & !other@,
    {
        if value {
            self.insert(other);
        } else {
            self.remove(other);
        }
    }

    /// The flags set in either.
    pub fn union(self, other: Permissions) -> (r: Permissions)
        ensures
            r@ == self@ | other@,
    {
        Permissions(self.0 | other.0)
    }

    /// The flags set in both.
    pub fn intersection(self, other: Permissions) -> (r: Permissions)
        ensures
            r@ == self@ & other@,
    {
        Permissions(self.0 & other.0)
    }

    /// The flags set here and not in `other`.
    pub fn difference(self, other: Permissions) -> (r: Permissions)
        ensures
            r@ == self@ & !other@,
    {
        Permissions(self.0 & !other.0)
    }

    /// The known flags not set here.
    pub fn complement(self) -> (r: Permissions)
        ensures
            r@ == permissions_truncate(!self@),
    {
        Permissions(!self.0 & PERMISSIONS_KNOWN)
    }

    /// The decimal rendering of the bits, as permissions are written on the wire.
    pub fn to_string(&self) -> (r: String)
        ensures
            r@ == decimal(self@ as nat),
    {
        u64_to_decimal(self.0)
    }

    /// Reads permissions from their decimal string form, dropping unknown flags.
    pub fn parse(s: &str) -> (r: Option<Permissions>)
        ensures
            r == (match parse_u64_spec(s@) {
                Some(v) => Some(Permissions::from_bits_truncate_spec(v)),
                None => None::<Permissions>,
            }),
    {
        match parse_u64(s) {
            Some(v) => Some(Self::from_bits_truncate(v)),
            None => None,
        }
    }

    /// The value that `from_bits_truncate` gives.
    pub closed spec fn from_bits_truncate_spec(bits: u64) -> Permissions {
        Permissions(bits & PERMISSIONS_KNOWN)
    }

    /// `from_bits_truncate_spec` holds the truncated bits.
    pub proof fn lemma_from_bits_truncate_spec(bits: u64)
        ensures
            Self::from_bits_truncate_spec(bits)@ == permissions_truncate(bits),
    {
    }
}

impl core::ops::BitOr for Permissions {
    type Output = Self;

    fn bitor(self, rhs: Self) -> (r: Self)
        ensures
            r@ == self@ | rhs@,
    {
        Permissions(self.0 | rhs.0)
    }
}

impl vstd::std_specs::ops::BitOrSpecImpl for Permissions {
    open spec fn obeys_bitor_spec() -> bool {
        true
    }

    open spec fn bitor_req(self, rhs: Self) -> bool {
        true
    }

    closed spec fn bitor_spec(self, rhs: Self) -> Self {
        Permissions(self.0 | rhs.0)
    }
}

impl core::ops::BitAnd for Permissions {
    type Output = Self;

    fn bitand(self, rhs: Self) -> (r: Self)
        ensures
            r@ == self@ & rhs@,
    {
        Permissions(self.0 & rhs.0)
    }
}

impl vstd::std_specs::ops::BitAndSpecImpl for Permissions {
    open spec fn obeys_bitand_spec() -> bool {
        true
    }

    open spec fn bitand_req(self, rhs: Self) -> bool {
        true
    }

    closed spec fn bitand_spec(self, rhs: Self) -> Self {
        Permissions(self.0 & rhs.0)
    }
}

/// A union holds every flag of both of its operands.
pub proof fn lemma_permissions_union_contains(a: Permissions, b: Permissions)
    ensures
        bits_contain(a@ | b@, a@),
        bits_contain(a@ | b@, b@),
{
    let x = a@;
    let y = b@;
    assert((x | y) & x == x && (x | y) & y == y) by (bit_vector);
}

/// After `insert(f)` the set contains `f`; after `remove(f)` it shares no flag with `f`.
pub proof fn lemma_permissions_insert_remove(p: Permissions, f: Permissions)
    ensures
        bits_contain(p@ | f@, f@),
        (p@ & !f@) & f@ == 0,
        bits_contain(p@ | f@, p@),
        bits_contain(p@, p@ & !f@),
{
    let x = p@;
    let y = f@;
    assert((x | y) & y == y && (x & !y) & y == 0 && (x | y) & x == x && x & (x & !y) == (x & !y))
        by (bit_vector);
}

/// Truncation keeps every known flag and is idempotent; `from_bits` accepts exactly the
/// truncated values.
pub proof fn lemma_permissions_truncate(bits: u64)
    ensures
        permissions_truncate(permissions_truncate(bits)) == permissions_truncate(bits),
        bits_contain(PERMISSIONS_KNOWN, permissions_truncate(bits)),
{
    assert((bits & 0x67FF_FFFF_FFFFu64) & 0x67FF_FFFF_FFFFu64 == bits & 0x67FF_FFFF_FFFFu64
        && 0x67FF_FFFF_FFFFu64 & (bits & 0x67FF_FFFF_FFFFu64) == bits & 0x67FF_FFFF_FFFFu64)
        by (bit_vector);
}

/// The complement of the complement of a set of known flags is the set itself.
pub proof fn lemma_permissions_complement_involutive(p: Permissions)
    requires
        permissions_truncate(p@) == p@,
    ensures
        permissions_truncate(!permissions_truncate(!p@)) == p@,
{
    let x = p@;
    assert(x & 0x67FF_FFFF_FFFFu64 == x ==> !(!x & 0x67FF_FFFF_FFFFu64) & 0x67FF_FFFF_FFFFu64 == x)
        by (bit_vector);
}

/// Reading back the string form of permissions gives them back, once unknown flags are
/// dropped.
pub proof fn lemma_permissions_string_roundtrip(p: Permissions)
    ensures
        parse_u64_spec(decimal(p@ as nat)) == Some(p@),
        Permissions::from_bits_truncate_spec(p@)@ == permissions_truncate(p@),
{
    lemma_parse_decimal_roundtrip(p@);
}

} // verus!
