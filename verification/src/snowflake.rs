//! Snowflake IDs: unique 64-bit identifiers, carried as decimal strings on the wire.
use vstd::prelude::*;
use crate::text::{decimal, parse_u64, parse_u64_spec, u64_to_decimal, lemma_parse_decimal_roundtrip};

verus! {

/// Milliseconds between the Unix epoch and the Discord epoch (2015-01-01T00:00:00Z).
pub const DISCORD_EPOCH: u64 = 1420070400000;

/// A Discord Snowflake ID.
///
/// Snowflakes are unique 64-bit unsigned integers. They are rendered as decimal
/// strings so that no precision is lost in languages with limited integer precision.
#[derive(Debug, Clone, Copy, PartialEq, Eq, Hash, Structural)]
pub struct Snowflake(pub u64);

/// Milliseconds since the Discord epoch that a snowflake's top 42 bits carry, as a Unix time.
pub open spec fn snowflake_timestamp(id: u64) -> int {
    id as int / 0x40_0000 + DISCORD_EPOCH as int
}

/// The internal worker ID: bits 17 to 21.
pub open spec fn snowflake_worker_id(id: u64) -> int {
    (id as int / 0x2_0000) % 32
}

/// The internal process ID: bits 12 to 16.
pub open spec fn snowflake_process_id(id: u64) -> int {
    (id as int / 0x1000) % 32
}

/// The per-millisecond sequence number: bits 0 to 11.
pub open spec fn snowflake_increment(id: u64) -> int {
    id as int % 0x1000
}

impl Default for Snowflake {
    fn default() -> (r: Self)
        ensures
            r.0 == 0,
    {
        Snowflake(0)
    }
}

impl Snowflake {
    /// Create a new Snowflake from a u64 value.
    pub fn new(id: u64) -> (r: Self)
        ensures
            r.0 == id,
    {
        Snowflake(id)
    }

    /// Get the raw u64 value.
    pub fn get(self) -> (r: u64)
        ensures
            r == self.0,
    {
        self.0
    }

    /// Extract the timestamp: milliseconds since the Unix epoch.
    pub fn timestamp(self) -> (r: u64)
        ensures
            r == snowflake_timestamp(self.0),
    {
        let x = self.0;
        let hi = x >> 22u64;
        assert(hi == x / 0x40_0000 && hi <= 0x3ff_ffff_ffff) by (bit_vector)
            requires
                hi == x >> 22u64,
        ;
        hi + DISCORD_EPOCH
    }

    /// Extract the internal worker ID.
    pub fn worker_id(self) -> (r: u8)
        ensures
            r == snowflake_worker_id(self.0),
    {
        let x = self.0;
        let w = (x & 0x3E0000u64) >> 17u64;
        assert(w == (x / 0x2_0000) % 32 && w < 32) by (bit_vector)
            requires
                w == (x & 0x3E0000u64) >> 17u64,
        ;
        w as u8
    }

    /// Extract the internal process ID.
    pub fn process_id(self) -> (r: u8)
        ensures
            r == snowflake_process_id(self.0),
    {
        let x = self.0;
        let p = (x & 0x1F000u64) >> 12u64;
        assert(p == (x / 0x1000) % 32 && p < 32) by (bit_vector)
            requires
                p == (x & 0x1F000u64) >> 12u64,
        ;
        p as u8
    }

    /// Extract the increment (sequence number within the same millisecond).
    pub fn increment(self) -> (r: u16)
        ensures
            r == snowflake_increment(self.0),
    {
        let x = self.0;
        let i = x & 0xFFFu64;
        assert(i == x % 0x1000 && i < 0x1000) by (bit_vector)
            requires
                i == x & 0xFFFu64,
        ;
        i as u16
    }

    /// The decimal rendering of this snowflake, as it is written on the wire.
    pub fn to_string(&self) -> (r: String)
        ensures
            r@ == decimal(self.0 as nat),
    {
        u64_to_decimal(self.0)
    }

    /// Reads a snowflake from its string form: an unsigned 64-bit decimal number.
    pub fn parse(s: &str) -> (r: Option<Snowflake>)
        ensures
            r == (match parse_u64_spec(s@) {
                Some(v) => Some(Snowflake(v)),
                None => None::<Snowflake>,
            }),
    {
        match parse_u64(s) {
            Some(v) => Some(Snowflake(v)),
            None => None,
        }
    }

    /// Reads a snowflake from a signed integer: the two's-complement bits are kept.
    pub fn from_i64(value: i64) -> (r: Snowflake)
        ensures
            value >= 0 ==> r.0 == value,
            value < 0 ==> r.0 == value + 0x1_0000_0000_0000_0000,
    {
        let v = value as u64;
        assert(value >= 0 ==> v == value) by (bit_vector)
            requires
                v == value as u64,
        ;
        assert(value < 0 ==> v == value + 0x1_0000_0000_0000_0000) by (bit_vector)
            requires
                v == value as u64,
        ;
        Snowflake(v)
    }
}

impl From<u64> for Snowflake {
    fn from(value: u64) -> (r: Self) {
        Snowflake(value)
    }
}

impl vstd::std_specs::convert::FromSpecImpl<u64> for Snowflake {
    open spec fn obeys_from_spec() -> bool {
        true
    }

    open spec fn from_spec(v: u64) -> Snowflake {
        Snowflake(v)
    }
}

impl From<Snowflake> for u64 {
    fn from(snowflake: Snowflake) -> (r: u64) {
        snowflake.0
    }
}

impl vstd::std_specs::convert::FromSpecImpl<Snowflake> for u64 {
    open spec fn obeys_from_spec() -> bool {
        true
    }

    open spec fn from_spec(v: Snowflake) -> u64 {
        v.0
    }
}

/// A snowflake read back from its own string form is the snowflake itself.
pub proof fn lemma_snowflake_string_roundtrip(id: Snowflake)
    ensures
        parse_u64_spec(decimal(id.0 as nat)) == Some(id.0),
{
    lemma_parse_decimal_roundtrip(id.0);
}

/// A snowflake is its own number: converting a number to a snowflake and back gives the
/// number.
pub proof fn lemma_snowflake_u64_roundtrip(value: u64)
    ensures
        <u64 as vstd::std_specs::convert::FromSpec<Snowflake>>::from_spec(
            <Snowflake as vstd::std_specs::convert::FromSpec<u64>>::from_spec(value),
        ) == value,
{
}

/// The four parts of a snowflake (timestamp, worker, process, increment) make up the whole
/// identifier.
pub proof fn lemma_snowflake_parts(id: u64)
    ensures
        (snowflake_timestamp(id) - DISCORD_EPOCH) * 0x40_0000 + snowflake_worker_id(id) * 0x2_0000
            + snowflake_process_id(id) * 0x1000 + snowflake_increment(id) == id,
        0 <= snowflake_worker_id(id) < 32,
        0 <= snowflake_process_id(id) < 32,
        0 <= snowflake_increment(id) < 0x1000,
{
    let a = id as int;
    assert(a == (a / 0x40_0000) * 0x40_0000 + ((a / 0x2_0000) % 32) * 0x2_0000 + ((a / 0x1000) % 32) * 0x1000
        + a % 0x1000) by (nonlinear_arith)
        requires
            a >= 0,
    ;
}

} // verus!
