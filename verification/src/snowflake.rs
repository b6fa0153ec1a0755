use core::marker::PhantomData;
use vstd::prelude::*;

verus! {

/// Custom epoch of 2023-01-01T00:00:00Z in milliseconds.
pub const EPOCH: u64 = 1672531200000;

/// Marker for IDs that name a user.
#[derive(Debug, Clone, Copy, PartialEq, Eq, Structural)]
pub struct UserKind;

/// Marker for IDs that name a guild.
#[derive(Debug, Clone, Copy, PartialEq, Eq, Structural)]
pub struct GuildKind;

/// Marker for IDs that name a channel.
#[derive(Debug, Clone, Copy, PartialEq, Eq, Structural)]
pub struct ChannelKind;

/// Marker for IDs that name a message.
#[derive(Debug, Clone, Copy, PartialEq, Eq, Structural)]
pub struct MessageKind;

/// A snowflake ID used to identify entities.
///
/// Snowflakes are 64-bit integers: the high 42 bits hold a timestamp
/// offset from [`EPOCH`], the next 5 bits a worker ID, the next 5 bits
/// a process ID and the low 12 bits a sequence number. The type
/// parameter names the entity the ID belongs to, so that a user ID
/// cannot be mistaken for a guild ID.
#[derive(Debug)]
pub struct Snowflake<T> {
    pub value: u64,
    pub marker: PhantomData<T>,
}

impl<T> Snowflake<T> {
    /// Create a new snowflake from a 64-bit integer.
    pub fn new(value: u64) -> (r: Self)
        ensures
            r.value == value,
    {
        Snowflake { value, marker: PhantomData }
    }

    /// UNIX timestamp in milliseconds at which this snowflake was created.
    pub fn timestamp(&self) -> (r: u64)
        ensures
            r == (self.value >> 22) + EPOCH,
    {
        proof {
            let v = self.value;
            assert(v >> 22 <= 0x3ff_ffff_ffffu64) by (bit_vector);
        }
        (self.value >> 22) + EPOCH
    }

    /// The worker ID that generated this snowflake.
    pub fn worker_id(&self) -> (r: u64)
        ensures
            r == (self.value & 0x3E0000) >> 17,
    {
        (self.value & 0x3E0000) >> 17
    }

    /// The process ID that generated this snowflake.
    pub fn process_id(&self) -> (r: u64)
        ensures
            r == (self.value & 0x1F000) >> 12,
    {
        (self.value & 0x1F000) >> 12
    }
}

impl<T> Clone for Snowflake<T> {
    fn clone(&self) -> (r: Self)
        ensures
            r == *self,
    {
        Snowflake { value: self.value, marker: PhantomData }
    }
}

impl<T> Copy for Snowflake<T> {

}

impl<T> PartialEq for Snowflake<T> {
    fn eq(&self, other: &Self) -> (r: bool) {
        self.value == other.value
    }
}

impl<T> Eq for Snowflake<T> {

}

impl<T> vstd::std_specs::cmp::PartialEqSpecImpl for Snowflake<T> {
    open spec fn obeys_eq_spec() -> bool {
        true
    }

    open spec fn eq_spec(&self, other: &Self) -> bool {
        self.value == other.value
    }
}

} // verus!
