//! Wire handles.
use vstd::prelude::*;

verus! {

/// A 64-bit wire handle that names a server-side resource.
///
/// Layout, most significant bits first: `kind` (8 bits), `generation` (24
/// bits), `slot` index (32 bits).
///
/// The `generation` field guards against use-after-free of a reused slot: each
/// time a slot is reallocated its generation is bumped, so a stale handle
/// carrying the old generation no longer matches. When a slot's generation
/// would exceed [`Handle::GENERATION_MAX`] the slot is *retired* and never
/// reused, so the generation never wraps back to a value an old handle holds.
#[derive(Debug, Clone, Copy, PartialEq, Eq, Hash, Structural)]
pub struct Handle(u64);

impl View for Handle {
    type V = u64;

    /// The raw wire value.
    closed spec fn view(&self) -> u64 {
        self.0
    }
}

impl Handle {
    /// Number of bits in the `kind` field (the top byte).
    pub const KIND_BITS: u32 = 8;

    /// Number of bits in the `generation` field.
    pub const GENERATION_BITS: u32 = 24;

    /// Number of bits in the `slot` index field (the low word).
    pub const SLOT_BITS: u32 = 32;

    /// Largest representable generation value (`2^24 - 1`). A slot whose
    /// generation would exceed this is retired rather than reused.
    pub const GENERATION_MAX: u32 = 0xFF_FFFF;

    /// The handle whose raw wire value is `raw`.
    pub closed spec fn of(raw: u64) -> Handle {
        Handle(raw)
    }

    /// The kind field of the handle.
    pub open spec fn spec_kind(self) -> u8 {
        (self@ / 0x100_0000_0000_0000) as u8
    }

    /// The generation field of the handle.
    pub open spec fn spec_generation(self) -> u32 {
        (self@ / 0x1_0000_0000 % 0x100_0000) as u32
    }

    /// The slot field of the handle.
    pub open spec fn spec_slot(self) -> u32 {
        (self@ % 0x1_0000_0000) as u32
    }

    /// The handle with the three given fields, the generation cut to 24 bits.
    pub open spec fn pack(kind: u8, generation: u32, slot: u32) -> Handle {
        Handle::of(
            (kind * 0x100_0000_0000_0000 + (generation % 0x100_0000) * 0x1_0000_0000
                + slot) as u64,
        )
    }

    /// Pack a `kind`, `generation`, and `slot` index into a wire handle.
    ///
    /// `generation` is masked to [`Handle::GENERATION_BITS`] bits; any high bits
    /// are discarded so the packed value always round-trips through
    /// [`Handle::generation`].
    pub fn new(kind: u8, generation: u32, slot: u32) -> (h: Handle)
        ensures
            h == Handle::pack(kind, generation, slot),
    {
        assert((((kind as u64) << 56) | (((generation & 0xFF_FFFF) as u64) << 32) | (slot as u64))
            == kind * 0x100_0000_0000_0000 + (generation % 0x100_0000) * 0x1_0000_0000 + slot)
            by (bit_vector);
        let kind_bits: u64 = (kind as u64) << (Self::GENERATION_BITS + Self::SLOT_BITS);
        let generation_bits: u64 = ((generation & Self::GENERATION_MAX) as u64)
            << Self::SLOT_BITS;
        let slot_bits: u64 = slot as u64;
        Handle(kind_bits | generation_bits | slot_bits)
    }

    /// The `kind` byte (the top 8 bits).
    pub fn kind(self) -> (k: u8)
        ensures
            k == self.spec_kind(),
    {
        let raw: u64 = self.0;
        assert((raw >> 56) == raw / 0x100_0000_0000_0000) by (bit_vector);
        (raw >> (Self::GENERATION_BITS + Self::SLOT_BITS)) as u8
    }

    /// The 24-bit `generation` counter.
    pub fn generation(self) -> (g: u32)
        ensures
            g == self.spec_generation(),
    {
        let raw: u64 = self.0;
        assert((((raw >> 32) as u32) & 0xFF_FFFF) == raw / 0x1_0000_0000 % 0x100_0000)
            by (bit_vector);
        ((raw >> Self::SLOT_BITS) as u32) & Self::GENERATION_MAX
    }

    /// The 32-bit `slot` index (the low word).
    pub fn slot(self) -> (s: u32)
        ensures
            s == self.spec_slot(),
    {
        let raw: u64 = self.0;
        assert((raw as u32) == raw % 0x1_0000_0000) by (bit_vector);
        raw as u32
    }

    /// The raw 64-bit wire value.
    pub fn raw(self) -> (raw: u64)
        ensures
            raw == self@,
    {
        self.0
    }

    /// Wrap a raw 64-bit wire value.
    pub fn from_raw(raw: u64) -> (h: Handle)
        ensures
            h == Handle::of(raw),
    {
        Handle(raw)
    }
}

/// The raw value of a handle made from a raw value is that value.
pub broadcast proof fn law_raw_of(raw: u64)
    ensures
        #[trigger] Handle::of(raw)@ == raw,
{
}

/// A handle is determined by its raw value.
pub broadcast proof fn law_of_raw(h: Handle)
    ensures
        Handle::of(#[trigger] h@) == h,
{
}

/// Raw values and handles correspond one to one.
pub broadcast group group_handle_raw {
    law_raw_of,
    law_of_raw,
}

/// Packing and reading give back the fields, the generation cut to 24 bits.
pub proof fn law_pack_fields(kind: u8, generation: u32, slot: u32)
    ensures
        Handle::pack(kind, generation, slot).spec_kind() == kind,
        Handle::pack(kind, generation, slot).spec_generation() == generation % 0x100_0000,
        Handle::pack(kind, generation, slot).spec_slot() == slot,
{
}

/// A handle is determined by its three fields.
pub proof fn law_fields_pack(h: Handle)
    ensures
        Handle::pack(h.spec_kind(), h.spec_generation(), h.spec_slot()) == h,
        h.spec_generation() <= Handle::GENERATION_MAX,
{
}

/// The raw value of a handle is its kind in the top 8 bits, its generation in the
/// 24 bits below, and its slot in the low 32.
pub proof fn law_raw_layout(h: Handle)
    ensures
        h@ == h.spec_kind() * 0x100_0000_0000_0000 + h.spec_generation() * 0x1_0000_0000
            + h.spec_slot(),
        h.spec_generation() < 0x100_0000,
{
}

} // verus!
