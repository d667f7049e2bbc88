//! The permissions a member holds in an event, kept as a set of bits.

use vstd::prelude::*;
use crate::text::{i32_to_binary_text, pad_left, bin_digits, i32_bits_value};

verus! {

/// Whether the bit set `bits` shares a bit with `permission`.
pub open spec fn grants(bits: i32, permission: i32) -> bool {
    bits & permission != 0
}

/// The permissions of one member of an event.
#[derive(Debug, Clone, Copy, PartialEq, Eq)]
pub struct EventPermissions {
    bits: i32,
}

impl View for EventPermissions {
    type V = i32;

    closed spec fn view(&self) -> i32 {
        self.bits
    }
}

impl EventPermissions {
    /// The event's owner.
    pub const OWNER: i32 = 4;
    /// An administrator of the event.
    pub const ADMIN: i32 = 2;
    /// An ordinary member.
    pub const MEMBER: i32 = 1;
    /// May create albums.
    pub const CREATE_ALBUM: i32 = 8;
    /// May delete albums.
    pub const DELETE_ALBUM: i32 = 16;
    /// May upload photos.
    pub const UPLOAD_PHOTO: i32 = 32;
    /// May delete photos.
    pub const DELETE_PHOTO: i32 = 64;

    /// No permission at all.
    pub fn new() -> (p: Self)
        ensures
            p@ == 0,
    {
        EventPermissions { bits: 0 }
    }

    /// The permissions whose bits are `bits`.
    pub fn new_value(bits: i32) -> (p: Self)
        ensures
            p@ == bits,
    {
        EventPermissions { bits }
    }

    /// No permission at all.
    pub fn empty() -> (p: Self)
        ensures
            p@ == 0,
    {
        EventPermissions { bits: 0 }
    }

    /// The owner's permission alone.
    pub fn full() -> (p: Self)
        ensures
            p@ == Self::OWNER,
    {
        EventPermissions { bits: Self::OWNER }
    }

    /// The bits of this permission set.
    pub fn get_bits(&self) -> (b: i32)
        ensures
            b == self@,
    {
        self.bits
    }

    /// Whether this set shares a bit with `permission`.
    pub fn check_permission(&self, permission: i32) -> (r: bool)
        ensures
            r == grants(self@, permission),
    {
        (self.bits & permission) != 0
    }

    /// Adds the bits of `permission`, and hands the set back for further calls.
    pub fn add_permission(&mut self, permission: i32) -> (r: &mut Self)
        ensures
            r@ == old(self)@ | permission,
            *final(self) == *final(r),
    {
        self.bits = self.bits | permission;
        self
    }

    /// Removes the bits of `permission`.
    pub fn remove_permission(&mut self, permission: i32)
        ensures
            final(self)@ == old(self)@ & !permission,
    {
        self.bits = self.bits & !permission;
    }

    /// Whether this set shares a bit with any of `permissions`.
    pub fn has_any_permission(&self, permissions: &[i32]) -> (r: bool)
        ensures
            r == exists|i: int| 0 <= i < permissions@.len() && grants(self@, #[trigger] permissions@[i]),
    {
        let mut i: usize = 0;
        while i < permissions.len()
            invariant
                i <= permissions@.len(),
                forall|j: int| 0 <= j < i ==> !grants(self@, #[trigger] permissions@[j]),
            decreases permissions@.len() - i,
        {
            if (self.bits & permissions[i]) != 0 {
                return true;
            }
            i = i + 1;
        }
        false
    }

    /// The bits in binary, padded with zeros to three digits (`{:03b}`).
    pub fn to_binary_string_short(&self) -> (s: String)
        ensures
            s@ == pad_left(bin_digits(i32_bits_value(self@)), 3, '0'),
    {
        i32_to_binary_text(self.bits, 3)
    }

    /// The bits in binary, without padding (`{:b}`).
    pub fn to_binary_string(&self) -> (s: String)
        ensures
            s@ == bin_digits(i32_bits_value(self@)),
    {
        i32_to_binary_text(self.bits, 0)
    }
}

/// After a permission is added, the set grants it (where it has a bit at all).
pub proof fn law_added_permission_is_granted(bits: i32, permission: i32)
    requires
        permission != 0,
    ensures
        grants(bits | permission, permission),
{
    assert(permission != 0 ==> (bits | permission) & permission != 0) by (bit_vector);
}

/// After a permission is removed, the set no longer grants it.
pub proof fn law_removed_permission_is_not_granted(bits: i32, permission: i32)
    ensures
        !grants(bits & !permission, permission),
{
    assert((bits & !permission) & permission == 0) by (bit_vector);
}

/// Adding a permission leaves every other answer as it was, except that what
/// shares a bit with the added permission is now granted.
pub proof fn law_add_keeps_others(bits: i32, permission: i32, other: i32)
    ensures
        grants(bits | permission, other) == (grants(bits, other) || grants(permission, other)),
{
    assert(((bits | permission) & other != 0) == ((bits & other != 0) || (permission & other != 0)))
        by (bit_vector);
}

/// Removing a permission leaves the answer for a permission that shares no bit
/// with it as it was.
pub proof fn law_remove_keeps_disjoint(bits: i32, permission: i32, other: i32)
    requires
        permission & other == 0,
    ensures
        grants(bits & !permission, other) == grants(bits, other),
{
    assert(permission & other == 0 ==> (((bits & !permission) & other != 0) == (bits & other != 0)))
        by (bit_vector);
}

/// Adding a permission twice is the same as adding it once, and removing what
/// was just added gives the set without those bits.
pub proof fn law_add_idempotent_and_undone(bits: i32, permission: i32)
    ensures
        (bits | permission) | permission == bits | permission,
        (bits | permission) & !permission == bits & !permission,
{
    assert((bits | permission) | permission == bits | permission) by (bit_vector);
    assert((bits | permission) & !permission == bits & !permission) by (bit_vector);
}

/// The owner's set: it grants `OWNER` and nothing of `ADMIN` or `MEMBER`.
pub proof fn law_full_is_owner_only()
    ensures
        grants(EventPermissions::OWNER, EventPermissions::OWNER),
        !grants(EventPermissions::OWNER, EventPermissions::ADMIN),
        !grants(EventPermissions::OWNER, EventPermissions::MEMBER),
{
    assert(4i32 & 4i32 == 4i32) by (bit_vector);
    assert(4i32 & 2i32 == 0i32) by (bit_vector);
    assert(4i32 & 1i32 == 0i32) by (bit_vector);
}

} // verus!
