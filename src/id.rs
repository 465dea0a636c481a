use core::marker::PhantomData;
use vstd::prelude::*;

verus! {

/// The identifier of one event stream of aggregates `A`. It holds the
/// 128-bit value of a UUID and is a lookup key, not a handle.
#[derive(Debug)]
pub struct Id<A> {
    uuid: u128,
    phantom: PhantomData<A>,
}

/// The lower-case hexadecimal digit of `n`, for `n < 16`.
pub open spec fn hex_digit(n: u128) -> char {
    seq!['0', '1', '2', '3', '4', '5', '6', '7', '8', '9', 'a', 'b', 'c', 'd', 'e', 'f'][n as int]
}

/// How many hyphens stand before position `p` of a hyphenated UUID.
pub open spec fn hyphens_before(p: int) -> int {
    if p < 9 {
        0
    } else if p < 14 {
        1
    } else if p < 19 {
        2
    } else if p < 24 {
        3
    } else {
        4
    }
}

/// The hyphenated lower-case form of a UUID's value: 32 hexadecimal digits,
/// most significant first, with a hyphen at positions 8, 13, 18 and 23.
pub open spec fn hyphenated(v: u128) -> Seq<char> {
    Seq::new(
        36,
        |p: int|
            if p == 8 || p == 13 || p == 18 || p == 23 {
                '-'
            } else {
                hex_digit((v >> ((124 - 4 * (p - hyphens_before(p))) as u128)) & 0xf)
            },
    )
}

/// Whether `v` is the value of a random (version 4, RFC 4122 variant) UUID.
pub open spec fn is_random_uuid(v: u128) -> bool {
    &&& (v >> 76u128) & 0xf == 4
    &&& (v >> 62u128) & 0x3 == 2
}

/// Relies on uuid::Uuid::new_v4 and Uuid::as_u128: a fresh random UUID,
/// whose version nibble is 4 and whose variant bits are those of RFC 4122.
#[verifier::external_body]
fn new_random_uuid() -> (r: u128)
    ensures
        is_random_uuid(r),
{
    uuid::Uuid::new_v4().as_u128()
}

/// Relies on uuid::Uuid::from_u128 and Uuid's `Display`, which writes the
/// hyphenated lower-case form.
#[verifier::external_body]
fn uuid_to_string(v: u128) -> (r: String)
    ensures
        r@ == hyphenated(v),
{
    uuid::Uuid::from_u128(v).to_string()
}

impl<A> Id<A> {
    /// The UUID value that the identifier holds.
    pub closed spec fn spec_uuid(&self) -> u128 {
        self.uuid
    }

    /// A fresh identifier, drawn at random.
    pub fn new() -> (r: Id<A>)
        ensures
            is_random_uuid(r.spec_uuid()),
    {
        Id { uuid: new_random_uuid(), phantom: PhantomData }
    }

    /// The identifier that holds the UUID value `uuid`.
    pub fn from_u128(uuid: u128) -> (r: Id<A>)
        ensures
            r.spec_uuid() == uuid,
    {
        Id { uuid, phantom: PhantomData }
    }

    /// The UUID value that the identifier holds.
    pub fn as_u128(&self) -> (r: u128)
        ensures
            r == self.spec_uuid(),
    {
        self.uuid
    }

    /// The canonical string form: the hyphenated lower-case UUID.
    pub fn to_string(&self) -> (r: String)
        ensures
            r@ == hyphenated(self.spec_uuid()),
    {
        uuid_to_string(self.uuid)
    }

    /// Two identifiers that hold the same UUID value are the same identifier.
    pub proof fn lemma_uuid_determines(a: Id<A>, b: Id<A>)
        requires
            a.spec_uuid() == b.spec_uuid(),
        ensures
            a == b,
    {
    }
}

impl<A> Clone for Id<A> {
    fn clone(&self) -> (r: Self)
        ensures
            r == *self,
    {
        Id { uuid: self.uuid, phantom: PhantomData }
    }
}

impl<A> Copy for Id<A> {

}

impl<A> PartialEq for Id<A> {
    fn eq(&self, other: &Self) -> (r: bool) {
        self.uuid == other.uuid
    }
}

impl<A> vstd::std_specs::cmp::PartialEqSpecImpl for Id<A> {
    open spec fn obeys_eq_spec() -> bool {
        true
    }

    open spec fn eq_spec(&self, other: &Self) -> bool {
        self.spec_uuid() == other.spec_uuid()
    }
}

impl<A> Eq for Id<A> {

}

} // verus!
