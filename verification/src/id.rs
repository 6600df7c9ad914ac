//! Typed identifiers: `Id<T>`, a textual or numeric id that compares by its
//! text, and `UUID<T>`, a random 128-bit id written in hyphenated form.
use crate::decimal::{decimal, format_u64, parse_u64, parse_u64_chars, IntErrorKind};
use crate::text::{str_chars, string_from_chars};
use std::marker::PhantomData;
use vstd::arithmetic::power2::pow2;
mod order;

pub use order::text_order;
use vstd::prelude::*;

verus! {

/// An id of the entity type `T`, held either as text or as a number.
#[derive(Debug)]
pub enum Id<T> {
    Str(String, PhantomData<T>),
    U64(u64, PhantomData<T>),
}

impl<T> Id<T> {
    /// The text of the id: the string itself, or the decimal form of the number.
    pub open spec fn text(&self) -> Seq<char> {
        match self {
            Id::Str(s, _) => s@,
            Id::U64(n, _) => decimal(*n as nat),
        }
    }

    /// The numeric id 0.
    pub fn new_u64() -> (r: Self)
        ensures
            r matches Id::U64(n, _) && n == 0,
    {
        Id::U64(0, PhantomData)
    }

    /// The empty textual id.
    pub fn new_str() -> (r: Self)
        ensures
            r matches Id::Str(s, _) && s@ == Seq::<char>::empty(),
    {
        Id::Str(String::new(), PhantomData)
    }

    /// The textual id `id`.
    pub fn from_str_id(id: &str) -> (r: Self)
        ensures
            r matches Id::Str(s, _) && s@ == id@,
    {
        Id::Str(id.to_string(), PhantomData)
    }

    /// The numeric id `id`.
    pub fn from_u64(id: u64) -> (r: Self)
        ensures
            r matches Id::U64(n, _) && n == id,
    {
        Id::U64(id, PhantomData)
    }

    /// The text of the id.
    pub fn as_string(&self) -> (r: String)
        ensures
            r@ == self.text(),
    {
        match self {
            Id::Str(id, _) => id.clone(),
            Id::U64(id, _) => {
                let v = format_u64(*id);
                string_from_chars(v.as_slice())
            },
        }
    }

    /// The id as a number: a numeric id as it is, a textual id parsed as a `u64`.
    pub fn as_u64(&self) -> (r: Result<u64, IntErrorKind>)
        ensures
            r == (match self {
                Id::Str(s, _) => parse_u64(s@),
                Id::U64(n, _) => Ok(*n),
            }),
    {
        match self {
            Id::Str(id, _) => {
                let v = str_chars(id.as_str());
                parse_u64_chars(v.as_slice())
            },
            Id::U64(id, _) => Ok(*id),
        }
    }

    /// The characters of the id's text.
    fn text_chars(&self) -> (r: Vec<char>)
        ensures
            r@ == self.text(),
    {
        match self {
            Id::Str(id, _) => str_chars(id.as_str()),
            Id::U64(id, _) => format_u64(*id),
        }
    }

    /// Two ids are equal when their texts are.
    pub fn same_as(&self, other: &Self) -> (r: bool)
        ensures
            r == (self.text() == other.text()),
    {
        let a = self.text_chars();
        let b = other.text_chars();
        chars_equal(a.as_slice(), b.as_slice())
    }
}

impl<T> Clone for Id<T> {
    fn clone(&self) -> (r: Self)
        ensures
            r.text() == self.text(),
            (r is Str) == (self is Str),
    {
        match self {
            Id::Str(id, _) => Id::Str(id.clone(), PhantomData),
            Id::U64(id, _) => Id::U64(*id, PhantomData),
        }
    }
}

impl<T> PartialEq for Id<T> {
    fn eq(&self, other: &Self) -> (r: bool) {
        self.same_as(other)
    }
}

impl<T> vstd::std_specs::cmp::PartialEqSpecImpl for Id<T> {
    open spec fn obeys_eq_spec() -> bool {
        true
    }

    open spec fn eq_spec(&self, other: &Self) -> bool {
        self.text() == other.text()
    }
}

impl<T> Eq for Id<T> {}

/// Whether two character sequences are equal.
pub fn chars_equal(a: &[char], b: &[char]) -> (r: bool)
    ensures
        r == (a@ == b@),
{
    if a.len() != b.len() {
        return false;
    }
    let mut i: usize = 0;
    while i < a.len()
        invariant
            a@.len() == b@.len(),
            i <= a@.len(),
            forall|k: int| 0 <= k < i ==> a@[k] == b@[k],
        decreases a@.len() - i,
    {
        if a[i] != b[i] {
            return false;
        }
        i = i + 1;
    }
    assert(a@ =~= b@);
    true
}

/// A textual id equals the numeric id whose decimal text it holds: ids
/// compare by their texts.
pub proof fn lemma_id_text_equality<T>(n: u64, s: String)
    requires
        s@ == decimal(n as nat),
    ensures
        Id::<T>::Str(s, PhantomData).text() == Id::<T>::U64(n, PhantomData).text(),
{
}

/// Reading the number back from the text of a numeric id gives the number.
pub proof fn lemma_id_text_round_trip<T>(n: u64, s: String)
    requires
        s@ == Id::<T>::U64(n, PhantomData).text(),
    ensures
        parse_u64(s@) == Ok::<u64, IntErrorKind>(n),
{
    crate::decimal::lemma_parse_decimal(n);
}

/// The lower-case hexadecimal digit `d`.
pub open spec fn hex_lower(d: int) -> char {
    if d < 10 {
        (48 + d) as char
    } else {
        (87 + d) as char
    }
}

/// The `k`-th four-bit group of `v`, counting from the most significant.
pub open spec fn nibble(v: u128, k: int) -> int {
    (v as int / pow2((4 * (31 - k)) as nat) as int) % 16
}

/// Which four-bit group the `i`-th character of the hyphenated form shows.
pub open spec fn hyphenated_group(i: int) -> int {
    if i < 8 {
        i
    } else if i < 13 {
        i - 1
    } else if i < 18 {
        i - 2
    } else if i < 23 {
        i - 3
    } else {
        i - 4
    }
}

/// The hyphenated lower-case form `xxxxxxxx-xxxx-xxxx-xxxx-xxxxxxxxxxxx` of `v`.
pub open spec fn uuid_hyphenated(v: u128) -> Seq<char> {
    Seq::new(
        36,
        |i: int|
            if i == 8 || i == 13 || i == 18 || i == 23 {
                '-'
            } else {
                hex_lower(nibble(v, hyphenated_group(i)))
            },
    )
}

/// The value that `uuid::Uuid::parse_str` reads from a text, when it accepts it.
pub uninterp spec fn parsed_uuid(text: Seq<char>) -> Option<u128>;

#[verifier::external_type_specification]
#[verifier::external_body]
pub struct ExUuidError(uuid::Error);

/// Calls `uuid::Uuid::new_v4` and gives its 128-bit value. The value is random;
/// the contract states only the version (4) and variant (RFC 4122) bits that
/// the crate sets on every value it returns.
#[verifier::external_body]
fn new_v4_value() -> (v: u128)
    ensures
        (v as int / pow2(76) as int) % 16 == 4,
        (v as int / pow2(62) as int) % 4 == 2,
{
    uuid::Uuid::new_v4().as_u128()
}

/// Calls `uuid::Uuid::parse_str` and gives the value it read. The contract ties
/// the outcome to the name `parsed_uuid` of the text: accepted exactly when the
/// name has a value, and then that value.
#[verifier::external_body]
fn parse_uuid_value(text: &str) -> (r: Result<u128, uuid::Error>)
    ensures
        r is Ok <==> parsed_uuid(text@) is Some,
        r matches Ok(v) ==> parsed_uuid(text@) == Some(v),
{
    uuid::Uuid::parse_str(text).map(|u| u.as_u128())
}

/// Writes the value with `uuid::Uuid`'s `Display` (the hyphenated lower-case
/// form). The contract states that form and that `parse_str` reads it back.
#[verifier::external_body]
fn hyphenated_text(v: u128) -> (r: String)
    ensures
        r@ == uuid_hyphenated(v),
        parsed_uuid(r@) == Some(v),
{
    uuid::Uuid::from_u128(v).to_string()
}

/// A text that is not a UUID.
#[derive(Clone, Copy, Debug, PartialEq, Eq, Structural)]
pub struct InvalidUuid;

/// A universally unique id of the entity type `T`, held as its 128-bit value.
#[derive(Debug)]
pub struct UUID<T>(pub u128, pub PhantomData<T>);

impl<T> Clone for UUID<T> {
    fn clone(&self) -> (r: Self)
        ensures
            r.0 == self.0,
    {
        UUID(self.0, PhantomData)
    }
}

impl<T> Copy for UUID<T> {}

impl<T> PartialEq for UUID<T> {
    fn eq(&self, other: &Self) -> (r: bool) {
        self.0 == other.0
    }
}

impl<T> vstd::std_specs::cmp::PartialEqSpecImpl for UUID<T> {
    open spec fn obeys_eq_spec() -> bool {
        true
    }

    open spec fn eq_spec(&self, other: &Self) -> bool {
        self.0 == other.0
    }
}

impl<T> Eq for UUID<T> {}

impl<T> UUID<T> {
    /// A new random version-4 id.
    pub fn new() -> (r: Self)
        ensures
            (r.0 as int / pow2(76) as int) % 16 == 4,
            (r.0 as int / pow2(62) as int) % 4 == 2,
    {
        UUID(new_v4_value(), PhantomData)
    }

    /// Reads an id from its text, in any form `uuid::Uuid::parse_str` accepts.
    pub fn try_from(id: &str) -> (r: Result<Self, InvalidUuid>)
        ensures
            r is Ok <==> parsed_uuid(id@) is Some,
            r matches Ok(u) ==> parsed_uuid(id@) == Some(u.0),
    {
        match parse_uuid_value(id) {
            Ok(v) => Ok(UUID(v, PhantomData)),
            Err(_) => Err(InvalidUuid),
        }
    }

    /// The hyphenated lower-case text of the id.
    pub fn to_string(&self) -> (r: String)
        ensures
            r@ == uuid_hyphenated(self.0),
            parsed_uuid(r@) == Some(self.0),
    {
        hyphenated_text(self.0)
    }
}

/// Hands out new random ids of the entity type `T`.
pub struct NextUUID<T>(pub PhantomData<T>);

impl<T> NextUUID<T> {
    pub fn new() -> (r: Self) {
        NextUUID(PhantomData)
    }

    /// A new random version-4 id.
    pub fn next(&self) -> (r: UUID<T>)
        ensures
            (r.0 as int / pow2(76) as int) % 16 == 4,
            (r.0 as int / pow2(62) as int) % 4 == 2,
    {
        UUID::new()
    }
}

impl<T> Default for NextUUID<T> {
    fn default() -> (r: Self) {
        Self::new()
    }
}

} // verus!
