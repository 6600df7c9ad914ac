//! The order of ids: textual ids by their text, character by character;
//! UUIDs by their value.
use crate::id::{chars_equal, Id, UUID};
use crate::text::{chars_less, lemma_text_less, text_less};
use std::cmp::Ordering;
use vstd::prelude::*;

verus! {

/// The order of two texts: equal ones are `Equal`, and otherwise the one
/// that `text_less` puts first is `Less`.
pub open spec fn text_order(a: Seq<char>, b: Seq<char>) -> Ordering {
    if a == b {
        Ordering::Equal
    } else if text_less(a, b) {
        Ordering::Less
    } else {
        Ordering::Greater
    }
}

/// Texts are in the order `Equal` exactly when they are the same, and in
/// one order one way exactly when in the other order the other way.
pub proof fn lemma_text_order(a: Seq<char>, b: Seq<char>)
    ensures
        (text_order(a, b) == Ordering::Equal) <==> a == b,
        (text_order(a, b) == Ordering::Less) <==> (text_order(b, a) == Ordering::Greater),
{
    lemma_text_less(a, b);
}

fn chars_order(a: &[char], b: &[char]) -> (r: Ordering)
    ensures
        r == text_order(a@, b@),
{
    if chars_equal(a, b) {
        Ordering::Equal
    } else if chars_less(a, b) {
        Ordering::Less
    } else {
        Ordering::Greater
    }
}

impl<T> PartialOrd for Id<T> {
    /// Ids are ordered by their texts.
    fn partial_cmp(&self, other: &Self) -> (r: Option<Ordering>) {
        let a = self.text_chars();
        let b = other.text_chars();
        Some(chars_order(a.as_slice(), b.as_slice()))
    }
}

impl<T> vstd::std_specs::cmp::PartialOrdSpecImpl for Id<T> {
    open spec fn obeys_partial_cmp_spec() -> bool {
        true
    }

    open spec fn partial_cmp_spec(&self, other: &Self) -> Option<Ordering> {
        Some(text_order(self.text(), other.text()))
    }
}

impl<T> PartialOrd for UUID<T> {
    /// UUIDs are ordered by their values (as their bytes are, most
    /// significant first).
    fn partial_cmp(&self, other: &Self) -> (r: Option<Ordering>) {
        if self.0 < other.0 {
            Some(Ordering::Less)
        } else if self.0 == other.0 {
            Some(Ordering::Equal)
        } else {
            Some(Ordering::Greater)
        }
    }
}

impl<T> vstd::std_specs::cmp::PartialOrdSpecImpl for UUID<T> {
    open spec fn obeys_partial_cmp_spec() -> bool {
        true
    }

    open spec fn partial_cmp_spec(&self, other: &Self) -> Option<Ordering> {
        Some(
            if self.0 < other.0 {
                Ordering::Less
            } else if self.0 == other.0 {
                Ordering::Equal
            } else {
                Ordering::Greater
            },
        )
    }
}

} // verus!
