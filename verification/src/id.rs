//! The identifier value: its fields, its structured encoding and its equality.

use core::cmp::Ordering;
use vstd::prelude::*;

verus! {

/// An identifier that no other identifier generated in the same process equals.
///
/// Identifiers are plain values ordered by `prefix` first and `offset` second.
#[derive(Copy, Clone, PartialEq, Eq, Structural, Ord, Hash, Debug)]
pub struct ProcessUniqueId {
    pub(crate) prefix: usize,
    pub(crate) offset: u64,
}

impl ProcessUniqueId {
    /// The prefix, as contracts speak of it.
    pub closed spec fn spec_prefix(&self) -> usize {
        self.prefix
    }

    /// The offset, as contracts speak of it.
    pub closed spec fn spec_offset(&self) -> u64 {
        self.offset
    }

    /// The value that the allocation counter issued for this identifier's block.
    #[verifier::when_used_as_spec(spec_prefix)]
    pub fn prefix(&self) -> (r: usize)
        ensures
            r == self.spec_prefix(),
    {
        self.prefix
    }

    /// The identifier's place inside its block.
    #[verifier::when_used_as_spec(spec_offset)]
    pub fn offset(&self) -> (r: u64)
        ensures
            r == self.spec_offset(),
    {
        self.offset
    }

    /// The identifier with the given fields, as contracts speak of it.
    pub closed spec fn spec_from_parts(prefix: usize, offset: u64) -> Self {
        ProcessUniqueId { prefix, offset }
    }

    /// The identifier with the given fields. Nothing is claimed by this: it
    /// names an identifier, whoever generated it.
    #[verifier::when_used_as_spec(spec_from_parts)]
    pub fn from_parts(prefix: usize, offset: u64) -> (r: Self)
        ensures
            r == Self::spec_from_parts(prefix, offset),
            r.prefix() == prefix,
            r.offset() == offset,
    {
        ProcessUniqueId { prefix, offset }
    }

    /// The structured encoding of an identifier: its two fields in order.
    pub open spec fn encoding(&self) -> (usize, u64) {
        (self.prefix(), self.offset())
    }

    /// Encodes an identifier as its two fields in order, with nothing added.
    pub fn serialize(&self) -> (r: (usize, u64))
        ensures
            r == self.encoding(),
    {
        (self.prefix, self.offset)
    }

    /// Rebuilds an identifier from its two encoded fields. Every pair decodes.
    pub fn deserialize(encoded: (usize, u64)) -> (r: Self)
        ensures
            r == Self::from_parts(encoded.0, encoded.1),
    {
        ProcessUniqueId { prefix: encoded.0, offset: encoded.1 }
    }
}

impl ProcessUniqueId {
    /// How `self` stands to `other`: by prefix, and by offset where the prefixes
    /// are equal.
    pub open spec fn order(self, other: Self) -> Ordering {
        if self.prefix() < other.prefix() {
            Ordering::Less
        } else if self.prefix() > other.prefix() {
            Ordering::Greater
        } else if self.offset() < other.offset() {
            Ordering::Less
        } else if self.offset() > other.offset() {
            Ordering::Greater
        } else {
            Ordering::Equal
        }
    }

    /// Compares two identifiers, prefix first and offset second.
    pub fn compare(&self, other: &Self) -> (r: Ordering)
        ensures
            r == self.order(*other),
    {
        if self.prefix < other.prefix {
            Ordering::Less
        } else if self.prefix > other.prefix {
            Ordering::Greater
        } else if self.offset < other.offset {
            Ordering::Less
        } else if self.offset > other.offset {
            Ordering::Greater
        } else {
            Ordering::Equal
        }
    }

    /// Whether two identifiers have the same prefix and the same offset.
    pub fn equals(&self, other: &Self) -> (r: bool)
        ensures
            r == (*self == *other),
            r == (self.prefix() == other.prefix() && self.offset() == other.offset()),
    {
        self.prefix == other.prefix && self.offset == other.offset
    }
}

impl PartialOrd for ProcessUniqueId {
    fn partial_cmp(&self, other: &Self) -> (r: Option<Ordering>) {
        Some(self.compare(other))
    }
}

impl vstd::std_specs::cmp::PartialOrdSpecImpl for ProcessUniqueId {
    open spec fn obeys_partial_cmp_spec() -> bool {
        true
    }

    open spec fn partial_cmp_spec(&self, other: &Self) -> Option<Ordering> {
        Some(self.order(*other))
    }
}

/// An identifier built from given fields has those fields.
pub broadcast proof fn lemma_parts_of_id(prefix: usize, offset: u64)
    ensures
        (#[trigger] ProcessUniqueId::from_parts(prefix, offset)).prefix() == prefix,
        ProcessUniqueId::from_parts(prefix, offset).offset() == offset,
{
}

/// An identifier is its two fields and nothing more: two identifiers with the
/// same prefix and the same offset are the same identifier.
pub proof fn lemma_id_is_its_fields(a: ProcessUniqueId, b: ProcessUniqueId)
    requires
        a.prefix() == b.prefix(),
        a.offset() == b.offset(),
    ensures
        a == b,
{
}

/// Of two identifiers exactly one holds: the first is below the second, the two
/// are equal, or the first is above the second. Which one holds is decided by
/// the prefixes, and by the offsets where the prefixes are equal.
pub proof fn lemma_order_is_total(a: ProcessUniqueId, b: ProcessUniqueId)
    ensures
        a.order(b) == Ordering::Less <==> a.prefix() < b.prefix() || (a.prefix() == b.prefix()
            && a.offset() < b.offset()),
        a.order(b) == Ordering::Equal <==> a == b,
        a.order(b) == Ordering::Greater <==> b.order(a) == Ordering::Less,
        a.order(b) == Ordering::Less ==> a != b && b.order(a) != Ordering::Less,
        b.order(a) == Ordering::Less ==> a != b && a.order(b) != Ordering::Less,
        a == b ==> a.order(b) != Ordering::Less && b.order(a) != Ordering::Less,
        a.order(b) == Ordering::Less || a == b || b.order(a) == Ordering::Less,
{
}

/// What is below something that is below a third identifier is below the third.
pub proof fn lemma_order_is_transitive(a: ProcessUniqueId, b: ProcessUniqueId, c: ProcessUniqueId)
    requires
        a.order(b) == Ordering::Less,
        b.order(c) == Ordering::Less,
    ensures
        a.order(c) == Ordering::Less,
{
}

/// Decoding what was encoded gives the identifier back, and encoding what was
/// decoded gives the pair back.
pub proof fn lemma_encoding_round_trip(id: ProcessUniqueId, encoded: (usize, u64))
    ensures
        ProcessUniqueId::from_parts(id.encoding().0, id.encoding().1) == id,
        ProcessUniqueId::from_parts(encoded.0, encoded.1).encoding() == encoded,
{
}

} // verus!
