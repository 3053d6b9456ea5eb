//! The identifiers that the error messages and scheduler descriptions name:
//! entities, storages, types and the kind of a borrow.
use vstd::prelude::*;
use crate::text::{
    decimal_text, decimal_text_is_injective, is_digit_char, lemma_cancel_digits, lemma_cancel_prefix,
    lemma_cancel_suffix, lemma_decimal_shape, push_decimal,
};

verus! {

/// Whether a storage is borrowed shared or exclusively.
#[derive(Clone, Copy, PartialEq, Eq, Structural)]
pub enum Mutability {
    Shared,
    Exclusive,
}

impl Mutability {
    /// The text of `{:?}`: the variant's name.
    pub open spec fn debug_text(self) -> Seq<char> {
        match self {
            Mutability::Shared => "Shared"@,
            Mutability::Exclusive => "Exclusive"@,
        }
    }

    /// The `{:?}` text of the mutability.
    pub fn debug_string(&self) -> (s: String)
        ensures
            s@ == self.debug_text(),
    {
        match self {
            Mutability::Shared => String::from_str("Shared"),
            Mutability::Exclusive => String::from_str("Exclusive"),
        }
    }
}

/// A stable identifier for a Rust type.
#[derive(Clone, Copy, PartialEq, Eq, Structural)]
pub struct TypeId(pub u64);

impl TypeId {
    /// The text of `{:?}`: `TypeId(n)`.
    pub open spec fn debug_text(self) -> Seq<char> {
        "TypeId("@ + decimal_text(self.0 as nat) + ")"@
    }

    /// The `{:?}` text of the type identifier.
    pub fn debug_string(&self) -> (s: String)
        ensures
            s@ == self.debug_text(),
    {
        let mut s = String::from_str("TypeId(");
        push_decimal(&mut s, self.0);
        s.append(")");
        s
    }
}

/// Identifies a storage: by the type it holds, or by a number of the user's.
#[derive(Clone, Copy, PartialEq, Eq, Structural)]
pub enum StorageId {
    TypeId(TypeId),
    Custom(u64),
}

impl StorageId {
    /// The text of `{:?}`: `TypeId(TypeId(n))` or `Custom(n)`.
    pub open spec fn debug_text(self) -> Seq<char> {
        match self {
            StorageId::TypeId(id) => "TypeId("@ + id.debug_text() + ")"@,
            StorageId::Custom(n) => "Custom("@ + decimal_text(n as nat) + ")"@,
        }
    }

    /// The `{:?}` text of the storage identifier.
    pub fn debug_string(&self) -> (s: String)
        ensures
            s@ == self.debug_text(),
    {
        match self {
            StorageId::TypeId(id) => {
                let mut s = String::from_str("TypeId(");
                let inner = id.debug_string();
                s.append(inner.as_str());
                s.append(")");
                s
            },
            StorageId::Custom(n) => {
                let mut s = String::from_str("Custom(");
                push_decimal(&mut s, *n);
                s.append(")");
                s
            },
        }
    }

    /// Whether this storage holds the type `id`.
    pub fn is_type(&self, id: &TypeId) -> (b: bool)
        ensures
            b == (*self == StorageId::TypeId(*id)),
    {
        match self {
            StorageId::TypeId(own) => own.0 == id.0,
            StorageId::Custom(_) => false,
        }
    }
}

/// Identifies an entity: its index and the generation of that index.
#[derive(Clone, Copy, PartialEq, Eq, Structural)]
pub struct EntityId {
    pub index: u64,
    pub gen: u64,
}

impl EntityId {
    /// The text of `{:?}`: `EId(index.gen)`.
    pub open spec fn debug_text(self) -> Seq<char> {
        "EId("@ + decimal_text(self.index as nat) + "."@ + decimal_text(self.gen as nat) + ")"@
    }

    /// The `{:?}` text of the entity identifier.
    pub fn debug_string(&self) -> (s: String)
        ensures
            s@ == self.debug_text(),
    {
        let mut s = String::from_str("EId(");
        push_decimal(&mut s, self.index);
        s.append(".");
        push_decimal(&mut s, self.gen);
        s.append(")");
        s
    }
}

/// A mutability prints as the name of its variant, and the two print with
/// different lengths.
pub proof fn mutability_text_names_the_variant(a: Mutability, b: Mutability)
    ensures
        a is Shared ==> a.debug_text() == "Shared"@,
        a is Exclusive ==> a.debug_text() == "Exclusive"@,
        a != b ==> a.debug_text().len() != b.debug_text().len(),
        a.debug_text().len() > 0,
        a != b ==> a.debug_text()[0] != b.debug_text()[0],
{
    reveal_strlit("Shared");
    reveal_strlit("Exclusive");
}

/// A type identifier prints as `TypeId(n)`, and different identifiers print
/// differently.
pub proof fn type_id_text_is_its_number(a: TypeId, b: TypeId)
    ensures
        a.debug_text() == "TypeId("@ + decimal_text(a.0 as nat) + ")"@,
        a.debug_text() == b.debug_text() ==> a == b,
{
    if a.debug_text() == b.debug_text() {
        let close = ")"@;
        assert(a.debug_text() =~= "TypeId("@ + (decimal_text(a.0 as nat) + close));
        assert(b.debug_text() =~= "TypeId("@ + (decimal_text(b.0 as nat) + close));
        lemma_cancel_prefix("TypeId("@, decimal_text(a.0 as nat) + close, decimal_text(b.0 as nat) + close);
        lemma_cancel_suffix(decimal_text(a.0 as nat), decimal_text(b.0 as nat), close);
        decimal_text_is_injective(a.0 as nat, b.0 as nat);
    }
}

/// Different storage identifiers print differently: a type's storage and a
/// custom one never print alike, and within each kind the number decides.
pub proof fn storage_id_text_is_injective(a: StorageId, b: StorageId)
    ensures
        a.debug_text() == b.debug_text() ==> a == b,
{
    reveal_strlit("TypeId(");
    reveal_strlit("Custom(");
    reveal_strlit(")");
    if a.debug_text() == b.debug_text() {
        let close = ")"@;
        match (a, b) {
            (StorageId::TypeId(x), StorageId::TypeId(y)) => {
                assert(a.debug_text() =~= "TypeId("@ + (x.debug_text() + close));
                assert(b.debug_text() =~= "TypeId("@ + (y.debug_text() + close));
                lemma_cancel_prefix("TypeId("@, x.debug_text() + close, y.debug_text() + close);
                lemma_cancel_suffix(x.debug_text(), y.debug_text(), close);
                type_id_text_is_its_number(x, y);
            },
            (StorageId::Custom(x), StorageId::Custom(y)) => {
                assert(a.debug_text() =~= "Custom("@ + (decimal_text(x as nat) + close));
                assert(b.debug_text() =~= "Custom("@ + (decimal_text(y as nat) + close));
                lemma_cancel_prefix("Custom("@, decimal_text(x as nat) + close, decimal_text(y as nat) + close);
                lemma_cancel_suffix(decimal_text(x as nat), decimal_text(y as nat), close);
                decimal_text_is_injective(x as nat, y as nat);
            },
            (StorageId::TypeId(_), StorageId::Custom(_)) => {
                assert(a.debug_text()[0] == 'T');
                assert(b.debug_text()[0] == 'C');
            },
            (StorageId::Custom(_), StorageId::TypeId(_)) => {
                assert(a.debug_text()[0] == 'C');
                assert(b.debug_text()[0] == 'T');
            },
        }
    }
}

/// An entity identifier prints as `EId(index.gen)`, and different
/// identifiers print differently: the index and the generation both show.
pub proof fn entity_id_text_is_injective(a: EntityId, b: EntityId)
    ensures
        a.debug_text() == "EId("@ + decimal_text(a.index as nat) + "."@ + decimal_text(a.gen as nat)
            + ")"@,
        a.debug_text() == b.debug_text() ==> a == b,
{
    reveal_strlit(".");
    reveal_strlit(")");
    if a.debug_text() == b.debug_text() {
        let open_ = "EId("@;
        let close = ")"@;
        let ai = decimal_text(a.index as nat);
        let ag = decimal_text(a.gen as nat);
        let bi = decimal_text(b.index as nat);
        let bg = decimal_text(b.gen as nat);
        lemma_decimal_shape(a.index as nat);
        lemma_decimal_shape(a.gen as nat);
        lemma_decimal_shape(b.index as nat);
        lemma_decimal_shape(b.gen as nat);
        let ra = seq!['.'] + (ag + close);
        let rb = seq!['.'] + (bg + close);
        assert(a.debug_text() =~= open_ + (ai + ra));
        assert(b.debug_text() =~= open_ + (bi + rb));
        lemma_cancel_prefix(open_, ai + ra, bi + rb);
        assert(ra[0] == '.' && !is_digit_char(ra[0]));
        assert(rb[0] == '.' && !is_digit_char(rb[0]));
        lemma_cancel_digits(ai, ra, bi, rb);
        lemma_cancel_prefix(seq!['.'], ag + close, bg + close);
        lemma_cancel_suffix(ag, bg, close);
        decimal_text_is_injective(a.index as nat, b.index as nat);
        decimal_text_is_injective(a.gen as nat, b.gen as nat);
    }
}

} // verus!
