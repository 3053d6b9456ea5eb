//! Types for displaying workload information.
use vstd::prelude::*;
use crate::ids::{Mutability, StorageId, TypeId};
use crate::text::{lemma_cancel_prefix, lemma_cancel_suffix, quoted, quoted_text};
use crate::ids::{mutability_text_names_the_variant, storage_id_text_is_injective};
use vstd::std_specs::cmp::PartialEqSpec;

verus! {

/// Contains information related to a workload.
///
/// A workload is a collection of systems with parallelism calculated based on the types borrow by the systems.
#[derive(Clone)]
pub struct WorkloadInfo {
    pub name: std::borrow::Cow<'static, str>,
    pub batch_info: Vec<BatchInfo>,
}

/// `Clone` of `std::borrow::Cow`, which a workload's name is: nothing is
/// claimed of the copy it returns.
pub assume_specification<'a, B: ?Sized + ToOwned>[<std::borrow::Cow<'a, B> as Clone>::clone](
    c: &std::borrow::Cow<'a, B>,
) -> std::borrow::Cow<'a, B>;

/// Contains information related to a batch.
///
/// A batch is a collection of system that can safely run in parallel.
#[derive(Clone)]
pub struct BatchInfo {
    pub systems: Vec<SystemInfo>,
}

/// Contains information related to a system.
#[derive(Clone)]
pub struct SystemInfo {
    pub name: &'static str,
    pub type_id: TypeId,
    pub borrow: Vec<TypeInfo>,
    pub conflict: Option<Conflict>,
}

/// Pinpoints the type and system that made a system unable to get into a batch.
#[derive(Clone)]
pub enum Conflict {
    Borrow { system: SystemId, type_info: TypeInfo },
    NotSendSync,
}

/// Identify a system.
#[derive(Clone, Copy)]
pub struct SystemId {
    pub name: &'static str,
    pub type_id: TypeId,
}

/// Identify a type.
///
/// Two of them are equal when they borrow the same storage with the same
/// mutability, whatever their names and whether the type is `Send` and `Sync`.
#[derive(Clone, Copy, Eq)]
pub struct TypeInfo {
    pub name: &'static str,
    pub mutability: Mutability,
    pub storage_id: StorageId,
    pub is_send: bool,
    pub is_sync: bool,
}

impl TypeInfo {
    /// How the name field shows: quoted for a type that is `Send` and `Sync`,
    /// otherwise wrapped to say which of the two it is not.
    pub open spec fn name_field_text(self) -> Seq<char> {
        if self.is_send && self.is_sync {
            quoted_text(self.name@)
        } else if self.is_sync {
            "shipyard::NonSend<"@ + self.name@ + ">"@
        } else if self.is_send {
            "shipyard::NonSync<"@ + self.name@ + ">"@
        } else {
            "shipyard::NonSendSync<"@ + self.name@ + ">"@
        }
    }

    /// The text of `{:?}`: the struct's name and its fields `name`,
    /// `mutability` and `storage_id`.
    pub open spec fn debug_text(self) -> Seq<char> {
        "TypeInfo { name: "@ + self.name_field_text() + ", mutability: "@
            + self.mutability.debug_text() + ", storage_id: "@ + self.storage_id.debug_text()
            + " }"@
    }

    /// The text of `{:?}`.
    pub fn debug_string(&self) -> (s: String)
        ensures
            s@ == self.debug_text(),
    {
        let mut s = String::from_str("TypeInfo { name: ");
        if self.is_send && self.is_sync {
            let name = quoted(self.name);
            s.append(name.as_str());
        } else {
            if self.is_sync {
                s.append("shipyard::NonSend<");
            } else if self.is_send {
                s.append("shipyard::NonSync<");
            } else {
                s.append("shipyard::NonSendSync<");
            }
            s.append(self.name);
            s.append(">");
        }
        s.append(", mutability: ");
        let mutability = self.mutability.debug_string();
        s.append(mutability.as_str());
        s.append(", storage_id: ");
        let storage_id = self.storage_id.debug_string();
        s.append(storage_id.as_str());
        s.append(" }");
        s
    }
}

impl PartialEq for TypeInfo {
    fn eq(&self, rhs: &Self) -> (r: bool) {
        self.storage_id == rhs.storage_id && self.mutability == rhs.mutability
    }
}

impl vstd::std_specs::cmp::PartialEqSpecImpl for TypeInfo {
    open spec fn obeys_eq_spec() -> bool {
        true
    }

    open spec fn eq_spec(&self, rhs: &Self) -> bool {
        self.storage_id == rhs.storage_id && self.mutability == rhs.mutability
    }
}

impl PartialEq<(TypeId, Mutability)> for TypeInfo {
    fn eq(&self, rhs: &(TypeId, Mutability)) -> (r: bool) {
        self.storage_id.is_type(&rhs.0) && self.mutability == rhs.1
    }
}

impl vstd::std_specs::cmp::PartialEqSpecImpl<(TypeId, Mutability)> for TypeInfo {
    open spec fn obeys_eq_spec() -> bool {
        true
    }

    open spec fn eq_spec(&self, rhs: &(TypeId, Mutability)) -> bool {
        self.storage_id == StorageId::TypeId(rhs.0) && self.mutability == rhs.1
    }
}

/// Equality of type descriptions is an equivalence relation, as its `Eq`
/// promises: reflexive, symmetric and transitive.
pub proof fn type_info_eq_is_equivalence(a: TypeInfo, b: TypeInfo, c: TypeInfo)
    ensures
        a.eq_spec(&a),
        a.eq_spec(&b) == b.eq_spec(&a),
        a.eq_spec(&b) && b.eq_spec(&c) ==> a.eq_spec(&c),
{
}

/// Equality of type descriptions looks only at the storage and the
/// mutability: neither the name nor `is_send` and `is_sync` change it.
pub proof fn type_info_eq_ignores_name_and_threads(
    a: TypeInfo,
    name: &'static str,
    is_send: bool,
    is_sync: bool,
)
    ensures
        a.eq_spec(&(TypeInfo { name, is_send, is_sync, ..a })),
{
}

/// A description equals the pair `(id, mutability)` exactly when it equals
/// every description of storage `TypeId(id)` with that mutability; so two
/// descriptions that equal the same pair equal each other.
pub proof fn type_info_eq_pair_agrees(a: TypeInfo, b: TypeInfo, id: TypeId, mutability: Mutability)
    ensures
        b.storage_id == StorageId::TypeId(id) && b.mutability == mutability ==> (a.eq_spec(&(id, mutability))
            <==> a.eq_spec(&b)),
        a.eq_spec(&(id, mutability)) && b.eq_spec(&(id, mutability)) ==> a.eq_spec(&b),
{
}

/// Two type descriptions are equal exactly when they name the same storage
/// with the same mutability; descriptions of different storages, custom or
/// not, are never equal. Against a pair, a description is equal exactly when
/// its storage is that of the pair's type and the mutabilities agree.
pub proof fn type_info_eq_is_same_storage_and_mutability(
    a: TypeInfo,
    b: TypeInfo,
    id: TypeId,
    mutability: Mutability,
)
    ensures
        a.eq_spec(&b) == (a.storage_id == b.storage_id && a.mutability == b.mutability),
        a.storage_id != b.storage_id ==> !a.eq_spec(&b),
        a.mutability != b.mutability ==> !a.eq_spec(&b),
        a.eq_spec(&(id, mutability)) == (a.storage_id == StorageId::TypeId(id) && a.mutability
            == mutability),
{
}

/// The `{:?}` text of a type description shows its three fields in order:
/// the name (quoted for a `Send` and `Sync` type, otherwise wrapped in the
/// marker of what the type is not), then the mutability's own text, then the
/// storage's own text. `is_send` and `is_sync` change only the name field.
pub proof fn type_info_text_shows_each_field(t: TypeInfo, is_send: bool, is_sync: bool)
    ensures
        t.debug_text() == "TypeInfo { name: "@ + t.name_field_text() + ", mutability: "@
            + t.mutability.debug_text() + ", storage_id: "@ + t.storage_id.debug_text() + " }"@,
        t.is_send && t.is_sync ==> t.name_field_text() == quoted_text(t.name@),
        !t.is_send && t.is_sync ==> t.name_field_text() == "shipyard::NonSend<"@ + t.name@ + ">"@,
        t.is_send && !t.is_sync ==> t.name_field_text() == "shipyard::NonSync<"@ + t.name@ + ">"@,
        !t.is_send && !t.is_sync ==> t.name_field_text() == "shipyard::NonSendSync<"@ + t.name@
            + ">"@,
        (TypeInfo { is_send, is_sync, ..t }).debug_text() == "TypeInfo { name: "@ + (TypeInfo {
            is_send,
            is_sync,
            ..t
        }).name_field_text() + ", mutability: "@ + t.mutability.debug_text() + ", storage_id: "@
            + t.storage_id.debug_text() + " }"@,
{
}

/// Descriptions that differ in their mutability, or in their storage, print
/// differently: each of the two always shows in the text.
pub proof fn type_info_text_tells_mutability_and_storage(a: TypeInfo, b: TypeInfo)
    requires
        a.name == b.name,
        a.is_send == b.is_send,
        a.is_sync == b.is_sync,
    ensures
        a.mutability != b.mutability ==> a.debug_text() != b.debug_text(),
        a.storage_id != b.storage_id ==> a.debug_text() != b.debug_text(),
{
    mutability_text_names_the_variant(a.mutability, b.mutability);
    mutability_text_names_the_variant(b.mutability, a.mutability);
    if a.debug_text() == b.debug_text() {
        let head = "TypeInfo { name: "@ + a.name_field_text() + ", mutability: "@;
        assert(a.name_field_text() == b.name_field_text());
        let tail = " }"@;
        let sa = ", storage_id: "@ + a.storage_id.debug_text();
        let sb = ", storage_id: "@ + b.storage_id.debug_text();
        let ra = a.mutability.debug_text() + (sa + tail);
        let rb = b.mutability.debug_text() + (sb + tail);
        assert(a.debug_text() =~= head + ra);
        assert(b.debug_text() =~= head + rb);
        lemma_cancel_prefix(head, ra, rb);
        assert(ra[0] == a.mutability.debug_text()[0]);
        assert(rb[0] == b.mutability.debug_text()[0]);
        assert(a.mutability == b.mutability);
        lemma_cancel_prefix(a.mutability.debug_text(), sa + tail, sb + tail);
        lemma_cancel_suffix(sa, sb, tail);
        lemma_cancel_prefix(", storage_id: "@, a.storage_id.debug_text(), b.storage_id.debug_text());
        storage_id_text_is_injective(a.storage_id, b.storage_id);
    }
}

} // verus!
