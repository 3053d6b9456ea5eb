//! All error types, and the message that each of them prints.
//!
//! Each type's `debug_string` gives the text of its `{:?}` and `to_string` the
//! text of its `{}`; the two are the same text, `debug_text` in the contracts.
use vstd::prelude::*;
use crate::ids::{entity_id_text_is_injective, EntityId};
use crate::text::{lemma_cancel_prefix, lemma_cancel_suffix};

verus! {

/// A borrow that could not be made.
///
/// Unique means the storage was mutably borrowed when an illegal borrow occured.
///
/// Shared means the storage was immutably borrowed when an illegal borrow occured.
///
/// WrongThread is linked to !Send, when trying to access them from an other thread.
///
/// MultipleThreads is when !Send types are accessed from multiple threads.
#[derive(Clone, Copy, PartialEq, Eq, Structural)]
pub enum Borrow {
    Unique,
    Shared,
    WrongThread,
    MultipleThreads,
}

impl Borrow {
    /// The message of the borrow error.
    pub open spec fn debug_text(self) -> Seq<char> {
        match self {
            Borrow::Unique => "Cannot mutably borrow while already borrowed."@,
            Borrow::Shared => "Cannot immutably borrow while already mutably borrowed."@,
            Borrow::WrongThread => "Can't access from another thread because it's !Send and !Sync."@,
            Borrow::MultipleThreads =>
                "Can't access from multiple threads at the same time because it's !Sync."@,
        }
    }

    /// The text of `{:?}`.
    pub fn debug_string(&self) -> (s: String)
        ensures
            s@ == self.debug_text(),
    {
        match self {
            Borrow::Unique => String::from_str("Cannot mutably borrow while already borrowed."),
            Borrow::Shared => String::from_str(
                "Cannot immutably borrow while already mutably borrowed.",
            ),
            Borrow::WrongThread => String::from_str(
                "Can't access from another thread because it's !Send and !Sync.",
            ),
            Borrow::MultipleThreads => String::from_str(
                "Can't access from multiple threads at the same time because it's !Sync.",
            ),
        }
    }

    /// The text of `{}`: the same as that of `{:?}`.
    pub fn to_string(&self) -> (s: String)
        ensures
            s@ == self.debug_text(),
    {
        self.debug_string()
    }
}

/// A storage that the world does not hold; it carries the storage's name.
#[derive(Clone, Copy, PartialEq, Eq)]
pub struct MissingStorage(&'static str);

impl MissingStorage {
    /// The name of the missing storage.
    pub closed spec fn name_text(self) -> Seq<char> {
        self.0@
    }

    /// The missing storage of the given name.
    pub closed spec fn named(name: &'static str) -> MissingStorage {
        MissingStorage(name)
    }

    /// The message: the name, then how to register a unique storage.
    pub open spec fn debug_text(self) -> Seq<char> {
        self.name_text()
            + " storage was not found in the World. You can register unique storage with: world.add_unique(your_unique);"@
    }

    /// The text of `{:?}`.
    pub fn debug_string(&self) -> (s: String)
        ensures
            s@ == self.debug_text(),
    {
        let mut s = String::from_str(self.0);
        s.append(
            " storage was not found in the World. You can register unique storage with: world.add_unique(your_unique);",
        );
        s
    }

    /// The text of `{}`: the same as that of `{:?}`.
    pub fn to_string(&self) -> (s: String)
        ensures
            s@ == self.debug_text(),
    {
        self.debug_string()
    }
}

impl From<&'static str> for MissingStorage {
    /// The missing storage of the given name.
    fn from(name: &'static str) -> (m: Self)
        ensures
            m.name_text() == name@,
    {
        MissingStorage(name)
    }
}

impl vstd::std_specs::convert::FromSpecImpl<&'static str> for MissingStorage {
    open spec fn obeys_from_spec() -> bool {
        true
    }

    open spec fn from_spec(name: &'static str) -> Self {
        MissingStorage::named(name)
    }
}

/// The message of a borrow of a named storage, shared by [`GetStorage`] and
/// [`UniqueRemove`].
pub open spec fn storage_borrow_text(name: Seq<char>, borrow: Borrow) -> Seq<char> {
    match borrow {
        Borrow::Unique => "Cannot mutably borrow "@ + name
            + " storage while it's already borrowed."@,
        Borrow::Shared => "Cannot immutably borrow "@ + name
            + " storage while it's already mutably borrowed."@,
        Borrow::MultipleThreads => "Cannot borrow "@ + name
            + " storage from multiple thread at the same time because it's !Sync."@,
        Borrow::WrongThread => "Cannot borrow "@ + name
            + " storage from other thread than the one it was created in because it's !Send and !Sync."@,
    }
}

fn storage_borrow_string(name: &str, borrow: Borrow) -> (s: String)
    ensures
        s@ == storage_borrow_text(name@, borrow),
{
    match borrow {
        Borrow::Unique => {
            let mut s = String::from_str("Cannot mutably borrow ");
            s.append(name);
            s.append(" storage while it's already borrowed.");
            s
        },
        Borrow::Shared => {
            let mut s = String::from_str("Cannot immutably borrow ");
            s.append(name);
            s.append(" storage while it's already mutably borrowed.");
            s
        },
        Borrow::MultipleThreads => {
            let mut s = String::from_str("Cannot borrow ");
            s.append(name);
            s.append(" storage from multiple thread at the same time because it's !Sync.");
            s
        },
        Borrow::WrongThread => {
            let mut s = String::from_str("Cannot borrow ");
            s.append(name);
            s.append(
                " storage from other thread than the one it was created in because it's !Send and !Sync.",
            );
            s
        },
    }
}

/// Error related to acquiring a storage.
#[derive(Clone, Copy, PartialEq, Eq)]
pub enum GetStorage {
    AllStoragesBorrow(Borrow),
    StorageBorrow((&'static str, Borrow)),
    Entities(Borrow),
    MissingStorage(MissingStorage),
}

impl GetStorage {
    /// Whether the error has a message: a borrow of all storages or of the
    /// entities can only fail as `Unique` or `Shared`.
    pub open spec fn has_message(self) -> bool {
        match self {
            GetStorage::AllStoragesBorrow(b) => b is Unique || b is Shared,
            GetStorage::Entities(b) => b is Unique || b is Shared,
            _ => true,
        }
    }

    /// The message of the error, where it has one.
    pub open spec fn debug_text(self) -> Seq<char> {
        match self {
            GetStorage::AllStoragesBorrow(Borrow::Unique) =>
                "Cannot mutably borrow AllStorages while it's already borrowed (AllStorages is borrowed to access any storage)."@,
            GetStorage::AllStoragesBorrow(_) =>
                "Cannot immutably borrow AllStorages while it's already mutably borrowed."@,
            GetStorage::StorageBorrow((name, borrow)) => storage_borrow_text(name@, borrow),
            GetStorage::Entities(Borrow::Unique) =>
                "Cannot mutably borrow Entities storage while it's already borrowed."@,
            GetStorage::Entities(_) =>
                "Cannot immutably borrow Entities storage while it's already mutably borrowed."@,
            GetStorage::MissingStorage(missing) => missing.debug_text(),
        }
    }

    /// The text of `{:?}`.
    pub fn debug_string(&self) -> (s: String)
        requires
            self.has_message(),
        ensures
            s@ == self.debug_text(),
    {
        match self {
            GetStorage::AllStoragesBorrow(Borrow::Unique) => String::from_str(
                "Cannot mutably borrow AllStorages while it's already borrowed (AllStorages is borrowed to access any storage).",
            ),
            GetStorage::AllStoragesBorrow(_) => String::from_str(
                "Cannot immutably borrow AllStorages while it's already mutably borrowed.",
            ),
            GetStorage::StorageBorrow((name, borrow)) => storage_borrow_string(name, *borrow),
            GetStorage::Entities(Borrow::Unique) => String::from_str(
                "Cannot mutably borrow Entities storage while it's already borrowed.",
            ),
            GetStorage::Entities(_) => String::from_str(
                "Cannot immutably borrow Entities storage while it's already mutably borrowed.",
            ),
            GetStorage::MissingStorage(missing) => missing.debug_string(),
        }
    }

    /// The text of `{}`: the same as that of `{:?}`.
    pub fn to_string(&self) -> (s: String)
        requires
            self.has_message(),
        ensures
            s@ == self.debug_text(),
    {
        self.debug_string()
    }
}

/// Error related to adding an entity.
///
/// AllStoragesBorrow means an add_storage operation is in progress.
///
/// Entities means entities is already borrowed.
#[derive(Clone, Copy, PartialEq, Eq, Structural)]
pub enum NewEntity {
    AllStoragesBorrow(Borrow),
    Entities(Borrow),
}

impl NewEntity {
    /// Whether the error has a message: all storages can only fail to be
    /// borrowed as `Unique` or `Shared`, the entities only as `Unique`.
    pub open spec fn has_message(self) -> bool {
        match self {
            NewEntity::AllStoragesBorrow(b) => b is Unique || b is Shared,
            NewEntity::Entities(b) => b is Unique,
        }
    }

    /// The message of the error, where it has one.
    pub open spec fn debug_text(self) -> Seq<char> {
        match self {
            NewEntity::AllStoragesBorrow(Borrow::Unique) =>
                "Cannot mutably borrow all storages while it's already borrowed (this include component storage)."@,
            NewEntity::AllStoragesBorrow(_) =>
                "Cannot immutably borrow all storages while it's already mutably borrowed."@,
            NewEntity::Entities(_) => "Cannot mutably borrow entities while it's already borrowed."@,
        }
    }

    /// The text of `{:?}`.
    pub fn debug_string(&self) -> (s: String)
        requires
            self.has_message(),
        ensures
            s@ == self.debug_text(),
    {
        match self {
            NewEntity::AllStoragesBorrow(Borrow::Unique) => String::from_str(
                "Cannot mutably borrow all storages while it's already borrowed (this include component storage).",
            ),
            NewEntity::AllStoragesBorrow(_) => String::from_str(
                "Cannot immutably borrow all storages while it's already mutably borrowed.",
            ),
            NewEntity::Entities(_) => String::from_str(
                "Cannot mutably borrow entities while it's already borrowed.",
            ),
        }
    }

    /// The text of `{}`: the same as that of `{:?}`.
    pub fn to_string(&self) -> (s: String)
        requires
            self.has_message(),
        ensures
            s@ == self.debug_text(),
    {
        self.debug_string()
    }
}

/// Returned when a component is added to an entity.
#[derive(Clone, Copy, PartialEq, Eq, Structural)]
pub enum AddComponent {
    EntityIsNotAlive,
}

impl AddComponent {
    /// The message of the error.
    pub open spec fn debug_text(self) -> Seq<char> {
        match self {
            AddComponent::EntityIsNotAlive => "Entity has to be alive to add component to it."@,
        }
    }

    /// The text of `{:?}`.
    pub fn debug_string(&self) -> (s: String)
        ensures
            s@ == self.debug_text(),
    {
        match self {
            AddComponent::EntityIsNotAlive => String::from_str(
                "Entity has to be alive to add component to it.",
            ),
        }
    }

    /// The text of `{}`: the same as that of `{:?}`.
    pub fn to_string(&self) -> (s: String)
        ensures
            s@ == self.debug_text(),
    {
        self.debug_string()
    }
}

/// Returned when a workload is added to the world.
#[derive(Clone, Copy, PartialEq, Eq, Structural)]
pub enum AddWorkload {
    AlreadyExists,
    Borrow,
}

impl AddWorkload {
    /// The message of the error.
    pub open spec fn debug_text(self) -> Seq<char> {
        match self {
            AddWorkload::AlreadyExists => "A workload with this name already exists."@,
            AddWorkload::Borrow => "Cannot mutably borrow the scheduler while it's already borrowed."@,
        }
    }

    /// The text of `{:?}`.
    pub fn debug_string(&self) -> (s: String)
        ensures
            s@ == self.debug_text(),
    {
        match self {
            AddWorkload::AlreadyExists => String::from_str("A workload with this name already exists."),
            AddWorkload::Borrow => String::from_str(
                "Cannot mutably borrow the scheduler while it's already borrowed.",
            ),
        }
    }

    /// The text of `{}`: the same as that of `{:?}`.
    pub fn to_string(&self) -> (s: String)
        ensures
            s@ == self.debug_text(),
    {
        self.debug_string()
    }
}

/// Trying to set the default workload to a non existant one will result in this error.
#[derive(Clone, Copy, PartialEq, Eq, Structural)]
pub enum SetDefaultWorkload {
    Borrow,
    MissingWorkload,
}

impl SetDefaultWorkload {
    /// The message of the error.
    pub open spec fn debug_text(self) -> Seq<char> {
        match self {
            SetDefaultWorkload::Borrow => "Cannot mutably borrow scheduler while it's already borrowed."@,
            SetDefaultWorkload::MissingWorkload => "No workload with this name exists."@,
        }
    }

    /// The text of `{:?}`.
    pub fn debug_string(&self) -> (s: String)
        ensures
            s@ == self.debug_text(),
    {
        match self {
            SetDefaultWorkload::Borrow => String::from_str(
                "Cannot mutably borrow scheduler while it's already borrowed.",
            ),
            SetDefaultWorkload::MissingWorkload => String::from_str("No workload with this name exists."),
        }
    }

    /// The text of `{}`: the same as that of `{:?}`.
    pub fn to_string(&self) -> (s: String)
        ensures
            s@ == self.debug_text(),
    {
        self.debug_string()
    }
}

/// Error returned when a workload runs: a scheduler that could not be
/// borrowed, a system that failed, or a workload that does not exist.
///
/// The error that a system returns of its own is carried as a value of `E`.
pub enum RunWorkload<E> {
    Scheduler,
    Run((&'static str, Run<E>)),
    MissingWorkload,
}

impl<E> RunWorkload<E> {
    /// The custom error that a failed system returned, if that is what this is.
    pub open spec fn custom_payload(self) -> Option<Box<E>> {
        match self {
            RunWorkload::Run((_, Run::Custom(error))) => Some(error),
            _ => None,
        }
    }

    /// Gives back the custom error that a failed system returned; `None` for
    /// every other error.
    pub fn custom_error(self) -> (r: Option<Box<E>>)
        ensures
            r == self.custom_payload(),
    {
        match self {
            RunWorkload::Run((_, Run::Custom(error))) => Some(error),
            _ => None,
        }
    }

    /// Whether the error has a message: that of a failed system's error, where
    /// there is one.
    pub open spec fn has_message(self) -> bool {
        match self {
            RunWorkload::Run((_, run)) => run.has_message(),
            _ => true,
        }
    }

    /// The message of the error, where it has one.
    pub open spec fn debug_text(self) -> Seq<char> {
        match self {
            RunWorkload::Scheduler => "Cannot borrow the scheduler while it's already mutably borrowed."@,
            RunWorkload::MissingWorkload => "No workload with this name exists."@,
            RunWorkload::Run((system_name, run)) => "System "@ + system_name@ + " failed: "@
                + run.debug_text(),
        }
    }

    /// The text of `{:?}`.
    pub fn debug_string(&self) -> (s: String)
        requires
            self.has_message(),
        ensures
            s@ == self.debug_text(),
    {
        match self {
            RunWorkload::Scheduler => String::from_str(
                "Cannot borrow the scheduler while it's already mutably borrowed.",
            ),
            RunWorkload::MissingWorkload => String::from_str("No workload with this name exists."),
            RunWorkload::Run((system_name, run)) => {
                let mut s = String::from_str("System ");
                s.append(system_name);
                s.append(" failed: ");
                let inner = run.debug_string();
                s.append(inner.as_str());
                s
            },
        }
    }

    /// The text of `{}`: the same as that of `{:?}`.
    pub fn to_string(&self) -> (s: String)
        requires
            self.has_message(),
        ensures
            s@ == self.debug_text(),
    {
        self.debug_string()
    }
}

/// Error returned when a system runs: a storage that could not be acquired,
/// or the system's own error, carried as a value of `E`.
pub enum Run<E> {
    GetStorage(GetStorage),
    Custom(Box<E>),
}

impl<E> From<GetStorage> for Run<E> {
    /// The failure to acquire a storage.
    fn from(get_storage: GetStorage) -> (r: Self) {
        Run::GetStorage(get_storage)
    }
}

impl<E> vstd::std_specs::convert::FromSpecImpl<GetStorage> for Run<E> {
    open spec fn obeys_from_spec() -> bool {
        true
    }

    open spec fn from_spec(get_storage: GetStorage) -> Self {
        Run::GetStorage(get_storage)
    }
}

impl<E> Run<E> {
    /// The failure of a system with an error of its own, boxed.
    pub fn from_custom(error: E) -> (r: Self)
        ensures
            r == Run::<E>::Custom(Box::new(error)),
    {
        Run::Custom(Box::new(error))
    }

    /// Whether the error has a message: that of the storage error, where it
    /// is one.
    pub open spec fn has_message(self) -> bool {
        match self {
            Run::GetStorage(get_storage) => get_storage.has_message(),
            Run::Custom(_) => true,
        }
    }

    /// The message of the error, where it has one; a custom error is not read.
    pub open spec fn debug_text(self) -> Seq<char> {
        match self {
            Run::GetStorage(get_storage) => get_storage.debug_text(),
            Run::Custom(_) => "run failed with a custom error."@,
        }
    }

    /// The text of `{:?}`.
    pub fn debug_string(&self) -> (s: String)
        requires
            self.has_message(),
        ensures
            s@ == self.debug_text(),
    {
        match self {
            Run::GetStorage(get_storage) => get_storage.debug_string(),
            Run::Custom(_) => String::from_str("run failed with a custom error."),
        }
    }

    /// The text of `{}`: the same as that of `{:?}`.
    pub fn to_string(&self) -> (s: String)
        requires
            self.has_message(),
        ensures
            s@ == self.debug_text(),
    {
        self.debug_string()
    }
}

/// Error when trying to use update pack related function on non update packed storage.
#[derive(Clone, Copy, PartialEq, Eq, Structural)]
pub struct NotUpdatePack;

impl NotUpdatePack {
    /// The message of the error.
    pub open spec fn debug_text(self) -> Seq<char> {
        "The storage isn't update packed. Use `view.update_pack()` to pack it."@
    }

    /// The text of `{:?}`.
    pub fn debug_string(&self) -> (s: String)
        ensures
            s@ == self.debug_text(),
    {
        String::from_str("The storage isn't update packed. Use `view.update_pack()` to pack it.")
    }

    /// The text of `{}`: the same as that of `{:?}`.
    pub fn to_string(&self) -> (s: String)
        ensures
            s@ == self.debug_text(),
    {
        self.debug_string()
    }
}

/// Error when getting a component of an entity that does not have any in the
/// requested storage; `name` is that of the storage.
#[derive(Clone, Copy, PartialEq, Eq)]
pub struct MissingComponent {
    pub id: EntityId,
    pub name: &'static str,
}

impl MissingComponent {
    /// The message of the error: the entity, then the storage's name.
    pub open spec fn debug_text(self) -> Seq<char> {
        self.id.debug_text() + " does not have a "@ + self.name@ + " component."@
    }

    /// The text of `{:?}`.
    pub fn debug_string(&self) -> (s: String)
        ensures
            s@ == self.debug_text(),
    {
        let mut s = self.id.debug_string();
        s.append(" does not have a ");
        s.append(self.name);
        s.append(" component.");
        s
    }

    /// The text of `{}`: the same as that of `{:?}`.
    pub fn to_string(&self) -> (s: String)
        ensures
            s@ == self.debug_text(),
    {
        self.debug_string()
    }
}

/// Trying to add an invalid system to a workload will return this error.
#[derive(Clone, Copy, PartialEq, Eq, Structural)]
pub enum InvalidSystem {
    AllStorages,
    MultipleViews,
    MultipleViewsMut,
}

impl InvalidSystem {
    /// The message of the error.
    pub open spec fn debug_text(self) -> Seq<char> {
        match self {
            InvalidSystem::AllStorages =>
                "A system borrowing both AllStorages and a storage can't run. You can borrow the storage inside the system with AllStorages::borrow or AllStorages::run instead."@,
            InvalidSystem::MultipleViews =>
                "Multiple views of the same storage including an exclusive borrow, consider removing the shared borrow."@,
            InvalidSystem::MultipleViewsMut =>
                "Multiple exclusive views of the same storage, consider removing one."@,
        }
    }

    /// The text of `{:?}`.
    pub fn debug_string(&self) -> (s: String)
        ensures
            s@ == self.debug_text(),
    {
        match self {
            InvalidSystem::AllStorages => String::from_str(
                "A system borrowing both AllStorages and a storage can't run. You can borrow the storage inside the system with AllStorages::borrow or AllStorages::run instead.",
            ),
            InvalidSystem::MultipleViews => String::from_str(
                "Multiple views of the same storage including an exclusive borrow, consider removing the shared borrow.",
            ),
            InvalidSystem::MultipleViewsMut => String::from_str(
                "Multiple exclusive views of the same storage, consider removing one.",
            ),
        }
    }

    /// The text of `{}`: the same as that of `{:?}`.
    pub fn to_string(&self) -> (s: String)
        ensures
            s@ == self.debug_text(),
    {
        self.debug_string()
    }
}

/// Error returned when a unique storage is removed.
#[derive(Copy, Clone, PartialEq, Eq)]
pub enum UniqueRemove {
    AllStorages,
    MissingUnique(&'static str),
    StorageBorrow((&'static str, Borrow)),
    InsideCallback(&'static str),
}

impl UniqueRemove {
    /// Whether the error has a message: a unique storage can only fail to be
    /// borrowed for removal as `Unique` or `WrongThread`.
    pub open spec fn has_message(self) -> bool {
        match self {
            UniqueRemove::StorageBorrow((_, b)) => b is Unique || b is WrongThread,
            _ => true,
        }
    }

    /// The message of the error, where it has one.
    pub open spec fn debug_text(self) -> Seq<char> {
        match self {
            UniqueRemove::AllStorages =>
                "Cannot borrow AllStorages while it's already exclusively borrowed."@,
            UniqueRemove::MissingUnique(name) => "No unique storage exists for "@ + name@ + ".\n"@,
            UniqueRemove::StorageBorrow((name, borrow)) => storage_borrow_text(name@, borrow),
            UniqueRemove::InsideCallback(name) => "Cannot remove "@ + name@
                + " unique storage inside global callback."@,
        }
    }

    /// The text of `{:?}`.
    pub fn debug_string(&self) -> (s: String)
        requires
            self.has_message(),
        ensures
            s@ == self.debug_text(),
    {
        match self {
            UniqueRemove::AllStorages => String::from_str(
                "Cannot borrow AllStorages while it's already exclusively borrowed.",
            ),
            UniqueRemove::MissingUnique(name) => {
                let mut s = String::from_str("No unique storage exists for ");
                s.append(name);
                s.append(".\n");
                s
            },
            UniqueRemove::StorageBorrow((name, borrow)) => storage_borrow_string(name, *borrow),
            UniqueRemove::InsideCallback(name) => {
                let mut s = String::from_str("Cannot remove ");
                s.append(name);
                s.append(" unique storage inside global callback.");
                s
            },
        }
    }

    /// The text of `{}`: the same as that of `{:?}`.
    pub fn to_string(&self) -> (s: String)
        requires
            self.has_message(),
        ensures
            s@ == self.debug_text(),
    {
        self.debug_string()
    }
}

/// Error returned when a function is applied to two components of a storage.
#[derive(Clone, Copy, PartialEq, Eq, Structural)]
pub enum Apply {
    IdenticalIds,
    MissingComponent(EntityId),
}

impl Apply {
    /// The message of the error.
    pub open spec fn debug_text(self) -> Seq<char> {
        match self {
            Apply::IdenticalIds => "Cannot use apply with identical components."@,
            Apply::MissingComponent(id) => "Entity "@ + id.debug_text()
                + " does not have any component in this storage."@,
        }
    }

    /// The text of `{:?}`.
    pub fn debug_string(&self) -> (s: String)
        ensures
            s@ == self.debug_text(),
    {
        match self {
            Apply::IdenticalIds => String::from_str("Cannot use apply with identical components."),
            Apply::MissingComponent(id) => {
                let mut s = String::from_str("Entity ");
                let inner = id.debug_string();
                s.append(inner.as_str());
                s.append(" does not have any component in this storage.");
                s
            },
        }
    }

    /// The text of `{}`: the same as that of `{:?}`.
    pub fn to_string(&self) -> (s: String)
        ensures
            s@ == self.debug_text(),
    {
        self.debug_string()
    }
}

/// The missing storage made from a name carries that name.
pub proof fn missing_storage_named(name: &'static str)
    ensures
        MissingStorage::named(name).name_text() == name@,
{
}

/// A storage error turned into a system's error by `From` keeps its message,
/// and has one exactly when the storage error has one.
pub proof fn run_from_get_storage_keeps_message<E>(get_storage: GetStorage)
    ensures
        <Run<E> as vstd::std_specs::convert::FromSpec<GetStorage>>::from_spec(get_storage).has_message()
            == get_storage.has_message(),
        <Run<E> as vstd::std_specs::convert::FromSpec<GetStorage>>::from_spec(get_storage).debug_text()
            == get_storage.debug_text(),
{
}

/// What a system's custom error carries is what `custom_error` gives back
/// when the system failed with it; every other error gives back nothing.
pub proof fn custom_error_gives_back_payload<E>(system_name: &'static str, error: E, other: RunWorkload<E>)
    ensures
        RunWorkload::Run((system_name, Run::<E>::Custom(Box::new(error)))).custom_payload() == Some(
            Box::new(error),
        ),
        !(other matches RunWorkload::Run((_, Run::Custom(_)))) ==> other.custom_payload() is None,
{
}

/// The message of a borrow of a named storage holds the name whole, between a
/// fixed beginning and end that depend on the borrow alone; so two storages
/// of different names give different messages.
pub proof fn storage_borrow_message_holds_the_name(
    name: &'static str,
    other: &'static str,
    borrow: Borrow,
)
    ensures
        borrow is Unique ==> storage_borrow_text(name@, borrow) == "Cannot mutably borrow "@ + name@
            + " storage while it's already borrowed."@,
        borrow is Shared ==> storage_borrow_text(name@, borrow) == "Cannot immutably borrow "@
            + name@ + " storage while it's already mutably borrowed."@,
        borrow is MultipleThreads ==> storage_borrow_text(name@, borrow) == "Cannot borrow "@ + name@
            + " storage from multiple thread at the same time because it's !Sync."@,
        borrow is WrongThread ==> storage_borrow_text(name@, borrow) == "Cannot borrow "@ + name@
            + " storage from other thread than the one it was created in because it's !Send and !Sync."@,
        GetStorage::StorageBorrow((name, borrow)).debug_text() == storage_borrow_text(name@, borrow),
        UniqueRemove::StorageBorrow((name, borrow)).debug_text() == storage_borrow_text(name@, borrow),
        name@ != other@ ==> storage_borrow_text(name@, borrow) != storage_borrow_text(other@, borrow),
{
    if storage_borrow_text(name@, borrow) == storage_borrow_text(other@, borrow) {
        let (head, tail) = match borrow {
            Borrow::Unique => ("Cannot mutably borrow "@, " storage while it's already borrowed."@),
            Borrow::Shared => (
                "Cannot immutably borrow "@,
                " storage while it's already mutably borrowed."@,
            ),
            Borrow::MultipleThreads => (
                "Cannot borrow "@,
                " storage from multiple thread at the same time because it's !Sync."@,
            ),
            Borrow::WrongThread => (
                "Cannot borrow "@,
                " storage from other thread than the one it was created in because it's !Send and !Sync."@,
            ),
        };
        assert(storage_borrow_text(name@, borrow) =~= head + (name@ + tail));
        assert(storage_borrow_text(other@, borrow) =~= head + (other@ + tail));
        lemma_cancel_prefix(head, name@ + tail, other@ + tail);
        lemma_cancel_suffix(name@, other@, tail);
    }
}

/// The message of a missing storage begins with the storage's name, whole,
/// and goes on with how to register a unique storage; different names give
/// different messages.
pub proof fn missing_storage_message_holds_the_name(a: MissingStorage, b: MissingStorage)
    ensures
        a.debug_text() == a.name_text()
            + " storage was not found in the World. You can register unique storage with: world.add_unique(your_unique);"@,
        a.name_text() != b.name_text() ==> a.debug_text() != b.debug_text(),
        GetStorage::MissingStorage(a).debug_text() == a.debug_text(),
{
    lemma_cancel_suffix(
        a.name_text(),
        b.name_text(),
        " storage was not found in the World. You can register unique storage with: world.add_unique(your_unique);"@,
    );
}

/// The message of a failed system is `System `, the system's name, ` failed: `
/// and then the message of the system's own error, unchanged, whatever that
/// error is; so it ends with that message, and under one system name
/// different errors give different messages.
pub proof fn failed_system_message_holds_its_error<E>(
    system_name: &'static str,
    run: Run<E>,
    other: Run<E>,
)
    ensures
        RunWorkload::Run((system_name, run)).debug_text() == "System "@ + system_name@ + " failed: "@
            + run.debug_text(),
        RunWorkload::Run((system_name, run)).debug_text().subrange(
            RunWorkload::Run((system_name, run)).debug_text().len() - run.debug_text().len(),
            RunWorkload::Run((system_name, run)).debug_text().len() as int,
        ) == run.debug_text(),
        run.debug_text() != other.debug_text() ==> RunWorkload::Run((system_name, run)).debug_text()
            != RunWorkload::Run((system_name, other)).debug_text(),
        run matches Run::GetStorage(g) ==> run.debug_text() == g.debug_text(),
        run is Custom ==> run.debug_text() == "run failed with a custom error."@,
{
    let head = "System "@ + system_name@ + " failed: "@;
    let t = RunWorkload::Run((system_name, run)).debug_text();
    assert(t.subrange(t.len() - run.debug_text().len(), t.len() as int) =~= run.debug_text());
    lemma_cancel_prefix(head, run.debug_text(), other.debug_text());
}

/// The message of a missing component begins with the entity's own text,
/// `EId(index.gen)`, and then names the storage whole; two such errors give
/// the same message only for the same entity and the same storage name.
pub proof fn missing_component_message_tells_entity_and_storage(a: MissingComponent, b: MissingComponent)
    ensures
        a.debug_text() == a.id.debug_text() + " does not have a "@ + a.name@ + " component."@,
        a.debug_text() == b.debug_text() && a.name@ == b.name@ ==> a.id == b.id,
        a.debug_text() == b.debug_text() && a.id == b.id ==> a.name@ == b.name@,
{
    entity_id_text_is_injective(a.id, b.id);
    let mid = " does not have a "@;
    let end = " component."@;
    if a.debug_text() == b.debug_text() {
        if a.name@ == b.name@ {
            assert(a.debug_text() =~= a.id.debug_text() + (mid + a.name@ + end));
            assert(b.debug_text() =~= b.id.debug_text() + (mid + a.name@ + end));
            lemma_cancel_suffix(a.id.debug_text(), b.id.debug_text(), mid + a.name@ + end);
        }
        if a.id == b.id {
            let head = a.id.debug_text() + mid;
            assert(a.debug_text() =~= head + (a.name@ + end));
            assert(b.debug_text() =~= head + (b.name@ + end));
            lemma_cancel_prefix(head, a.name@ + end, b.name@ + end);
            lemma_cancel_suffix(a.name@, b.name@, end);
        }
    }
}

/// The message of a component missing for `apply` names the entity by its own
/// text; different entities give different messages.
pub proof fn apply_message_tells_entity(a: EntityId, b: EntityId)
    ensures
        Apply::MissingComponent(a).debug_text() == "Entity "@ + a.debug_text()
            + " does not have any component in this storage."@,
        a != b ==> Apply::MissingComponent(a).debug_text() != Apply::MissingComponent(b).debug_text(),
        Apply::IdenticalIds.debug_text() == "Cannot use apply with identical components."@,
{
    entity_id_text_is_injective(a, b);
    let head = "Entity "@;
    let end = " does not have any component in this storage."@;
    if Apply::MissingComponent(a).debug_text() == Apply::MissingComponent(b).debug_text() {
        assert(Apply::MissingComponent(a).debug_text() =~= head + (a.debug_text() + end));
        assert(Apply::MissingComponent(b).debug_text() =~= head + (b.debug_text() + end));
        lemma_cancel_prefix(head, a.debug_text() + end, b.debug_text() + end);
        lemma_cancel_suffix(a.debug_text(), b.debug_text(), end);
    }
}

/// The messages of a unique storage's removal hold the storage's name whole;
/// different names give different messages.
pub proof fn unique_remove_message_holds_the_name(name: &'static str, other: &'static str)
    ensures
        UniqueRemove::MissingUnique(name).debug_text() == "No unique storage exists for "@ + name@
            + ".\n"@,
        UniqueRemove::InsideCallback(name).debug_text() == "Cannot remove "@ + name@
            + " unique storage inside global callback."@,
        UniqueRemove::AllStorages.debug_text()
            == "Cannot borrow AllStorages while it's already exclusively borrowed."@,
        name@ != other@ ==> UniqueRemove::MissingUnique(name).debug_text()
            != UniqueRemove::MissingUnique(other).debug_text(),
        name@ != other@ ==> UniqueRemove::InsideCallback(name).debug_text()
            != UniqueRemove::InsideCallback(other).debug_text(),
{
    let h1 = "No unique storage exists for "@;
    let e1 = ".\n"@;
    assert(UniqueRemove::MissingUnique(name).debug_text() =~= h1 + (name@ + e1));
    assert(UniqueRemove::MissingUnique(other).debug_text() =~= h1 + (other@ + e1));
    lemma_cancel_prefix(h1, name@ + e1, other@ + e1);
    lemma_cancel_suffix(name@, other@, e1);
    let h2 = "Cannot remove "@;
    let e2 = " unique storage inside global callback."@;
    assert(UniqueRemove::InsideCallback(name).debug_text() =~= h2 + (name@ + e2));
    assert(UniqueRemove::InsideCallback(other).debug_text() =~= h2 + (other@ + e2));
    lemma_cancel_prefix(h2, name@ + e2, other@ + e2);
    lemma_cancel_suffix(name@, other@, e2);
}

/// Each kind of borrow failure has its own message, and no two kinds share
/// one.
pub proof fn borrow_messages_tell_the_kind(a: Borrow, b: Borrow)
    ensures
        Borrow::Unique.debug_text() == "Cannot mutably borrow while already borrowed."@,
        Borrow::Shared.debug_text() == "Cannot immutably borrow while already mutably borrowed."@,
        Borrow::WrongThread.debug_text()
            == "Can't access from another thread because it's !Send and !Sync."@,
        Borrow::MultipleThreads.debug_text()
            == "Can't access from multiple threads at the same time because it's !Sync."@,
        a != b ==> a.debug_text() != b.debug_text(),
{
    reveal_strlit("Cannot mutably borrow while already borrowed.");
    reveal_strlit("Cannot immutably borrow while already mutably borrowed.");
    reveal_strlit("Can't access from another thread because it's !Send and !Sync.");
    reveal_strlit("Can't access from multiple threads at the same time because it's !Sync.");
    if a != b && a.debug_text() == b.debug_text() {
        assert(a.debug_text().len() == b.debug_text().len());
    }
}

/// The messages of the scheduler's errors: each variant has its own, and no
/// two variants of one error share one.
pub proof fn scheduler_messages_tell_the_variant(
    a: AddWorkload,
    b: AddWorkload,
    c: SetDefaultWorkload,
    d: SetDefaultWorkload,
)
    ensures
        AddWorkload::AlreadyExists.debug_text() == "A workload with this name already exists."@,
        AddWorkload::Borrow.debug_text()
            == "Cannot mutably borrow the scheduler while it's already borrowed."@,
        SetDefaultWorkload::Borrow.debug_text()
            == "Cannot mutably borrow scheduler while it's already borrowed."@,
        SetDefaultWorkload::MissingWorkload.debug_text() == "No workload with this name exists."@,
        AddComponent::EntityIsNotAlive.debug_text()
            == "Entity has to be alive to add component to it."@,
        a != b ==> a.debug_text() != b.debug_text(),
        c != d ==> c.debug_text() != d.debug_text(),
{
    reveal_strlit("A workload with this name already exists.");
    reveal_strlit("Cannot mutably borrow the scheduler while it's already borrowed.");
    reveal_strlit("Cannot mutably borrow scheduler while it's already borrowed.");
    reveal_strlit("No workload with this name exists.");
    if a != b && a.debug_text() == b.debug_text() {
        assert(a.debug_text().len() == b.debug_text().len());
    }
    if c != d && c.debug_text() == d.debug_text() {
        assert(c.debug_text().len() == d.debug_text().len());
    }
}

/// The messages of a workload run that did not start: the scheduler could not
/// be borrowed, or no workload has the name; the two differ.
pub proof fn run_workload_messages_tell_the_variant<E>()
    ensures
        RunWorkload::<E>::Scheduler.debug_text()
            == "Cannot borrow the scheduler while it's already mutably borrowed."@,
        RunWorkload::<E>::MissingWorkload.debug_text() == "No workload with this name exists."@,
        RunWorkload::<E>::Scheduler.debug_text() != RunWorkload::<E>::MissingWorkload.debug_text(),
{
    reveal_strlit("Cannot borrow the scheduler while it's already mutably borrowed.");
    reveal_strlit("No workload with this name exists.");
}

/// Each invalid system has its own message, and no two share one.
pub proof fn invalid_system_messages_tell_the_variant(a: InvalidSystem, b: InvalidSystem)
    ensures
        InvalidSystem::AllStorages.debug_text()
            == "A system borrowing both AllStorages and a storage can't run. You can borrow the storage inside the system with AllStorages::borrow or AllStorages::run instead."@,
        InvalidSystem::MultipleViews.debug_text()
            == "Multiple views of the same storage including an exclusive borrow, consider removing the shared borrow."@,
        InvalidSystem::MultipleViewsMut.debug_text()
            == "Multiple exclusive views of the same storage, consider removing one."@,
        NotUpdatePack.debug_text()
            == "The storage isn't update packed. Use `view.update_pack()` to pack it."@,
        a != b ==> a.debug_text() != b.debug_text(),
{
    reveal_strlit(
        "A system borrowing both AllStorages and a storage can't run. You can borrow the storage inside the system with AllStorages::borrow or AllStorages::run instead.",
    );
    reveal_strlit(
        "Multiple views of the same storage including an exclusive borrow, consider removing the shared borrow.",
    );
    reveal_strlit("Multiple exclusive views of the same storage, consider removing one.");
    if a != b && a.debug_text() == b.debug_text() {
        assert(a.debug_text().len() == b.debug_text().len());
    }
}

/// The messages of a failure to acquire all storages or the entities: each
/// kind of borrow that can fail there has its own message, and they differ.
pub proof fn whole_storage_messages_tell_the_borrow(a: GetStorage, b: GetStorage, c: NewEntity, d: NewEntity)
    requires
        a.has_message() && !(a is StorageBorrow) && !(a is MissingStorage),
        b.has_message() && !(b is StorageBorrow) && !(b is MissingStorage),
        c.has_message(),
        d.has_message(),
    ensures
        GetStorage::AllStoragesBorrow(Borrow::Unique).debug_text()
            == "Cannot mutably borrow AllStorages while it's already borrowed (AllStorages is borrowed to access any storage)."@,
        GetStorage::AllStoragesBorrow(Borrow::Shared).debug_text()
            == "Cannot immutably borrow AllStorages while it's already mutably borrowed."@,
        GetStorage::Entities(Borrow::Unique).debug_text()
            == "Cannot mutably borrow Entities storage while it's already borrowed."@,
        GetStorage::Entities(Borrow::Shared).debug_text()
            == "Cannot immutably borrow Entities storage while it's already mutably borrowed."@,
        NewEntity::AllStoragesBorrow(Borrow::Unique).debug_text()
            == "Cannot mutably borrow all storages while it's already borrowed (this include component storage)."@,
        NewEntity::AllStoragesBorrow(Borrow::Shared).debug_text()
            == "Cannot immutably borrow all storages while it's already mutably borrowed."@,
        NewEntity::Entities(Borrow::Unique).debug_text()
            == "Cannot mutably borrow entities while it's already borrowed."@,
        a != b ==> a.debug_text() != b.debug_text(),
        c != d ==> c.debug_text() != d.debug_text(),
{
    reveal_strlit(
        "Cannot mutably borrow AllStorages while it's already borrowed (AllStorages is borrowed to access any storage).",
    );
    reveal_strlit("Cannot immutably borrow AllStorages while it's already mutably borrowed.");
    reveal_strlit("Cannot mutably borrow Entities storage while it's already borrowed.");
    reveal_strlit("Cannot immutably borrow Entities storage while it's already mutably borrowed.");
    reveal_strlit(
        "Cannot mutably borrow all storages while it's already borrowed (this include component storage).",
    );
    reveal_strlit("Cannot immutably borrow all storages while it's already mutably borrowed.");
    reveal_strlit("Cannot mutably borrow entities while it's already borrowed.");
    if a != b && a.debug_text() == b.debug_text() {
        assert(a.debug_text().len() == b.debug_text().len());
    }
    if c != d && c.debug_text() == d.debug_text() {
        assert(c.debug_text().len() == d.debug_text().len());
    }
}

} // verus!
