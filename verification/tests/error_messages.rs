use lib::error::{
    AddComponent, AddWorkload, Apply, Borrow, GetStorage, InvalidSystem, MissingComponent,
    MissingStorage, NewEntity, NotUpdatePack, Run, RunWorkload, SetDefaultWorkload, UniqueRemove,
};
use lib::ids::EntityId;

#[test]
fn borrow_messages() {
    assert_eq!(Borrow::Unique.debug_string(), "Cannot mutably borrow while already borrowed.");
    assert_eq!(
        Borrow::Shared.debug_string(),
        "Cannot immutably borrow while already mutably borrowed."
    );
    assert_eq!(
        Borrow::WrongThread.debug_string(),
        "Can't access from another thread because it's !Send and !Sync."
    );
    assert_eq!(
        Borrow::MultipleThreads.to_string(),
        "Can't access from multiple threads at the same time because it's !Sync."
    );
}

#[test]
fn display_is_debug_for_every_error() {
    for b in [Borrow::Unique, Borrow::Shared, Borrow::WrongThread, Borrow::MultipleThreads] {
        assert_eq!(b.to_string(), b.debug_string());
    }
    let m = MissingStorage::from("Health");
    assert_eq!(m.to_string(), m.debug_string());
    let g = GetStorage::StorageBorrow(("Health", Borrow::WrongThread));
    assert_eq!(g.to_string(), g.debug_string());
    let n = NewEntity::Entities(Borrow::Unique);
    assert_eq!(n.to_string(), n.debug_string());
    assert_eq!(AddComponent::EntityIsNotAlive.to_string(), AddComponent::EntityIsNotAlive.debug_string());
    assert_eq!(AddWorkload::Borrow.to_string(), AddWorkload::Borrow.debug_string());
    assert_eq!(
        SetDefaultWorkload::MissingWorkload.to_string(),
        SetDefaultWorkload::MissingWorkload.debug_string()
    );
    let r: Run<String> = Run::from_custom(String::from("boom"));
    assert_eq!(r.to_string(), r.debug_string());
    let w: RunWorkload<String> = RunWorkload::Run(("sys", r));
    assert_eq!(w.to_string(), w.debug_string());
    assert_eq!(NotUpdatePack.to_string(), NotUpdatePack.debug_string());
    let mc = MissingComponent { id: EntityId { index: 1, gen: 2 }, name: "Pos" };
    assert_eq!(mc.to_string(), mc.debug_string());
    assert_eq!(InvalidSystem::MultipleViews.to_string(), InvalidSystem::MultipleViews.debug_string());
    let u = UniqueRemove::InsideCallback("Time");
    assert_eq!(u.to_string(), u.debug_string());
    let a = Apply::IdenticalIds;
    assert_eq!(a.to_string(), a.debug_string());
}

#[test]
fn missing_storage_names_the_storage() {
    let m = MissingStorage::from("Velocity");
    assert_eq!(
        m.debug_string(),
        "Velocity storage was not found in the World. You can register unique storage with: world.add_unique(your_unique);"
    );
}

#[test]
fn get_storage_messages() {
    assert_eq!(
        GetStorage::AllStoragesBorrow(Borrow::Unique).debug_string(),
        "Cannot mutably borrow AllStorages while it's already borrowed (AllStorages is borrowed to access any storage)."
    );
    assert_eq!(
        GetStorage::AllStoragesBorrow(Borrow::Shared).debug_string(),
        "Cannot immutably borrow AllStorages while it's already mutably borrowed."
    );
    assert_eq!(
        GetStorage::StorageBorrow(("Pos", Borrow::Unique)).debug_string(),
        "Cannot mutably borrow Pos storage while it's already borrowed."
    );
    assert_eq!(
        GetStorage::StorageBorrow(("Pos", Borrow::Shared)).debug_string(),
        "Cannot immutably borrow Pos storage while it's already mutably borrowed."
    );
    assert_eq!(
        GetStorage::StorageBorrow(("Pos", Borrow::MultipleThreads)).debug_string(),
        "Cannot borrow Pos storage from multiple thread at the same time because it's !Sync."
    );
    assert_eq!(
        GetStorage::StorageBorrow(("Pos", Borrow::WrongThread)).debug_string(),
        "Cannot borrow Pos storage from other thread than the one it was created in because it's !Send and !Sync."
    );
    assert_eq!(
        GetStorage::Entities(Borrow::Unique).debug_string(),
        "Cannot mutably borrow Entities storage while it's already borrowed."
    );
    assert_eq!(
        GetStorage::Entities(Borrow::Shared).debug_string(),
        "Cannot immutably borrow Entities storage while it's already mutably borrowed."
    );
    assert_eq!(
        GetStorage::MissingStorage(MissingStorage::from("Pos")).debug_string(),
        MissingStorage::from("Pos").debug_string()
    );
}

#[test]
fn new_entity_messages() {
    assert_eq!(
        NewEntity::AllStoragesBorrow(Borrow::Unique).debug_string(),
        "Cannot mutably borrow all storages while it's already borrowed (this include component storage)."
    );
    assert_eq!(
        NewEntity::AllStoragesBorrow(Borrow::Shared).debug_string(),
        "Cannot immutably borrow all storages while it's already mutably borrowed."
    );
    assert_eq!(
        NewEntity::Entities(Borrow::Unique).debug_string(),
        "Cannot mutably borrow entities while it's already borrowed."
    );
}

#[test]
fn workload_messages() {
    assert_eq!(
        AddComponent::EntityIsNotAlive.debug_string(),
        "Entity has to be alive to add component to it."
    );
    assert_eq!(AddWorkload::AlreadyExists.debug_string(), "A workload with this name already exists.");
    assert_eq!(
        AddWorkload::Borrow.debug_string(),
        "Cannot mutably borrow the scheduler while it's already borrowed."
    );
    assert_eq!(
        SetDefaultWorkload::Borrow.debug_string(),
        "Cannot mutably borrow scheduler while it's already borrowed."
    );
    assert_eq!(SetDefaultWorkload::MissingWorkload.debug_string(), "No workload with this name exists.");
}

#[test]
fn run_workload_messages() {
    let scheduler: RunWorkload<String> = RunWorkload::Scheduler;
    assert_eq!(
        scheduler.debug_string(),
        "Cannot borrow the scheduler while it's already mutably borrowed."
    );
    let missing: RunWorkload<String> = RunWorkload::MissingWorkload;
    assert_eq!(missing.debug_string(), "No workload with this name exists.");
    let failed: RunWorkload<String> =
        RunWorkload::Run(("physics", Run::from(GetStorage::Entities(Borrow::Shared))));
    assert_eq!(
        failed.debug_string(),
        "System physics failed: Cannot immutably borrow Entities storage while it's already mutably borrowed."
    );
    let custom: RunWorkload<String> = RunWorkload::Run(("ai", Run::from_custom(String::from("boom"))));
    assert_eq!(custom.debug_string(), "System ai failed: run failed with a custom error.");
}

#[test]
fn run_from_get_storage_keeps_its_message() {
    let g = GetStorage::StorageBorrow(("Pos", Borrow::Unique));
    let r: Run<u32> = Run::from(g);
    assert!(matches!(r, Run::GetStorage(inner) if inner == g));
    assert_eq!(r.debug_string(), g.debug_string());
}

#[test]
fn custom_error_gives_back_the_error() {
    let w: RunWorkload<String> = RunWorkload::Run(("ai", Run::from_custom(String::from("boom"))));
    assert_eq!(w.custom_error(), Some(Box::new(String::from("boom"))));
    let s: RunWorkload<String> = RunWorkload::Scheduler;
    assert_eq!(s.custom_error(), None);
    let m: RunWorkload<String> = RunWorkload::MissingWorkload;
    assert_eq!(m.custom_error(), None);
    let g: RunWorkload<String> =
        RunWorkload::Run(("sys", Run::from(GetStorage::Entities(Borrow::Unique))));
    assert_eq!(g.custom_error(), None);
}

#[test]
fn from_custom_boxes_the_error() {
    let r: Run<u8> = Run::from_custom(7);
    assert!(matches!(r, Run::Custom(b) if *b == 7));
}

#[test]
fn other_messages() {
    assert_eq!(
        NotUpdatePack.debug_string(),
        "The storage isn't update packed. Use `view.update_pack()` to pack it."
    );
    let mc = MissingComponent { id: EntityId { index: 7, gen: 0 }, name: "Position" };
    assert_eq!(mc.debug_string(), "EId(7.0) does not have a Position component.");
    assert_eq!(
        InvalidSystem::AllStorages.debug_string(),
        "A system borrowing both AllStorages and a storage can't run. You can borrow the storage inside the system with AllStorages::borrow or AllStorages::run instead."
    );
    assert_eq!(
        InvalidSystem::MultipleViews.debug_string(),
        "Multiple views of the same storage including an exclusive borrow, consider removing the shared borrow."
    );
    assert_eq!(
        InvalidSystem::MultipleViewsMut.debug_string(),
        "Multiple exclusive views of the same storage, consider removing one."
    );
}

#[test]
fn unique_remove_messages() {
    assert_eq!(
        UniqueRemove::AllStorages.debug_string(),
        "Cannot borrow AllStorages while it's already exclusively borrowed."
    );
    assert_eq!(UniqueRemove::MissingUnique("Time").debug_string(), "No unique storage exists for Time.\n");
    assert_eq!(
        UniqueRemove::StorageBorrow(("Time", Borrow::Unique)).debug_string(),
        "Cannot mutably borrow Time storage while it's already borrowed."
    );
    assert_eq!(
        UniqueRemove::StorageBorrow(("Time", Borrow::WrongThread)).debug_string(),
        "Cannot borrow Time storage from other thread than the one it was created in because it's !Send and !Sync."
    );
    assert_eq!(
        UniqueRemove::InsideCallback("Time").debug_string(),
        "Cannot remove Time unique storage inside global callback."
    );
}

#[test]
fn apply_messages() {
    assert_eq!(Apply::IdenticalIds.debug_string(), "Cannot use apply with identical components.");
    assert_eq!(
        Apply::MissingComponent(EntityId { index: 12, gen: 5 }).debug_string(),
        "Entity EId(12.5) does not have any component in this storage."
    );
}
