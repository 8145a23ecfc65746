use mvu_runtime::command::{command, CommandFn, CommandQueue};
use mvu_runtime::error::{
    Error, HostChannelClosed, ModelGetterChannelClosedError, MvuRuntimeChannelClosedError,
};
use mvu_runtime::apps::{CounterModel, SaverModel, REGION_SAVED};
use mvu_runtime::base::AdHocApp;
use mvu_runtime::region::DirtyRegions;
use mvu_runtime::world::World;
use mvu_runtime::{Token, __token};

#[test]
fn command_queue_drains_in_fifo_order() {
    let mut q: CommandQueue<u32> = CommandQueue::new();
    assert!(q.is_empty());
    q.emit(1);
    q.emit(2);
    q.emit(3);
    assert_eq!(q.len(), 3);
    assert_eq!(q.pop(), Some(1));
    assert_eq!(q.pop(), Some(2));
    assert_eq!(q.pop(), Some(3));
    assert_eq!(q.pop(), None);
}

#[test]
fn command_fn_hands_back_its_function() {
    let c: CommandFn<_, AdHocApp<CounterModel>> = command(|x: i64| x + 1);
    let f = c.into_inner();
    assert_eq!(f(41), 42);
    let c2: CommandFn<_, AdHocApp<CounterModel>> = CommandFn::new(|x: i64| x * 2);
    assert_eq!(c2.into_inner()(21), 42);
}

#[test]
fn dirty_regions_mark_once_drain_once() {
    let mut regions = DirtyRegions::new();
    assert!(regions.is_empty());
    regions.mark_with(3);
    regions.mark_with(9);
    regions.mark_with(3);
    assert!(regions.is_dirty(3));
    assert!(regions.is_dirty(9));
    assert!(!regions.is_dirty(4));
    regions.mark::<SaverModel>();
    assert!(regions.is_dirty(REGION_SAVED));
    let mut drained = regions.drain();
    drained.sort();
    assert_eq!(drained, vec![REGION_SAVED, 3, 9]);
    assert!(regions.is_empty());
    assert!(regions.drain().is_empty());
}

#[test]
fn world_stores_reads_and_mutates_services() {
    let world: World<u64> = World::new();
    let mut world = world.add_with(1, 10).add_with(2, 20).add_with(1, 11);
    assert!(world.contains_key(1));
    assert!(world.contains_key(2));
    assert!(!world.contains_key(3));
    assert_eq!(*world.get(1), 11);
    assert_eq!(world.try_get(3), None);
    *world.get_mut(2) += 5;
    assert_eq!(*world.get(2), 25);
    match world.try_get_mut(1) {
        Some(v) => *v = 100,
        None => panic!("key 1 was stored"),
    }
    assert_eq!(*world.get(1), 100);
    assert!(world.try_get_mut(9).is_none());
}

#[test]
fn error_values_convert_and_describe_themselves() {
    let e: Error = Error::from(MvuRuntimeChannelClosedError);
    assert_eq!(e, Error::MvuRuntimeChannelClosed);
    assert_eq!(e.message(), "the channel to the mvu runtime is closed");
    let e2: Error = Error::from(ModelGetterChannelClosedError);
    assert_eq!(e2, Error::ModelGetterChannelClosed);
    assert_eq!(e2.message(), "the channel to the model getter is closed");
    let e3: Error = Error::from(HostChannelClosed);
    assert_eq!(e3, Error::MvuRuntimeChannelClosed);
}

#[test]
fn tokens_can_be_minted() {
    let _t: Token = Token::new();
    let _t2: Token = __token();
}
