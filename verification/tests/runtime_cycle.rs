use mvu_runtime::apps::{
    CounterModel, CounterMsg, CounterQuery, SaverCmd, SaverModel, SaverMsg, SaverQuery,
    REGION_SAVED,
};
use mvu_runtime::channel::RecvAttempt;
use mvu_runtime::dispatcher::{ReplyStatus, SendRejection};
use mvu_runtime::interceptor::{CountingInterceptor, NoopInterceptor};
use mvu_runtime::runtime::{MvuRuntime, StepOutcome};

const SAVE_COUNT_KEY: u64 = 7;

#[test]
fn counter_three_increments_reads_three() {
    let (mut rt, mut disp, _refresh) =
        MvuRuntime::<CounterModel, NoopInterceptor, ()>::new(CounterModel { count: 0 });
    for _ in 0..3 {
        disp.try_send(CounterMsg::Increment).unwrap();
        assert_eq!(rt.try_step(), StepOutcome::Applied);
        while rt.next_command().is_some() {}
        rt.flush_regions();
    }
    let mut reply = disp.try_request(CounterQuery::Value).unwrap();
    assert_eq!(rt.try_step(), StepOutcome::Answered);
    match reply.try_take() {
        ReplyStatus::Ready(v) => assert_eq!(v, 3),
        _ => panic!("the getter round trip should have settled"),
    }
}

#[test]
fn increments_and_decrements_apply_in_send_order() {
    let (mut rt, mut disp, _refresh) =
        MvuRuntime::<CounterModel, NoopInterceptor, ()>::new(CounterModel { count: 0 });
    let sends = [
        CounterMsg::Increment,
        CounterMsg::Increment,
        CounterMsg::Decrement,
        CounterMsg::Increment,
    ];
    for m in sends {
        disp.try_send(m).unwrap();
    }
    let mut applied = 0;
    loop {
        match rt.try_step() {
            StepOutcome::Applied => applied += 1,
            StepOutcome::Idle => break,
            other => panic!("unexpected outcome {:?}", other),
        }
    }
    assert_eq!(applied, 4);
    assert_eq!(rt.read_model().count, 2);
}

#[test]
fn getter_observes_settled_state_after_prior_sends() {
    let (mut rt, mut disp, _refresh) =
        MvuRuntime::<CounterModel, NoopInterceptor, ()>::new(CounterModel { count: 0 });
    disp.try_send(CounterMsg::Increment).unwrap();
    let mut reply = disp.try_request(CounterQuery::Value).unwrap();
    // The query sits behind the increment on the same channel, so the answer
    // reflects the earlier send: read-after-write on one lineage.
    assert_eq!(rt.try_step(), StepOutcome::Applied);
    assert!(matches!(reply.try_take(), ReplyStatus::Pending));
    assert_eq!(rt.try_step(), StepOutcome::Answered);
    match reply.try_take() {
        ReplyStatus::Ready(v) => assert_eq!(v, 1),
        _ => panic!("the getter round trip should have settled"),
    }
}

#[test]
fn save_cycle_marks_region_runs_command_once() {
    let (mut rt, mut disp, mut refresh) = MvuRuntime::<SaverModel, NoopInterceptor, u64>::builder()
        .model(SaverModel { requested: 0 })
        .state_with(SAVE_COUNT_KEY, 0u64)
        .build();
    disp.try_send(SaverMsg::Save).unwrap();
    assert_eq!(rt.try_step(), StepOutcome::Applied);

    // The driver performs each deferred command, strictly in queue order.
    let mut ran = 0;
    while let Some(cmd) = rt.next_command() {
        match cmd {
            SaverCmd::Persist => {
                let count = *rt.world().get(SAVE_COUNT_KEY);
                *rt.world_mut().get_mut(SAVE_COUNT_KEY) = count + 1;
                ran += 1;
            }
        }
    }
    assert_eq!(ran, 1);

    let flushed = rt.flush_regions();
    assert_eq!(flushed, vec![REGION_SAVED]);
    match refresh.try_recv() {
        RecvAttempt::Got(region) => assert_eq!(region, REGION_SAVED),
        _ => panic!("one refresh event was owed"),
    }
    assert!(matches!(refresh.try_recv(), RecvAttempt::Empty));
    assert_eq!(*rt.world().get(SAVE_COUNT_KEY), 1);
}

#[test]
fn command_sending_message_does_not_reenter_same_cycle() {
    let (mut rt, mut disp, _refresh) =
        MvuRuntime::<SaverModel, NoopInterceptor, ()>::new(SaverModel { requested: 0 });
    disp.try_send(SaverMsg::Save).unwrap();
    assert_eq!(rt.try_step(), StepOutcome::Applied);
    assert_eq!(rt.read_model().requested, 1);

    while let Some(SaverCmd::Persist) = rt.next_command() {
        // The command re-expresses a mutation as a new message; it re-enters
        // the channel and must not take effect within this draining phase.
        let mut updater = rt.updater().expect("a client handle is still alive");
        updater.try_send(SaverMsg::Save).unwrap();
    }
    assert_eq!(rt.read_model().requested, 1);
    rt.flush_regions();

    assert_eq!(rt.try_step(), StepOutcome::Applied);
    assert_eq!(rt.read_model().requested, 2);
}

#[test]
fn capacity_one_second_send_meets_backpressure() {
    let (mut rt, mut disp, _refresh) = MvuRuntime::<CounterModel, NoopInterceptor, ()>::builder()
        .model(CounterModel { count: 0 })
        .buffer_size(1)
        .build();
    assert!(disp.try_send(CounterMsg::Increment).is_ok());
    // Same task, back to back, without letting the runtime drain: the second
    // send cannot proceed until the first is taken off the channel.
    assert_eq!(disp.try_send(CounterMsg::Increment), Err(SendRejection::Full));
    assert_eq!(rt.try_step(), StepOutcome::Applied);
    assert!(disp.try_send(CounterMsg::Increment).is_ok());
    assert_eq!(rt.try_step(), StepOutcome::Applied);
    assert_eq!(rt.read_model().count, 2);
}

#[test]
fn counter_saturates_at_both_ends() {
    let (mut rt, mut disp, _refresh) =
        MvuRuntime::<CounterModel, NoopInterceptor, ()>::new(CounterModel { count: i64::MAX });
    disp.try_send(CounterMsg::Increment).unwrap();
    assert_eq!(rt.try_step(), StepOutcome::Applied);
    assert_eq!(rt.read_model().count, i64::MAX);

    let (mut rt2, mut disp2, _refresh2) =
        MvuRuntime::<CounterModel, NoopInterceptor, ()>::new(CounterModel { count: i64::MIN });
    disp2.try_send(CounterMsg::Decrement).unwrap();
    assert_eq!(rt2.try_step(), StepOutcome::Applied);
    assert_eq!(rt2.read_model().count, i64::MIN);
}

#[test]
fn dropping_all_handles_stops_the_loop() {
    let (mut rt, disp, _refresh) =
        MvuRuntime::<CounterModel, NoopInterceptor, ()>::new(CounterModel { count: 0 });
    drop(disp);
    assert_eq!(rt.try_step(), StepOutcome::Stopped);
}

#[test]
fn buffered_messages_are_drained_before_shutdown() {
    let (mut rt, mut disp, _refresh) =
        MvuRuntime::<CounterModel, NoopInterceptor, ()>::new(CounterModel { count: 0 });
    disp.try_send(CounterMsg::Increment).unwrap();
    disp.try_send(CounterMsg::Increment).unwrap();
    drop(disp);
    assert_eq!(rt.try_step(), StepOutcome::Applied);
    assert_eq!(rt.try_step(), StepOutcome::Applied);
    assert_eq!(rt.try_step(), StepOutcome::Stopped);
    assert_eq!(rt.read_model().count, 2);
}

#[test]
fn send_after_runtime_dropped_reports_closed() {
    let (rt, mut disp, _refresh) =
        MvuRuntime::<CounterModel, NoopInterceptor, ()>::new(CounterModel { count: 0 });
    drop(rt);
    assert_eq!(disp.try_send(CounterMsg::Increment), Err(SendRejection::Closed));
    assert!(matches!(
        disp.try_request(CounterQuery::Value),
        Err(SendRejection::Closed)
    ));
}

#[test]
fn abandoned_round_trip_reports_closed_reply() {
    let (rt, mut disp, _refresh) =
        MvuRuntime::<CounterModel, NoopInterceptor, ()>::new(CounterModel { count: 0 });
    let mut reply = disp.try_request(CounterQuery::Value).unwrap();
    // The runtime goes away with the request still queued: the reply channel
    // is torn down and the caller learns no answer will ever come.
    drop(rt);
    assert!(matches!(reply.try_take(), ReplyStatus::Closed));
}

#[test]
fn interceptors_observe_every_message() {
    let (mut rt, mut disp, _refresh) = MvuRuntime::<CounterModel, CountingInterceptor, ()>::builder()
        .model(CounterModel { count: 0 })
        .interceptor(CountingInterceptor::new())
        .interceptor(CountingInterceptor::new())
        .build();
    disp.try_send(CounterMsg::Increment).unwrap();
    disp.try_send(CounterMsg::Decrement).unwrap();
    assert_eq!(rt.try_step(), StepOutcome::Applied);
    assert_eq!(rt.try_step(), StepOutcome::Applied);
    // Queries are not messages: interceptors must not fire for them.
    let mut reply = disp.try_request(CounterQuery::Value).unwrap();
    assert_eq!(rt.try_step(), StepOutcome::Answered);
    assert!(matches!(reply.try_take(), ReplyStatus::Ready(0)));
    let counts: Vec<u64> = rt.interceptors().iter().map(|i| i.seen).collect();
    assert_eq!(counts, vec![2, 2]);
}

#[test]
fn updater_outlives_dispatcher_for_shutdown() {
    let (mut rt, disp, _refresh) =
        MvuRuntime::<CounterModel, NoopInterceptor, ()>::new(CounterModel { count: 0 });
    let (mut updater, getter) = disp.split();
    updater.try_send(CounterMsg::Increment).unwrap();
    assert_eq!(rt.try_step(), StepOutcome::Applied);
    drop(updater);
    // The read-only half still keeps the channel open.
    assert_eq!(rt.try_step(), StepOutcome::Idle);
    drop(getter);
    assert_eq!(rt.try_step(), StepOutcome::Stopped);
}
