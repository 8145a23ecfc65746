use mvu_runtime::apps::{
    CounterModel, CounterMsg, CounterQuery, LeftCounterLens, PairLens, PairModel, PairMsg,
    PairQuery, RootModel, RootMsg, RootQuery,
};
use mvu_runtime::dispatcher::{ComposedLens, ReplyStatus};
use mvu_runtime::interceptor::NoopInterceptor;
use mvu_runtime::runtime::{MvuRuntime, StepOutcome};

fn zeroed_root() -> RootModel {
    RootModel {
        pair: PairModel {
            left: CounterModel { count: 0 },
            right: CounterModel { count: 0 },
        },
    }
}

#[test]
fn zoomed_send_reaches_the_sub_model() {
    let (mut rt, disp, _refresh) =
        MvuRuntime::<RootModel, NoopInterceptor, ()>::new(zeroed_root());
    let mut left = disp.zoom(PairLens).zoom(LeftCounterLens);
    left.try_send(CounterMsg::Increment).unwrap();
    assert_eq!(rt.try_step(), StepOutcome::Applied);
    assert_eq!(rt.read_model().pair.left.count, 1);
    assert_eq!(rt.read_model().pair.right.count, 0);
}

#[test]
fn zoom_twice_equals_zoom_by_composed_lens() {
    let (mut rt, disp, _refresh) =
        MvuRuntime::<RootModel, NoopInterceptor, ()>::new(zeroed_root());
    let mut stepwise = disp.fork().zoom(PairLens).zoom(LeftCounterLens);
    let mut composed = disp.zoom(ComposedLens { outer: PairLens, inner: LeftCounterLens });

    stepwise.try_send(CounterMsg::Increment).unwrap();
    assert_eq!(rt.try_step(), StepOutcome::Applied);
    let after_stepwise = *rt.read_model();

    composed.try_send(CounterMsg::Increment).unwrap();
    assert_eq!(rt.try_step(), StepOutcome::Applied);
    let after_composed = *rt.read_model();

    // One increment through each route: each send had the same observable
    // effect on the same sub-model.
    assert_eq!(after_stepwise.pair.left.count, 1);
    assert_eq!(after_composed.pair.left.count, 2);
    assert_eq!(after_composed.pair.right.count, 0);
}

#[test]
fn zoomed_query_projects_the_answer() {
    let (mut rt, disp, _refresh) = MvuRuntime::<RootModel, NoopInterceptor, ()>::new(RootModel {
        pair: PairModel {
            left: CounterModel { count: 41 },
            right: CounterModel { count: -3 },
        },
    });
    let mut left = disp.zoom(PairLens).zoom(LeftCounterLens);
    let mut reply = left.try_request(CounterQuery::Value).unwrap();
    assert_eq!(rt.try_step(), StepOutcome::Answered);
    match reply.try_take() {
        ReplyStatus::Ready(v) => assert_eq!(v, 41),
        _ => panic!("the zoomed getter round trip should have settled"),
    }
}

#[test]
fn zoomed_handles_share_one_ordered_channel() {
    let (mut rt, mut disp, _refresh) =
        MvuRuntime::<RootModel, NoopInterceptor, ()>::new(zeroed_root());
    let mut left = disp.fork().zoom(PairLens).zoom(LeftCounterLens);
    // Interleave root-level and zoomed sends; they all funnel onto the one
    // channel, so they apply in exactly this order.
    disp.try_send(RootMsg::ToPair(PairMsg::ToRight(CounterMsg::Increment))).unwrap();
    left.try_send(CounterMsg::Increment).unwrap();
    disp.try_send(RootMsg::ToPair(PairMsg::ToRight(CounterMsg::Decrement))).unwrap();
    for _ in 0..3 {
        assert_eq!(rt.try_step(), StepOutcome::Applied);
    }
    assert_eq!(rt.read_model().pair.left.count, 1);
    assert_eq!(rt.read_model().pair.right.count, 0);
}

#[test]
fn split_then_zoom_keeps_both_capabilities_working() {
    let (mut rt, disp, _refresh) =
        MvuRuntime::<RootModel, NoopInterceptor, ()>::new(zeroed_root());
    let (updater, getter) = disp.split();
    let mut left_up = updater.zoom(PairLens).zoom(LeftCounterLens);
    let mut left_get = getter.zoom(PairLens).zoom(LeftCounterLens);

    left_up.try_send(CounterMsg::Increment).unwrap();
    assert_eq!(rt.try_step(), StepOutcome::Applied);

    let mut reply = left_get.try_request(CounterQuery::Value).unwrap();
    assert_eq!(rt.try_step(), StepOutcome::Answered);
    assert!(matches!(reply.try_take(), ReplyStatus::Ready(1)));
}

#[test]
fn root_query_answers_across_the_tree() {
    let (mut rt, mut disp, _refresh) = MvuRuntime::<RootModel, NoopInterceptor, ()>::new(RootModel {
        pair: PairModel {
            left: CounterModel { count: 5 },
            right: CounterModel { count: 6 },
        },
    });
    let mut reply = disp
        .try_request(RootQuery::AtPair(PairQuery::AtRight(CounterQuery::Value)))
        .unwrap();
    assert_eq!(rt.try_step(), StepOutcome::Answered);
    assert!(matches!(reply.try_take(), ReplyStatus::Ready(6)));
}
