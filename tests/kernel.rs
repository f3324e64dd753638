use std::any::{Any, TypeId};
use std::sync::{Arc, Mutex};
use std::time::Duration;

use aector::actor::{Actor, ActorContext, ExitReason, MailboxType};
use aector::address::Addr;
use aector::behavior::{
    ActorManageMessage, Ask, Behavior, BehaviorAction, BehaviorBuilder, Handler, Hook, OnAsk, OnTell, Route,
    StatePredicate, StateQuery, Tell,
};
use aector::mailbox::Mailbox;
use aector::message::{Carrier, Message};
use aector::bindings::Received;
use aector::supervision::{SimpleRestartStrategy, SuperVisionAction, Supervised};
use aector::actor_system::{registration_outcome, ActorSystem, ActorSystemError};
use aector::testing::{
    judge_check, judge_reply, test_passed, ActorTestBuilder, ActorTestError, Criterion, Expect, ExpectKind, Judge,
    Response, TestActor,
};

// A payload carrier over `Any`, as a host supplies it.
struct AnyMsg {
    body: Box<dyn Any + Send>,
    reply: Option<Addr<AnyMsg>>,
}

impl Carrier for AnyMsg {
    fn pack<M: Send + 'static>(payload: M, reply_to: Option<Addr<Self>>) -> Self {
        AnyMsg { body: Box::new(payload), reply: reply_to }
    }

    fn reply_to(&self) -> Option<Addr<Self>> {
        self.reply.clone()
    }

    fn unpack<M: Send + 'static>(self) -> Option<M> {
        self.body.downcast::<M>().ok().map(|b| *b)
    }
}

type B<S> = Behavior<S, AnyMsg, H<S>>;
type Action<S> = BehaviorAction<B<S>>;
type Ctx = ActorContext<AnyMsg>;

// Handlers of any kind in one table.
struct H<S>(Arc<dyn Handler<S, AnyMsg, B<S>>>);

impl<S> Clone for H<S> {
    fn clone(&self) -> Self {
        H(self.0.clone())
    }
}

impl<S> Handler<S, AnyMsg, B<S>> for H<S> {
    fn handle(&self, msg: Message<AnyMsg>, state: &mut S, ctx: &mut Ctx) -> Action<S> {
        self.0.handle(msg, state, ctx)
    }
}

struct FnTell<F>(F);

impl<M, S, F> OnTell<M, S, AnyMsg, B<S>> for FnTell<F>
where
    F: Fn(M, &mut S, &mut Ctx) -> Action<S> + Send + Sync,
{
    fn receive(&self, msg: M, state: &mut S, ctx: &mut Ctx) -> Action<S> {
        (self.0)(msg, state, ctx)
    }
}

struct FnAsk<F>(F);

impl<M, S, F> OnAsk<M, S, AnyMsg, B<S>> for FnAsk<F>
where
    F: Fn(M, &mut S, Addr<AnyMsg>, &mut Ctx) -> Action<S> + Send + Sync,
{
    fn receive(&self, msg: M, state: &mut S, reply_to: Addr<AnyMsg>, ctx: &mut Ctx) -> Action<S> {
        (self.0)(msg, state, reply_to, ctx)
    }
}

fn on_tell<M, S, F>(f: F) -> H<S>
where
    M: Send + Sync + 'static,
    S: 'static,
    F: Fn(M, &mut S, &mut Ctx) -> Action<S> + Send + Sync + 'static,
{
    H(Arc::new(Tell::<M, FnTell<F>>::new(FnTell(f))))
}

fn on_ask<M, S, F>(f: F) -> H<S>
where
    M: Send + Sync + 'static,
    S: 'static,
    F: Fn(M, &mut S, Addr<AnyMsg>, &mut Ctx) -> Action<S> + Send + Sync + 'static,
{
    H(Arc::new(Ask::<M, FnAsk<F>>::new(FnAsk(f))))
}

struct FnPred<F>(F);

impl<S, F: Fn(&S) -> bool + Send + Sync> StatePredicate<S> for FnPred<F> {
    fn holds(&self, state: &S) -> bool {
        (self.0)(state)
    }
}

fn query<S: 'static, F: Fn(&S) -> bool + Send + Sync + 'static>(f: F) -> StateQuery<S> {
    StateQuery { predicate: Arc::new(FnPred(f)) }
}

fn holds<S: Send + 'static, F: Fn(&S) -> bool + Send + Sync>(actor: &Actor<S, AnyMsg, H<S>>, f: F) -> bool {
    actor.check_state(&FnPred(f))
}

struct FnHook<F>(F);

impl<S, F: Fn(&mut S, &mut Ctx) + Send + Sync> Hook<S, AnyMsg> for FnHook<F> {
    fn run(&self, state: &mut S, ctx: &mut Ctx) {
        (self.0)(state, ctx)
    }
}

// Criteria of any payload type in one script.
struct J(Arc<dyn Judge<AnyMsg>>);

impl Judge<AnyMsg> for J {
    fn judge(&self, msg: Message<AnyMsg>) -> bool {
        self.0.judge(msg)
    }
}

struct FnCrit<F>(F);

impl<M, F: Fn(M) -> bool + Send + Sync> Criterion<M> for FnCrit<F> {
    fn accepts(&self, msg: M) -> bool {
        (self.0)(msg)
    }
}

fn judge<M: Send + Sync + 'static, F: Fn(M) -> bool + Send + Sync + 'static>(f: F) -> J {
    J(Arc::new(Expect::<M, FnCrit<F>>::new(FnCrit(f))))
}

// Runs a driver against its subject until the test is decided or nothing moves.
fn run_test<S: Send + 'static>(subject: &mut Actor<S, AnyMsg, H<S>>, driver: &mut TestActor<S, AnyMsg, J>) -> Option<ExitReason> {
    driver.start();
    let mut subject_done = false;
    for _ in 0..200 {
        if let Some(r) = driver.run_ready(16) {
            return Some(r);
        }
        if !subject_done && subject.run_ready(16).is_some() {
            subject_done = true;
        }
    }
    None
}

fn counter_behavior() -> B<i32> {
    BehaviorBuilder::new()
        .on_tell(TypeId::of::<i32>(), on_tell::<i32, i32, _>(|m, s, _ctx| {
            *s += m;
            BehaviorAction::Keep
        }))
        .enable_state_checks()
        .build()
}

#[derive(Clone, Copy, Debug, PartialEq)]
enum Ball {
    Ping,
    Pong,
}

#[test]
fn ping_pong_both_sides_play() {
    let behavior = || -> B<u32> {
        BehaviorBuilder::new()
            .on_ask(TypeId::of::<Ball>(), on_ask::<Ball, u32, _>(|m, count, reply_to, ctx| {
                *count += 1;
                match m {
                    Ball::Ping => reply_to.ask(Ball::Pong, ctx.get_addr()),
                    Ball::Pong => reply_to.ask(Ball::Ping, ctx.get_addr()),
                }
                BehaviorAction::Keep
            }))
            .build()
    };
    let mut a = Actor::new(0u32, behavior(), MailboxType::Unbounded);
    let mut b = Actor::new(0u32, behavior(), MailboxType::Unbounded);
    b.get_addr().ask(Ball::Ping, a.get_addr());
    let k: u32 = 20;
    for _ in 0..k / 2 {
        assert_eq!(b.run_ready(1), None);
        assert_eq!(a.run_ready(1), None);
    }
    assert!(holds(&a, move |c: &u32| *c >= k / 2));
    assert!(holds(&b, move |c: &u32| *c >= k / 2));
}

#[test]
fn counter_sums_told_values() {
    let mut subject = Actor::new(0i32, counter_behavior(), MailboxType::Unbounded);
    let mut driver = ActorTestBuilder::<i32, AnyMsg, J>::new(subject.get_addr())
        .tell(1i32)
        .tell(2i32)
        .tell(3i32)
        .tell(4i32)
        .check(query(|s: &i32| *s == 10))
        .build();
    assert_eq!(run_test(&mut subject, &mut driver), Some(ExitReason::Kill));
    assert!(holds(&subject, |s: &i32| *s == 10));
}

#[test]
fn counter_check_with_wrong_total_fails() {
    let mut subject = Actor::new(0i32, counter_behavior(), MailboxType::Unbounded);
    let mut driver = ActorTestBuilder::<i32, AnyMsg, J>::new(subject.get_addr())
        .tell(1i32)
        .tell(2i32)
        .check(query(|s: &i32| *s == 4))
        .build();
    assert_eq!(run_test(&mut subject, &mut driver), Some(ExitReason::Error));
}

struct ChangeMsg;

fn swapping_behavior() -> B<u32> {
    BehaviorBuilder::new()
        .on_ask(TypeId::of::<Ball>(), on_ask::<Ball, u32, _>(|_m, s, reply_to, _ctx| {
            *s += 1;
            reply_to.tell(Ball::Pong);
            BehaviorAction::Keep
        }))
        .on_ask(TypeId::of::<ChangeMsg>(), on_ask::<ChangeMsg, u32, _>(|_m, _s, _reply_to, _ctx| {
            BehaviorAction::Change(BehaviorBuilder::new().build())
        }))
        .build()
}

#[test]
fn behavior_swap_stops_old_handlers() {
    let mut subject = Actor::new(0u32, swapping_behavior(), MailboxType::Unbounded);
    let mut probe = Mailbox::<AnyMsg>::unbounded();
    subject.get_addr().ask(Ball::Ping, probe.get_addr());
    assert_eq!(subject.run_ready(8), None);
    assert!(matches!(probe.try_next(), Received::Item(_)));
    assert!(holds(&subject, |s: &u32| *s == 1));

    subject.get_addr().ask(ChangeMsg, probe.get_addr());
    subject.get_addr().ask(Ball::Ping, probe.get_addr());
    assert_eq!(subject.run_ready(8), None);
    assert!(matches!(probe.try_next(), Received::Empty));
    assert!(holds(&subject, |s: &u32| *s == 1));
}

#[test]
fn behavior_swap_expectation_is_never_met() {
    let mut subject = Actor::new(0u32, swapping_behavior(), MailboxType::Unbounded);
    let mut driver = ActorTestBuilder::<u32, AnyMsg, J>::new(subject.get_addr())
        .ask::<Ball, Ball>(Ball::Ping, Response::Tell(judge(|b: Ball| b == Ball::Pong)))
        .ask::<ChangeMsg, Ball>(ChangeMsg, Response::Tell(judge(|_: Ball| true)))
        .build();
    let r = run_test(&mut subject, &mut driver);
    assert!(!r.map(test_passed).unwrap_or(false));
    assert!(holds(&subject, |s: &u32| *s == 1));
}

struct Boom;
struct Inc;

#[test]
fn supervised_crash_restores_initial_state() {
    let behavior: B<i32> = BehaviorBuilder::new()
        .on_tell(TypeId::of::<Inc>(), on_tell::<Inc, i32, _>(|_m, s, _ctx| {
            *s += 1;
            BehaviorAction::Keep
        }))
        .on_tell(TypeId::of::<Boom>(), on_tell::<Boom, i32, _>(|_m, _s, _ctx| BehaviorAction::Fail("boom".to_string())))
        .build();
    let actor = Actor::new(42i32, behavior, MailboxType::Unbounded);
    let addr = actor.get_addr();
    let mut sup = Supervised::new(actor, SimpleRestartStrategy::new());
    sup.actor().start();
    addr.tell(Inc);
    addr.tell(Boom);
    addr.tell(Inc);
    assert_eq!(sup.actor().run_ready(8), Some(ExitReason::Error));
    assert!(holds(sup.actor(), |s: &i32| *s == 43));
    assert!(matches!(sup.after_exit(ExitReason::Error), SuperVisionAction::Restart));
    sup.actor().start();
    assert!(holds(sup.actor(), |s: &i32| *s == 42));
    // the mailbox survived the restart: the last increment is still delivered
    assert_eq!(sup.actor().run_ready(8), None);
    assert!(holds(sup.actor(), |s: &i32| *s == 43));
}

#[test]
fn supervised_kill_exits() {
    let actor = Actor::new(1i32, counter_behavior(), MailboxType::Unbounded);
    let addr = actor.get_addr();
    let mut sup = Supervised::new(actor, SimpleRestartStrategy::new());
    sup.actor().start();
    addr.tell(5i32);
    addr.tell(ActorManageMessage::Kill);
    assert_eq!(sup.actor().run_ready(8), Some(ExitReason::Kill));
    assert!(matches!(sup.after_exit(ExitReason::Kill), SuperVisionAction::Exit));
    assert!(holds(sup.actor(), |s: &i32| *s == 6));
}

#[test]
fn restart_request_restores_backup() {
    let actor = Actor::new(7i32, counter_behavior(), MailboxType::Unbounded);
    let addr = actor.get_addr();
    let mut sup = Supervised::new(actor, SimpleRestartStrategy::new());
    for _ in 0..3 {
        sup.actor().start();
        addr.tell(100i32);
        addr.tell(ActorManageMessage::Restart);
        assert_eq!(sup.actor().run_ready(8), Some(ExitReason::Restart));
        assert!(holds(sup.actor(), |s: &i32| *s == 107));
        assert!(matches!(sup.after_exit(ExitReason::Restart), SuperVisionAction::Restart));
        assert!(holds(sup.actor(), |s: &i32| *s == 7));
    }
}

#[test]
fn shared_string_is_cleared_through_a_message() {
    let behavior: B<()> = BehaviorBuilder::new()
        .on_tell(TypeId::of::<Arc<Mutex<String>>>(), on_tell::<Arc<Mutex<String>>, (), _>(|m, _s, ctx| {
            m.lock().unwrap().clear();
            ctx.kill();
            BehaviorAction::Keep
        }))
        .build();
    let mut subject = Actor::new((), behavior, MailboxType::Unbounded);
    let shared = Arc::new(Mutex::new("hello".to_string()));
    let mut driver = ActorTestBuilder::<(), AnyMsg, J>::new(subject.get_addr()).tell(shared.clone()).build();
    assert_eq!(run_test(&mut subject, &mut driver), Some(ExitReason::Kill));
    assert_eq!(subject.run_ready(8), Some(ExitReason::Kill));
    assert_eq!(*shared.lock().unwrap(), "");
}

#[derive(Clone)]
struct Unit;

#[test]
fn broadcast_reaches_each_actor_once() {
    let sys = ActorSystem::<AnyMsg>::new();
    let mut actors = Vec::new();
    for name in ["a", "b", "c"] {
        let behavior: B<u32> = BehaviorBuilder::new()
            .on_tell(TypeId::of::<Unit>(), on_tell::<Unit, u32, _>(|_m, s, _ctx| {
                *s += 1;
                BehaviorAction::Keep
            }))
            .build();
        let mut actor = Actor::new(0u32, behavior, MailboxType::Unbounded);
        assert_eq!(actor.join_system(&sys, name.to_string()), Ok(()));
        actors.push(actor);
    }
    assert_eq!(sys.len(), 3);
    sys.broadcast_tell(Unit);
    for actor in actors.iter_mut() {
        assert_eq!(actor.run_ready(8), None);
        assert!(holds(actor, |s: &u32| *s == 1));
    }
}

#[test]
fn broadcast_from_a_handler_needs_a_system() {
    let behavior: B<u32> = BehaviorBuilder::new()
        .on_tell(TypeId::of::<Unit>(), on_tell::<Unit, u32, _>(|_m, s, _ctx| {
            *s += 1;
            BehaviorAction::Keep
        }))
        .on_tell(TypeId::of::<u8>(), on_tell::<u8, u32, _>(|_m, s, ctx| {
            if ctx.broadcast_tell(Unit) == Err(ActorSystemError::ActorNotSpawnedYet) {
                *s += 100;
            }
            BehaviorAction::Keep
        }))
        .build();
    let mut alone = Actor::new(0u32, behavior.clone(), MailboxType::Unbounded);
    alone.get_addr().tell(1u8);
    assert_eq!(alone.run_ready(8), None);
    assert!(holds(&alone, |s: &u32| *s == 100));

    let sys = ActorSystem::<AnyMsg>::new();
    let mut joined = Actor::new(0u32, behavior, MailboxType::Unbounded);
    assert_eq!(joined.join_system(&sys, "joined".to_string()), Ok(()));
    joined.get_addr().tell(1u8);
    assert_eq!(joined.run_ready(8), None);
    assert!(holds(&joined, |s: &u32| *s == 1));
}

#[test]
fn names_are_unique_in_a_system() {
    let sys = ActorSystem::<AnyMsg>::new();
    let mut first = Actor::new(0i32, counter_behavior(), MailboxType::Unbounded);
    let mut second = Actor::new(0i32, counter_behavior(), MailboxType::Unbounded);
    assert_eq!(first.join_system(&sys, "x".to_string()), Ok(()));
    assert_eq!(second.join_system(&sys, "x".to_string()), Err(ActorSystemError::ActorNameAlreadyInUse));
    assert_eq!(sys.len(), 1);
    assert!(sys.query("x").is_some());
    assert!(sys.query("y").is_none());
    assert_eq!(second.join_system(&sys, "y".to_string()), Ok(()));
    assert_eq!(sys.len(), 2);
}

#[test]
fn registry_keeps_a_restarted_actor_and_drops_a_finished_one() {
    let sys = ActorSystem::<AnyMsg>::new();
    let mut actor = Actor::new(0i32, counter_behavior(), MailboxType::Unbounded);
    assert_eq!(actor.join_system(&sys, "w".to_string()), Ok(()));
    assert!(!sys.retire_if_done("w", &SuperVisionAction::Restart));
    assert!(!sys.retire_if_done("w", &SuperVisionAction::RestartDelayed(Duration::from_millis(5))));
    assert!(sys.query("w").is_some());
    assert!(sys.retire_if_done("w", &SuperVisionAction::Exit));
    assert!(sys.query("w").is_none());
    assert!(sys.is_empty());
}

#[test]
fn stop_clears_the_registry_and_raises_the_signal() {
    let sys = ActorSystem::<AnyMsg>::new();
    let mut actor = Actor::new(0i32, counter_behavior(), MailboxType::Unbounded);
    assert_eq!(actor.join_system(&sys, "s".to_string()), Ok(()));
    assert!(!sys.is_stopped());
    sys.stop();
    assert!(sys.is_stopped());
    assert!(sys.is_empty());
}

#[test]
fn ask_only_handler_ignores_tells() {
    let behavior: B<i32> = BehaviorBuilder::new()
        .on_ask(TypeId::of::<i32>(), on_ask::<i32, i32, _>(|m, s, _reply_to, _ctx| {
            *s += m;
            BehaviorAction::Keep
        }))
        .build();
    let mut actor = Actor::new(0i32, behavior, MailboxType::Unbounded);
    let probe = Mailbox::<AnyMsg>::unbounded();
    actor.get_addr().tell(5i32);
    assert_eq!(actor.run_ready(8), None);
    assert!(holds(&actor, |s: &i32| *s == 0));
    actor.get_addr().ask(5i32, probe.get_addr());
    assert_eq!(actor.run_ready(8), None);
    assert!(holds(&actor, |s: &i32| *s == 5));
}

#[test]
fn tell_only_handler_ignores_asks() {
    let mut actor = Actor::new(0i32, counter_behavior(), MailboxType::Unbounded);
    let probe = Mailbox::<AnyMsg>::unbounded();
    actor.get_addr().ask(5i32, probe.get_addr());
    assert_eq!(actor.run_ready(8), None);
    assert!(holds(&actor, |s: &i32| *s == 0));
}

#[test]
fn unknown_payload_type_changes_nothing() {
    let mut actor = Actor::new(3i32, counter_behavior(), MailboxType::Unbounded);
    let probe = Mailbox::<AnyMsg>::unbounded();
    actor.get_addr().tell(9u64);
    actor.get_addr().ask("text", probe.get_addr());
    assert_eq!(actor.run_ready(8), None);
    assert!(holds(&actor, |s: &i32| *s == 3));
    actor.get_addr().tell(1i32);
    assert_eq!(actor.run_ready(8), None);
    assert!(holds(&actor, |s: &i32| *s == 4));
}

#[test]
fn routing_follows_the_tables() {
    let b = counter_behavior();
    assert_eq!(b.route(&TypeId::of::<i32>(), false), Route::Tell(0));
    assert_eq!(b.route(&TypeId::of::<i32>(), true), Route::Drop);
    assert_eq!(b.route(&TypeId::of::<u64>(), false), Route::Drop);
    assert_eq!(b.route(&TypeId::of::<ActorManageMessage>(), false), Route::Manage);
    assert_eq!(b.route(&TypeId::of::<ActorManageMessage>(), true), Route::Drop);
    assert_eq!(b.route(&TypeId::of::<aector::behavior::StateCheckMessage<i32>>(), true), Route::StateCheck);
    let plain: B<i32> = BehaviorBuilder::new().build();
    assert_eq!(plain.route(&TypeId::of::<aector::behavior::StateCheckMessage<i32>>(), true), Route::Drop);
}

#[test]
fn builder_reports_registered_handlers() {
    let b: BehaviorBuilder<i32, AnyMsg, H<i32>> = BehaviorBuilder::new()
        .on_tell(TypeId::of::<i32>(), on_tell::<i32, i32, _>(|_m, _s, _ctx| BehaviorAction::Keep));
    assert!(b.has_tell_handler(&TypeId::of::<i32>()));
    assert!(!b.has_ask_handler(&TypeId::of::<i32>()));
    assert!(!b.has_tell_handler(&TypeId::of::<u8>()));
}

#[test]
fn management_messages_set_the_flag() {
    let mut actor = Actor::new(0i32, counter_behavior(), MailboxType::Unbounded);
    actor.get_addr().tell(ActorManageMessage::Restart);
    assert_eq!(actor.run_ready(8), Some(ExitReason::Restart));
    actor.start();
    actor.get_addr().tell(2i32);
    actor.get_addr().tell(ActorManageMessage::Kill);
    actor.get_addr().tell(3i32);
    assert_eq!(actor.run_ready(8), Some(ExitReason::Kill));
    assert!(holds(&actor, |s: &i32| *s == 2));
}

#[test]
fn lifecycle_hooks_run() {
    let behavior: B<Vec<&'static str>> = BehaviorBuilder::new()
        .on_start(Arc::new(FnHook(|s: &mut Vec<&'static str>, _ctx: &mut Ctx| s.push("start"))))
        .on_kill(Arc::new(FnHook(|s: &mut Vec<&'static str>, _ctx: &mut Ctx| s.push("kill"))))
        .on_error(Arc::new(FnHook(|s: &mut Vec<&'static str>, _ctx: &mut Ctx| s.push("error"))))
        .on_restart(Arc::new(FnHook(|s: &mut Vec<&'static str>, _ctx: &mut Ctx| s.push("restart"))))
        .on_tell(TypeId::of::<Boom>(), on_tell::<Boom, Vec<&'static str>, _>(|_m, _s, _ctx| BehaviorAction::Fail("x".to_string())))
        .build();
    let mut actor = Actor::new(Vec::new(), behavior, MailboxType::Unbounded);
    actor.start();
    actor.get_addr().tell(ActorManageMessage::Restart);
    assert_eq!(actor.run_ready(8), Some(ExitReason::Restart));
    actor.start();
    actor.get_addr().tell(Boom);
    assert_eq!(actor.run_ready(8), Some(ExitReason::Error));
    actor.start();
    actor.get_addr().tell(ActorManageMessage::Kill);
    assert_eq!(actor.run_ready(8), Some(ExitReason::Kill));
    assert!(holds(&actor, |s: &Vec<&'static str>| *s == vec!["start", "restart", "start", "error", "start", "kill"]));
}

#[test]
fn driver_checks_ask_replies() {
    let behavior: B<u32> = BehaviorBuilder::new()
        .on_ask(TypeId::of::<Ball>(), on_ask::<Ball, u32, _>(|m, s, reply_to, ctx| {
            *s += 1;
            if m == Ball::Ping {
                reply_to.ask(Ball::Pong, ctx.get_addr());
            } else {
                reply_to.tell(Ball::Ping);
            }
            BehaviorAction::Keep
        }))
        .enable_state_checks()
        .build();
    let mut subject = Actor::new(0u32, behavior, MailboxType::Unbounded);
    let mut driver = ActorTestBuilder::<u32, AnyMsg, J>::new(subject.get_addr())
        .ask::<Ball, Ball>(Ball::Ping, Response::Ask(judge(|b: Ball| b == Ball::Pong)))
        .ask::<Ball, Ball>(Ball::Pong, Response::Tell(judge(|b: Ball| b == Ball::Ping)))
        .check(query(|s: &u32| *s == 2))
        .build();
    assert_eq!(run_test(&mut subject, &mut driver), Some(ExitReason::Kill));
}

#[test]
fn driver_rejects_a_reply_that_misses_its_criterion() {
    let behavior: B<u32> = BehaviorBuilder::new()
        .on_ask(TypeId::of::<Ball>(), on_ask::<Ball, u32, _>(|_m, _s, reply_to, _ctx| {
            reply_to.tell(Ball::Ping);
            BehaviorAction::Keep
        }))
        .build();
    let mut subject = Actor::new(0u32, behavior, MailboxType::Unbounded);
    let mut driver = ActorTestBuilder::<u32, AnyMsg, J>::new(subject.get_addr())
        .ask::<Ball, Ball>(Ball::Ping, Response::Tell(judge(|b: Ball| b == Ball::Pong)))
        .build();
    assert_eq!(run_test(&mut subject, &mut driver), Some(ExitReason::Error));
}

#[test]
fn driver_rejects_a_reply_of_the_wrong_kind() {
    let behavior: B<u32> = BehaviorBuilder::new()
        .on_ask(TypeId::of::<Ball>(), on_ask::<Ball, u32, _>(|_m, _s, reply_to, ctx| {
            reply_to.ask(Ball::Pong, ctx.get_addr());
            BehaviorAction::Keep
        }))
        .build();
    let mut subject = Actor::new(0u32, behavior, MailboxType::Unbounded);
    let mut driver = ActorTestBuilder::<u32, AnyMsg, J>::new(subject.get_addr())
        .ask::<Ball, Ball>(Ball::Ping, Response::Tell(judge(|_: Ball| true)))
        .build();
    assert_eq!(run_test(&mut subject, &mut driver), Some(ExitReason::Error));
}

#[test]
fn driver_expects_an_unsolicited_tell() {
    let behavior: B<u32> = BehaviorBuilder::new()
        .on_tell(TypeId::of::<Addr<AnyMsg>>(), on_tell::<Addr<AnyMsg>, u32, _>(|to, _s, _ctx| {
            to.tell(Ball::Ping);
            BehaviorAction::Keep
        }))
        .build();
    let mut subject = Actor::new(0u32, behavior, MailboxType::Unbounded);
    let mut driver = ActorTestBuilder::<u32, AnyMsg, J>::new(subject.get_addr())
        .expect_tell::<Ball>(judge(|b: Ball| b == Ball::Ping))
        .build();
    subject.get_addr().tell(driver.get_addr());
    assert_eq!(run_test(&mut subject, &mut driver), Some(ExitReason::Kill));
}

#[test]
fn driver_expects_an_unsolicited_ask() {
    let behavior: B<u32> = BehaviorBuilder::new()
        .on_tell(TypeId::of::<Addr<AnyMsg>>(), on_tell::<Addr<AnyMsg>, u32, _>(|to, _s, ctx| {
            to.ask(Ball::Pong, ctx.get_addr());
            BehaviorAction::Keep
        }))
        .build();
    let mut subject = Actor::new(0u32, behavior, MailboxType::Unbounded);
    let mut driver = ActorTestBuilder::<u32, AnyMsg, J>::new(subject.get_addr())
        .expect_ask::<Ball>(judge(|b: Ball| b == Ball::Pong))
        .build();
    subject.get_addr().tell(driver.get_addr());
    assert_eq!(run_test(&mut subject, &mut driver), Some(ExitReason::Kill));
}

#[test]
fn driver_fails_on_a_message_it_did_not_wait_for() {
    let behavior: B<u32> = BehaviorBuilder::new()
        .on_tell(TypeId::of::<Addr<AnyMsg>>(), on_tell::<Addr<AnyMsg>, u32, _>(|to, _s, _ctx| {
            to.tell(Ball::Ping);
            to.tell(Ball::Ping);
            BehaviorAction::Keep
        }))
        .enable_state_checks()
        .build();
    let mut subject = Actor::new(0u32, behavior, MailboxType::Unbounded);
    let mut driver = ActorTestBuilder::<u32, AnyMsg, J>::new(subject.get_addr())
        .expect_tell::<Ball>(judge(|_: Ball| true))
        .check(query(|_: &u32| true))
        .build();
    subject.get_addr().tell(driver.get_addr());
    assert_eq!(run_test(&mut subject, &mut driver), Some(ExitReason::Error));
}

#[test]
fn bounded_mailbox_defers_sends_when_full() {
    let rt = tokio::runtime::Builder::new_multi_thread().worker_threads(2).enable_all().build().unwrap();
    rt.block_on(async {
        let mut actor = Actor::new(0i32, counter_behavior(), MailboxType::Bounded(1));
        let addr = actor.get_addr();
        addr.tell(1i32);
        addr.tell(2i32);
        assert_eq!(actor.run_ready(1), None);
        for _ in 0..50 {
            tokio::time::sleep(Duration::from_millis(10)).await;
            let _ = actor.run_ready(4);
            if holds(&actor, |s: &i32| *s == 3) {
                break;
            }
        }
        assert!(holds(&actor, |s: &i32| *s == 3));
    });
}

#[test]
fn bounded_mailbox_outside_a_runtime_drops_overflow() {
    let mut actor = Actor::new(0i32, counter_behavior(), MailboxType::Bounded(1));
    let addr = actor.get_addr();
    addr.tell(1i32);
    addr.tell(2i32);
    assert_eq!(actor.run_ready(8), None);
    assert!(holds(&actor, |s: &i32| *s == 1));
}

#[test]
fn envelopes_record_type_and_reply() {
    let probe = Mailbox::<AnyMsg>::unbounded();
    let told = Message::<AnyMsg>::without_sender(5u16);
    assert_eq!(told.type_id(), TypeId::of::<u16>());
    assert!(!told.has_sender());
    assert!(told.sender().is_none());
    assert_eq!(told.downcast::<u16>(), Some(5u16));
    let asked = Message::<AnyMsg>::with_sender("q", probe.get_addr());
    assert!(asked.has_sender());
    assert!(asked.sender().is_some());
    assert_eq!(asked.downcast::<u16>(), None);
}

#[test]
fn verdicts_on_replies() {
    let t = TypeId::of::<u8>();
    let o = TypeId::of::<u16>();
    assert_eq!(judge_reply(None, &t, false, true), Err(ActorTestError::InvalidMessageOrder));
    assert_eq!(judge_reply(Some(ExpectKind::Check), &t, false, true), Err(ActorTestError::InvalidMessageOrder));
    assert_eq!(judge_reply(Some(ExpectKind::Tell(t)), &t, false, true), Ok(()));
    assert_eq!(judge_reply(Some(ExpectKind::Tell(t)), &t, false, false), Err(ActorTestError::CriteriaNotMet));
    assert_eq!(judge_reply(Some(ExpectKind::Tell(t)), &o, false, true), Err(ActorTestError::InvalidMessageOrder));
    assert_eq!(judge_reply(Some(ExpectKind::Ask(t)), &o, true, true), Err(ActorTestError::InvalidMessageOrder));
    assert_eq!(judge_reply(Some(ExpectKind::Tell(t)), &t, true, true), Err(ActorTestError::InvalidMessageOrder));
    assert_eq!(judge_reply(Some(ExpectKind::Ask(t)), &t, true, true), Ok(()));
    assert_eq!(judge_reply(Some(ExpectKind::Ask(t)), &t, true, false), Err(ActorTestError::CriteriaNotMet));
    assert_eq!(judge_reply(Some(ExpectKind::Ask(t)), &t, false, true), Err(ActorTestError::InvalidMessageOrder));
}

#[test]
fn verdicts_on_state_checks() {
    let t = TypeId::of::<u8>();
    assert_eq!(judge_check(Some(ExpectKind::Check), true), Ok(()));
    assert_eq!(judge_check(Some(ExpectKind::Check), false), Err(ActorTestError::StateCheckFailed));
    assert_eq!(judge_check(None, true), Err(ActorTestError::InvalidMessageOrder));
    assert_eq!(judge_check(Some(ExpectKind::Tell(t)), true), Err(ActorTestError::InvalidMessageOrder));
}

#[test]
fn test_verdict_from_exit_reason() {
    assert!(test_passed(ExitReason::Kill));
    assert!(!test_passed(ExitReason::Error));
    assert!(!test_passed(ExitReason::Restart));
}

#[test]
fn registration_outcomes_and_error_texts() {
    assert_eq!(registration_outcome(true), Ok(()));
    assert_eq!(registration_outcome(false), Err(ActorSystemError::ActorNameAlreadyInUse));
    assert_eq!(
        ActorSystemError::ActorNameAlreadyInUse.message(),
        "An actor with the same name already exists in the registry!"
    );
    assert_eq!(ActorSystemError::ActorNotSpawnedYet.message(), "This actor has not been spawned yet!");
}

#[test]
fn context_before_and_after_joining() {
    let sys = ActorSystem::<AnyMsg>::new();
    let mut actor = Actor::new(0i32, counter_behavior(), MailboxType::Unbounded);
    let behavior: B<u8> = BehaviorBuilder::new()
        .on_tell(TypeId::of::<&'static str>(), on_tell::<&'static str, u8, _>(|name, s, ctx| {
            *s = match ctx.query(name) {
                Some(_) => 1,
                None => 2,
            };
            BehaviorAction::Keep
        }))
        .build();
    let mut asker = Actor::new(0u8, behavior, MailboxType::Unbounded);
    asker.get_addr().tell("target");
    assert_eq!(asker.run_ready(8), None);
    assert!(holds(&asker, |s: &u8| *s == 2));
    assert_eq!(actor.join_system(&sys, "target".to_string()), Ok(()));
    assert_eq!(asker.join_system(&sys, "asker".to_string()), Ok(()));
    asker.get_addr().tell("target");
    assert_eq!(asker.run_ready(8), None);
    assert!(holds(&asker, |s: &u8| *s == 1));
}

#[test]
fn management_orders_set_the_matching_flag() {
    let probe = Mailbox::<AnyMsg>::unbounded();
    let mut ctx = ActorContext::new(probe.get_addr());
    let r = B::<i32>::manage(ActorManageMessage::Kill, &mut ctx);
    assert!(matches!(r, BehaviorAction::Keep));
    assert_eq!(ctx.flag(), aector::actor::ContextFlag::Kill);
    let r = B::<i32>::manage(ActorManageMessage::Restart, &mut ctx);
    assert!(matches!(r, BehaviorAction::Keep));
    assert_eq!(ctx.flag(), aector::actor::ContextFlag::Restart);
}

#[test]
fn state_checks_are_answered_with_the_predicate() {
    let yes = B::<i32>::check_answer(aector::behavior::StateCheckMessage::Check(query(|s: &i32| *s == 3)), &3);
    assert!(matches!(yes, Some(aector::behavior::StateCheckMessage::Result(true))));
    let no = B::<i32>::check_answer(aector::behavior::StateCheckMessage::Check(query(|s: &i32| *s == 3)), &4);
    assert!(matches!(no, Some(aector::behavior::StateCheckMessage::Result(false))));
    let none = B::<i32>::check_answer(aector::behavior::StateCheckMessage::Result(true), &3);
    assert!(none.is_none());
}

#[test]
fn adapters_drop_or_fail_without_touching_state() {
    let probe = Mailbox::<AnyMsg>::unbounded();
    let mut ctx = ActorContext::new(probe.get_addr());
    let mut state = 5i32;
    let tell = Tell::<i32, _>::new(FnTell(|m: i32, s: &mut i32, _c: &mut Ctx| -> Action<i32> {
        *s += m;
        BehaviorAction::Keep
    }));
    let r: Action<i32> = tell.receive_unpacked(None, &mut state, &mut ctx);
    assert!(matches!(r, BehaviorAction::Fail(_)));
    let r: Action<i32> = tell.receive_unpacked(Some(2), &mut state, &mut ctx);
    assert!(matches!(r, BehaviorAction::Keep));
    assert_eq!(state, 7);
    let ask = Ask::<i32, _>::new(FnAsk(|m: i32, s: &mut i32, _r: Addr<AnyMsg>, _c: &mut Ctx| -> Action<i32> {
        *s += m;
        BehaviorAction::Keep
    }));
    let r: Action<i32> = ask.receive_unpacked(None, Some(3), &mut state, &mut ctx);
    assert!(matches!(r, BehaviorAction::Keep));
    assert_eq!(state, 7);
    let r: Action<i32> = ask.receive_unpacked(Some(probe.get_addr()), None, &mut state, &mut ctx);
    assert!(matches!(r, BehaviorAction::Fail(_)));
    assert_eq!(state, 7);
    let r: Action<i32> = ask.receive_unpacked(Some(probe.get_addr()), Some(3), &mut state, &mut ctx);
    assert!(matches!(r, BehaviorAction::Keep));
    assert_eq!(state, 10);
}

#[test]
fn driver_fails_on_a_reply_of_another_expected_type() {
    let behavior: B<u32> = BehaviorBuilder::new()
        .on_ask(TypeId::of::<Ball>(), on_ask::<Ball, u32, _>(|_m, _s, reply_to, _ctx| {
            reply_to.tell(7u8);
            BehaviorAction::Keep
        }))
        .build();
    let mut subject = Actor::new(0u32, behavior, MailboxType::Unbounded);
    let mut driver = ActorTestBuilder::<u32, AnyMsg, J>::new(subject.get_addr())
        .ask::<Ball, Ball>(Ball::Ping, Response::Tell(judge(|_: Ball| true)))
        .expect_tell::<u8>(judge(|_: u8| true))
        .build();
    assert_eq!(run_test(&mut subject, &mut driver), Some(ExitReason::Error));
}

#[test]
fn enrolling_needs_a_joined_actor() {
    let sys = ActorSystem::<AnyMsg>::new();
    let mut parent = Actor::new(0i32, counter_behavior(), MailboxType::Unbounded);
    let mut child = Actor::new(0i32, counter_behavior(), MailboxType::Unbounded);
    let loose = ActorContext::new(parent.get_addr());
    assert_eq!(loose.enroll(&mut child, "child".to_string()), Err(ActorSystemError::ActorNotSpawnedYet));
    assert_eq!(parent.join_system(&sys, "parent".to_string()), Ok(()));
    let mut joined = ActorContext::new(parent.get_addr());
    joined.set_actor_sys(sys.clone());
    assert_eq!(joined.enroll(&mut child, "child".to_string()), Ok(()));
    assert_eq!(joined.enroll(&mut child, "child".to_string()), Err(ActorSystemError::ActorNameAlreadyInUse));
    assert!(sys.query("child").is_some());
}

#[test]
fn driver_answers_on_check_and_reply_steps() {
    let empty: B<u32> = BehaviorBuilder::new().build();
    let subject = Actor::new(0u32, empty, MailboxType::Unbounded);
    let mut driver = ActorTestBuilder::<u32, AnyMsg, J>::new(subject.get_addr())
        .check(query(|_: &u32| true))
        .build();
    assert_eq!(driver.run_next(), None);
    assert_eq!(driver.on_check_answer(Some(aector::behavior::StateCheckMessage::Result(true))), None);
    assert_eq!(driver.on_reply(&TypeId::of::<u8>(), false, true), Some(ExitReason::Error));
    assert_eq!(driver.run_next(), Some(ExitReason::Kill));
}
