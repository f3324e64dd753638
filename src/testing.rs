//! The test driver: a scripted actor that sends tells, asks and state checks to a
//! subject, checks what comes back, and passes (exits with `Kill`) only if every
//! step met its expectation.

use vstd::prelude::*;
use std::any::TypeId;
use std::collections::VecDeque;
use std::marker::PhantomData;
use crate::actor::ExitReason;
use crate::address::Addr;
use crate::behavior::{StateCheckMessage, StateQuery};
use crate::mailbox::Mailbox;
use crate::message::{Carrier, Message};
use crate::bindings::{same_type, type_key_of, Received};

verus! {

/// Why a test failed.
#[derive(Clone, Copy, Debug, PartialEq, Eq, Structural)]
pub enum ActorTestError {
    /// A message came that the current step did not expect.
    InvalidMessageOrder,
    /// The expected message came but did not meet its criterion.
    CriteriaNotMet,
    /// A state check found the predicate false.
    StateCheckFailed,
}

/// A criterion on a payload of type `M`.
pub trait Criterion<M>: Send + Sync {
    fn accepts(&self, msg: M) -> bool;
}

/// A criterion on an envelope, whatever its payload type.
pub trait Judge<P>: Send + Sync {
    fn judge(&self, msg: Message<P>) -> bool;
}

/// Turns a [`Criterion`] on `M` into a [`Judge`]: a payload of another type is
/// not accepted.
pub struct Expect<M, C> {
    criterion: C,
    payload: PhantomData<M>,
}

impl<M, C> Expect<M, C> {
    pub fn new(criterion: C) -> (r: Self) {
        Expect { criterion, payload: PhantomData }
    }
}

impl<M: Send + Sync + 'static, P: Carrier, C: Criterion<M>> Judge<P> for Expect<M, C> {
    fn judge(&self, msg: Message<P>) -> (r: bool) {
        match msg.downcast::<M>() {
            Some(m) => self.criterion.accepts(m),
            None => false,
        }
    }
}

/// The response an ask step expects: a tell or an ask meeting a criterion, or
/// the answer to a state check.
pub enum Response<J> {
    Ask(J),
    Tell(J),
    Check,
}

/// How a message is sent.
pub enum MessageType<M> {
    Tell(M),
    Ask(M),
}

/// An expectation with the type identity of the payload it is about.
pub enum ResponseDyn<J> {
    Ask(TypeId, J),
    Tell(TypeId, J),
    Check,
}

/// The plain shape of an expectation.
#[derive(Clone, Copy)]
pub enum ExpectKind {
    Ask(TypeId),
    Tell(TypeId),
    Check,
}

impl<J> ResponseDyn<J> {
    /// The plain shape of this expectation.
    pub open spec fn kind_spec(&self) -> ExpectKind {
        match self {
            ResponseDyn::Ask(k, _) => ExpectKind::Ask(*k),
            ResponseDyn::Tell(k, _) => ExpectKind::Tell(*k),
            ResponseDyn::Check => ExpectKind::Check,
        }
    }

    pub fn kind(&self) -> (r: ExpectKind)
        ensures
            r == self.kind_spec(),
    {
        match self {
            ResponseDyn::Ask(k, _) => ExpectKind::Ask(*k),
            ResponseDyn::Tell(k, _) => ExpectKind::Tell(*k),
            ResponseDyn::Check => ExpectKind::Check,
        }
    }
}

/// The verdict on a reply of type identity `key`, told or asked, while the driver
/// waits for `pending` (`None`: it waits for nothing). A reply of another kind or
/// another type than the awaited one is out of order. `accepted` is what the
/// expectation's criterion said of the reply; it only matters when the reply is of
/// the expected kind and type.
pub open spec fn reply_verdict(pending: Option<ExpectKind>, key: TypeId, asks: bool, accepted: bool) -> Result<(), ActorTestError> {
    match pending {
        None => Err(ActorTestError::InvalidMessageOrder),
        Some(ExpectKind::Check) => Err(ActorTestError::InvalidMessageOrder),
        Some(ExpectKind::Tell(t)) => if asks || key != t {
            Err(ActorTestError::InvalidMessageOrder)
        } else if !accepted {
            Err(ActorTestError::CriteriaNotMet)
        } else {
            Ok(())
        },
        Some(ExpectKind::Ask(t)) => if !asks || key != t {
            Err(ActorTestError::InvalidMessageOrder)
        } else if !accepted {
            Err(ActorTestError::CriteriaNotMet)
        } else {
            Ok(())
        },
    }
}

/// Decides on a reply; see [`reply_verdict`].
pub fn judge_reply(pending: Option<ExpectKind>, key: &TypeId, asks: bool, accepted: bool) -> (r: Result<(), ActorTestError>)
    ensures
        r == reply_verdict(pending, *key, asks, accepted),
{
    match pending {
        None => Err(ActorTestError::InvalidMessageOrder),
        Some(ExpectKind::Check) => Err(ActorTestError::InvalidMessageOrder),
        Some(ExpectKind::Tell(t)) => {
            if asks || !same_type(key, &t) {
                Err(ActorTestError::InvalidMessageOrder)
            } else if !accepted {
                Err(ActorTestError::CriteriaNotMet)
            } else {
                Ok(())
            }
        },
        Some(ExpectKind::Ask(t)) => {
            if !asks || !same_type(key, &t) {
                Err(ActorTestError::InvalidMessageOrder)
            } else if !accepted {
                Err(ActorTestError::CriteriaNotMet)
            } else {
                Ok(())
            }
        },
    }
}

/// The verdict on a state-check answer `result` while the driver waits for `pending`.
pub open spec fn check_verdict(pending: Option<ExpectKind>, result: bool) -> Result<(), ActorTestError> {
    match pending {
        Some(ExpectKind::Check) => if result {
            Ok(())
        } else {
            Err(ActorTestError::StateCheckFailed)
        },
        _ => Err(ActorTestError::InvalidMessageOrder),
    }
}

/// Decides on a state-check answer; see [`check_verdict`].
pub fn judge_check(pending: Option<ExpectKind>, result: bool) -> (r: Result<(), ActorTestError>)
    ensures
        r == check_verdict(pending, result),
{
    match pending {
        Some(ExpectKind::Check) => {
            if result {
                Ok(())
            } else {
                Err(ActorTestError::StateCheckFailed)
            }
        },
        _ => Err(ActorTestError::InvalidMessageOrder),
    }
}

/// The verdict of a test from the driver's exit reason: it passed exactly when it
/// reached the end of its script.
pub fn test_passed(exit_reason: ExitReason) -> (r: bool)
    ensures
        r == (exit_reason == ExitReason::Kill),
{
    match exit_reason {
        ExitReason::Kill => true,
        ExitReason::Restart => false,
        ExitReason::Error => false,
    }
}

/// The signal the driver sends itself to take the next step.
#[derive(Clone, Copy, Debug, PartialEq, Eq, Structural)]
pub enum TestActorMessage {
    RunNext,
}

/// One step of a test script.
#[verifier::reject_recursive_types(S)]
#[verifier::reject_recursive_types(P)]
pub enum TestTask<S, P, J> {
    Tell(Message<P>),
    Ask(Message<P>, ResponseDyn<J>),
    Check(StateQuery<S>),
    Expect(ResponseDyn<J>),
    Exit,
}

impl<S, P, J> TestTask<S, P, J> {
    /// Whether this is the closing step.
    pub open spec fn is_exit(&self) -> bool {
        self is Exit
    }
}


/// Whether `k` is among `keys`.
fn listed(keys: &Vec<TypeId>, k: &TypeId) -> (r: bool)
    ensures
        r == keys@.contains(*k),
{
    let mut i: usize = 0;
    while i < keys.len()
        invariant
            i <= keys@.len(),
            forall|j: int| 0 <= j < i ==> keys@[j] != *k,
        decreases keys@.len() - i,
    {
        if same_type(&keys[i], k) {
            proof {
                assert(keys@[i as int] == *k);
            }
            return true;
        }
        i = i + 1;
    }
    false
}

/// The scripted actor that runs a test against a subject.
#[verifier::reject_recursive_types(S)]
#[verifier::reject_recursive_types(P)]
pub struct TestActor<S, P, J> {
    mailbox: Mailbox<P>,
    addr: Addr<P>,
    subject: Addr<P>,
    tasks: VecDeque<TestTask<S, P, J>>,
    test_state: Option<ResponseDyn<J>>,
    tell_keys: Vec<TypeId>,
    ask_keys: Vec<TypeId>,
    run_next_key: TypeId,
    check_key: TypeId,
}

impl<S: Send + 'static, P: Carrier, J: Judge<P>> TestActor<S, P, J> {
    /// The steps still to run, the next one first.
    pub closed spec fn tasks_spec(&self) -> Seq<TestTask<S, P, J>> {
        self.tasks@
    }

    /// The type identity of the driver's own step signal.
    pub closed spec fn run_next_key_spec(&self) -> TypeId {
        self.run_next_key
    }

    /// The type identity of state-check messages about the subject.
    pub closed spec fn check_key_spec(&self) -> TypeId {
        self.check_key
    }

    /// `after` is the driver once `before` has taken its next step, ending with `r`:
    /// the first task is gone, the test passes exactly at the closing step, and
    /// the driver then waits for what the step asked for.
    pub open spec fn next_step(before: Self, after: Self, r: Option<ExitReason>) -> bool {
        &&& before.tasks_spec().len() == 0 ==> r is None && after.tasks_spec().len() == 0
            && after.pending_spec() == before.pending_spec()
        &&& before.tasks_spec().len() > 0 ==> after.tasks_spec() == before.tasks_spec().drop_first()
        &&& r == Some(ExitReason::Kill) <==> (before.tasks_spec().len() > 0 && before.tasks_spec()[0].is_exit())
        &&& r is None || r == Some(ExitReason::Kill)
        &&& before.tasks_spec().len() > 0 ==> match before.tasks_spec()[0] {
            TestTask::Ask(_, resp) => after.pending_spec() == Some(resp.kind_spec()),
            TestTask::Expect(resp) => after.pending_spec() == Some(resp.kind_spec()),
            TestTask::Check(_) => after.pending_spec() == Some(ExpectKind::Check),
            _ => after.pending_spec() == before.pending_spec(),
        }
    }

    /// What the driver waits for; `None` when it is ready for the next step.
    pub closed spec fn pending_spec(&self) -> Option<ExpectKind> {
        match self.test_state {
            None => None,
            Some(r) => Some(r.kind_spec()),
        }
    }

    /// The driver's address.
    pub fn get_addr(&self) -> (r: Addr<P>) {
        self.addr.clone()
    }

    /// Begins the test: the driver signals itself to take the first step.
    pub fn start(&self) {
        self.addr.tell(TestActorMessage::RunNext);
    }

    fn pending(&self) -> (r: Option<ExpectKind>)
        ensures
            r == self.pending_spec(),
    {
        match &self.test_state {
            None => None,
            Some(resp) => Some(resp.kind()),
        }
    }

    /// Takes the next step of the script. The test passes (`Kill`) exactly at the
    /// closing step; a tell is sent and the next step follows at once; an ask, a
    /// state check or an expectation makes the driver wait.
    pub fn run_next(&mut self) -> (r: Option<ExitReason>)
        ensures
            Self::next_step(*old(self), *final(self), r),
            final(self).run_next_key_spec() == old(self).run_next_key_spec(),
            final(self).check_key_spec() == old(self).check_key_spec(),
    {
        match self.tasks.pop_front() {
            None => None,
            Some(task) => match task {
                TestTask::Tell(msg) => {
                    self.subject.send(msg);
                    self.addr.tell(TestActorMessage::RunNext);
                    None
                },
                TestTask::Ask(msg, response) => {
                    self.test_state = Some(response);
                    self.subject.send(msg);
                    None
                },
                TestTask::Check(query) => {
                    self.subject.ask(StateCheckMessage::<S>::Check(query), self.addr.clone());
                    self.test_state = Some(ResponseDyn::Check);
                    None
                },
                TestTask::Expect(response) => {
                    self.test_state = Some(response);
                    None
                },
                TestTask::Exit => Some(ExitReason::Kill),
            },
        }
    }

    /// Handles the answer to a state check, as taken out of its envelope
    /// (`None`: it was of another type). An accepted answer leaves the driver
    /// waiting for nothing and signals the next step; a refused one, or one the
    /// driver did not wait for, ends the test with `Error`.
    pub fn on_check_answer(&mut self, answer: Option<StateCheckMessage<S>>) -> (r: Option<ExitReason>)
        ensures
            final(self).tasks_spec() == old(self).tasks_spec(),
            final(self).run_next_key_spec() == old(self).run_next_key_spec(),
            final(self).check_key_spec() == old(self).check_key_spec(),
            match answer {
                Some(StateCheckMessage::Result(b)) => (check_verdict(old(self).pending_spec(), b) is Ok ==> r is None
                    && final(self).pending_spec() is None) && (check_verdict(old(self).pending_spec(), b) is Err
                    ==> r == Some(ExitReason::Error)),
                Some(StateCheckMessage::Check(_)) => (old(self).pending_spec() == Some(ExpectKind::Check) ==> r is None
                    && final(self).pending_spec() == old(self).pending_spec()) && (old(self).pending_spec() != Some(
                    ExpectKind::Check,
                ) ==> r == Some(ExitReason::Error)),
                None => r == Some(ExitReason::Error),
            },
    {
        let pending = self.pending();
        match answer {
            Some(StateCheckMessage::Result(result)) => match judge_check(pending, result) {
                Ok(()) => {
                    self.test_state = None;
                    self.addr.tell(TestActorMessage::RunNext);
                    None
                },
                Err(_) => Some(ExitReason::Error),
            },
            Some(StateCheckMessage::Check(_)) => match pending {
                Some(ExpectKind::Check) => {
                    self.addr.tell(TestActorMessage::RunNext);
                    None
                },
                _ => Some(ExitReason::Error),
            },
            None => Some(ExitReason::Error),
        }
    }

    /// Handles a message of a type some step expects, given its type identity,
    /// whether it was asked, and what the awaited criterion said of it. An
    /// accepted message leaves the driver waiting for nothing and signals the next
    /// step; otherwise the test ends with `Error`.
    pub fn on_reply(&mut self, key: &TypeId, asks: bool, accepted: bool) -> (r: Option<ExitReason>)
        ensures
            final(self).tasks_spec() == old(self).tasks_spec(),
            final(self).run_next_key_spec() == old(self).run_next_key_spec(),
            final(self).check_key_spec() == old(self).check_key_spec(),
            reply_verdict(old(self).pending_spec(), *key, asks, accepted) is Ok ==> r is None
                && final(self).pending_spec() is None,
            reply_verdict(old(self).pending_spec(), *key, asks, accepted) is Err ==> r == Some(ExitReason::Error),
    {
        let pending = self.pending();
        match judge_reply(pending, key, asks, accepted) {
            Ok(()) => {
                self.test_state = None;
                self.addr.tell(TestActorMessage::RunNext);
                None
            },
            Err(_) => Some(ExitReason::Error),
        }
    }

    /// Handles one envelope: the step signal, a state-check answer, or a message of
    /// a type some step expects, told or asked. A verdict that is not `Ok` fails
    /// the test (`Error`); envelopes of any other type are dropped. The test can
    /// only pass at the closing step, on the step signal.
    pub fn step(&mut self, msg: Message<P>) -> (r: Option<ExitReason>)
        ensures
            !msg.asks_spec() && msg.key_spec() == old(self).run_next_key_spec() ==> Self::next_step(
                *old(self),
                *final(self),
                r,
            ),
            !(!msg.asks_spec() && msg.key_spec() == old(self).run_next_key_spec()) ==> final(self).tasks_spec()
                == old(self).tasks_spec() && (r is None || r == Some(ExitReason::Error)) && (r is None
                ==> final(self).pending_spec() is None || final(self).pending_spec() == old(self).pending_spec()),
            final(self).run_next_key_spec() == old(self).run_next_key_spec(),
            final(self).check_key_spec() == old(self).check_key_spec(),
    {
        let key = msg.type_id();
        let asks = msg.has_sender();
        if !asks && same_type(&key, &self.run_next_key) {
            return self.run_next();
        }
        if !asks && same_type(&key, &self.check_key) {
            let answer = msg.downcast::<StateCheckMessage<S>>();
            return self.on_check_answer(answer);
        }
        let expected = listed(&self.ask_keys, &key) || listed(&self.tell_keys, &key);
        if !expected {
            return None;
        }
        let accepted = match &self.test_state {
            Some(ResponseDyn::Tell(t, judge)) => {
                if !asks && same_type(&key, t) {
                    judge.judge(msg)
                } else {
                    true
                }
            },
            Some(ResponseDyn::Ask(t, judge)) => {
                if asks && same_type(&key, t) {
                    judge.judge(msg)
                } else {
                    true
                }
            },
            _ => true,
        };
        self.on_reply(&key, asks, accepted)
    }

    /// Runs the driver without waiting, on at most `limit` envelopes. `Some` is
    /// its exit reason once the test is decided; it passes (`Kill`) only if it
    /// reached a closing step of its script, and a closed mailbox fails it.
    pub fn run_ready(&mut self, limit: usize) -> (r: Option<ExitReason>)
        ensures
            r is None || r == Some(ExitReason::Kill) || r == Some(ExitReason::Error),
            r == Some(ExitReason::Kill) ==> exists|k: int|
                0 <= k < old(self).tasks_spec().len() && (#[trigger] old(self).tasks_spec()[k]).is_exit(),
            final(self).tasks_spec().len() <= old(self).tasks_spec().len(),
            final(self).tasks_spec() == old(self).tasks_spec().subrange(
                old(self).tasks_spec().len() - final(self).tasks_spec().len(),
                old(self).tasks_spec().len() as int,
            ),
    {
        let mut n: usize = 0;
        while n < limit
            invariant
                self.tasks_spec().len() <= old(self).tasks_spec().len(),
                self.tasks_spec() == old(self).tasks_spec().subrange(
                    old(self).tasks_spec().len() - self.tasks_spec().len(),
                    old(self).tasks_spec().len() as int,
                ),
                self.run_next_key_spec() == old(self).run_next_key_spec(),
            decreases limit - n,
        {
            match self.mailbox.try_next() {
                Received::Item(m) => {
                    let ghost before = *self;
                    let d = self.step(m);
                    proof {
                        let o = old(self).tasks_spec();
                        let k = o.len() - before.tasks_spec().len();
                        if before.tasks_spec().len() > 0 && self.tasks_spec() == before.tasks_spec().drop_first() {
                            assert(self.tasks_spec() =~= o.subrange(o.len() - self.tasks_spec().len(), o.len() as int));
                        }
                        if d == Some(ExitReason::Kill) {
                            assert(before.tasks_spec()[0] == o[k]);
                        }
                    }
                    if d.is_some() {
                        return d;
                    }
                },
                Received::Empty => {
                    return None;
                },
                Received::Closed => {
                    return Some(ExitReason::Error);
                },
            }
            n = n + 1;
        }
        None
    }

    /// The mailbox, for a host that awaits the next envelope.
    pub fn mailbox(&mut self) -> (r: &mut Mailbox<P>) {
        &mut self.mailbox
    }
}

/// Builds a [`TestActor`] step by step.
#[verifier::reject_recursive_types(S)]
#[verifier::reject_recursive_types(P)]
pub struct ActorTestBuilder<S, P, J> {
    mailbox: Mailbox<P>,
    addr: Addr<P>,
    subject: Addr<P>,
    tasks: VecDeque<TestTask<S, P, J>>,
    tell_keys: Vec<TypeId>,
    ask_keys: Vec<TypeId>,
}

impl<S: Send + 'static, P: Carrier, J: Judge<P>> ActorTestBuilder<S, P, J> {
    /// The steps so far, in order.
    pub closed spec fn tasks_spec(&self) -> Seq<TestTask<S, P, J>> {
        self.tasks@
    }

    /// A builder of a test against the actor at `addr`.
    pub fn new(addr: Addr<P>) -> (r: Self)
        ensures
            r.tasks_spec().len() == 0,
    {
        let mailbox = Mailbox::unbounded();
        let own = mailbox.get_addr();
        ActorTestBuilder {
            mailbox,
            addr: own,
            subject: addr,
            tasks: VecDeque::new(),
            tell_keys: Vec::new(),
            ask_keys: Vec::new(),
        }
    }

    /// Adds a state check: the subject's state must satisfy `check`.
    pub fn check(self, check: StateQuery<S>) -> (r: Self)
        ensures
            r.tasks_spec() == self.tasks_spec().push(TestTask::Check(check)),
    {
        let mut b = self;
        b.tasks.push_back(TestTask::Check(check));
        b
    }

    /// Adds a tell of `msg` to the subject.
    pub fn tell<M: Send + 'static>(self, msg: M) -> (r: Self)
        ensures
            r.tasks_spec().len() == self.tasks_spec().len() + 1,
            r.tasks_spec().drop_last() == self.tasks_spec(),
            r.tasks_spec().last() is Tell,
            !r.tasks_spec().last()->Tell_0.asks_spec(),
    {
        let mut b = self;
        let m = Message::<P>::without_sender(msg);
        b.tasks.push_back(TestTask::Tell(m));
        proof {
            assert(b.tasks@.drop_last() =~= self.tasks@);
        }
        b
    }

    /// Adds an ask of `msg` to the subject, with the driver as reply address, and
    /// the response it must bring: a tell or an ask whose payload of type `R` meets
    /// a criterion, or a state-check answer.
    pub fn ask<M: Send + 'static, R: 'static>(self, msg: M, expected_response: Response<J>) -> (r: Self)
        ensures
            r.tasks_spec().len() == self.tasks_spec().len() + 1,
            r.tasks_spec().drop_last() == self.tasks_spec(),
            r.tasks_spec().last() is Ask,
            r.tasks_spec().last()->Ask_0.asks_spec(),
            expected_response is Check ==> r.tasks_spec().last()->Ask_1 is Check,
            expected_response is Tell ==> r.tasks_spec().last()->Ask_1 is Tell,
            expected_response is Ask ==> r.tasks_spec().last()->Ask_1 is Ask,
    {
        let mut b = self;
        let m = Message::<P>::with_sender(msg, b.addr.clone());
        let response = match expected_response {
            Response::Ask(judge) => {
                let key = type_key_of::<R>();
                b.ask_keys.push(key);
                ResponseDyn::Ask(key, judge)
            },
            Response::Tell(judge) => {
                let key = type_key_of::<R>();
                b.tell_keys.push(key);
                ResponseDyn::Tell(key, judge)
            },
            Response::Check => ResponseDyn::Check,
        };
        b.tasks.push_back(TestTask::Ask(m, response));
        proof {
            assert(b.tasks@.drop_last() =~= self.tasks@);
        }
        b
    }

    /// Adds an expectation: the next message is a tell whose payload of type `M`
    /// meets `criterion`.
    pub fn expect_tell<M: 'static>(self, criterion: J) -> (r: Self)
        ensures
            r.tasks_spec().len() == self.tasks_spec().len() + 1,
            r.tasks_spec().drop_last() == self.tasks_spec(),
            r.tasks_spec().last() matches TestTask::Expect(ResponseDyn::Tell(_, j)) && j == criterion,
    {
        let mut b = self;
        let key = type_key_of::<M>();
        b.tell_keys.push(key);
        b.tasks.push_back(TestTask::Expect(ResponseDyn::Tell(key, criterion)));
        proof {
            assert(b.tasks@.drop_last() =~= self.tasks@);
        }
        b
    }

    /// Adds an expectation: the next message is an ask whose payload of type `M`
    /// meets `criterion`.
    pub fn expect_ask<M: 'static>(self, criterion: J) -> (r: Self)
        ensures
            r.tasks_spec().len() == self.tasks_spec().len() + 1,
            r.tasks_spec().drop_last() == self.tasks_spec(),
            r.tasks_spec().last() matches TestTask::Expect(ResponseDyn::Ask(_, j)) && j == criterion,
    {
        let mut b = self;
        let key = type_key_of::<M>();
        b.ask_keys.push(key);
        b.tasks.push_back(TestTask::Expect(ResponseDyn::Ask(key, criterion)));
        proof {
            assert(b.tasks@.drop_last() =~= self.tasks@);
        }
        b
    }

    /// The driver: the steps in order, closed by the exit step.
    pub fn build(self) -> (r: TestActor<S, P, J>)
        ensures
            r.tasks_spec() == self.tasks_spec().push(TestTask::Exit),
            r.pending_spec() is None,
    {
        let mut tasks = self.tasks;
        tasks.push_back(TestTask::Exit);
        TestActor {
            mailbox: self.mailbox,
            addr: self.addr,
            subject: self.subject,
            tasks,
            test_state: None,
            tell_keys: self.tell_keys,
            ask_keys: self.ask_keys,
            run_next_key: type_key_of::<TestActorMessage>(),
            check_key: type_key_of::<StateCheckMessage<S>>(),
        }
    }
}

} // verus!
