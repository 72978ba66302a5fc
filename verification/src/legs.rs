//! The two legs of an atomic cross-chain swap.
//!
//! Both legs are hold invoices on one payment hash. Bob pays on the Core chain
//! and is paid on the Knots chain; Alice the reverse. Bob knows the secret:
//! settling the Knots leg publishes it, Alice reads it from her own payment and
//! settles the Core leg with it.
//!
//! The three things that go on at once are three lanes of one state. Each lane
//! asks for one action at a time and goes on with what that action gave.

use vstd::prelude::*;
use crate::outcome::{bare, during, failing_view, unit_failing_view, Failure};

verus! {

/// A Lightning node of the exchange. A node serves one chain, so that each of
/// the two parties has one on each.
#[derive(Clone, Copy, PartialEq, Eq, Structural)]
pub enum Party {
    AliceCore,
    BobCore,
    AliceKnots,
    BobKnots,
}

/// Bob's payment on the Core chain.
pub enum CoreLane<T, F> {
    /// The payment is under way.
    Paying,
    /// It ended with the preimage, or failed.
    Done(Result<T, F>),
}

/// Alice's payment on the Knots chain, and her settling of the Core leg.
pub enum AliceLane<T, F> {
    /// The payment is under way.
    Paying,
    /// It ended with a preimage, with which the Core leg is being settled.
    Settling(T),
    /// The Core leg is settled with the preimage that Alice observed.
    Done(Result<T, F>),
}

/// Bob's settling of the Knots leg, once both legs are held.
pub enum BobLane<F> {
    /// Is the Core leg known to its payee?
    LookCore,
    /// It is; is the Knots leg known to its payee too?
    LookKnots,
    /// One was not known: has the wait taken too long?
    Clock,
    /// It has not: a pause before looking again.
    Pause,
    /// Both are known: a pause for the payments to arrive.
    Grace,
    /// The Knots leg is being settled.
    Settling,
    /// It is settled, or the lane failed.
    Done(Result<(), F>),
}

/// The state of the two legs.
pub struct Legs<T, F> {
    pub secret: T,
    pub payment_hash: T,
    pub alice_invoice: T,
    pub bob_invoice: T,
    /// How long Bob waits for both legs to be held, in seconds.
    pub held_timeout_secs: u64,
    pub core: CoreLane<T, F>,
    pub alice: AliceLane<T, F>,
    pub bob: BobLane<F>,
    /// What the last look at each leg gave.
    pub core_held: bool,
    pub knots_held: bool,
}

/// What a lane asks for.
pub enum LegAsk<T> {
    Pay { party: Party, invoice: T },
    Lookup { party: Party, payment_hash: T },
    Settle { party: Party, preimage: T },
    Elapsed,
    SleepSecs(u64),
    Nothing,
}

/// What an action gave.
pub enum LegEvent<T, F> {
    CorePaid(Result<T, F>),
    AlicePaid(Result<T, F>),
    AliceSettled(Result<(), F>),
    Looked(bool),
    /// Nanoseconds since Bob began to wait.
    Elapsed(u128),
    Slept,
    BobSettled(Result<(), F>),
}

impl View for CoreLane<String, Failure> {
    type V = CoreLane<Seq<char>, Seq<Seq<char>>>;

    open spec fn view(&self) -> CoreLane<Seq<char>, Seq<Seq<char>>> {
        match *self {
            CoreLane::Paying => CoreLane::Paying,
            CoreLane::Done(r) => CoreLane::Done(failing_view(r)),
        }
    }
}

impl View for AliceLane<String, Failure> {
    type V = AliceLane<Seq<char>, Seq<Seq<char>>>;

    open spec fn view(&self) -> AliceLane<Seq<char>, Seq<Seq<char>>> {
        match *self {
            AliceLane::Paying => AliceLane::Paying,
            AliceLane::Settling(s) => AliceLane::Settling(s@),
            AliceLane::Done(r) => AliceLane::Done(failing_view(r)),
        }
    }
}

impl View for BobLane<Failure> {
    type V = BobLane<Seq<Seq<char>>>;

    open spec fn view(&self) -> BobLane<Seq<Seq<char>>> {
        match *self {
            BobLane::LookCore => BobLane::LookCore,
            BobLane::LookKnots => BobLane::LookKnots,
            BobLane::Clock => BobLane::Clock,
            BobLane::Pause => BobLane::Pause,
            BobLane::Grace => BobLane::Grace,
            BobLane::Settling => BobLane::Settling,
            BobLane::Done(r) => BobLane::Done(unit_failing_view(r)),
        }
    }
}

impl View for Legs<String, Failure> {
    type V = Legs<Seq<char>, Seq<Seq<char>>>;

    open spec fn view(&self) -> Legs<Seq<char>, Seq<Seq<char>>> {
        Legs {
            secret: self.secret@,
            payment_hash: self.payment_hash@,
            alice_invoice: self.alice_invoice@,
            bob_invoice: self.bob_invoice@,
            held_timeout_secs: self.held_timeout_secs,
            core: self.core@,
            alice: self.alice@,
            bob: self.bob@,
            core_held: self.core_held,
            knots_held: self.knots_held,
        }
    }
}

impl View for LegAsk<String> {
    type V = LegAsk<Seq<char>>;

    open spec fn view(&self) -> LegAsk<Seq<char>> {
        match *self {
            LegAsk::Pay { party, invoice } => LegAsk::Pay { party, invoice: invoice@ },
            LegAsk::Lookup { party, payment_hash } => LegAsk::Lookup {
                party,
                payment_hash: payment_hash@,
            },
            LegAsk::Settle { party, preimage } => LegAsk::Settle { party, preimage: preimage@ },
            LegAsk::Elapsed => LegAsk::Elapsed,
            LegAsk::SleepSecs(n) => LegAsk::SleepSecs(n),
            LegAsk::Nothing => LegAsk::Nothing,
        }
    }
}

impl View for LegEvent<String, Failure> {
    type V = LegEvent<Seq<char>, Seq<Seq<char>>>;

    open spec fn view(&self) -> LegEvent<Seq<char>, Seq<Seq<char>>> {
        match *self {
            LegEvent::CorePaid(r) => LegEvent::CorePaid(failing_view(r)),
            LegEvent::AlicePaid(r) => LegEvent::AlicePaid(failing_view(r)),
            LegEvent::AliceSettled(r) => LegEvent::AliceSettled(unit_failing_view(r)),
            LegEvent::Looked(b) => LegEvent::Looked(b),
            LegEvent::Elapsed(n) => LegEvent::Elapsed(n),
            LegEvent::Slept => LegEvent::Slept,
            LegEvent::BobSettled(r) => LegEvent::BobSettled(unit_failing_view(r)),
        }
    }
}

impl BobLane<Seq<Seq<char>>> {
    /// The Knots leg is settled.
    pub open spec fn settled(self) -> bool {
        self matches BobLane::Done(r) && r is Ok
    }
}

/// What a payment that gave the wrong preimage is reported as.
pub open spec fn wrong_preimage(observed: Seq<char>, secret: Seq<char>) -> Seq<char> {
    "alice observed "@ + observed + ", expected "@ + secret
}

impl Legs<Seq<char>, Seq<Seq<char>>> {
    /// Both payments begin at once, and Bob begins to look.
    pub open spec fn begun(
        secret: Seq<char>,
        payment_hash: Seq<char>,
        alice_invoice: Seq<char>,
        bob_invoice: Seq<char>,
        held_timeout_secs: u64,
    ) -> Legs<Seq<char>, Seq<Seq<char>>> {
        Legs {
            secret,
            payment_hash,
            alice_invoice,
            bob_invoice,
            held_timeout_secs,
            core: CoreLane::Paying,
            alice: AliceLane::Paying,
            bob: BobLane::LookCore,
            core_held: false,
            knots_held: false,
        }
    }

    /// What Bob's paying lane asks for.
    pub open spec fn core_asks(self) -> LegAsk<Seq<char>> {
        match self.core {
            CoreLane::Paying => LegAsk::Pay {
                party: Party::BobCore,
                invoice: self.alice_invoice,
            },
            CoreLane::Done(_) => LegAsk::Nothing,
        }
    }

    /// What Alice's lane asks for.
    pub open spec fn alice_asks(self) -> LegAsk<Seq<char>> {
        match self.alice {
            AliceLane::Paying => LegAsk::Pay {
                party: Party::AliceKnots,
                invoice: self.bob_invoice,
            },
            AliceLane::Settling(observed) => LegAsk::Settle {
                party: Party::AliceCore,
                preimage: observed,
            },
            AliceLane::Done(_) => LegAsk::Nothing,
        }
    }

    /// What Bob's settling lane asks for.
    pub open spec fn bob_asks(self) -> LegAsk<Seq<char>> {
        match self.bob {
            BobLane::LookCore => LegAsk::Lookup {
                party: Party::AliceCore,
                payment_hash: self.payment_hash,
            },
            BobLane::LookKnots => LegAsk::Lookup {
                party: Party::BobKnots,
                payment_hash: self.payment_hash,
            },
            BobLane::Clock => LegAsk::Elapsed,
            BobLane::Pause => LegAsk::SleepSecs(2),
            BobLane::Grace => LegAsk::SleepSecs(3),
            BobLane::Settling => LegAsk::Settle { party: Party::BobKnots, preimage: self.secret },
            BobLane::Done(_) => LegAsk::Nothing,
        }
    }

    /// The state after an action gave `event`. What no lane asked for changes
    /// nothing.
    pub open spec fn after(self, event: LegEvent<Seq<char>, Seq<Seq<char>>>) -> Legs<Seq<char>, Seq<Seq<char>>> {
        match event {
            LegEvent::CorePaid(r) => if self.core is Paying {
                Legs { core: CoreLane::Done(r), ..self }
            } else {
                self
            },
            LegEvent::AlicePaid(r) => if self.alice is Paying {
                Legs { alice: self.alice_after_payment(r), ..self }
            } else {
                self
            },
            LegEvent::AliceSettled(r) => match self.alice {
                AliceLane::Settling(observed) => Legs {
                    alice: AliceLane::Done(
                        match r {
                            Ok(()) => Ok(observed),
                            Err(cause) => Err(
                                during(
                                    "alice-core settle_hold_invoice failed"@,
                                    cause,
                                ),
                            ),
                        },
                    ),
                    ..self
                },
                _ => self,
            },
            LegEvent::Looked(found) => match self.bob {
                BobLane::LookCore => Legs {
                    bob: if found {
                        BobLane::LookKnots
                    } else {
                        BobLane::Clock
                    },
                    core_held: found,
                    ..self
                },
                BobLane::LookKnots => Legs {
                    bob: if found {
                        BobLane::Grace
                    } else {
                        BobLane::Clock
                    },
                    knots_held: found,
                    ..self
                },
                _ => self,
            },
            LegEvent::Elapsed(nanos) => if self.bob is Clock {
                Legs {
                    bob: if nanos < self.held_timeout_secs * 1_000_000_000 {
                        BobLane::Pause
                    } else {
                        BobLane::Done(Err(bare("timed out waiting for both legs held"@)))
                    },
                    ..self
                }
            } else {
                self
            },
            LegEvent::Slept => match self.bob {
                BobLane::Pause => Legs { bob: BobLane::LookCore, ..self },
                BobLane::Grace => Legs { bob: BobLane::Settling, ..self },
                _ => self,
            },
            LegEvent::BobSettled(r) => if self.bob is Settling {
                Legs { bob: BobLane::Done(r), ..self }
            } else {
                self
            },
        }
    }

    /// Alice's lane after her payment: she settles with what she observed, if
    /// that is the secret.
    pub open spec fn alice_after_payment(self, r: Result<Seq<char>, Seq<Seq<char>>>) -> AliceLane<
        Seq<char>,
        Seq<Seq<char>>,
    > {
        match r {
            Ok(observed) => if observed == self.secret {
                AliceLane::Settling(observed)
            } else {
                AliceLane::Done(
                    Err(bare(wrong_preimage(observed, self.secret))),
                )
            },
            Err(cause) => AliceLane::Done(
                Err(during("alice-knots pay_invoice failed"@, cause)),
            ),
        }
    }

    /// All three lanes have ended.
    pub open spec fn ended(self) -> bool {
        self.core is Done && self.alice is Done && self.bob is Done
    }

    /// How legs that have ended came out: the preimage that both settled with,
    /// or the failure of Bob's settling, of Alice's lane or of Bob's payment,
    /// the first of them in this order. `mismatch` is the cause where the Core
    /// leg settled with another preimage.
    pub open spec fn verdict(self, mismatch: Seq<char>) -> Result<Seq<char>, Seq<Seq<char>>> {
        match (self.bob, self.alice, self.core) {
            (BobLane::Done(Err(cause)), _, _) => Err(
                during("bob-knots settle_hold_invoice failed"@, cause),
            ),
            (_, AliceLane::Done(Err(failure)), _) => Err(failure),
            (_, _, CoreLane::Done(Err(cause))) => Err(
                during("bob-core pay_invoice failed"@, cause),
            ),
            (_, AliceLane::Done(Ok(observed)), CoreLane::Done(Ok(preimage))) => if preimage
                == observed {
                Ok(observed)
            } else {
                Err(bare(mismatch))
            },
            _ => Err(bare(mismatch)),
        }
    }

    /// What every state of the legs keeps: Bob goes on to settle only when the
    /// last look found both legs, and Alice settles with nothing but the
    /// secret.
    pub open spec fn safe(self) -> bool {
        &&& self.bob is LookKnots ==> self.core_held
        &&& (self.bob is Grace || self.bob is Settling || self.bob.settled()) ==> self.core_held
            && self.knots_held
        &&& self.alice matches AliceLane::Settling(observed) ==> observed == self.secret
        &&& self.alice matches AliceLane::Done(Ok(observed)) ==> observed == self.secret
    }
}

impl Legs<String, Failure> {
    /// Both payments begin at once, and Bob begins to look.
    pub fn begin(
        secret: String,
        payment_hash: String,
        alice_invoice: String,
        bob_invoice: String,
        held_timeout_secs: u64,
    ) -> (r: Legs<String, Failure>)
        ensures
            r@ == Legs::<Seq<char>, Seq<Seq<char>>>::begun(
                secret@,
                payment_hash@,
                alice_invoice@,
                bob_invoice@,
                held_timeout_secs,
            ),
            r@.safe(),
    {
        Legs {
            secret,
            payment_hash,
            alice_invoice,
            bob_invoice,
            held_timeout_secs,
            core: CoreLane::Paying,
            alice: AliceLane::Paying,
            bob: BobLane::LookCore,
            core_held: false,
            knots_held: false,
        }
    }

    /// What Bob's paying lane asks for.
    pub fn core_ask(&self) -> (r: LegAsk<String>)
        ensures
            r@ == self@.core_asks(),
    {
        match &self.core {
            CoreLane::Paying => LegAsk::Pay {
                party: Party::BobCore,
                invoice: self.alice_invoice.clone(),
            },
            CoreLane::Done(_) => LegAsk::Nothing,
        }
    }

    /// What Alice's lane asks for.
    pub fn alice_ask(&self) -> (r: LegAsk<String>)
        ensures
            r@ == self@.alice_asks(),
    {
        match &self.alice {
            AliceLane::Paying => LegAsk::Pay {
                party: Party::AliceKnots,
                invoice: self.bob_invoice.clone(),
            },
            AliceLane::Settling(observed) => LegAsk::Settle {
                party: Party::AliceCore,
                preimage: observed.clone(),
            },
            AliceLane::Done(_) => LegAsk::Nothing,
        }
    }

    /// What Bob's settling lane asks for.
    pub fn bob_ask(&self) -> (r: LegAsk<String>)
        ensures
            r@ == self@.bob_asks(),
    {
        match &self.bob {
            BobLane::LookCore => LegAsk::Lookup {
                party: Party::AliceCore,
                payment_hash: self.payment_hash.clone(),
            },
            BobLane::LookKnots => LegAsk::Lookup {
                party: Party::BobKnots,
                payment_hash: self.payment_hash.clone(),
            },
            BobLane::Clock => LegAsk::Elapsed,
            BobLane::Pause => LegAsk::SleepSecs(2),
            BobLane::Grace => LegAsk::SleepSecs(3),
            BobLane::Settling => LegAsk::Settle {
                party: Party::BobKnots,
                preimage: self.secret.clone(),
            },
            BobLane::Done(_) => LegAsk::Nothing,
        }
    }

    fn alice_paid(&self, r: Result<String, Failure>) -> (lane: AliceLane<String, Failure>)
        ensures
            lane@ == self@.alice_after_payment(failing_view(r)),
    {
        match r {
            Ok(observed) => if observed == self.secret {
                AliceLane::Settling(observed)
            } else {
                let mut cause = "alice observed ".to_owned();
                vstd::string::StringExecFns::append(&mut cause, observed.as_str());
                vstd::string::StringExecFns::append(&mut cause, ", expected ");
                vstd::string::StringExecFns::append(&mut cause, self.secret.as_str());
                AliceLane::Done(Err(Failure::new(cause)))
            },
            Err(cause) => AliceLane::Done(
                Err(cause.context("alice-knots pay_invoice failed")),
            ),
        }
    }

    /// Takes what an action gave.
    pub fn step(self, event: LegEvent<String, Failure>) -> (r: Legs<String, Failure>)
        ensures
            r@ == self@.after(event@),
            self@.safe() ==> r@.safe(),
    {
        match event {
            LegEvent::CorePaid(paid) => match self.core {
                CoreLane::Paying => Legs { core: CoreLane::Done(paid), ..self },
                CoreLane::Done(_) => self,
            },
            LegEvent::AlicePaid(paid) => match self.alice {
                AliceLane::Paying => {
                    let alice = self.alice_paid(paid);
                    Legs { alice, ..self }
                },
                _ => self,
            },
            LegEvent::AliceSettled(settled) => match self.alice {
                AliceLane::Settling(observed) => {
                    let result = match settled {
                        Ok(()) => Ok(observed),
                        Err(cause) => Err(
                            cause.context("alice-core settle_hold_invoice failed"),
                        ),
                    };
                    Legs { alice: AliceLane::Done(result), ..self }
                },
                _ => self,
            },
            LegEvent::Looked(found) => match self.bob {
                BobLane::LookCore => Legs {
                    bob: if found {
                        BobLane::LookKnots
                    } else {
                        BobLane::Clock
                    },
                    core_held: found,
                    ..self
                },
                BobLane::LookKnots => Legs {
                    bob: if found {
                        BobLane::Grace
                    } else {
                        BobLane::Clock
                    },
                    knots_held: found,
                    ..self
                },
                _ => self,
            },
            LegEvent::Elapsed(nanos) => match self.bob {
                BobLane::Clock => {
                    let limit: u128 = (self.held_timeout_secs as u128) * 1_000_000_000;
                    let bob = if nanos < limit {
                        BobLane::Pause
                    } else {
                        BobLane::Done(Err(Failure::new("timed out waiting for both legs held".to_owned())))
                    };
                    Legs { bob, ..self }
                },
                _ => self,
            },
            LegEvent::Slept => match self.bob {
                BobLane::Pause => Legs { bob: BobLane::LookCore, ..self },
                BobLane::Grace => Legs { bob: BobLane::Settling, ..self },
                _ => self,
            },
            LegEvent::BobSettled(settled) => match self.bob {
                BobLane::Settling => Legs { bob: BobLane::Done(settled), ..self },
                _ => self,
            },
        }
    }

    /// Whether all three lanes have ended.
    pub fn has_ended(&self) -> (r: bool)
        ensures
            r == self@.ended(),
    {
        matches!(self.core, CoreLane::Done(_)) && matches!(self.alice, AliceLane::Done(_))
            && matches!(self.bob, BobLane::Done(_))
    }

    /// How the legs came out, where all three lanes have ended.
    pub fn finish(self, mismatch: &str) -> (r: Option<Result<String, Failure>>)
        ensures
            match r {
                Some(verdict) => self@.ended() && failing_view(verdict) == self@.verdict(
                    mismatch@,
                ),
                None => !self@.ended(),
            },
    {
        match (self.bob, self.alice, self.core) {
            (BobLane::Done(settled), AliceLane::Done(flow), CoreLane::Done(paid)) => {
                Some(
                    match settled {
                        Err(cause) => Err(
                            cause.context("bob-knots settle_hold_invoice failed"),
                        ),
                        Ok(()) => match flow {
                            Err(failure) => Err(failure),
                            Ok(observed) => match paid {
                                Err(cause) => Err(
                                    cause.context("bob-core pay_invoice failed"),
                                ),
                                Ok(preimage) => if preimage == observed {
                                    Ok(observed)
                                } else {
                                    Err(Failure::new(mismatch.to_owned()))
                                },
                            },
                        },
                    },
                )
            },
            _ => None,
        }
    }
}

/// Bob is asked to settle the Knots leg, and so to reveal the secret, only when
/// his last look found both legs.
pub proof fn bob_settles_only_held_legs(legs: Legs<Seq<char>, Seq<Seq<char>>>)
    requires
        legs.safe(),
        legs.bob_asks() is Settle,
    ensures
        legs.core_held && legs.knots_held,
        legs.bob_asks() == (LegAsk::Settle { party: Party::BobKnots, preimage: legs.secret }),
{
}

/// Alice is asked to settle the Core leg only with a preimage that her own
/// payment gave, and that preimage is the secret.
pub proof fn alice_settles_with_what_she_observed(
    before: Legs<Seq<char>, Seq<Seq<char>>>,
    event: LegEvent<Seq<char>, Seq<Seq<char>>>,
)
    requires
        before.safe(),
        !(before.alice_asks() is Settle),
        before.after(event).alice_asks() is Settle,
    ensures
        event == LegEvent::AlicePaid(Ok::<Seq<char>, Seq<Seq<char>>>(before.secret)),
        before.after(event).alice_asks() == (LegAsk::Settle {
            party: Party::AliceCore,
            preimage: before.secret,
        }),
{
}

/// No lane waits for another: until it has ended, a lane asks for something,
/// and what it asks for depends on no other lane.
pub proof fn no_lane_waits_for_another(
    legs: Legs<Seq<char>, Seq<Seq<char>>>,
    core: CoreLane<Seq<char>, Seq<Seq<char>>>,
    alice: AliceLane<Seq<char>, Seq<Seq<char>>>,
    bob: BobLane<Seq<Seq<char>>>,
)
    ensures
        legs.core is Done <==> legs.core_asks() is Nothing,
        legs.alice is Done <==> legs.alice_asks() is Nothing,
        legs.bob is Done <==> legs.bob_asks() is Nothing,
        (Legs { alice, bob, ..legs }).core_asks() == legs.core_asks(),
        (Legs { core, bob, ..legs }).alice_asks() == legs.alice_asks(),
        (Legs { core, alice, ..legs }).bob_asks() == legs.bob_asks(),
{
}

/// Legs that came out well settled on one secret: Alice observed it, Bob's
/// payment on the Core chain gave it back, and Bob settled legs that were both
/// held.
pub proof fn settled_legs_share_the_secret(legs: Legs<Seq<char>, Seq<Seq<char>>>, mismatch: Seq<char>)
    requires
        legs.safe(),
        legs.ended(),
        legs.verdict(mismatch) is Ok,
    ensures
        legs.verdict(mismatch) == Ok::<Seq<char>, Seq<Seq<char>>>(legs.secret),
        legs.core == CoreLane::Done(Ok::<Seq<char>, Seq<Seq<char>>>(legs.secret)),
        legs.alice == AliceLane::Done(Ok::<Seq<char>, Seq<Seq<char>>>(legs.secret)),
        legs.bob.settled(),
        legs.core_held && legs.knots_held,
{
}

/// What an event leaves as it was: the secret, the hash, the invoices and the
/// time limit.
pub proof fn events_keep_the_terms(legs: Legs<Seq<char>, Seq<Seq<char>>>, event: LegEvent<Seq<char>, Seq<Seq<char>>>)
    ensures
        legs.after(event).secret == legs.secret,
        legs.after(event).payment_hash == legs.payment_hash,
        legs.after(event).alice_invoice == legs.alice_invoice,
        legs.after(event).bob_invoice == legs.bob_invoice,
        legs.after(event).held_timeout_secs == legs.held_timeout_secs,
{
}

/// Legs that took these events.
pub open spec fn led(
    legs: Legs<Seq<char>, Seq<Seq<char>>>,
    events: Seq<LegEvent<Seq<char>, Seq<Seq<char>>>>,
) -> Legs<Seq<char>, Seq<Seq<char>>>
    decreases events.len(),
{
    if events.len() == 0 {
        legs
    } else {
        led(legs, events.drop_last()).after(events.last())
    }
}

/// Legs that were begun are safe whatever events they take, in whatever order
/// the lanes go on.
pub proof fn begun_legs_stay_safe(
    secret: Seq<char>,
    payment_hash: Seq<char>,
    alice_invoice: Seq<char>,
    bob_invoice: Seq<char>,
    held_timeout_secs: u64,
    events: Seq<LegEvent<Seq<char>, Seq<Seq<char>>>>,
)
    ensures
        led(
            Legs::<Seq<char>, Seq<Seq<char>>>::begun(
                secret,
                payment_hash,
                alice_invoice,
                bob_invoice,
                held_timeout_secs,
            ),
            events,
        ).safe(),
    decreases events.len(),
{
    if events.len() > 0 {
        begun_legs_stay_safe(
            secret,
            payment_hash,
            alice_invoice,
            bob_invoice,
            held_timeout_secs,
            events.drop_last(),
        );
    }
}

/// Each leg is paid and settled from the two ends of one channel: the Core leg is
/// Alice's invoice, paid by Bob's Core node, looked up and settled at Alice's Core
/// node; the Knots leg is Bob's invoice, paid by Alice's Knots node, looked up and
/// settled at Bob's Knots node. Both are looked up by the one hash.
pub proof fn each_leg_stays_on_its_chain(legs: Legs<Seq<char>, Seq<Seq<char>>>)
    ensures
        legs.core_asks() matches LegAsk::Pay { party, invoice } ==> party == Party::BobCore
            && invoice == legs.alice_invoice,
        legs.alice_asks() matches LegAsk::Pay { party, invoice } ==> party == Party::AliceKnots
            && invoice == legs.bob_invoice,
        legs.alice_asks() matches LegAsk::Settle { party, .. } ==> party == Party::AliceCore,
        legs.bob_asks() matches LegAsk::Settle { party, preimage } ==> party == Party::BobKnots
            && preimage == legs.secret,
        legs.bob_asks() matches LegAsk::Lookup { party, payment_hash } ==> payment_hash
            == legs.payment_hash && (if legs.bob is LookCore {
            party == Party::AliceCore
        } else {
            party == Party::BobKnots
        }),
        !(legs.core_asks() is Settle || legs.core_asks() is Lookup),
        !(legs.alice_asks() is Lookup),
        !(legs.bob_asks() is Pay),
{
}

/// What Bob does when he looks: both legs found take him through a pause of a few
/// seconds to settling, and what settling gives is how his lane ends. One that is
/// not found makes him look again, at the Core leg first, until his time is up.
pub proof fn bob_settles_when_both_legs_are_found(
    legs: Legs<Seq<char>, Seq<Seq<char>>>,
    nanos: u128,
    settled: Result<(), Seq<Seq<char>>>,
)
    requires
        legs.bob is LookCore,
    ensures
        ({
            let found = legs.after(LegEvent::Looked(true)).after(LegEvent::Looked(true));
            let settling = found.after(LegEvent::Slept);
            &&& found.bob_asks() matches LegAsk::SleepSecs(n) && n == 3
            &&& settling.bob_asks() is Settle
            &&& settling.after(LegEvent::BobSettled(settled)).bob == BobLane::Done(settled)
        }),
        ({
            let in_time = nanos < legs.held_timeout_secs * 1_000_000_000;
            let first = legs.after(LegEvent::Looked(false));
            let second = legs.after(LegEvent::Looked(true)).after(LegEvent::Looked(false));
            &&& first.bob_asks() is Elapsed && second.bob_asks() is Elapsed
            &&& in_time ==> first.after(LegEvent::Elapsed(nanos)).bob_asks()
                == LegAsk::<Seq<char>>::SleepSecs(2) && first.after(
                LegEvent::Elapsed(nanos),
            ).after(LegEvent::Slept).bob is LookCore && second.after(
                LegEvent::Elapsed(nanos),
            ).after(LegEvent::Slept).bob is LookCore
            &&& !in_time ==> first.after(LegEvent::Elapsed(nanos)).bob is Done && !first.after(
                LegEvent::Elapsed(nanos),
            ).bob.settled() && second.after(LegEvent::Elapsed(nanos)).bob is Done
                && !second.after(LegEvent::Elapsed(nanos)).bob.settled()
        }),
{
}

/// What the payments do: Bob's ends his lane with what it gave. Alice's leads her
/// to settle exactly where it gave the secret, and her lane ends well exactly
/// where she then settled.
pub proof fn alice_settles_when_she_was_paid_with_the_secret(
    legs: Legs<Seq<char>, Seq<Seq<char>>>,
    paid: Result<Seq<char>, Seq<Seq<char>>>,
    settled: Result<(), Seq<Seq<char>>>,
)
    ensures
        legs.core is Paying ==> legs.after(LegEvent::CorePaid(paid)).core == CoreLane::Done(paid),
        legs.alice is Paying ==> {
            let next = legs.after(LegEvent::AlicePaid(paid));
            let ended = next.after(LegEvent::AliceSettled(settled));
            &&& next.alice_asks() is Settle <==> paid == Ok::<Seq<char>, Seq<Seq<char>>>(
                legs.secret,
            )
            &&& ended.alice is Done
            &&& ended.alice == AliceLane::Done(Ok::<Seq<char>, Seq<Seq<char>>>(legs.secret))
                <==> paid == Ok::<Seq<char>, Seq<Seq<char>>>(legs.secret) && settled is Ok
        },
{
}

/// Legs that have ended come out well exactly where Bob settled, Alice settled
/// with what she observed, and Bob's payment gave that same preimage.
pub proof fn legs_come_out_well_when_all_lanes_do(
    legs: Legs<Seq<char>, Seq<Seq<char>>>,
    mismatch: Seq<char>,
    preimage: Seq<char>,
)
    requires
        legs.ended(),
    ensures
        legs.verdict(mismatch) == Ok::<Seq<char>, Seq<Seq<char>>>(preimage) <==> {
            &&& legs.bob.settled()
            &&& legs.alice == AliceLane::Done(Ok::<Seq<char>, Seq<Seq<char>>>(preimage))
            &&& legs.core == CoreLane::Done(Ok::<Seq<char>, Seq<Seq<char>>>(preimage))
        },
{
}

} // verus!
