//! Where what a run knows came from.
//!
//! A run knows what its answers told it. The laws here say of every run that
//! passed what was asked for when each of those answers came: which node was
//! asked for a balance or an invoice, which chain for a height, an address or a
//! header. So what a run that passed is evidence of is read where it should be.

use vstd::prelude::*;
use crate::codec::{hex_text, sha256_digest};
use crate::control::{channels_view, funding_of};
use crate::dln_node_client::SignerMode;
use crate::exchange::{leg_mismatch, look, looks, prelude, program, swap, Chain, Facts, HeaderFact, Kind, Step};
use crate::guarantees::{
    a_passed_run_left_no_step_out, a_passed_run_saw_its_channels_ready, a_passed_swap_settled,
    all_honest, completed, played, run_before, runs_are_well_formed, saw_ready, was_completed,
    was_seen_ready,
};
use crate::legs::{legs_come_out_well_when_all_lanes_do, AliceLane, CoreLane, Party};
use crate::run::{local_address, run_asks, Answer, Ask, Run, Stage};
use crate::text::option_view;

verus! {

/// The run before it took the answer at `i`.
#[verifier::opaque]
pub open spec fn run_at(kind: Kind, answers: Seq<Answer>, i: int) -> Run<
    Seq<char>,
    Seq<Seq<char>>,
    Seq<HeaderFact>,
> {
    run_before(kind, answers, i)
}

/// What a run knows after these answers.
#[verifier::opaque]
pub open spec fn known(kind: Kind, answers: Seq<Answer>) -> Facts<Seq<char>, Seq<HeaderFact>> {
    played(kind, answers).facts
}

/// Whether a run passes with these answers.
#[verifier::opaque]
pub open spec fn passes(kind: Kind, answers: Seq<Answer>) -> bool {
    played(kind, answers).passed()
}

/// Whether `ask` is what a run asks for when it gets the answer at `i`.
pub open spec fn asked(kind: Kind, answers: Seq<Answer>, i: int, ask: Ask) -> bool {
    &&& 0 <= i < answers.len()
    &&& run_asks(run_at(kind, answers, i), ask)
}

// ---------------------------------------------------------------------------
// What is known, and since when
// ---------------------------------------------------------------------------

/// Something that a run finds out in one step.
enum Item {
    KnotsBinary,
    Port(Chain),
    Address(Chain),
    KnotsBefore,
    CoreHeight,
    KnotsAfter,
    Relay,
    Node(Party),
    FundingTx,
    FundingHeight,
    Secret,
    AliceBefore,
    BobBefore,
    AliceInvoice,
    BobInvoice,
    Preimage,
    BalancesSeen,
    AliceAfter,
    BobAfter,
}

/// Whether a step finds something out.
spec fn sets(step: Step, item: Item) -> bool {
    match item {
        Item::KnotsBinary => step is BuildKnots,
        Item::Port(Chain::Core) => step is StartCore || step is AttachCore,
        Item::Port(Chain::Knots) => step is StartKnots || step is AttachKnots,
        Item::Address(Chain::Core) => step is CoreAddress,
        Item::Address(Chain::Knots) => step is KnotsAddress,
        Item::KnotsBefore => step is KnotsBefore || step is KnotsTip,
        Item::CoreHeight => step is CoreHeight || step is CoreTip,
        Item::KnotsAfter => step is KnotsAfter,
        Item::Relay => step is StartRelay,
        Item::Node(party) => step == Step::StartNode(party),
        Item::FundingTx => step is FundingTx,
        Item::FundingHeight => step is FundingHeight,
        Item::Secret => step is MakeSecret,
        Item::AliceBefore => step is AliceBefore,
        Item::BobBefore => step is BobBefore,
        Item::AliceInvoice => step is AliceInvoice,
        Item::BobInvoice => step is BobInvoice,
        Item::Preimage => step is RunLegs,
        Item::BalancesSeen => step is AwaitBalances,
        Item::AliceAfter => step is AliceAfter,
        Item::BobAfter => step is BobAfter,
    }
}

/// Whether the same is known of something.
spec fn same(
    item: Item,
    f: Facts<Seq<char>, Seq<HeaderFact>>,
    g: Facts<Seq<char>, Seq<HeaderFact>>,
) -> bool {
    match item {
        Item::KnotsBinary => f.knots_binary == g.knots_binary,
        Item::Port(Chain::Core) => f.core_port == g.core_port && f.core_ours == g.core_ours,
        Item::Port(Chain::Knots) => f.knots_port == g.knots_port && f.knots_ours == g.knots_ours,
        Item::Address(chain) => f.address(chain) == g.address(chain),
        Item::KnotsBefore => f.knots_before == g.knots_before,
        Item::CoreHeight => f.core_height == g.core_height,
        Item::KnotsAfter => f.knots_after == g.knots_after,
        Item::Relay => f.relay_url == g.relay_url,
        Item::Node(party) => f.peer(party) == g.peer(party),
        Item::FundingTx => f.funding_txid == g.funding_txid,
        Item::FundingHeight => f.funding_height == g.funding_height,
        Item::Secret => f.secret == g.secret && f.payment_hash == g.payment_hash,
        Item::AliceBefore => f.alice_before == g.alice_before,
        Item::BobBefore => f.bob_before == g.bob_before,
        Item::AliceInvoice => f.alice_invoice == g.alice_invoice,
        Item::BobInvoice => f.bob_invoice == g.bob_invoice,
        Item::Preimage => f.preimage == g.preimage,
        Item::BalancesSeen => f.alice_seen == g.alice_seen && f.bob_seen == g.bob_seen,
        Item::AliceAfter => f.alice_after == g.alice_after,
        Item::BobAfter => f.bob_after == g.bob_after,
    }
}

/// What a step that is about a chain may change, and no more.
spec fn chain_facts_kept(
    s: Step,
    f: Facts<Seq<char>, Seq<HeaderFact>>,
    g: Facts<Seq<char>, Seq<HeaderFact>>,
) -> bool {
    &&& !(s is BuildKnots) ==> f.knots_binary == g.knots_binary
    &&& !(s is StartCore || s is AttachCore) ==> f.core_port == g.core_port && f.core_ours
        == g.core_ours
    &&& !(s is StartKnots || s is AttachKnots) ==> f.knots_port == g.knots_port && f.knots_ours
        == g.knots_ours
    &&& !(s is CoreAddress) ==> f.core_addr == g.core_addr
    &&& !(s is KnotsAddress) ==> f.knots_addr == g.knots_addr
    &&& !(s is KnotsBefore || s is KnotsTip) ==> f.knots_before == g.knots_before
    &&& !(s is CoreHeight || s is CoreTip) ==> f.core_height == g.core_height
    &&& !(s is KnotsAfter) ==> f.knots_after == g.knots_after
}

/// What a step that is about a node may change, and no more.
spec fn node_facts_kept(
    s: Step,
    f: Facts<Seq<char>, Seq<HeaderFact>>,
    g: Facts<Seq<char>, Seq<HeaderFact>>,
) -> bool {
    &&& !(s is StartRelay) ==> f.relay_url == g.relay_url
    &&& s != Step::StartNode(Party::AliceCore) ==> f.alice_core == g.alice_core
    &&& s != Step::StartNode(Party::BobCore) ==> f.bob_core == g.bob_core
    &&& s != Step::StartNode(Party::AliceKnots) ==> f.alice_knots == g.alice_knots
    &&& s != Step::StartNode(Party::BobKnots) ==> f.bob_knots == g.bob_knots
    &&& !(s is FundingTx) ==> f.funding_txid == g.funding_txid
    &&& !(s is FundingHeight) ==> f.funding_height == g.funding_height
}

/// What a step of the swap may change, and no more.
spec fn swap_facts_kept(
    s: Step,
    f: Facts<Seq<char>, Seq<HeaderFact>>,
    g: Facts<Seq<char>, Seq<HeaderFact>>,
) -> bool {
    &&& !(s is MakeSecret) ==> f.secret == g.secret && f.payment_hash == g.payment_hash
    &&& !(s is AliceBefore) ==> f.alice_before == g.alice_before
    &&& !(s is BobBefore) ==> f.bob_before == g.bob_before
    &&& !(s is AliceInvoice) ==> f.alice_invoice == g.alice_invoice
    &&& !(s is BobInvoice) ==> f.bob_invoice == g.bob_invoice
    &&& !(s is RunLegs) ==> f.preimage == g.preimage
    &&& !(s is AwaitBalances) ==> f.alice_seen == g.alice_seen && f.bob_seen == g.bob_seen
    &&& !(s is AliceAfter) ==> f.alice_after == g.alice_after
    &&& !(s is BobAfter) ==> f.bob_after == g.bob_after
}

proof fn an_answer_keeps_chain_facts(
    run: Run<Seq<char>, Seq<Seq<char>>, Seq<HeaderFact>>,
    answer: Answer,
)
    ensures
        chain_facts_kept(run.current(), run.facts, run.after(answer).facts),
{
}

proof fn an_answer_keeps_node_facts(
    run: Run<Seq<char>, Seq<Seq<char>>, Seq<HeaderFact>>,
    answer: Answer,
)
    ensures
        node_facts_kept(run.current(), run.facts, run.after(answer).facts),
{
}

proof fn an_answer_keeps_swap_facts(
    run: Run<Seq<char>, Seq<Seq<char>>, Seq<HeaderFact>>,
    answer: Answer,
)
    requires
        run.wf(),
    ensures
        swap_facts_kept(run.current(), run.facts, run.after(answer).facts),
{
}

proof fn kept_facts(
    s: Step,
    item: Item,
    f: Facts<Seq<char>, Seq<HeaderFact>>,
    g: Facts<Seq<char>, Seq<HeaderFact>>,
)
    requires
        !sets(s, item),
        chain_facts_kept(s, f, g),
        node_facts_kept(s, f, g),
        swap_facts_kept(s, f, g),
    ensures
        same(item, f, g),
{
}

/// An answer changes nothing but what the step that is taken finds out.
proof fn others_are_kept(
    run: Run<Seq<char>, Seq<Seq<char>>, Seq<HeaderFact>>,
    answer: Answer,
    item: Item,
)
    requires
        run.wf(),
        run.stage is Ended || !sets(run.current(), item),
    ensures
        same(item, run.facts, run.after(answer).facts),
{
    if !(run.stage is Ended) {
        an_answer_keeps_chain_facts(run, answer);
        an_answer_keeps_node_facts(run, answer);
        an_answer_keeps_swap_facts(run, answer);
        kept_facts(run.current(), item, run.facts, run.after(answer).facts);
    }
}

/// How many steps a run of a scenario has before the swap.
spec fn opening_steps(kind: Kind) -> int {
    if kind == Kind::LightningSwap {
        15
    } else {
        24
    }
}

spec fn launch_step(kind: Kind, chain: Chain) -> int {
    (if kind == Kind::TwoChains || kind == Kind::LightningSwap {
        1int
    } else {
        2int
    }) + (if chain == Chain::Core {
        0int
    } else {
        1int
    })
}

spec fn address_step(kind: Kind, chain: Chain) -> int {
    (match kind {
        Kind::TwoChains | Kind::LightningSwap => 3int,
        Kind::SwapOnBtk => 4int,
        Kind::SwapOnSignets => 12int,
    }) + (if chain == Chain::Core {
        0int
    } else {
        1int
    })
}

spec fn relay_step(kind: Kind) -> int {
    match kind {
        Kind::TwoChains => 13,
        Kind::LightningSwap => 7,
        Kind::SwapOnBtk => 12,
        Kind::SwapOnSignets => 11,
    }
}

spec fn node_step(kind: Kind, party: Party) -> int {
    (match kind {
        Kind::TwoChains => 14int,
        Kind::LightningSwap => 8int,
        Kind::SwapOnBtk => 13int,
        Kind::SwapOnSignets => 14int,
    }) + (match party {
        Party::AliceCore => 0int,
        Party::BobCore => 1int,
        Party::AliceKnots => 2int,
        Party::BobKnots => 3int,
    })
}

spec fn open_step(kind: Kind, chain: Chain) -> int {
    (match kind {
        Kind::TwoChains => 19int,
        Kind::LightningSwap => 12int,
        Kind::SwapOnBtk => 17int,
        Kind::SwapOnSignets => 18int,
    }) + (if chain == Chain::Core {
        0int
    } else {
        1int
    })
}

proof fn where_the_steps_are(kind: Kind)
    ensures
        program(kind).len() == opening_steps(kind) + (if kind == Kind::TwoChains {
            0int
        } else {
            10int
        }),
        program(kind)[0] is BuildKnots,
        kind != Kind::SwapOnSignets ==> program(kind)[launch_step(kind, Chain::Core)] is StartCore
            && program(kind)[launch_step(kind, Chain::Knots)] is StartKnots,
        kind == Kind::SwapOnSignets ==> program(kind)[launch_step(kind, Chain::Core)] is AttachCore
            && program(kind)[launch_step(kind, Chain::Knots)] is AttachKnots,
        program(kind)[address_step(kind, Chain::Core)] is CoreAddress,
        program(kind)[address_step(kind, Chain::Knots)] is KnotsAddress,
        program(kind)[relay_step(kind)] is StartRelay,
        forall|party: Party|
            program(kind)[#[trigger] node_step(kind, party)] == Step::StartNode(party),
        program(kind)[open_step(kind, Chain::Core)] is OpenCore,
        program(kind)[open_step(kind, Chain::Knots)] is OpenKnots,
        program(kind)[open_step(kind, Chain::Knots) + 1] is AwaitChannels,
        kind != Kind::TwoChains ==> {
            let n = opening_steps(kind);
            &&& program(kind)[n] is MakeSecret
            &&& program(kind)[n + 1] is AliceBefore
            &&& program(kind)[n + 2] is BobBefore
            &&& program(kind)[n + 3] is AliceInvoice
            &&& program(kind)[n + 4] is BobInvoice
            &&& program(kind)[n + 5] is CheckInvoices
            &&& program(kind)[n + 6] is RunLegs
            &&& program(kind)[n + 7] is AwaitBalances
            &&& program(kind)[n + 8] is AliceAfter
            &&& program(kind)[n + 9] is BobAfter
        },
{
    reveal(prelude);
    reveal(swap);
}

/// Nothing is found out twice.
#[verifier::spinoff_prover]
proof fn set_once(kind: Kind, item: Item, k: int, m: int)
    requires
        0 <= k < m < program(kind).len(),
        sets(program(kind)[k], item),
    ensures
        !sets(program(kind)[m], item),
{
    reveal(prelude);
    reveal(swap);
}

proof fn one_more(kind: Kind, answers: Seq<Answer>, i: int)
    requires
        0 <= i < answers.len(),
    ensures
        run_at(kind, answers, i + 1) == run_at(kind, answers, i).after(answers[i]),
        run_at(kind, answers, i).wf(),
        run_at(kind, answers, i).kind == kind,
        run_at(kind, answers, i).done <= run_at(kind, answers, i + 1).done,
{
    reveal(run_at);
    assert(answers.take(i + 1).drop_last() =~= answers.take(i));
    assert(answers.take(i + 1).last() == answers[i]);
    runs_are_well_formed(kind, answers.take(i));
    a_step_only_adds(run_at(kind, answers, i), answers[i]);
}

proof fn a_step_only_adds(
    run: Run<Seq<char>, Seq<Seq<char>>, Seq<HeaderFact>>,
    answer: Answer,
)
    requires
        run.wf(),
    ensures
        run.done <= run.after(answer).done,
{
    reveal(prelude);
    reveal(swap);
}

proof fn kept_at(kind: Kind, answers: Seq<Answer>, i: int, k: int, item: Item)
    requires
        0 <= i < answers.len(),
        0 <= k < run_at(kind, answers, i).done,
        k < program(kind).len(),
        sets(program(kind)[k], item),
    ensures
        run_at(kind, answers, i).done <= run_at(kind, answers, i + 1).done,
        same(item, run_at(kind, answers, i).facts, run_at(kind, answers, i + 1).facts),
{
    one_more(kind, answers, i);
    let run = run_at(kind, answers, i);
    if !(run.stage is Ended) {
        set_once(kind, item, k, run.done as int);
    }
    others_are_kept(run, answers[i], item);
}

proof fn kept_between(kind: Kind, answers: Seq<Answer>, i: int, j: int, k: int, item: Item)
    requires
        0 <= i <= j <= answers.len(),
        0 <= k < run_at(kind, answers, i).done,
        k < program(kind).len(),
        sets(program(kind)[k], item),
    ensures
        run_at(kind, answers, j).done > k,
        same(item, run_at(kind, answers, i).facts, run_at(kind, answers, j).facts),
    decreases j - i,
{
    if i < j {
        kept_between(kind, answers, i, j - 1, k, item);
        kept_at(kind, answers, j - 1, k, item);
    }
}

/// What was found out in a step that is done is still known in the end.
proof fn still_known(kind: Kind, answers: Seq<Answer>, i: int, k: int, item: Item)
    requires
        0 <= i <= answers.len(),
        0 <= k < run_at(kind, answers, i).done,
        k < program(kind).len(),
        sets(program(kind)[k], item),
    ensures
        same(item, run_at(kind, answers, i).facts, known(kind, answers)),
{
    kept_between(kind, answers, i, answers.len() as int, k, item);
    all_answers(kind, answers);
}

proof fn all_answers(kind: Kind, answers: Seq<Answer>)
    ensures
        run_at(kind, answers, answers.len() as int).facts == known(kind, answers),
{
    reveal(run_at);
    reveal(known);
    assert(answers.take(answers.len() as int) =~= answers);
}

/// What the answer that completes a step is, where `g` was known before it and
/// `f` is known since.
spec fn told(
    step: Step,
    g: Facts<Seq<char>, Seq<HeaderFact>>,
    answer: Answer,
    f: Facts<Seq<char>, Seq<HeaderFact>>,
) -> bool {
    match step {
        Step::BuildKnots => answer matches Answer::Found(Ok(path)) && path@ == f.knots_binary,
        Step::StartCore | Step::AttachCore => answer == (Answer::Chain {
            port: f.core_port,
            ours: f.core_ours,
        }),
        Step::StartKnots | Step::AttachKnots => answer == (Answer::Chain {
            port: f.knots_port,
            ours: f.knots_ours,
        }),
        Step::CoreAddress => answer matches Answer::Text(s) && s@ == f.core_addr,
        Step::KnotsAddress => answer matches Answer::Text(s) && s@ == f.knots_addr,
        Step::MineCore(_) | Step::MineKnots(_) => answer is Done,
        Step::KnotsBefore | Step::KnotsTip => answer == Answer::Height(Ok(f.knots_before)),
        Step::CoreHeight | Step::CoreTip => answer == Answer::Height(Ok(f.core_height)),
        Step::KnotsAfter => answer == Answer::Height(Ok(f.knots_after)),
        Step::StartRelay => answer matches Answer::Text(s) && s@ == f.relay_url,
        Step::StartNode(party) => answer matches Answer::Node(Ok(peer)) && peer@ == f.peer(party),
        Step::OpenCore | Step::OpenKnots => answer matches Answer::Tried(Ok(_)),
        Step::CoreSeesKnots | Step::KnotsSeesCore => answer == Answer::Flag(false),
        Step::FundingTx => answer matches Answer::Channels(r) && channels_view(r) matches Ok(
            channels,
        ) && funding_of(channels, g.bob_knots.id, 0) == Ok::<Seq<char>, Seq<char>>(f.funding_txid),
        Step::FundingHeight => answer == Answer::Height(Ok(f.funding_height)),
        Step::MakeSecret => answer matches Answer::Bytes(b) && f.secret == hex_text(b@)
            && f.payment_hash == hex_text(sha256_digest(b@)),
        Step::AliceBefore => answer == Answer::Amount(Ok(f.alice_before)),
        Step::BobBefore => answer == Answer::Amount(Ok(f.bob_before)),
        Step::AliceInvoice => answer matches Answer::Found(Ok(s)) && s@ == f.alice_invoice,
        Step::BobInvoice => answer matches Answer::Found(Ok(s)) && s@ == f.bob_invoice,
        Step::RunLegs => answer matches Answer::Legs(legs) && legs@.ended() && legs@.bob.settled()
            && legs@.secret == g.secret && legs@.payment_hash == g.payment_hash
            && legs@.alice_invoice == g.alice_invoice && legs@.bob_invoice == g.bob_invoice
            && legs@.alice == AliceLane::Done(Ok::<Seq<char>, Seq<Seq<char>>>(f.preimage))
            && legs@.core == CoreLane::Done(Ok::<Seq<char>, Seq<Seq<char>>>(f.preimage)),
        Step::AwaitBalances => answer == Answer::Amount(Ok(f.bob_seen)),
        Step::AliceAfter => answer == Answer::Amount(Ok(f.alice_after)),
        Step::BobAfter => answer == Answer::Amount(Ok(f.bob_after)),
        _ => true,
    }
}

#[verifier::spinoff_prover]
proof fn a_completed_step(run: Run<Seq<char>, Seq<Seq<char>>, Seq<HeaderFact>>, answer: Answer)
    requires
        run.wf(),
        run.after(answer).done != run.done,
    ensures
        !(run.stage is Ended),
        !(run.current() is AwaitChannels || run.current() is AwaitBalances) ==> run.stage is Begin,
        run.current() is AwaitBalances ==> run.stage is LookBob,
        told(run.current(), run.facts, answer, run.after(answer).facts),
{
    if let Answer::Legs(legs) = answer {
        if legs@.ended() {
            let mismatch = leg_mismatch(run.kind);
            if let Ok(preimage) = legs@.verdict(mismatch) {
                legs_come_out_well_when_all_lanes_do(legs@, mismatch, preimage);
            }
        }
    }
}

proof fn told_since(
    step: Step,
    g: Facts<Seq<char>, Seq<HeaderFact>>,
    answer: Answer,
    f: Facts<Seq<char>, Seq<HeaderFact>>,
    since: Facts<Seq<char>, Seq<HeaderFact>>,
)
    requires
        told(step, g, answer, f),
        forall|item: Item| #[trigger] sets(step, item) ==> same(item, f, since),
    ensures
        told(step, g, answer, since),
{
    assert(sets(step, Item::KnotsBinary) ==> same(Item::KnotsBinary, f, since));
    assert(sets(step, Item::Port(Chain::Core)) ==> same(Item::Port(Chain::Core), f, since));
    assert(sets(step, Item::Port(Chain::Knots)) ==> same(Item::Port(Chain::Knots), f, since));
    assert(sets(step, Item::Address(Chain::Core)) ==> same(Item::Address(Chain::Core), f, since));
    assert(sets(step, Item::Address(Chain::Knots)) ==> same(Item::Address(Chain::Knots), f, since));
    assert(sets(step, Item::KnotsBefore) ==> same(Item::KnotsBefore, f, since));
    assert(sets(step, Item::CoreHeight) ==> same(Item::CoreHeight, f, since));
    assert(sets(step, Item::KnotsAfter) ==> same(Item::KnotsAfter, f, since));
    assert(sets(step, Item::Relay) ==> same(Item::Relay, f, since));
    if let Step::StartNode(party) = step {
        assert(sets(step, Item::Node(party)));
    }
    assert(sets(step, Item::FundingTx) ==> same(Item::FundingTx, f, since));
    assert(sets(step, Item::FundingHeight) ==> same(Item::FundingHeight, f, since));
    assert(sets(step, Item::Secret) ==> same(Item::Secret, f, since));
    assert(sets(step, Item::AliceBefore) ==> same(Item::AliceBefore, f, since));
    assert(sets(step, Item::BobBefore) ==> same(Item::BobBefore, f, since));
    assert(sets(step, Item::AliceInvoice) ==> same(Item::AliceInvoice, f, since));
    assert(sets(step, Item::BobInvoice) ==> same(Item::BobInvoice, f, since));
    assert(sets(step, Item::Preimage) ==> same(Item::Preimage, f, since));
    assert(sets(step, Item::BalancesSeen) ==> same(Item::BalancesSeen, f, since));
    assert(sets(step, Item::AliceAfter) ==> same(Item::AliceAfter, f, since));
    assert(sets(step, Item::BobAfter) ==> same(Item::BobAfter, f, since));
}

/// Where a step was completed in a run that passed.
proof fn completion(kind: Kind, answers: Seq<Answer>, k: int) -> (i: int)
    requires
        passes(kind, answers),
        0 <= k < program(kind).len(),
    ensures
        0 <= i < answers.len(),
        run_at(kind, answers, i).kind == kind,
        run_at(kind, answers, i).done == k,
        run_at(kind, answers, i).current() == program(kind)[k],
        !(program(kind)[k] is AwaitChannels || program(kind)[k] is AwaitBalances) ==> run_at(
            kind,
            answers,
            i,
        ).stage is Begin,
        program(kind)[k] is AwaitBalances ==> run_at(kind, answers, i).stage is LookBob,
        told(
            program(kind)[k],
            run_at(kind, answers, i).facts,
            answers[i],
            known(kind, answers),
        ),
{
    let i = a_completion(kind, answers, k);
    one_more(kind, answers, i);
    let run = run_at(kind, answers, i);
    a_completed_step(run, answers[i]);
    assert forall|item: Item| #[trigger] sets(program(kind)[k], item) implies same(
        item,
        run.after(answers[i]).facts,
        known(kind, answers),
    ) by {
        still_known(kind, answers, i + 1, k, item);
    }
    told_since(
        program(kind)[k],
        run.facts,
        answers[i],
        run.after(answers[i]).facts,
        known(kind, answers),
    );
    i
}

proof fn a_completion(kind: Kind, answers: Seq<Answer>, k: int) -> (i: int)
    requires
        passes(kind, answers),
        0 <= k < program(kind).len(),
    ensures
        0 <= i < answers.len(),
        run_at(kind, answers, i).done == k,
        run_at(kind, answers, i + 1).done == k + 1,
{
    reveal(passes);
    reveal(run_at);
    a_passed_run_left_no_step_out(kind, answers, k);
    assert(was_completed(kind, answers, k));
    let i = choose|i: int| completed(kind, answers, i, k);
    one_more(kind, answers, i);
    i
}

// ---------------------------------------------------------------------------
// Chains
// ---------------------------------------------------------------------------

/// Whether a chain was asked for an address and gave this one.
pub open spec fn address_given(
    kind: Kind,
    answers: Seq<Answer>,
    i: int,
    chain: Chain,
    address: Seq<char>,
) -> bool {
    &&& 0 <= i < answers.len()
    &&& answers[i] matches Answer::Text(s) && s@ == address
    &&& forall|ask: Ask| #[trigger]
        asked(kind, answers, i, ask) <==> ask == Ask::NewAddress(chain)
}

/// Whether this many blocks of a chain were mined to an address.
pub open spec fn mined(
    kind: Kind,
    answers: Seq<Answer>,
    i: int,
    chain: Chain,
    blocks: u64,
    address: Seq<char>,
) -> bool {
    &&& 0 <= i < answers.len()
    &&& answers[i] is Done
    &&& forall|ask: Ask| #[trigger]
        asked(kind, answers, i, ask) ==> (ask matches Ask::Mine { chain: c, blocks: n, address: a }
            && c == chain && n == blocks && a@ == address)
}

/// The address that is mined to is one that the chain itself gave.
pub proof fn a_passed_run_mines_to_its_own_addresses(
    kind: Kind,
    answers: Seq<Answer>,
    chain: Chain,
)
    requires
        passes(kind, answers),
    ensures
        exists|i: int| #[trigger]
            address_given(kind, answers, i, chain, known(kind, answers).address(chain)),
{
    where_the_steps_are(kind);
    let k = address_step(kind, chain);
    let i = completion(kind, answers, k);
    assert(address_given(kind, answers, i, chain, known(kind, answers).address(chain)));
}

/// Where a run mines at all, it mines more than coins need to mature on both
/// chains, each to the address that this chain gave.
pub proof fn a_passed_run_matured_its_coins(kind: Kind, answers: Seq<Answer>, chain: Chain)
    requires
        passes(kind, answers),
        kind != Kind::SwapOnSignets,
    ensures
        exists|i: int, blocks: u64|
            blocks >= 110 && #[trigger] mined(
                kind,
                answers,
                i,
                chain,
                blocks,
                known(kind, answers).address(chain),
            ),
{
    where_the_steps_are(kind);
    where_coins_are_mined(kind);
    let k = address_step(kind, Chain::Knots) + (if chain == Chain::Core {
        1int
    } else {
        2int
    });
    let i = completion(kind, answers, k);
    still_known(kind, answers, i, address_step(kind, chain), Item::Address(chain));
    let blocks: u64 = if chain == Chain::Knots && kind == Kind::SwapOnBtk {
        130
    } else {
        110
    };
    assert(mined(kind, answers, i, chain, blocks, known(kind, answers).address(chain)));
}

proof fn where_coins_are_mined(kind: Kind)
    requires
        kind != Kind::SwapOnSignets,
    ensures
        program(kind)[address_step(kind, Chain::Knots) + 1] == Step::MineCore(110),
        program(kind)[address_step(kind, Chain::Knots) + 2] == Step::MineKnots(
            if kind == Kind::SwapOnBtk {
                130
            } else {
                110
            },
        ),
{
    reveal(prelude);
    reveal(swap);
}

/// Whether a chain was asked for its height and gave this one.
pub open spec fn height_given(
    kind: Kind,
    answers: Seq<Answer>,
    i: int,
    chain: Chain,
    height: u64,
) -> bool {
    &&& 0 <= i < answers.len()
    &&& answers[i] == Answer::Height(Ok(height))
    &&& forall|ask: Ask| #[trigger]
        asked(kind, answers, i, ask) ==> (ask matches Ask::Height { chain: c, .. } && c == chain)
}

proof fn a_core_height_was_given(kind: Kind, answers: Seq<Answer>, k: int)
    requires
        passes(kind, answers),
        0 <= k < program(kind).len(),
        program(kind)[k] is CoreHeight || program(kind)[k] is CoreTip,
    ensures
        exists|i: int| #[trigger]
            height_given(
                kind,
                answers,
                i,
                Chain::Core,
                known(kind, answers).core_height,
            ),
{
    let i = completion(kind, answers, k);
    assert(height_given(kind, answers, i, Chain::Core, known(kind, answers).core_height));
}

proof fn a_knots_height_was_given(kind: Kind, answers: Seq<Answer>, k: int)
    requires
        passes(kind, answers),
        0 <= k < program(kind).len(),
        program(kind)[k] is KnotsBefore || program(kind)[k] is KnotsTip || program(kind)[k]
            is KnotsAfter,
    ensures
        ({
            let f = known(kind, answers);
            if program(kind)[k] is KnotsAfter {
                exists|i: int| #[trigger]
                    height_given(kind, answers, i, Chain::Knots, f.knots_after)
            } else {
                exists|i: int| #[trigger]
                    height_given(kind, answers, i, Chain::Knots, f.knots_before)
            }
        }),
{
    let i = completion(kind, answers, k);
    let f = known(kind, answers);
    if program(kind)[k] is KnotsAfter {
        assert(height_given(kind, answers, i, Chain::Knots, f.knots_after));
    } else {
        assert(height_given(kind, answers, i, Chain::Knots, f.knots_before));
    }
}

proof fn where_heights_are_read()
    ensures
        program(Kind::TwoChains).len() == 24,
        program(Kind::TwoChains)[8] is KnotsBefore,
        program(Kind::TwoChains)[10] is CoreHeight,
        program(Kind::TwoChains)[11] is KnotsAfter,
        program(Kind::SwapOnSignets).len() == 34,
        program(Kind::SwapOnSignets)[5] is CoreTip,
        program(Kind::SwapOnSignets)[6] is KnotsTip,
{
    reveal(prelude);
    reveal(swap);
}

/// The heights that `TwoChains` and `SwapOnSignets` judge by were given by the
/// chains that they are called after.
pub proof fn a_passed_run_read_each_height_on_its_chain(kind: Kind, answers: Seq<Answer>)
    requires
        passes(kind, answers),
        kind == Kind::TwoChains || kind == Kind::SwapOnSignets,
    ensures
        ({
            let f = known(kind, answers);
            &&& exists|i: int| #[trigger]
                height_given(kind, answers, i, Chain::Core, f.core_height)
            &&& exists|i: int| #[trigger]
                height_given(kind, answers, i, Chain::Knots, f.knots_before)
            &&& kind == Kind::TwoChains ==> exists|i: int| #[trigger]
                height_given(kind, answers, i, Chain::Knots, f.knots_after)
        }),
{
    where_heights_are_read();
    if kind == Kind::TwoChains {
        a_core_height_was_given(kind, answers, 10);
        a_knots_height_was_given(kind, answers, 8);
        a_knots_height_was_given(kind, answers, 11);
    } else {
        a_core_height_was_given(kind, answers, 5);
        a_knots_height_was_given(kind, answers, 6);
    }
}

/// Whether a chain was brought up or attached to, and is reached on this port.
pub open spec fn chain_reached(
    kind: Kind,
    answers: Seq<Answer>,
    i: int,
    chain: Chain,
    at: u16,
    own: bool,
) -> bool {
    &&& 0 <= i < answers.len()
    &&& answers[i] == (Answer::Chain { port: at, ours: own })
    &&& forall|ask: Ask| #[trigger]
        asked(kind, answers, i, ask) ==> match ask {
            Ask::Launch { chain: c, .. } => c == chain && kind != Kind::SwapOnSignets,
            Ask::Attach { chain: c, port, .. } => c == chain && kind == Kind::SwapOnSignets && port
                == (if chain == Chain::Core {
                48333u16
            } else {
                48332u16
            }),
            _ => false,
        }
}

/// Each chain is reached on the port that it was brought up on, and is ours
/// exactly where that was said of it.
pub proof fn a_passed_run_reached_each_chain(kind: Kind, answers: Seq<Answer>)
    requires
        passes(kind, answers),
    ensures
        ({
            let f = known(kind, answers);
            &&& exists|i: int| #[trigger]
                chain_reached(kind, answers, i, Chain::Core, f.core_port, f.core_ours)
            &&& exists|i: int| #[trigger]
                chain_reached(kind, answers, i, Chain::Knots, f.knots_port, f.knots_ours)
        }),
{
    where_the_steps_are(kind);
    let f = known(kind, answers);
    let a = completion(kind, answers, launch_step(kind, Chain::Core));
    assert(chain_reached(kind, answers, a, Chain::Core, f.core_port, f.core_ours));
    let b = completion(kind, answers, launch_step(kind, Chain::Knots));
    assert(chain_reached(kind, answers, b, Chain::Knots, f.knots_port, f.knots_ours));
}

// ---------------------------------------------------------------------------
// Nodes
// ---------------------------------------------------------------------------

/// Whether the node for the Knots chain was built, and lies at this path.
pub open spec fn binary_built(
    kind: Kind,
    answers: Seq<Answer>,
    i: int,
    binary: Seq<char>,
) -> bool {
    &&& 0 <= i < answers.len()
    &&& answers[i] matches Answer::Found(Ok(path)) && path@ == binary
    &&& forall|ask: Ask| #[trigger]
        asked(kind, answers, i, ask) ==> (ask matches Ask::BuildKnots { features } && option_view(
            features,
        ) == (if kind == Kind::SwapOnBtk || kind == Kind::SwapOnSignets {
            Some("blake2b"@)
        } else {
            None
        }))
}

/// Whether the relay was started, and is reached at this address.
pub open spec fn relay_started(
    kind: Kind,
    answers: Seq<Answer>,
    i: int,
    url: Seq<char>,
) -> bool {
    &&& 0 <= i < answers.len()
    &&& answers[i] matches Answer::Text(s) && s@ == url
    &&& forall|ask: Ask| #[trigger] asked(kind, answers, i, ask) <==> ask is StartRelay
}

/// Whether a node was started on a chain, with the binary and the miner's address
/// of that chain and on the one relay, and has this id and port.
pub open spec fn node_started(
    kind: Kind,
    answers: Seq<Answer>,
    i: int,
    who: Party,
    on: Chain,
) -> bool {
    let f = known(kind, answers);
    &&& 0 <= i < answers.len()
    &&& answers[i] matches Answer::Node(Ok(peer)) && peer@ == f.peer(who)
    &&& forall|ask: Ask| #[trigger]
        asked(kind, answers, i, ask) ==> (ask matches Ask::StartNode {
            party,
            name,
            signer,
            chain,
            binary,
            miner,
            relay_url,
        } && party == who && signer == SignerMode::Plain && chain == on && (if on == Chain::Knots {
            option_view(binary) == Some(f.knots_binary)
        } else {
            binary is None
        }) && miner@ == f.address(on) && relay_url@ == f.relay_url)
}

/// The four nodes of a run that passed are the ones that were started: two on
/// each chain, those of the Knots chain from the binary that was built for it,
/// each with the miner's address of its own chain and all on the one relay.
pub proof fn a_passed_run_started_its_nodes(kind: Kind, answers: Seq<Answer>)
    requires
        passes(kind, answers),
    ensures
        ({
            let f = known(kind, answers);
            &&& exists|i: int| #[trigger] binary_built(kind, answers, i, f.knots_binary)
            &&& exists|i: int| #[trigger] relay_started(kind, answers, i, f.relay_url)
            &&& exists|i: int| #[trigger]
                node_started(kind, answers, i, Party::AliceCore, Chain::Core)
            &&& exists|i: int| #[trigger]
                node_started(kind, answers, i, Party::BobCore, Chain::Core)
            &&& exists|i: int| #[trigger]
                node_started(kind, answers, i, Party::AliceKnots, Chain::Knots)
            &&& exists|i: int| #[trigger]
                node_started(kind, answers, i, Party::BobKnots, Chain::Knots)
        }),
{
    where_the_steps_are(kind);
    let f = known(kind, answers);
    let a = completion(kind, answers, 0);
    assert(binary_built(kind, answers, a, f.knots_binary));
    let b = completion(kind, answers, relay_step(kind));
    assert(relay_started(kind, answers, b, f.relay_url));
    a_node_was_started(kind, answers, Party::AliceCore, Chain::Core);
    a_node_was_started(kind, answers, Party::BobCore, Chain::Core);
    a_node_was_started(kind, answers, Party::AliceKnots, Chain::Knots);
    a_node_was_started(kind, answers, Party::BobKnots, Chain::Knots);
}

proof fn a_node_was_started(kind: Kind, answers: Seq<Answer>, who: Party, on: Chain)
    requires
        passes(kind, answers),
        on == (if who == Party::AliceCore || who == Party::BobCore {
            Chain::Core
        } else {
            Chain::Knots
        }),
    ensures
        exists|i: int| #[trigger] node_started(kind, answers, i, who, on),
{
    where_the_steps_are(kind);
    let k = node_step(kind, who);
    let i = completion(kind, answers, k);
    assert(program(kind)[k] == Step::StartNode(who));
    still_known(kind, answers, i, 0, Item::KnotsBinary);
    still_known(kind, answers, i, relay_step(kind), Item::Relay);
    still_known(kind, answers, i, address_step(kind, on), Item::Address(on));
    assert(node_started(kind, answers, i, who, on));
}

/// Whether a channel was opened from one node to another: to its id, at the port
/// it listens on, with two million sats of which half a million are pushed.
pub open spec fn channel_opened(
    kind: Kind,
    answers: Seq<Answer>,
    i: int,
    from: Party,
    to: Party,
) -> bool {
    let f = known(kind, answers);
    &&& 0 <= i < answers.len()
    &&& answers[i] matches Answer::Tried(Ok(_))
    &&& forall|ask: Ask| #[trigger]
        asked(kind, answers, i, ask) ==> (ask matches Ask::OpenChannel {
            party,
            peer,
            address,
            sats,
            push,
        } && party == from && peer@ == f.peer(to).id && address@ == local_address(f.peer(to).port)
            && sats == 2_000_000 && push == 500_000)
}

/// Whether one node was seen to have an active channel with another.
pub open spec fn channel_seen(
    kind: Kind,
    answers: Seq<Answer>,
    i: int,
    from: Party,
    to: Party,
) -> bool {
    &&& 0 <= i < answers.len()
    &&& answers[i] == Answer::Flag(true)
    &&& forall|ask: Ask| #[trigger]
        asked(kind, answers, i, ask) ==> (ask matches Ask::HasReady { party, peer } && party == from
            && peer@ == known(kind, answers).peer(to).id)
}

proof fn where_channels_are_awaited(kind: Kind, m: int)
    requires
        0 <= m < program(kind).len(),
        program(kind)[m] is AwaitChannels,
    ensures
        m == open_step(kind, Chain::Knots) + 1,
{
    reveal(prelude);
    reveal(swap);
}

proof fn a_channel_was_opened(kind: Kind, answers: Seq<Answer>, from: Party, to: Party, on: Chain)
    requires
        passes(kind, answers),
        from == Party::BobCore && to == Party::AliceCore && on == Chain::Core || from
            == Party::AliceKnots && to == Party::BobKnots && on == Chain::Knots,
    ensures
        exists|i: int| #[trigger] channel_opened(kind, answers, i, from, to),
{
    where_the_steps_are(kind);
    let i = completion(kind, answers, open_step(kind, on));
    assert(program(kind)[node_step(kind, to)] == Step::StartNode(to));
    still_known(kind, answers, i, node_step(kind, to), Item::Node(to));
    assert(channel_opened(kind, answers, i, from, to));
}

proof fn a_look(kind: Kind, answers: Seq<Answer>, n: int) -> (i: int)
    requires
        passes(kind, answers),
        0 <= n < looks(kind),
    ensures
        0 <= i < answers.len(),
        run_at(kind, answers, i).wf(),
        run_at(kind, answers, i).kind == kind,
        run_at(kind, answers, i).stage matches Stage::Look(at) && at == n,
        answers[i] == Answer::Flag(true),
{
    reveal(passes);
    reveal(run_at);
    a_passed_run_saw_its_channels_ready(kind, answers, n);
    assert(was_seen_ready(kind, answers, n));
    let i = choose|i: int| saw_ready(kind, answers, i, n);
    runs_are_well_formed(kind, answers.take(i));
    i
}

proof fn a_channel_was_seen(kind: Kind, answers: Seq<Answer>, n: u8)
    requires
        passes(kind, answers),
        n < looks(kind),
    ensures
        exists|i: int| #[trigger]
            channel_seen(kind, answers, i, look(kind, n).0, look(kind, n).1),
{
    let (from, to) = look(kind, n);
    let i = a_look(kind, answers, n as int);
    where_the_steps_are(kind);
    where_channels_are_awaited(kind, run_at(kind, answers, i).done as int);
    assert(program(kind)[node_step(kind, to)] == Step::StartNode(to));
    still_known(kind, answers, i, node_step(kind, to), Item::Node(to));
    assert(channel_seen(kind, answers, i, from, to));
}

/// On each chain a channel was opened between the two nodes of that chain, and
/// then seen to be active by the node that opened it; for `TwoChains` by the
/// other too. On the Core chain Bob opened it, on the Knots chain Alice, so that
/// each of them can pay over it.
pub proof fn a_passed_run_opened_its_channels(kind: Kind, answers: Seq<Answer>)
    requires
        passes(kind, answers),
    ensures
        exists|i: int| #[trigger]
            channel_opened(kind, answers, i, Party::BobCore, Party::AliceCore),
        exists|i: int| #[trigger]
            channel_opened(kind, answers, i, Party::AliceKnots, Party::BobKnots),
        exists|i: int| #[trigger] channel_seen(kind, answers, i, Party::BobCore, Party::AliceCore),
        exists|i: int| #[trigger] channel_seen(kind, answers, i, Party::AliceKnots, Party::BobKnots),
        kind == Kind::TwoChains ==> exists|i: int| #[trigger]
            channel_seen(kind, answers, i, Party::AliceCore, Party::BobCore),
        kind == Kind::TwoChains ==> exists|i: int| #[trigger]
            channel_seen(kind, answers, i, Party::BobKnots, Party::AliceKnots),
{
    a_channel_was_opened(kind, answers, Party::BobCore, Party::AliceCore, Chain::Core);
    a_channel_was_opened(kind, answers, Party::AliceKnots, Party::BobKnots, Chain::Knots);
    a_channel_was_seen(kind, answers, 0);
    a_channel_was_seen(kind, answers, 1);
    if kind == Kind::TwoChains {
        a_channel_was_seen(kind, answers, 2);
        a_channel_was_seen(kind, answers, 3);
    }
}

/// Whether a node was found to have no channel at all with another.
pub open spec fn no_channel_seen(
    kind: Kind,
    answers: Seq<Answer>,
    i: int,
    from: Party,
    to: Party,
) -> bool {
    &&& 0 <= i < answers.len()
    &&& answers[i] == Answer::Flag(false)
    &&& forall|ask: Ask| #[trigger]
        asked(kind, answers, i, ask) ==> (ask matches Ask::HasAny { party, peer } && party == from
            && peer@ == known(kind, answers).peer(to).id)
}

proof fn where_chains_are_compared()
    ensures
        program(Kind::TwoChains).len() == 24,
        program(Kind::TwoChains)[22] is CoreSeesKnots,
        program(Kind::TwoChains)[23] is KnotsSeesCore,
{
    reveal(prelude);
}

/// What `TwoChains` looks for last is a channel from a node of one chain to a
/// node of the other, both ways, and it finds none.
pub proof fn a_passed_topology_looked_across(answers: Seq<Answer>)
    requires
        passes(Kind::TwoChains, answers),
    ensures
        exists|i: int| #[trigger]
            no_channel_seen(Kind::TwoChains, answers, i, Party::AliceCore, Party::BobKnots),
        exists|i: int| #[trigger]
            no_channel_seen(Kind::TwoChains, answers, i, Party::AliceKnots, Party::BobCore),
{
    let kind = Kind::TwoChains;
    where_the_steps_are(kind);
    where_chains_are_compared();
    assert(program(kind)[node_step(kind, Party::BobKnots)] == Step::StartNode(Party::BobKnots));
    assert(program(kind)[node_step(kind, Party::BobCore)] == Step::StartNode(Party::BobCore));
    let a = completion(kind, answers, 22);
    still_known(kind, answers, a, node_step(kind, Party::BobKnots), Item::Node(Party::BobKnots));
    assert(no_channel_seen(kind, answers, a, Party::AliceCore, Party::BobKnots));
    let b = completion(kind, answers, 23);
    still_known(kind, answers, b, node_step(kind, Party::BobCore), Item::Node(Party::BobCore));
    assert(no_channel_seen(kind, answers, b, Party::AliceKnots, Party::BobCore));
}

/// Whether a node's channels were listed, and the funding of its first channel
/// with another is this transaction.
pub open spec fn funding_listed(
    kind: Kind,
    answers: Seq<Answer>,
    i: int,
    from: Party,
    to: Party,
    txid: Seq<char>,
) -> bool {
    &&& 0 <= i < answers.len()
    &&& answers[i] matches Answer::Channels(r) && channels_view(r) matches Ok(channels)
        && funding_of(channels, known(kind, answers).peer(to).id, 0) == Ok::<
        Seq<char>,
        Seq<char>,
    >(txid)
    &&& forall|ask: Ask| #[trigger] asked(kind, answers, i, ask) <==> ask == Ask::Channels(from)
}

/// Whether a chain was asked in which block a transaction is, and gave this
/// height.
pub open spec fn tx_height_given(
    kind: Kind,
    answers: Seq<Answer>,
    i: int,
    on: Chain,
    of: Seq<char>,
    height: u64,
) -> bool {
    &&& 0 <= i < answers.len()
    &&& answers[i] == Answer::Height(Ok(height))
    &&& forall|ask: Ask| #[trigger]
        asked(kind, answers, i, ask) ==> (ask matches Ask::TxHeight { chain, txid } && chain == on
            && txid@ == of)
}

proof fn where_funding_is_read(kind: Kind)
    requires
        kind == Kind::SwapOnBtk || kind == Kind::SwapOnSignets,
    ensures
        program(kind)[open_step(kind, Chain::Knots) + 2] is FundingTx,
        program(kind)[open_step(kind, Chain::Knots) + 3] is FundingHeight,
{
    reveal(prelude);
    reveal(swap);
}

/// The block that the Knots channel was funded in is the one that the Knots chain
/// gave for the transaction that Alice's node there lists as the funding of its
/// channel with Bob's.
pub proof fn a_passed_run_read_the_funding_on_knots(kind: Kind, answers: Seq<Answer>)
    requires
        passes(kind, answers),
        kind == Kind::SwapOnBtk || kind == Kind::SwapOnSignets,
    ensures
        ({
            let f = known(kind, answers);
            &&& exists|i: int| #[trigger]
                funding_listed(
                    kind,
                    answers,
                    i,
                    Party::AliceKnots,
                    Party::BobKnots,
                    f.funding_txid,
                )
            &&& exists|i: int| #[trigger]
                tx_height_given(
                    kind,
                    answers,
                    i,
                    Chain::Knots,
                    f.funding_txid,
                    f.funding_height,
                )
        }),
{
    let f = known(kind, answers);
    let to = Party::BobKnots;
    where_the_steps_are(kind);
    where_funding_is_read(kind);
    let k = open_step(kind, Chain::Knots) + 2;
    let a = completion(kind, answers, k);
    assert(program(kind)[node_step(kind, to)] == Step::StartNode(to));
    still_known(kind, answers, a, node_step(kind, to), Item::Node(to));
    assert(funding_listed(kind, answers, a, Party::AliceKnots, to, f.funding_txid));
    let b = completion(kind, answers, k + 1);
    still_known(kind, answers, b, k, Item::FundingTx);
    assert(tx_height_given(
        kind,
        answers,
        b,
        Chain::Knots,
        f.funding_txid,
        f.funding_height,
    ));
}

// ---------------------------------------------------------------------------
// The swap
// ---------------------------------------------------------------------------

/// Whether a node was asked for its balance and gave this one.
pub open spec fn balance_read(
    kind: Kind,
    answers: Seq<Answer>,
    i: int,
    party: Party,
    msat: u64,
) -> bool {
    &&& 0 <= i < answers.len()
    &&& answers[i] == Answer::Amount(Ok(msat))
    &&& forall|ask: Ask| #[trigger] asked(kind, answers, i, ask) <==> ask == Ask::Balance(party)
}

/// Whether a node was asked for a hold invoice over an amount, on a hash, and
/// gave this one.
pub open spec fn invoice_made(
    kind: Kind,
    answers: Seq<Answer>,
    i: int,
    payee: Party,
    amount: u64,
    hash: Seq<char>,
    invoice: Seq<char>,
) -> bool {
    &&& 0 <= i < answers.len()
    &&& answers[i] matches Answer::Found(Ok(s)) && s@ == invoice
    &&& forall|ask: Ask| #[trigger]
        asked(kind, answers, i, ask) ==> (ask matches Ask::HoldInvoice {
            party,
            msat,
            payment_hash,
            ..
        } && party == payee && msat == amount && payment_hash@ == hash)
}

/// Whether the bytes of a fresh secret were asked for, and these came.
pub open spec fn secret_drawn(
    kind: Kind,
    answers: Seq<Answer>,
    i: int,
    bytes: Seq<u8>,
) -> bool {
    &&& 0 <= i < answers.len()
    &&& answers[i] matches Answer::Bytes(b) && b@ == bytes
    &&& forall|ask: Ask| #[trigger] asked(kind, answers, i, ask) <==> ask is Secret
}

/// Whether the legs of these terms were run to their end, and both settled with
/// this preimage.
pub open spec fn legs_run(
    kind: Kind,
    answers: Seq<Answer>,
    i: int,
    f: Facts<Seq<char>, Seq<HeaderFact>>,
) -> bool {
    &&& 0 <= i < answers.len()
    &&& answers[i] matches Answer::Legs(legs) && legs@.ended() && legs@.bob.settled()
        && legs@.secret == f.secret && legs@.payment_hash == f.payment_hash && legs@.alice_invoice
        == f.alice_invoice && legs@.bob_invoice == f.bob_invoice && legs@.alice == AliceLane::Done(
        Ok::<Seq<char>, Seq<Seq<char>>>(f.preimage),
    ) && legs@.core == CoreLane::Done(Ok::<Seq<char>, Seq<Seq<char>>>(f.preimage))
    &&& forall|ask: Ask| #[trigger]
        asked(kind, answers, i, ask) ==> (ask matches Ask::RunLegs(legs) && legs@.secret == f.secret
            && legs@.payment_hash == f.payment_hash && legs@.alice_invoice == f.alice_invoice
            && legs@.bob_invoice == f.bob_invoice && legs@.core is Paying && legs@.alice is Paying
            && legs@.bob is LookCore)
}

proof fn a_balance_was_read(kind: Kind, answers: Seq<Answer>, k: int)
    requires
        passes(kind, answers),
        kind != Kind::TwoChains,
        k == 1 || k == 2 || k == 8 || k == 9,
    ensures
        ({
            let f = known(kind, answers);
            &&& k == 1 ==> exists|i: int| #[trigger]
                balance_read(kind, answers, i, Party::AliceCore, f.alice_before)
            &&& k == 2 ==> exists|i: int| #[trigger]
                balance_read(kind, answers, i, Party::BobKnots, f.bob_before)
            &&& k == 8 ==> exists|i: int| #[trigger]
                balance_read(kind, answers, i, Party::AliceCore, f.alice_after)
            &&& k == 9 ==> exists|i: int| #[trigger]
                balance_read(kind, answers, i, Party::BobKnots, f.bob_after)
        }),
{
    where_the_steps_are(kind);
    let f = known(kind, answers);
    let step = opening_steps(kind) + k;
    let i = completion(kind, answers, step);
    if k == 1 {
        assert(balance_read(kind, answers, i, Party::AliceCore, f.alice_before));
    } else if k == 2 {
        assert(balance_read(kind, answers, i, Party::BobKnots, f.bob_before));
    } else if k == 8 {
        assert(balance_read(kind, answers, i, Party::AliceCore, f.alice_after));
    } else {
        assert(balance_read(kind, answers, i, Party::BobKnots, f.bob_after));
    }
}

/// How Alice's balance comes to be seen in the wait for balances.
proof fn an_answer_shows_alices_balance(
    run: Run<Seq<char>, Seq<Seq<char>>, Seq<HeaderFact>>,
    answer: Answer,
)
    requires
        run.wf(),
        !(run.stage is Ended),
        run.after(answer).stage is LookBob || (run.current() is AwaitBalances && run.after(
            answer,
        ).done != run.done),
    ensures
        (run.stage is LookBob && run.after(answer).facts.alice_seen == run.facts.alice_seen) || (
        run.stage is Begin && run.current() is AwaitBalances && answer == Answer::Amount(
            Ok(run.after(answer).facts.alice_seen),
        )),
{
}

proof fn before_all_answers(kind: Kind, answers: Seq<Answer>)
    ensures
        run_at(kind, answers, 0).done == 0,
        run_at(kind, answers, 0).stage is Begin,
{
    reveal(run_at);
    assert(answers.take(0).len() == 0);
}

proof fn a_run_at_balances(kind: Kind, answers: Seq<Answer>, n: int)
    requires
        kind != Kind::TwoChains,
        0 <= n <= answers.len(),
        run_at(kind, answers, n).stage is LookBob || run_at(kind, answers, n).done
            > opening_steps(kind) + 7,
    ensures
        exists|i: int| #[trigger]
            balance_read(
                kind,
                answers,
                i,
                Party::AliceCore,
                run_at(kind, answers, n).facts.alice_seen,
            ),
    decreases n,
{
    where_the_steps_are(kind);
    let m = opening_steps(kind) + 7;
    if n == 0 {
        before_all_answers(kind, answers);
    } else {
        one_more(kind, answers, n - 1);
        let run = run_at(kind, answers, n - 1);
        let next = run_at(kind, answers, n);
        if run.done > m {
            a_run_at_balances(kind, answers, n - 1);
            kept_at(kind, answers, n - 1, m, Item::BalancesSeen);
        } else {
            at_the_balances(kind, answers, n - 1);
            an_answer_shows_alices_balance(run, answers[n - 1]);
            if run.stage is LookBob {
                a_run_at_balances(kind, answers, n - 1);
            } else {
                assert(balance_read(
                    kind,
                    answers,
                    n - 1,
                    Party::AliceCore,
                    next.facts.alice_seen,
                ));
            }
        }
    }
}

proof fn at_the_balances(kind: Kind, answers: Seq<Answer>, i: int)
    requires
        kind != Kind::TwoChains,
        0 <= i < answers.len(),
        run_at(kind, answers, i).done <= opening_steps(kind) + 7,
        run_at(kind, answers, i + 1).stage is LookBob || run_at(kind, answers, i + 1).done
            > opening_steps(kind) + 7,
    ensures
        !(run_at(kind, answers, i).stage is Ended),
        run_at(kind, answers, i + 1).stage is LookBob || (run_at(
            kind,
            answers,
            i,
        ).current() is AwaitBalances && run_at(kind, answers, i + 1).done != run_at(
            kind,
            answers,
            i,
        ).done),
{
    where_the_steps_are(kind);
    one_more(kind, answers, i);
    at_most_a_step(run_at(kind, answers, i), answers[i]);
}

proof fn at_most_a_step(run: Run<Seq<char>, Seq<Seq<char>>, Seq<HeaderFact>>, answer: Answer)
    requires
        run.wf(),
    ensures
        run.after(answer).done <= run.done + 1,
        run.stage is Ended ==> run.after(answer) == run,
{
    reveal(prelude);
    reveal(swap);
}

proof fn bobs_balance_was_seen(kind: Kind, answers: Seq<Answer>)
    requires
        passes(kind, answers),
        kind != Kind::TwoChains,
    ensures
        exists|i: int| #[trigger]
            balance_read(
                kind,
                answers,
                i,
                Party::BobKnots,
                known(kind, answers).bob_seen,
            ),
{
    where_the_steps_are(kind);
    let step = opening_steps(kind) + 7;
    let i = completion(kind, answers, step);
    assert(balance_read(
        kind,
        answers,
        i,
        Party::BobKnots,
        known(kind, answers).bob_seen,
    ));
}

proof fn all_steps_are_done(kind: Kind, answers: Seq<Answer>)
    requires
        passes(kind, answers),
    ensures
        run_at(kind, answers, answers.len() as int).done == program(kind).len(),
{
    reveal(passes);
    reveal(run_at);
    runs_are_well_formed(kind, answers);
    assert(answers.take(answers.len() as int) =~= answers);
}

proof fn alices_balance_was_seen(kind: Kind, answers: Seq<Answer>)
    requires
        passes(kind, answers),
        kind != Kind::TwoChains,
    ensures
        exists|i: int| #[trigger]
            balance_read(
                kind,
                answers,
                i,
                Party::AliceCore,
                known(kind, answers).alice_seen,
            ),
{
    where_the_steps_are(kind);
    all_answers(kind, answers);
    all_steps_are_done(kind, answers);
    a_run_at_balances(kind, answers, answers.len() as int);
}

proof fn the_invoices_were_made(kind: Kind, answers: Seq<Answer>)
    requires
        passes(kind, answers),
        kind != Kind::TwoChains,
    ensures
        ({
            let f = known(kind, answers);
            &&& exists|i: int| #[trigger]
                invoice_made(
                    kind,
                    answers,
                    i,
                    Party::AliceCore,
                    120_000,
                    f.payment_hash,
                    f.alice_invoice,
                )
            &&& exists|i: int| #[trigger]
                invoice_made(
                    kind,
                    answers,
                    i,
                    Party::BobKnots,
                    250_000,
                    f.payment_hash,
                    f.bob_invoice,
                )
        }),
{
    where_the_steps_are(kind);
    let f = known(kind, answers);
    let n = opening_steps(kind);
    let a = completion(kind, answers, n + 3);
    still_known(kind, answers, a, n, Item::Secret);
    assert(invoice_made(
        kind,
        answers,
        a,
        Party::AliceCore,
        120_000,
        f.payment_hash,
        f.alice_invoice,
    ));
    let b = completion(kind, answers, n + 4);
    still_known(kind, answers, b, n, Item::Secret);
    assert(invoice_made(
        kind,
        answers,
        b,
        Party::BobKnots,
        250_000,
        f.payment_hash,
        f.bob_invoice,
    ));
}

proof fn the_balances_rose(kind: Kind, answers: Seq<Answer>)
    requires
        kind != Kind::TwoChains,
        all_honest(answers),
        passes(kind, answers),
    ensures
        known(kind, answers).alice_seen >= known(kind, answers).alice_before + 120_000,
        known(kind, answers).bob_seen >= known(kind, answers).bob_before + 250_000,
{
    reveal(known);
    reveal(passes);
    a_passed_swap_settled(kind, answers);
}

/// The balances that a swap is judged by are those of its payees. Alice's
/// invoice was asked for from the node whose balance was read as hers before the
/// swap, in the wait and after it, and that node is hers on the Core chain;
/// likewise Bob's on the Knots chain. Each rose by no less than what the invoice
/// was asked for over.
pub proof fn a_passed_swap_read_the_balances_of_its_payees(kind: Kind, answers: Seq<Answer>)
    requires
        kind != Kind::TwoChains,
        all_honest(answers),
        passes(kind, answers),
    ensures
        ({
            let f = known(kind, answers);
            &&& exists|i: int, msat: u64| #[trigger]
                invoice_made(
                    kind,
                    answers,
                    i,
                    Party::AliceCore,
                    msat,
                    f.payment_hash,
                    f.alice_invoice,
                ) && msat > 0 && f.alice_seen >= f.alice_before + msat
            &&& exists|i: int| #[trigger]
                balance_read(kind, answers, i, Party::AliceCore, f.alice_before)
            &&& exists|i: int| #[trigger]
                balance_read(kind, answers, i, Party::AliceCore, f.alice_seen)
            &&& exists|i: int| #[trigger]
                balance_read(kind, answers, i, Party::AliceCore, f.alice_after)
            &&& exists|i: int, msat: u64| #[trigger]
                invoice_made(
                    kind,
                    answers,
                    i,
                    Party::BobKnots,
                    msat,
                    f.payment_hash,
                    f.bob_invoice,
                ) && msat > 0 && f.bob_seen >= f.bob_before + msat
            &&& exists|i: int| #[trigger]
                balance_read(kind, answers, i, Party::BobKnots, f.bob_before)
            &&& exists|i: int| #[trigger]
                balance_read(kind, answers, i, Party::BobKnots, f.bob_seen)
            &&& exists|i: int| #[trigger]
                balance_read(kind, answers, i, Party::BobKnots, f.bob_after)
        }),
{
    the_balances_rose(kind, answers);
    the_invoices_were_made(kind, answers);
    a_balance_was_read(kind, answers, 1);
    a_balance_was_read(kind, answers, 2);
    a_balance_was_read(kind, answers, 8);
    a_balance_was_read(kind, answers, 9);
    alices_balance_was_seen(kind, answers);
    bobs_balance_was_seen(kind, answers);
}

/// The secret of a swap is the one that was drawn for it, and its hash the one
/// that both invoices were asked for on. The legs that were run are those of the
/// two invoices, and both settled with one preimage.
pub proof fn a_passed_swap_ran_its_own_legs(kind: Kind, answers: Seq<Answer>)
    requires
        kind != Kind::TwoChains,
        passes(kind, answers),
    ensures
        ({
            let f = known(kind, answers);
            &&& exists|i: int, bytes: Seq<u8>| #[trigger]
                secret_drawn(kind, answers, i, bytes) && f.secret == hex_text(bytes)
                    && f.payment_hash == hex_text(sha256_digest(bytes))
            &&& exists|i: int| #[trigger] legs_run(kind, answers, i, f)
        }),
{
    where_the_steps_are(kind);
    let f = known(kind, answers);
    let n = opening_steps(kind);
    let a = completion(kind, answers, n);
    if let Answer::Bytes(b) = answers[a] {
        assert(secret_drawn(kind, answers, a, b@));
    }
    let c = completion(kind, answers, n + 6);
    still_known(kind, answers, c, n, Item::Secret);
    still_known(kind, answers, c, n + 3, Item::AliceInvoice);
    still_known(kind, answers, c, n + 4, Item::BobInvoice);
    assert(legs_run(kind, answers, c, f));
}

// ---------------------------------------------------------------------------
// What any two runs ask for
// ---------------------------------------------------------------------------

/// Whoever Alice's hold invoice is asked for from is who is asked for her
/// balance, whatever has happened in either run: it is her node on the Core
/// chain. Likewise for Bob, on the Knots chain.
pub proof fn balances_are_asked_for_where_invoices_are(
    one: Run<Seq<char>, Seq<Seq<char>>, Seq<HeaderFact>>,
    other: Run<Seq<char>, Seq<Seq<char>>, Seq<HeaderFact>>,
    payee: Party,
    msat: u64,
    payment_hash: String,
    purpose: String,
    ask: Ask,
)
    requires
        one.stage is Begin,
        run_asks(one, Ask::HoldInvoice { party: payee, msat, payment_hash, purpose }),
        run_asks(other, ask),
    ensures
        one.current() is AliceInvoice && other.stage is Begin && (other.current() is AliceBefore
            || other.current() is AwaitBalances || other.current() is AliceAfter) ==> ask
            == Ask::Balance(payee) && payee == Party::AliceCore,
        one.current() is BobInvoice && (other.stage is LookBob || other.stage is Begin && (
        other.current() is BobBefore || other.current() is BobAfter)) ==> ask == Ask::Balance(
            payee,
        ) && payee == Party::BobKnots,
        ask is Balance ==> ask == Ask::Balance(Party::AliceCore) || ask == Ask::Balance(
            Party::BobKnots,
        ),
{
}

/// A header is asked for on the chain that it is then known of: where a run asks
/// a chain for a check, a header that an answer adds to what is known is one of
/// that chain, at the height and with the format that the check was begun with.
pub proof fn a_check_is_of_the_chain_that_is_asked(
    run: Run<Seq<char>, Seq<Seq<char>>, Seq<HeaderFact>>,
    ask: Ask,
    answer: Answer,
    fact: HeaderFact,
)
    requires
        run_asks(run, ask),
        run.after(answer).facts.headers.contains(fact),
        !run.facts.headers.contains(fact),
    ensures
        ask matches Ask::CheckHeader { chain, check } && fact.chain == chain && fact.height
            == check.height && fact.want == check.want,
{
    let headers = run.after(answer).facts.headers;
    let j = choose|j: int| 0 <= j < headers.len() && headers[j] == fact;
    if run.stage is Begin {
        match (run.current(), answer) {
            (Step::Header { .. }, Answer::Header(_)) => {
                if j < run.facts.headers.len() {
                    assert(run.facts.headers[j] == fact);
                }
            },
            _ => {
                assert(run.facts.headers[j] == fact);
            },
        }
    } else {
        assert(run.facts.headers[j] == fact);
    }
}

/// Blocks are mined to the address of the chain that they are mined on. In the
/// wait for channels one block is mined at a time, on the one chain and then on
/// the other.
pub proof fn blocks_go_to_the_address_of_their_chain(
    run: Run<Seq<char>, Seq<Seq<char>>, Seq<HeaderFact>>,
    chain: Chain,
    blocks: u64,
    address: String,
)
    requires
        run_asks(run, Ask::Mine { chain, blocks, address }),
    ensures
        address@ == run.facts.address(chain),
        run.stage is MineKnots ==> chain == Chain::Knots && blocks == 1,
        run.stage is Begin && run.current() is AwaitChannels ==> chain == Chain::Core && blocks == 1
            && run.after(Answer::Done).stage is MineKnots,
{
}

/// A wait takes as long as it may and no longer. While there is time it looks
/// again, after two seconds; when its time is up, it fails.
pub proof fn a_wait_ends_when_its_time_is_up(
    run: Run<Seq<char>, Seq<Seq<char>>, Seq<HeaderFact>>,
    elapsed: u128,
    ask: Ask,
)
    requires
        run.wf(),
        run.stage is Clock,
    ensures
        ({
            let live = run.kind == Kind::SwapOnSignets;
            let secs: int = if run.current() is AwaitChannels {
                if live {
                    1200
                } else {
                    180
                }
            } else if live {
                120
            } else {
                60
            };
            let next = run.after(Answer::Elapsed(elapsed));
            let again = next.after(Answer::Done);
            if elapsed < secs * 1_000_000_000 {
                &&& run_asks(next, ask) ==> ask == Ask::SleepSecs(2)
                &&& next.done == run.done && again.done == run.done
                &&& again.facts == run.facts
                &&& run.current() is AwaitChannels && live ==> again.stage == Stage::<
                    Seq<Seq<char>>,
                >::Look(0)
                &&& !(run.current() is AwaitChannels && live) ==> again.stage is Begin
            } else {
                next.stage is Ended && !next.passed()
            }
        }),
{
}

} // verus!
