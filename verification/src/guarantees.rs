//! What the exchange's scenarios guarantee.
//!
//! The laws here speak of whole runs: of every sequence of answers that a run
//! can get.

use vstd::prelude::*;
use crate::bitcoind::LaunchPlan;
use crate::codec::{bolt11_hash, hex_text, sha256_digest};
use crate::exchange::{
    legs_secs, looks, prelude, program, swap, At, Chain, Facts, HeaderFact, Kind, Peer, Step,
    ACTIVATION_HEIGHT, CORE_LEG_MSAT, KNOTS_LEG_MSAT,
};
use crate::header::{after_calls, header_check_cross_checks, serves_format, HeaderCheck, HeaderStage};
use crate::json::JsonView;
use crate::legs::{settled_legs_share_the_secret, AliceLane, CoreLane, Legs, Party};
use crate::outcome::{bare, Failure};
use crate::run::{only_checks, run_asks, runs_stay_within_their_program, swaps, Answer, Ask, Run, Stage};
use crate::text::decimal;
use crate::wallet::{wallet_secs, WalletRequest};

verus! {

/// The run of a scenario that got these answers.
pub open spec fn played(kind: Kind, answers: Seq<Answer>) -> Run<
    Seq<char>,
    Seq<Seq<char>>,
    Seq<HeaderFact>,
>
    decreases answers.len(),
{
    if answers.len() == 0 {
        Run::<Seq<char>, Seq<Seq<char>>, Seq<HeaderFact>>::begun(kind)
    } else {
        played(kind, answers.drop_last()).after(answers.last())
    }
}

/// Whether legs in an answer are safe, as all are that were begun and then only
/// took events.
pub open spec fn honest(answer: Answer) -> bool {
    answer matches Answer::Legs(legs) ==> legs@.safe()
}

/// All answers are honest.
pub open spec fn all_honest(answers: Seq<Answer>) -> bool {
    forall|i: int| 0 <= i < answers.len() ==> honest(#[trigger] answers[i])
}

proof fn kind_is_kept(run: Run<Seq<char>, Seq<Seq<char>>, Seq<HeaderFact>>, answer: Answer)
    ensures
        run.after(answer).kind == run.kind,
{
}

/// Every run is well formed and stays with its scenario.
pub proof fn runs_are_well_formed(kind: Kind, answers: Seq<Answer>)
    ensures
        played(kind, answers).wf(),
        played(kind, answers).kind == kind,
    decreases answers.len(),
{
    reveal(prelude);
    if answers.len() > 0 {
        runs_are_well_formed(kind, answers.drop_last());
        runs_stay_within_their_program(played(kind, answers.drop_last()), answers.last());
        kind_is_kept(played(kind, answers.drop_last()), answers.last());
    }
}

// ---------------------------------------------------------------------------
// Mining
// ---------------------------------------------------------------------------

proof fn signet_steps_never_mine(i: int)
    requires
        0 <= i < program(Kind::SwapOnSignets).len(),
    ensures
        !(program(Kind::SwapOnSignets)[i] is MineCore),
        !(program(Kind::SwapOnSignets)[i] is MineKnots),
        !(program(Kind::SwapOnSignets)[i] is StartCore),
        !(program(Kind::SwapOnSignets)[i] is StartKnots),
{
    reveal(prelude);
    reveal(swap);
}

/// A run on the live chains asks for no block to be mined and starts no chain,
/// whatever answers it gets.
pub proof fn signets_are_never_mined(answers: Seq<Answer>, ask: Ask)
    requires
        run_asks(played(Kind::SwapOnSignets, answers), ask),
    ensures
        !(ask is Mine),
        !(ask is Launch),
{
    let run = played(Kind::SwapOnSignets, answers);
    runs_are_well_formed(Kind::SwapOnSignets, answers);
    if run.stage is Begin {
        signet_steps_never_mine(run.done as int);
    }
}

// ---------------------------------------------------------------------------
// The swap
// ---------------------------------------------------------------------------

/// Whether a secret and a hash belong together: the hash is the SHA-256 digest
/// of the bytes of the secret, and both are in hexadecimal.
pub open spec fn hash_matches(secret: Seq<char>, payment_hash: Seq<char>) -> bool {
    exists|bytes: Seq<u8>|
        secret == #[trigger] hex_text(bytes) && payment_hash == hex_text(sha256_digest(bytes))
}

/// What is established of a swap after the steps that are done.
pub open spec fn swap_so_far(run: Run<Seq<char>, Seq<Seq<char>>, Seq<HeaderFact>>) -> bool {
    let f = run.facts;
    let k = run.done - prelude(run.kind).len();
    &&& k >= 1 ==> hash_matches(f.secret, f.payment_hash)
    &&& k >= 6 ==> f.invoice_fault() is None
    &&& k >= 7 ==> f.preimage == f.secret
    &&& k >= 8 ==> f.alice_seen >= f.alice_before + CORE_LEG_MSAT && f.bob_seen >= f.bob_before
        + KNOTS_LEG_MSAT
    &&& run.stage is LookBob ==> f.alice_seen >= f.alice_before + CORE_LEG_MSAT
}

proof fn step_of_swap(kind: Kind, done: int)
    requires
        kind != Kind::TwoChains,
    ensures
        program(kind).len() == prelude(kind).len() + 10,
        swap().len() == 10,
        prelude(kind).len() <= done < program(kind).len() ==> program(kind)[done] == swap()[done
            - prelude(kind).len()],
{
    reveal(swap);
}

#[verifier::spinoff_prover]
proof fn swap_step_establishes(
    run: Run<Seq<char>, Seq<Seq<char>>, Seq<HeaderFact>>,
    answer: Answer,
)
    requires
        run.kind != Kind::TwoChains,
        run.wf(),
        swap_so_far(run),
        honest(answer),
    ensures
        swap_so_far(run.after(answer)),
{
    if !(run.stage is Ended) {
        step_of_swap(run.kind, run.done as int);
        reveal(swap);
        let k = run.done - prelude(run.kind).len();
        if k >= 0 {
            match answer {
                Answer::Bytes(bytes) => {
                    if run.current() is MakeSecret && run.stage is Begin {
                        assert(hash_matches(hex_text(bytes@), hex_text(sha256_digest(bytes@))));
                    }
                },
                Answer::Legs(legs) => {
                    let mismatch = crate::exchange::leg_mismatch(run.kind);
                    if legs@.ended() && legs@.verdict(mismatch) is Ok {
                        settled_legs_share_the_secret(legs@, mismatch);
                    }
                },
                _ => {},
            }
        }
    }
}

proof fn swap_establishes(kind: Kind, answers: Seq<Answer>)
    requires
        kind != Kind::TwoChains,
        all_honest(answers),
    ensures
        swap_so_far(played(kind, answers)),
    decreases answers.len(),
{
    if answers.len() > 0 {
        let before = answers.drop_last();
        assert(all_honest(before)) by {
            assert forall|i: int| 0 <= i < before.len() implies honest(#[trigger] before[i]) by {
                assert(before[i] == answers[i]);
            }
        }
        swap_establishes(kind, before);
        runs_are_well_formed(kind, before);
        assert(honest(answers[answers.len() - 1]));
        swap_step_establishes(played(kind, before), answers.last());
    } else {
        reveal(prelude);
    }
}

/// A swap passes only where both legs were invoiced on one hash by different
/// invoices, both settled with the secret behind that hash, and each party's
/// balance was then seen to have risen by what the swap gives them.
pub proof fn a_passed_swap_settled(kind: Kind, answers: Seq<Answer>)
    requires
        kind != Kind::TwoChains,
        all_honest(answers),
        played(kind, answers).passed(),
    ensures
        ({
            let f = played(kind, answers).facts;
            &&& hash_matches(f.secret, f.payment_hash)
            &&& f.alice_invoice != f.bob_invoice
            &&& bolt11_hash(f.alice_invoice) == Ok::<Seq<char>, Seq<char>>(f.payment_hash)
            &&& bolt11_hash(f.bob_invoice) == Ok::<Seq<char>, Seq<char>>(f.payment_hash)
            &&& f.preimage == f.secret
            &&& f.alice_seen >= f.alice_before + 120_000
            &&& f.bob_seen >= f.bob_before + 250_000
        }),
{
    swap_establishes(kind, answers);
    runs_are_well_formed(kind, answers);
    step_of_swap(kind, 0);
}

// ---------------------------------------------------------------------------
// The chains
// ---------------------------------------------------------------------------

/// Whether a header was checked.
pub open spec fn was_checked(
    f: Facts<Seq<char>, Seq<HeaderFact>>,
    chain: Chain,
    height: u64,
    want: u64,
) -> bool {
    f.headers.contains(HeaderFact { chain, height, want })
}

/// What is established of the chains of `SwapOnBtk` after the steps that are
/// done.
pub open spec fn btk_so_far(run: Run<Seq<char>, Seq<Seq<char>>, Seq<HeaderFact>>) -> bool {
    let f = run.facts;
    &&& run.done > 8 ==> was_checked(f, Chain::Core, 110, 1)
    &&& run.done > 9 ==> was_checked(f, Chain::Knots, 114, 1)
    &&& run.done > 10 ==> was_checked(f, Chain::Knots, 115, 2)
    &&& run.done > 11 ==> was_checked(f, Chain::Knots, 130, 2)
    &&& run.done > 22 ==> f.funding_height >= ACTIVATION_HEIGHT
    &&& run.done > 23 ==> was_checked(f, Chain::Knots, f.funding_height, 2)
}

/// What is established of the chains of `SwapOnSignets` after the steps that
/// are done.
pub open spec fn signets_so_far(run: Run<Seq<char>, Seq<Seq<char>>, Seq<HeaderFact>>) -> bool {
    let f = run.facts;
    &&& run.done > 4 ==> !f.core_ours && !f.knots_ours
    &&& run.done > 7 ==> f.core_height > 0 && f.knots_before > 0
    &&& run.done > 8 ==> was_checked(f, Chain::Core, f.core_height, 1)
    &&& run.done > 9 ==> was_checked(f, Chain::Knots, f.knots_before, 2)
    &&& run.done > 10 ==> was_checked(f, Chain::Knots, 1, 2)
    &&& run.done > 23 ==> was_checked(f, Chain::Knots, f.funding_height, 2)
}

/// What is established of the chains and nodes of `TwoChains` after the steps
/// that are done.
pub open spec fn topology_so_far(run: Run<Seq<char>, Seq<Seq<char>>, Seq<HeaderFact>>) -> bool {
    let f = run.facts;
    &&& run.done > 7 ==> f.core_port != f.knots_port
    &&& run.done > 12 ==> f.core_height == 115 && f.knots_after == f.knots_before
    &&& run.done > 18 ==> f.distinct_ids() == 4
}

/// A header that was checked stays so.
proof fn checks_are_kept(
    run: Run<Seq<char>, Seq<Seq<char>>, Seq<HeaderFact>>,
    answer: Answer,
    fact: HeaderFact,
)
    requires
        run.facts.headers.contains(fact),
    ensures
        run.after(answer).facts.headers.contains(fact),
{
    let after = run.after(answer).facts.headers;
    let i = choose|i: int| 0 <= i < run.facts.headers.len() && run.facts.headers[i] == fact;
    assert(after.len() >= run.facts.headers.len() && after[i] == fact);
}

/// What a step that checks a header leaves behind, where the run goes on.
proof fn header_step_checks(
    run: Run<Seq<char>, Seq<Seq<char>>, Seq<HeaderFact>>,
    answer: Answer,
)
    requires
        run.stage is Begin,
        run.current() is Header,
        run.after(answer).done != run.done,
    ensures
        match run.current() {
            Step::Header { chain, at, want } => run.after(answer).facts.headers.contains(
                HeaderFact { chain, height: run.facts.height(at), want },
            ),
            _ => true,
        },
{
    match run.current() {
        Step::Header { chain, at, want } => {
            let fact = HeaderFact { chain, height: run.facts.height(at), want };
            let after = run.after(answer).facts.headers;
            assert(after[after.len() - 1] == fact);
        },
        _ => {},
    }
}

/// A header that was checked before a step, or by it, is checked after it.
proof fn headers_after(
    run: Run<Seq<char>, Seq<Seq<char>>, Seq<HeaderFact>>,
    answer: Answer,
)
    ensures
        forall|fact: HeaderFact| #[trigger]
            run.facts.headers.contains(fact) ==> run.after(answer).facts.headers.contains(fact),
{
    assert forall|fact: HeaderFact| #[trigger]
        run.facts.headers.contains(fact) implies run.after(answer).facts.headers.contains(
        fact,
    ) by {
        checks_are_kept(run, answer, fact);
    }
}

proof fn a_step_at_most(run: Run<Seq<char>, Seq<Seq<char>>, Seq<HeaderFact>>, answer: Answer)
    requires
        run.wf(),
    ensures
        run.after(answer).done == run.done || run.after(answer).done == run.done + 1,
        run.stage is Ended ==> run.after(answer) == run,
{
    runs_stay_within_their_program(run, answer);
    reveal(prelude);
    reveal(swap);
}

/// The heights that are known change only in the steps that read them.
proof fn heights_are_kept(run: Run<Seq<char>, Seq<Seq<char>>, Seq<HeaderFact>>, answer: Answer)
    ensures
        !(run.current() is FundingHeight) ==> run.after(answer).facts.funding_height
            == run.facts.funding_height,
        !(run.current() is CoreTip || run.current() is CoreHeight) ==> run.after(
            answer,
        ).facts.core_height == run.facts.core_height,
        !(run.current() is KnotsTip || run.current() is KnotsBefore) ==> run.after(
            answer,
        ).facts.knots_before == run.facts.knots_before,
        !(run.current() is KnotsAfter) ==> run.after(answer).facts.knots_after
            == run.facts.knots_after,
{
}

/// What is known of how the chains are reached changes only where they are
/// started or attached to.
proof fn chains_are_kept(run: Run<Seq<char>, Seq<Seq<char>>, Seq<HeaderFact>>, answer: Answer)
    ensures
        !(run.current() is StartCore || run.current() is AttachCore) ==> run.after(
            answer,
        ).facts.core_ours == run.facts.core_ours && run.after(answer).facts.core_port
            == run.facts.core_port,
        !(run.current() is StartKnots || run.current() is AttachKnots) ==> run.after(
            answer,
        ).facts.knots_ours == run.facts.knots_ours && run.after(answer).facts.knots_port
            == run.facts.knots_port,
{
}

/// What is known of the nodes changes only where they are started.
proof fn nodes_are_kept(run: Run<Seq<char>, Seq<Seq<char>>, Seq<HeaderFact>>, answer: Answer)
    requires
        !(run.current() is StartNode),
    ensures
        run.after(answer).facts.alice_core == run.facts.alice_core,
        run.after(answer).facts.bob_core == run.facts.bob_core,
        run.after(answer).facts.alice_knots == run.facts.alice_knots,
        run.after(answer).facts.bob_knots == run.facts.bob_knots,
{
}

/// A step that only checks is passed only where it finds no fault, and changes
/// nothing of what is known.
proof fn checks_pass_only_without_fault(
    run: Run<Seq<char>, Seq<Seq<char>>, Seq<HeaderFact>>,
    answer: Answer,
)
    requires
        run.stage is Begin,
        only_checks(run.current()),
        run.after(answer).done != run.done,
    ensures
        run.fault() is None,
        run.after(answer).facts == run.facts,
{
}

#[verifier::spinoff_prover]
proof fn btk_step_establishes(
    run: Run<Seq<char>, Seq<Seq<char>>, Seq<HeaderFact>>,
    answer: Answer,
)
    requires
        run.kind == Kind::SwapOnBtk,
        run.wf(),
        btk_so_far(run),
    ensures
        btk_so_far(run.after(answer)),
{
    reveal(prelude);
    reveal(swap);
    headers_after(run, answer);
    a_step_at_most(run, answer);
    heights_are_kept(run, answer);
    if run.stage is Begin && run.after(answer).done != run.done {
        if run.current() is Header {
            header_step_checks(run, answer);
        }
        if only_checks(run.current()) {
            checks_pass_only_without_fault(run, answer);
        }
    }
}

#[verifier::spinoff_prover]
proof fn signets_step_establishes(
    run: Run<Seq<char>, Seq<Seq<char>>, Seq<HeaderFact>>,
    answer: Answer,
)
    requires
        run.kind == Kind::SwapOnSignets,
        run.wf(),
        signets_so_far(run),
    ensures
        signets_so_far(run.after(answer)),
{
    reveal(prelude);
    reveal(swap);
    headers_after(run, answer);
    a_step_at_most(run, answer);
    heights_are_kept(run, answer);
    chains_are_kept(run, answer);
    if run.stage is Begin && run.after(answer).done != run.done {
        if run.current() is Header {
            header_step_checks(run, answer);
        }
        if only_checks(run.current()) {
            checks_pass_only_without_fault(run, answer);
        }
    }
}

#[verifier::spinoff_prover]
proof fn topology_step_establishes(
    run: Run<Seq<char>, Seq<Seq<char>>, Seq<HeaderFact>>,
    answer: Answer,
)
    requires
        run.kind == Kind::TwoChains,
        run.wf(),
        topology_so_far(run),
    ensures
        topology_so_far(run.after(answer)),
{
    reveal(prelude);
    a_step_at_most(run, answer);
    heights_are_kept(run, answer);
    chains_are_kept(run, answer);
    if !(run.current() is StartNode) {
        nodes_are_kept(run, answer);
    }
    if run.stage is Begin && run.after(answer).done != run.done {
        if only_checks(run.current()) {
            checks_pass_only_without_fault(run, answer);
        }
    }
}

proof fn chains_establish(kind: Kind, answers: Seq<Answer>)
    ensures
        kind == Kind::SwapOnBtk ==> btk_so_far(played(kind, answers)),
        kind == Kind::SwapOnSignets ==> signets_so_far(played(kind, answers)),
        kind == Kind::TwoChains ==> topology_so_far(played(kind, answers)),
    decreases answers.len(),
{
    if answers.len() > 0 {
        let before = answers.drop_last();
        chains_establish(kind, before);
        runs_are_well_formed(kind, before);
        match kind {
            Kind::SwapOnBtk => btk_step_establishes(played(kind, before), answers.last()),
            Kind::SwapOnSignets => signets_step_establishes(played(kind, before), answers.last()),
            Kind::TwoChains => topology_step_establishes(played(kind, before), answers.last()),
            Kind::LightningSwap => {},
        }
    }
}

/// `TwoChains` passes only where the two chains are reached on different ports,
/// mining on one did not move the other, and the four nodes are four.
pub proof fn a_passed_topology_has_two_chains_and_four_nodes(answers: Seq<Answer>)
    requires
        played(Kind::TwoChains, answers).passed(),
    ensures
        ({
            let f = played(Kind::TwoChains, answers).facts;
            &&& f.core_port != f.knots_port
            &&& f.core_height == 115
            &&& f.knots_after == f.knots_before
            &&& f.alice_core.id != f.bob_core.id
            &&& f.alice_core.id != f.alice_knots.id
            &&& f.alice_core.id != f.bob_knots.id
            &&& f.bob_core.id != f.alice_knots.id
            &&& f.bob_core.id != f.bob_knots.id
            &&& f.alice_knots.id != f.bob_knots.id
        }),
{
    chains_establish(Kind::TwoChains, answers);
    runs_are_well_formed(Kind::TwoChains, answers);
    reveal(prelude);
}

// ---------------------------------------------------------------------------
// The answers
// ---------------------------------------------------------------------------

/// The run before it took the answer at `i`.
pub open spec fn run_before(kind: Kind, answers: Seq<Answer>, i: int) -> Run<
    Seq<char>,
    Seq<Seq<char>>,
    Seq<HeaderFact>,
> {
    played(kind, answers.take(i))
}

/// Whether the answer at `i` completed the step after `k` others.
pub open spec fn completed(kind: Kind, answers: Seq<Answer>, i: int, k: int) -> bool {
    &&& 0 <= i < answers.len()
    &&& run_before(kind, answers, i).done == k
    &&& run_before(kind, answers, i).after(answers[i]).done == k + 1
}

/// Whether the answer at `i` said that look number `n` found an active channel.
pub open spec fn saw_ready(kind: Kind, answers: Seq<Answer>, i: int, n: int) -> bool {
    &&& 0 <= i < answers.len()
    &&& run_before(kind, answers, i).stage matches Stage::Look(at) && at == n
    &&& answers[i] == Answer::Flag(true)
}

/// Whether some answer completed the step after `k` others.
pub open spec fn was_completed(kind: Kind, answers: Seq<Answer>, k: int) -> bool {
    exists|i: int| completed(kind, answers, i, k)
}

/// Whether some answer said that look number `n` found an active channel.
pub open spec fn was_seen_ready(kind: Kind, answers: Seq<Answer>, n: int) -> bool {
    exists|i: int| saw_ready(kind, answers, i, n)
}

/// What the answers so far have shown.
pub open spec fn shown_so_far(kind: Kind, answers: Seq<Answer>) -> bool {
    let run = played(kind, answers);
    &&& forall|k: int| 0 <= k < run.done ==> #[trigger] was_completed(kind, answers, k)
    &&& run.stage matches Stage::Look(at) ==> at < looks(kind) && forall|n: int|
        0 <= n < at ==> #[trigger] was_seen_ready(kind, answers, n)
    &&& forall|k: int, n: int|
        0 <= k < run.done && (#[trigger] program(kind)[k]) is AwaitChannels && 0 <= n < looks(kind)
            ==> #[trigger] was_seen_ready(kind, answers, n)
}

proof fn earlier_answers_still_count(kind: Kind, answers: Seq<Answer>)
    requires
        answers.len() > 0,
    ensures
        forall|k: int| #[trigger]
            was_completed(kind, answers.drop_last(), k) ==> was_completed(kind, answers, k),
        forall|n: int| #[trigger]
            was_seen_ready(kind, answers.drop_last(), n) ==> was_seen_ready(kind, answers, n),
        run_before(kind, answers, answers.len() - 1) == played(kind, answers.drop_last()),
{
    let before = answers.drop_last();
    assert forall|i: int| 0 <= i < before.len() implies #[trigger] before.take(i) == answers.take(
        i,
    ) by {
        assert(before.take(i) =~= answers.take(i));
    }
    assert(answers.take(answers.len() - 1) =~= before);
    assert forall|k: int| #[trigger] was_completed(kind, before, k) implies was_completed(
        kind,
        answers,
        k,
    ) by {
        let i = choose|i: int| completed(kind, before, i, k);
        assert(completed(kind, answers, i, k));
    }
    assert forall|n: int| #[trigger] was_seen_ready(kind, before, n) implies was_seen_ready(
        kind,
        answers,
        n,
    ) by {
        let i = choose|i: int| saw_ready(kind, before, i, n);
        assert(saw_ready(kind, answers, i, n));
    }
}

#[verifier::spinoff_prover]
proof fn an_answer_shows(kind: Kind, answers: Seq<Answer>)
    requires
        answers.len() > 0,
        shown_so_far(kind, answers.drop_last()),
    ensures
        shown_so_far(kind, answers),
{
    let before = answers.drop_last();
    let run = played(kind, before);
    let next = played(kind, answers);
    let last = answers.len() - 1;
    earlier_answers_still_count(kind, answers);
    runs_are_well_formed(kind, before);
    a_step_at_most(run, answers.last());
    if next.done != run.done {
        assert(completed(kind, answers, last, run.done as int));
    }
    if run.stage is Look && answers.last() == Answer::Flag(true) {
        assert(saw_ready(kind, answers, last, run.stage->Look_0 as int));
    }
    assert forall|k: int| 0 <= k < next.done implies #[trigger] was_completed(
        kind,
        answers,
        k,
    ) by {
        if k < run.done {
            assert(was_completed(kind, before, k));
        }
    }
    assert forall|k: int, n: int|
        0 <= k < next.done && (#[trigger] program(kind)[k]) is AwaitChannels && 0 <= n < looks(
            kind,
        ) implies #[trigger] was_seen_ready(kind, answers, n) by {
        if k < run.done {
            assert(was_seen_ready(kind, before, n));
        } else if n < run.stage->Look_0 {
            assert(was_seen_ready(kind, before, n));
        }
    }
    if next.stage is Look {
        assert forall|n: int| 0 <= n < next.stage->Look_0 implies #[trigger] was_seen_ready(
            kind,
            answers,
            n,
        ) by {
            if run.stage is Look && n < run.stage->Look_0 {
                assert(was_seen_ready(kind, before, n));
            }
        }
    }
}

proof fn answers_show(kind: Kind, answers: Seq<Answer>)
    ensures
        shown_so_far(kind, answers),
    decreases answers.len(),
{
    if answers.len() > 0 {
        answers_show(kind, answers.drop_last());
        an_answer_shows(kind, answers);
    } else {
        reveal(prelude);
    }
}

/// A run passes only where each of its steps was completed by an answer that it
/// got while that step was taken.
pub proof fn a_passed_run_left_no_step_out(kind: Kind, answers: Seq<Answer>, k: int)
    requires
        played(kind, answers).passed(),
        0 <= k < program(kind).len(),
    ensures
        was_completed(kind, answers, k),
{
    answers_show(kind, answers);
    runs_are_well_formed(kind, answers);
}

/// A run passes only where every look for a channel has found an active one: on
/// both chains, and for `TwoChains` from both sides of each channel.
pub proof fn a_passed_run_saw_its_channels_ready(kind: Kind, answers: Seq<Answer>, n: int)
    requires
        played(kind, answers).passed(),
        0 <= n < looks(kind),
    ensures
        was_seen_ready(kind, answers, n),
{
    answers_show(kind, answers);
    runs_are_well_formed(kind, answers);
    let k = channels_step(kind);
    assert(program(kind)[k] is AwaitChannels);
}

proof fn channels_step(kind: Kind) -> (k: int)
    ensures
        0 <= k < program(kind).len(),
        program(kind)[k] is AwaitChannels,
{
    reveal(prelude);
    reveal(swap);
    match kind {
        Kind::TwoChains => 21,
        Kind::LightningSwap => 14,
        Kind::SwapOnBtk => 19,
        Kind::SwapOnSignets => 20,
    }
}

proof fn a_look_across_passes_only_unseen(
    run: Run<Seq<char>, Seq<Seq<char>>, Seq<HeaderFact>>,
    answer: Answer,
)
    requires
        run.wf(),
        !(run.stage is Ended),
        run.current() is CoreSeesKnots || run.current() is KnotsSeesCore,
        run.after(answer).done != run.done,
    ensures
        answer == Answer::Flag(false),
{
    assert(run.stage is Begin);
}

proof fn looks_across()
    ensures
        program(Kind::TwoChains).len() == 24,
        program(Kind::TwoChains)[22] is CoreSeesKnots,
        program(Kind::TwoChains)[23] is KnotsSeesCore,
{
    reveal(prelude);
}

/// Whether an answer said that no channel of the other chain is seen, while step
/// number `k` was taken.
pub open spec fn was_unseen(answers: Seq<Answer>, k: int) -> bool {
    exists|i: int|
        0 <= i < answers.len() && run_before(Kind::TwoChains, answers, i).done == k
            && #[trigger] answers[i] == Answer::Flag(false)
}

proof fn a_completed_look_across(answers: Seq<Answer>, k: int)
    requires
        was_completed(Kind::TwoChains, answers, k),
        k == 22 || k == 23,
    ensures
        was_unseen(answers, k),
{
    let i = choose|i: int| completed(Kind::TwoChains, answers, i, k);
    let run = run_before(Kind::TwoChains, answers, i);
    runs_are_well_formed(Kind::TwoChains, answers.take(i));
    looks_across();
    a_step_at_most(run, answers[i]);
    a_look_across_passes_only_unseen(run, answers[i]);
}

/// `TwoChains` passes only where no node of one chain was found to see a channel
/// of the other: that is what its last two steps look for.
pub proof fn a_passed_topology_keeps_the_chains_apart(answers: Seq<Answer>)
    requires
        played(Kind::TwoChains, answers).passed(),
    ensures
        program(Kind::TwoChains)[22] is CoreSeesKnots && was_unseen(answers, 22),
        program(Kind::TwoChains)[23] is KnotsSeesCore && was_unseen(answers, 23),
{
    looks_across();
    a_passed_run_left_no_step_out(Kind::TwoChains, answers, 22);
    a_passed_run_left_no_step_out(Kind::TwoChains, answers, 23);
    a_completed_look_across(answers, 22);
    a_completed_look_across(answers, 23);
}

// ---------------------------------------------------------------------------
// The headers
// ---------------------------------------------------------------------------

/// Whether a check is one that was begun and then took what its three calls gave.
pub open spec fn replied(
    check: HeaderCheck<Seq<char>, JsonView>,
    hash: Result<JsonView, Seq<char>>,
    verbose: Result<JsonView, Seq<char>>,
    raw: Result<JsonView, Seq<char>>,
) -> bool {
    check == after_calls(check.height, check.want, hash, verbose, raw)
}

/// Whether a header check in an answer is one that was begun and then took what
/// its calls gave.
pub open spec fn honestly_checked(answer: Answer) -> bool {
    answer matches Answer::Header(check) ==> exists|
        hash: Result<JsonView, Seq<char>>,
        verbose: Result<JsonView, Seq<char>>,
        raw: Result<JsonView, Seq<char>>,
    |
        replied(check@, hash, verbose, raw)
}

/// All header checks among the answers are honest.
pub open spec fn all_honestly_checked(answers: Seq<Answer>) -> bool {
    forall|i: int| 0 <= i < answers.len() ==> honestly_checked(#[trigger] answers[i])
}

/// Whether the calls of a check gave a report and bytes that both say the format
/// it wants.
pub open spec fn shows_format(check: HeaderCheck<Seq<char>, JsonView>) -> bool {
    exists|
        hash: Result<JsonView, Seq<char>>,
        verbose: Result<JsonView, Seq<char>>,
        raw: Result<JsonView, Seq<char>>,
    |
        #[trigger] replied(check, hash, verbose, raw) && serves_format(
            check.want,
            hash,
            verbose,
            raw,
        )
}

/// Whether what the run asks for when it gets the answer at `i` is a check of a
/// header on its chain: of this chain, at this height and for this format.
pub open spec fn asked_chain(kind: Kind, answers: Seq<Answer>, i: int, fact: HeaderFact) -> bool {
    &&& 0 <= i < answers.len()
    &&& forall|ask: Ask| #[trigger]
        run_asks(run_before(kind, answers, i), ask) ==> (ask matches Ask::CheckHeader {
            chain,
            check,
        } && chain == fact.chain && check.height == fact.height && check.want == fact.want)
}

/// Whether a chain was asked for a check of this header, which passed.
pub open spec fn was_asked_for(kind: Kind, answers: Seq<Answer>, fact: HeaderFact) -> bool {
    exists|i: int| #[trigger]
        asked_chain(kind, answers, i, fact) && (answers[i] matches Answer::Header(check)
            && check.height == fact.height && check.want == fact.want && check@.passed())
}

/// Whether the answer at `i` is a check of a header on its chain, that chain was
/// asked for it, and what its calls gave says the format.
pub open spec fn showed(kind: Kind, answers: Seq<Answer>, i: int, fact: HeaderFact) -> bool {
    &&& asked_chain(kind, answers, i, fact)
    &&& run_before(kind, answers, i).current() matches Step::Header { chain, .. } && chain
        == fact.chain
    &&& answers[i] matches Answer::Header(check) && check.height == fact.height && check.want
        == fact.want && shows_format(check@)
}

/// Whether some answer showed that a header has a format.
pub open spec fn was_shown(kind: Kind, answers: Seq<Answer>, fact: HeaderFact) -> bool {
    exists|i: int| showed(kind, answers, i, fact)
}

/// Whether a header was checked, its chain was asked for that check, and, where
/// the checks are honest, the block's report and bytes were seen to have the
/// format.
pub open spec fn was_found(
    kind: Kind,
    answers: Seq<Answer>,
    chain: Chain,
    height: u64,
    want: u64,
) -> bool {
    &&& was_checked(played(kind, answers).facts, chain, height, want)
    &&& was_asked_for(kind, answers, HeaderFact { chain, height, want })
    &&& all_honestly_checked(answers) ==> was_shown(
        kind,
        answers,
        HeaderFact { chain, height, want },
    )
}

/// A header that was not known as checked before an answer, and is after it, is
/// the one that the answer checked.
proof fn a_new_header_was_checked(
    run: Run<Seq<char>, Seq<Seq<char>>, Seq<HeaderFact>>,
    answer: Answer,
    fact: HeaderFact,
)
    requires
        run.after(answer).facts.headers.contains(fact),
        !run.facts.headers.contains(fact),
    ensures
        run.current() matches Step::Header { chain, .. } && chain == fact.chain,
        answer matches Answer::Header(check) && check.height == fact.height && check.want
            == fact.want && check@.passed(),
        forall|ask: Ask| #[trigger]
            run_asks(run, ask) ==> (ask matches Ask::CheckHeader { chain, check } && chain
                == fact.chain && check.height == fact.height && check.want == fact.want),
{
    let headers = run.after(answer).facts.headers;
    let j = choose|j: int| 0 <= j < headers.len() && headers[j] == fact;
    if j < run.facts.headers.len() && headers.len() == run.facts.headers.len() {
        assert(run.facts.headers[j] == fact);
    }
    match answer {
        Answer::Header(check) => {
            if j < run.facts.headers.len() {
                assert(run.facts.headers[j] == fact);
            }
        },
        _ => {
            assert(run.facts.headers[j] == fact);
        },
    }
}

/// Where the checks are honest, every header that is known as checked was shown
/// to have its format by what the node of its chain gave.
pub proof fn checked_headers_were_shown(kind: Kind, answers: Seq<Answer>)
    ensures
        all_honestly_checked(answers) ==> forall|fact: HeaderFact| #[trigger]
            played(kind, answers).facts.headers.contains(fact) ==> was_shown(kind, answers, fact),
    decreases answers.len(),
{
    if answers.len() > 0 && all_honestly_checked(answers) {
        let before = answers.drop_last();
        let last: int = answers.len() - 1;
        let run = played(kind, before);
        assert(all_honestly_checked(before)) by {
            assert forall|i: int| 0 <= i < before.len() implies honestly_checked(
                #[trigger] before[i],
            ) by {
                assert(before[i] == answers[i]);
            }
        }
        checked_headers_were_shown(kind, before);
        earlier_answers_still_count(kind, answers);
        assert forall|fact: HeaderFact| #[trigger]
            played(kind, answers).facts.headers.contains(fact) implies was_shown(
            kind,
            answers,
            fact,
        ) by {
            if run.facts.headers.contains(fact) {
                let i = choose|i: int| showed(kind, before, i, fact);
                assert(before.take(i) =~= answers.take(i));
                assert(asked_chain(kind, answers, i, fact));
                assert(showed(kind, answers, i, fact));
            } else {
                a_new_header_was_checked(run, answers.last(), fact);
                assert(honestly_checked(answers[last]));
                a_passed_check_shows_its_format(answers[last]);
                assert(asked_chain(kind, answers, last, fact));
                assert(showed(kind, answers, last, fact));
            }
        }
    }
}

/// Every header that is known as checked was asked for on its chain, whatever the
/// answers were.
pub proof fn checked_headers_were_asked_for(kind: Kind, answers: Seq<Answer>)
    ensures
        forall|fact: HeaderFact| #[trigger]
            played(kind, answers).facts.headers.contains(fact) ==> was_asked_for(
                kind,
                answers,
                fact,
            ),
    decreases answers.len(),
{
    if answers.len() > 0 {
        let before = answers.drop_last();
        let last: int = answers.len() - 1;
        let run = played(kind, before);
        checked_headers_were_asked_for(kind, before);
        earlier_answers_still_count(kind, answers);
        assert forall|fact: HeaderFact| #[trigger]
            played(kind, answers).facts.headers.contains(fact) implies was_asked_for(
            kind,
            answers,
            fact,
        ) by {
            if run.facts.headers.contains(fact) {
                let i = choose|i: int| #[trigger]
                    asked_chain(kind, before, i, fact) && (before[i] matches Answer::Header(check)
                        && check.height == fact.height && check.want == fact.want
                        && check@.passed());
                assert(before.take(i) =~= answers.take(i));
                assert(asked_chain(kind, answers, i, fact));
            } else {
                a_new_header_was_checked(run, answers.last(), fact);
                assert(asked_chain(kind, answers, last, fact));
            }
        }
    }
}

proof fn a_passed_check_shows_its_format(answer: Answer)
    requires
        honestly_checked(answer),
        answer matches Answer::Header(check) && check@.passed(),
    ensures
        answer matches Answer::Header(check) && shows_format(check@),
{
    match answer {
        Answer::Header(check) => {
            let (hash, verbose, raw) = choose|
                hash: Result<JsonView, Seq<char>>,
                verbose: Result<JsonView, Seq<char>>,
                raw: Result<JsonView, Seq<char>>,
            |
                replied(check@, hash, verbose, raw);
            header_check_cross_checks(check.height, check.want, hash, verbose, raw);
            assert(replied(check@, hash, verbose, raw));
        },
        _ => {},
    }
}

/// `SwapOnBtk` passes only where the two chains were found to differ: the Core
/// chain has a v1 header, the Knots chain a v1 header below its activation and
/// v2 headers from there on, and the Knots channel was funded at or above the
/// activation, in a v2 block.
pub proof fn a_passed_btk_swap_ran_on_btk(answers: Seq<Answer>)
    requires
        played(Kind::SwapOnBtk, answers).passed(),
    ensures
        ({
            let kind = Kind::SwapOnBtk;
            let f = played(kind, answers).facts;
            &&& was_found(kind, answers, Chain::Core, 110, 1)
            &&& was_found(kind, answers, Chain::Knots, 114, 1)
            &&& was_found(kind, answers, Chain::Knots, 115, 2)
            &&& was_found(kind, answers, Chain::Knots, 130, 2)
            &&& f.funding_height >= 115
            &&& was_found(kind, answers, Chain::Knots, f.funding_height, 2)
        }),
{
    checked_headers_were_shown(Kind::SwapOnBtk, answers);
    checked_headers_were_asked_for(Kind::SwapOnBtk, answers);
    chains_establish(Kind::SwapOnBtk, answers);
    runs_are_well_formed(Kind::SwapOnBtk, answers);
    reveal(prelude);
    reveal(swap);
}

/// `SwapOnSignets` passes only where neither chain was ours to mine, both had
/// blocks, and their headers differed: v1 at the Core chain's tip, v2 at the
/// Knots chain's tip, at its first block and where its channel was funded.
pub proof fn a_passed_signets_swap_ran_on_live_chains(answers: Seq<Answer>)
    requires
        played(Kind::SwapOnSignets, answers).passed(),
    ensures
        ({
            let kind = Kind::SwapOnSignets;
            let f = played(kind, answers).facts;
            &&& !f.core_ours && !f.knots_ours
            &&& f.core_height > 0 && f.knots_before > 0
            &&& was_found(kind, answers, Chain::Core, f.core_height, 1)
            &&& was_found(kind, answers, Chain::Knots, f.knots_before, 2)
            &&& was_found(kind, answers, Chain::Knots, 1, 2)
            &&& was_found(kind, answers, Chain::Knots, f.funding_height, 2)
        }),
{
    checked_headers_were_shown(Kind::SwapOnSignets, answers);
    checked_headers_were_asked_for(Kind::SwapOnSignets, answers);
    chains_establish(Kind::SwapOnSignets, answers);
    runs_are_well_formed(Kind::SwapOnSignets, answers);
    reveal(prelude);
    reveal(swap);
}

// ---------------------------------------------------------------------------
// The order of the steps
// ---------------------------------------------------------------------------

/// The chains are found to differ before any node is started, so that a swap is
/// never taken for evidence of a chain that it did not run on.
pub proof fn headers_are_checked_before_nodes_start(kind: Kind, i: int, j: int)
    requires
        0 <= i < program(kind).len(),
        0 <= j < program(kind).len(),
        program(kind)[i] matches Step::Header { at, .. } && at != At::Funding,
        program(kind)[j] is StartNode,
    ensures
        i < j,
{
    reveal(prelude);
    reveal(swap);
}

/// Where the two chains need different binaries, a run asks for the override
/// before it starts, attaches to or mines anything.
pub proof fn overrides_are_refused_first(kind: Kind, i: int, j: int)
    requires
        0 <= i < program(kind).len(),
        0 <= j < program(kind).len(),
        program(kind)[i] is RefuseOverride,
        !(program(kind)[j] is BuildKnots || program(kind)[j] is RefuseOverride),
    ensures
        i < j,
{
    reveal(prelude);
    reveal(swap);
}

/// A run that asks for the override fails exactly where it is set, be it to
/// nothing.
pub proof fn a_set_override_fails_a_run(
    run: Run<Seq<char>, Seq<Seq<char>>, Seq<HeaderFact>>,
    named: Option<String>,
)
    requires
        run.stage is Begin,
        run.current() is RefuseOverride,
    ensures
        named is Some ==> run.after(Answer::Named(named)).stage == Stage::<Seq<Seq<char>>>::Ended(
            Err(
                bare(
                    "DLN_NODE_BINARY is set, which would put the same binary on both chains and defeat the point of this scenario"@,
                ),
            ),
        ),
        named is None ==> run.after(Answer::Named(named)) == run.next(run.facts),
{
}

/// A payment on a hold invoice waits for longer than Bob does before he settles,
/// or gives up.
pub proof fn a_held_payment_outlasts_the_wait(kind: Kind, invoice: Seq<char>)
    ensures
        wallet_secs(WalletRequest::PayHeld(invoice)) > legs_secs(kind) + 3,
{
}

/// Nothing of a swap is done before both channels are ready.
pub proof fn swaps_wait_for_channels(kind: Kind, i: int, j: int)
    requires
        0 <= i < program(kind).len(),
        0 <= j < program(kind).len(),
        program(kind)[i] is AwaitChannels,
        swaps(program(kind)[j]) || program(kind)[j] is CheckInvoices,
    ensures
        i < j,
{
    reveal(prelude);
    reveal(swap);
}

// ---------------------------------------------------------------------------
// How a run goes on
// ---------------------------------------------------------------------------

/// Whether an answer completes the step that is being taken.
pub open spec fn goes_on(
    run: Run<Seq<char>, Seq<Seq<char>>, Seq<HeaderFact>>,
    answer: Answer,
) -> bool {
    run.after(answer).done == run.done + 1
}

/// Whether an answer fails a run.
pub open spec fn fails(
    run: Run<Seq<char>, Seq<Seq<char>>, Seq<HeaderFact>>,
    answer: Answer,
) -> bool {
    run.after(answer).stage is Ended && !run.after(answer).passed() && run.after(answer).done
        == run.done
}

proof fn steps_can_be_counted(run: Run<Seq<char>, Seq<Seq<char>>, Seq<HeaderFact>>)
    requires
        run.wf(),
    ensures
        run.done < 40,
{
    reveal(prelude);
    reveal(swap);
}

/// A step that checks what is known goes on exactly where that is as it should
/// be, and fails the run otherwise: neither chain is ours, the chains have ports
/// of their own, mining on one moved that one only, both have blocks, the four
/// nodes are four, the channel was funded from the activation on, and the two
/// invoices differ and carry the agreed hash.
pub proof fn checks_pass_exactly_where_they_should(
    run: Run<Seq<char>, Seq<Seq<char>>, Seq<HeaderFact>>,
)
    requires
        run.wf(),
        run.stage is Begin,
        only_checks(run.current()),
    ensures
        ({
            let f = run.facts;
            goes_on(run, Answer::Done) <==> match run.current() {
                Step::RefuseMining => !f.core_ours && !f.knots_ours,
                Step::CheckPorts => f.core_port != f.knots_port,
                Step::CheckIndependence => f.core_height == 115 && f.knots_after == f.knots_before,
                Step::CheckTips => f.core_height > 0 && f.knots_before > 0,
                Step::CheckIds => f.alice_core.id != f.bob_core.id && f.alice_core.id
                    != f.alice_knots.id && f.alice_core.id != f.bob_knots.id && f.bob_core.id
                    != f.alice_knots.id && f.bob_core.id != f.bob_knots.id && f.alice_knots.id
                    != f.bob_knots.id,
                Step::CheckActivated => f.funding_height >= 115,
                _ => f.alice_invoice != f.bob_invoice && bolt11_hash(f.alice_invoice) == Ok::<
                    Seq<char>,
                    Seq<char>,
                >(f.payment_hash) && bolt11_hash(f.bob_invoice) == Ok::<Seq<char>, Seq<char>>(
                    f.payment_hash,
                ),
            }
        }),
        goes_on(run, Answer::Done) <==> !fails(run, Answer::Done),
{
    steps_can_be_counted(run);
}

/// What is tried or asked for at the beginning of a step goes on where it
/// succeeded and fails the run where it did not.
pub proof fn steps_go_on_where_they_succeed(
    run: Run<Seq<char>, Seq<Seq<char>>, Seq<HeaderFact>>,
    found: Result<String, Failure>,
    tried: Result<(), Failure>,
    height: Result<u64, String>,
    node: Result<Peer<String>, Failure>,
    amount: Result<u64, Failure>,
    text: String,
    port: u16,
    ours: bool,
    bytes: Vec<u8>,
    seen: bool,
)
    requires
        run.wf(),
        run.stage is Begin,
    ensures
        match run.current() {
            Step::BuildKnots | Step::AliceInvoice | Step::BobInvoice => {
                &&& goes_on(run, Answer::Found(found)) <==> found is Ok
                &&& fails(run, Answer::Found(found)) <==> found is Err
            },
            Step::StartCore | Step::StartKnots | Step::AttachCore | Step::AttachKnots => goes_on(
                run,
                Answer::Chain { port, ours },
            ),
            Step::CoreAddress | Step::KnotsAddress | Step::StartRelay => goes_on(
                run,
                Answer::Text(text),
            ),
            Step::MineCore(_) | Step::MineKnots(_) => goes_on(run, Answer::Done),
            Step::KnotsBefore | Step::CoreHeight | Step::KnotsAfter | Step::CoreTip
            | Step::KnotsTip | Step::FundingHeight => {
                &&& goes_on(run, Answer::Height(height)) <==> height is Ok
                &&& fails(run, Answer::Height(height)) <==> height is Err
            },
            Step::StartNode(_) => {
                &&& goes_on(run, Answer::Node(node)) <==> node is Ok
                &&& fails(run, Answer::Node(node)) <==> node is Err
            },
            Step::OpenCore | Step::OpenKnots => {
                &&& goes_on(run, Answer::Tried(tried)) <==> tried is Ok
                &&& fails(run, Answer::Tried(tried)) <==> tried is Err
            },
            Step::CoreSeesKnots | Step::KnotsSeesCore => {
                &&& goes_on(run, Answer::Flag(seen)) <==> !seen
                &&& fails(run, Answer::Flag(seen)) <==> seen
            },
            Step::MakeSecret => goes_on(run, Answer::Bytes(bytes)),
            Step::AliceBefore | Step::BobBefore | Step::AliceAfter | Step::BobAfter => {
                &&& goes_on(run, Answer::Amount(amount)) <==> amount is Ok
                &&& fails(run, Answer::Amount(amount)) <==> amount is Err
            },
            _ => true,
        },
{
    steps_can_be_counted(run);
}

/// A header check that was asked for goes on where it passed and fails the run
/// where it did not; a check of another header is no answer.
pub proof fn header_steps_go_on_where_the_check_passed(
    run: Run<Seq<char>, Seq<Seq<char>>, Seq<HeaderFact>>,
    chain: Chain,
    begun: HeaderCheck<String, serde_json::Value>,
    check: HeaderCheck<String, serde_json::Value>,
)
    requires
        run.wf(),
        run_asks(run, Ask::CheckHeader { chain, check: begun }),
    ensures
        ({
            let ours = check.height == begun.height && check.want == begun.want;
            &&& goes_on(run, Answer::Header(check)) <==> ours && check@.passed()
            &&& fails(run, Answer::Header(check)) <==> ours && (check@.stage matches
                HeaderStage::Done(r) && r is Err)
            &&& !ours ==> run.after(Answer::Header(check)) == run
        }),
{
    steps_can_be_counted(run);
}

/// Legs that have ended go on where they came out well and fail the run where
/// they did not; those of another swap are no answer.
pub proof fn a_swap_goes_on_where_its_legs_settled(
    run: Run<Seq<char>, Seq<Seq<char>>, Seq<HeaderFact>>,
    legs: Legs<String, Failure>,
)
    requires
        run.wf(),
        run.stage is Begin,
        run.current() is RunLegs,
        legs@.ended(),
    ensures
        ({
            let f = run.facts;
            let ours = legs@.secret == f.secret && legs@.payment_hash == f.payment_hash
                && legs@.alice_invoice == f.alice_invoice && legs@.bob_invoice == f.bob_invoice;
            let well = legs@.bob.settled() && (legs@.alice matches AliceLane::Done(Ok(observed))
                && legs@.core == CoreLane::Done(Ok::<Seq<char>, Seq<Seq<char>>>(observed)));
            &&& goes_on(run, Answer::Legs(legs)) <==> ours && well
            &&& fails(run, Answer::Legs(legs)) <==> ours && !well
            &&& !ours ==> run.after(Answer::Legs(legs)) == run
        }),
{
    steps_can_be_counted(run);
}

/// The wait for balances goes on to Bob's where Alice has no less than she had
/// and what her invoice was over, and ends where Bob has too. Where either has
/// less, it looks at the clock; a balance that cannot be read fails the run.
pub proof fn balances_settle_where_they_have_risen(
    run: Run<Seq<char>, Seq<Seq<char>>, Seq<HeaderFact>>,
    msat: u64,
    failure: Failure,
)
    requires
        run.wf(),
        run.current() is AwaitBalances,
    ensures
        run.stage is Begin ==> {
            let next = run.after(Answer::Amount(Ok(msat)));
            &&& next.stage is LookBob <==> msat >= run.facts.alice_before + 120_000
            &&& next.stage is Clock <==> msat < run.facts.alice_before + 120_000
            &&& next.done == run.done
        },
        run.stage is LookBob ==> {
            let next = run.after(Answer::Amount(Ok(msat)));
            &&& goes_on(run, Answer::Amount(Ok(msat))) <==> msat >= run.facts.bob_before + 250_000
            &&& next.stage is Clock <==> msat < run.facts.bob_before + 250_000
        },
        run.stage is Begin || run.stage is LookBob ==> fails(run, Answer::Amount(Err(failure))),
{
    steps_can_be_counted(run);
    reveal(prelude);
    reveal(swap);
}

/// The wait for channels takes one look after the other: an active channel leads
/// to the next look, and the last one ends the wait. One that is not active leads
/// to the clock.
pub proof fn channels_are_looked_for_one_by_one(
    run: Run<Seq<char>, Seq<Seq<char>>, Seq<HeaderFact>>,
    n: u8,
)
    requires
        run.wf(),
        run.stage == Stage::<Seq<Seq<char>>>::Look(n),
    ensures
        ({
            let last: int = if run.kind == Kind::TwoChains {
                3
            } else {
                1
            };
            &&& run.after(Answer::Flag(false)).stage is Clock
            &&& n < last ==> run.after(Answer::Flag(true)).stage == Stage::<Seq<Seq<char>>>::Look(
                (n + 1) as u8,
            )
            &&& n >= last ==> goes_on(run, Answer::Flag(true))
        }),
{
    steps_can_be_counted(run);
}

/// Each chain is launched from its own image, on the port at which its calls are
/// answered. The Knots chain activates BLAKE2b at a height only in `SwapOnBtk`,
/// and that is the height from which the headers are wanted in the new format.
pub proof fn each_chain_is_launched_from_its_image(
    run: Run<Seq<char>, Seq<Seq<char>>, Seq<HeaderFact>>,
    chain: Chain,
    plan: LaunchPlan,
)
    requires
        run_asks(run, Ask::Launch { chain, plan }),
    ensures
        plan@.port == 18443,
        chain == Chain::Core <==> run.current() is StartCore,
        chain == Chain::Core ==> plan@.image == "ruimarinho/bitcoin-core"@ && plan@.tag
            == "latest"@ && plan@.cmd.len() == 9,
        chain == Chain::Knots ==> plan@.image == "dwdc/bitcoin-knots"@ && plan@.tag == "29"@,
        chain == Chain::Knots && run.kind == Kind::SwapOnBtk ==> plan@.cmd.len() == 12
            && plan@.cmd[9] == "-testactivationheight=blake2b@"@ + decimal(115) && plan@.cmd[10]
            == "-blake2b_headline=dwdc regtest blake2b activation"@ && plan@.cmd[11]
            == "-walletoldsigs=1"@,
        chain == Chain::Knots && run.kind != Kind::SwapOnBtk ==> plan@.cmd.len() == 10
            && plan@.cmd[9] == "-blake2b_headline=dwdc regtest level 0"@,
{
}

/// The live chains are the two treasuries' signets, each on its own port.
pub proof fn the_live_chains_are_signets(
    run: Run<Seq<char>, Seq<Seq<char>>, Seq<HeaderFact>>,
    chain: Chain,
    port: u16,
    network: String,
    label: String,
)
    requires
        run_asks(run, Ask::Attach { chain, port, network, label }),
    ensures
        network@ == "signet"@,
        chain == Chain::Core ==> run.current() is AttachCore && port == 48333 && label@
            == "btc.signet"@,
        chain == Chain::Knots ==> run.current() is AttachKnots && port == 48332 && label@
            == "btk.signet"@,
{
}

/// Heights are read as the scenario wants them: `TwoChains` takes them from
/// `getblockchaininfo`, the others from `getblockcount`.
pub proof fn heights_are_read_as_the_scenario_wants(
    run: Run<Seq<char>, Seq<Seq<char>>, Seq<HeaderFact>>,
    chain: Chain,
    from_info: bool,
)
    requires
        run.wf(),
        run_asks(run, Ask::Height { chain, from_info }),
    ensures
        from_info <==> run.kind == Kind::TwoChains,
{
    reveal(prelude);
    reveal(swap);
}

/// A node is called after who it is for and what it is on, and no two nodes are
/// called alike.
pub proof fn nodes_are_called_after_their_parties(
    one: Run<Seq<char>, Seq<Seq<char>>, Seq<HeaderFact>>,
    other: Run<Seq<char>, Seq<Seq<char>>, Seq<HeaderFact>>,
    a: Party,
    b: Party,
)
    requires
        one.stage is Begin,
        other.stage is Begin,
        one.current() == Step::StartNode(a),
        other.current() == Step::StartNode(b),
    ensures
        forall|x: Ask, y: Ask|
            #![trigger run_asks(one, x), run_asks(other, y)]
            run_asks(one, x) && run_asks(other, y) ==> x is StartNode && y is StartNode
                && x->StartNode_party == a && y->StartNode_party == b && (
            x->StartNode_name@ == y->StartNode_name@ <==> a == b) && (x->StartNode_chain
                == y->StartNode_chain <==> (a == Party::AliceCore || a == Party::BobCore) == (b
                == Party::AliceCore || b == Party::BobCore)),
{
    reveal_strlit("alice-core");
    reveal_strlit("bob-core");
    reveal_strlit("alice-knots");
    reveal_strlit("bob-knots");
    assert("alice-core"@.len() == 10);
    assert("bob-core"@.len() == 8);
    assert("alice-knots"@.len() == 11);
    assert("bob-knots"@.len() == 9);
}

/// Whether an answer is of the sort that something asked for is answered with.
pub open spec fn fits(ask: Ask, answer: Answer) -> bool {
    match ask {
        Ask::BuildKnots { .. } | Ask::HoldInvoice { .. } => answer is Found,
        Ask::NodeOverride => answer is Named,
        Ask::Launch { .. } | Ask::Attach { .. } => answer is Chain,
        Ask::NewAddress(_) | Ask::StartRelay => answer is Text,
        Ask::Mine { .. } | Ask::SleepSecs(_) | Ask::Proceed => answer is Done,
        Ask::Height { .. } | Ask::TxHeight { .. } => answer is Height,
        Ask::CheckHeader { .. } => answer is Header,
        Ask::StartNode { .. } => answer is Node,
        Ask::OpenChannel { .. } => answer is Tried,
        Ask::HasReady { .. } | Ask::HasAny { .. } => answer is Flag,
        Ask::Channels(_) => answer is Channels,
        Ask::Secret => answer is Bytes,
        Ask::Balance(_) => answer is Amount,
        Ask::RunLegs(_) => answer is Legs,
        Ask::Elapsed => answer is Elapsed,
        Ask::Nothing => false,
    }
}

/// An answer to something else than what is asked for changes nothing.
pub proof fn only_what_is_asked_for_is_taken(
    run: Run<Seq<char>, Seq<Seq<char>>, Seq<HeaderFact>>,
    ask: Ask,
    answer: Answer,
)
    requires
        run.wf(),
        run_asks(run, ask),
        !fits(ask, answer),
    ensures
        run.after(answer) == run,
{
}

} // verus!
