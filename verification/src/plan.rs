//! The order of a launch. A launch runs in two parts, each a fixed list of
//! steps that depends only on how many memory regions there are and on two
//! switches: whether register state is encrypted, and whether the launch is
//! attested to a key broker.

use vstd::prelude::*;

verus! {

/// One step of a launch. Each but `Attest` and `FetchKey`, which talk to the
/// key broker, is one command to the hypervisor.
#[derive(Clone, Copy, Debug, PartialEq, Eq, Structural)]
pub enum Step {
    /// Platform initialisation.
    Init,
    /// Registration of a guest memory region as encrypted, by its index.
    Region(usize),
    LaunchStart,
    /// Encryption of a measured region in place, by its index.
    UpdateData(usize),
    UpdateVmsa,
    Measure,
    /// The measurement goes to the key broker.
    Attest,
    /// The secret comes from the key broker.
    FetchKey,
    InjectSecret,
    Finish,
}

/// How far a launch has come.
#[derive(Clone, Copy, Debug, PartialEq, Eq, Structural)]
pub enum LaunchState {
    Created,
    Initialized,
    Started,
    DataLoaded,
    VmsaUpdated,
    Measured,
    SecretInjected,
    Finished,
    /// A step failed. The launch cannot be resumed.
    Failed,
}

/// The steps of preparation for `regions` memory regions: initialise, register
/// every region, start the launch.
#[verifier::opaque]
pub open spec fn prepare_plan(regions: nat) -> Seq<Step> {
    seq![Step::Init] + Seq::new(regions, |i: int| Step::Region(i as usize)) + seq![
        Step::LaunchStart,
    ]
}

/// The steps that follow the measurement.
pub open spec fn closing_plan(attested: bool) -> Seq<Step> {
    if attested {
        seq![Step::Attest, Step::FetchKey, Step::InjectSecret, Step::Finish]
    } else {
        seq![Step::Finish]
    }
}

/// The steps of attestation for `regions` measured regions: encrypt every
/// region, then the register state if it is to be encrypted, measure, exchange
/// the measurement for a secret if the launch is attested, finish.
#[verifier::opaque]
pub open spec fn attest_plan(regions: nat, encrypted_state: bool, attested: bool) -> Seq<Step> {
    Seq::new(regions, |i: int| Step::UpdateData(i as usize)) + (if encrypted_state {
        seq![Step::UpdateVmsa]
    } else {
        seq![]
    }) + seq![Step::Measure] + closing_plan(attested)
}

/// How often `step` stands in `steps`.
pub open spec fn count(steps: Seq<Step>, step: Step) -> nat
    decreases steps.len(),
{
    if steps.len() == 0 {
        0
    } else {
        count(steps.drop_last(), step) + (if steps.last() == step {
            1nat
        } else {
            0nat
        })
    }
}

/// The count over two lists joined is the sum of the counts.
pub proof fn lemma_count_concat(a: Seq<Step>, b: Seq<Step>, step: Step)
    ensures
        count(a + b, step) == count(a, step) + count(b, step),
    decreases b.len(),
{
    if b.len() == 0 {
        assert(a + b =~= a);
    } else {
        assert((a + b).drop_last() =~= a + b.drop_last());
        assert((a + b).last() == b.last());
        lemma_count_concat(a, b.drop_last(), step);
    }
}

/// A step that no element equals does not count.
pub proof fn lemma_count_absent(steps: Seq<Step>, step: Step)
    requires
        forall|i: int| 0 <= i < steps.len() ==> steps[i] != step,
    ensures
        count(steps, step) == 0,
    decreases steps.len(),
{
    if steps.len() > 0 {
        lemma_count_absent(steps.drop_last(), step);
    }
}

/// The step at `index` of the preparation.
pub fn prepare_step(regions: usize, index: usize) -> (r: Step)
    requires
        index < regions + 2,
    ensures
        r == prepare_plan(regions as nat)[index as int],
        r matches Step::Region(i) ==> i < regions,
        !(r is UpdateData),
{
    reveal(prepare_plan);
    if index == 0 {
        Step::Init
    } else if index <= regions {
        Step::Region(index - 1)
    } else {
        Step::LaunchStart
    }
}

/// The number of steps of an attestation.
pub open spec fn attest_len(regions: nat, encrypted_state: bool, attested: bool) -> nat {
    regions + (if encrypted_state {
        1nat
    } else {
        0nat
    }) + 1 + (if attested {
        4nat
    } else {
        1nat
    })
}

/// The lengths of the two plans.
pub proof fn lemma_attest_len(regions: nat, encrypted_state: bool, attested: bool)
    ensures
        attest_plan(regions, encrypted_state, attested).len() == attest_len(
            regions,
            encrypted_state,
            attested,
        ),
        prepare_plan(regions).len() == regions + 2,
{
    reveal(prepare_plan);
    reveal(attest_plan);
}

/// The step at `index` of the attestation.
pub fn attest_step(regions: usize, encrypted_state: bool, attested: bool, index: usize) -> (r:
    Step)
    requires
        index < attest_len(regions as nat, encrypted_state, attested),
    ensures
        r == attest_plan(regions as nat, encrypted_state, attested)[index as int],
        r matches Step::UpdateData(i) ==> i < regions,
        !(r is Region),
        index == 0 ==> r is UpdateData || r is UpdateVmsa || r is Measure,
{
    reveal(attest_plan);
    if index < regions {
        Step::UpdateData(index)
    } else {
        let past = index - regions;
        let past = if encrypted_state {
            if past == 0 {
                return Step::UpdateVmsa;
            }
            past - 1
        } else {
            past
        };
        if past == 0 {
            Step::Measure
        } else if !attested {
            Step::Finish
        } else if past == 1 {
            Step::Attest
        } else if past == 2 {
            Step::FetchKey
        } else if past == 3 {
            Step::InjectSecret
        } else {
            Step::Finish
        }
    }
}

/// `next` may stand directly behind `done` in a plan.
pub open spec fn may_follow(done: Step, next: Step, attested: bool) -> bool {
    match done {
        Step::Init | Step::Region(_) => next is Region || next is LaunchStart,
        Step::UpdateData(_) => next is UpdateData || next is UpdateVmsa || next is Measure,
        Step::UpdateVmsa => next is Measure,
        Step::Measure => if attested {
            next is Attest
        } else {
            next is Finish
        },
        Step::Attest => next is FetchKey,
        Step::FetchKey => next is InjectSecret,
        Step::InjectSecret => next is Finish,
        Step::LaunchStart | Step::Finish => false,
    }
}

/// Each step of the preparation may follow the one before it.
pub proof fn lemma_prepare_order(regions: nat, index: int)
    requires
        0 <= index,
        index + 1 < regions + 2,
    ensures
        may_follow(prepare_plan(regions)[index], prepare_plan(regions)[index + 1], false),
        may_follow(prepare_plan(regions)[index], prepare_plan(regions)[index + 1], true),
{
    reveal(prepare_plan);
}

/// Each step of the attestation may follow the one before it.
pub proof fn lemma_attest_order(regions: nat, encrypted_state: bool, attested: bool, index: int)
    requires
        0 <= index,
        index + 1 < attest_len(regions, encrypted_state, attested),
    ensures
        may_follow(
            attest_plan(regions, encrypted_state, attested)[index],
            attest_plan(regions, encrypted_state, attested)[index + 1],
            attested,
        ),
{
    reveal(attest_plan);
}

/// The preparation begins with the initialisation and ends with the start of
/// the launch, which stands nowhere else in a launch.
pub proof fn lemma_launch_start(regions: nat, measured: nat, encrypted_state: bool, attested: bool)
    ensures
        prepare_plan(regions)[0] == Step::Init,
        forall|i: int|
            0 <= i < regions + 2 ==> (#[trigger] prepare_plan(regions)[i] == Step::LaunchStart
                <==> i == regions + 1),
        forall|i: int|
            0 <= i < attest_len(measured, encrypted_state, attested) ==> #[trigger] attest_plan(
                measured,
                encrypted_state,
                attested,
            )[i] != Step::LaunchStart,
{
    reveal(prepare_plan);
    reveal(attest_plan);
}

/// The steps of a whole launch.
pub open spec fn launch_plan(
    regions: nat,
    measured: nat,
    encrypted_state: bool,
    attested: bool,
) -> Seq<Step> {
    prepare_plan(regions) + attest_plan(measured, encrypted_state, attested)
}

/// A list of one step holds that step once and no other.
pub proof fn lemma_count_one(step: Step, other: Step)
    ensures
        count(seq![step], other) == (if step == other {
            1nat
        } else {
            0nat
        }),
{
    assert(seq![step].drop_last() =~= Seq::<Step>::empty());
    assert(count(Seq::<Step>::empty(), other) == 0);
}

/// The beginning of a list holds a step no more often than the list does.
pub proof fn lemma_count_take(steps: Seq<Step>, upto: int, step: Step)
    requires
        0 <= upto <= steps.len(),
    ensures
        count(steps.take(upto), step) <= count(steps, step),
    decreases steps.len() - upto,
{
    if upto == steps.len() {
        assert(steps.take(upto) =~= steps);
    } else {
        lemma_count_take(steps, upto + 1, step);
        assert(steps.take(upto + 1).drop_last() =~= steps.take(upto));
    }
}

/// A whole launch starts once, measures once and finishes once, at its end.
/// It encrypts the register state once if that is asked for, and else never.
/// It encrypts each measured region once, and talks to the key broker only
/// when it is attested.
pub proof fn lemma_launch_counts(
    regions: nat,
    measured: nat,
    encrypted_state: bool,
    attested: bool,
)
    ensures
        count(launch_plan(regions, measured, encrypted_state, attested), Step::Init) == 1,
        count(launch_plan(regions, measured, encrypted_state, attested), Step::LaunchStart) == 1,
        count(launch_plan(regions, measured, encrypted_state, attested), Step::Measure) == 1,
        count(launch_plan(regions, measured, encrypted_state, attested), Step::Finish) == 1,
        count(launch_plan(regions, measured, encrypted_state, attested), Step::UpdateVmsa) == (
        if encrypted_state {
            1nat
        } else {
            0nat
        }),
        count(launch_plan(regions, measured, encrypted_state, attested), Step::Attest) == (
        if attested {
            1nat
        } else {
            0nat
        }),
        count(launch_plan(regions, measured, encrypted_state, attested), Step::FetchKey) == (
        if attested {
            1nat
        } else {
            0nat
        }),
        count(launch_plan(regions, measured, encrypted_state, attested), Step::InjectSecret) == (
        if attested {
            1nat
        } else {
            0nat
        }),
        launch_plan(regions, measured, encrypted_state, attested).last() == Step::Finish,
{
    reveal(prepare_plan);
    reveal(attest_plan);
    lemma_counts_of(regions, measured, encrypted_state, attested, Step::Init);
    lemma_counts_of(regions, measured, encrypted_state, attested, Step::LaunchStart);
    lemma_counts_of(regions, measured, encrypted_state, attested, Step::Measure);
    lemma_counts_of(regions, measured, encrypted_state, attested, Step::Finish);
    lemma_counts_of(regions, measured, encrypted_state, attested, Step::UpdateVmsa);
    lemma_counts_of(regions, measured, encrypted_state, attested, Step::Attest);
    lemma_counts_of(regions, measured, encrypted_state, attested, Step::FetchKey);
    lemma_counts_of(regions, measured, encrypted_state, attested, Step::InjectSecret);
}

/// How often a step that names no region stands in a whole launch.
pub open spec fn times(step: Step, encrypted_state: bool, attested: bool) -> nat {
    match step {
        Step::Init | Step::LaunchStart | Step::Measure | Step::Finish => 1,
        Step::UpdateVmsa => if encrypted_state {
            1
        } else {
            0
        },
        Step::Attest | Step::FetchKey | Step::InjectSecret => if attested {
            1
        } else {
            0
        },
        Step::Region(_) | Step::UpdateData(_) => 0,
    }
}

proof fn lemma_counts_of(
    regions: nat,
    measured: nat,
    encrypted_state: bool,
    attested: bool,
    step: Step,
)
    requires
        !(step is Region),
        !(step is UpdateData),
    ensures
        count(launch_plan(regions, measured, encrypted_state, attested), step) == times(
            step,
            encrypted_state,
            attested,
        ),
{
    reveal(prepare_plan);
    reveal(attest_plan);
    let registered = Seq::new(regions, |i: int| Step::Region(i as usize));
    let updated = Seq::new(measured, |i: int| Step::UpdateData(i as usize));
    let vmsa = if encrypted_state {
        seq![Step::UpdateVmsa]
    } else {
        seq![]
    };
    let closing = closing_plan(attested);
    lemma_count_absent(registered, step);
    lemma_count_absent(updated, step);
    lemma_count_one(Step::Init, step);
    lemma_count_one(Step::LaunchStart, step);
    lemma_count_one(Step::Measure, step);
    lemma_count_one(Step::UpdateVmsa, step);
    lemma_count_one(Step::Attest, step);
    lemma_count_one(Step::FetchKey, step);
    lemma_count_one(Step::InjectSecret, step);
    lemma_count_one(Step::Finish, step);
    assert(count(Seq::<Step>::empty(), step) == 0);
    if attested {
        assert(closing =~= seq![Step::Attest] + seq![Step::FetchKey] + seq![Step::InjectSecret]
            + seq![Step::Finish]);
        lemma_count_concat(seq![Step::Attest], seq![Step::FetchKey], step);
        lemma_count_concat(
            seq![Step::Attest] + seq![Step::FetchKey],
            seq![Step::InjectSecret],
            step,
        );
        lemma_count_concat(
            seq![Step::Attest] + seq![Step::FetchKey] + seq![Step::InjectSecret],
            seq![Step::Finish],
            step,
        );
    }
    lemma_count_concat(seq![Step::Init], registered, step);
    lemma_count_concat(seq![Step::Init] + registered, seq![Step::LaunchStart], step);
    lemma_count_concat(updated, vmsa, step);
    lemma_count_concat(updated + vmsa, seq![Step::Measure], step);
    lemma_count_concat(updated + vmsa + seq![Step::Measure], closing, step);
    lemma_count_concat(
        prepare_plan(regions),
        attest_plan(measured, encrypted_state, attested),
        step,
    );
}

/// The step belongs to the preparation.
pub open spec fn prepares(step: Step) -> bool {
    step is Init || step is Region || step is LaunchStart
}

/// The preparation holds only steps of preparation and the attestation none.
/// The attestation finishes at its end and nowhere else.
pub proof fn lemma_places(regions: nat, measured: nat, encrypted_state: bool, attested: bool)
    ensures
        forall|i: int| 0 <= i < regions + 2 ==> prepares(#[trigger] prepare_plan(regions)[i]),
        forall|i: int|
            0 <= i < attest_len(measured, encrypted_state, attested) ==> !prepares(
                #[trigger] attest_plan(measured, encrypted_state, attested)[i],
            ),
        forall|i: int|
            0 <= i < attest_len(measured, encrypted_state, attested) ==> (#[trigger] attest_plan(
                measured,
                encrypted_state,
                attested,
            )[i] == Step::Finish <==> i == attest_len(measured, encrypted_state, attested) - 1),
{
    reveal(prepare_plan);
    reveal(attest_plan);
}

/// The place of a step in the order of a launch.
pub open spec fn rank(step: Step) -> int {
    match step {
        Step::Init => 0,
        Step::Region(_) => 1,
        Step::LaunchStart => 2,
        Step::UpdateData(_) => 3,
        Step::UpdateVmsa => 4,
        Step::Measure => 5,
        Step::Attest => 6,
        Step::FetchKey => 7,
        Step::InjectSecret => 8,
        Step::Finish => 9,
    }
}

/// A launch takes its steps in the order of their ranks; only the steps that
/// name a region share a rank.
pub proof fn lemma_plan_is_ordered(
    regions: nat,
    measured: nat,
    encrypted_state: bool,
    attested: bool,
    i: int,
    j: int,
)
    requires
        0 <= i < j < launch_plan(regions, measured, encrypted_state, attested).len(),
    ensures
        rank(launch_plan(regions, measured, encrypted_state, attested)[i]) <= rank(
            launch_plan(regions, measured, encrypted_state, attested)[j],
        ),
        rank(launch_plan(regions, measured, encrypted_state, attested)[i]) == rank(
            launch_plan(regions, measured, encrypted_state, attested)[j],
        ) ==> launch_plan(regions, measured, encrypted_state, attested)[i] is Region
            || launch_plan(regions, measured, encrypted_state, attested)[i] is UpdateData,
{
    reveal(prepare_plan);
    reveal(attest_plan);
}

} // verus!
