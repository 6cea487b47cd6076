use dory::builder::Entry;
use dory::messages::{
    FirstReduceChallenge, FirstReduceMessage, FoldScalarsChallenge, ScalarProductMessage,
    SecondReduceChallenge, SecondReduceMessage,
};
use dory::replay::ReplayBuilder;
use dory::residue::Residue;
use dory::setup::Generators;
use dory::state::Phase;
use dory::vector_state::VectorState;
use dory::{inner_product_prove, ProverState};

type Z7 = Residue<7>;

fn z(n: u64) -> Z7 {
    Z7::new(n)
}

fn zs(ns: &[u64]) -> Vec<Z7> {
    ns.iter().map(|n| z(*n)).collect()
}

fn values(rs: &Vec<Z7>) -> Vec<u64> {
    rs.iter().map(|r| r.value()).collect()
}

fn setup() -> Generators<Z7, Z7> {
    Generators { gamma1: zs(&[1, 1]), gamma2: zs(&[1, 1]), h1: z(1), h2: z(1) }
}

fn state() -> VectorState<Z7, Z7, Z7> {
    VectorState::new(zs(&[2, 3]), zs(&[4, 5]), zs(&[1, 1]), zs(&[1, 1])).unwrap()
}

fn first_message() -> FirstReduceMessage<Z7, Z7, Z7> {
    FirstReduceMessage { d1l: z(2), d1r: z(3), d2l: z(4), d2r: z(5), e1_beta: z(2), e2_beta: z(2) }
}

fn second_message() -> SecondReduceMessage<Z7, Z7, Z7> {
    SecondReduceMessage {
        c_plus: z(1),
        c_minus: z(5),
        e1_plus: z(4),
        e1_minus: z(5),
        e2_plus: z(2),
        e2_minus: z(1),
    }
}

#[test]
fn scenario_round_by_hand() {
    let setup = setup();
    let state = state();
    assert_eq!(state.current_phase(), Phase::PreCombine);
    assert_eq!(state.compute_first_reduce_message(&setup), first_message());

    let state = state.reduce_combine(&setup, FirstReduceChallenge { beta: z(2) });
    assert_eq!(state.current_phase(), Phase::PreFold);
    assert_eq!(values(state.v1()), vec![4, 5]);
    assert_eq!(values(state.v2()), vec![1, 2]);
    assert_eq!(values(state.s1()), vec![1, 1]);
    assert_eq!(values(state.s2()), vec![1, 1]);
    assert_eq!(state.compute_second_reduce_message(&setup), second_message());

    let state = state.reduce_fold(&setup, SecondReduceChallenge { alpha: z(3) });
    assert_eq!(state.current_phase(), Phase::PreCombine);
    assert_eq!(state.len(), 1);
    assert_eq!(values(state.v1()), vec![3]);
    assert_eq!(values(state.v2()), vec![0]);
    assert_eq!(values(state.s1()), vec![4]);
    assert_eq!(values(state.s2()), vec![6]);

    let last = state.compute_scalar_product_message(&setup, FoldScalarsChallenge { gamma: z(5) });
    assert_eq!(last, ScalarProductMessage { e1: z(2), e2: z(4) });
}

#[test]
fn scenario_through_the_driver() {
    let builder = ReplayBuilder::new(zs(&[2, 3, 5])).unwrap();
    let proof = inner_product_prove(builder, state(), &setup(), 1);
    let expected = vec![
        Entry::FirstReduce(first_message()),
        Entry::Challenge(z(2)),
        Entry::SecondReduce(second_message()),
        Entry::Challenge(z(3)),
        Entry::Challenge(z(5)),
        Entry::ScalarProduct(ScalarProductMessage { e1: z(2), e2: z(4) }),
    ];
    assert_eq!(proof.entries(), &expected);
}
