use dory::builder::Entry;
use dory::messages::{FirstReduceMessage, ScalarProductMessage, SecondReduceMessage};
use dory::replay::ReplayBuilder;
use dory::residue::Residue;
use dory::ProofBuilder;

type Z7 = Residue<7>;

type Builder = ReplayBuilder<Z7, Z7, Z7, Z7>;

fn z(n: u64) -> Z7 {
    Z7::new(n)
}

fn first(n: u64) -> FirstReduceMessage<Z7, Z7, Z7> {
    FirstReduceMessage { d1l: z(n), d1r: z(1), d2l: z(2), d2r: z(3), e1_beta: z(4), e2_beta: z(5) }
}

fn second(n: u64) -> SecondReduceMessage<Z7, Z7, Z7> {
    SecondReduceMessage {
        c_plus: z(n),
        c_minus: z(1),
        e1_plus: z(2),
        e1_minus: z(3),
        e2_plus: z(4),
        e2_minus: z(5),
    }
}

#[test]
fn a_new_builder_has_an_empty_transcript() {
    let builder = Builder::new(vec![z(3)]).unwrap();
    assert!(builder.entries().is_empty());
}

#[test]
fn an_empty_script_is_refused() {
    assert!(Builder::new(Vec::new()).is_none());
}

#[test]
fn a_script_with_a_zero_is_refused() {
    assert!(Builder::new(vec![z(0)]).is_none());
    assert!(Builder::new(vec![z(1), z(2), z(7)]).is_none());
    assert!(Builder::new(vec![z(1), z(2), z(6)]).is_some());
}

#[test]
fn appends_and_draws_are_recorded_in_order() {
    let builder = Builder::new(vec![z(2), z(3), z(5)]).unwrap();
    let (beta, builder) = builder.append_first_reduce_message(first(6));
    assert_eq!(beta.beta, z(2));
    let (alpha, builder) = builder.append_second_reduce_message(second(6));
    assert_eq!(alpha.alpha, z(3));
    let (gamma, builder) = builder.challenge_fold_scalars();
    assert_eq!(gamma.gamma, z(5));
    let builder = builder.append_scalar_product_message(ScalarProductMessage { e1: z(1), e2: z(2) });
    let expected = vec![
        Entry::FirstReduce(first(6)),
        Entry::Challenge(z(2)),
        Entry::SecondReduce(second(6)),
        Entry::Challenge(z(3)),
        Entry::Challenge(z(5)),
        Entry::ScalarProduct(ScalarProductMessage { e1: z(1), e2: z(2) }),
    ];
    assert_eq!(builder.entries(), &expected);
}

#[test]
fn the_script_starts_over_when_used_up() {
    let builder = Builder::new(vec![z(4), z(6)]).unwrap();
    let (c, builder) = builder.challenge_fold_scalars();
    assert_eq!(c.gamma, z(4));
    let (c, builder) = builder.challenge_fold_scalars();
    assert_eq!(c.gamma, z(6));
    let (c, builder) = builder.append_first_reduce_message(first(0));
    assert_eq!(c.beta, z(4));
    let (c, builder) = builder.append_second_reduce_message(second(0));
    assert_eq!(c.alpha, z(6));
    let (c, _) = builder.challenge_fold_scalars();
    assert_eq!(c.gamma, z(4));
}

#[test]
fn the_challenge_does_not_depend_on_the_message() {
    let (a, _) = Builder::new(vec![z(4), z(6)]).unwrap().append_first_reduce_message(first(1));
    let (b, _) = Builder::new(vec![z(4), z(6)]).unwrap().append_first_reduce_message(first(2));
    assert_eq!(a, b);
}

#[test]
fn the_last_message_draws_no_challenge() {
    let builder = Builder::new(vec![z(4)]).unwrap();
    let builder = builder.append_scalar_product_message(ScalarProductMessage { e1: z(1), e2: z(2) });
    assert_eq!(builder.entries().len(), 1);
    let (c, _) = builder.challenge_fold_scalars();
    assert_eq!(c.gamma, z(4));
}
