use dory::builder::Entry;
use dory::messages::{FirstReduceMessage, ScalarProductMessage, SecondReduceMessage};
use dory::replay::ReplayBuilder;
use dory::residue::Residue;
use dory::setup::Generators;
use dory::vector_state::VectorState;
use dory::inner_product_prove;

const P: u64 = 101;

type Z = Residue<P>;

type Proof = Vec<Entry<Z, Z, Z, Z>>;

fn z(n: u64) -> Z {
    Z::new(n)
}

fn zs(ns: &[u64]) -> Vec<Z> {
    ns.iter().map(|n| z(*n)).collect()
}

/// Some numbers below `P`, different for each `seed`.
fn numbers(seed: u64, len: usize) -> Vec<u64> {
    (0..len as u64).map(|i| (seed * 37 + i * i * 11 + i * 5 + 1) % P).collect()
}

fn run(num_rounds: usize, script: &[u64]) -> Proof {
    let len = 1usize << num_rounds;
    let setup = Generators {
        gamma1: zs(&numbers(1, len)),
        gamma2: zs(&numbers(2, len)),
        h1: z(7),
        h2: z(9),
    };
    let state = VectorState::new(
        zs(&numbers(3, len)),
        zs(&numbers(4, len)),
        zs(&numbers(5, len)),
        zs(&numbers(6, len)),
    ).unwrap();
    let builder = ReplayBuilder::new(zs(script)).unwrap();
    let proof = inner_product_prove(builder, state, &setup, num_rounds);
    let mut entries = Vec::new();
    for entry in proof.entries() {
        entries.push(match entry {
            Entry::FirstReduce(m) => Entry::FirstReduce(FirstReduceMessage {
                d1l: m.d1l,
                d1r: m.d1r,
                d2l: m.d2l,
                d2r: m.d2r,
                e1_beta: m.e1_beta,
                e2_beta: m.e2_beta,
            }),
            Entry::SecondReduce(m) => Entry::SecondReduce(SecondReduceMessage {
                c_plus: m.c_plus,
                c_minus: m.c_minus,
                e1_plus: m.e1_plus,
                e1_minus: m.e1_minus,
                e2_plus: m.e2_plus,
                e2_minus: m.e2_minus,
            }),
            Entry::ScalarProduct(m) => {
                Entry::ScalarProduct(ScalarProductMessage { e1: m.e1, e2: m.e2 })
            },
            Entry::Challenge(c) => Entry::Challenge(*c),
        });
    }
    entries
}

fn power(base: u64, exponent: u64) -> u64 {
    let mut result = 1;
    for _ in 0..exponent {
        result = result * base % P;
    }
    result
}

fn inverse(n: u64) -> u64 {
    power(n, P - 2)
}

fn dot(a: &[u64], b: &[u64]) -> u64 {
    assert_eq!(a.len(), b.len());
    a.iter().zip(b).fold(0, |sum, (x, y)| (sum + x * y) % P)
}

/// The run written out over plain numbers, with the formulas of the rounds
/// applied to whole vectors.
fn expected(num_rounds: usize, script: &[u64]) -> Proof {
    let len = 1usize << num_rounds;
    let gamma1 = numbers(1, len);
    let gamma2 = numbers(2, len);
    let (h1, h2) = (7, 9);
    let mut v1 = numbers(3, len);
    let mut v2 = numbers(4, len);
    let mut s1 = numbers(5, len);
    let mut s2 = numbers(6, len);
    let mut challenges = script.iter().cycle();
    let mut entries = Vec::new();
    for _ in 0..num_rounds {
        let n = v1.len();
        let h = n / 2;
        entries.push(Entry::FirstReduce(FirstReduceMessage {
            d1l: z(dot(&v1[..h], &gamma2[..h])),
            d1r: z(dot(&v1[h..], &gamma2[..h])),
            d2l: z(dot(&gamma1[..h], &v2[..h])),
            d2r: z(dot(&gamma1[..h], &v2[h..])),
            e1_beta: z(dot(&gamma1[..n], &s2)),
            e2_beta: z(dot(&s1, &gamma2[..n])),
        }));
        let beta = *challenges.next().unwrap();
        entries.push(Entry::Challenge(z(beta)));
        for i in 0..n {
            v1[i] = (v1[i] + beta * gamma1[i]) % P;
            v2[i] = (v2[i] + inverse(beta) * gamma2[i]) % P;
        }
        entries.push(Entry::SecondReduce(SecondReduceMessage {
            c_plus: z(dot(&v1[..h], &v2[h..])),
            c_minus: z(dot(&v1[h..], &v2[..h])),
            e1_plus: z(dot(&v1[..h], &s2[h..])),
            e1_minus: z(dot(&v1[h..], &s2[..h])),
            e2_plus: z(dot(&s1[..h], &v2[h..])),
            e2_minus: z(dot(&s1[h..], &v2[..h])),
        }));
        let alpha = *challenges.next().unwrap();
        entries.push(Entry::Challenge(z(alpha)));
        v1 = (0..h).map(|i| (alpha * v1[i] + v1[i + h]) % P).collect();
        v2 = (0..h).map(|i| (inverse(alpha) * v2[i] + v2[i + h]) % P).collect();
        s1 = (0..h).map(|i| (alpha * s1[i] + s1[i + h]) % P).collect();
        s2 = (0..h).map(|i| (inverse(alpha) * s2[i] + s2[i + h]) % P).collect();
    }
    assert_eq!(v1.len(), 1);
    let gamma = *challenges.next().unwrap();
    entries.push(Entry::Challenge(z(gamma)));
    entries.push(Entry::ScalarProduct(ScalarProductMessage {
        e1: z(v1[0] + gamma * s1[0] % P * h1),
        e2: z(v2[0] + inverse(gamma) * s2[0] % P * h2),
    }));
    entries
}

fn messages(proof: &Proof) -> usize {
    proof.iter().filter(|entry| !matches!(entry, Entry::Challenge(_))).count()
}

fn challenges(proof: &Proof) -> usize {
    proof.iter().filter(|entry| matches!(entry, Entry::Challenge(_))).count()
}

#[test]
fn a_run_appends_and_draws_two_per_round_and_one() {
    for num_rounds in 0..6 {
        let proof = run(num_rounds, &[2, 3, 5, 7]);
        assert_eq!(proof.len(), 4 * num_rounds + 2);
        assert_eq!(messages(&proof), 2 * num_rounds + 1);
        assert_eq!(challenges(&proof), 2 * num_rounds + 1);
    }
}

#[test]
fn messages_and_challenges_alternate_in_a_fixed_order() {
    let proof = run(3, &[2, 3, 5, 7]);
    for round in 0..3 {
        assert!(matches!(proof[4 * round], Entry::FirstReduce(_)));
        assert!(matches!(proof[4 * round + 1], Entry::Challenge(_)));
        assert!(matches!(proof[4 * round + 2], Entry::SecondReduce(_)));
        assert!(matches!(proof[4 * round + 3], Entry::Challenge(_)));
    }
    assert!(matches!(proof[12], Entry::Challenge(_)));
    assert!(matches!(proof[13], Entry::ScalarProduct(_)));
}

#[test]
fn two_runs_on_the_same_inputs_give_the_same_proof() {
    for num_rounds in 0..5 {
        assert_eq!(run(num_rounds, &[10, 20, 30]), run(num_rounds, &[10, 20, 30]));
    }
}

#[test]
fn other_challenges_give_another_proof() {
    assert_ne!(run(2, &[10, 20, 30]), run(2, &[10, 20, 31]));
}

#[test]
fn a_run_of_no_rounds_draws_gamma_and_appends_the_last_message() {
    let proof = run(0, &[5, 6]);
    // vectors of length one: v1 = 11, v2 = 48, s1 = 85, s2 = 21 (mod 101);
    // the inverse of 5 modulo 101 is 81
    assert_eq!(numbers(3, 1), vec![11]);
    assert_eq!(numbers(4, 1), vec![48]);
    assert_eq!(numbers(5, 1), vec![85]);
    assert_eq!(numbers(6, 1), vec![21]);
    let expected = vec![
        Entry::Challenge(z(5)),
        // 11 + (5 * 85) * 7 = 2986 = 57, 48 + (81 * 21) * 9 = 15357 = 5
        Entry::ScalarProduct(ScalarProductMessage { e1: z(57), e2: z(5) }),
    ];
    assert_eq!(proof, expected);
}

#[test]
fn a_run_agrees_with_the_formulas_over_plain_numbers() {
    for num_rounds in 0..6 {
        let script = [3, 14, 15, 92, 65];
        assert_eq!(run(num_rounds, &script), expected(num_rounds, &script));
    }
}
