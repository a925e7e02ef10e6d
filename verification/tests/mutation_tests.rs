use moea_core::gatypes::BitBinary;
use moea_core::gatypes::Integer;
use moea_core::gatypes::Real;
use moea_core::gatypes::SolutionDataTypes;
use moea_core::mutation::flip;
use moea_core::mutation::mutate_by_proposal;
use moea_core::mutation::settle;
use moea_core::mutation::BitFlipMutation;
use moea_core::mutation::GaussianMutation;
use moea_core::mutation::Mutation;
use moea_core::mutation::MutationManager;
use moea_core::mutation::MutationOperator;
use moea_core::mutation::PolynomialMutation;
use moea_core::mutation::Probability;
use moea_core::mutation::UniformMutation;
use moea_core::problem::Problem;
use moea_core::solution::Solution;
use rand::rngs::StdRng;
use rand::Rng;
use rand::SeedableRng;

/// The order-keeping integer image of a real number.
fn ordinal(x: f64) -> i64 {
    let bits = x.to_bits() as i64;
    if bits < 0 {
        bits ^ i64::MAX
    } else {
        bits
    }
}

/// The real number that an ordinal stands for.
fn real_of(ordinal: i64) -> f64 {
    let bits = if ordinal < 0 { ordinal ^ i64::MAX } else { ordinal };
    f64::from_bits(bits as u64)
}

/// The value that polynomial mutation proposes for `x`, before clamping.
fn polynomial(x: f64, lower: f64, upper: f64, eta: f64, u: f64) -> f64 {
    let dx = upper - lower;
    let delta = if u < 0.5 {
        let bl = (x - lower) / dx;
        (2.0 * u + (1.0 - 2.0 * u) * (1.0 - bl).powf(eta + 1.0)).powf(1.0 / (eta + 1.0)) - 1.0
    } else {
        let bu = (upper - x) / dx;
        1.0 - (2.0 * (1.0 - u) + 2.0 * (u - 0.5) * (1.0 - bu).powf(eta + 1.0))
            .powf(1.0 / (eta + 1.0))
    };
    x + delta * dx
}

fn total(x: &Vec<i64>) -> Vec<i64> {
    vec![x.iter().sum()]
}

type Objective = fn(&Vec<i64>) -> Vec<i64>;

fn setup_problem() -> Problem<Objective> {
    Problem {
        solution_length: 5,
        number_of_objectives: 1,
        objective_constraint: Some(vec![Some(10)]),
        objective_constraint_operands: Some(vec![Some("<".to_string())]),
        direction: Some(vec![1]),
        solution_data_types: vec![
            SolutionDataTypes::BitBinary(BitBinary::new()),
            SolutionDataTypes::Integer(Integer::new(Some(-2000), Some(2000)).unwrap()),
            SolutionDataTypes::Real(Real::new(Some(ordinal(-100.0)), Some(ordinal(1000.0))).unwrap()),
            SolutionDataTypes::Real(Real::new(Some(ordinal(-100.0)), Some(ordinal(1000.0))).unwrap()),
            SolutionDataTypes::Real(Real::new(Some(ordinal(-100.0)), Some(ordinal(1000.0))).unwrap()),
        ],
        objective_function: total,
    }
}

fn setup_solution(problem: &Problem<Objective>) -> Solution<'_, Objective> {
    Solution {
        problem,
        solution: vec![1, 10, ordinal(10.0), ordinal(10.0), ordinal(10.0)],
        objective_fitness_values: Vec::with_capacity(*problem.number_of_objectives()),
        constraint_values: Vec::with_capacity(*problem.number_of_objectives()),
        constraint_violation: 0,
        feasible: false,
        evaluated: false,
    }
}

fn small_problem(types: Vec<SolutionDataTypes>) -> Problem<Objective> {
    let length = types.len();
    Problem::new(length, 1, None, None, None, types, total as Objective).unwrap()
}

#[test]
fn test_default_mutation_manager() {
    let mut rng = StdRng::seed_from_u64(21);
    let problem = setup_problem();
    let parent = setup_solution(&problem);
    let proposals: Vec<Option<i64>> = (0..5)
        .map(|_| Some(ordinal(rng.gen_range(-100.0..=1000.0))))
        .collect();
    let mutation_manager = MutationManager::new();
    let child = mutation_manager.mutate(&parent, &mut rng, &proposals);
    assert!(child.solution[0] == 0 || child.solution[0] == 1);
    assert!(child.solution[1] != parent.solution[1]);
    assert!(child.solution[2] != parent.solution[2]);
    assert!(child.solution[3] != parent.solution[3]);
    assert!(child.solution[4] != parent.solution[4]);
    assert_eq!(child.solution[2], proposals[2].unwrap());
    assert!(!child.evaluated);
    assert!(!child.feasible);
}

#[test]
fn test_bit_flip_mutation() {
    let mut rng = StdRng::seed_from_u64(22);
    let problem = setup_problem();
    let mutation = BitFlipMutation { probability: Probability::always() };
    let parent1 = setup_solution(&problem);
    let mut parent2 = setup_solution(&problem);
    parent2.solution[0] = 0;
    let child1 = mutation.mutate(&parent1, 0, &mut rng, None);
    let child2 = mutation.mutate(&parent2, 0, &mut rng, None);
    assert!(child1 == 0);
    assert!(child2 == 1);
}

#[test]
fn test_polynomial_mutation_with_integer_and_real() {
    let mut rng = StdRng::seed_from_u64(23);
    let problem = setup_problem();
    let parent = setup_solution(&problem);
    let mutation = PolynomialMutation::new(Some(Probability::always()));
    let u: f64 = 0.25;
    let for_integer = Some(polynomial(10.0, -2000.0, 2000.0, 20.0, u).round() as i64);
    let for_real = Some(ordinal(polynomial(10.0, -100.0, 1000.0, 20.0, u)));
    let child_solution_0 = Mutation::mutate(&mutation, &parent, 1, &mut rng, for_integer);
    let child_solution_1 = real_of(Mutation::mutate(&mutation, &parent, 2, &mut rng, for_real));
    let child_solution_2 = real_of(Mutation::mutate(&mutation, &parent, 3, &mut rng, for_real));
    let child_solution_3 = real_of(Mutation::mutate(&mutation, &parent, 4, &mut rng, for_real));
    assert!(child_solution_0 >= -2000 && child_solution_0 <= 2000);
    assert!(child_solution_1 >= -100.0 && child_solution_1 <= 1000.0);
    assert!(child_solution_2 >= -100.0 && child_solution_2 <= 1000.0);
    assert!(child_solution_3 >= -100.0 && child_solution_3 <= 1000.0);
    assert!(child_solution_0 != parent.solution[1]);
    assert!(child_solution_1 != real_of(parent.solution[2]));
    assert!(child_solution_2 != real_of(parent.solution[3]));
    assert!(child_solution_3 != real_of(parent.solution[4]));
}

#[test]
fn test_uniform_mutation_with_integer_and_real() {
    let mut rng = StdRng::seed_from_u64(24);
    let problem = setup_problem();
    let parent = setup_solution(&problem);
    let mutation = UniformMutation::default();
    let draw = |rng: &mut StdRng| Some(ordinal(rng.gen_range(-100.0..=1000.0)));
    let child_solution_0 = mutation.mutate(&parent, 1, &mut rng, None);
    let proposal = draw(&mut rng);
    let child_solution_1 = real_of(mutation.mutate(&parent, 2, &mut rng, proposal));
    let proposal = draw(&mut rng);
    let child_solution_2 = real_of(mutation.mutate(&parent, 3, &mut rng, proposal));
    let proposal = draw(&mut rng);
    let child_solution_3 = real_of(mutation.mutate(&parent, 4, &mut rng, proposal));
    assert!(child_solution_0 >= -2000 && child_solution_0 <= 2000);
    assert!(child_solution_1 >= -100.0 && child_solution_1 <= 1000.0);
    assert!(child_solution_2 >= -100.0 && child_solution_2 <= 1000.0);
    assert!(child_solution_3 >= -100.0 && child_solution_3 <= 1000.0);
    assert!(child_solution_0 != parent.solution[1]);
    assert!(child_solution_1 != real_of(parent.solution[2]));
    assert!(child_solution_2 != real_of(parent.solution[3]));
    assert!(child_solution_3 != real_of(parent.solution[4]));
}

#[test]
fn test_gaussian_mutation_with_integer_and_real() {
    let mut rng = StdRng::seed_from_u64(25);
    let problem = setup_problem();
    let parent = setup_solution(&problem);
    let mutation = GaussianMutation::new(Some(Probability::always()));
    let noise: f64 = 0.73 * 0.1;
    let for_integer = Some((10.0_f64 + 10.0 * noise).round() as i64);
    let for_real = Some(ordinal(10.0 + noise));
    let child_solution_0 = Mutation::mutate(&mutation, &parent, 1, &mut rng, for_integer);
    let child_solution_1 = real_of(Mutation::mutate(&mutation, &parent, 2, &mut rng, for_real));
    let child_solution_2 = real_of(Mutation::mutate(&mutation, &parent, 3, &mut rng, for_real));
    let child_solution_3 = real_of(Mutation::mutate(&mutation, &parent, 4, &mut rng, for_real));
    assert!(child_solution_0 >= -2000 && child_solution_0 <= 2000);
    assert!(child_solution_1 >= -100.0 && child_solution_1 <= 1000.0);
    assert!(child_solution_2 >= -100.0 && child_solution_2 <= 1000.0);
    assert!(child_solution_3 >= -100.0 && child_solution_3 <= 1000.0);
    assert!(child_solution_0 != parent.solution[1]);
    assert!(child_solution_1 != real_of(parent.solution[2]));
    assert!(child_solution_2 != real_of(parent.solution[3]));
    assert!(child_solution_3 != real_of(parent.solution[4]));
    assert_eq!(child_solution_1, 10.073);
}

#[test]
fn test_polynomial_mutation() {
    let mut rng = StdRng::seed_from_u64(26);
    let problem = small_problem(vec![
        SolutionDataTypes::BitBinary(BitBinary::new()),
        SolutionDataTypes::Integer(Integer::new(Some(10), Some(20)).unwrap()),
        SolutionDataTypes::Real(Real::new(Some(ordinal(10.0)), Some(ordinal(20.0))).unwrap()),
        SolutionDataTypes::Integer(Integer::new(Some(10), Some(20)).unwrap()),
        SolutionDataTypes::Real(Real::new(Some(ordinal(10.0)), Some(ordinal(20.0))).unwrap()),
    ]);
    let draws = vec![0, 0, ordinal(12.5), 0, ordinal(17.25)];
    let solution = Solution::new(&problem, &mut rng, &draws).unwrap();
    let mutation = MutationOperator::Polynomial(PolynomialMutation::new(Some(Probability::always())));
    let proposals: Vec<Option<i64>> = (0..5)
        .map(|i| match &problem.solution_data_types[i] {
            SolutionDataTypes::Real(_) => {
                Some(ordinal(polynomial(real_of(solution.solution[i]), 10.0, 20.0, 20.0, 0.9)))
            }
            _ => None,
        })
        .collect();
    let mutated_solution = mutation.mutate_solution(&solution, &mut rng, &proposals);
    assert_ne!(solution.solution, mutated_solution.solution);
    assert_eq!(solution.solution[0], mutated_solution.solution[0]);
    assert_eq!(solution.solution[1], mutated_solution.solution[1]);
    assert_eq!(solution.solution[3], mutated_solution.solution[3]);
    assert!(real_of(mutated_solution.solution[2]) > 12.5);
    assert!(real_of(mutated_solution.solution[2]) <= 20.0);
}

#[test]
fn test_polynomial_mutation_no_change() {
    let mut rng = StdRng::seed_from_u64(27);
    let problem = small_problem(vec![
        SolutionDataTypes::BitBinary(BitBinary::new()),
        SolutionDataTypes::Integer(Integer::new(Some(10), Some(20)).unwrap()),
        SolutionDataTypes::Integer(Integer::new(Some(12), Some(20)).unwrap()),
        SolutionDataTypes::Integer(Integer::new(Some(10), Some(20)).unwrap()),
        SolutionDataTypes::Integer(Integer::new(Some(-10), Some(20)).unwrap()),
    ]);
    let solution = Solution::new(&problem, &mut rng, &vec![0; 5]).unwrap();
    let mutation = MutationOperator::Polynomial(PolynomialMutation::new(Some(Probability::never())));
    let proposals = vec![Some(1), Some(15), Some(15), Some(15), Some(15)];
    let mutated_solution = mutation.mutate_solution(&solution, &mut rng, &proposals);
    assert_eq!(solution.solution[0], mutated_solution.solution[0]);
    assert_eq!(solution.solution, mutated_solution.solution);
}

#[test]
fn test_bitflip_mutation() {
    let mut rng = StdRng::seed_from_u64(28);
    let problem = small_problem(vec![
        SolutionDataTypes::BitBinary(BitBinary::new()),
        SolutionDataTypes::BitBinary(BitBinary::new()),
        SolutionDataTypes::BitBinary(BitBinary::new()),
        SolutionDataTypes::BitBinary(BitBinary::new()),
        SolutionDataTypes::Real(Real::new(Some(ordinal(10.0)), Some(ordinal(20.0))).unwrap()),
    ]);
    let solution = Solution::new(&problem, &mut rng, &vec![0, 0, 0, 0, ordinal(11.0)]).unwrap();
    let mutation = MutationOperator::BitFlip(BitFlipMutation::new(Some(Probability::half())));
    let mutated_solution = mutation.mutate_solution(&solution, &mut rng, &vec![]);
    for i in 0..4 {
        assert!(mutated_solution.solution[i] == 0 || mutated_solution.solution[i] == 1);
    }
    assert_eq!(mutated_solution.solution[4], solution.solution[4]);
}

#[test]
fn test_polynomial_mutation_applies_changes() {
    let mut rng = StdRng::seed_from_u64(29);
    let problem = small_problem(vec![
        SolutionDataTypes::Real(Real::new(Some(ordinal(10.0)), Some(ordinal(20.0))).unwrap()),
        SolutionDataTypes::Real(Real::new(Some(ordinal(0.0)), Some(ordinal(50.0))).unwrap()),
    ]);
    let solution = Solution::new(&problem, &mut rng, &vec![ordinal(14.0), ordinal(31.0)]).unwrap();
    let mutation = MutationOperator::Polynomial(PolynomialMutation::new(Some(Probability::always())));
    let proposals = vec![
        Some(ordinal(polynomial(14.0, 10.0, 20.0, 20.0, 0.1))),
        Some(ordinal(polynomial(31.0, 0.0, 50.0, 20.0, 0.8))),
    ];
    let mutated_solution = mutation.mutate_solution(&solution, &mut rng, &proposals);
    assert_ne!(solution.solution, mutated_solution.solution);
    assert!(real_of(mutated_solution.solution[0]) < 14.0);
    assert!(real_of(mutated_solution.solution[1]) > 31.0);
}

#[test]
fn test_polynomial_mutation_respects_bounds() {
    let mut rng = StdRng::seed_from_u64(30);
    let problem = small_problem(vec![SolutionDataTypes::Real(
        Real::new(Some(ordinal(0.0)), Some(ordinal(10.0))).unwrap(),
    )]);
    let solution = Solution::new(&problem, &mut rng, &vec![ordinal(9.5)]).unwrap();
    let mutation = MutationOperator::Polynomial(PolynomialMutation::new(Some(Probability::always())));
    for proposal in [-3.0, 0.0, 4.5, 10.0, 10.000001, 1.0e9] {
        let mutated = mutation.mutate_solution(&solution, &mut rng, &vec![Some(ordinal(proposal))]);
        let mutated_value = real_of(mutated.solution[0]);
        assert!(mutated_value >= 0.0 && mutated_value <= 10.0);
        assert_eq!(mutated_value, proposal.clamp(0.0, 10.0));
    }
}

#[test]
fn test_bitflip_mutation_applies_changes() {
    let mut rng = StdRng::seed_from_u64(31);
    let problem = small_problem(vec![
        SolutionDataTypes::BitBinary(BitBinary::new()),
        SolutionDataTypes::BitBinary(BitBinary::new()),
    ]);
    let solution = Solution::new(&problem, &mut rng, &vec![0, 0]).unwrap();
    let mutation = MutationOperator::BitFlip(BitFlipMutation::new(None));
    let mutated_solution = mutation.mutate_solution(&solution, &mut rng, &vec![]);
    assert_ne!(solution.solution, mutated_solution.solution);
    assert_eq!(mutated_solution.solution[0], 1 - solution.solution[0]);
    assert_eq!(mutated_solution.solution[1], 1 - solution.solution[1]);
}

#[test]
fn test_bitflip_mutation_respects_bit_values() {
    let mut rng = StdRng::seed_from_u64(32);
    let problem = small_problem(vec![SolutionDataTypes::BitBinary(BitBinary::new())]);
    let solution = Solution::new(&problem, &mut rng, &vec![0]).unwrap();
    let mutation = MutationOperator::BitFlip(BitFlipMutation::new(Some(Probability::always())));
    let mutated_solution = mutation.mutate_solution(&solution, &mut rng, &vec![]);
    let mutated_value = mutated_solution.solution[0];
    assert!(mutated_value == 0 || mutated_value == 1);
}

#[test]
fn test_mutation_evolve_generates_population() {
    let mut rng = StdRng::seed_from_u64(33);
    let problem = small_problem(vec![SolutionDataTypes::Real(
        Real::new(Some(ordinal(10.0)), Some(ordinal(20.0))).unwrap(),
    )]);
    let parents = vec![
        Solution::new(&problem, &mut rng, &vec![ordinal(11.0)]).unwrap(),
        Solution::new(&problem, &mut rng, &vec![ordinal(19.0)]).unwrap(),
    ];
    let manager = MutationManager::uniformly(MutationOperator::Polynomial(
        PolynomialMutation::new(Some(Probability::always())),
    ));
    let proposals = vec![
        vec![Some(ordinal(polynomial(11.0, 10.0, 20.0, 20.0, 0.7)))],
        vec![Some(ordinal(polynomial(19.0, 10.0, 20.0, 20.0, 0.3)))],
    ];
    let offspring = manager.evolve(&parents, &mut rng, &proposals);
    assert_eq!(offspring.len(), parents.len());
    assert_ne!(parents[0].solution, offspring[0].solution);
    assert_ne!(parents[1].solution, offspring[1].solution);
}

#[test]
fn probabilities_are_checked_and_gate_as_they_say() {
    assert_eq!(Probability::new(1, 2), Some(Probability { numerator: 1, denominator: 2 }));
    assert_eq!(Probability::new(0, 5), Some(Probability { numerator: 0, denominator: 5 }));
    assert_eq!(Probability::new(5, 5), Some(Probability { numerator: 5, denominator: 5 }));
    assert_eq!(Probability::new(6, 5), None);
    assert_eq!(Probability::new(0, 0), None);
    assert_eq!(Probability::new(1, 0), None);
    let mut rng = StdRng::seed_from_u64(34);
    let mut fired = 0;
    for _ in 0..10_000 {
        assert!(Probability::always().fires(&mut rng));
        assert!(!Probability::never().fires(&mut rng));
        assert!(Probability { numerator: 7, denominator: 3 }.fires(&mut rng));
        assert!(Probability { numerator: 0, denominator: 0 }.fires(&mut rng));
        if Probability::new(1, 4).unwrap().fires(&mut rng) {
            fired += 1;
        }
    }
    assert!(fired > 2200 && fired < 2800, "fired {}", fired);
}

#[test]
fn flipping_turns_binary_values_over() {
    assert_eq!(flip(0), 1);
    assert_eq!(flip(1), 0);
    assert_eq!(flip(2), 2);
    assert_eq!(flip(-1), -1);
    assert_eq!(flip(i64::MIN), i64::MIN);
    let binary = SolutionDataTypes::BitBinary(BitBinary::new());
    let integer = SolutionDataTypes::Integer(Integer::new(Some(0), Some(5)).unwrap());
    assert_eq!(BitFlipMutation::mutate_value(&binary, 1, true), 0);
    assert_eq!(BitFlipMutation::mutate_value(&binary, 1, false), 1);
    assert_eq!(BitFlipMutation::mutate_value(&integer, 1, true), 1);
}

#[test]
fn settling_clamps_a_candidate_where_the_operator_acted() {
    let integer = SolutionDataTypes::Integer(Integer::new(Some(-5), Some(5)).unwrap());
    let real_variable = SolutionDataTypes::Real(Real::new(Some(0), Some(100)).unwrap());
    let binary = SolutionDataTypes::BitBinary(BitBinary::new());
    assert_eq!(settle(&integer, 2, true, Some(4)), 4);
    assert_eq!(settle(&integer, 2, true, Some(40)), 5);
    assert_eq!(settle(&integer, 2, true, Some(-40)), -5);
    assert_eq!(settle(&integer, 2, false, Some(4)), 2);
    assert_eq!(settle(&integer, 2, true, None), 2);
    assert_eq!(settle(&real_variable, 50, true, Some(101)), 100);
    assert_eq!(settle(&real_variable, 50, true, Some(-1)), 0);
    assert_eq!(settle(&binary, 1, true, Some(0)), 1);
    assert_eq!(PolynomialMutation::polynomial_mutation(&integer, 2, true, Some(9)), 5);
    assert_eq!(PolynomialMutation::polynomial_mutation(&integer, 2, false, Some(9)), 2);
}

#[test]
fn operators_skip_variables_of_other_kinds() {
    let mut rng = StdRng::seed_from_u64(35);
    let problem = setup_problem();
    let parent = setup_solution(&problem);
    let flip_all = BitFlipMutation::new(None);
    assert_eq!(flip_all.mutate(&parent, 1, &mut rng, None), 10);
    assert_eq!(flip_all.mutate(&parent, 2, &mut rng, None), ordinal(10.0));
    let uniform = UniformMutation::default();
    assert_eq!(uniform.mutate(&parent, 0, &mut rng, Some(0)), 1);
    let gaussian = GaussianMutation::new(None);
    assert_eq!(Mutation::mutate(&gaussian, &parent, 0, &mut rng, Some(0)), 1);
    assert_eq!(mutate_by_proposal(&Probability::always(), &parent, 0, &mut rng, Some(0)), 1);
    assert_eq!(mutate_by_proposal(&Probability::always(), &parent, 1, &mut rng, Some(7)), 7);
    assert_eq!(mutate_by_proposal(&Probability::never(), &parent, 1, &mut rng, Some(7)), 10);
}

#[test]
fn a_variable_without_a_descriptor_keeps_its_value() {
    let mut rng = StdRng::seed_from_u64(36);
    let problem = small_problem(vec![SolutionDataTypes::BitBinary(BitBinary::new())]);
    let parent = Solution::with_values(&problem, vec![1, 77, 88]);
    let manager = MutationManager::uniformly(MutationOperator::Uniform(UniformMutation::default()));
    let child = manager.mutate(&parent, &mut rng, &vec![Some(5), Some(5), Some(5)]);
    assert_eq!(child.solution, vec![1, 77, 88]);
    let flipper = MutationManager::uniformly(MutationOperator::BitFlip(BitFlipMutation::new(None)));
    assert_eq!(flipper.mutate(&parent, &mut rng, &vec![]).solution, vec![0, 77, 88]);
    assert_eq!(BitFlipMutation::new(None).mutate(&parent, 2, &mut rng, None), 88);
}

#[test]
fn an_operator_set_for_an_index_takes_the_place_of_the_default() {
    let mut rng = StdRng::seed_from_u64(37);
    let problem = setup_problem();
    let parent = setup_solution(&problem);
    let mut manager = MutationManager::new();
    manager.set_custom_mutation(
        0,
        MutationOperator::BitFlip(BitFlipMutation { probability: Probability::never() }),
    );
    manager.set_custom_mutation(
        1,
        MutationOperator::Polynomial(PolynomialMutation::new(Some(Probability::always()))),
    );
    manager.set_custom_mutation(
        2,
        MutationOperator::Gaussian(GaussianMutation { probability: Probability::never() }),
    );
    let proposals = vec![None, Some(5000), Some(ordinal(3.0)), Some(ordinal(3.0)), None];
    for _ in 0..20 {
        let child = manager.mutate(&parent, &mut rng, &proposals);
        assert_eq!(child.solution[0], 1);
        assert_eq!(child.solution[1], 2000);
        assert_eq!(child.solution[2], ordinal(10.0));
        assert_eq!(child.solution[3], ordinal(3.0));
        assert_eq!(child.solution[4], ordinal(10.0));
    }
    match manager.operator_for(1, &problem.solution_data_types[1]) {
        MutationOperator::Polynomial(_) => {}
        other => panic!("unexpected operator {:?}", other),
    }
    match manager.operator_for(4, &problem.solution_data_types[4]) {
        MutationOperator::Uniform(_) => {}
        other => panic!("unexpected operator {:?}", other),
    }
}

#[test]
fn mutated_values_stay_within_bounds_over_many_trials() {
    let mut rng = StdRng::seed_from_u64(38);
    let problem = setup_problem();
    let mut parent = setup_solution(&problem);
    let manager = MutationManager::new();
    for _ in 0..10_000 {
        let proposals: Vec<Option<i64>> = (0..5)
            .map(|_| Some(ordinal(rng.gen_range(-5000.0..5000.0))))
            .collect();
        let child = manager.mutate(&parent, &mut rng, &proposals);
        assert!(child.solution[0] == 0 || child.solution[0] == 1);
        assert!(child.solution[1] >= -2000 && child.solution[1] <= 2000);
        for i in 2..5 {
            let value = real_of(child.solution[i]);
            assert!(value >= -100.0 && value <= 1000.0);
        }
        parent = child;
    }
}

#[test]
fn uniform_mutation_of_an_integer_reaches_both_bounds() {
    let mut rng = StdRng::seed_from_u64(39);
    let problem = small_problem(vec![SolutionDataTypes::Integer(
        Integer::new(Some(-1), Some(1)).unwrap(),
    )]);
    let parent = Solution::with_values(&problem, vec![0]);
    let mutation = UniformMutation::default();
    let mut seen = [false; 3];
    for _ in 0..200 {
        let value = mutation.mutate(&parent, 0, &mut rng, None);
        assert!(value >= -1 && value <= 1);
        seen[(value + 1) as usize] = true;
    }
    assert_eq!(seen, [true, true, true]);
}

#[test]
fn a_child_of_mutation_keeps_what_the_parent_knew_but_forgets_that_it_was_evaluated() {
    let mut rng = StdRng::seed_from_u64(40);
    let problem = setup_problem();
    let mut parent = setup_solution(&problem);
    parent.evaluate();
    parent.assess();
    parent.feasible = true;
    let child = MutationManager::new().mutate(&parent, &mut rng, &vec![]);
    assert!(parent.evaluated);
    assert!(!child.evaluated);
    assert!(!child.feasible);
    assert_eq!(child.objective_fitness_values, parent.objective_fitness_values);
    assert_eq!(child.constraint_values, parent.constraint_values);
    assert_eq!(child.constraint_violation, parent.constraint_violation);
    assert_eq!(child.solution.len(), parent.solution.len());
}
