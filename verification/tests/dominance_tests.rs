use moea_core::dominance::Dominance;
use moea_core::dominance::DominanceOutcome;
use moea_core::dominance::ParetoDominance;
use moea_core::gatypes::BitBinary;
use moea_core::gatypes::Integer;
use moea_core::gatypes::Real;
use moea_core::gatypes::SolutionDataTypes;
use moea_core::problem::Problem;
use moea_core::solution::Solution;

/// One objective: the sum of the squares of the decision values.
fn paraboloid_5(x: &Vec<i64>) -> Vec<i64> {
    vec![x.iter().map(|v| v * v).sum()]
}

/// One objective for each decision value: its square.
fn paraboloid_hyper_5(x: &Vec<i64>) -> Vec<i64> {
    x.iter().map(|v| v * v).collect()
}

/// Two objectives: the sum of the first two values, and the third.
fn sum_and_third(x: &Vec<i64>) -> Vec<i64> {
    vec![x[0] + x[1], x[2]]
}

fn five_variables() -> Vec<SolutionDataTypes> {
    vec![
        SolutionDataTypes::BitBinary(BitBinary::new()),
        SolutionDataTypes::Integer(Integer::new(Some(0), Some(100)).unwrap()),
        SolutionDataTypes::Real(Real::new(Some(0), Some(100)).unwrap()),
        SolutionDataTypes::Integer(Integer::new(Some(0), Some(100)).unwrap()),
        SolutionDataTypes::Real(Real::new(Some(0), Some(100)).unwrap()),
    ]
}

fn candidate<'a, F>(problem: &'a Problem<F>, values: Vec<i64>) -> Solution<'a, F> {
    Solution {
        problem,
        solution: values,
        objective_fitness_values: Vec::with_capacity(*problem.number_of_objectives()),
        constraint_values: Vec::with_capacity(*problem.number_of_objectives()),
        constraint_violation: 0,
        feasible: false,
        evaluated: false,
    }
}

#[test]
fn test_pareto_dominance_parablioid_5_dir_pos() {
    let problem = Problem {
        solution_length: 5,
        number_of_objectives: 1,
        objective_constraint: Some(vec![Some(10)]),
        objective_constraint_operands: Some(vec![Some("<".to_string())]),
        direction: Some(vec![1]),
        solution_data_types: five_variables(),
        objective_function: paraboloid_5,
    };
    let mut solution_1 = candidate(&problem, vec![1, 2, 3, 4, 5]);
    let mut solution_2 = candidate(&problem, vec![12, 10, -3, 4, 5]);
    solution_1.evaluate();
    solution_2.evaluate();
    assert_eq!(solution_1.objective_fitness_values, vec![55]);
    assert_eq!(solution_2.objective_fitness_values, vec![294]);
    let result = ParetoDominance.compare_solutions(&solution_1, &solution_2);
    assert_eq!(result, DominanceOutcome::SecondDominates);
}

#[test]
fn test_pareto_dominance_parablioid_5_dir_neg() {
    let problem = Problem {
        solution_length: 3,
        number_of_objectives: 1,
        objective_constraint: Some(vec![Some(10)]),
        objective_constraint_operands: Some(vec![Some("<".to_string())]),
        direction: Some(vec![-1]),
        solution_data_types: five_variables(),
        objective_function: paraboloid_5,
    };
    let mut solution_1 = candidate(&problem, vec![1, 2, -3, 4, 5]);
    let mut solution_2 = candidate(&problem, vec![12, 10, -3, 4, 5]);
    solution_1.evaluate();
    solution_2.evaluate();
    let result = ParetoDominance.compare_solutions(&solution_1, &solution_2);
    assert_eq!(result, DominanceOutcome::FirstDominates);
}

#[test]
fn test_pareto_dominance_parablioid_5_multi_dir_pos() {
    let problem = Problem {
        solution_length: 5,
        number_of_objectives: 5,
        objective_constraint: Some(vec![Some(50), Some(60), Some(70), Some(80), Some(90)]),
        objective_constraint_operands: Some(vec![
            Some("<".to_string()),
            Some("<".to_string()),
            Some("<".to_string()),
            Some("<".to_string()),
            Some("<".to_string()),
        ]),
        direction: Some(vec![1, 1, 1, 1, 1]),
        solution_data_types: five_variables(),
        objective_function: paraboloid_hyper_5,
    };
    let mut solution_1 = candidate(&problem, vec![1, 2, -3, 4, 5]);
    let mut solution_2 = candidate(&problem, vec![12, 10, -3, 4, 5]);
    solution_1.evaluate();
    solution_2.evaluate();
    assert_eq!(solution_1.objective_fitness_values, vec![1, 4, 9, 16, 25]);
    let result = ParetoDominance.compare_solutions(&solution_1, &solution_2);
    assert_eq!(result, DominanceOutcome::SecondDominates);
}

#[test]
fn test_pareto_dominance_parablioid_5_multi_dir_pos_par() {
    let problem = Problem {
        solution_length: 5,
        number_of_objectives: 1,
        objective_constraint: Some(vec![Some(50), None, Some(70), Some(80), Some(90)]),
        objective_constraint_operands: Some(vec![
            Some("<".to_string()),
            None,
            Some("<".to_string()),
            Some("<".to_string()),
            Some("<".to_string()),
        ]),
        direction: Some(vec![1, 1, 1, 1, 1]),
        solution_data_types: five_variables(),
        objective_function: paraboloid_hyper_5,
    };
    let mut solution_1 = candidate(&problem, vec![1, 2, -3, 4, 5]);
    let mut solution_2 = candidate(&problem, vec![12, 10, -3, 4, 5]);
    solution_1.evaluate();
    solution_2.evaluate();
    assert_eq!(solution_1.objective_fitness_values, vec![1, 4, 9, 16, 25]);
    let result = ParetoDominance.compare_solutions(&solution_1, &solution_2);
    assert_eq!(result, DominanceOutcome::SecondDominates);
}

#[test]
fn comparison_is_repeatable_and_mirrored_when_swapped() {
    let problem = Problem::new(
        3,
        2,
        None,
        None,
        Some(vec![-1, -1]),
        vec![
            SolutionDataTypes::Integer(Integer::new(Some(0), Some(100)).unwrap()),
            SolutionDataTypes::Integer(Integer::new(Some(0), Some(100)).unwrap()),
            SolutionDataTypes::Integer(Integer::new(Some(0), Some(100)).unwrap()),
        ],
        sum_and_third,
    )
    .unwrap();
    let mut a = Solution::with_values(&problem, vec![1, 2, 3]);
    let mut b = Solution::with_values(&problem, vec![12, 10, 3]);
    a.evaluate();
    b.evaluate();
    assert_eq!(a.objective_fitness_values, vec![3, 3]);
    assert_eq!(b.objective_fitness_values, vec![22, 3]);
    let first = ParetoDominance.compare_solutions(&a, &b);
    assert_eq!(first, DominanceOutcome::FirstDominates);
    for _ in 0..10 {
        assert_eq!(ParetoDominance.compare_solutions(&a, &b), first);
    }
    assert_eq!(ParetoDominance.compare_solutions(&b, &a), DominanceOutcome::SecondDominates);
    assert_eq!(ParetoDominance.compare_solutions(&b, &a), first.mirror());
}

fn evaluated<'a, F>(
    problem: &'a Problem<F>,
    objectives: Vec<i64>,
    violations: usize,
) -> Solution<'a, F> {
    Solution {
        problem,
        solution: vec![],
        objective_fitness_values: objectives,
        constraint_values: vec![],
        constraint_violation: violations,
        feasible: violations == 0,
        evaluated: true,
    }
}

fn two_objectives(
    bounds: Option<Vec<Option<i64>>>,
    direction: Option<Vec<i8>>,
) -> Problem<fn(&Vec<i64>) -> Vec<i64>> {
    Problem {
        solution_length: 0,
        number_of_objectives: 2,
        objective_constraint: bounds,
        objective_constraint_operands: None,
        direction,
        solution_data_types: vec![],
        objective_function: sum_and_third,
    }
}

#[test]
fn outcomes_on_objectives_follow_the_directions() {
    let minimise = two_objectives(None, Some(vec![-1, -1]));
    let better = evaluated(&minimise, vec![1, 5], 0);
    let worse = evaluated(&minimise, vec![2, 5], 0);
    let traded = evaluated(&minimise, vec![0, 9], 0);
    let same = evaluated(&minimise, vec![1, 5], 0);
    let pareto = ParetoDominance;
    assert_eq!(pareto.compare_solutions(&better, &worse), DominanceOutcome::FirstDominates);
    assert_eq!(pareto.compare_solutions(&worse, &better), DominanceOutcome::SecondDominates);
    assert_eq!(pareto.compare_solutions(&better, &traded), DominanceOutcome::NonDominated);
    assert_eq!(pareto.compare_solutions(&traded, &better), DominanceOutcome::NonDominated);
    assert_eq!(pareto.compare_solutions(&better, &same), DominanceOutcome::NonDominated);
    assert_eq!(pareto.compare_solutions(&better, &better), DominanceOutcome::NonDominated);

    let maximise = two_objectives(None, Some(vec![1, 1]));
    let low = evaluated(&maximise, vec![1, 5], 0);
    let high = evaluated(&maximise, vec![2, 5], 0);
    assert_eq!(pareto.compare_solutions(&low, &high), DominanceOutcome::SecondDominates);
    assert_eq!(pareto.compare_solutions(&high, &low), DominanceOutcome::FirstDominates);

    let mixed = two_objectives(None, Some(vec![1, -1]));
    let a = evaluated(&mixed, vec![3, 2], 0);
    let b = evaluated(&mixed, vec![2, 3], 0);
    assert_eq!(pareto.compare_solutions(&a, &b), DominanceOutcome::FirstDominates);
    let c = evaluated(&mixed, vec![3, 3], 0);
    let d = evaluated(&mixed, vec![2, 2], 0);
    assert_eq!(pareto.compare_solutions(&c, &d), DominanceOutcome::NonDominated);
}

#[test]
fn missing_directions_minimise() {
    let problem = two_objectives(None, None);
    let small = evaluated(&problem, vec![1, 1], 0);
    let large = evaluated(&problem, vec![2, 2], 0);
    assert_eq!(ParetoDominance.compare_solutions(&small, &large), DominanceOutcome::FirstDominates);
    let short = two_objectives(None, Some(vec![1]));
    let a = evaluated(&short, vec![5, 1], 0);
    let b = evaluated(&short, vec![4, 2], 0);
    assert_eq!(ParetoDominance.compare_solutions(&a, &b), DominanceOutcome::FirstDominates);
}

#[test]
fn fewer_violations_dominate_whatever_the_objectives() {
    let problem = two_objectives(Some(vec![Some(0), Some(0)]), Some(vec![-1, -1]));
    let feasible_but_worse = evaluated(&problem, vec![9, 9], 0);
    let violating_but_better = evaluated(&problem, vec![1, 1], 2);
    let violating_less = evaluated(&problem, vec![5, 5], 1);
    let pareto = ParetoDominance;
    assert_eq!(
        pareto.compare_solutions(&feasible_but_worse, &violating_but_better),
        DominanceOutcome::FirstDominates
    );
    assert_eq!(
        pareto.compare_solutions(&violating_but_better, &feasible_but_worse),
        DominanceOutcome::SecondDominates
    );
    assert_eq!(
        pareto.compare_solutions(&violating_less, &violating_but_better),
        DominanceOutcome::FirstDominates
    );
    assert_eq!(
        pareto.compare_solutions(&violating_but_better, &violating_less),
        DominanceOutcome::SecondDominates
    );
    let equal_violations = evaluated(&problem, vec![0, 0], 2);
    assert_eq!(
        pareto.compare_solutions(&equal_violations, &violating_but_better),
        DominanceOutcome::FirstDominates
    );
}

#[test]
fn violations_are_ignored_where_nothing_is_constrained() {
    let unconstrained = two_objectives(None, Some(vec![-1, -1]));
    let a = evaluated(&unconstrained, vec![9, 9], 0);
    let b = evaluated(&unconstrained, vec![1, 1], 2);
    assert_eq!(ParetoDominance.compare_solutions(&a, &b), DominanceOutcome::SecondDominates);
    let no_slots = two_objectives(Some(vec![]), Some(vec![-1, -1]));
    let c = evaluated(&no_slots, vec![9, 9], 0);
    let d = evaluated(&no_slots, vec![1, 1], 2);
    assert_eq!(ParetoDominance.compare_solutions(&c, &d), DominanceOutcome::SecondDominates);
}

#[test]
fn candidates_are_compared_on_the_objectives_that_both_hold() {
    let problem = two_objectives(None, Some(vec![-1, -1]));
    let none = evaluated(&problem, vec![], 0);
    let full = evaluated(&problem, vec![1, 1], 0);
    assert_eq!(ParetoDominance.compare_solutions(&none, &full), DominanceOutcome::NonDominated);
    let one = evaluated(&problem, vec![0], 0);
    assert_eq!(ParetoDominance.compare_solutions(&one, &full), DominanceOutcome::FirstDominates);
    let three = evaluated(&problem, vec![1, 1, -50], 0);
    assert_eq!(ParetoDominance.compare_solutions(&three, &full), DominanceOutcome::NonDominated);
}

#[test]
fn comparison_is_antisymmetric_on_a_grid_of_values() {
    let problem = two_objectives(Some(vec![Some(0)]), Some(vec![-1, 1]));
    let mut candidates = vec![];
    for x in -1..=1 {
        for y in -1..=1 {
            for violations in 0..2 {
                candidates.push(evaluated(&problem, vec![x, y], violations));
            }
        }
    }
    for a in &candidates {
        for b in &candidates {
            let forward = ParetoDominance.compare_solutions(a, b);
            let backward = ParetoDominance.compare_solutions(b, a);
            assert_eq!(backward, forward.mirror());
        }
    }
}

#[test]
fn mirroring_twice_gives_the_outcome_back() {
    for outcome in [
        DominanceOutcome::FirstDominates,
        DominanceOutcome::SecondDominates,
        DominanceOutcome::NonDominated,
    ] {
        assert_eq!(outcome.mirror().mirror(), outcome);
    }
    assert_eq!(DominanceOutcome::NonDominated.mirror(), DominanceOutcome::NonDominated);
}
