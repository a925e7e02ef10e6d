use moea_core::dominance::ParetoDominance;
use moea_core::errors::EmptyPopulationError;
use moea_core::gatypes::BitBinary;
use moea_core::gatypes::Integer;
use moea_core::gatypes::Real;
use moea_core::gatypes::SolutionDataTypes;
use moea_core::problem::Problem;
use moea_core::selectors::tournament_round;
use moea_core::selectors::Selector;
use moea_core::selectors::TournamentSelector;
use moea_core::solution::Solution;

/// One objective: the sum of the squares of the decision values.
fn one_objective(x: &Vec<i64>) -> Vec<i64> {
    vec![x.iter().map(|v| v * v).sum()]
}

/// One objective for each decision value: its square.
fn many_objectives(x: &Vec<i64>) -> Vec<i64> {
    x.iter().map(|v| v * v).collect()
}

fn setup_problem(
    objective_function: fn(&Vec<i64>) -> Vec<i64>,
    solution_length: usize,
    direction: Vec<i8>,
) -> Problem<fn(&Vec<i64>) -> Vec<i64>> {
    Problem {
        solution_length,
        number_of_objectives: 1,
        objective_constraint: Some(vec![Some(10)]),
        objective_constraint_operands: Some(vec![Some("<".to_string())]),
        direction: Some(direction),
        solution_data_types: vec![
            SolutionDataTypes::BitBinary(BitBinary::new()),
            SolutionDataTypes::Integer(Integer::new(Some(10), Some(20)).unwrap()),
            SolutionDataTypes::Real(Real::new(Some(10), Some(20)).unwrap()),
            SolutionDataTypes::Integer(Integer::new(Some(-100), Some(20)).unwrap()),
            SolutionDataTypes::Real(Real::new(Some(-10), Some(20)).unwrap()),
        ],
        objective_function,
    }
}

fn candidate<'a, F>(problem: &'a Problem<F>, values: Vec<i64>) -> Solution<'a, F> {
    Solution {
        problem,
        solution: values,
        objective_fitness_values: Vec::with_capacity(*problem.number_of_objectives()),
        constraint_values: Vec::with_capacity(*problem.number_of_objectives()),
        constraint_violation: 0,
        feasible: false,
        evaluated: false,
    }
}

fn five_solutions<'a>(
    problem: &'a Problem<fn(&Vec<i64>) -> Vec<i64>>,
) -> Vec<Solution<'a, fn(&Vec<i64>) -> Vec<i64>>> {
    let mut solutions = vec![
        candidate(problem, vec![1, 2, -3, 4, 5]),
        candidate(problem, vec![12, 10, -3, 4, 5]),
        candidate(problem, vec![-22, 12, -3, 1, 5]),
        candidate(problem, vec![-22, 12, -3, 1, 5]),
        candidate(problem, vec![1, 2, 3, 4, 5]),
    ];
    for solution in solutions.iter_mut() {
        solution.evaluate();
    }
    solutions
}

fn four_solutions<'a>(
    problem: &'a Problem<fn(&Vec<i64>) -> Vec<i64>>,
) -> Vec<Solution<'a, fn(&Vec<i64>) -> Vec<i64>>> {
    let mut solutions = vec![
        candidate(problem, vec![1, 2, -3, 4, 5]),
        candidate(problem, vec![12, 10, -3, 4, 5]),
        candidate(problem, vec![-22, 12, -3, 1, 5]),
        candidate(problem, vec![1, 2, 3, 4, 5]),
    ];
    for solution in solutions.iter_mut() {
        solution.evaluate();
    }
    solutions
}

fn is_member<F>(population: &[&Solution<F>], winner: &Solution<F>) -> bool {
    population.iter().any(|member| std::ptr::eq(*member, winner))
}

#[test]
fn test_tournament_selector_single_objective() {
    let problem = setup_problem(one_objective, 3, vec![1]);
    let solutions = five_solutions(&problem);
    let population: Vec<&Solution<_>> = solutions.iter().collect();
    let mut tournament_selector = TournamentSelector::default();
    let winner = tournament_selector.select_one(&population).unwrap();
    assert!(is_member(&population, winner));
}

#[test]
fn test_tournament_selector_multi_objective() {
    let problem = setup_problem(many_objectives, 5, vec![1]);
    let solutions = five_solutions(&problem);
    let population: Vec<&Solution<_>> = solutions.iter().collect();
    let mut tournament_selector = TournamentSelector::default();
    let winner = tournament_selector.select_one(&population).unwrap();
    assert!(is_member(&population, winner));
}

#[test]
fn test_select_function() {
    let problem = setup_problem(one_objective, 3, vec![1]);
    let solutions = five_solutions(&problem);
    let mut tournament_selector = TournamentSelector::default();
    let population: Vec<&Solution<_>> = solutions.iter().collect();
    let winners: Vec<&Solution<_>> = tournament_selector.select(10, &population).unwrap();
    assert_eq!(winners.len(), 10);
    for winner in winners {
        assert!(is_member(&population, winner));
    }
}

#[test]
fn test_tournament_selector_single_objective_maximize() {
    let problem = setup_problem(one_objective, 5, vec![1]);
    let solutions = four_solutions(&problem);
    let population: Vec<&Solution<_>> = solutions.iter().collect();
    let mut tournament_selector = TournamentSelector::default();
    let winner = tournament_selector.select_one(&population).unwrap();
    assert!(is_member(&population, winner));
}

#[test]
fn test_tournament_selector_single_objective_miminmize() {
    let problem = setup_problem(one_objective, 5, vec![-1]);
    let solutions = four_solutions(&problem);
    let population: Vec<&Solution<_>> = solutions.iter().collect();
    let mut tournament_selector = TournamentSelector::default();
    let winner = tournament_selector.select_one(&population).unwrap();
    assert!(is_member(&population, winner));
}

#[test]
fn test_tournament_selector_multi_objective_maximize() {
    let problem = setup_problem(many_objectives, 5, vec![1, 1, 1, 1, 1]);
    let solutions = four_solutions(&problem);
    let population: Vec<&Solution<_>> = solutions.iter().collect();
    let mut tournament_selector = TournamentSelector::default();
    let winner = tournament_selector.select_one(&population).unwrap();
    assert!(is_member(&population, winner));
}

#[test]
fn test_selection_function() {
    let problem = setup_problem(many_objectives, 5, vec![-1, -1, -1, -1, -1]);
    let solutions = four_solutions(&problem);
    let population: Vec<&Solution<_>> = solutions.iter().collect();
    let mut tournament_selector = TournamentSelector::default();
    let winners = tournament_selector.select(2, &population).unwrap();
    assert_eq!(winners.len(), 2);
}

#[test]
fn selection_from_an_empty_population_fails() {
    let population: Vec<&Solution<fn(&Vec<i64>) -> Vec<i64>>> = vec![];
    let mut selector = TournamentSelector::default();
    assert_eq!(selector.select_one(&population).err(), Some(EmptyPopulationError));
    assert_eq!(selector.select(3, &population).err(), Some(EmptyPopulationError));
    assert_eq!(selector.select(0, &population).err(), Some(EmptyPopulationError));
    assert_eq!(
        Selector::select_one(&mut selector, &population).err(),
        Some(EmptyPopulationError)
    );
    assert_eq!(Selector::select(&mut selector, &population, 2).err(), Some(EmptyPopulationError));
}

#[test]
fn selecting_nothing_from_a_population_gives_nothing() {
    let problem = setup_problem(one_objective, 5, vec![-1]);
    let solutions = four_solutions(&problem);
    let population: Vec<&Solution<_>> = solutions.iter().collect();
    let mut selector = TournamentSelector::default();
    assert_eq!(selector.select(0, &population).unwrap().len(), 0);
}

#[test]
fn equal_seeds_select_equally() {
    let problem = setup_problem(one_objective, 5, vec![-1]);
    let solutions = five_solutions(&problem);
    let population: Vec<&Solution<_>> = solutions.iter().collect();
    let mut first = TournamentSelector::new(3, ParetoDominance, 99);
    let mut second = TournamentSelector::new(3, ParetoDominance, 99);
    assert_eq!(first.tournament_size(), 3);
    let a = first.select(50, &population).unwrap();
    let b = second.select(50, &population).unwrap();
    for (x, y) in a.iter().zip(b.iter()) {
        assert!(std::ptr::eq(*x, *y));
    }
}

#[test]
fn a_tournament_without_rounds_picks_every_member() {
    let problem = setup_problem(one_objective, 5, vec![-1]);
    let solutions = five_solutions(&problem);
    let population: Vec<&Solution<_>> = solutions.iter().collect();
    let mut selector = TournamentSelector::new(0, ParetoDominance, 7);
    let mut picked = [0usize; 5];
    for _ in 0..5_000 {
        let winner = selector.select_one(&population).unwrap();
        let index = population.iter().position(|m| std::ptr::eq(*m, winner)).unwrap();
        picked[index] += 1;
    }
    for count in picked {
        assert!(count > 800 && count < 1200, "count {}", count);
    }
}

#[test]
fn long_tournaments_end_with_a_member_that_nothing_dominates() {
    let problem = setup_problem(one_objective, 5, vec![-1]);
    let mut solutions = five_solutions(&problem);
    for solution in solutions.iter_mut() {
        solution.assess();
    }
    let population: Vec<&Solution<_>> = solutions.iter().collect();
    let best = population.iter().map(|m| m.objective_fitness_values[0]).min().unwrap();
    let mut selector = TournamentSelector::new(200, ParetoDominance, 5);
    for _ in 0..20 {
        let winner = selector.select_one(&population).unwrap();
        assert_eq!(winner.objective_fitness_values[0], best);
    }
}

#[test]
fn a_round_is_won_by_a_challenger_that_dominates() {
    let problem = setup_problem(one_objective, 5, vec![-1]);
    let solutions = four_solutions(&problem);
    let population: Vec<&Solution<_>> = solutions.iter().collect();
    assert_eq!(solutions[0].objective_fitness_values, vec![55]);
    assert_eq!(solutions[1].objective_fitness_values, vec![294]);
    assert_eq!(solutions[3].objective_fitness_values, vec![55]);
    assert_eq!(tournament_round(&ParetoDominance, &population, 1, 0), 0);
    assert_eq!(tournament_round(&ParetoDominance, &population, 0, 1), 0);
    assert_eq!(tournament_round(&ParetoDominance, &population, 0, 3), 0);
    assert_eq!(tournament_round(&ParetoDominance, &population, 3, 0), 3);
    assert_eq!(tournament_round(&ParetoDominance, &population, 2, 2), 2);
}

#[test]
fn the_trait_selects_as_the_selector_does() {
    let problem = setup_problem(one_objective, 5, vec![-1]);
    let solutions = five_solutions(&problem);
    let population: Vec<&Solution<_>> = solutions.iter().collect();
    let mut direct = TournamentSelector::new(4, ParetoDominance, 321);
    let mut through = TournamentSelector::new(4, ParetoDominance, 321);
    for _ in 0..30 {
        let a = direct.select_one(&population).unwrap();
        let b = Selector::select_one(&mut through, &population).unwrap();
        assert!(std::ptr::eq(a, b));
    }
    let a = direct.select(7, &population).unwrap();
    let b = Selector::select(&mut through, &population, 7).unwrap();
    assert_eq!(a.len(), 7);
    for (x, y) in a.iter().zip(b.iter()) {
        assert!(std::ptr::eq(*x, *y));
    }
}
