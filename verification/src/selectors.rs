//! Tournament selection of parents.

use crate::dominance::Dominance;
use crate::dominance::DominanceOutcome;
use crate::dominance::ParetoDominance;
use crate::errors::EmptyPopulationError;
use crate::random::index_below;
use crate::random::seeded;
use crate::solution::Solution;
use rand::rngs::StdRng;
use vstd::prelude::*;

verus! {

/// The index that wins a tournament under the rule `dominance`: the walk
/// starts at `initial` and meets the `challengers` in turn; a challenger
/// takes the place of the winner so far exactly when it dominates that
/// winner.
pub open spec fn tournament_winner<F, D: Dominance<F>>(
    dominance: D,
    population: Seq<&Solution<F>>,
    initial: int,
    challengers: Seq<int>,
) -> int
    decreases challengers.len(),
{
    if challengers.len() == 0 {
        initial
    } else {
        let before = tournament_winner(dominance, population, initial, challengers.drop_last());
        let challenger = challengers.last();
        if dominance.outcome(population[challenger], population[before])
            == DominanceOutcome::FirstDominates {
            challenger
        } else {
            before
        }
    }
}

/// `initial` and each of the `rounds` many `challengers` index a member of
/// a population of `n`.
pub open spec fn draws_fit(n: int, rounds: int, initial: int, challengers: Seq<int>) -> bool {
    &&& 0 <= initial < n
    &&& challengers.len() == rounds
    &&& forall|j: int| 0 <= j < challengers.len() ==> 0 <= #[trigger] challengers[j] < n
}

/// `candidate` is one of the members of `population`.
pub open spec fn member_of<F>(population: Seq<&Solution<F>>, candidate: &Solution<F>) -> bool {
    exists|i: int| 0 <= i < population.len() && candidate == #[trigger] population[i]
}

/// `winner` is what some tournament of `rounds` rounds over `population`
/// ends with.
pub open spec fn tournament_pick<F, D: Dominance<F>>(
    dominance: D,
    population: Seq<&Solution<F>>,
    rounds: int,
    winner: &Solution<F>,
) -> bool {
    exists|initial: int, challengers: Seq<int>|
        draws_fit(population.len() as int, rounds, initial, challengers) && winner
            == population[#[trigger] tournament_winner(
                dominance,
                population,
                initial,
                challengers,
            )]
}

/// The winner of a tournament is one of those that took part.
pub proof fn lemma_winner_took_part<F, D: Dominance<F>>(
    dominance: D,
    population: Seq<&Solution<F>>,
    initial: int,
    challengers: Seq<int>,
)
    requires
        draws_fit(population.len() as int, challengers.len() as int, initial, challengers),
    ensures
        0 <= tournament_winner(dominance, population, initial, challengers) < population.len(),
        tournament_winner(dominance, population, initial, challengers) == initial || exists|j: int|
            0 <= j < challengers.len() && tournament_winner(
                dominance,
                population,
                initial,
                challengers,
            ) == challengers[j],
    decreases challengers.len(),
{
    if challengers.len() > 0 {
        let front = challengers.drop_last();
        lemma_winner_took_part(dominance, population, initial, front);
        let before = tournament_winner(dominance, population, initial, front);
        let winner = tournament_winner(dominance, population, initial, challengers);
        if winner == before && before != initial {
            let j = choose|j: int| 0 <= j < front.len() && before == front[j];
            assert(challengers[j] == winner);
        } else if winner != before {
            assert(challengers[challengers.len() - 1] == winner);
        }
    }
}

/// A tournament without rounds ends with the initial pick.
pub proof fn lemma_tournament_without_rounds<F, D: Dominance<F>>(
    dominance: D,
    population: Seq<&Solution<F>>,
    initial: int,
)
    ensures
        tournament_winner(dominance, population, initial, Seq::<int>::empty()) == initial,
{
}

/// Where no member of the population dominates another, a tournament of
/// any number of rounds ends with the initial pick, which is drawn without
/// regard to the members.
pub proof fn lemma_tournament_without_dominance<F, D: Dominance<F>>(
    dominance: D,
    population: Seq<&Solution<F>>,
    initial: int,
    challengers: Seq<int>,
)
    requires
        draws_fit(population.len() as int, challengers.len() as int, initial, challengers),
        forall|i: int, j: int|
            0 <= i < population.len() && 0 <= j < population.len() ==> #[trigger] dominance.outcome(
                population[i],
                population[j],
            ) != DominanceOutcome::FirstDominates,
    ensures
        tournament_winner(dominance, population, initial, challengers) == initial,
    decreases challengers.len(),
{
    if challengers.len() > 0 {
        lemma_tournament_without_dominance(
            dominance,
            population,
            initial,
            challengers.drop_last(),
        );
    }
}

/// One round of a tournament: the index that holds the place after
/// `challenger` has met `winner`.
pub fn tournament_round<F, D: Dominance<F>>(
    dominance: &D,
    population: &[&Solution<F>],
    winner: usize,
    challenger: usize,
) -> (r: usize)
    requires
        winner < population@.len(),
        challenger < population@.len(),
    ensures
        r == if dominance.outcome(population@[challenger as int], population@[winner as int])
            == DominanceOutcome::FirstDominates {
            challenger
        } else {
            winner
        },
{
    match dominance.compare_solutions(population[challenger], population[winner]) {
        DominanceOutcome::FirstDominates => challenger,
        _ => winner,
    }
}

/// A rule that picks parents from a population.
pub trait Selector<F> {
    /// Whether the rule, as it stands, may pick `winner` from `population`.
    spec fn picks(&self, population: Seq<&Solution<F>>, winner: &Solution<F>) -> bool;

    /// Picks `n` members, each as the rule picks; fails exactly when the
    /// population is empty.
    fn select<'s, 'a>(&mut self, population: &[&'s Solution<'a, F>], n: usize) -> (r: Result<
        Vec<&'s Solution<'a, F>>,
        EmptyPopulationError,
    >)
        ensures
            population@.len() == 0 <==> r is Err,
            r is Ok ==> r->Ok_0@.len() == n && forall|j: int|
                0 <= j < n ==> member_of(population@, #[trigger] r->Ok_0@[j]),
            r is Ok ==> forall|j: int|
                0 <= j < n ==> old(self).picks(population@, #[trigger] r->Ok_0@[j]),
    ;

    /// Picks one member, as the rule picks; fails exactly when the
    /// population is empty.
    fn select_one<'s, 'a>(&mut self, population: &[&'s Solution<'a, F>]) -> (r: Result<
        &'s Solution<'a, F>,
        EmptyPopulationError,
    >)
        ensures
            population@.len() == 0 <==> r is Err,
            r is Ok ==> member_of(population@, r->Ok_0),
            r is Ok ==> old(self).picks(population@, r->Ok_0),
    ;
}

/// Tournament selection under a rule of dominance, with a random source of
/// its own that is fixed by a seed.
pub struct TournamentSelector<D> {
    tournament_size: usize,
    dominance: D,
    rng: StdRng,
}

impl<D> TournamentSelector<D> {
    /// The number of rounds of each tournament.
    pub closed spec fn rounds(&self) -> usize {
        self.tournament_size
    }

    /// The rule that decides each round.
    pub closed spec fn rule(&self) -> D {
        self.dominance
    }

    /// A selector whose tournaments have `tournament_size` rounds under the
    /// rule `dominance` and whose draws are fixed by `seed`.
    pub fn new(tournament_size: usize, dominance: D, seed: u64) -> (r: Self)
        ensures
            r.rounds() == tournament_size,
            r.rule() == dominance,
    {
        TournamentSelector { tournament_size, dominance, rng: seeded(seed) }
    }

    /// The number of rounds of each tournament.
    pub fn tournament_size(&self) -> (r: usize)
        ensures
            r == self.rounds(),
    {
        self.tournament_size
    }

    /// Runs one tournament: draws an initial winner, then one challenger
    /// per round, each uniformly from the population; a challenger that
    /// dominates the winner takes its place. Fails exactly when the
    /// population is empty. The result is what [`tournament_winner`] gives
    /// for the indices drawn.
    pub fn select_one<'s, 'a, F>(&mut self, population: &[&'s Solution<'a, F>]) -> (r: Result<
        &'s Solution<'a, F>,
        EmptyPopulationError,
    >) where D: Dominance<F>
        ensures
            final(self).rounds() == old(self).rounds(),
            final(self).rule() == old(self).rule(),
            population@.len() == 0 <==> r is Err,
            r is Ok ==> tournament_pick(
                old(self).rule(),
                population@,
                old(self).rounds() as int,
                r->Ok_0,
            ),
            r is Ok ==> member_of(population@, r->Ok_0),
    {
        let n: usize = population.len();
        if n == 0 {
            return Err(EmptyPopulationError);
        }
        let initial: usize = index_below(&mut self.rng, n);
        let mut winner: usize = initial;
        let ghost mut challengers: Seq<int> = Seq::empty();
        let mut round: usize = 0;
        while round < self.tournament_size
            invariant
                n == population@.len(),
                initial < n,
                winner < n,
                round <= self.tournament_size,
                self.tournament_size == old(self).tournament_size,
                self.dominance == old(self).dominance,
                draws_fit(n as int, round as int, initial as int, challengers),
                winner == tournament_winner(
                    self.dominance,
                    population@,
                    initial as int,
                    challengers,
                ),
            decreases self.tournament_size - round,
        {
            let challenger: usize = index_below(&mut self.rng, n);
            winner = tournament_round(&self.dominance, population, winner, challenger);
            proof {
                let longer = challengers.push(challenger as int);
                assert(longer.drop_last() =~= challengers);
                challengers = longer;
            }
            round += 1;
        }
        Ok(population[winner])
    }

    /// Runs `n` tournaments, each on the whole population, so that a member
    /// may be picked more than once. Fails exactly when the population is
    /// empty.
    pub fn select<'s, 'a, F>(&mut self, n: usize, population: &[&'s Solution<'a, F>]) -> (r: Result<
        Vec<&'s Solution<'a, F>>,
        EmptyPopulationError,
    >) where D: Dominance<F>
        ensures
            final(self).rounds() == old(self).rounds(),
            final(self).rule() == old(self).rule(),
            population@.len() == 0 <==> r is Err,
            r is Ok ==> r->Ok_0@.len() == n,
            r is Ok ==> forall|j: int|
                0 <= j < n ==> tournament_pick(
                    old(self).rule(),
                    population@,
                    old(self).rounds() as int,
                    #[trigger] r->Ok_0@[j],
                ),
            r is Ok ==> forall|j: int|
                0 <= j < n ==> member_of(population@, #[trigger] r->Ok_0@[j]),
    {
        if population.len() == 0 {
            return Err(EmptyPopulationError);
        }
        let mut results: Vec<&'s Solution<'a, F>> = Vec::new();
        let mut count: usize = 0;
        while count < n
            invariant
                population@.len() > 0,
                count <= n,
                results@.len() == count,
                self.rounds() == old(self).rounds(),
                self.rule() == old(self).rule(),
                forall|j: int|
                    0 <= j < count ==> tournament_pick(
                        old(self).rule(),
                        population@,
                        old(self).rounds() as int,
                        #[trigger] results@[j],
                    ),
                forall|j: int|
                    0 <= j < count ==> member_of(population@, #[trigger] results@[j]),
            decreases n - count,
        {
            match self.select_one(population) {
                Ok(winner) => {
                    results.push(winner);
                },
                Err(fault) => {
                    return Err(fault);
                },
            }
            count += 1;
        }
        Ok(results)
    }
}

impl<F, D: Dominance<F>> Selector<F> for TournamentSelector<D> {
    /// The selector picks what a tournament of its rounds under its rule
    /// ends with: see [`tournament_pick`].
    open spec fn picks(&self, population: Seq<&Solution<F>>, winner: &Solution<F>) -> bool {
        tournament_pick(self.rule(), population, self.rounds() as int, winner)
    }

    fn select<'s, 'a>(&mut self, population: &[&'s Solution<'a, F>], n: usize) -> (r: Result<
        Vec<&'s Solution<'a, F>>,
        EmptyPopulationError,
    >) {
        TournamentSelector::select(self, n, population)
    }

    fn select_one<'s, 'a>(&mut self, population: &[&'s Solution<'a, F>]) -> (r: Result<
        &'s Solution<'a, F>,
        EmptyPopulationError,
    >) {
        TournamentSelector::select_one(self, population)
    }
}

impl Default for TournamentSelector<ParetoDominance> {
    /// Tournaments of two rounds under Pareto dominance, seeded with 1234.
    fn default() -> (r: Self)
        ensures
            r.rounds() == 2,
            r.rule() == ParetoDominance,
    {
        TournamentSelector::new(2, ParetoDominance, 1234)
    }
}

} // verus!
