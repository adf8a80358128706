use vstd::prelude::*;

verus! {

/// `part` out of `whole` as a percentage scaled by 100 and rounded down,
/// so 2 out of 3 is 6666, that is 66.66 percent.
pub open spec fn percent_hundredths(part: int, whole: int) -> int
    recommends
        whole > 0,
{
    part * 10_000 / whole
}

/// The fraction of games won, in hundredths of a percent.
pub fn winning_percent_hundredths(games_won: u64, number_of_games: u64) -> (percent: u64)
    requires
        1 <= number_of_games,
        games_won <= number_of_games,
    ensures
        percent == percent_hundredths(games_won as int, number_of_games as int),
        percent <= 10_000,
{
    let scaled: u128 = (games_won as u128) * 10_000;
    let quotient: u128 = scaled / (number_of_games as u128);
    proof {
        assert(games_won * 10_000 / (number_of_games as int) <= 10_000) by (nonlinear_arith)
            requires
                1 <= number_of_games,
                games_won <= number_of_games,
        ;
    }
    quotient as u64
}

/// The theoretical win percentage for the chosen strategy, in hundredths
/// of a percent: switching wins with probability (N-1)/N, keeping with
/// probability 1/N.
pub fn ideal_percent_hundredths(number_of_doors: u64, to_switch: bool) -> (percent: u64)
    requires
        1 <= number_of_doors,
    ensures
        to_switch ==> percent == percent_hundredths(number_of_doors - 1, number_of_doors as int),
        !to_switch ==> percent == percent_hundredths(1, number_of_doors as int),
        percent <= 10_000,
{
    if to_switch {
        winning_percent_hundredths(number_of_doors - 1, number_of_doors)
    } else {
        winning_percent_hundredths(1, number_of_doors)
    }
}

} // verus!
