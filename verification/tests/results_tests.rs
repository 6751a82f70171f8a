use wincounter::results::Results;
use wincounter::win::Win;
use wincounter::wins::Wins;

fn the_hand_as_wins() -> Wins {
    let mut wins = Wins::default();

    wins.add_x(Win::FIRST, 1_365_284); // Daniel Wins
    wins.add_x(Win::SECOND, 314_904); // Gus Wins
    wins.add_x(Win::FIRST | Win::SECOND, 32_116); // Ties

    wins
}

#[test]
fn from_wins() {
    let results = Results::from_wins(&the_hand_as_wins(), 2);

    assert_eq!(&(1_365_284, 32_116), results.v.get(0).unwrap());
    assert_eq!(&(314_904, 32_116), results.v.get(1).unwrap());
}

#[test]
fn wins_and_ties() {
    let results = Results::from_wins(&the_hand_as_wins(), 2);

    assert_eq!((1_365_284, 32_116), results.wins_and_ties(0));
    assert_eq!((314_904, 32_116), results.wins_and_ties(1));
    assert_eq!((0, 0), results.wins_and_ties(2));
    assert_eq!((0, 0), results.wins_and_ties(3));
}

#[test]
fn wins_total() {
    let results = Results::from_wins(&the_hand_as_wins(), 2);

    assert_eq!(1_397_400, results.wins_total(0));
    assert_eq!(347_020, results.wins_total(1));
    assert_eq!(0, results.wins_total(2));
    assert_eq!(0, results.wins_total(3));
}

#[test]
fn from_wins_counts_and_case_count() {
    let results = Results::from_wins(&the_hand_as_wins(), 2);

    assert_eq!(1_712_304, results.case_count);
    assert_eq!(2, results.player_count);
    assert_eq!(2, results.v.len());
}

#[test]
fn from_wins_twice_yields_identical_results() {
    let wins = the_hand_as_wins();

    let first_snapshot = Results::from_wins(&wins, 2);
    let second_snapshot = Results::from_wins(&wins, 2);

    assert_eq!(first_snapshot, second_snapshot);
}
