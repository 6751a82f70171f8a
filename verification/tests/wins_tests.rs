use wincounter::win::Win;
use wincounter::wins::Wins;

#[test]
fn extend() {
    let mut wins = Wins::default();
    let more_wins = Wins::from(vec![Win::FIRST, Win::FIRST, Win::SECOND]);
    let even_more_wins = Wins::from(vec![Win::FIRST, Win::SECOND, Win::SECOND]);

    wins.extend(&more_wins);
    wins.extend(&even_more_wins);

    assert!(!wins.is_empty());
    assert_eq!(more_wins.len() + even_more_wins.len(), wins.len());
}

#[test]
fn get() {
    let v = vec![Win::FIRST, Win::FIRST, Win::SECOND, Win::FIRST];

    let wins = Wins::from(v.clone());

    assert_eq!(&v, wins.get())
}

#[test]
fn add() {
    let mut counter = Wins::default();

    counter.add_win_first();
    counter.add_win_second();
    counter.add_win_first();
    counter.add_win_third();
    counter.add(Win::FIRST | Win::SECOND);
    counter.add(Win::FIFTH);

    assert_eq!(6, counter.len())
}

#[test]
fn add_x() {
    let mut wins = Wins::default();

    wins.add_x(Win::FIRST, 1_365_284); // Daniel Wins
    wins.add_x(Win::SECOND, 314_904); // Gus Wins
    wins.add_x(Win::FIRST | Win::SECOND, 32116); // Ties

    // Since the result returned is a tuple containing the number of wins, including
    // ties, followed by just the ties, we need to add the two numbers together.
    assert_eq!((1_365_284 + 32116, 32116), wins.wins_for(Win::FIRST));
    assert_eq!((314_904 + 32116, 32116), wins.wins_for(Win::SECOND));
    assert_eq!((32116, 32116), wins.wins_for(Win::FIRST | Win::SECOND));
}

#[test]
fn is_empty() {
    let mut counter = Wins::default();

    counter.add(Win::FIRST);

    assert!(!counter.is_empty());
    assert!(Wins::default().is_empty());
}

#[test]
fn len() {
    let mut counter = Wins::default();

    counter.add(Win::FIRST);
    counter.add(Win::FIRST);
    counter.add(Win::FIRST);
    counter.add(Win::FIRST);

    assert_eq!(4, counter.len());
    assert_eq!(0, Wins::default().len());
}

#[test]
fn wins_for() {
    let mut counter = Wins::default();

    counter.add_win_first();
    counter.add(Win::FIRST | Win::SECOND);
    counter.add_win_third();
    counter.add_win_third();
    counter.add_win_third();
    counter.add(Win::FORTH);

    assert_eq!((2, 1), counter.wins_for(Win::FIRST));
    assert_eq!((1, 1), counter.wins_for(Win::SECOND));
    assert_eq!((3, 0), counter.wins_for(Win::THIRD));
    assert_eq!((1, 0), counter.wins_for(Win::FORTH));
}

#[test]
fn wins_for_ties_bounded_by_wins_and_length() {
    let mut counter = Wins::default();
    counter.add(Win::FIRST);
    counter.add(Win::FIRST | Win::SECOND);
    counter.add(Win::FIRST | Win::THIRD);
    counter.add(Win::SECOND);
    counter.add(Win::THIRD);

    for i in 0..5 {
        let (wins, ties) = counter.wins_for(Win::from_index(i));
        assert!(ties <= wins);
        assert!(wins <= counter.len());
    }
}

#[test]
fn results_heads_up_counts() {
    let mut counter = Wins::default();
    counter.add_x(Win::FIRST, 1_365_284);
    counter.add_x(Win::SECOND, 314_904);
    counter.add_x(Win::FIRST | Win::SECOND, 32_116);

    let hup = counter.results_heads_up();

    assert_eq!(1_365_284, hup.first_wins);
    assert_eq!(314_904, hup.second_wins);
    assert_eq!(32_116, hup.ties);
    assert_eq!(1_712_304, hup.total());
}

#[test]
fn results_heads_up_ignores_higher_bits() {
    let mut counter = Wins::default();
    counter.add(Win::FIRST | Win::THIRD);
    counter.add(Win::SECOND | Win::FORTH);
    counter.add(Win::FIRST | Win::SECOND | Win::FIFTH);
    counter.add(Win::THIRD);

    let hup = counter.results_heads_up();

    assert_eq!(1, hup.first_wins);
    assert_eq!(1, hup.second_wins);
    assert_eq!(1, hup.ties);
}
