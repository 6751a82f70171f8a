use wincounter::heads_up::HeadsUp;

#[test]
fn total() {
    let hup = HeadsUp::new(1365284, 314904, 32116);

    assert_eq!(1_712_304, hup.total())
}

#[test]
fn new_stores_the_three_counters() {
    let hup = HeadsUp::new(40, 40, 20);

    assert_eq!(40, hup.first_wins);
    assert_eq!(40, hup.second_wins);
    assert_eq!(20, hup.ties);
    assert_eq!(100, hup.total());
}

#[test]
fn total_of_empty_summary_is_zero() {
    assert_eq!(0, HeadsUp::new(0, 0, 0).total());
}
