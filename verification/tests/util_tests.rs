use wincounter::util::Percentage;
use wincounter::util::Util;

#[test]
fn str_remove_spaces() {
    let index = "JJ-22, AQs -    ATs,KJs+";

    let expected = "JJ-22,AQs-ATs,KJs+".to_string();

    assert_eq!(Util::str_remove_spaces(index), expected);
}

#[test]
fn replace_plus() {
    assert_eq!(Util::replace_plus("A♠+J♦+6♥+6♣"), "A♠ J♦ 6♥ 6♣");
    assert_eq!(Util::replace_plus(""), "");
    assert_eq!(Util::replace_plus("no plus here"), "no plus here");
}

#[test]
fn str_splitter() {
    let parts = Util::str_splitter("6♠ 6♥ 5♦ 5♣", " ");

    assert_eq!(vec!["6♠", "6♥", "5♦", "5♣"], parts);
    assert_eq!(vec!["a", "", "b"], Util::str_splitter("a,,b", ","));
}

#[test]
fn str_len_splitter() {
    assert_eq!("AS KD QH", Util::str_len_splitter("ASKDQH", 2));
    assert_eq!("A S K D Q H".to_string(), Util::str_len_splitter("ASKDQH", 1));
    assert_eq!("ASKDQH", Util::str_len_splitter("ASKDQH", 6));
    assert_eq!("", Util::str_len_splitter("", 3));
}

#[test]
fn percent_decode() {
    assert_eq!("foo bar?", Util::percent_decode("foo%20bar%3f").unwrap());
}

#[test]
fn percent_decode_without_escapes_is_identity() {
    assert_eq!("AhKs QdQc", Util::percent_decode("AhKs QdQc").unwrap());
}

#[test]
fn percent_decode_rejects_invalid_utf8() {
    assert!(Util::percent_decode("%FF").is_err());
}

#[test]
fn percentage_new() {
    let percentage = Percentage::new(48, 2_598_960);

    assert_eq!(48, percentage.number);
    assert_eq!(2_598_960, percentage.total);
}
