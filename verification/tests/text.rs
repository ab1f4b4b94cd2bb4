use mojo_backend::text::{concat2, concat3, join};

#[test]
fn join_puts_the_separator_between_neighbours() {
    assert_eq!(join(&vec![], ", "), "");
    assert_eq!(join(&vec![String::from("a")], ", "), "a");
    assert_eq!(join(&vec![String::from("a"), String::from("b")], ", "), "a, b");
    assert_eq!(
        join(&vec![String::from("a"), String::from(""), String::from("c")], "--"),
        "a----c"
    );
    assert_eq!(join(&vec![String::from("x"), String::from("y")], ""), "xy");
}

#[test]
fn concat_keeps_the_order() {
    assert_eq!(concat2("ab", "cd"), "abcd");
    assert_eq!(concat2("", ""), "");
    assert_eq!(concat3("a", "", "c"), "ac");
    assert_eq!(concat3("Option", "I8", "Result"), "OptionI8Result");
}
