use ebnf_jsx::text::{list_to_str, upper};

#[test]
fn upper_capitalises_ascii_letter() {
    assert_eq!(upper("expr"), "Expr");
    assert_eq!(upper("binaryOp"), "BinaryOp");
}

#[test]
fn upper_keeps_capital_and_other_ascii() {
    assert_eq!(upper("Expr"), "Expr");
    assert_eq!(upper("_x"), "_x");
    assert_eq!(upper("9a"), "9a");
}

#[test]
fn upper_of_empty_is_empty() {
    assert_eq!(upper(""), "");
}

#[test]
fn upper_uses_unicode_mapping() {
    assert_eq!(upper("ßa"), "SSa");
    assert_eq!(upper("éte"), "Éte");
}

#[test]
fn upper_twice_is_upper_once() {
    for s in ["expr", "Expr", "_a", "z"] {
        assert_eq!(upper(&upper(s)), upper(s));
    }
}

#[test]
fn list_to_str_terminates_every_item() {
    assert_eq!(list_to_str(&vec!["a", "b"]), "[a, b, ]");
    assert_eq!(list_to_str(&vec!["0", "n0"]), "[0, n0, ]");
}

#[test]
fn list_to_str_of_empty() {
    assert_eq!(list_to_str(&vec![]), "[]");
}
