use codchi::config::{EnvSecret, Secret};
use codchi::secrets::{
    find, lookup, missing_secrets, prompt_help_message, prompt_message, reconcile, store,
};

fn required(names: &[&str]) -> Vec<EnvSecret> {
    names
        .iter()
        .map(|n| EnvSecret { name: n.to_string(), description: format!("the {} secret", n) })
        .collect()
}

fn stored(pairs: &[(&str, &str)]) -> Vec<Secret> {
    pairs.iter().map(|(n, v)| Secret { name: n.to_string(), value: v.to_string() }).collect()
}

fn answers(items: &[&str]) -> Vec<String> {
    items.iter().map(|s| s.to_string()).collect()
}

#[test]
fn a_stored_secret_is_kept_and_only_the_missing_one_is_asked_for() {
    let old = stored(&[("A", "x")]);
    let req = required(&["A", "B"]);
    let ask = missing_secrets(&req, &old);
    assert_eq!(ask, required(&["B"]));
    let all = reconcile(&req, &old, &answers(&["fresh"])).unwrap();
    assert_eq!(all, stored(&[("A", "x"), ("B", "fresh")]));
    assert_eq!(lookup(&all, &"A".to_string()), Some("x".to_string()));
}

#[test]
fn nothing_is_asked_when_nothing_is_required() {
    let old = stored(&[("A", "x")]);
    assert_eq!(missing_secrets(&Vec::new(), &old), Vec::new());
    assert_eq!(reconcile(&Vec::new(), &old, &Vec::new()), Some(Vec::new()));
}

#[test]
fn a_secret_that_is_no_longer_required_is_dropped() {
    let old = stored(&[("A", "x"), ("C", "z")]);
    let all = reconcile(&required(&["A"]), &old, &Vec::new()).unwrap();
    assert_eq!(all, stored(&[("A", "x")]));
}

#[test]
fn answers_are_used_in_the_order_of_the_questions() {
    let old = stored(&[("B", "kept")]);
    let req = required(&["A", "B", "C"]);
    assert_eq!(missing_secrets(&req, &old), required(&["A", "C"]));
    let all = reconcile(&req, &old, &answers(&["one", "two"])).unwrap();
    assert_eq!(all, stored(&[("A", "one"), ("B", "kept"), ("C", "two")]));
}

#[test]
fn the_number_of_answers_has_to_fit() {
    let old = stored(&[("A", "x")]);
    let req = required(&["A", "B"]);
    assert_eq!(reconcile(&req, &old, &Vec::new()), None);
    assert_eq!(reconcile(&req, &old, &answers(&["one", "two"])), None);
}

#[test]
fn a_name_that_is_required_twice_is_asked_twice_and_stored_once() {
    let req = required(&["A", "A"]);
    assert_eq!(missing_secrets(&req, &Vec::new()).len(), 2);
    let all = reconcile(&req, &Vec::new(), &answers(&["first", "second"])).unwrap();
    assert_eq!(all, stored(&[("A", "second")]));
}

#[test]
fn lookup_finds_the_first_entry_of_a_name() {
    let old = stored(&[("A", "x"), ("B", "y"), ("A", "z")]);
    assert_eq!(find(&old, &"A".to_string()), Some(0));
    assert_eq!(find(&old, &"B".to_string()), Some(1));
    assert_eq!(find(&old, &"C".to_string()), None);
    assert_eq!(lookup(&old, &"A".to_string()), Some("x".to_string()));
    assert_eq!(lookup(&old, &"C".to_string()), None);
}

#[test]
fn store_replaces_or_appends() {
    let mut all = stored(&[("A", "x"), ("B", "y")]);
    store(&mut all, "A".to_string(), "new".to_string());
    assert_eq!(all, stored(&[("A", "new"), ("B", "y")]));
    store(&mut all, "C".to_string(), "z".to_string());
    assert_eq!(all, stored(&[("A", "new"), ("B", "y"), ("C", "z")]));
}

#[test]
fn the_question_names_the_secret() {
    let secret = EnvSecret { name: "TOKEN".to_string(), description: "x".to_string() };
    assert_eq!(
        prompt_message(&secret),
        "Please enter secret 'TOKEN' (Toggle input mask with <Ctrl+R>):"
    );
}

#[test]
fn the_help_is_the_trimmed_description() {
    let secret =
        EnvSecret { name: "TOKEN".to_string(), description: "\n  The API token.\t \n".to_string() };
    assert_eq!(prompt_help_message(&secret), "The API token.");
    let inner = EnvSecret { name: "T".to_string(), description: " a  b ".to_string() };
    assert_eq!(prompt_help_message(&inner), "a  b");
    let blank = EnvSecret { name: "T".to_string(), description: " \u{a0}\u{2003} ".to_string() };
    assert_eq!(prompt_help_message(&blank), "");
    let none = EnvSecret { name: "T".to_string(), description: String::new() };
    assert_eq!(prompt_help_message(&none), "");
}

#[test]
fn exactly_the_white_space_characters_are_trimmed() {
    let white = [
        0x09, 0x0a, 0x0b, 0x0c, 0x0d, 0x20, 0x85, 0xa0, 0x1680, 0x2000, 0x2001, 0x2002, 0x2003,
        0x2004, 0x2005, 0x2006, 0x2007, 0x2008, 0x2009, 0x200a, 0x2028, 0x2029, 0x202f, 0x205f,
        0x3000,
    ];
    let other = [
        0x00, 0x08, 0x0e, 0x1f, 0x21, 0x7f, 0x84, 0x86, 0x9f, 0xa1, 0x167f, 0x1681, 0x180e,
        0x1fff, 0x200b, 0x200c, 0x2027, 0x202a, 0x202e, 0x2030, 0x205e, 0x2060, 0x2fff, 0x3001,
        0xfeff, 0x10ffff,
    ];
    for code in white {
        let c = char::from_u32(code).unwrap();
        let secret = EnvSecret { name: "T".to_string(), description: format!("{}x{}", c, c) };
        assert_eq!(prompt_help_message(&secret), "x");
    }
    for code in other {
        let c = char::from_u32(code).unwrap();
        let text = format!("{}x{}", c, c);
        let secret = EnvSecret { name: "T".to_string(), description: text.clone() };
        assert_eq!(prompt_help_message(&secret), text);
    }
}
