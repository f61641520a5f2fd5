use greetings::greeting::{farewell, greet};

#[test]
fn greet_addresses_the_name() {
    assert_eq!(greet("World"), "Hello, World!");
}

#[test]
fn farewell_addresses_the_name() {
    assert_eq!(farewell("World"), "Goodbye, World!");
}

#[test]
fn greet_accepts_an_empty_name() {
    assert_eq!(greet(""), "Hello, !");
}

#[test]
fn farewell_accepts_an_empty_name() {
    assert_eq!(farewell(""), "Goodbye, !");
}

#[test]
fn greet_copies_special_characters_unescaped() {
    assert_eq!(greet("{}"), "Hello, {}!");
    assert_eq!(greet("a\"b'c\\d"), "Hello, a\"b'c\\d!");
    assert_eq!(greet("<tag> & co."), "Hello, <tag> & co.!");
    assert_eq!(greet("line\nbreak\ttab"), "Hello, line\nbreak\ttab!");
    assert_eq!(greet("  padded  "), "Hello,   padded  !");
    assert_eq!(greet("%s %d {0} {name}"), "Hello, %s %d {0} {name}!");
}

#[test]
fn farewell_copies_special_characters_unescaped() {
    assert_eq!(farewell("{}"), "Goodbye, {}!");
    assert_eq!(farewell("a\"b'c\\d"), "Goodbye, a\"b'c\\d!");
    assert_eq!(farewell("line\nbreak"), "Goodbye, line\nbreak!");
}

#[test]
fn greet_copies_text_beyond_ascii() {
    assert_eq!(greet("Zoë"), "Hello, Zoë!");
    assert_eq!(greet("世界"), "Hello, 世界!");
    assert_eq!(greet("🎉"), "Hello, 🎉!");
    assert_eq!(farewell("Zoë 🎉"), "Goodbye, Zoë 🎉!");
}

#[test]
fn greet_keeps_a_name_that_looks_like_a_salutation() {
    assert_eq!(greet("Hello, World!"), "Hello, Hello, World!!");
    assert_eq!(farewell("!"), "Goodbye, !!");
}

#[test]
fn salutations_agree_with_std_formatting() {
    let long = "x".repeat(1000);
    let names = ["", "World", "Eve", "{}", "a b", "é", "\0", long.as_str()];
    for name in names {
        assert_eq!(greet(name), format!("Hello, {}!", name));
        assert_eq!(farewell(name), format!("Goodbye, {}!", name));
    }
}

#[test]
fn greet_twice_gives_the_same_text() {
    assert_eq!(greet("World"), greet("World"));
    assert_eq!(farewell("World"), farewell("World"));
}
