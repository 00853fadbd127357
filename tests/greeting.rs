use greeter_shell::greet;

#[test]
fn greet_empty_name() {
    assert_eq!(greet(""), "Hello, ! You've been greeted from Rust!");
}

#[test]
fn greet_world() {
    assert_eq!(greet("World"), "Hello, World! You've been greeted from Rust!");
}

#[test]
fn greet_keeps_name_verbatim() {
    let names = ["Ada", "  spaced  ", "<b>&\"'", "Zoë 🚀", "a!b, c"];
    for name in names {
        let expected = format!("Hello, {}! You've been greeted from Rust!", name);
        assert_eq!(greet(name), expected);
    }
}

#[test]
fn greet_long_name() {
    let name = "x".repeat(10_000);
    let r = greet(&name);
    assert!(r.starts_with("Hello, xxx"));
    assert!(r.ends_with("x! You've been greeted from Rust!"));
    assert_eq!(r.len(), "Hello, ".len() + 10_000 + "! You've been greeted from Rust!".len());
}
