use launcher::greeting::greet;

#[test]
fn greet_formats_the_name() {
    assert_eq!(
        greet("World"),
        "Hello, World! You've been greeted from Rust!"
    );
}

#[test]
fn greet_with_empty_name() {
    assert_eq!(greet(""), "Hello, ! You've been greeted from Rust!");
}

#[test]
fn greet_keeps_the_name_verbatim() {
    assert_eq!(
        greet("Ada Lovelace"),
        "Hello, Ada Lovelace! You've been greeted from Rust!"
    );
}
