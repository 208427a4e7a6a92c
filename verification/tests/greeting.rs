use overlay_shell::greeting::greet;

#[test]
fn greet_world_exact_template() {
    assert_eq!(greet("World"), "Hello, World! You've been greeted from Rust!");
}

#[test]
fn greet_empty_name() {
    assert_eq!(greet(""), "Hello, ! You've been greeted from Rust!");
}

#[test]
fn greet_contains_name() {
    let name = "a window-sized name";
    assert!(greet(name).contains(name));
}

#[test]
fn greet_contains_name_made_of_template_text() {
    let name = "Hello, World! You've been greeted from Rust!";
    let out = greet(name);
    assert!(out.contains(name));
    assert_eq!(
        out,
        "Hello, Hello, World! You've been greeted from Rust!! You've been greeted from Rust!"
    );
}

#[test]
fn greet_is_deterministic() {
    assert_eq!(greet("same"), greet("same"));
}
