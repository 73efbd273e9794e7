use lattice_points::greeting::greet;

#[test]
fn greets_by_name() {
    assert_eq!(greet("Rust"), "Hello, Rust!");
}

#[test]
fn greets_an_empty_name() {
    assert_eq!(greet(""), "Hello, !");
}

#[test]
fn greeting_copies_the_name_as_it_is() {
    assert_eq!(greet("{name}"), "Hello, {name}!");
    assert_eq!(greet("  two words "), "Hello,   two words !");
    assert_eq!(greet("Zoë ✓"), "Hello, Zoë ✓!");
}

#[test]
fn greeting_is_eight_characters_longer_than_the_name() {
    let name = "Ferris";
    assert_eq!(greet(name).chars().count(), name.chars().count() + 8);
}
