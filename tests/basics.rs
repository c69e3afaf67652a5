use barcode_gen::{add, greet};

#[test]
fn test_add() {
    assert_eq!(add(2, 3), 5);
    assert_eq!(add(-1, 1), 0);
}

#[test]
fn test_greet() {
    assert_eq!(greet("Rust"), "Hello, Rust!");
}
