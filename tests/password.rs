use forge_move::password::{generate_password, password_from_indices, PASSWORD_CHARSET};

#[test]
fn generated_password_has_the_length_and_alphabet() {
    let p = generate_password(20);
    assert_eq!(p.chars().count(), 20);
    assert!(p.chars().all(|c| PASSWORD_CHARSET.contains(c)));
    assert_eq!(generate_password(0), "");
}

#[test]
fn passwords_vary() {
    let a = generate_password(32);
    let b = generate_password(32);
    assert_ne!(a, b);
}

#[test]
fn indices_pick_characters() {
    assert_eq!(password_from_indices(&vec![0, 25, 26, 35]), "az09");
}
