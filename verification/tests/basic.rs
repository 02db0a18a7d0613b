use cypher::input::Input;

#[test]
fn it_works() {
}

#[test]
fn input_tracks_keys() {
    let mut input = Input::new();
    assert!(!input.is_key_down(7));
    input.add_key(7);
    input.add_key(7);
    assert!(input.is_key_down(7));
    assert!(!input.is_key_down(8));
    input.add_key(8);
    assert!(input.is_key_down(8));
    input.clear();
    assert!(!input.is_key_down(7));
    assert!(!input.is_key_down(8));
}
