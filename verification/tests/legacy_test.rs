use datapack::{MCFunction, Structure};

#[test]
fn script_holds_copies_of_its_arguments() {
    let contents = String::from("say hi");
    let path = String::from("hello");
    let script = MCFunction::new(&contents, &path, true, false);
    assert_eq!(script.contents, "say hi");
    assert_eq!(script.path, "hello");
    assert!(script.ran_on_load);
    assert!(!script.ran_on_tick);
    let copy = script.clone();
    assert_eq!(copy.contents, contents);
    assert_eq!(copy.path, path);
    assert!(copy.ran_on_load);
    assert!(!copy.ran_on_tick);
}

#[test]
fn structure_holds_copies_of_its_arguments() {
    let contents: Vec<u8> = vec![10, 0, 0, 0];
    let path = String::from("house");
    let structure = Structure::new(&contents, &path);
    assert_eq!(structure.contents, contents);
    assert_eq!(structure.path, "house");
    let copy = structure.clone();
    assert_eq!(copy.contents, vec![10u8, 0, 0, 0]);
    assert_eq!(copy.path, path);
}
