use lunify::function::constant::Constant;

#[test]
fn create_unique() {
    let mut constants = Vec::new();

    assert_eq!(lunify::function::constant::create_unique(&mut constants, 9), 0);
    assert_eq!(&constants[0], &Constant::String(b"__%lunify%__temp9_0\0".to_vec()));
}

#[test]
fn create_unique_twice() {
    let mut constants = vec![Constant::String(b"__%lunify%__temp9_0\0".to_vec())];

    assert_eq!(lunify::function::constant::create_unique(&mut constants, 9), 1);
    assert_eq!(&constants[1], &Constant::String(b"__%lunify%__temp9_1\0".to_vec()));
}

#[test]
fn constant_for_str() {
    let mut constants = vec![Constant::String(b"constant".to_vec())];

    assert_eq!(lunify::function::constant::constant_for_str(&mut constants, b"test"), 1);
    assert_eq!(&constants[1], &Constant::String(b"test\0".to_vec()));
}

#[test]
fn constant_for_str_duplicate() {
    let mut constants = vec![Constant::String(b"test\0".to_vec()), Constant::String(b"constant".to_vec())];

    assert_eq!(lunify::function::constant::constant_for_str(&mut constants, b"test"), 0);
}

#[test]
fn constant_nil() {
    let mut constants = vec![Constant::String(b"constant".to_vec())];

    assert_eq!(lunify::function::constant::constant_nil(&mut constants), 1);
    assert_eq!(&constants[1], &Constant::Nil);
}

#[test]
fn constant_nil_duplicate() {
    let mut constants = vec![Constant::Nil, Constant::String(b"constant".to_vec())];

    assert_eq!(lunify::function::constant::constant_nil(&mut constants), 0);
}
