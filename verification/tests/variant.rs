use rose::IsVariantTyVoidExt;
use rose::Scalar;
use rose::ScalarTy;
use rose::Variant;
use rose::VariantTy;

#[test]
fn the_zero_arity_tuple_is_the_void_shape() {
    assert!(VariantTy::Tuple(vec![]).is_void());
    assert!(!VariantTy::Tuple(vec![ScalarTy::Unsigned]).is_void());
    assert!(!VariantTy::Scalar(ScalarTy::Text).is_void());
}

#[test]
fn the_void_value_is_the_empty_tuple() {
    assert_eq!(Variant::void(), Variant::Tuple(vec![]));
    assert!(Variant::void().is_void());
    assert!(!Variant::Scalar(Scalar::Boolean(true)).is_void());
    assert!(!Variant::Tuple(vec![Scalar::Unsigned(1)]).is_void());
}

#[test]
fn scalars_know_their_shape() {
    assert_eq!(Scalar::Boolean(false).ty(), ScalarTy::Boolean);
    assert_eq!(Scalar::Unsigned(3).ty(), ScalarTy::Unsigned);
    assert_eq!(Scalar::Text("x".to_string()).ty(), ScalarTy::Text);
}

#[test]
fn variants_clone_deeply() {
    let v = Variant::Tuple(vec![Scalar::Unsigned(42), Scalar::Text("id".to_string())]);
    assert_eq!(v.clone(), v);
    let t = VariantTy::Tuple(vec![ScalarTy::Unsigned, ScalarTy::Text]);
    assert_eq!(t.clone(), t);
}
