use vstd::prelude::*;

verus! {

/// A single self-describing scalar value, the payload alphabet of the
/// parameter-encoding scheme used for navigation.
#[derive(Debug, PartialEq, Eq)]
pub enum Scalar {
    Boolean(bool),
    Unsigned(u64),
    Text(String),
}

/// An encoded navigation parameter: either one scalar or a tuple of
/// scalars.  The zero-arity tuple is the "void" form that stands for an
/// absent parameter.
#[derive(Debug, PartialEq, Eq)]
pub enum Variant {
    Scalar(Scalar),
    Tuple(Vec<Scalar>),
}

/// The type (shape) of a scalar value.
#[derive(Debug, Clone, Copy, PartialEq, Eq, Structural)]
pub enum ScalarTy {
    Boolean,
    Unsigned,
    Text,
}

/// The type (shape) of an encoded parameter.  Route descriptors declare
/// one of these; the void shape is the zero-arity tuple.
#[derive(Debug, PartialEq, Eq)]
pub enum VariantTy {
    Scalar(ScalarTy),
    Tuple(Vec<ScalarTy>),
}

/// Mathematical model of a `Scalar`.
#[verifier::ext_equal]
pub enum ScalarV {
    Boolean(bool),
    Unsigned(u64),
    Text(Seq<char>),
}

/// Mathematical model of a `Variant`.
#[verifier::ext_equal]
pub enum VariantV {
    Scalar(ScalarV),
    Tuple(Seq<ScalarV>),
}

/// Mathematical model of a `VariantTy`.
#[verifier::ext_equal]
pub enum TyV {
    Scalar(ScalarTy),
    Tuple(Seq<ScalarTy>),
}

impl View for Scalar {
    type V = ScalarV;

    open spec fn view(&self) -> ScalarV {
        match self {
            Scalar::Boolean(b) => ScalarV::Boolean(*b),
            Scalar::Unsigned(u) => ScalarV::Unsigned(*u),
            Scalar::Text(s) => ScalarV::Text(s@),
        }
    }
}

impl View for Variant {
    type V = VariantV;

    open spec fn view(&self) -> VariantV {
        match self {
            Variant::Scalar(s) => VariantV::Scalar(s@),
            Variant::Tuple(vs) => VariantV::Tuple(scalar_views(vs@)),
        }
    }
}

impl View for VariantTy {
    type V = TyV;

    open spec fn view(&self) -> TyV {
        match self {
            VariantTy::Scalar(t) => TyV::Scalar(*t),
            VariantTy::Tuple(ts) => TyV::Tuple(ts@),
        }
    }
}

/// The views of a sequence of scalars, element by element.
pub open spec fn scalar_views(ss: Seq<Scalar>) -> Seq<ScalarV> {
    ss.map_values(|s: Scalar| s@)
}

/// The shape of a scalar value.
pub open spec fn scalar_ty_of(s: ScalarV) -> ScalarTy {
    match s {
        ScalarV::Boolean(_) => ScalarTy::Boolean,
        ScalarV::Unsigned(_) => ScalarTy::Unsigned,
        ScalarV::Text(_) => ScalarTy::Text,
    }
}

/// The shape of an encoded parameter.
pub open spec fn ty_of(v: VariantV) -> TyV {
    match v {
        VariantV::Scalar(s) => TyV::Scalar(scalar_ty_of(s)),
        VariantV::Tuple(ss) => TyV::Tuple(ss.map_values(|s: ScalarV| scalar_ty_of(s))),
    }
}

/// The void value: the zero-arity tuple, which encodes an absent
/// parameter.
pub open spec fn void_value() -> VariantV {
    VariantV::Tuple(Seq::empty())
}

/// Whether a parameter shape is the void shape.  A route whose declared
/// parameter shape is void registers its navigation action as taking no
/// argument.
pub open spec fn ty_is_void(t: TyV) -> bool {
    match t {
        TyV::Tuple(ts) => ts.len() == 0,
        TyV::Scalar(_) => false,
    }
}

impl Scalar {
    /// The shape of this value.
    pub fn ty(&self) -> (t: ScalarTy)
        ensures
            t == scalar_ty_of(self@),
    {
        match self {
            Scalar::Boolean(_) => ScalarTy::Boolean,
            Scalar::Unsigned(_) => ScalarTy::Unsigned,
            Scalar::Text(_) => ScalarTy::Text,
        }
    }
}

impl Clone for Scalar {
    fn clone(&self) -> (r: Self)
        ensures
            r@ == self@,
    {
        match self {
            Scalar::Boolean(b) => Scalar::Boolean(*b),
            Scalar::Unsigned(u) => Scalar::Unsigned(*u),
            Scalar::Text(s) => Scalar::Text(s.clone()),
        }
    }
}

impl Variant {
    /// The void value, the encoding of an absent parameter.
    pub fn void() -> (v: Variant)
        ensures
            v@ == void_value(),
    {
        let v = Variant::Tuple(Vec::new());
        proof {
            assert(v@ =~= void_value());
        }
        v
    }

    /// Whether this value is the void value.
    pub fn is_void(&self) -> (b: bool)
        ensures
            b == (self@ == void_value()),
    {
        match self {
            Variant::Tuple(vs) => {
                if vs.len() == 0 {
                    proof {
                        assert(self@ =~= void_value());
                    }
                    true
                } else {
                    proof {
                        assert(scalar_views(vs@).len() == vs@.len());
                    }
                    false
                }
            },
            Variant::Scalar(_) => false,
        }
    }
}

impl Clone for Variant {
    fn clone(&self) -> (r: Self)
        ensures
            r@ == self@,
    {
        match self {
            Variant::Scalar(s) => Variant::Scalar(s.clone()),
            Variant::Tuple(vs) => {
                let mut out: Vec<Scalar> = Vec::new();
                let mut i: usize = 0;
                while i < vs.len()
                    invariant
                        i <= vs.len(),
                        out@.len() == i,
                        forall|j: int| 0 <= j < i ==> (#[trigger] out@[j])@ == vs@[j]@,
                    decreases vs.len() - i,
                {
                    out.push(vs[i].clone());
                    i = i + 1;
                }
                proof {
                    assert forall|j: int| 0 <= j < vs@.len() implies scalar_views(out@)[j]
                        == scalar_views(vs@)[j] by {
                        assert(out@[j]@ == vs@[j]@);
                    }
                    assert(scalar_views(out@) =~= scalar_views(vs@));
                }
                Variant::Tuple(out)
            },
        }
    }
}

/// Presence check for the void shape, kept as an extension trait so that
/// shape values read naturally at call sites.
pub trait IsVariantTyVoidExt {
    /// The meaning of `is_void` for this shape.
    spec fn is_void_spec(&self) -> bool;

    /// Whether this shape is the void (zero-arity) one.
    fn is_void(&self) -> (b: bool)
        ensures
            b == self.is_void_spec(),
    ;
}

impl IsVariantTyVoidExt for VariantTy {
    open spec fn is_void_spec(&self) -> bool {
        ty_is_void(self@)
    }

    fn is_void(&self) -> (b: bool) {
        match self {
            VariantTy::Tuple(ts) => ts.len() == 0,
            VariantTy::Scalar(_) => false,
        }
    }
}

impl Clone for VariantTy {
    fn clone(&self) -> (r: Self)
        ensures
            r@ == self@,
    {
        match self {
            VariantTy::Scalar(t) => VariantTy::Scalar(*t),
            VariantTy::Tuple(ts) => {
                let mut out: Vec<ScalarTy> = Vec::new();
                let mut i: usize = 0;
                while i < ts.len()
                    invariant
                        i <= ts.len(),
                        out@ == ts@.take(i as int),
                    decreases ts.len() - i,
                {
                    out.push(ts[i]);
                    proof {
                        assert(out@ =~= ts@.take(i as int + 1));
                    }
                    i = i + 1;
                }
                proof {
                    assert(ts@.take(ts@.len() as int) =~= ts@);
                }
                VariantTy::Tuple(out)
            },
        }
    }
}

} // verus!
