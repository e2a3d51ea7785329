use pdf_object::err::ErrorKind;
use pdf_object::object::{FromPrimitive, MaybeRef, NoResolve, PlainRef, Ref, Resolve};
use pdf_object::primitive::Primitive;

#[test]
fn no_resolve_always_fails() {
    let nr = NoResolve {};
    assert_eq!(
        nr.resolve(PlainRef { id: 1, gen: 0 }),
        Err(ErrorKind::FollowReference)
    );
    assert_eq!(
        nr.resolve(PlainRef { id: u64::MAX, gen: u16::MAX }),
        Err(ErrorKind::FollowReference)
    );
    assert_eq!(
        nr.resolve(PlainRef { id: 0, gen: 0 }),
        Err(ErrorKind::FollowReference)
    );
}

#[test]
fn closure_as_resolver() {
    let table = |r: PlainRef| -> Result<Primitive, ErrorKind> {
        if r.id == 3 {
            Ok(Primitive::Integer(30))
        } else {
            Err(ErrorKind::FollowReference)
        }
    };
    assert_eq!(
        table.resolve(PlainRef { id: 3, gen: 0 }),
        Ok(Primitive::Integer(30))
    );
    assert_eq!(
        table.resolve(PlainRef { id: 4, gen: 0 }),
        Err(ErrorKind::FollowReference)
    );
}

#[test]
fn as_reference_accepts_only_references() {
    let r = PlainRef { id: 8, gen: 1 };
    assert_eq!(Primitive::Reference(r).as_reference(), Ok(r));
    assert_eq!(
        Primitive::Integer(8).as_reference(),
        Err(ErrorKind::UnexpectedPrimitive)
    );
    assert_eq!(
        Primitive::Null.as_reference(),
        Err(ErrorKind::UnexpectedPrimitive)
    );
}

#[test]
fn as_integer_accepts_only_integers() {
    assert_eq!(Primitive::Integer(-4).as_integer(), Ok(-4));
    assert_eq!(
        Primitive::Boolean(true).as_integer(),
        Err(ErrorKind::UnexpectedPrimitive)
    );
}

#[test]
fn ref_from_primitive_wraps_reference() {
    let pr = PlainRef { id: 2, gen: 5 };
    let r: Ref<i32> = Ref::from_primitive(Primitive::Reference(pr), &NoResolve {}).unwrap();
    assert_eq!(r.get_inner(), pr);
}

#[test]
fn ref_from_primitive_rejects_other_variants() {
    let out: Result<Ref<i32>, ErrorKind> =
        Ref::from_primitive(Primitive::Integer(2), &NoResolve {});
    assert_eq!(out.map(|r| r.get_inner()), Err(ErrorKind::UnexpectedPrimitive));
}

#[test]
fn i32_from_primitive() {
    assert_eq!(
        i32::from_primitive(Primitive::Integer(7), &NoResolve {}),
        Ok(7)
    );
    assert_eq!(
        i32::from_primitive(Primitive::Null, &NoResolve {}),
        Err(ErrorKind::UnexpectedPrimitive)
    );
}

#[test]
fn maybe_ref_wraps_reference_without_converting() {
    let pr = PlainRef { id: 6, gen: 0 };
    let out: Result<MaybeRef<i32>, ErrorKind> =
        MaybeRef::from_primitive(Primitive::Reference(pr), &NoResolve {});
    match out {
        Ok(MaybeRef::Reference(rf)) => assert_eq!(rf.get_inner(), pr),
        _ => panic!("a reference primitive must become the Reference variant"),
    }
}

#[test]
fn maybe_ref_owns_converted_value() {
    let out: Result<MaybeRef<i32>, ErrorKind> =
        MaybeRef::from_primitive(Primitive::Integer(7), &NoResolve {});
    match out {
        Ok(MaybeRef::Owned(x)) => assert_eq!(x, 7),
        _ => panic!("an inline primitive must become the Owned variant"),
    }
}

#[test]
fn maybe_ref_passes_conversion_failure_on() {
    let out: Result<MaybeRef<i32>, ErrorKind> =
        MaybeRef::from_primitive(Primitive::Null, &NoResolve {});
    match out {
        Err(e) => assert_eq!(e, ErrorKind::UnexpectedPrimitive),
        Ok(_) => panic!("a mismatched inline primitive must fail"),
    }
}
