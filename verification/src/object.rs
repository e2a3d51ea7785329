//! The typed reference wrappers, the resolve capability, the conversion
//! protocol, and the serialization protocol of the object syntax.

use vstd::prelude::*;
use core::marker::PhantomData;
use crate::decimal::{dec_i32, write_i32};
use crate::err::ErrorKind;
use crate::escape::{escaped, write_escaped};
use crate::primitive::{
    bool_text, printable_ascii, renderable_dict, renderable_primitive, rendered_dict,
    rendered_primitive, rendered_ref, text_bytes, write_dict, write_plain_ref, write_primitive,
    Dictionary, Primitive, Stream,
};
use vstd::slice::slice_index_get;
use vstd::string::StringSliceAdditionalSpecFns;

pub use crate::primitive::{GenNr, ObjNr, PlainRef};

verus! {

/// The capability of mapping an indirect reference to the primitive it
/// denotes, supplied by the surrounding document layer. An implementation
/// states which calls it admits in `resolve_req` and what holds of every
/// outcome in `resolve_ens`; within one logical snapshot repeated calls are
/// expected to agree.
pub trait Resolve {
    /// May `resolve` be asked about `r`?
    spec fn resolve_req(&self, r: PlainRef) -> bool;

    /// What holds of an outcome of resolving `r`.
    spec fn resolve_ens(&self, r: PlainRef, out: Result<Primitive, ErrorKind>) -> bool;

    /// Maps the reference to its primitive, or fails with `FollowReference`
    /// when the target is unknown or following is disallowed.
    fn resolve(&self, r: PlainRef) -> (out: Result<Primitive, ErrorKind>)
        requires
            self.resolve_req(r),
        ensures
            self.resolve_ens(r, out),
    ;
}

/// Any callable from a reference to a primitive is a resolver; its own
/// calling contract carries over unchanged.
impl<F: Fn(PlainRef) -> Result<Primitive, ErrorKind>> Resolve for F {
    open spec fn resolve_req(&self, r: PlainRef) -> bool {
        call_requires(*self, (r,))
    }

    open spec fn resolve_ens(&self, r: PlainRef, out: Result<Primitive, ErrorKind>) -> bool {
        call_ensures(*self, (r,), out)
    }

    fn resolve(&self, r: PlainRef) -> (out: Result<Primitive, ErrorKind>) {
        (*self)(r)
    }
}

/// The resolver that refuses every reference: passed where an operation is
/// asserted not to need reference following.
pub struct NoResolve {}

impl Resolve for NoResolve {
    open spec fn resolve_req(&self, r: PlainRef) -> bool {
        true
    }

    open spec fn resolve_ens(&self, r: PlainRef, out: Result<Primitive, ErrorKind>) -> bool {
        out == Err::<Primitive, ErrorKind>(ErrorKind::FollowReference)
    }

    /// Fails with `FollowReference`, whatever the input reference is.
    fn resolve(&self, r: PlainRef) -> (out: Result<Primitive, ErrorKind>)
        ensures
            out == Err::<Primitive, ErrorKind>(ErrorKind::FollowReference),
    {
        Err(ErrorKind::FollowReference)
    }
}

/// The serialization protocol: rendering a value as object-syntax text in a
/// byte sink. `renderable` says which values may be written at all,
/// `rendered` names the exact bytes, and `serialize` appends exactly those.
pub trait Object {
    /// May this value be serialized?
    spec fn renderable(&self) -> bool;

    /// The exact bytes `serialize` appends for this value.
    spec fn rendered(&self) -> Seq<u8>;

    /// Appends the object-syntax text of `self` to `out`.
    fn serialize(&self, out: &mut Vec<u8>)
        requires
            self.renderable(),
        ensures
            final(out)@ == old(out)@ + self.rendered(),
    ;
}

impl Object for PlainRef {
    open spec fn renderable(&self) -> bool {
        true
    }

    open spec fn rendered(&self) -> Seq<u8> {
        rendered_ref(*self)
    }

    fn serialize(&self, out: &mut Vec<u8>) {
        write_plain_ref(self, out);
    }
}

/// A typed reference: a plain reference together with a compile-time-only
/// tag `T`, the type its target is expected to resolve to. The tag has no
/// runtime footprint; copying and equality are those of the inner plain
/// reference, which is also the view `r@`.
#[derive(Debug)]
pub struct Ref<T> {
    inner: PlainRef,
    _marker: PhantomData<T>,
}

impl<T> View for Ref<T> {
    type V = PlainRef;

    closed spec fn view(&self) -> PlainRef {
        self.inner
    }
}

impl<T> Ref<T> {
    /// Wraps a plain reference; never consults a resolver.
    pub fn new(inner: PlainRef) -> (r: Ref<T>)
        ensures
            r@ == inner,
    {
        Ref { inner, _marker: PhantomData }
    }

    /// The reference to object number `id` at generation `0`.
    pub fn from_id(id: ObjNr) -> (r: Ref<T>)
        ensures
            r@ == (PlainRef { id, gen: 0 }),
    {
        Ref { inner: PlainRef { id, gen: 0 }, _marker: PhantomData }
    }

    /// The untyped reference, for the caller to resolve explicitly and then
    /// convert to `T`.
    pub fn get_inner(&self) -> (r: PlainRef)
        ensures
            r == self@,
    {
        self.inner
    }
}

impl<T> Copy for Ref<T> {

}

impl<T> Clone for Ref<T> {
    /// A copy of the inner reference; the tag has nothing to copy.
    fn clone(&self) -> (r: Ref<T>)
        ensures
            r == *self,
    {
        *self
    }
}

impl<T: Object> Object for Ref<T> {
    open spec fn renderable(&self) -> bool {
        true
    }

    open spec fn rendered(&self) -> Seq<u8> {
        rendered_ref(self@)
    }

    fn serialize(&self, out: &mut Vec<u8>) {
        write_plain_ref(&self.inner, out);
    }
}

/// Either the value itself or a typed reference to it: a document field
/// stored inline or indirectly.
#[derive(Copy, Clone, Debug)]
pub enum MaybeRef<T> {
    Owned(T),
    Reference(Ref<T>),
}

impl<T: Object> Object for MaybeRef<T> {
    open spec fn renderable(&self) -> bool {
        match self {
            MaybeRef::Owned(t) => t.renderable(),
            MaybeRef::Reference(_) => true,
        }
    }

    open spec fn rendered(&self) -> Seq<u8> {
        match self {
            MaybeRef::Owned(t) => t.rendered(),
            MaybeRef::Reference(r) => rendered_ref(r@),
        }
    }

    fn serialize(&self, out: &mut Vec<u8>) {
        match self {
            MaybeRef::Owned(t) => t.serialize(out),
            MaybeRef::Reference(r) => {
                let pr = r.get_inner();
                write_plain_ref(&pr, out);
            },
        }
    }
}

impl Object for i32 {
    open spec fn renderable(&self) -> bool {
        true
    }

    open spec fn rendered(&self) -> Seq<u8> {
        dec_i32(*self as int)
    }

    fn serialize(&self, out: &mut Vec<u8>) {
        write_i32(*self, out);
    }
}

impl Object for bool {
    open spec fn renderable(&self) -> bool {
        true
    }

    open spec fn rendered(&self) -> Seq<u8> {
        bool_text(*self)
    }

    fn serialize(&self, out: &mut Vec<u8>) {
        if *self {
            out.push(116u8);
            out.push(114u8);
            out.push(117u8);
            out.push(101u8);
        } else {
            out.push(102u8);
            out.push(97u8);
            out.push(108u8);
            out.push(115u8);
            out.push(101u8);
        }
        assert(out@ =~= old(out)@ + bool_text(*self));
    }
}

impl Object for str {
    open spec fn renderable(&self) -> bool {
        printable_ascii(self@)
    }

    open spec fn rendered(&self) -> Seq<u8> {
        escaped(self.spec_bytes())
    }

    fn serialize(&self, out: &mut Vec<u8>) {
        write_escaped(self, out);
    }
}

impl Object for String {
    open spec fn renderable(&self) -> bool {
        printable_ascii(self@)
    }

    open spec fn rendered(&self) -> Seq<u8> {
        escaped(text_bytes(self@))
    }

    fn serialize(&self, out: &mut Vec<u8>) {
        write_escaped(self.as_str(), out);
    }
}

impl Object for Dictionary {
    open spec fn renderable(&self) -> bool {
        renderable_dict(*self)
    }

    open spec fn rendered(&self) -> Seq<u8> {
        rendered_dict(*self)
    }

    fn serialize(&self, out: &mut Vec<u8>) {
        write_dict(self, out);
    }
}

impl Object for Primitive {
    open spec fn renderable(&self) -> bool {
        renderable_primitive(*self)
    }

    open spec fn rendered(&self) -> Seq<u8> {
        rendered_primitive(*self)
    }

    fn serialize(&self, out: &mut Vec<u8>) {
        write_primitive(self, out);
    }
}

/// Elements in order, separated by single spaces: the body of a serialized
/// sequence of objects.
pub open spec fn rendered_list<T: Object>(els: Seq<T>) -> Seq<u8>
    decreases els,
{
    if els.len() == 0 {
        Seq::empty()
    } else if els.len() == 1 {
        els[0].rendered()
    } else {
        rendered_list(els.drop_last()) + seq![32u8] + els.last().rendered()
    }
}

impl<T: Object> Object for [T] {
    open spec fn renderable(&self) -> bool {
        forall|i: int| 0 <= i < self@.len() ==> (#[trigger] self@[i]).renderable()
    }

    open spec fn rendered(&self) -> Seq<u8> {
        seq![91u8] + rendered_list(self@) + seq![93u8]
    }

    fn serialize(&self, out: &mut Vec<u8>) {
        out.push(91u8);
        let ghost opened = out@;
        assert(opened =~= old(out)@ + seq![91u8]);
        let n: usize = self.len();
        let mut i: usize = 0;
        while i < n
            invariant
                n == self@.len(),
                i <= n,
                forall|j: int| 0 <= j < self@.len() ==> (#[trigger] self@[j]).renderable(),
                out@ =~= opened + rendered_list(self@.take(i as int)),
            decreases n - i,
        {
            if i > 0 {
                out.push(32u8);
            }
            let e: &T = slice_index_get(self, i);
            e.serialize(out);
            i = i + 1;
            proof {
                let taken = self@.take(i as int);
                assert(taken.drop_last() =~= self@.take(i - 1));
                assert(taken.last() == self@[i - 1]);
                assert(out@ =~= opened + rendered_list(taken));
            }
        }
        out.push(93u8);
        assert(self@.take(n as int) =~= self@);
        assert(out@ =~= old(out)@ + self.rendered());
    }
}

impl<T: Object> Object for Vec<T> {
    open spec fn renderable(&self) -> bool {
        forall|i: int| 0 <= i < self@.len() ==> (#[trigger] self@[i]).renderable()
    }

    open spec fn rendered(&self) -> Seq<u8> {
        seq![91u8] + rendered_list(self@) + seq![93u8]
    }

    fn serialize(&self, out: &mut Vec<u8>) {
        self.as_slice().serialize(out);
    }
}

/// The conversion protocol from an untyped primitive: reconstructs a typed
/// value, resolving through `resolve` only where the type requires it. Each
/// implementation states its possible outcomes in `from_primitive_ens`.
pub trait FromPrimitive<R: Resolve>: Sized {
    /// What holds of an outcome of converting `p` under `resolve`.
    spec fn from_primitive_ens(p: Primitive, resolve: &R, out: Result<Self, ErrorKind>) -> bool;

    /// Converts a parsed primitive into `Self`; fails with a type mismatch
    /// when the primitive's variant does not fit.
    fn from_primitive(p: Primitive, resolve: &R) -> (out: Result<Self, ErrorKind>)
        ensures
            Self::from_primitive_ens(p, resolve, out),
    ;
}

/// The conversion protocol from a dictionary, for the document layer's
/// dictionary-shaped types.
pub trait FromDict<R: Resolve>: Sized {
    /// What holds of an outcome of converting `dict` under `resolve`.
    spec fn from_dict_ens(dict: Dictionary, resolve: &R, out: Result<Self, ErrorKind>) -> bool;

    /// Converts a dictionary into `Self`.
    fn from_dict(dict: Dictionary, resolve: &R) -> (out: Result<Self, ErrorKind>)
        ensures
            Self::from_dict_ens(dict, resolve, out),
    ;
}

/// The conversion protocol from a stream, for the document layer's
/// stream-shaped types.
pub trait FromStream<R: Resolve>: Sized {
    /// What holds of an outcome of converting `stream` under `resolve`.
    spec fn from_stream_ens(stream: Stream, resolve: &R, out: Result<Self, ErrorKind>) -> bool;

    /// Converts a stream into `Self`.
    fn from_stream(stream: Stream, resolve: &R) -> (out: Result<Self, ErrorKind>)
        ensures
            Self::from_stream_ens(stream, resolve, out),
    ;
}

impl<T, R: Resolve> FromPrimitive<R> for Ref<T> {
    /// A `Reference` primitive yields the wrapped plain reference; every
    /// other variant is a type mismatch. No resolver is consulted.
    open spec fn from_primitive_ens(p: Primitive, resolve: &R, out: Result<Self, ErrorKind>) -> bool {
        match p {
            Primitive::Reference(r) => match out {
                Ok(rf) => rf@ == r,
                Err(_) => false,
            },
            _ => out == Err::<Self, ErrorKind>(ErrorKind::UnexpectedPrimitive),
        }
    }

    fn from_primitive(p: Primitive, resolve: &R) -> (out: Result<Self, ErrorKind>) {
        match p.as_reference() {
            Ok(r) => Ok(Ref::new(r)),
            Err(e) => Err(e),
        }
    }
}

impl<R: Resolve> FromPrimitive<R> for i32 {
    /// An `Integer` primitive yields its value; every other variant is a
    /// type mismatch. No resolver is consulted.
    open spec fn from_primitive_ens(p: Primitive, resolve: &R, out: Result<Self, ErrorKind>) -> bool {
        match p {
            Primitive::Integer(x) => out == Ok::<Self, ErrorKind>(x),
            _ => out == Err::<Self, ErrorKind>(ErrorKind::UnexpectedPrimitive),
        }
    }

    fn from_primitive(p: Primitive, resolve: &R) -> (out: Result<Self, ErrorKind>) {
        p.as_integer()
    }
}

impl<T: FromPrimitive<R>, R: Resolve> FromPrimitive<R> for MaybeRef<T> {
    /// A `Reference` primitive wraps without resolving and without touching
    /// `T`'s conversion; anything else is handed to `T`'s conversion on the
    /// same primitive with the same resolver, and its value, if any, is
    /// owned inline.
    open spec fn from_primitive_ens(p: Primitive, resolve: &R, out: Result<Self, ErrorKind>) -> bool {
        match p {
            Primitive::Reference(r) => match out {
                Ok(MaybeRef::Reference(rf)) => rf@ == r,
                _ => false,
            },
            _ => match out {
                Ok(MaybeRef::Owned(t)) => T::from_primitive_ens(p, resolve, Ok::<T, ErrorKind>(t)),
                Ok(MaybeRef::Reference(_)) => false,
                Err(e) => T::from_primitive_ens(p, resolve, Err::<T, ErrorKind>(e)),
            },
        }
    }

    fn from_primitive(p: Primitive, resolve: &R) -> (out: Result<Self, ErrorKind>) {
        match p {
            Primitive::Reference(r) => Ok(MaybeRef::Reference(Ref::new(r))),
            other => match T::from_primitive(other, resolve) {
                Ok(t) => Ok(MaybeRef::Owned(t)),
                Err(e) => Err(e),
            },
        }
    }
}

/// A reference primitive always converts to the reference wrapper around
/// exactly that plain reference — whatever `T` is, `T`'s own conversion
/// plays no part in the outcome.
pub proof fn lemma_maybe_ref_wraps_reference<T: FromPrimitive<R>, R: Resolve>(
    r: PlainRef,
    resolve: &R,
    out: Result<MaybeRef<T>, ErrorKind>,
)
    requires
        MaybeRef::<T>::from_primitive_ens(Primitive::Reference(r), resolve, out),
    ensures
        (match out {
            Ok(MaybeRef::Reference(rf)) => rf@ == r,
            _ => false,
        }),
{
}

/// A non-reference primitive converts through `T`'s own conversion, on the
/// same primitive and under the same resolver: a value becomes the inline
/// `Owned` variant, a failure is passed on unchanged.
pub proof fn lemma_maybe_ref_owns_value<T: FromPrimitive<R>, R: Resolve>(
    p: Primitive,
    resolve: &R,
    out: Result<MaybeRef<T>, ErrorKind>,
)
    requires
        !(p matches Primitive::Reference(_)),
        MaybeRef::<T>::from_primitive_ens(p, resolve, out),
    ensures
        (match out {
            Ok(MaybeRef::Owned(t)) => T::from_primitive_ens(p, resolve, Ok::<T, ErrorKind>(t)),
            Ok(MaybeRef::Reference(_)) => false,
            Err(e) => T::from_primitive_ens(p, resolve, Err::<T, ErrorKind>(e)),
        }),
{
}

} // verus!
