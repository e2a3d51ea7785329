//! The untyped parsed representation of one object-syntax node, the ordered
//! string-keyed dictionary, the stream, and the exact byte-level rendering of
//! each of them.

use vstd::prelude::*;
use crate::decimal::{dec_i32, dec_u64, write_i32, write_u64};
use crate::err::ErrorKind;
use crate::escape::{escaped, write_escaped, write_verbatim};
use vstd::slice::slice_index_get;
use vstd::string::StringSliceAdditionalSpecFns;
use vstd::utf8::{encode_utf8, is_ascii_chars, is_ascii_chars_encode_utf8};

verus! {

/// Number of an indirect object.
pub type ObjNr = u64;

/// Generation number: a revision counter that lets an object number be
/// reused across incremental document updates.
pub type GenNr = u16;

/// An untyped indirect reference: object number plus generation number.
/// It never caches what it points at; resolution is always a separate step.
#[derive(Copy, Clone, Debug, PartialEq, Eq, Structural)]
pub struct PlainRef {
    pub id: ObjNr,
    pub gen: GenNr,
}

/// An ordered string-keyed dictionary. The entries keep their insertion
/// order, and that order is the order the serializer writes them in. Keys
/// are expected to be distinct; nothing here looks one up, so the type does
/// not enforce it.
#[derive(Debug, PartialEq, Eq)]
pub struct Dictionary {
    pub entries: Vec<(String, Primitive)>,
}

/// A stream: a dictionary describing a raw byte body.
#[derive(Debug, PartialEq, Eq)]
pub struct Stream {
    pub info: Dictionary,
    pub data: Vec<u8>,
}

/// The parsed, untyped representation of one object-syntax node.
#[derive(Debug, PartialEq, Eq)]
pub enum Primitive {
    Null,
    Integer(i32),
    /// A non-integral number, held as its minimal decimal text; the
    /// serializer writes that text verbatim.
    Number(String),
    Boolean(bool),
    /// Raw literal-string content; serializing this variant is an
    /// unimplemented extension point.
    Text(Vec<u8>),
    Name(String),
    Array(Vec<Primitive>),
    Dictionary(Dictionary),
    Stream(Stream),
    Reference(PlainRef),
}

impl Primitive {
    /// The inner reference of a `Reference`; any other variant is refused
    /// with `UnexpectedPrimitive`.
    pub fn as_reference(self) -> (out: Result<PlainRef, ErrorKind>)
        ensures
            (match self {
                Primitive::Reference(r) => out == Ok::<PlainRef, ErrorKind>(r),
                _ => out == Err::<PlainRef, ErrorKind>(ErrorKind::UnexpectedPrimitive),
            }),
    {
        match self {
            Primitive::Reference(r) => Ok(r),
            _ => Err(ErrorKind::UnexpectedPrimitive),
        }
    }

    /// The inner integer of an `Integer`; any other variant is refused
    /// with `UnexpectedPrimitive`.
    pub fn as_integer(self) -> (out: Result<i32, ErrorKind>)
        ensures
            (match self {
                Primitive::Integer(x) => out == Ok::<i32, ErrorKind>(x),
                _ => out == Err::<i32, ErrorKind>(ErrorKind::UnexpectedPrimitive),
            }),
    {
        match self {
            Primitive::Integer(x) => Ok(x),
            _ => Err(ErrorKind::UnexpectedPrimitive),
        }
    }
}

impl Dictionary {
    /// An empty dictionary.
    pub fn new() -> (d: Dictionary)
        ensures
            d.entries@ == Seq::<(String, Primitive)>::empty(),
    {
        Dictionary { entries: Vec::new() }
    }

    /// Appends one entry; it serializes after every entry already present.
    pub fn insert(&mut self, key: String, value: Primitive)
        ensures
            final(self).entries@ == old(self).entries@.push((key, value)),
    {
        self.entries.push((key, value));
    }

    /// How many entries the dictionary holds.
    pub fn len(&self) -> (n: usize)
        ensures
            n == self.entries@.len(),
    {
        self.entries.len()
    }
}

/// The bytes of a piece of text as they stand in the document: its UTF-8
/// form (for the ASCII text this format expects, one byte per character).
pub open spec fn text_bytes(s: Seq<char>) -> Seq<u8> {
    encode_utf8(s)
}

/// The text of a boolean: `true` or `false`.
pub open spec fn bool_text(b: bool) -> Seq<u8> {
    if b {
        seq![116u8, 114u8, 117u8, 101u8]
    } else {
        seq![102u8, 97u8, 108u8, 115u8, 101u8]
    }
}

/// The text of the null object: `null`.
pub open spec fn null_text() -> Seq<u8> {
    seq![110u8, 117u8, 108u8, 108u8]
}

/// The text of an indirect reference: `id gen R`.
pub open spec fn rendered_ref(r: PlainRef) -> Seq<u8> {
    dec_u64(r.id as nat) + seq![32u8] + dec_u64(r.gen as nat) + seq![32u8, 82u8]
}

/// One dictionary entry: `/key ` then the value's own rendering.
pub open spec fn rendered_entry(k: Seq<char>, v: Primitive) -> Seq<u8>
    decreases v, 1int,
{
    seq![47u8] + text_bytes(k) + seq![32u8] + rendered_primitive(v)
}

/// Dictionary entries in stored order, separated by single spaces.
pub open spec fn rendered_entries(entries: Seq<(String, Primitive)>) -> Seq<u8>
    decreases entries, 0int,
{
    if entries.len() == 0 {
        Seq::empty()
    } else if entries.len() == 1 {
        rendered_entry(entries[0].0@, entries[0].1)
    } else {
        rendered_entries(entries.drop_last()) + seq![32u8] + rendered_entry(
            entries.last().0@,
            entries.last().1,
        )
    }
}

/// A whole dictionary: `<<`, its entries, `>>`.
pub open spec fn rendered_dict(d: Dictionary) -> Seq<u8>
    decreases d, 0int,
{
    seq![60u8, 60u8] + rendered_entries(d.entries@) + seq![62u8, 62u8]
}

/// Array elements in order, separated by single spaces.
pub open spec fn rendered_items(els: Seq<Primitive>) -> Seq<u8>
    decreases els, 0int,
{
    if els.len() == 0 {
        Seq::empty()
    } else if els.len() == 1 {
        rendered_primitive(els[0])
    } else {
        rendered_items(els.drop_last()) + seq![32u8] + rendered_primitive(els.last())
    }
}

/// The object-syntax bytes of one primitive. The two variants the format
/// leaves open (`Text`, `Stream`) render as nothing here; they are ruled out
/// by [`renderable_primitive`].
pub open spec fn rendered_primitive(p: Primitive) -> Seq<u8>
    decreases p, 0int,
{
    match p {
        Primitive::Null => null_text(),
        Primitive::Integer(x) => dec_i32(x as int),
        Primitive::Number(t) => text_bytes(t@),
        Primitive::Boolean(b) => bool_text(b),
        Primitive::Text(_) => Seq::empty(),
        Primitive::Name(s) => seq![47u8] + escaped(text_bytes(s@)),
        Primitive::Array(els) => seq![91u8] + rendered_items(els@) + seq![93u8],
        Primitive::Dictionary(d) => rendered_dict(d),
        Primitive::Stream(_) => Seq::empty(),
        Primitive::Reference(r) => rendered_ref(r),
    }
}

/// Is every character of this text printable ASCII? Anything else in a name
/// or literal string is a contract violation of the caller, not a
/// recoverable error.
pub open spec fn printable_ascii(s: Seq<char>) -> bool {
    forall|i: int| 0 <= i < s.len() ==> ' ' <= #[trigger] s[i] <= '~'
}

/// May this primitive be serialized? `Text` and `Stream` are unimplemented
/// extension points, and name text must be printable ASCII.
pub open spec fn renderable_primitive(p: Primitive) -> bool
    decreases p,
{
    match p {
        Primitive::Null => true,
        Primitive::Integer(_) => true,
        Primitive::Number(_) => true,
        Primitive::Boolean(_) => true,
        Primitive::Text(_) => false,
        Primitive::Name(s) => printable_ascii(s@),
        Primitive::Array(els) => forall|i: int|
            0 <= i < els@.len() ==> renderable_primitive(#[trigger] els@[i]),
        Primitive::Dictionary(d) => renderable_dict(d),
        Primitive::Stream(_) => false,
        Primitive::Reference(_) => true,
    }
}

/// May this dictionary be serialized? Every value in it must be.
pub open spec fn renderable_dict(d: Dictionary) -> bool
    decreases d,
{
    forall|i: int|
        0 <= i < d.entries@.len() ==> renderable_primitive(#[trigger] d.entries@[i].1)
}

/// Growing a dictionary by one entry grows the serialized entry list by
/// exactly `/key `, the value's own rendering — and one separating space
/// when the entry is not the first. With [`rendered_dict`] wrapping the
/// list in `<<` and `>>`, this is the shape of the whole dictionary
/// serialization, entry by entry, in stored order.
pub proof fn lemma_dictionary_step(entries: Seq<(String, Primitive)>, i: int)
    requires
        0 <= i < entries.len(),
    ensures
        i == 0 ==> rendered_entries(entries.take(1)) == rendered_entry(
            entries[0].0@,
            entries[0].1,
        ),
        i > 0 ==> rendered_entries(entries.take(i + 1)) == rendered_entries(entries.take(i))
            + seq![32u8] + rendered_entry(entries[i].0@, entries[i].1),
{
    assert(entries.take(i + 1).drop_last() =~= entries.take(i));
    assert(entries.take(i + 1).last() == entries[i]);
}

/// Does every character of `s` lie in the printable ASCII range?
pub fn text_is_printable(s: &str) -> (b: bool)
    ensures
        b == printable_ascii(s@),
{
    if !s.is_ascii() {
        proof {
            if printable_ascii(s@) {
                assert forall|i: int| 0 <= i < s@.len() implies '\0' <= #[trigger] s@[i]
                    <= '\u{7f}' by {
                    assert(' ' <= s@[i] <= '~');
                }
                assert(is_ascii_chars(s@));
            }
        }
        return false;
    }
    proof {
        is_ascii_chars_encode_utf8(s@);
    }
    let bytes: &[u8] = s.as_bytes();
    let n: usize = bytes.len();
    let mut i: usize = 0;
    while i < n
        invariant
            is_ascii_chars(s@),
            bytes@ == encode_utf8(s@),
            n == bytes@.len(),
            n == s@.len(),
            i <= n,
            forall|j: int| 0 <= j < s@.len() ==> #[trigger] s@[j] as u8 == bytes@[j],
            forall|j: int| 0 <= j < i ==> ' ' <= #[trigger] s@[j] <= '~',
        decreases n - i,
    {
        let b: u8 = *slice_index_get(bytes, i);
        proof {
            assert(s@[i as int] as u8 == b);
            assert('\0' <= s@[i as int] <= '\u{7f}');
            assert((' ' <= s@[i as int] <= '~') == (32 <= b <= 126));
        }
        if b < 32 || b > 126 {
            return false;
        }
        i = i + 1;
    }
    true
}

/// Decides [`renderable_primitive`]: whether the serializer accepts `p`.
pub fn is_renderable(p: &Primitive) -> (b: bool)
    ensures
        b == renderable_primitive(*p),
    decreases *p,
{
    match p {
        Primitive::Null => true,
        Primitive::Integer(_) => true,
        Primitive::Number(_) => true,
        Primitive::Boolean(_) => true,
        Primitive::Text(_) => false,
        Primitive::Name(s) => text_is_printable(s.as_str()),
        Primitive::Array(els) => {
            let n: usize = els.len();
            let mut i: usize = 0;
            while i < n
                invariant
                    n == els@.len(),
                    i <= n,
                    p matches Primitive::Array(v) && v == els,
                    forall|j: int| 0 <= j < i ==> renderable_primitive(#[trigger] els@[j]),
                decreases n - i,
            {
                proof {
                    assert(decreases_to!(*p => els@[i as int]));
                }
                if !is_renderable(&els[i]) {
                    return false;
                }
                i = i + 1;
            }
            true
        },
        Primitive::Dictionary(d) => {
            let n: usize = d.entries.len();
            let mut i: usize = 0;
            while i < n
                invariant
                    n == d.entries@.len(),
                    i <= n,
                    p matches Primitive::Dictionary(v) && v == d,
                    forall|j: int|
                        0 <= j < i ==> renderable_primitive(#[trigger] d.entries@[j].1),
                decreases n - i,
            {
                proof {
                    assert(decreases_to!(*p => d.entries@[i as int].1));
                }
                let entry = &d.entries[i];
                if !is_renderable(&entry.1) {
                    proof {
                        reveal_with_fuel(renderable_primitive, 2);
                        assert(!renderable_dict(*d));
                    }
                    return false;
                }
                i = i + 1;
            }
            proof {
                reveal_with_fuel(renderable_primitive, 2);
                assert(renderable_dict(*d));
            }
            true
        },
        Primitive::Stream(_) => false,
        Primitive::Reference(_) => true,
    }
}

/// Appends `id gen R` to `out`.
pub fn write_plain_ref(r: &PlainRef, out: &mut Vec<u8>)
    ensures
        final(out)@ == old(out)@ + rendered_ref(*r),
{
    write_u64(r.id, out);
    out.push(32u8);
    write_u64(r.gen as u64, out);
    out.push(32u8);
    out.push(82u8);
    assert(out@ =~= old(out)@ + rendered_ref(*r));
}

/// Appends the object-syntax text of `p` to `out`.
pub fn write_primitive(p: &Primitive, out: &mut Vec<u8>)
    requires
        renderable_primitive(*p),
    ensures
        final(out)@ == old(out)@ + rendered_primitive(*p),
    decreases *p,
{
    match p {
        Primitive::Null => {
            out.push(110u8);
            out.push(117u8);
            out.push(108u8);
            out.push(108u8);
            assert(out@ =~= old(out)@ + rendered_primitive(*p));
        },
        Primitive::Integer(x) => {
            write_i32(*x, out);
        },
        Primitive::Number(t) => {
            write_verbatim(t.as_str(), out);
        },
        Primitive::Boolean(b) => {
            if *b {
                out.push(116u8);
                out.push(114u8);
                out.push(117u8);
                out.push(101u8);
            } else {
                out.push(102u8);
                out.push(97u8);
                out.push(108u8);
                out.push(115u8);
                out.push(101u8);
            }
            assert(out@ =~= old(out)@ + rendered_primitive(*p));
        },
        Primitive::Text(_) => {
            proof {
                assert(false);
            }
        },
        Primitive::Name(s) => {
            out.push(47u8);
            write_escaped(s.as_str(), out);
            assert(out@ =~= old(out)@ + rendered_primitive(*p));
        },
        Primitive::Array(els) => {
            out.push(91u8);
            let ghost opened = out@;
            assert(opened =~= old(out)@ + seq![91u8]);
            let n: usize = els.len();
            let mut i: usize = 0;
            while i < n
                invariant
                    n == els@.len(),
                    i <= n,
                    renderable_primitive(*p),
                    p matches Primitive::Array(v) && v == els,
                    out@ =~= opened + rendered_items(els@.take(i as int)),
                decreases n - i,
            {
                if i > 0 {
                    out.push(32u8);
                }
                proof {
                    assert(decreases_to!(*p => els@[i as int]));
                }
                write_primitive(&els[i], out);
                i = i + 1;
                proof {
                    let taken = els@.take(i as int);
                    assert(taken.drop_last() =~= els@.take(i - 1));
                    assert(taken.last() == els@[i - 1]);
                    assert(out@ =~= opened + rendered_items(taken));
                }
            }
            out.push(93u8);
            assert(els@.take(n as int) =~= els@);
            assert(out@ =~= old(out)@ + rendered_primitive(*p));
        },
        Primitive::Dictionary(d) => {
            proof {
                assert(decreases_to!(*p => *d));
            }
            write_dict(d, out);
        },
        Primitive::Stream(_) => {
            proof {
                assert(false);
            }
        },
        Primitive::Reference(r) => {
            write_plain_ref(r, out);
        },
    }
}

/// Appends `<<`, the entries in stored order, `>>` to `out`.
pub fn write_dict(d: &Dictionary, out: &mut Vec<u8>)
    requires
        renderable_dict(*d),
    ensures
        final(out)@ == old(out)@ + rendered_dict(*d),
    decreases *d,
{
    out.push(60u8);
    out.push(60u8);
    let ghost opened = out@;
    assert(opened =~= old(out)@ + seq![60u8, 60u8]);
    let n: usize = d.entries.len();
    let mut i: usize = 0;
    while i < n
        invariant
            n == d.entries@.len(),
            i <= n,
            renderable_dict(*d),
            out@ =~= opened + rendered_entries(d.entries@.take(i as int)),
        decreases n - i,
    {
        if i > 0 {
            out.push(32u8);
        }
        out.push(47u8);
        let entry = &d.entries[i];
        write_verbatim(entry.0.as_str(), out);
        out.push(32u8);
        proof {
            assert(decreases_to!(*d => d.entries@[i as int].1));
        }
        write_primitive(&entry.1, out);
        i = i + 1;
        proof {
            let es = d.entries@;
            let taken = es.take(i as int);
            let k = es[i - 1].0;
            let v = es[i - 1].1;
            assert(taken.drop_last() =~= es.take(i - 1));
            assert(taken.last() == es[i - 1]);
            assert(rendered_entry(k@, v) == seq![47u8] + text_bytes(k@) + seq![32u8]
                + rendered_primitive(v));
            if i == 1 {
                assert(rendered_entries(taken) == rendered_entry(taken[0].0@, taken[0].1));
                assert(out@ =~= opened + rendered_entries(taken));
            } else {
                assert(rendered_entries(taken) == rendered_entries(es.take(i - 1)) + seq![32u8]
                    + rendered_entry(k@, v));
                assert(out@ =~= opened + rendered_entries(taken));
            }
        }
    }
    out.push(62u8);
    out.push(62u8);
    assert(d.entries@.take(n as int) =~= d.entries@);
    assert(out@ =~= old(out)@ + rendered_dict(*d));
}

} // verus!
