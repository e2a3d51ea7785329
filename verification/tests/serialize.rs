use pdf_object::object::{MaybeRef, Object, PlainRef, Ref};
use pdf_object::primitive::{is_renderable, text_is_printable, Dictionary, Primitive, Stream};

fn text_of<T: Object + ?Sized>(value: &T) -> String {
    let mut out: Vec<u8> = Vec::new();
    value.serialize(&mut out);
    String::from_utf8(out).unwrap()
}

#[test]
fn plain_ref_text() {
    let r = PlainRef { id: 12, gen: 0 };
    assert_eq!(text_of(&r), "12 0 R");
}

#[test]
fn plain_ref_extremes() {
    let r = PlainRef { id: u64::MAX, gen: u16::MAX };
    assert_eq!(text_of(&r), "18446744073709551615 65535 R");
    let r0 = PlainRef { id: 0, gen: 0 };
    assert_eq!(text_of(&r0), "0 0 R");
}

#[test]
fn typed_ref_text() {
    let r: Ref<i32> = Ref::new(PlainRef { id: 3, gen: 2 });
    assert_eq!(text_of(&r), "3 2 R");
}

#[test]
fn typed_ref_from_id() {
    let r: Ref<bool> = Ref::from_id(7);
    assert_eq!(r.get_inner(), PlainRef { id: 7, gen: 0 });
    assert_eq!(text_of(&r), "7 0 R");
}

#[test]
fn typed_ref_copies() {
    let r: Ref<i32> = Ref::from_id(9);
    let s = r;
    assert_eq!(r.get_inner(), s.get_inner());
    assert_eq!(r.clone().get_inner(), PlainRef { id: 9, gen: 0 });
}

#[test]
fn integer_text() {
    assert_eq!(text_of(&0i32), "0");
    assert_eq!(text_of(&42i32), "42");
    assert_eq!(text_of(&-17i32), "-17");
    assert_eq!(text_of(&i32::MIN), "-2147483648");
    assert_eq!(text_of(&i32::MAX), "2147483647");
}

#[test]
fn boolean_text() {
    assert_eq!(text_of(&true), "true");
    assert_eq!(text_of(&false), "false");
}

#[test]
fn null_text() {
    assert_eq!(text_of(&Primitive::Null), "null");
}

#[test]
fn number_text() {
    assert_eq!(text_of(&Primitive::Number(String::from("3.25"))), "3.25");
    assert_eq!(text_of(&Primitive::Number(String::from("-0.5"))), "-0.5");
}

#[test]
fn string_escapes() {
    assert_eq!(text_of("A(B)\\C"), "A\\(B\\)\\\\C");
}

#[test]
fn string_specials_each_get_one_backslash() {
    assert_eq!(text_of("("), "\\(");
    assert_eq!(text_of(")"), "\\)");
    assert_eq!(text_of("\\"), "\\\\");
    assert_eq!(text_of("plain text 123"), "plain text 123");
    assert_eq!(text_of(""), "");
    assert_eq!(text_of(&String::from("(a)")), "\\(a\\)");
}

#[test]
fn name_text() {
    assert_eq!(text_of(&Primitive::Name(String::from("Catalog"))), "/Catalog");
}

#[test]
fn array_of_integers_text() {
    let v: Vec<i32> = vec![1, 2, 3];
    assert_eq!(text_of(&v), "[1 2 3]");
    let single: Vec<i32> = vec![5];
    assert_eq!(text_of(&single), "[5]");
    let empty: Vec<i32> = vec![];
    assert_eq!(text_of(&empty), "[]");
}

#[test]
fn array_of_primitives_text() {
    let v = Primitive::Array(vec![
        Primitive::Integer(1),
        Primitive::Boolean(true),
        Primitive::Null,
        Primitive::Reference(PlainRef { id: 4, gen: 1 }),
    ]);
    assert_eq!(text_of(&v), "[1 true null 4 1 R]");
}

#[test]
fn dictionary_text() {
    let mut d = Dictionary::new();
    d.insert(
        String::from("Type"),
        Primitive::Name(String::from("Catalog")),
    );
    d.insert(
        String::from("Pages"),
        Primitive::Reference(PlainRef { id: 3, gen: 0 }),
    );
    assert_eq!(text_of(&d), "<</Type /Catalog /Pages 3 0 R>>");
}

#[test]
fn dictionary_empty_and_single() {
    let d = Dictionary::new();
    assert_eq!(d.len(), 0);
    assert_eq!(text_of(&d), "<<>>");
    let mut one = Dictionary::new();
    one.insert(String::from("K"), Primitive::Integer(1));
    assert_eq!(one.len(), 1);
    assert_eq!(text_of(&one), "<</K 1>>");
}

#[test]
fn dictionary_keeps_insertion_order() {
    let mut d = Dictionary::new();
    d.insert(String::from("B"), Primitive::Integer(2));
    d.insert(String::from("A"), Primitive::Integer(1));
    d.insert(String::from("C"), Primitive::Integer(3));
    assert_eq!(text_of(&d), "<</B 2 /A 1 /C 3>>");
}

#[test]
fn nested_structures_text() {
    let mut inner = Dictionary::new();
    inner.insert(
        String::from("Kids"),
        Primitive::Array(vec![
            Primitive::Reference(PlainRef { id: 10, gen: 0 }),
            Primitive::Reference(PlainRef { id: 11, gen: 0 }),
        ]),
    );
    let outer = Primitive::Dictionary(inner);
    assert_eq!(text_of(&outer), "<</Kids [10 0 R 11 0 R]>>");
}

#[test]
fn slice_text() {
    let v: Vec<i32> = vec![4, -5];
    assert_eq!(text_of(&v[..]), "[4 -5]");
}

#[test]
fn renderability_is_decided_exactly() {
    assert!(is_renderable(&Primitive::Null));
    assert!(is_renderable(&Primitive::Name(String::from("Catalog"))));
    assert!(!is_renderable(&Primitive::Name(String::from("caf\u{e9}"))));
    assert!(!is_renderable(&Primitive::Name(String::from("tab\there"))));
    assert!(!is_renderable(&Primitive::Text(vec![65u8])));
    assert!(!is_renderable(&Primitive::Stream(Stream {
        info: Dictionary::new(),
        data: vec![],
    })));
    assert!(!is_renderable(&Primitive::Array(vec![
        Primitive::Integer(1),
        Primitive::Text(vec![]),
    ])));
    let mut d = Dictionary::new();
    d.insert(String::from("Body"), Primitive::Text(vec![]));
    assert!(!is_renderable(&Primitive::Dictionary(d)));
    assert!(text_is_printable("plain (text)"));
    assert!(!text_is_printable("caf\u{e9}"));
    assert!(!text_is_printable("\u{7f}"));
    assert!(text_is_printable(""));
}

#[test]
fn maybe_ref_text() {
    let owned: MaybeRef<i32> = MaybeRef::Owned(5);
    assert_eq!(text_of(&owned), "5");
    let reference: MaybeRef<i32> = MaybeRef::Reference(Ref::new(PlainRef { id: 1, gen: 0 }));
    assert_eq!(text_of(&reference), "1 0 R");
}
