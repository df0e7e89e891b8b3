use std::borrow::Cow;

use into_static::IntoStatic;

fn is_owned<B: ?Sized + ToOwned>(wrapper: &Cow<'_, B>) -> bool {
    matches!(wrapper, Cow::Owned(_))
}

#[test]
fn present_text_becomes_owned() {
    let out: Option<Cow<'static, str>> = {
        let storage = String::from("hi");
        let value = Some(Cow::Borrowed(storage.as_str()));
        value.into_static()
    };
    let text = out.expect("a present value stays present");
    assert!(is_owned(&text));
    assert_eq!(text.as_ref(), "hi");
}

#[test]
fn failure_bytes_become_owned() {
    let out: Result<Cow<'static, str>, Cow<'static, [u8]>> = {
        let storage = vec![1u8, 2, 3];
        let value: Result<Cow<'_, str>, Cow<'_, [u8]>> = Err(Cow::Borrowed(&storage[..]));
        value.into_static()
    };
    match out {
        Err(bytes) => {
            assert!(is_owned(&bytes));
            assert_eq!(bytes.as_ref(), &[1u8, 2, 3][..]);
        }
        Ok(_) => panic!("a failure stays a failure"),
    }
}

#[test]
fn success_text_becomes_owned() {
    let value: Result<Cow<'_, str>, Cow<'_, [u8]>> = Ok(Cow::Borrowed("fine"));
    match value.into_static() {
        Ok(text) => {
            assert!(is_owned(&text));
            assert_eq!(text.as_ref(), "fine");
        }
        Err(_) => panic!("a success stays a success"),
    }
}

#[test]
fn array_of_three_keeps_order() {
    let out: [Cow<'static, str>; 3] = {
        let storage = [String::from("a"), String::from("b"), String::from("c")];
        let value = [
            Cow::Borrowed(storage[0].as_str()),
            Cow::Borrowed(storage[1].as_str()),
            Cow::Borrowed(storage[2].as_str()),
        ];
        value.into_static()
    };
    assert_eq!(out.len(), 3);
    assert!(out.iter().all(is_owned));
    assert_eq!(out[0].as_ref(), "a");
    assert_eq!(out[1].as_ref(), "b");
    assert_eq!(out[2].as_ref(), "c");
}

#[test]
fn empty_array_stays_empty() {
    let value: [Cow<'_, str>; 0] = [];
    let out: [Cow<'static, str>; 0] = value.into_static();
    assert_eq!(out.len(), 0);
}

#[test]
fn pair_of_text_and_optional_text() {
    let out: (Cow<'static, str>, Option<Cow<'static, str>>) = {
        let x = String::from("x");
        let y = String::from("y");
        let value = (Cow::Borrowed(x.as_str()), Some(Cow::Borrowed(y.as_str())));
        value.into_static()
    };
    assert!(is_owned(&out.0));
    assert_eq!(out.0.as_ref(), "x");
    let second = out.1.expect("a present value stays present");
    assert!(is_owned(&second));
    assert_eq!(second.as_ref(), "y");
}

#[test]
fn empty_vector_stays_empty() {
    let value: Vec<Cow<'_, str>> = Vec::new();
    let out: Vec<Cow<'static, str>> = value.into_static();
    assert!(out.is_empty());
}

#[test]
fn owned_wrapper_upgraded_twice_is_unchanged() {
    let first: Cow<'static, str> = Cow::Borrowed("again").into_static();
    let kept = first.clone();
    let second: Cow<'static, str> = first.into_static();
    assert!(is_owned(&second));
    assert_eq!(second, kept);
    assert_eq!(second.as_ref(), "again");
}

#[test]
fn absent_stays_absent() {
    let value: Option<Cow<'_, [u8]>> = None;
    let out: Option<Cow<'static, [u8]>> = value.into_static();
    assert!(out.is_none());
}

#[test]
fn vector_keeps_length_and_order() {
    let storage = [String::from("one"), String::from("two"), String::from("three")];
    let value: Vec<Cow<'_, str>> = vec![
        Cow::Borrowed(storage[0].as_str()),
        Cow::Owned(String::from("between")),
        Cow::Borrowed(storage[1].as_str()),
        Cow::Borrowed(storage[2].as_str()),
    ];
    let out: Vec<Cow<'static, str>> = value.into_static();
    assert_eq!(out.len(), 4);
    assert!(out.iter().all(is_owned));
    let texts: Vec<&str> = out.iter().map(|text| text.as_ref()).collect();
    assert_eq!(texts, vec!["one", "between", "two", "three"]);
}

#[test]
fn text_wrappers_normalize() {
    let borrowed: Cow<'_, str> = Cow::Borrowed("same");
    let owned: Cow<'_, str> = Cow::Owned(String::from("same"));
    let from_borrowed = borrowed.into_static();
    let from_owned = owned.into_static();
    assert!(is_owned(&from_borrowed));
    assert!(is_owned(&from_owned));
    assert_eq!(from_borrowed, from_owned);
    assert_eq!(from_borrowed.as_ref(), "same");
}

#[test]
fn byte_wrappers_normalize() {
    let bytes = [9u8, 8, 7, 0, 255];
    let borrowed: Cow<'_, [u8]> = Cow::Borrowed(&bytes[..]);
    let owned: Cow<'_, [u8]> = Cow::Owned(bytes.to_vec());
    let from_borrowed = borrowed.into_static();
    let from_owned = owned.into_static();
    assert!(is_owned(&from_borrowed));
    assert!(is_owned(&from_owned));
    assert_eq!(from_borrowed, from_owned);
    assert_eq!(from_borrowed.as_ref(), &[9u8, 8, 7, 0, 255][..]);
}

#[test]
fn empty_text_and_bytes() {
    let text: Cow<'static, str> = Cow::Borrowed("").into_static();
    assert!(is_owned(&text));
    assert_eq!(text.as_ref(), "");
    let none: [u8; 0] = [];
    let bytes: Cow<'static, [u8]> = Cow::Borrowed(&none[..]).into_static();
    assert!(is_owned(&bytes));
    assert!(bytes.is_empty());
}

#[test]
fn borrowed_sequence_of_wrappers_owns_storage_and_items() {
    let out: Cow<'static, [Cow<'static, str>]> = {
        let a = String::from("a");
        let b = String::from("b");
        let items = [Cow::Borrowed(a.as_str()), Cow::Borrowed(b.as_str())];
        let value: Cow<'_, [Cow<'_, str>]> = Cow::Borrowed(&items[..]);
        value.into_static()
    };
    assert!(is_owned(&out));
    assert_eq!(out.len(), 2);
    assert!(out.iter().all(is_owned));
    assert_eq!(out[0].as_ref(), "a");
    assert_eq!(out[1].as_ref(), "b");
}

#[test]
fn owned_sequence_of_wrappers_owns_items() {
    let c = String::from("c");
    let value: Cow<'_, [Cow<'_, str>]> =
        Cow::Owned(vec![Cow::Borrowed(c.as_str()), Cow::Owned(String::from("d"))]);
    let out: Cow<'static, [Cow<'static, str>]> = value.into_static();
    assert!(is_owned(&out));
    assert_eq!(out.len(), 2);
    assert!(out.iter().all(is_owned));
    assert_eq!(out[0].as_ref(), "c");
    assert_eq!(out[1].as_ref(), "d");
}

#[test]
fn empty_sequence_wrapper_becomes_owned() {
    let items: [Option<Cow<'_, str>>; 0] = [];
    let value: Cow<'_, [Option<Cow<'_, str>>]> = Cow::Borrowed(&items[..]);
    let out: Cow<'static, [Option<Cow<'static, str>>]> = value.into_static();
    assert!(is_owned(&out));
    assert!(out.is_empty());
}

#[test]
fn upgrading_twice_changes_nothing() {
    let text = String::from("deep");
    let value: Vec<Result<Option<Cow<'_, str>>, (Cow<'_, [u8]>,)>> = vec![
        Ok(Some(Cow::Borrowed(text.as_str()))),
        Ok(None),
        Err((Cow::Borrowed(&[4u8, 5][..]),)),
    ];
    let first = value.into_static();
    let kept = first.clone();
    let second = first.into_static();
    assert_eq!(second, kept);
    assert_eq!(second.len(), 3);
    assert_eq!(second[0], Ok(Some(Cow::Owned(String::from("deep")))));
    assert_eq!(second[1], Ok(None));
    assert_eq!(second[2], Err((Cow::Owned(vec![4u8, 5]),)));
}

#[test]
fn nested_shapes_are_kept() {
    let value: Option<[Vec<Cow<'_, str>>; 2]> =
        Some([vec![Cow::Borrowed("p"), Cow::Borrowed("q")], Vec::new()]);
    let out: Option<[Vec<Cow<'static, str>>; 2]> = value.into_static();
    let rows = out.expect("a present value stays present");
    assert_eq!(rows[0].len(), 2);
    assert_eq!(rows[1].len(), 0);
    assert!(rows[0].iter().all(is_owned));
    assert_eq!(rows[0][0].as_ref(), "p");
    assert_eq!(rows[0][1].as_ref(), "q");
}

#[test]
fn array_and_sequence_upgraded_twice_are_unchanged() {
    let items = [Cow::Borrowed("m"), Cow::Borrowed("n")];
    let value: ([Cow<'_, str>; 2], Cow<'_, [Cow<'_, str>]>) =
        ([Cow::Borrowed("k"), Cow::Borrowed("l")], Cow::Borrowed(&items[..]));
    let first = value.into_static();
    let kept = first.clone();
    let second = first.into_static();
    assert_eq!(second, kept);
    assert!(second.0.iter().all(is_owned));
    assert!(is_owned(&second.1));
    assert!(second.1.iter().all(is_owned));
    assert_eq!(second.0[0].as_ref(), "k");
    assert_eq!(second.0[1].as_ref(), "l");
    assert_eq!(second.1[0].as_ref(), "m");
    assert_eq!(second.1[1].as_ref(), "n");
}
