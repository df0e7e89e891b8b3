use std::borrow::Cow;

use into_static::IntoStatic;

fn text<'a>(wrapper: &'a Cow<'static, str>) -> &'a str {
    assert!(matches!(wrapper, Cow::Owned(_)));
    wrapper.as_ref()
}

fn b(value: &str) -> Cow<'_, str> {
    Cow::Borrowed(value)
}

#[test]
fn tuple_of_one() {
    let out: (Cow<'static, str>,) = (b("a"),).into_static();
    assert_eq!(text(&out.0), "a");
}

#[test]
fn tuple_of_two_keeps_places() {
    let out: (Cow<'static, str>, Cow<'static, [u8]>) =
        (b("left"), Cow::Borrowed(&[7u8][..])).into_static();
    assert_eq!(text(&out.0), "left");
    assert!(matches!(out.1, Cow::Owned(_)));
    assert_eq!(out.1.as_ref(), &[7u8][..]);
}

#[test]
fn tuple_of_three() {
    let out = (b("a"), b("b"), b("c")).into_static();
    assert_eq!((text(&out.0), text(&out.1), text(&out.2)), ("a", "b", "c"));
}

#[test]
fn tuple_of_four() {
    let out = (b("a"), b("b"), b("c"), b("d")).into_static();
    assert_eq!(
        (text(&out.0), text(&out.1), text(&out.2), text(&out.3)),
        ("a", "b", "c", "d")
    );
}

#[test]
fn tuple_of_five() {
    let out = (b("a"), b("b"), b("c"), b("d"), b("e")).into_static();
    assert_eq!(
        (text(&out.0), text(&out.1), text(&out.2), text(&out.3), text(&out.4)),
        ("a", "b", "c", "d", "e")
    );
}

#[test]
fn tuple_of_six() {
    let out = (b("a"), b("b"), b("c"), b("d"), b("e"), b("f")).into_static();
    assert_eq!(
        (text(&out.0), text(&out.1), text(&out.2), text(&out.3), text(&out.4), text(&out.5)),
        ("a", "b", "c", "d", "e", "f")
    );
}

#[test]
fn tuple_of_seven() {
    let out = (b("a"), b("b"), b("c"), b("d"), b("e"), b("f"), b("g")).into_static();
    assert_eq!(
        (
            text(&out.0),
            text(&out.1),
            text(&out.2),
            text(&out.3),
            text(&out.4),
            text(&out.5),
            text(&out.6)
        ),
        ("a", "b", "c", "d", "e", "f", "g")
    );
}

#[test]
fn tuple_of_eight() {
    let out = (b("a"), b("b"), b("c"), b("d"), b("e"), b("f"), b("g"), b("h")).into_static();
    assert_eq!(
        (
            text(&out.0),
            text(&out.1),
            text(&out.2),
            text(&out.3),
            text(&out.4),
            text(&out.5),
            text(&out.6),
            text(&out.7)
        ),
        ("a", "b", "c", "d", "e", "f", "g", "h")
    );
}

#[test]
fn tuple_of_nine() {
    let out =
        (b("a"), b("b"), b("c"), b("d"), b("e"), b("f"), b("g"), b("h"), b("i")).into_static();
    assert_eq!(
        (
            text(&out.0),
            text(&out.1),
            text(&out.2),
            text(&out.3),
            text(&out.4),
            text(&out.5),
            text(&out.6),
            text(&out.7),
            text(&out.8)
        ),
        ("a", "b", "c", "d", "e", "f", "g", "h", "i")
    );
}

#[test]
fn tuple_of_ten() {
    let out = (b("a"), b("b"), b("c"), b("d"), b("e"), b("f"), b("g"), b("h"), b("i"), b("j"))
        .into_static();
    assert_eq!(
        (
            text(&out.0),
            text(&out.1),
            text(&out.2),
            text(&out.3),
            text(&out.4),
            text(&out.5),
            text(&out.6),
            text(&out.7),
            text(&out.8),
            text(&out.9)
        ),
        ("a", "b", "c", "d", "e", "f", "g", "h", "i", "j")
    );
}

#[test]
fn tuple_of_eleven() {
    let out = (
        b("a"),
        b("b"),
        b("c"),
        b("d"),
        b("e"),
        b("f"),
        b("g"),
        b("h"),
        b("i"),
        b("j"),
        b("k"),
    )
        .into_static();
    assert_eq!(
        (
            text(&out.0),
            text(&out.1),
            text(&out.2),
            text(&out.3),
            text(&out.4),
            text(&out.5),
            text(&out.6),
            text(&out.7),
            text(&out.8),
            text(&out.9),
            text(&out.10)
        ),
        ("a", "b", "c", "d", "e", "f", "g", "h", "i", "j", "k")
    );
}

#[test]
fn tuple_of_twelve_mixes_shapes() {
    let value = (
        b("a"),
        Some(b("b")),
        None::<Cow<'_, str>>,
        Ok::<Cow<'_, str>, Cow<'_, [u8]>>(b("d")),
        Err::<Cow<'_, str>, Cow<'_, [u8]>>(Cow::Borrowed(&[5u8][..])),
        [b("f1"), b("f2")],
        vec![b("g")],
        (b("h"),),
        Cow::Owned::<str>(String::from("i")),
        b("j"),
        b("k"),
        b("l"),
    );
    let out = value.into_static();
    assert_eq!(text(&out.0), "a");
    assert_eq!(out.1.as_ref().map(text), Some("b"));
    assert!(out.2.is_none());
    assert_eq!(out.3.as_ref().map(text).ok(), Some("d"));
    assert_eq!(out.4, Err(Cow::Owned(vec![5u8])));
    assert_eq!((text(&out.5[0]), text(&out.5[1])), ("f1", "f2"));
    assert_eq!(out.6.len(), 1);
    assert_eq!(text(&out.6[0]), "g");
    assert_eq!(text(&(out.7).0), "h");
    assert_eq!(text(&out.8), "i");
    assert_eq!(text(&out.9), "j");
    assert_eq!(text(&out.10), "k");
    assert_eq!(text(&out.11), "l");
}
