use wrui::{
    decode_bool, encode_bool, marshal_text, DockWidget, Entry, MarshalError, NativeArg, ObjectRef,
    TableRef, Window,
};

fn window() -> Window {
    Window::new(TableRef::from_addr(0x1000), ObjectRef::from_addr(0x2000))
}

fn dock() -> DockWidget {
    DockWidget::new(TableRef::from_addr(0x3000), ObjectRef::from_addr(0x4000))
}

#[test]
fn text_is_followed_by_one_terminator() {
    assert_eq!(marshal_text("hello"), Ok(b"hello\0".to_vec()));
    assert_eq!(marshal_text("a b"), Ok(vec![0x61, 0x20, 0x62, 0x00]));
}

#[test]
fn empty_text_is_the_terminator_alone() {
    assert_eq!(marshal_text(""), Ok(vec![0u8]));
}

#[test]
fn text_beyond_ascii_keeps_its_bytes() {
    assert_eq!(marshal_text("é"), Ok(vec![0xc3, 0xa9, 0x00]));
    assert_eq!(marshal_text("日本"), Ok(vec![0xe6, 0x97, 0xa5, 0xe6, 0x9c, 0xac, 0x00]));
    assert_eq!(marshal_text("🙂"), Ok(vec![0xf0, 0x9f, 0x99, 0x82, 0x00]));
}

#[test]
fn marshalled_text_is_the_source_bytes_and_no_others() {
    for text in ["", "x", "Main Window", "tab\tnew\nline", "\u{1}\u{7f}\u{80}\u{7ff}\u{800}\u{ffff}\u{10000}\u{10ffff}"] {
        let buf = marshal_text(text).unwrap();
        assert_eq!(buf.len(), text.len() + 1);
        assert_eq!(&buf[..text.len()], text.as_bytes());
        assert_eq!(buf[text.len()], 0);
        assert_eq!(buf.iter().filter(|b| **b == 0).count(), 1);
    }
}

#[test]
fn embedded_terminator_is_reported_with_its_place() {
    assert_eq!(marshal_text("a\0b"), Err(MarshalError::EmbeddedTerminator { at: 1 }));
    assert_eq!(marshal_text("\0"), Err(MarshalError::EmbeddedTerminator { at: 0 }));
    assert_eq!(marshal_text("ab\0"), Err(MarshalError::EmbeddedTerminator { at: 2 }));
}

#[test]
fn first_of_several_terminators_is_reported() {
    assert_eq!(marshal_text("ab\0cd\0"), Err(MarshalError::EmbeddedTerminator { at: 2 }));
    assert_eq!(marshal_text("\0\0"), Err(MarshalError::EmbeddedTerminator { at: 0 }));
}

#[test]
fn terminator_place_counts_bytes() {
    assert_eq!(marshal_text("é\0"), Err(MarshalError::EmbeddedTerminator { at: 2 }));
    assert_eq!(marshal_text("日本\0語"), Err(MarshalError::EmbeddedTerminator { at: 6 }));
}

#[test]
fn set_title_carries_the_terminated_text() {
    let w = window();
    let call = w.set_title("Main Window").unwrap();
    assert_eq!(call.entry(), Entry::WindowSetTitle);
    assert_eq!(call.position(), 0);
    assert_eq!(call.table(), w.get_funcs());
    assert_eq!(call.object(), w.get_obj());
    assert_eq!(*call.args(), vec![NativeArg::Text(b"Main Window\0".to_vec())]);
}

#[test]
fn set_title_with_empty_text_carries_the_terminator() {
    let call = window().set_title("").unwrap();
    assert_eq!(*call.args(), vec![NativeArg::Text(vec![0])]);
}

#[test]
fn set_title_with_embedded_terminator_fails_without_a_call() {
    let r = window().set_title("a\0b");
    assert_eq!(r, Err(MarshalError::EmbeddedTerminator { at: 1 }));
    assert!(r.is_err());
    assert!(r.ok().is_none());
}

#[test]
fn set_title_recovers_after_a_failure() {
    let w = window();
    assert!(w.set_title("bad\0title").is_err());
    let call = w.set_title("good title").unwrap();
    assert_eq!(*call.args(), vec![NativeArg::Text(b"good title\0".to_vec())]);
}

#[test]
fn booleans_encode_as_one_and_zero() {
    assert_eq!(encode_bool(true), 1);
    assert_eq!(encode_bool(false), 0);
    assert_ne!(encode_bool(true), 0);
}

#[test]
fn nonzero_decodes_as_true() {
    assert!(!decode_bool(0));
    assert!(decode_bool(5));
    assert!(decode_bool(1));
    assert!(decode_bool(255));
    for raw in 1..=255u8 {
        assert!(decode_bool(raw));
    }
}

#[test]
fn booleans_survive_the_round_trip() {
    assert!(decode_bool(encode_bool(true)));
    assert!(!decode_bool(encode_bool(false)));
}

#[test]
fn set_floating_passes_nonzero_for_true_and_zero_for_false() {
    let d = dock();
    let on = d.set_floating(true);
    assert_eq!(on.entry(), Entry::DockWidgetSetFloating);
    assert_eq!(on.position(), 1);
    assert_eq!(on.object(), d.get_obj());
    assert_eq!(*on.args(), vec![NativeArg::Bool(1)]);
    let off = d.set_floating(false);
    assert_eq!(*off.args(), vec![NativeArg::Bool(0)]);
    match (&on.args()[0], &off.args()[0]) {
        (NativeArg::Bool(a), NativeArg::Bool(b)) => {
            assert!(*a != 0);
            assert!(*b == 0);
        }
        _ => panic!("set_floating must pass a boolean byte"),
    }
}

#[test]
fn is_floating_result_is_read_as_nonzero() {
    let call = dock().is_floating();
    assert_eq!(call.entry(), Entry::DockWidgetIsFloating);
    let native_says_no: u8 = 0;
    let native_says_five: u8 = 5;
    assert_eq!(decode_bool(native_says_no), false);
    assert_eq!(decode_bool(native_says_five), true);
}
