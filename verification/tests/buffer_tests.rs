use rust_expander::buffer::KeyBuffer;

#[test]
fn test_push_and_content() {
    let mut buf = KeyBuffer::new(5);
    buf.push('a');
    buf.push('b');
    buf.push('c');
    assert_eq!(buf.content(), "abc");
}

#[test]
fn test_overflow() {
    let mut buf = KeyBuffer::new(3);
    buf.push('a');
    buf.push('b');
    buf.push('c');
    buf.push('d');
    assert_eq!(buf.content(), "bcd");
    assert_eq!(buf.len(), 3);
}

#[test]
fn test_ends_with() {
    let mut buf = KeyBuffer::new(10);
    buf.push('h');
    buf.push('e');
    buf.push('l');
    buf.push('l');
    buf.push('o');
    assert!(buf.ends_with("llo"));
    assert!(buf.ends_with("hello"));
    assert!(!buf.ends_with("hell"));
    assert!(!buf.ends_with("hello!"));
    assert!(buf.ends_with(""));
}

#[test]
fn test_pop() {
    let mut buf = KeyBuffer::new(3);
    buf.push('a');
    buf.push('b');
    assert_eq!(buf.pop(), Some('b'));
    assert_eq!(buf.content(), "a");
    buf.push('c');
    assert_eq!(buf.content(), "ac");
    assert_eq!(buf.pop(), Some('c'));
    assert_eq!(buf.pop(), Some('a'));
    assert_eq!(buf.pop(), None);
}

#[test]
fn test_clear() {
    let mut buf = KeyBuffer::new(3);
    buf.push('a');
    buf.clear();
    assert_eq!(buf.len(), 0);
    assert!(buf.is_empty());
    assert_eq!(buf.content(), "");
}

#[test]
fn zero_capacity_buffer_stays_empty() {
    let mut buf = KeyBuffer::new(0);
    buf.push('x');
    assert_eq!(buf.len(), 0);
    assert!(buf.is_empty());
    assert_eq!(buf.pop(), None);
    assert_eq!(buf.content(), "");
    assert!(buf.ends_with(""));
    assert!(!buf.ends_with("x"));
}

#[test]
fn pop_after_wrap_returns_newest_and_keeps_rest_in_order() {
    let mut buf = KeyBuffer::new(3);
    for c in "abcd".chars() {
        buf.push(c);
    }
    assert_eq!(buf.pop(), Some('d'));
    assert_eq!(buf.content(), "bc");
    assert!(buf.ends_with("bc"));
    buf.push('e');
    assert_eq!(buf.content(), "bce");
}

#[test]
fn pop_undoes_push_when_not_full() {
    let mut buf = KeyBuffer::new(4);
    buf.push('x');
    buf.push('y');
    buf.push('z');
    assert_eq!(buf.pop(), Some('z'));
    assert_eq!(buf.content(), "xy");
}

#[test]
fn window_keeps_last_characters_typed() {
    let mut buf = KeyBuffer::new(4);
    for c in "the quick brown".chars() {
        buf.push(c);
    }
    assert_eq!(buf.content(), "rown");
    assert_eq!(buf.len(), 4);
    assert!(buf.ends_with("own"));
    assert!(!buf.ends_with("brown"));
}

#[test]
fn typed_trigger_matches_across_wraparound() {
    let mut buf = KeyBuffer::new(5);
    for c in "xxxxxxx:sig".chars() {
        buf.push(c);
    }
    assert!(buf.ends_with(":sig"));
    assert!(buf.ends_with("x:sig"));
    assert!(!buf.ends_with("xx:sig"));
}

#[test]
fn ends_with_non_ascii_trigger() {
    let mut buf = KeyBuffer::new(8);
    for c in "fødsel😀".chars() {
        buf.push(c);
    }
    assert!(buf.ends_with("sel😀"));
    assert!(!buf.ends_with("sel"));
    assert_eq!(buf.content(), "fødsel😀");
}

#[test]
fn push_then_pop_on_full_buffer_loses_only_oldest() {
    let mut buf = KeyBuffer::new(3);
    for c in "abc".chars() {
        buf.push(c);
    }
    buf.push('z');
    assert_eq!(buf.pop(), Some('z'));
    assert_eq!(buf.content(), "bc");
}

#[test]
fn len_never_exceeds_capacity() {
    let mut buf = KeyBuffer::new(2);
    for c in "abcdef".chars() {
        buf.push(c);
        assert!(buf.len() <= 2);
    }
    assert_eq!(buf.len(), 2);
    buf.pop();
    buf.clear();
    assert_eq!(buf.len(), 0);
}

#[test]
fn ends_with_after_wrap_and_pop() {
    let mut buf = KeyBuffer::new(3);
    for c in "xyzab".chars() {
        buf.push(c);
    }
    assert!(buf.ends_with("zab"));
    assert!(buf.ends_with("b"));
    assert!(!buf.ends_with("yzab"));
    assert!(!buf.ends_with("xab"));
    buf.pop();
    assert!(buf.ends_with("za"));
    assert!(!buf.ends_with("ab"));
}
