use mumble_link::codec::{copy, read};

/// UTF-16 code units of a text followed by the terminating zero unit.
fn wide_lit(s: &str) -> Vec<u16> {
    let mut v: Vec<u16> = s.encode_utf16().collect();
    v.push(0);
    v
}

#[test]
fn test_wide() {
    let wide = wide_lit("MumbleLink");
    for (i, b) in "MumbleLink".bytes().enumerate() {
        assert_eq!(b as u16, wide[i]);
    }
    assert_eq!(0, wide[wide.len() - 1]);

    let mut wide = [1u16; 32];
    copy(&mut wide, "FooBar");
    assert_eq!(&wide[..7], &wide_lit("FooBar")[..]);
    assert_eq!("FooBar", read(&wide));

    let mut wide = [1u16; 3];
    copy(&mut wide, "ABC");
    assert_eq!(&wide[..], &wide_lit("AB")[..]);
    assert_eq!("AB", read(&wide));

    assert_eq!("BarFoo", read(&wide_lit("BarFoo")));
}

#[test]
fn round_trip_all_short_lengths() {
    // every length up to 255 fits a 256-unit buffer with its terminator
    for n in 0..256usize {
        let text: String = std::iter::repeat('a').take(n).collect();
        let mut buf = [0xEEEEu16; 256];
        copy(&mut buf, &text);
        assert_eq!(read(&buf), text, "length {}", n);
    }
}

#[test]
fn truncation_keeps_leading_units() {
    let text: String = std::iter::repeat('x').take(300).collect();
    let mut buf = [0u16; 256];
    copy(&mut buf, &text);
    let expect: String = std::iter::repeat('x').take(255).collect();
    assert_eq!(read(&buf), expect);
    assert_eq!(buf[255], 0);

    for n in 2..10usize {
        let text: String = std::iter::repeat('y').take(n).collect();
        let mut buf = vec![7u16; n]; // capacity n, text of n units
        copy(&mut buf, &text);
        let expect: String = std::iter::repeat('y').take(n - 1).collect();
        assert_eq!(read(&buf), expect, "capacity {}", n);
    }
}

#[test]
fn zero_capacity_writes_nothing() {
    let mut buf: [u16; 0] = [];
    copy(&mut buf, "abc");
    assert_eq!(read(&buf), "");
}

#[test]
fn surrogate_pairs_round_trip() {
    let text = "a\u{1F600}b";
    let mut buf = [1u16; 16];
    copy(&mut buf, text);
    assert_eq!(&buf[..5], &wide_lit(text)[..]);
    assert_eq!(read(&buf), text);
}

#[test]
fn split_surrogate_pair_is_truncated_lossily() {
    // capacity 2 leaves room for one unit: only the high surrogate fits
    let mut buf = [9u16; 2];
    copy(&mut buf, "\u{1F600}");
    assert_eq!(buf[1], 0);
    assert_eq!(read(&buf), "\u{FFFD}");
}

#[test]
fn decoding_stops_at_first_zero_unit() {
    let buf = [72u16, 0, 105, 105, 105];
    assert_eq!(read(&buf), "H");
    let no_zero = [72u16, 105];
    assert_eq!(read(&no_zero), "Hi");
}

#[test]
fn unpaired_surrogates_decode_to_replacement() {
    assert_eq!(read(&[0xD800u16, 66, 0]), "\u{FFFD}B");
    assert_eq!(read(&[0xDC00u16]), "\u{FFFD}");
    assert_eq!(read(&[0xD800u16, 0xDC00]), "\u{10000}");
}
