use llm_local::tokens::estimate_tokens;

fn by_float(len: usize) -> u32 {
    (len as f32 / 4.0).ceil() as u32
}

#[test]
fn a_quarter_of_the_bytes_rounded_up() {
    assert_eq!(estimate_tokens(0), 0);
    assert_eq!(estimate_tokens(1), 1);
    assert_eq!(estimate_tokens(4), 1);
    assert_eq!(estimate_tokens(5), 2);
    assert_eq!(estimate_tokens(16_777_216), 4_194_304);
}

#[test]
fn long_texts_are_rounded_to_single_precision() {
    assert_eq!(estimate_tokens(16_777_217), 4_194_304);
    assert_eq!(estimate_tokens(16_777_219), 4_194_305);
    assert_eq!(estimate_tokens(33_554_437), 8_388_609);
    for shift in 20..48 {
        for d in 0..9usize {
            let n = (1usize << shift) - 4 + d;
            assert_eq!(estimate_tokens(n), by_float(n));
            let m = (1usize << shift) + (1usize << (shift - 20)) * d + d;
            assert_eq!(estimate_tokens(m), by_float(m));
        }
    }
}

#[test]
fn the_estimate_stops_at_the_largest_count() {
    assert_eq!(estimate_tokens(usize::MAX), u32::MAX);
    assert_eq!(estimate_tokens(usize::MAX), by_float(usize::MAX));
}

#[test]
fn longer_texts_have_no_fewer_tokens() {
    let mut last: u32 = 0;
    for n in 16_777_200..16_777_300usize {
        let r = estimate_tokens(n);
        assert!(last <= r);
        last = r;
    }
}
