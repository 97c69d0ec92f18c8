use route_recognizer_tree::{ParseToParam, Slug};

#[test]
fn u64_reads_segment_and_leaves_rest() {
    let (v, rest) = <u64 as ParseToParam>::parse("12/x").unwrap();
    assert_eq!(v, 12);
    assert_eq!(rest, "/x");

    let (v, rest) = <u64 as ParseToParam>::parse("+7").unwrap();
    assert_eq!(v, 7);
    assert_eq!(rest, "");

    let (v, _) = <u64 as ParseToParam>::parse("18446744073709551615").unwrap();
    assert_eq!(v, u64::MAX);
}

#[test]
fn u64_rejects_what_is_not_a_number() {
    assert!(<u64 as ParseToParam>::parse("").is_err());
    assert!(<u64 as ParseToParam>::parse("/1").is_err());
    assert!(<u64 as ParseToParam>::parse("abc").is_err());
    assert!(<u64 as ParseToParam>::parse("1a/").is_err());
    assert!(<u64 as ParseToParam>::parse("-1").is_err());
    assert!(<u64 as ParseToParam>::parse("+").is_err());
    assert!(<u64 as ParseToParam>::parse("18446744073709551616").is_err());
}

#[test]
fn u32_and_usize_bounds() {
    let (v, rest) = <u32 as ParseToParam>::parse("4294967295/a").unwrap();
    assert_eq!(v, u32::MAX);
    assert_eq!(rest, "/a");
    assert!(<u32 as ParseToParam>::parse("4294967296").is_err());

    let (v, rest) = <usize as ParseToParam>::parse("5").unwrap();
    assert_eq!(v, 5);
    assert_eq!(rest, "");
    assert!(<usize as ParseToParam>::parse("x5").is_err());
}

#[test]
fn slug_reads_head_before_hyphen() {
    let (v, rest) = <Slug<u64> as ParseToParam>::parse("1-some-title").unwrap();
    assert_eq!(v, 1);
    assert_eq!(rest, "");

    let (v, rest) = <Slug<u64> as ParseToParam>::parse("1").unwrap();
    assert_eq!(v, 1);
    assert_eq!(rest, "");

    let (v, rest) = <Slug<u64> as ParseToParam>::parse("25-a-b/edit").unwrap();
    assert_eq!(v, 25);
    assert_eq!(rest, "/edit");
}

#[test]
fn slug_rejects_bad_head() {
    assert!(<Slug<u64> as ParseToParam>::parse("title-1").is_err());
    assert!(<Slug<u64> as ParseToParam>::parse("-1").is_err());
    assert!(<Slug<u64> as ParseToParam>::parse("").is_err());
}
