use glazed::address::{room_for, with_segments, PathError, ADDRESS_LIMIT};
use url::Url;

fn segments(list: &[&str]) -> Vec<String> {
    list.iter().map(|s| s.to_string()).collect()
}

#[test]
fn segments_are_appended_to_the_path() {
    let base = Url::parse("http://public.example.com").unwrap();
    let longer = with_segments(base, &segments(&["asset", "run", "primary", "det", "11"])).unwrap();
    assert_eq!(longer.as_str(), "http://public.example.com/asset/run/primary/det/11");
    let base = Url::parse("http://public.example.com/glazed?x=1#top").unwrap();
    let longer = with_segments(base, &segments(&["a b", "c/d", "100%"])).unwrap();
    assert_eq!(longer.as_str(), "http://public.example.com/glazed/a%20b/c%2Fd/100%25?x=1#top");
    let base = Url::parse("http://public.example.com/glazed/").unwrap();
    let longer = with_segments(base, &segments(&["asset"])).unwrap();
    assert_eq!(longer.as_str(), "http://public.example.com/glazed//asset");
    let base = Url::parse("http://public.example.com/glazed").unwrap();
    let same = with_segments(base, &Vec::new()).unwrap();
    assert_eq!(same.as_str(), "http://public.example.com/glazed");
}

#[test]
fn an_address_that_cannot_be_a_base_takes_no_segments() {
    let base = Url::parse("mailto:someone@example.com").unwrap();
    let outcome = with_segments(base, &segments(&["asset"]));
    assert!(matches!(outcome, Err(PathError::CannotBeABase)));
    let base = Url::parse("data:text/plain,hello").unwrap();
    let outcome = with_segments(base, &Vec::new());
    assert!(matches!(outcome, Err(PathError::CannotBeABase)));
}

#[test]
fn room_counts_twelve_bytes_for_a_character() {
    let base = Url::parse("http://h/").unwrap();
    assert_eq!(base.as_str().len(), 9);
    assert!(room_for(&base, &Vec::new()));
    assert!(room_for(&base, &segments(&["asset", "run"])));
    // 4 * 9 for the address, then 12 for each character and 4 for each segment
    let fits = (ADDRESS_LIMIT as usize - 36 - 4) / 12;
    let mut list = vec!["a".repeat(fits)];
    assert!(room_for(&base, &list));
    list[0].push('a');
    assert!(!room_for(&base, &list));
    let outcome = with_segments(base, &list);
    assert!(matches!(outcome, Err(PathError::TooLong)));
}

#[test]
fn path_errors_say_what_went_wrong() {
    assert_eq!(PathError::CannotBeABase.message(), "the address cannot be a base");
    assert_eq!(PathError::TooLong.message(), "the address is too long");
    let error = PathError::Unresolved(url::ParseError::RelativeUrlWithoutBase);
    assert_eq!(error.message(), "relative URL without a base");
}
