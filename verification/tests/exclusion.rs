use zip_info::error::ReportError;
use zip_info::exclusion::ExclusionFilter;

#[test]
fn literal_pattern_matches_its_own_text_only() {
    let filter = ExclusionFilter::new("foo.txt").unwrap();
    assert!(filter.matches("foo.txt"));
    assert!(!filter.matches("foo.txt2"));
    assert!(!filter.matches("Foo.txt"));
    assert!(!filter.matches(""));
}

#[test]
fn empty_pattern_excludes_nothing() {
    let filter = ExclusionFilter::new("").unwrap();
    assert!(!filter.matches("foo.txt"));
    assert!(!filter.matches(""));
    assert!(!filter.matches("*"));
}

#[test]
fn wildcards_match_as_in_a_shell() {
    let star = ExclusionFilter::new("*.txt").unwrap();
    assert!(star.matches("foo.txt"));
    assert!(star.matches("dir/foo.txt"));
    assert!(!star.matches("foo.rs"));
    let mark = ExclusionFilter::new("c?t").unwrap();
    assert!(mark.matches("cat"));
    assert!(!mark.matches("cart"));
    let class = ExclusionFilter::new("k[!e]tteh").unwrap();
    assert!(class.matches("kitteh"));
    assert!(!class.matches("ketteh"));
    let range = ExclusionFilter::new("file[0-9]").unwrap();
    assert!(range.matches("file7"));
    assert!(!range.matches("filex"));
}

#[test]
fn closing_bracket_alone_is_literal() {
    let filter = ExclusionFilter::new("a]b").unwrap();
    assert!(filter.matches("a]b"));
    assert!(!filter.matches("ab"));
}

#[test]
fn malformed_pattern_is_a_configuration_error() {
    let refused = ExclusionFilter::new("a[").err().unwrap();
    assert_eq!(refused, ReportError::ConfigurationError { pattern: String::from("a[") });
    assert_eq!(refused.message(), "invalid exclusion pattern: a[");
    assert!(ExclusionFilter::new("***").is_err());
    assert!(ExclusionFilter::new("a**b").is_err());
}

#[test]
fn literal_pattern_with_a_separator_matches_its_own_text() {
    let filter = ExclusionFilter::new("dir/foo.txt").unwrap();
    assert!(filter.matches("dir/foo.txt"));
    assert!(!filter.matches("dir/bar.txt"));
}
