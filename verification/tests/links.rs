use rust_scraping::error::ScrapeError;
use rust_scraping::links::choose_link;
use rust_scraping::links::resolve_link;

#[test]
fn relative_link_is_resolved_against_the_seed() {
    assert_eq!(
        resolve_link("https://example.com/jobs", "/jobs/42"),
        Ok("https://example.com/jobs/42".to_string())
    );
}

#[test]
fn relative_link_without_a_slash_replaces_the_last_segment() {
    assert_eq!(
        resolve_link("https://example.com/careers/list", "42"),
        Ok("https://example.com/careers/42".to_string())
    );
    assert_eq!(
        resolve_link("https://example.com/careers/", "42?x=1"),
        Ok("https://example.com/careers/42?x=1".to_string())
    );
}

#[test]
fn absolute_link_is_passed_through_unchanged() {
    assert_eq!(
        resolve_link("https://example.com/jobs", "https://other.org/jobs/7"),
        Ok("https://other.org/jobs/7".to_string())
    );
    assert_eq!(
        resolve_link("https://example.com/jobs", "https://other.org"),
        Ok("https://other.org".to_string())
    );
    assert_eq!(
        resolve_link("not a seed", "HTTPS://Other.org/A b"),
        Ok("HTTPS://Other.org/A b".to_string())
    );
}

#[test]
fn link_that_cannot_be_resolved_fails() {
    assert_eq!(resolve_link("not a seed", "/jobs/42"), Err(ScrapeError::BadUrl));
    assert_eq!(resolve_link("", ""), Err(ScrapeError::BadUrl));
    assert_eq!(resolve_link("mailto:jobs@example.com", "/jobs/42"), Err(ScrapeError::BadUrl));
}

#[test]
fn empty_link_resolves_to_the_seed() {
    assert_eq!(
        resolve_link("https://example.com/jobs?page=2", ""),
        Ok("https://example.com/jobs?page=2".to_string())
    );
}

#[test]
fn choose_link_settles_each_case() {
    assert_eq!(choose_link("a", true, None), Ok("a".to_string()));
    assert_eq!(choose_link("a", true, Some("b".to_string())), Ok("a".to_string()));
    assert_eq!(choose_link("a", false, Some("b".to_string())), Ok("b".to_string()));
    assert_eq!(choose_link("a", false, None), Err(ScrapeError::BadUrl));
}
