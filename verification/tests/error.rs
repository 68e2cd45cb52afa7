use std::convert::Infallible;
use tree_sitter_facade::{IncludedRangesError, LanguageError, ParserError, QueryError};

fn query_diagnostic(message: &str, kind: tree_sitter::QueryErrorKind) -> tree_sitter::QueryError {
    tree_sitter::QueryError { row: 1, column: 2, offset: 3, message: message.to_string(), kind }
}

#[test]
fn included_ranges_error_shows_the_diagnostic() {
    let e = IncludedRangesError::from(tree_sitter::IncludedRangesError(3));
    assert_eq!(e.to_string(), "IncludedRangesError(3)");
    assert_eq!(e.to_string(), format!("{:?}", tree_sitter::IncludedRangesError(3)));
}

#[test]
fn included_ranges_error_text_is_never_empty() {
    for index in [0usize, 1, 17, usize::MAX] {
        let e = IncludedRangesError::from(tree_sitter::IncludedRangesError(index));
        assert!(!e.to_string().is_empty());
    }
}

#[test]
fn included_ranges_error_comes_from_its_diagnostic() {
    let e: IncludedRangesError = tree_sitter::IncludedRangesError(4).into();
    assert_eq!(e, IncludedRangesError::from(tree_sitter::IncludedRangesError(4)));
    assert_ne!(e, IncludedRangesError::from(tree_sitter::IncludedRangesError(5)));
}

#[test]
fn query_error_shows_the_diagnostic() {
    let e = QueryError::from(query_diagnostic("bad", tree_sitter::QueryErrorKind::Syntax));
    assert_eq!(
        e.to_string(),
        "QueryError { row: 1, column: 2, offset: 3, message: \"bad\", kind: Syntax }"
    );
    assert_eq!(
        e.to_string(),
        format!("{:?}", query_diagnostic("bad", tree_sitter::QueryErrorKind::Syntax))
    );
}

#[test]
fn query_error_text_is_never_empty() {
    let e = QueryError::from(query_diagnostic("", tree_sitter::QueryErrorKind::Language));
    assert!(!e.to_string().is_empty());
    let f = QueryError::from(query_diagnostic("x", tree_sitter::QueryErrorKind::Capture));
    assert!(f.to_string().contains("Capture"));
    assert!(f.to_string().contains("\"x\""));
}

#[test]
fn query_error_comes_from_its_diagnostic() {
    let e: QueryError = query_diagnostic("bad", tree_sitter::QueryErrorKind::Field).into();
    assert_eq!(e, QueryError::from(query_diagnostic("bad", tree_sitter::QueryErrorKind::Field)));
    assert_ne!(e, QueryError::from(query_diagnostic("bad", tree_sitter::QueryErrorKind::Syntax)));
    assert_ne!(e, QueryError::from(query_diagnostic("worse", tree_sitter::QueryErrorKind::Field)));
}

#[test]
fn errors_debug_shows_the_diagnostic() {
    let e = IncludedRangesError::from(tree_sitter::IncludedRangesError(3));
    assert!(format!("{:?}", e).contains("IncludedRangesError(3)"));
    let q = QueryError::from(query_diagnostic("bad", tree_sitter::QueryErrorKind::Predicate));
    assert!(format!("{:?}", q).contains("Predicate"));
}

fn error_shared_between_threads<T: Send + Sync>() -> bool {
    true
}

#[test]
fn errors_can_be_shared_and_sent() {
    assert!(error_shared_between_threads::<IncludedRangesError>());
    assert!(error_shared_between_threads::<QueryError>());
    assert!(error_shared_between_threads::<LanguageError>());
    assert!(error_shared_between_threads::<ParserError>());
}

fn never_built(error: Option<ParserError>) -> Option<Infallible> {
    error.map(|e| e.inner())
}

#[test]
fn parser_error_has_no_value() {
    assert!(never_built(None).is_none());
    assert_eq!(std::mem::size_of::<ParserError>(), 0);
}
