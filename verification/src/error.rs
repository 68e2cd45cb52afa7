//! The four kinds of error that the engine reports.
//!
//! Each kind holds exactly one diagnostic of the engine and shows it as text.
//! A kind is made from its diagnostic and in no other way, and it is told
//! from the others by its type, not by its text.

use std::convert::Infallible;
use tree_sitter::IncludedRangesError as NativeIncludedRangesError;
use tree_sitter::LanguageError as NativeLanguageError;
use tree_sitter::QueryError as NativeQueryError;
use vstd::prelude::*;

verus! {

/// `tree_sitter::IncludedRangesError`, the engine's diagnostic for a refused
/// set of included ranges. Nothing is said of what it holds.
#[verifier::external_type_specification]
#[verifier::external_body]
pub struct ExNativeIncludedRangesError(NativeIncludedRangesError);

/// `tree_sitter::QueryError`, the engine's diagnostic for a query that does
/// not compile. Nothing is said of what it holds.
#[verifier::external_type_specification]
#[verifier::external_body]
pub struct ExNativeQueryError(NativeQueryError);

/// `tree_sitter::LanguageError`, the engine's diagnostic for a language of a
/// version that it cannot run. Nothing is said of what it holds.
#[verifier::external_type_specification]
#[verifier::external_body]
pub struct ExNativeLanguageError(NativeLanguageError);

/// The text that `{:?}` gives for a diagnostic of refused ranges.
pub uninterp spec fn included_ranges_error_text(inner: NativeIncludedRangesError) -> Seq<char>;

/// The text that `{:?}` gives for a diagnostic of a query.
pub uninterp spec fn query_error_text(inner: NativeQueryError) -> Seq<char>;

/// The text that `{:?}` gives for a diagnostic of a language.
pub uninterp spec fn language_error_text(inner: NativeLanguageError) -> Seq<char>;

/// Renders a diagnostic of refused ranges with the `Debug` implementation
/// that `tree_sitter::IncludedRangesError` derives. The text depends on the
/// diagnostic alone and starts with the name of the type, so it is not empty.
#[verifier::external_body]
fn native_included_ranges_error_text(inner: &NativeIncludedRangesError) -> (text: String)
    ensures
        text@ == included_ranges_error_text(*inner),
        text@.len() > 0,
{
    format!("{:?}", inner)
}

/// Renders a diagnostic of a query with the `Debug` implementation that
/// `tree_sitter::QueryError` derives. The text depends on the diagnostic alone
/// and starts with the name of the type, so it is not empty.
#[verifier::external_body]
fn native_query_error_text(inner: &NativeQueryError) -> (text: String)
    ensures
        text@ == query_error_text(*inner),
        text@.len() > 0,
{
    format!("{:?}", inner)
}

/// Renders a diagnostic of a language with the `Debug` implementation that
/// `tree_sitter::LanguageError` derives. The text depends on the diagnostic
/// alone and starts with the name of the type, so it is not empty.
#[verifier::external_body]
fn native_language_error_text(inner: &NativeLanguageError) -> (text: String)
    ensures
        text@ == language_error_text(*inner),
        text@.len() > 0,
{
    format!("{:?}", inner)
}

/// A requested set of included ranges was refused.
#[derive(Debug, PartialEq, Eq)]
pub struct IncludedRangesError {
    inner: NativeIncludedRangesError,
}

impl IncludedRangesError {
    /// The error that holds `inner`.
    pub closed spec fn wrap(inner: NativeIncludedRangesError) -> IncludedRangesError {
        IncludedRangesError { inner }
    }

    /// The diagnostic that this error holds.
    pub closed spec fn diagnostic(&self) -> NativeIncludedRangesError {
        self.inner
    }

    /// The diagnostic as text; never empty.
    pub fn to_string(&self) -> (text: String)
        ensures
            text@ == included_ranges_error_text(self.diagnostic()),
            text@.len() > 0,
    {
        native_included_ranges_error_text(&self.inner)
    }
}

impl From<NativeIncludedRangesError> for IncludedRangesError {
    /// Wraps the diagnostic, unchanged.
    fn from(inner: NativeIncludedRangesError) -> (e: IncludedRangesError)
        ensures
            e.diagnostic() == inner,
    {
        IncludedRangesError { inner }
    }
}

impl vstd::std_specs::convert::FromSpecImpl<NativeIncludedRangesError> for IncludedRangesError {
    open spec fn obeys_from_spec() -> bool {
        true
    }

    open spec fn from_spec(inner: NativeIncludedRangesError) -> IncludedRangesError {
        IncludedRangesError::wrap(inner)
    }
}

/// An error holds the diagnostic it was made from, and is the error made from
/// the diagnostic it holds.
pub proof fn lemma_included_ranges_error_wraps(
    inner: NativeIncludedRangesError,
    e: IncludedRangesError,
)
    ensures
        IncludedRangesError::wrap(inner).diagnostic() == inner,
        IncludedRangesError::wrap(e.diagnostic()) == e,
{
}

/// A query did not compile against its grammar.
#[derive(Debug, PartialEq, Eq)]
pub struct QueryError {
    inner: NativeQueryError,
}

impl QueryError {
    /// The error that holds `inner`.
    pub closed spec fn wrap(inner: NativeQueryError) -> QueryError {
        QueryError { inner }
    }

    /// The diagnostic that this error holds.
    pub closed spec fn diagnostic(&self) -> NativeQueryError {
        self.inner
    }

    /// The diagnostic as text; never empty.
    pub fn to_string(&self) -> (text: String)
        ensures
            text@ == query_error_text(self.diagnostic()),
            text@.len() > 0,
    {
        native_query_error_text(&self.inner)
    }
}

impl From<NativeQueryError> for QueryError {
    /// Wraps the diagnostic, unchanged.
    fn from(inner: NativeQueryError) -> (e: QueryError)
        ensures
            e.diagnostic() == inner,
    {
        QueryError { inner }
    }
}

impl vstd::std_specs::convert::FromSpecImpl<NativeQueryError> for QueryError {
    open spec fn obeys_from_spec() -> bool {
        true
    }

    open spec fn from_spec(inner: NativeQueryError) -> QueryError {
        QueryError::wrap(inner)
    }
}

/// An error holds the diagnostic it was made from, and is the error made from
/// the diagnostic it holds.
pub proof fn lemma_query_error_wraps(inner: NativeQueryError, e: QueryError)
    ensures
        QueryError::wrap(inner).diagnostic() == inner,
        QueryError::wrap(e.diagnostic()) == e,
{
}

/// A language is of a version that the engine cannot run.
#[derive(Debug, PartialEq, Eq)]
pub struct LanguageError {
    inner: NativeLanguageError,
}

impl LanguageError {
    /// The error that holds `inner`.
    pub closed spec fn wrap(inner: NativeLanguageError) -> LanguageError {
        LanguageError { inner }
    }

    /// The diagnostic that this error holds.
    pub closed spec fn diagnostic(&self) -> NativeLanguageError {
        self.inner
    }

    /// The diagnostic as text; never empty.
    pub fn to_string(&self) -> (text: String)
        ensures
            text@ == language_error_text(self.diagnostic()),
            text@.len() > 0,
    {
        native_language_error_text(&self.inner)
    }
}

impl From<NativeLanguageError> for LanguageError {
    /// Wraps the diagnostic, unchanged.
    fn from(inner: NativeLanguageError) -> (e: LanguageError)
        ensures
            e.diagnostic() == inner,
    {
        LanguageError { inner }
    }
}

impl vstd::std_specs::convert::FromSpecImpl<NativeLanguageError> for LanguageError {
    open spec fn obeys_from_spec() -> bool {
        true
    }

    open spec fn from_spec(inner: NativeLanguageError) -> LanguageError {
        LanguageError::wrap(inner)
    }
}

/// An error holds the diagnostic it was made from, and is the error made from
/// the diagnostic it holds.
pub proof fn lemma_language_error_wraps(inner: NativeLanguageError, e: LanguageError)
    ensures
        LanguageError::wrap(inner).diagnostic() == inner,
        LanguageError::wrap(e.diagnostic()) == e,
{
}

/// A parser could not be set up. The engine never fails there, so no value of
/// this kind exists.
#[derive(Debug, PartialEq, Eq)]
pub struct ParserError {
    inner: Infallible,
}

impl ParserError {
    /// The diagnostic that this error holds.
    pub closed spec fn diagnostic(&self) -> Infallible {
        self.inner
    }

    /// Hands out the diagnostic, of which there is none: whoever holds it can
    /// show that the place is never reached.
    pub fn inner(&self) -> (inner: Infallible)
        ensures
            inner == self.diagnostic(),
    {
        self.inner
    }
}

} // verus!
