//! The error that every operation of the engine reports, and its text.

use vstd::prelude::*;
use vstd::string::StringExecFns;

verus! {

/// Errors of the simulation library. Opaque here: only its text is read.
#[verifier::external_type_specification]
#[verifier::external_body]
pub struct ExXError(diffusionx::XError);

/// The error of a Gauss-Legendre rule that cannot be built. Opaque here.
#[verifier::external_type_specification]
#[verifier::external_body]
pub struct ExGaussLegendreError(gauss_quad::legendre::GaussLegendreError);

/// What goes wrong in the engine.
#[derive(Debug, PartialEq, Eq, PartialOrd, Ord)]
pub enum XPyError {
    /// A value that the caller or a path provider handed in is not usable.
    ValueError(String),
    /// No quadrature rule exists for the order that was asked for.
    GaussLegendreError(String),
}

pub type XPyResult<T> = Result<T, XPyError>;

/// An error as a plain value: which kind it is, and the detail it carries.
pub enum ErrorModel {
    Value(Seq<char>),
    Quadrature(Seq<char>),
}

impl View for XPyError {
    type V = ErrorModel;

    open spec fn view(&self) -> ErrorModel {
        match self {
            XPyError::ValueError(detail) => ErrorModel::Value(detail@),
            XPyError::GaussLegendreError(detail) => ErrorModel::Quadrature(detail@),
        }
    }
}

/// The words that open the text of every `ValueError`.
pub open spec fn value_error_prefix() -> Seq<char> {
    "Invalid value: "@
}

/// The text of the only error that building a quadrature rule can give.
pub open spec fn quadrature_order_text() -> Seq<char> {
    "the degree of the Gauss-Legendre quadrature rule must be at least 2"@
}

/// `to_string` on `gauss_quad::legendre::GaussLegendreError`, which goes to
/// that type's `Display`. It writes one fixed sentence whatever the value
/// holds; the contract gives that sentence.
#[verifier::external_body]
fn quadrature_error_text(error: &gauss_quad::legendre::GaussLegendreError) -> (text: String)
    ensures
        text@ == quadrature_order_text(),
{
    error.to_string()
}

impl XPyError {
    /// The text shown for this error.
    pub open spec fn text(&self) -> Seq<char> {
        match self@ {
            ErrorModel::Value(detail) => value_error_prefix() + detail,
            ErrorModel::Quadrature(detail) => detail,
        }
    }

    /// The text shown for this error, as a `String`.
    pub fn message(&self) -> (shown: String)
        ensures
            shown@ == self.text(),
    {
        match self {
            XPyError::ValueError(detail) => {
                String::from_str("Invalid value: ").concat(detail.as_str())
            },
            XPyError::GaussLegendreError(detail) => detail.clone(),
        }
    }

    /// A `ValueError` with the given detail.
    pub fn invalid(detail: &str) -> (error: XPyError)
        ensures
            error@ == ErrorModel::Value(detail@),
    {
        XPyError::ValueError(String::from_str(detail))
    }

    /// An error of the simulation library becomes a `ValueError` that carries
    /// the error's own text: what `to_string` makes of it.
    pub fn from_x_error(error: diffusionx::XError) -> (mapped: XPyError)
        ensures
            mapped@ is Value,
            mapped matches XPyError::ValueError(detail)
                && vstd::string::to_string_from_display_ensures::<diffusionx::XError>(
                &error,
                detail,
            ),
    {
        XPyError::ValueError(error.to_string())
    }

    /// The error of a quadrature rule that cannot be built becomes a
    /// `GaussLegendreError` that carries the error's own text.
    pub fn from_quadrature_error(error: gauss_quad::legendre::GaussLegendreError) -> (mapped:
        XPyError)
        ensures
            mapped@ == ErrorModel::Quadrature(quadrature_order_text()),
    {
        XPyError::GaussLegendreError(quadrature_error_text(&error))
    }
}

} // verus!
