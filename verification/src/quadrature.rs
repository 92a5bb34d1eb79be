//! Gauss-Legendre rules, built by the quadrature library.
//!
//! A rule is a list of node and weight pairs on the interval from -1 to 1.
//! The pairs are real numbers and stay inside the rule; what is stated here
//! is when a rule exists and how many pairs it has.

use vstd::prelude::*;
use vstd::string::StringExecFns;
use gauss_quad::legendre::{GaussLegendre, GaussLegendreError};
use crate::error::{quadrature_order_text, ErrorModel, XPyError, XPyResult};

verus! {

/// A Gauss-Legendre rule of the quadrature library. Opaque here.
#[verifier::external_type_specification]
#[verifier::external_body]
pub struct ExGaussLegendre(gauss_quad::legendre::GaussLegendre);

/// The number of node and weight pairs that a rule holds.
pub uninterp spec fn rule_degree(rule: GaussLegendre) -> nat;

/// Whether the pairs of a rule of this order can be allocated at all: a pair
/// takes sixteen bytes.
pub open spec fn order_is_allocatable(quad_order: usize) -> bool {
    quad_order * 16 <= isize::MAX
}

/// The detail of the error for an order whose rule is too large to hold.
pub open spec fn order_too_large_text() -> Seq<char> {
    "the degree of the Gauss-Legendre quadrature rule is too large"@
}

/// The complaint about an order for which no rule can be had: the orders 0
/// and 1 have none, and the rule of a very large order cannot be held.
pub open spec fn order_complaint(quad_order: usize) -> Option<Seq<char>> {
    if quad_order < 2 {
        Some(quadrature_order_text())
    } else if !order_is_allocatable(quad_order) {
        Some(order_too_large_text())
    } else {
        None
    }
}

/// `GaussLegendre::new` refuses the orders 0 and 1 and no others, and the
/// rule that it builds holds as many pairs as the order says.
pub assume_specification[ GaussLegendre::new ](deg: usize) -> (built: Result<
    GaussLegendre,
    GaussLegendreError,
>)
    requires
        order_is_allocatable(deg),
    ensures
        built is Ok <==> deg >= 2,
        built matches Ok(rule) ==> rule_degree(rule) == deg,
;

/// `GaussLegendre::degree` is the number of pairs that the rule holds.
pub assume_specification[ GaussLegendre::degree ](rule: &GaussLegendre) -> (degree: usize)
    ensures
        degree == rule_degree(*rule),
;

/// The rule with `quad_order` nodes.
///
/// There is one for every order from 2 on whose pairs can be held. For the
/// orders 0 and 1 the result is a `GaussLegendreError` with the quadrature
/// library's own words; for an order too large to hold, one that says so.
pub fn quadrature_rule(quad_order: usize) -> (built: XPyResult<GaussLegendre>)
    ensures
        built is Ok <==> order_complaint(quad_order) is None,
        built matches Ok(rule) ==> rule_degree(rule) == quad_order,
        built matches Err(error) ==> (order_complaint(quad_order) matches Some(detail) && error@
            == ErrorModel::Quadrature(detail)),
{
    let limit: usize = (isize::MAX / 16) as usize;
    if quad_order > limit {
        let text = "the degree of the Gauss-Legendre quadrature rule is too large";
        return Err(XPyError::GaussLegendreError(String::from_str(text)));
    }
    match GaussLegendre::new(quad_order) {
        Ok(rule) => Ok(rule),
        Err(error) => Err(XPyError::from_quadrature_error(error)),
    }
}

/// The number of paths that one time average over the rule's nodes draws for
/// each of `particles` repetitions: one path for every node, every time.
/// `None` if that number does not fit the machine's word.
pub fn windowed_draws(rule: &GaussLegendre, particles: usize) -> (draws: Option<usize>)
    ensures
        draws matches Some(count) ==> count == rule_degree(*rule) * particles,
        draws is Some <==> rule_degree(*rule) * particles <= usize::MAX,
{
    rule.degree().checked_mul(particles)
}

} // verus!
