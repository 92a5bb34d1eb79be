//! What is settled before any path is drawn.
//!
//! Durations, lags and time steps are real numbers and never enter this
//! module. A check on two of them takes the outcome of comparing them, as
//! `partial_cmp` gives it: `None` when one of the two is not a number.

use vstd::prelude::*;
use core::cmp::Ordering;
use gauss_quad::legendre::GaussLegendre;
use crate::error::{ErrorModel, XPyError, XPyResult};
use crate::quadrature::{order_complaint, quadrature_rule, rule_degree};

verus! {

/// The detail of the error for a lag that is not below the duration.
pub open spec fn window_text() -> Seq<char> {
    "delta must be less than duration"@
}

/// The detail of the error for a time step that is not above zero.
pub open spec fn time_step_text() -> Seq<char> {
    "time_step must be positive"@
}

/// The detail of the error for an ensemble of no paths.
pub open spec fn particles_text() -> Seq<char> {
    "particles must be positive"@
}

/// A lag fits the observation exactly when it is below the duration.
pub open spec fn window_fits(delta_to_duration: Option<Ordering>) -> bool {
    delta_to_duration == Some(Ordering::Less)
}

/// A time step is usable exactly when it is above zero.
pub open spec fn step_is_positive(time_step_to_zero: Option<Ordering>) -> bool {
    time_step_to_zero == Some(Ordering::Greater)
}

/// The first complaint about the arguments of an ensemble estimate: the time
/// step comes before the number of particles.
pub open spec fn ensemble_complaint(time_step_to_zero: Option<Ordering>, particles: usize) -> Option<
    Seq<char>,
> {
    if !step_is_positive(time_step_to_zero) {
        Some(time_step_text())
    } else if particles == 0 {
        Some(particles_text())
    } else {
        None
    }
}

/// The first complaint about the arguments of a time average: the lag comes
/// before the time step.
pub open spec fn window_complaint(
    delta_to_duration: Option<Ordering>,
    time_step_to_zero: Option<Ordering>,
) -> Option<Seq<char>> {
    if !window_fits(delta_to_duration) {
        Some(window_text())
    } else if !step_is_positive(time_step_to_zero) {
        Some(time_step_text())
    } else {
        None
    }
}

/// Accepts a lag that is below the duration, and nothing else: a lag equal
/// to or above the duration is a `ValueError`, and so is a comparison that
/// has no outcome.
pub fn check_window(delta_to_duration: Option<Ordering>) -> (checked: XPyResult<()>)
    ensures
        checked is Ok <==> window_fits(delta_to_duration),
        checked matches Err(error) ==> error@ == ErrorModel::Value(window_text()),
{
    match delta_to_duration {
        Some(Ordering::Less) => Ok(()),
        _ => Err(XPyError::invalid("delta must be less than duration")),
    }
}

/// Accepts a time step that is above zero, and nothing else.
pub fn check_time_step(time_step_to_zero: Option<Ordering>) -> (checked: XPyResult<()>)
    ensures
        checked is Ok <==> step_is_positive(time_step_to_zero),
        checked matches Err(error) ==> error@ == ErrorModel::Value(time_step_text()),
{
    match time_step_to_zero {
        Some(Ordering::Greater) => Ok(()),
        _ => Err(XPyError::invalid("time_step must be positive")),
    }
}

/// Accepts an ensemble of at least one path.
pub fn check_particles(particles: usize) -> (checked: XPyResult<()>)
    ensures
        checked is Ok <==> particles >= 1,
        checked matches Err(error) ==> error@ == ErrorModel::Value(particles_text()),
{
    if particles == 0 {
        Err(XPyError::invalid("particles must be positive"))
    } else {
        Ok(())
    }
}

/// The checks of an ensemble estimate (a mean, a mean squared displacement,
/// a moment), made before any path is drawn.
pub fn check_ensemble(time_step_to_zero: Option<Ordering>, particles: usize) -> (checked:
    XPyResult<()>)
    ensures
        checked is Ok <==> ensemble_complaint(time_step_to_zero, particles) is None,
        checked matches Err(error) ==> (ensemble_complaint(time_step_to_zero, particles) matches Some(
            detail,
        ) && error@ == ErrorModel::Value(detail)),
{
    match check_time_step(time_step_to_zero) {
        Ok(()) => check_particles(particles),
        Err(error) => Err(error),
    }
}

/// The checks of a time-averaged estimate, made before any path is drawn,
/// and the rule whose nodes give the starts of the windows.
///
/// The arguments are checked first, the lag before the time step; the rule
/// is built only for arguments that pass.
pub fn windowed_rule(
    delta_to_duration: Option<Ordering>,
    time_step_to_zero: Option<Ordering>,
    quad_order: usize,
) -> (built: XPyResult<GaussLegendre>)
    ensures
        built is Ok <==> window_complaint(delta_to_duration, time_step_to_zero) is None
            && order_complaint(quad_order) is None,
        built matches Ok(rule) ==> rule_degree(rule) == quad_order,
        built matches Err(error) ==> (match window_complaint(
            delta_to_duration,
            time_step_to_zero,
        ) {
            Some(detail) => error@ == ErrorModel::Value(detail),
            None => order_complaint(quad_order) matches Some(detail) && error@
                == ErrorModel::Quadrature(detail),
        }),
{
    match check_window(delta_to_duration) {
        Ok(()) => match check_time_step(time_step_to_zero) {
            Ok(()) => quadrature_rule(quad_order),
            Err(error) => Err(error),
        },
        Err(error) => Err(error),
    }
}

/// The checks of an ensemble of time averages, made before any path is
/// drawn, and the rule whose nodes give the starts of the windows.
///
/// The arguments are checked first: the lag, the time step, then the number
/// of particles. The rule is built only for arguments that pass.
pub fn ensemble_windowed_rule(
    delta_to_duration: Option<Ordering>,
    time_step_to_zero: Option<Ordering>,
    particles: usize,
    quad_order: usize,
) -> (built: XPyResult<GaussLegendre>)
    ensures
        built is Ok <==> window_fits(delta_to_duration) && ensemble_complaint(
            time_step_to_zero,
            particles,
        ) is None && order_complaint(quad_order) is None,
        built matches Ok(rule) ==> rule_degree(rule) == quad_order,
        built matches Err(error) ==> (if !window_fits(delta_to_duration) {
            error@ == ErrorModel::Value(window_text())
        } else {
            match ensemble_complaint(time_step_to_zero, particles) {
                Some(detail) => error@ == ErrorModel::Value(detail),
                None => order_complaint(quad_order) matches Some(detail) && error@
                    == ErrorModel::Quadrature(detail),
            }
        }),
{
    match check_window(delta_to_duration) {
        Ok(()) => match check_ensemble(time_step_to_zero, particles) {
            Ok(()) => quadrature_rule(quad_order),
            Err(error) => Err(error),
        },
        Err(error) => Err(error),
    }
}

/// A lag that is not below the duration passes no check of a time average:
/// whatever the other arguments are, the complaint is the one about the lag.
pub proof fn lemma_lag_must_be_below_duration(
    delta_to_duration: Option<Ordering>,
    time_step_to_zero: Option<Ordering>,
)
    requires
        delta_to_duration != Some(Ordering::Less),
    ensures
        window_complaint(delta_to_duration, time_step_to_zero) == Some(window_text()),
{
}

} // verus!
