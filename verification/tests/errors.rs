use xpy_engine::error::{XPyError, XPyResult};

#[test]
fn value_error_text_opens_with_invalid_value() {
    let error = XPyError::ValueError(String::from("particles must be positive"));
    assert_eq!(error.message(), "Invalid value: particles must be positive");
}

#[test]
fn value_error_with_empty_detail_keeps_the_opening_words() {
    let error = XPyError::ValueError(String::new());
    assert_eq!(error.message(), "Invalid value: ");
}

#[test]
fn quadrature_error_text_is_the_detail_alone() {
    let error = XPyError::GaussLegendreError(String::from("no such rule"));
    assert_eq!(error.message(), "no such rule");
}

#[test]
fn invalid_builds_a_value_error() {
    assert_eq!(
        XPyError::invalid("delta must be less than duration"),
        XPyError::ValueError(String::from("delta must be less than duration"))
    );
}

#[test]
fn simulation_error_becomes_value_error_with_its_own_words() {
    let mapped = XPyError::from_x_error(diffusionx::XError::BoolSampleError);
    assert_eq!(
        mapped,
        XPyError::ValueError(String::from("Probability must be between 0 and 1"))
    );
    assert_eq!(
        mapped.message(),
        "Invalid value: Probability must be between 0 and 1"
    );
}

#[test]
fn simulation_error_with_a_payload_keeps_the_payload() {
    let mapped = XPyError::from_x_error(diffusionx::XError::Other(String::from("boom")));
    assert_eq!(mapped, XPyError::ValueError(String::from("Error: boom")));
}

#[test]
fn quadrature_library_error_becomes_gauss_legendre_error() {
    let outside = gauss_quad::legendre::GaussLegendre::new(1).unwrap_err();
    let mapped = XPyError::from_quadrature_error(outside);
    assert_eq!(
        mapped,
        XPyError::GaussLegendreError(String::from(
            "the degree of the Gauss-Legendre quadrature rule must be at least 2"
        ))
    );
    assert_eq!(
        mapped.message(),
        "the degree of the Gauss-Legendre quadrature rule must be at least 2"
    );
}

#[test]
fn errors_order_by_variant_then_by_detail() {
    let a = XPyError::ValueError(String::from("b"));
    let b = XPyError::GaussLegendreError(String::from("a"));
    let c = XPyError::ValueError(String::from("c"));
    assert!(a < b);
    assert!(a < c);
    assert!(c < b);
}

#[test]
fn result_alias_carries_the_error() {
    let failed: XPyResult<u8> = Err(XPyError::invalid("x"));
    assert!(matches!(failed, Err(XPyError::ValueError(_))));
    let fine: XPyResult<u8> = Ok(3);
    assert_eq!(fine, Ok(3));
}
