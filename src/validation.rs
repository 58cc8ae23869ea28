use vstd::prelude::*;

verus! {

/// The constraint that a set of model parameters broke.
#[derive(Debug, Clone, Copy, PartialEq, Eq, Structural)]
pub enum InvalidParameter {
    /// The spot price was not strictly positive.
    Spot,
    /// The strike price was not strictly positive.
    Strike,
    /// The time to expiry was not strictly positive.
    Expiry,
    /// The volatility was not strictly positive.
    Volatility,
}

/// The first constraint that fails, checked in the order spot, strike,
/// expiry, volatility; `None` when all four parameters are positive.
/// The rate and the dividend yield take part in no constraint.
pub open spec fn first_violation(
    spot_positive: bool,
    strike_positive: bool,
    expiry_positive: bool,
    volatility_positive: bool,
) -> Option<InvalidParameter> {
    if !spot_positive {
        Some(InvalidParameter::Spot)
    } else if !strike_positive {
        Some(InvalidParameter::Strike)
    } else if !expiry_positive {
        Some(InvalidParameter::Expiry)
    } else if !volatility_positive {
        Some(InvalidParameter::Volatility)
    } else {
        None
    }
}

impl InvalidParameter {
    /// The human-readable reason.
    pub fn message(self) -> (r: &'static str)
        ensures
            self == InvalidParameter::Spot ==> r@ == "Spot price must be positive"@,
            self == InvalidParameter::Strike ==> r@ == "Strike price must be positive"@,
            self == InvalidParameter::Expiry ==> r@ == "Time to expiry must be positive"@,
            self == InvalidParameter::Volatility ==> r@ == "Volatility must be positive"@,
    {
        match self {
            InvalidParameter::Spot => "Spot price must be positive",
            InvalidParameter::Strike => "Strike price must be positive",
            InvalidParameter::Expiry => "Time to expiry must be positive",
            InvalidParameter::Volatility => "Volatility must be positive",
        }
    }
}

/// Decides whether a model may be built, from the sign test of each of the
/// four constrained parameters (`true`: strictly positive). A model is
/// accepted exactly when all four are positive; otherwise the first failing
/// constraint, in the order spot, strike, expiry, volatility, is reported.
pub fn check_parameters(
    spot_positive: bool,
    strike_positive: bool,
    expiry_positive: bool,
    volatility_positive: bool,
) -> (r: Result<(), InvalidParameter>)
    ensures
        r is Ok <==> (spot_positive && strike_positive && expiry_positive && volatility_positive),
        r matches Err(e) ==> Some(e) == first_violation(
            spot_positive,
            strike_positive,
            expiry_positive,
            volatility_positive,
        ),
        r is Ok ==> first_violation(
            spot_positive,
            strike_positive,
            expiry_positive,
            volatility_positive,
        ) is None,
{
    if !spot_positive {
        return Err(InvalidParameter::Spot);
    }
    if !strike_positive {
        return Err(InvalidParameter::Strike);
    }
    if !expiry_positive {
        return Err(InvalidParameter::Expiry);
    }
    if !volatility_positive {
        return Err(InvalidParameter::Volatility);
    }
    Ok(())
}

} // verus!
