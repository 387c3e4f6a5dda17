//! What a pattern is asked for with, and the checks a request must pass
//! before a pattern is traced.
use crate::scalar::Scalar;
use crate::scalar::INFINITY_BITS;
use crate::scalar::ONE_BITS;
use crate::scalar::TWO_PI_BITS;
use crate::shapes::ShapeType;
use vstd::prelude::*;

verus! {

/// A request for a pattern.
#[derive(Clone, Copy, Debug)]
pub struct PatternQuery {
    /// The kind of the shape that stays in place.
    pub guide: ShapeType,
    /// The kind of the shape that rolls along the guide.
    pub wheel: ShapeType,
    pub guide_radius: Scalar,
    pub wheel_radius: Scalar,
    /// How far the pen sits from the wheel's centre, as a share of the way to
    /// the wheel's outline.
    pub pen_radius: Scalar,
    /// The angle at which the pen sits on the wheel, in radians.
    pub pen_theta: Scalar,
    /// The guide's second parameter, for a kind that takes one.
    pub guide_param: Option<Scalar>,
    /// The wheel's second parameter, for a kind that takes one.
    pub wheel_param: Option<Scalar>,
    /// Whether the wheel rolls inside the guide; outside when absent.
    pub inside: Option<bool>,
}

/// Why a request is turned down.
#[derive(Clone, Copy, Debug, PartialEq, Eq, Structural)]
pub enum PatternError {
    /// The guide's kind takes a parameter and none was given.
    MissingGuideParam,
    /// The wheel's kind takes a parameter and none was given.
    MissingWheelParam,
    /// A radius is zero or negative.
    NonPositiveRadius,
    /// A shape parameter is zero or negative.
    NonPositiveParam,
    /// A rod's width-to-length ratio is not below one.
    ParamOutOfRange,
    /// The pen's radius is not in `[0, 1]`.
    PenRadiusOutOfRange,
    /// The pen's angle is not in `[0, 2 pi]`.
    PenThetaOutOfRange,
    /// The wheel is to roll inside a guide that is too tightly curved for it.
    WheelDoesNotFit,
}

impl PatternError {
    /// The words in which the error is reported.
    pub open spec fn message_text(self) -> Seq<char> {
        match self {
            PatternError::MissingGuideParam => "guide type Rod requires guide_param"@,
            PatternError::MissingWheelParam => "wheel type Rod requires wheel_param"@,
            PatternError::NonPositiveRadius => "non-positive radius supplied"@,
            PatternError::NonPositiveParam => "non-positive shape parameter supplied"@,
            PatternError::ParamOutOfRange => "shape parameter is outside the range (0, 1)"@,
            PatternError::PenRadiusOutOfRange => "pen_radius is outside the range [0, 1]"@,
            PatternError::PenThetaOutOfRange => "pen_theta is outside the range [0, 2PI]"@,
            PatternError::WheelDoesNotFit => "wheel does not fit inside guide"@,
        }
    }

    /// The words in which the error is reported.
    pub fn message(&self) -> (r: String)
        ensures
            r@ == self.message_text(),
    {
        match self {
            PatternError::MissingGuideParam => "guide type Rod requires guide_param".to_owned(),
            PatternError::MissingWheelParam => "wheel type Rod requires wheel_param".to_owned(),
            PatternError::NonPositiveRadius => "non-positive radius supplied".to_owned(),
            PatternError::NonPositiveParam => "non-positive shape parameter supplied".to_owned(),
            PatternError::ParamOutOfRange => "shape parameter is outside the range (0, 1)".to_owned(),
            PatternError::PenRadiusOutOfRange => "pen_radius is outside the range [0, 1]".to_owned(),
            PatternError::PenThetaOutOfRange => "pen_theta is outside the range [0, 2PI]".to_owned(),
            PatternError::WheelDoesNotFit => "wheel does not fit inside guide".to_owned(),
        }
    }
}

/// The number is zero or negative. A NaN is neither.
pub open spec fn non_positive(x: Scalar) -> bool {
    x.at_most(Scalar { bits: 0 })
}

/// The number lies below zero or above `top`. A NaN does neither.
pub open spec fn outside_range(x: Scalar, top: Scalar) -> bool {
    x.less(Scalar { bits: 0 }) || top.less(x)
}

/// The parameter that was given, or one where none was.
pub open spec fn param_or_one(param: Option<Scalar>) -> Scalar {
    match param {
        Some(p) => p,
        None => Scalar { bits: ONE_BITS },
    }
}

/// The shape is a rod whose width-to-length ratio was given and is not below
/// one. A circle takes no ratio, so whatever was given for it is in order.
pub open spec fn ratio_too_large(kind: ShapeType, param: Option<Scalar>) -> bool {
    kind is Rod && param is Some && !param->Some_0.less(Scalar { bits: ONE_BITS })
}

/// The wheel is to roll inside the guide, and the largest radius of
/// curvature of its outline exceeds the smallest of the guide's.
pub open spec fn misfit(inside: bool, wheel_max_radius: Scalar, guide_min_radius: Scalar) -> bool {
    inside && guide_min_radius.less(wheel_max_radius)
}

impl PatternQuery {
    /// Whether the wheel is to roll inside the guide.
    pub open spec fn rolls_inside(self) -> bool {
        match self.inside {
            Some(b) => b,
            None => false,
        }
    }

    /// The first fault among the request's own values, in the order in which
    /// they are looked for: a missing parameter of the guide, then of the
    /// wheel; a radius, then a parameter, that is not positive; a rod's
    /// ratio that is not below one; the pen's radius, then its angle, out of
    /// range.
    pub open spec fn parameter_fault(self) -> Option<PatternError> {
        if self.guide_param is None && self.guide is Rod {
            Some(PatternError::MissingGuideParam)
        } else if self.wheel_param is None && self.wheel is Rod {
            Some(PatternError::MissingWheelParam)
        } else if non_positive(self.guide_radius) || non_positive(self.wheel_radius) {
            Some(PatternError::NonPositiveRadius)
        } else if non_positive(param_or_one(self.guide_param)) || non_positive(
            param_or_one(self.wheel_param),
        ) {
            Some(PatternError::NonPositiveParam)
        } else if ratio_too_large(self.guide, self.guide_param) || ratio_too_large(
            self.wheel,
            self.wheel_param,
        ) {
            Some(PatternError::ParamOutOfRange)
        } else if outside_range(self.pen_radius, Scalar { bits: ONE_BITS }) {
            Some(PatternError::PenRadiusOutOfRange)
        } else if outside_range(self.pen_theta, Scalar { bits: TWO_PI_BITS }) {
            Some(PatternError::PenThetaOutOfRange)
        } else {
            None
        }
    }

    /// The largest radius of curvature of the wheel's outline.
    pub open spec fn wheel_max_radius(self) -> Scalar {
        self.wheel.largest_radius(self.wheel_radius)
    }

    /// The smallest radius of curvature of the guide's outline, where
    /// `guide_cap_radius` is the radius of the guide's caps if it is a rod.
    pub open spec fn guide_min_radius(self, guide_cap_radius: Scalar) -> Scalar {
        self.guide.smallest_radius(self.guide_radius, guide_cap_radius)
    }

    /// The first fault of the request: a fault among its own values, or else
    /// a wheel that does not fit into the guide it is to roll inside.
    pub open spec fn fault(self, guide_cap_radius: Scalar) -> Option<PatternError> {
        if self.parameter_fault() is Some {
            self.parameter_fault()
        } else if misfit(
            self.rolls_inside(),
            self.wheel_max_radius(),
            self.guide_min_radius(guide_cap_radius),
        ) {
            Some(PatternError::WheelDoesNotFit)
        } else {
            None
        }
    }

    /// Whether the wheel is to roll inside the guide.
    pub fn inside_or_default(&self) -> (r: bool)
        ensures
            r == self.rolls_inside(),
    {
        match self.inside {
            Some(b) => b,
            None => false,
        }
    }

    /// The guide's second parameter, or `1.0` where none was given.
    pub fn guide_param_or_default(&self) -> (r: Scalar)
        ensures
            r == param_or_one(self.guide_param),
    {
        match self.guide_param {
            Some(p) => p,
            None => Scalar::one(),
        }
    }

    /// The wheel's second parameter, or `1.0` where none was given.
    pub fn wheel_param_or_default(&self) -> (r: Scalar)
        ensures
            r == param_or_one(self.wheel_param),
    {
        match self.wheel_param {
            Some(p) => p,
            None => Scalar::one(),
        }
    }

    /// Checks the request's own values, before any shape is built from them.
    pub fn check_parameters(&self) -> (r: Result<(), PatternError>)
        ensures
            r is Ok <==> self.parameter_fault() is None,
            r is Err ==> self.parameter_fault() == Some(r->Err_0),
    {
        if self.guide_param.is_none() && self.guide.needs_param() {
            return Err(PatternError::MissingGuideParam);
        }
        if self.wheel_param.is_none() && self.wheel.needs_param() {
            return Err(PatternError::MissingWheelParam);
        }
        if self.guide_radius.le(Scalar::zero()) || self.wheel_radius.le(Scalar::zero()) {
            return Err(PatternError::NonPositiveRadius);
        }
        if self.guide_param_or_default().le(Scalar::zero()) || self.wheel_param_or_default().le(
            Scalar::zero(),
        ) {
            return Err(PatternError::NonPositiveParam);
        }
        if ratio_exceeds(self.guide, self.guide_param) || ratio_exceeds(
            self.wheel,
            self.wheel_param,
        ) {
            return Err(PatternError::ParamOutOfRange);
        }
        if self.pen_radius.lt(Scalar::zero()) || self.pen_radius.gt(Scalar::one()) {
            return Err(PatternError::PenRadiusOutOfRange);
        }
        if self.pen_theta.lt(Scalar::zero()) || self.pen_theta.gt(Scalar::two_pi()) {
            return Err(PatternError::PenThetaOutOfRange);
        }
        Ok(())
    }

    /// Checks the whole request. `guide_cap_radius` is the radius of the
    /// guide's caps; it is read only when the guide is a rod. On success the
    /// result says whether the wheel rolls inside the guide.
    pub fn validate(&self, guide_cap_radius: Scalar) -> (r: Result<bool, PatternError>)
        ensures
            r is Ok <==> self.fault(guide_cap_radius) is None,
            r is Ok ==> r->Ok_0 == self.rolls_inside(),
            r is Err ==> self.fault(guide_cap_radius) == Some(r->Err_0),
    {
        match self.check_parameters() {
            Err(e) => Err(e),
            Ok(_) => {
                let inside = self.inside_or_default();
                let wheel_max = self.wheel.max_radius(self.wheel_radius);
                let guide_min = self.guide.min_radius(self.guide_radius, guide_cap_radius);
                match check_fit(inside, wheel_max, guide_min) {
                    Err(e) => Err(e),
                    Ok(_) => Ok(inside),
                }
            },
        }
    }
}

/// Whether a shape of the given kind was given a ratio that is not below
/// one.
pub fn ratio_exceeds(kind: ShapeType, param: Option<Scalar>) -> (r: bool)
    ensures
        r == ratio_too_large(kind, param),
{
    match param {
        Some(p) => kind.needs_param() && !p.lt(Scalar::one()),
        None => false,
    }
}

/// Checks that a wheel which is to roll inside the guide fits into it. A
/// wheel that rolls outside always passes.
pub fn check_fit(inside: bool, wheel_max_radius: Scalar, guide_min_radius: Scalar) -> (r: Result<
    (),
    PatternError,
>)
    ensures
        r is Err <==> misfit(inside, wheel_max_radius, guide_min_radius),
        r is Err ==> r->Err_0 == PatternError::WheelDoesNotFit,
{
    if inside && wheel_max_radius.gt(guide_min_radius) {
        Err(PatternError::WheelDoesNotFit)
    } else {
        Ok(())
    }
}

/// A request whose values are all in order is accepted when the wheel rolls
/// outside, whatever the shapes are. When it rolls inside, a rod as wheel is
/// turned down unless the guide's smallest radius of curvature is positive
/// infinity or a NaN, and a circle as wheel is accepted exactly if its radius does
/// not exceed the guide's smallest radius of curvature or one of the two is
/// a NaN.
pub proof fn lemma_fit_decides_inside_only(query: PatternQuery, guide_cap_radius: Scalar)
    requires
        query.parameter_fault() is None,
    ensures
        !query.rolls_inside() ==> query.fault(guide_cap_radius) is None,
        query.rolls_inside() && query.wheel is Rod ==> (query.fault(guide_cap_radius) is None
            <==> (query.guide_min_radius(guide_cap_radius).bits == INFINITY_BITS
            || query.guide_min_radius(guide_cap_radius).nan())),
        query.rolls_inside() && query.wheel is Circle ==> (query.fault(guide_cap_radius) is None
            <==> (query.wheel_radius.at_most(query.guide_min_radius(guide_cap_radius))
            || query.wheel_radius.nan() || query.guide_min_radius(guide_cap_radius).nan())),
{
}

/// A rod is in order only with a ratio strictly between zero and one: a
/// request that passes the checks of its own values has given one to each
/// rod it names.
pub proof fn lemma_accepted_rod_ratio_in_range(query: PatternQuery)
    requires
        query.parameter_fault() is None,
    ensures
        query.guide is Rod ==> query.guide_param is Some && (Scalar { bits: 0 }).less(
            query.guide_param->Some_0,
        ) && query.guide_param->Some_0.less(Scalar { bits: ONE_BITS }),
        query.wheel is Rod ==> query.wheel_param is Some && (Scalar { bits: 0 }).less(
            query.wheel_param->Some_0,
        ) && query.wheel_param->Some_0.less(Scalar { bits: ONE_BITS }),
{
}

} // verus!
