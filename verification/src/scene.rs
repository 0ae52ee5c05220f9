//! Scene-level choices: background mode, surface kinds and the projection
//! policy of the camera.

use vstd::prelude::*;

verus! {

/// What a ray that leaves the scene sees.
#[derive(Clone, Copy, Debug, PartialEq, Eq, Structural)]
pub enum Background {
    /// A gradient from pale blue at the zenith to a deeper blue.
    Sky,
    /// Pure black.
    Black,
}

/// The kinds of surface a scene may hold.
#[derive(Clone, Copy, Debug, PartialEq, Eq, Structural)]
pub enum ObjectType {
    Plane,
    Sphere,
}

/// Which camera parameter fixes the projection.
#[derive(Clone, Copy, Debug, PartialEq, Eq, Structural)]
pub enum Projection {
    /// The field of view is given; the image-plane distance is derived.
    FieldOfView,
    /// The image-plane distance is given; the field of view is derived.
    PlaneDistance,
}

/// The outcome of the projection policy.
#[derive(Clone, Copy, Debug, PartialEq, Eq, Structural)]
pub struct ProjectionChoice {
    /// The parameter that the camera is built from.
    pub source: Projection,
    /// True when a positive image-plane distance was given and is ignored
    /// because the field of view takes precedence.
    pub distance_ignored: bool,
}

/// A scene description that no camera can be built from.
#[derive(Clone, Copy, Debug, PartialEq, Eq, Structural)]
pub enum ConfigError {
    /// Neither the field of view nor the image-plane distance is positive.
    NoProjection,
}

/// The projection policy as a function of which parameters are positive.
pub open spec fn projection_policy(fov_positive: bool, distance_positive: bool) -> Result<
    ProjectionChoice,
    ConfigError,
> {
    if fov_positive {
        Ok(ProjectionChoice { source: Projection::FieldOfView, distance_ignored: distance_positive })
    } else if distance_positive {
        Ok(ProjectionChoice { source: Projection::PlaneDistance, distance_ignored: false })
    } else {
        Err(ConfigError::NoProjection)
    }
}

/// Decides which of the two camera parameters fixes the projection.
///
/// A positive field of view always wins; a positive distance given beside it
/// is reported as ignored. With neither positive there is no projection.
pub fn choose_projection(fov_positive: bool, distance_positive: bool) -> (res: Result<
    ProjectionChoice,
    ConfigError,
>)
    ensures
        res == projection_policy(fov_positive, distance_positive),
        res.is_err() <==> (!fov_positive && !distance_positive),
{
    if fov_positive {
        Ok(ProjectionChoice { source: Projection::FieldOfView, distance_ignored: distance_positive })
    } else if distance_positive {
        Ok(ProjectionChoice { source: Projection::PlaneDistance, distance_ignored: false })
    } else {
        Err(ConfigError::NoProjection)
    }
}

} // verus!
