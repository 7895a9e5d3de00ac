//! The control core of a Monte Carlo path tracer.
//!
//! Every rule of the renderer that is a decision lives here and is proved:
//! which crossing of a sphere counts, which surface is nearest, what a
//! material does with an incoming ray, when a light path ends, how a
//! scene and a camera are validated. Numbers are single-precision values
//! carried by their bit patterns; the arithmetic that produces them is
//! the caller's, and what the caller computed is handed in: the roots of a
//! ray and a sphere, the contact of a ray with a surface, the directions
//! of a bounce.
//!
//! - `scalar`: numbers and vectors, and the order of the numbers
//! - `ray`, `hit`: rays and what is known of their hits
//! - `sphere`: spheres, and which of the two crossings is the hit
//! - `hittable_list`: scenes, and the nearest of the hits
//! - `material`: surfaces, and what becomes of the light that meets them
//! - `radiance`: light paths, and when they end
//! - `camera`: the resolution of the image and the order of its rows
//! - `scene`: the scene that is rendered
//! - `config`: the reasons for which a parameter is refused
//! - `util`: durations as text

pub mod camera;
pub mod config;
pub mod hit;
pub mod hittable_list;
pub mod material;
pub mod radiance;
pub mod ray;
pub mod scalar;
pub mod scene;
pub mod sphere;
pub mod util;
