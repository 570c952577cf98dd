//! Color gradients evaluated inside many color models.
//!
//! The library converts two 8-bit RGB endpoint colors into a chosen color
//! model, interpolates a fixed number of evenly spaced steps there, converts
//! every step back to displayable 8-bit RGB, and pairs each resulting color
//! with whichever of two fixed text colors reads better on top of it.

pub mod color;
pub mod contrast;
pub mod gradient;
pub mod mixing;
pub mod model;

pub use color::{hex_code, Rgb8, Swatch};
pub use contrast::{pick_text_color, swatch, text_black, text_white};
pub use gradient::{gradient, gradient_swatches, mix_in_model};
pub use model::Model;
