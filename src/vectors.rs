//! Integer vectors of `i32`, `i64`, `u32` and `u64` components, and the boolean vectors that
//! their componentwise comparisons return.
pub mod bvec2;
pub mod bvec3;
pub mod bvec4;
pub mod ivec2;
pub mod ivec3;
pub mod ivec4;
pub mod divec2;
pub mod divec3;
pub mod divec4;
pub mod uvec2;
pub mod uvec3;
pub mod uvec4;
pub mod duvec2;
pub mod duvec3;
pub mod duvec4;

pub use bvec2::{BVec2, bvec2};
pub use bvec3::{BVec3, bvec3};
pub use bvec4::{BVec4, bvec4};
pub use ivec2::{IVec2, ivec2};
pub use ivec3::{IVec3, ivec3};
pub use ivec4::{IVec4, ivec4};
pub use divec2::{DIVec2, divec2};
pub use divec3::{DIVec3, divec3};
pub use divec4::{DIVec4, divec4};
pub use uvec2::{UVec2, uvec2};
pub use uvec3::{UVec3, uvec3};
pub use uvec4::{UVec4, uvec4};
pub use duvec2::{DUVec2, duvec2};
pub use duvec3::{DUVec3, duvec3};
pub use duvec4::{DUVec4, duvec4};
