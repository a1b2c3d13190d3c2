//! Integer and boolean vectors of two, three and four components, with componentwise arithmetic,
//! dot and cross products and componentwise comparisons. Every operation states its result over
//! the integers and is proved free of overflow.
pub mod scalar;
pub mod vectors;
