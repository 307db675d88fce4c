//! Conversion of a CSV table of TV episode metadata into a JSON array of
//! flat objects, one object per data row, with the values kept verbatim.

pub mod episode;
pub mod table;
pub mod json;
pub mod convert;
pub mod laws;
