//! Forms over the fields of a structure: an enumeration of the names of the
//! fields, an enumeration of their data, the conversions between a structure
//! and the array of its data, and a form that holds the data field by field
//! until the structure can be made. The generator works out all of this from
//! the declaration of a structure.

mod array;
pub mod conversion;
pub mod data;
pub mod emit;
pub mod error;
pub mod form;
pub mod generator;
pub mod name;
pub mod text;
pub mod top;

pub use crate::data::StrunemixData;
pub use crate::error::{StrunemixError, StrunemixFromError, StrunemixParseError};
pub use crate::form::{QueryNameTrait, StrunemixForm};
pub use crate::name::StrunemixName;
pub use crate::top::{AsEnumName, StrunemixTrait};
