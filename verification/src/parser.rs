//! From the function items of a syntax tree to the handlers among them, and
//! from the declared types of a handler to the names that a client sees.

pub mod exclusion_parser;
pub mod inner_box_type;
pub mod inner_params;
pub mod inner_type_from_path_segment;
pub mod params_as_comma_separated;
pub mod visitor;
