//! A chat bot's command handling: the command grammar, the arguments of
//! `/calc`, the interpretation of the price service's answers and the
//! formatting of the replies.
pub mod text;
pub mod json;
pub mod price;
pub mod render;
pub mod calc;
pub mod command;
pub mod router;
