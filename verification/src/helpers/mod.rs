pub mod json;
pub mod pagination;
pub mod text;
pub mod view;
pub mod routing;
