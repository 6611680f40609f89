pub mod boxed;
pub mod decl;
pub mod expand;
pub mod layout;
pub mod model;
pub mod rtti;
pub mod vtable;
