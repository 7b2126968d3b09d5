//! The types a consumer of the generator usually needs in one import.

pub use crate::casing::Casing;
pub use crate::types::{
    CustomType, EnumOptions, Field, Function, FunctionArg, FunctionList, GenericArgument,
    Primitive, Type, TypeMap, Variant,
};
pub use crate::{Bindings, BindingsError, BindingsType};
