//! Generic type paths of a binding generator: a named type together with its
//! generic arguments, and the passes that turn it into the name that is
//! written out.
//!
//! A [`GenericPath`] is loaded from a parsed path expression, has `Self`
//! replaced by the type an impl block is written for, is renamed after the
//! export rules of a [`Config`], and has its declaration kind looked up in a
//! [`DeclarationTypeResolver`]. Every pass is specified over the view of the
//! path, a plain tree of names.
//!
//! The modules, leaves first: `text` compares names; `syntax` holds the parsed
//! input; `path`, `config` and `declaration` hold names, export rules and the
//! index of declaration kinds; `generic_params` holds the type parameters of a
//! declaration; `ty` and `generic_path` hold types and generic paths, which
//! contain each other; `laws` states what holds of every path.

pub mod text;
pub mod syntax;
pub mod path;
pub mod config;
pub mod declaration;
pub mod generic_params;
pub mod ty;
pub mod generic_path;
pub mod laws;

pub use crate::syntax::{
    GenericArgument, GenericParam, Generics, PathArguments, PathExpr, PathSegment, TypeExpr,
};
pub use crate::path::Path;
pub use crate::config::{Config, ExportConfig, Language};
pub use crate::declaration::{DeclarationType, DeclarationTypeResolver};
pub use crate::generic_params::GenericParams;
pub use crate::generic_path::GenericPath;
pub use crate::ty::{PrimitiveType, Type};
