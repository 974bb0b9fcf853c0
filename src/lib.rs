//! Conversion of record and union type declarations into TypeScript
//! type declarations.
//!
//! The library works on a plain model of the declarations a parser found
//! (`syntax`). It normalises each declared type into a canonical
//! `SimpleType` (`normalize`), renders type references (`types`), builds
//! records and unions from declarations (`extract`), and renders them and
//! whole files as TypeScript text (`decl`, `file`). `laws` states general
//! properties of the rendering.

pub mod decl;
pub mod extract;
pub mod file;
pub mod laws;
pub mod normalize;
pub mod syntax;
pub mod text;
pub mod types;
