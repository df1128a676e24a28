//! A static type checker for Cedar authorization policies.
//!
//! Given a schema, which declares the entity types, the actions and the
//! extension functions, the typechecker infers a type for every node of a
//! policy's condition under every request environment that the scope of the
//! policy admits, and reports what can go wrong when the policy is
//! evaluated as structured errors.
//!
//! - [`types`] holds the types with subtyping and least upper bounds,
//!   [`lattice`] the laws of that order, and [`type_order`] the order in
//!   which sets of types are listed.
//! - [`expr`] and [`policy`] hold the expressions and policies that are
//!   checked, [`schema`] what they are checked against.
//! - [`capability`] tracks which optional attributes are known to be present.
//! - [`request_env`] enumerates the request environments of a schema.
//! - [`typecheck`] holds the typing rules and the typechecker.
//! - [`validation_errors`] holds the errors, with their messages and help
//!   texts, and [`fuzzy_match`] finds the names that the help texts suggest.
//!
//! Every type has a mathematical value as its view, and every function
//! states what it computes over these values.

pub mod capability;
pub mod expr;
pub mod fuzzy_match;
pub mod lattice;
pub mod policy;
pub mod request_env;
pub mod schema;
pub mod text;
pub mod type_order;
pub mod typecheck;
pub mod types;
pub mod validation_errors;
