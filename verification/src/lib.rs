//! The rules of the `Dissolve` derive, as a library.
//!
//! `#[derive(Dissolve)]` gives a struct a method `dissolve(self)` that hands out
//! its fields: as a companion struct with public fields for a struct with named
//! fields, as a tuple for a tuple struct. Fields marked `#[dissolved(skip)]` are
//! left out, `#[dissolved(rename = "..")]` changes a field's name in the
//! companion, and `#[dissolve(visibility = "..")]` on the struct sets the
//! method's visibility.
//!
//! This crate decides what the derive emits. It works on a plain description of
//! the declaration ([`syntax`]) and answers with a plain description of the
//! items to emit ([`generate`]) or with the error to report ([`error`]); turning
//! token streams into the one and the other into token streams is left to the
//! macro crate around it.
//!
//! The way through the crate is that of a declaration:
//!
//! - [`container`] reads the attributes on the declaration,
//! - [`field`] reads the attributes on each field and settles what is decided
//!   for it,
//! - [`generate`] looks at the kind of declaration and puts together the
//!   companion or the tuple,
//! - [`visibility`] and [`ident`] hold the two places where the text of a
//!   string literal is handed to `syn`, and [`reading`] what is kept of the
//!   answers,
//! - [`laws`] states and proves what holds of every declaration.
//!
//! Every function is verified against a contract over the mathematical values
//! of its arguments, the `..Model` types, but for the two calls into `syn`, of
//! which nothing is claimed. What `syn` answers is no function of the text, so
//! each function that asks it has a twin that takes the answers as an
//! argument (`.._with`): the twin's contract is exact, and the function that
//! asks promises what the twin gives for some answers.

pub mod container;
pub mod error;
pub mod field;
pub mod generate;
pub mod ident;
pub mod laws;
pub mod reading;
pub mod syntax;
pub mod visibility;
