//! Character and number classification for a dynamically typed Lisp value,
//! and the conversion of characters between their unibyte and multibyte
//! forms.
//!
//! * [`lisp`] holds the tagged value and the predicates that read its tag.
//! * [`character`] says which values are characters and converts them
//!   between the two forms.
//! * [`numbers`] holds the predicates on numbers and markers.
//! * [`error`] holds the errors that these report, and [`decimal`] the
//!   notation of the numbers in their text.
//! * [`subr`] describes each primitive as the Lisp command layer sees it.
//!
//! Every function of this crate is verified with Verus: each contract states
//! what the function returns on every input it accepts.
#![allow(non_snake_case)]

pub mod character;
pub mod decimal;
pub mod error;
pub mod lisp;
pub mod numbers;
pub mod subr;
