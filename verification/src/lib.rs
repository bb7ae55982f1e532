//! Enums that resolve to values, and back.
//!
//! An enum implementing [`indexed_enum::Indexed`] maps each of its variants
//! to a dense, zero-based discriminant and recovers the variant from that
//! discriminant through a table holding every variant in declaration order.
//! [`valued_enum::Valued`] layers a second table of payload values over the
//! same discriminants, with a reverse lookup from a payload back to the
//! first variant carrying it.
//!
//! [`codegen`] holds the generation rules that keep such implementations
//! consistent with a declarative description of the enum: payload
//! resolution with an enum-level default, field-initializer synthesis, and
//! the feature catalogue. [`serde_compatibility`] and
//! [`nanoserde_compatibility`] carry a variant over a wire as nothing but
//! its discriminant, and validate the discriminant on the way back in.
//! [`examples`] ships enums with all of it wired up and proved.

pub mod codegen;
pub mod examples;
pub mod indexed_enum;
pub mod nanoserde_compatibility;
pub mod serde_compatibility;
pub mod utils;
pub mod valued_enum;
