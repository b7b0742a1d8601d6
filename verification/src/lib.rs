//! Columnar batches from variant call records.
//!
//! A header gives rise to a schema ([`schema`]): seven required columns, one
//! for each INFO definition and one for each FORMAT definition of each
//! sample. A record gives rise to one row for each of its alternate alleles
//! ([`row`]); the cell that a field puts into a row is cut out of the field's
//! values by the field's number code ([`cell`], [`field`], [`genotype`]).
//! Rows are collected in a store of typed columns ([`name2data`],
//! [`columndata`]) that is frozen into arrays, batch by batch
//! ([`record2chunk`]). What holds of all of this is stated in [`laws`].
//!
//! The columns are `arrow`'s builders; what is taken on trust of them is in
//! [`builder`]. Reading files and writing them is not the library's part:
//! it takes records as plain values ([`header`], [`record`]) and hands out
//! arrays.

pub mod builder;
pub mod cell;
pub mod cli;
pub mod columndata;
pub mod error;
pub mod field;
pub mod genotype;
pub mod header;
pub mod laws;
pub mod measure;
pub mod name2data;
pub mod record;
pub mod record2chunk;
pub mod row;
pub mod schema;
pub mod template;
