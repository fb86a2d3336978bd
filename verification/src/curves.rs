//! Pricing curves and their composition with the fee model.

pub mod base;
pub mod calculator;
pub mod constant_price;
pub mod constant_product;
pub mod offset;
