pub mod animal;
pub mod counter;
pub mod decimal;
pub mod division;
pub mod lifetime;
pub mod nullable;
pub mod optional;
pub mod square;
pub mod static_division;
