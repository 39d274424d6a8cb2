//! Building heating and cooling load estimation.
//!
//! A building is described as floors of rooms together with an aggregate
//! thermal envelope, and the library derives design heat loss, internal heat
//! gain, and the net heating and cooling loads from room geometry and fixed
//! physical constants.
//!
//! Every physical quantity is carried as an integer count of a small fixed
//! unit (thousandths of the SI unit for the inputs, `loads::LOAD_SCALE`ths of
//! a watt for the results), so all arithmetic is exact and every contract can
//! state the computed value precisely.

pub mod building;
pub mod loads;
pub mod materials;
