//! The entities a load calculation works over.
//!
//! All physical fields are integers in thousandths of their SI unit
//! (a length of `5000` is 5 m, a U-value of `300` is 0.3 W/(m^2*K), a
//! temperature of `-10_000` is -10 degrees C), except `Location`, whose
//! coordinates are in millionths of a degree. Storing exact thousandths
//! keeps every derived load an exact integer multiple of a fixed fraction
//! of a watt.

use vstd::prelude::*;

verus! {

/// Largest magnitude, in thousandths, that any physical field of a room,
/// envelope or design condition may carry: 10,000 of the unit in question.
/// Together with the floor and room count limits this keeps every
/// intermediate product of a load calculation inside `i128`.
pub const MAX_MILLI: i64 = 10_000_000;

/// Largest number of floors a building may have.
pub const MAX_FLOORS: usize = 100;

/// Largest number of rooms a floor may have.
pub const MAX_ROOMS: usize = 1000;

/// A single conditioned room: geometry plus internal load sources.
pub struct Room {
    /// Length in thousandths of a meter.
    pub length: i64,
    /// Width in thousandths of a meter.
    pub width: i64,
    /// Height in thousandths of a meter.
    pub height: i64,
    /// Exterior window area in thousandths of a square meter.
    pub window_area: i64,
    /// Number of occupants.
    pub num_people: u32,
    /// Installed lighting load in thousandths of a watt.
    pub lighting_load: i64,
    /// Installed appliance load in thousandths of a watt.
    pub appliance_load: i64,
}

/// An ordered sequence of rooms; a floor may be empty.
pub struct Floor {
    pub rooms: Vec<Room>,
}

/// Whole-building aggregate thermal properties, applied uniformly: wall and
/// roof terms use these areas directly, while the window U-value is combined
/// with each room's own window area.
pub struct BuildingEnvelope {
    /// Exterior wall area in thousandths of a square meter.
    pub wall_area: i64,
    /// Wall U-value in thousandths of a W/(m^2*K).
    pub wall_u_value: i64,
    /// Roof area in thousandths of a square meter.
    pub roof_area: i64,
    /// Roof U-value in thousandths of a W/(m^2*K).
    pub roof_u_value: i64,
    /// Window U-value in thousandths of a W/(m^2*K).
    pub window_u_value: i64,
}

/// Geographic site of a building. Descriptive only: no calculation in this
/// library reads it; it is kept for future climate-data lookups.
pub struct Location {
    /// Latitude in millionths of a degree.
    pub latitude: i64,
    /// Longitude in millionths of a degree.
    pub longitude: i64,
    /// Elevation in thousandths of a meter.
    pub elevation: i64,
}

/// A building: floors of rooms, one envelope, one location.
pub struct Building {
    pub floors: Vec<Floor>,
    pub envelope: BuildingEnvelope,
    pub location: Location,
}

/// The single snapshot of design temperatures for a load computation, in
/// thousandths of a degree C.
pub struct DesignConditions {
    pub outdoor_temp: i64,
    pub indoor_temp: i64,
}

/// A non-negative quantity small enough for exact load arithmetic.
pub open spec fn valid_quantity(x: i64) -> bool {
    0 <= x <= MAX_MILLI
}

/// A temperature of bounded magnitude; may be negative.
pub open spec fn valid_temperature(x: i64) -> bool {
    -MAX_MILLI <= x <= MAX_MILLI
}

impl Room {
    /// All geometric and load fields are non-negative and bounded.
    pub open spec fn valid(self) -> bool {
        &&& valid_quantity(self.length)
        &&& valid_quantity(self.width)
        &&& valid_quantity(self.height)
        &&& valid_quantity(self.window_area)
        &&& valid_quantity(self.lighting_load)
        &&& valid_quantity(self.appliance_load)
    }
}

impl Floor {
    /// Bounded in size, with every room valid; an empty floor is valid.
    pub open spec fn valid(self) -> bool {
        &&& self.rooms@.len() <= MAX_ROOMS
        &&& forall|i: int| 0 <= i < self.rooms@.len() ==> self.rooms@[i].valid()
    }
}

impl BuildingEnvelope {
    /// All areas and U-values are non-negative and bounded.
    pub open spec fn valid(self) -> bool {
        &&& valid_quantity(self.wall_area)
        &&& valid_quantity(self.wall_u_value)
        &&& valid_quantity(self.roof_area)
        &&& valid_quantity(self.roof_u_value)
        &&& valid_quantity(self.window_u_value)
    }
}

impl Building {
    /// Bounded in size, with a valid envelope and every floor valid; a
    /// building with no floors is valid.
    pub open spec fn valid(self) -> bool {
        &&& self.floors@.len() <= MAX_FLOORS
        &&& forall|i: int| 0 <= i < self.floors@.len() ==> self.floors@[i].valid()
        &&& self.envelope.valid()
    }
}

impl DesignConditions {
    /// Both design temperatures are of bounded magnitude.
    pub open spec fn valid(self) -> bool {
        &&& valid_temperature(self.outdoor_temp)
        &&& valid_temperature(self.indoor_temp)
    }
}

} // verus!
