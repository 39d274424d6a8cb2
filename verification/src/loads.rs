//! The load calculator: design heat loss, internal heat gain, and the net
//! heating and cooling loads of a building.
//!
//! All results are exact. Inputs are integers in thousandths of their SI
//! unit, and every formula below multiplies inputs and fixed physical
//! constants and divides only by fixed constants, so a common denominator
//! makes every load an integer: a [`Load`] carries watts times
//! [`LOAD_SCALE`]. The factor constants below are those physical constants,
//! pre-multiplied by `LOAD_SCALE` and divided by the input scales, so each
//! term of a formula is a plain integer product.

use vstd::prelude::*;

use crate::building::{Building, BuildingEnvelope, DesignConditions, Floor, Room, MAX_MILLI};

verus! {

/// Number of load units in one watt: 19200 * 10^12.
///
/// 19200 is the denominator of the infiltration constant
/// 0.5 ACH * 1.225 kg/m^3 * 1005 J/(kg*K) / 3600 s/h = 3283/19200 (in
/// lowest terms), and 10^12 clears the four thousandth-scaled inputs of the
/// infiltration term, so every load term is an exact integer multiple of
/// 1/LOAD_SCALE watt.
pub const LOAD_SCALE: i128 = 19_200_000_000_000_000;

/// Number of load units in one thousandth of a watt: LOAD_SCALE / 1000.
pub const MILLIWATT_SCALE: i128 = 19_200_000_000_000;

/// Converts a product U-value * area * temperature difference (each in
/// thousandths, so the product carries a factor 10^9) into load units:
/// LOAD_SCALE / 10^9.
pub const ENVELOPE_TERM_FACTOR: i128 = 19_200_000;

/// Converts a product length * width * height * temperature difference
/// (each in thousandths, so the product carries a factor 10^12) into load
/// units of infiltration loss: the infiltration constant 3283/19200 times
/// LOAD_SCALE / 10^12 = 3283.
pub const INFILTRATION_TERM_FACTOR: i128 = 3283;

/// Heat gain per occupant: 75 W times LOAD_SCALE.
pub const PEOPLE_HEAT_GAIN: i128 = 1_440_000_000_000_000_000;

/// Heat gain per thousandth of a watt of lighting load: 1.25 times
/// LOAD_SCALE / 1000.
pub const LIGHTING_LOAD_FACTOR: i128 = 24_000_000_000_000;

/// Heat gain per thousandth of a watt of appliance load: 0.6 times
/// LOAD_SCALE / 1000.
pub const APPLIANCE_LOAD_FACTOR: i128 = 11_520_000_000_000;

/// Largest magnitude a single room can contribute to a load, in load units:
/// 10^32. Follows from the field bound of `building::MAX_MILLI`.
pub const ROOM_LOAD_BOUND: i128 = 100_000_000_000_000_000_000_000_000_000_000;

/// Largest magnitude a single floor can contribute: MAX_ROOMS rooms at
/// ROOM_LOAD_BOUND each, 10^35.
pub const FLOOR_LOAD_BOUND: i128 = 100_000_000_000_000_000_000_000_000_000_000_000;

/// Largest magnitude of a whole-building load: MAX_FLOORS floors at
/// FLOOR_LOAD_BOUND each, 10^37. Well under half of `i128::MAX`, so the
/// difference of two building loads cannot overflow.
pub const BUILDING_LOAD_BOUND: i128 = 10_000_000_000_000_000_000_000_000_000_000_000_000;

/// A rate of heat flow in watts, carried exactly as watts times
/// [`LOAD_SCALE`]. Positive heat loss leaves the building; positive heat
/// gain enters it.
#[derive(Clone, Copy, Debug, PartialEq, Eq, Structural)]
pub struct Load {
    /// The load in units of 1/LOAD_SCALE watt.
    pub scaled: i128,
}

impl Load {
    /// Bounded by the largest whole-building load.
    pub open spec fn valid(self) -> bool {
        -BUILDING_LOAD_BOUND <= self.scaled <= BUILDING_LOAD_BOUND
    }

    /// The load of a whole number of thousandths of a watt.
    pub fn from_milliwatts(milliwatts: i64) -> (r: Load)
        ensures
            r.scaled == milliwatts * MILLIWATT_SCALE,
            r.valid(),
    {
        Load { scaled: (milliwatts as i128) * MILLIWATT_SCALE }
    }
}

/// The design temperature differential driving envelope and infiltration
/// losses, in thousandths of a degree C.
pub open spec fn temp_difference(conditions: DesignConditions) -> int {
    conditions.indoor_temp - conditions.outdoor_temp
}

/// Conductive loss through the whole-building wall area, in load units:
/// wall U-value * wall area * (indoor - outdoor).
pub open spec fn wall_heat_loss(envelope: BuildingEnvelope, conditions: DesignConditions) -> int {
    envelope.wall_u_value * envelope.wall_area * temp_difference(conditions)
        * ENVELOPE_TERM_FACTOR
}

/// Conductive loss through the whole-building roof area, in load units:
/// roof U-value * roof area * (indoor - outdoor).
pub open spec fn roof_heat_loss(envelope: BuildingEnvelope, conditions: DesignConditions) -> int {
    envelope.roof_u_value * envelope.roof_area * temp_difference(conditions)
        * ENVELOPE_TERM_FACTOR
}

/// Conductive loss through one room's windows, in load units: the
/// envelope's window U-value * the room's window area * (indoor - outdoor).
pub open spec fn window_heat_loss(
    envelope: BuildingEnvelope,
    room: Room,
    conditions: DesignConditions,
) -> int {
    envelope.window_u_value * room.window_area * temp_difference(conditions)
        * ENVELOPE_TERM_FACTOR
}

/// Loss from uncontrolled air exchange in one room, in load units:
/// 0.5 air changes per hour * room volume * 1.225 kg/m^3 * 1005 J/(kg*K)
/// * (indoor - outdoor) / 3600 s/h.
pub open spec fn infiltration_heat_loss(room: Room, conditions: DesignConditions) -> int {
    room.length * room.width * room.height * temp_difference(conditions)
        * INFILTRATION_TERM_FACTOR
}

/// One room's share of the design heat loss: window and infiltration terms
/// of the room itself, plus the whole-building wall and roof terms, which
/// this model charges once per room.
pub open spec fn room_heat_loss(
    envelope: BuildingEnvelope,
    room: Room,
    conditions: DesignConditions,
) -> int {
    wall_heat_loss(envelope, conditions) + roof_heat_loss(envelope, conditions)
        + window_heat_loss(envelope, room, conditions)
        + infiltration_heat_loss(room, conditions)
}

/// Design heat loss of a sequence of rooms under one envelope: the sum of
/// their room heat losses.
pub open spec fn rooms_heat_loss(
    envelope: BuildingEnvelope,
    rooms: Seq<Room>,
    conditions: DesignConditions,
) -> int
    decreases rooms.len(),
{
    if rooms.len() == 0 {
        0
    } else {
        rooms_heat_loss(envelope, rooms.drop_last(), conditions)
            + room_heat_loss(envelope, rooms.last(), conditions)
    }
}

/// Design heat loss of one floor: the sum over its rooms.
pub open spec fn floor_heat_loss(
    envelope: BuildingEnvelope,
    floor: Floor,
    conditions: DesignConditions,
) -> int {
    rooms_heat_loss(envelope, floor.rooms@, conditions)
}

/// Design heat loss of a sequence of floors: the sum of their floor heat
/// losses.
pub open spec fn floors_heat_loss(
    envelope: BuildingEnvelope,
    floors: Seq<Floor>,
    conditions: DesignConditions,
) -> int
    decreases floors.len(),
{
    if floors.len() == 0 {
        0
    } else {
        floors_heat_loss(envelope, floors.drop_last(), conditions)
            + floor_heat_loss(envelope, floors.last(), conditions)
    }
}

/// Design heat loss of a whole building: the sum over all rooms of all
/// floors, each room charged its window, infiltration, wall and roof terms.
pub open spec fn building_heat_loss(building: Building, conditions: DesignConditions) -> int {
    floors_heat_loss(building.envelope, building.floors@, conditions)
}

/// Heat given off by one room's occupants, in load units: 75 W per person.
pub open spec fn people_heat_gain(room: Room) -> int {
    room.num_people * PEOPLE_HEAT_GAIN
}

/// Heat given off by one room's lighting, in load units: 1.25 times the
/// installed lighting load.
pub open spec fn lighting_heat_gain(room: Room) -> int {
    room.lighting_load * LIGHTING_LOAD_FACTOR
}

/// Heat given off by one room's appliances, in load units: 0.6 times the
/// installed appliance load.
pub open spec fn appliance_heat_gain(room: Room) -> int {
    room.appliance_load * APPLIANCE_LOAD_FACTOR
}

/// Internal heat gain of one room: occupants, lighting and appliances.
pub open spec fn room_heat_gain(room: Room) -> int {
    people_heat_gain(room) + lighting_heat_gain(room) + appliance_heat_gain(room)
}

/// Internal heat gain of a sequence of rooms: the sum of their room heat
/// gains.
pub open spec fn rooms_heat_gain(rooms: Seq<Room>) -> int
    decreases rooms.len(),
{
    if rooms.len() == 0 {
        0
    } else {
        rooms_heat_gain(rooms.drop_last()) + room_heat_gain(rooms.last())
    }
}

/// Internal heat gain of one floor: the sum over its rooms.
pub open spec fn floor_heat_gain(floor: Floor) -> int {
    rooms_heat_gain(floor.rooms@)
}

/// Internal heat gain of a sequence of floors: the sum of their floor heat
/// gains.
pub open spec fn floors_heat_gain(floors: Seq<Floor>) -> int
    decreases floors.len(),
{
    if floors.len() == 0 {
        0
    } else {
        floors_heat_gain(floors.drop_last()) + floor_heat_gain(floors.last())
    }
}

/// Internal heat gain of a whole building: the sum over all rooms of all
/// floors.
pub open spec fn building_heat_gain(building: Building) -> int {
    floors_heat_gain(building.floors@)
}

/// Net load the cooling plant must offset: heat gain - heat loss.
pub open spec fn cooling_load_value(heat_loss: int, heat_gain: int) -> int {
    heat_gain - heat_loss
}

/// Net load the heating plant must offset: heat loss - heat gain.
pub open spec fn heating_load_value(heat_loss: int, heat_gain: int) -> int {
    heat_loss - heat_gain
}

/// The cooling and heating loads of the same two scalars are exact
/// opposites, for all values of both.
pub proof fn lemma_cooling_negates_heating(heat_loss: int, heat_gain: int)
    ensures
        cooling_load_value(heat_loss, heat_gain) == -heating_load_value(heat_loss, heat_gain),
{
}

/// A building with no floors, or whose every floor has no rooms,
/// contributes nothing: both its design heat loss and its internal heat
/// gain are zero.
pub proof fn lemma_building_without_rooms_has_zero_loads(
    building: Building,
    conditions: DesignConditions,
)
    requires
        forall|i: int| 0 <= i < building.floors@.len() ==> building.floors@[i].rooms@.len() == 0,
    ensures
        building_heat_loss(building, conditions) == 0,
        building_heat_gain(building) == 0,
{
    lemma_floors_without_rooms(building.envelope, building.floors@, conditions);
}

proof fn lemma_floors_without_rooms(
    envelope: BuildingEnvelope,
    floors: Seq<Floor>,
    conditions: DesignConditions,
)
    requires
        forall|i: int| 0 <= i < floors.len() ==> floors[i].rooms@.len() == 0,
    ensures
        floors_heat_loss(envelope, floors, conditions) == 0,
        floors_heat_gain(floors) == 0,
    decreases floors.len(),
{
    if floors.len() > 0 {
        assert forall|i: int| 0 <= i < floors.drop_last().len() implies floors.drop_last()[
            i
        ].rooms@.len() == 0 by {
            assert(floors.drop_last()[i] == floors[i]);
        }
        lemma_floors_without_rooms(envelope, floors.drop_last(), conditions);
        assert(floors.last().rooms@.len() == 0);
    }
}

/// Whether two rooms agree on the three fields that drive internal heat
/// gain: occupants, lighting load and appliance load.
pub open spec fn same_internal_loads(a: Room, b: Room) -> bool {
    &&& a.num_people == b.num_people
    &&& a.lighting_load == b.lighting_load
    &&& a.appliance_load == b.appliance_load
}

/// Internal heat gain depends only on each room's occupants, lighting load
/// and appliance load: two buildings of the same shape whose corresponding
/// rooms agree on those three fields have the same heat gain, whatever
/// their geometry, window areas, envelopes or locations.
pub proof fn lemma_heat_gain_depends_only_on_internal_loads(a: Building, b: Building)
    requires
        a.floors@.len() == b.floors@.len(),
        forall|i: int|
            0 <= i < a.floors@.len() ==> a.floors@[i].rooms@.len() == b.floors@[i].rooms@.len(),
        forall|i: int, j: int|
            0 <= i < a.floors@.len() && 0 <= j < a.floors@[i].rooms@.len()
                ==> same_internal_loads(a.floors@[i].rooms@[j], b.floors@[i].rooms@[j]),
    ensures
        building_heat_gain(a) == building_heat_gain(b),
{
    lemma_floors_heat_gain_congruent(a.floors@, b.floors@);
}

proof fn lemma_rooms_heat_gain_congruent(x: Seq<Room>, y: Seq<Room>)
    requires
        x.len() == y.len(),
        forall|j: int| 0 <= j < x.len() ==> same_internal_loads(x[j], y[j]),
    ensures
        rooms_heat_gain(x) == rooms_heat_gain(y),
    decreases x.len(),
{
    if x.len() > 0 {
        assert forall|j: int| 0 <= j < x.drop_last().len() implies same_internal_loads(
            x.drop_last()[j],
            y.drop_last()[j],
        ) by {
            assert(x.drop_last()[j] == x[j]);
            assert(y.drop_last()[j] == y[j]);
        }
        lemma_rooms_heat_gain_congruent(x.drop_last(), y.drop_last());
        assert(same_internal_loads(x[x.len() - 1], y[y.len() - 1]));
    }
}

proof fn lemma_floors_heat_gain_congruent(x: Seq<Floor>, y: Seq<Floor>)
    requires
        x.len() == y.len(),
        forall|i: int| 0 <= i < x.len() ==> x[i].rooms@.len() == y[i].rooms@.len(),
        forall|i: int, j: int|
            0 <= i < x.len() && 0 <= j < x[i].rooms@.len() ==> same_internal_loads(
                x[i].rooms@[j],
                y[i].rooms@[j],
            ),
    ensures
        floors_heat_gain(x) == floors_heat_gain(y),
    decreases x.len(),
{
    if x.len() > 0 {
        assert forall|i: int| 0 <= i < x.drop_last().len() implies x.drop_last()[i].rooms@.len()
            == y.drop_last()[i].rooms@.len() by {
            assert(x.drop_last()[i] == x[i]);
            assert(y.drop_last()[i] == y[i]);
        }
        assert forall|i: int, j: int|
            0 <= i < x.drop_last().len() && 0 <= j < x.drop_last()[i].rooms@.len()
                implies same_internal_loads(
                x.drop_last()[i].rooms@[j],
                y.drop_last()[i].rooms@[j],
            ) by {
            assert(x.drop_last()[i] == x[i]);
            assert(y.drop_last()[i] == y[i]);
            assert(same_internal_loads(x[i].rooms@[j], y[i].rooms@[j]));
        }
        lemma_floors_heat_gain_congruent(x.drop_last(), y.drop_last());
        assert(x[x.len() - 1].rooms@.len() == y[y.len() - 1].rooms@.len());
        assert forall|j: int| 0 <= j < x.last().rooms@.len() implies same_internal_loads(
            x.last().rooms@[j],
            y.last().rooms@[j],
        ) by {
            assert(same_internal_loads(x[x.len() - 1].rooms@[j], y[y.len() - 1].rooms@[j]));
        }
        lemma_rooms_heat_gain_congruent(x.last().rooms@, y.last().rooms@);
    }
}

/// Extending a room prefix by one room adds that room's heat loss.
proof fn lemma_rooms_heat_loss_take(
    envelope: BuildingEnvelope,
    rooms: Seq<Room>,
    conditions: DesignConditions,
    i: int,
)
    requires
        0 <= i < rooms.len(),
    ensures
        rooms_heat_loss(envelope, rooms.take(i + 1), conditions) == rooms_heat_loss(
            envelope,
            rooms.take(i),
            conditions,
        ) + room_heat_loss(envelope, rooms[i], conditions),
{
    assert(rooms.take(i + 1).drop_last() =~= rooms.take(i));
    assert(rooms.take(i + 1).last() == rooms[i]);
}

/// Extending a floor prefix by one floor adds that floor's heat loss.
proof fn lemma_floors_heat_loss_take(
    envelope: BuildingEnvelope,
    floors: Seq<Floor>,
    conditions: DesignConditions,
    i: int,
)
    requires
        0 <= i < floors.len(),
    ensures
        floors_heat_loss(envelope, floors.take(i + 1), conditions) == floors_heat_loss(
            envelope,
            floors.take(i),
            conditions,
        ) + floor_heat_loss(envelope, floors[i], conditions),
{
    assert(floors.take(i + 1).drop_last() =~= floors.take(i));
    assert(floors.take(i + 1).last() == floors[i]);
}

/// Extending a room prefix by one room adds that room's heat gain.
proof fn lemma_rooms_heat_gain_take(rooms: Seq<Room>, i: int)
    requires
        0 <= i < rooms.len(),
    ensures
        rooms_heat_gain(rooms.take(i + 1)) == rooms_heat_gain(rooms.take(i)) + room_heat_gain(
            rooms[i],
        ),
{
    assert(rooms.take(i + 1).drop_last() =~= rooms.take(i));
    assert(rooms.take(i + 1).last() == rooms[i]);
}

/// Extending a floor prefix by one floor adds that floor's heat gain.
proof fn lemma_floors_heat_gain_take(floors: Seq<Floor>, i: int)
    requires
        0 <= i < floors.len(),
    ensures
        floors_heat_gain(floors.take(i + 1)) == floors_heat_gain(floors.take(i)) + floor_heat_gain(
            floors[i],
        ),
{
    assert(floors.take(i + 1).drop_last() =~= floors.take(i));
    assert(floors.take(i + 1).last() == floors[i]);
}

/// Heat lost by one room to uncontrolled air exchange, from its volume and
/// the design temperature differential.
pub fn calculate_infiltration_load(room: &Room, conditions: &DesignConditions) -> (r: Load)
    requires
        room.valid(),
        conditions.valid(),
    ensures
        r.scaled == infiltration_heat_loss(*room, *conditions),
        -66_000_000_000_000_000_000_000_000_000_000 <= r.scaled
            <= 66_000_000_000_000_000_000_000_000_000_000,
{
    let dt: i128 = (conditions.indoor_temp as i128) - (conditions.outdoor_temp as i128);
    assert(0 <= (room.length as int) * (room.width as int) <= 100_000_000_000_000)
        by (nonlinear_arith)
        requires
            0 <= room.length <= 10_000_000,
            0 <= room.width <= 10_000_000,
    ;
    assert(0 <= (room.length as int) * (room.width as int) * (room.height as int)
        <= 1_000_000_000_000_000_000_000) by (nonlinear_arith)
        requires
            0 <= (room.length as int) * (room.width as int) <= 100_000_000_000_000,
            0 <= room.height <= 10_000_000,
    ;
    assert(-20_000_000_000_000_000_000_000_000_000
        <= (room.length as int) * (room.width as int) * (room.height as int) * (dt as int)
        <= 20_000_000_000_000_000_000_000_000_000) by (nonlinear_arith)
        requires
            0 <= (room.length as int) * (room.width as int) * (room.height as int)
                <= 1_000_000_000_000_000_000_000,
            -20_000_000 <= dt <= 20_000_000,
    ;
    let volume_dt: i128 = (room.length as i128) * (room.width as i128) * (room.height as i128)
        * dt;
    Load { scaled: volume_dt * INFILTRATION_TERM_FACTOR }
}

/// One conductive envelope term, u_value * area * dt, scaled into load
/// units; dt is the temperature differential in thousandths of a degree.
fn envelope_term(u_value: i64, area: i64, dt: i128) -> (r: i128)
    requires
        0 <= u_value <= MAX_MILLI,
        0 <= area <= MAX_MILLI,
        -20_000_000 <= dt <= 20_000_000,
    ensures
        r == u_value * area * dt * ENVELOPE_TERM_FACTOR,
        -40_000_000_000_000_000_000_000_000_000 <= r <= 40_000_000_000_000_000_000_000_000_000,
{
    assert(0 <= (u_value as int) * (area as int) <= 100_000_000_000_000) by (nonlinear_arith)
        requires
            0 <= u_value <= 10_000_000,
            0 <= area <= 10_000_000,
    ;
    assert(-2_000_000_000_000_000_000_000 <= (u_value as int) * (area as int) * (dt as int)
        <= 2_000_000_000_000_000_000_000) by (nonlinear_arith)
        requires
            0 <= (u_value as int) * (area as int) <= 100_000_000_000_000,
            -20_000_000 <= dt <= 20_000_000,
    ;
    (u_value as i128) * (area as i128) * dt * ENVELOPE_TERM_FACTOR
}

/// One room's share of the design heat loss: wall, roof, window and
/// infiltration terms.
fn calculate_room_heat_loss(
    envelope: &BuildingEnvelope,
    room: &Room,
    conditions: &DesignConditions,
) -> (r: i128)
    requires
        envelope.valid(),
        room.valid(),
        conditions.valid(),
    ensures
        r == room_heat_loss(*envelope, *room, *conditions),
        -ROOM_LOAD_BOUND <= r <= ROOM_LOAD_BOUND,
{
    let dt: i128 = (conditions.indoor_temp as i128) - (conditions.outdoor_temp as i128);
    assert(dt == temp_difference(*conditions));
    let wall: i128 = envelope_term(envelope.wall_u_value, envelope.wall_area, dt);
    let roof: i128 = envelope_term(envelope.roof_u_value, envelope.roof_area, dt);
    let window: i128 = envelope_term(envelope.window_u_value, room.window_area, dt);
    let infiltration: Load = calculate_infiltration_load(room, conditions);
    wall + roof + window + infiltration.scaled
}

/// One room's internal heat gain: occupants, lighting and appliances.
fn calculate_room_heat_gain(room: &Room) -> (r: i128)
    requires
        room.valid(),
    ensures
        r == room_heat_gain(*room),
        0 <= r <= ROOM_LOAD_BOUND,
{
    let people: i128 = (room.num_people as i128) * PEOPLE_HEAT_GAIN;
    let lighting: i128 = (room.lighting_load as i128) * LIGHTING_LOAD_FACTOR;
    let appliance: i128 = (room.appliance_load as i128) * APPLIANCE_LOAD_FACTOR;
    people + lighting + appliance
}

/// Design heat loss of a whole building under the given design
/// temperatures: for every room of every floor, the envelope's wall and
/// roof terms, the room's window term, and the room's infiltration loss,
/// all summed.
pub fn calculate_heat_loss(building: &Building, conditions: &DesignConditions) -> (r: Load)
    requires
        building.valid(),
        conditions.valid(),
    ensures
        r.scaled == building_heat_loss(*building, *conditions),
        r.valid(),
{
    let mut total: i128 = 0;
    let mut f: usize = 0;
    while f < building.floors.len()
        invariant
            building.valid(),
            conditions.valid(),
            f <= building.floors.len(),
            total == floors_heat_loss(
                building.envelope,
                building.floors@.take(f as int),
                *conditions,
            ),
            -(f as int) * FLOOR_LOAD_BOUND <= total <= (f as int) * FLOOR_LOAD_BOUND,
        decreases building.floors.len() - f,
    {
        let floor: &Floor = &building.floors[f];
        let mut sub: i128 = 0;
        let mut i: usize = 0;
        while i < floor.rooms.len()
            invariant
                building.envelope.valid(),
                conditions.valid(),
                floor.valid(),
                i <= floor.rooms.len(),
                sub == rooms_heat_loss(
                    building.envelope,
                    floor.rooms@.take(i as int),
                    *conditions,
                ),
                -(i as int) * ROOM_LOAD_BOUND <= sub <= (i as int) * ROOM_LOAD_BOUND,
            decreases floor.rooms.len() - i,
        {
            let room_loss: i128 = calculate_room_heat_loss(
                &building.envelope,
                &floor.rooms[i],
                conditions,
            );
            proof {
                lemma_rooms_heat_loss_take(
                    building.envelope,
                    floor.rooms@,
                    *conditions,
                    i as int,
                );
            }
            sub = sub + room_loss;
            i = i + 1;
        }
        proof {
            assert(floor.rooms@.take(floor.rooms@.len() as int) =~= floor.rooms@);
            lemma_floors_heat_loss_take(
                building.envelope,
                building.floors@,
                *conditions,
                f as int,
            );
        }
        total = total + sub;
        f = f + 1;
    }
    proof {
        assert(building.floors@.take(building.floors@.len() as int) =~= building.floors@);
    }
    Load { scaled: total }
}

/// Internal heat gain of a whole building: occupant, lighting and
/// appliance gains of every room of every floor, summed.
pub fn calculate_heat_gain(building: &Building) -> (r: Load)
    requires
        building.valid(),
    ensures
        r.scaled == building_heat_gain(*building),
        0 <= r.scaled,
        r.valid(),
{
    let mut total: i128 = 0;
    let mut f: usize = 0;
    while f < building.floors.len()
        invariant
            building.valid(),
            f <= building.floors.len(),
            total == floors_heat_gain(building.floors@.take(f as int)),
            0 <= total <= (f as int) * FLOOR_LOAD_BOUND,
        decreases building.floors.len() - f,
    {
        let floor: &Floor = &building.floors[f];
        let mut sub: i128 = 0;
        let mut i: usize = 0;
        while i < floor.rooms.len()
            invariant
                floor.valid(),
                i <= floor.rooms.len(),
                sub == rooms_heat_gain(floor.rooms@.take(i as int)),
                0 <= sub <= (i as int) * ROOM_LOAD_BOUND,
            decreases floor.rooms.len() - i,
        {
            let room_gain: i128 = calculate_room_heat_gain(&floor.rooms[i]);
            proof {
                lemma_rooms_heat_gain_take(floor.rooms@, i as int);
            }
            sub = sub + room_gain;
            i = i + 1;
        }
        proof {
            assert(floor.rooms@.take(floor.rooms@.len() as int) =~= floor.rooms@);
            lemma_floors_heat_gain_take(building.floors@, f as int);
        }
        total = total + sub;
        f = f + 1;
    }
    proof {
        assert(building.floors@.take(building.floors@.len() as int) =~= building.floors@);
    }
    Load { scaled: total }
}

/// Net cooling load from a design heat loss and an internal heat gain:
/// heat gain - heat loss.
pub fn calculate_cooling_load(heat_loss: Load, heat_gain: Load) -> (r: Load)
    requires
        heat_loss.valid(),
        heat_gain.valid(),
    ensures
        r.scaled == cooling_load_value(heat_loss.scaled as int, heat_gain.scaled as int),
{
    Load { scaled: heat_gain.scaled - heat_loss.scaled }
}

/// Net heating load from a design heat loss and an internal heat gain:
/// heat loss - heat gain.
pub fn calculate_heating_load(heat_loss: Load, heat_gain: Load) -> (r: Load)
    requires
        heat_loss.valid(),
        heat_gain.valid(),
    ensures
        r.scaled == heating_load_value(heat_loss.scaled as int, heat_gain.scaled as int),
{
    Load { scaled: heat_loss.scaled - heat_gain.scaled }
}

} // verus!

