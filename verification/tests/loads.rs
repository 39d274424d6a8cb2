use hvacrux::building::{Building, BuildingEnvelope, DesignConditions, Floor, Location, Room};
use hvacrux::loads::{
    calculate_cooling_load, calculate_heat_gain, calculate_heat_loss, calculate_heating_load,
    calculate_infiltration_load, Load, LOAD_SCALE, MILLIWATT_SCALE,
};

/// The load as a plain f64 number of watts, for expectations that are exact
/// in binary floating point.
fn watts(load: Load) -> f64 {
    load.scaled as f64 / LOAD_SCALE as f64
}

fn milliwatts(mw: i64) -> Load {
    Load::from_milliwatts(mw)
}

/// Two rooms on one floor; envelope 100 m^2 of U 0.3 wall, 40 m^2 of U 0.2
/// roof, U 2.0 windows.
fn two_room_building() -> Building {
    let room1 = Room {
        length: 5_000,
        width: 4_000,
        height: 3_000,
        window_area: 2_000,
        num_people: 2,
        lighting_load: 200_000,
        appliance_load: 300_000,
    };
    let room2 = Room {
        length: 6_000,
        width: 5_000,
        height: 3_000,
        window_area: 3_000,
        num_people: 3,
        lighting_load: 300_000,
        appliance_load: 400_000,
    };
    Building {
        floors: vec![Floor { rooms: vec![room1, room2] }],
        envelope: BuildingEnvelope {
            wall_area: 100_000,
            wall_u_value: 300,
            roof_area: 40_000,
            roof_u_value: 200,
            window_u_value: 2_000,
        },
        location: Location { latitude: 37_774_900, longitude: -122_419_400, elevation: 50_000 },
    }
}

#[test]
fn heat_loss_two_room_building() {
    let building = two_room_building();
    let conditions = DesignConditions { outdoor_temp: -10_000, indoor_temp: 22_000 };
    // Per room, with dT = 32 K: wall 0.3*100*32 = 960 W; roof 0.2*40*32 =
    // 256 W; windows 2.0*32 times 2 m^2 resp. 3 m^2 = 128 W resp. 192 W;
    // infiltration 328.30 W resp. 492.45 W. Total 1672.30 + 1900.45 W.
    let heat_loss = calculate_heat_loss(&building, &conditions);
    assert_eq!(heat_loss, milliwatts(3_572_750));
    assert_eq!(watts(heat_loss), 3572.75);
}

#[test]
fn heat_gain_two_room_building() {
    let building = two_room_building();
    // Per room: 2*75 + 200*1.25 + 300*0.6 = 580 W and
    // 3*75 + 300*1.25 + 400*0.6 = 840 W.
    let heat_gain = calculate_heat_gain(&building);
    assert_eq!(heat_gain, milliwatts(1_420_000));
    assert_eq!(watts(heat_gain), 1420.0);
}

#[test]
fn infiltration_load_of_one_room() {
    let room = Room {
        length: 5_000,
        width: 4_000,
        height: 3_000,
        window_area: 2_000,
        num_people: 2,
        lighting_load: 200_000,
        appliance_load: 300_000,
    };
    let conditions = DesignConditions { outdoor_temp: -10_000, indoor_temp: 22_000 };
    // 0.5 * 60 m^3 * 1.225 * 1005.0 * 32 K / 3600 = 328.30 W exactly.
    let load = calculate_infiltration_load(&room, &conditions);
    assert_eq!(load, milliwatts(328_300));
    assert_eq!(watts(load), 328.3);
}

#[test]
fn infiltration_load_can_be_negative() {
    // Outdoor hotter than indoor: the differential, and so the "loss", is
    // negative. 1 m^3 room, dT = -10 K: -1e9 * 1e4 * 3283 scaled units.
    let room = Room {
        length: 1_000,
        width: 1_000,
        height: 1_000,
        window_area: 0,
        num_people: 0,
        lighting_load: 0,
        appliance_load: 0,
    };
    let conditions = DesignConditions { outdoor_temp: 30_000, indoor_temp: 20_000 };
    let load = calculate_infiltration_load(&room, &conditions);
    assert_eq!(load.scaled, -32_830_000_000_000_000);
}

#[test]
fn heat_loss_single_large_room() {
    // One 20 x 15 x 8 m room under a generously sized envelope, with a
    // 40 K differential: 1536 + 1680 + 560 + 16415 = 20191 W exactly.
    let room = Room {
        length: 20_000,
        width: 15_000,
        height: 8_000,
        window_area: 40_000,
        num_people: 4,
        lighting_load: 800_000,
        appliance_load: 1_200_000,
    };
    let building = Building {
        floors: vec![Floor { rooms: vec![room] }],
        envelope: BuildingEnvelope {
            wall_area: 600_000,
            wall_u_value: 64,
            roof_area: 1_200_000,
            roof_u_value: 35,
            window_u_value: 350,
        },
        location: Location { latitude: 38_907_200, longitude: -77_036_900, elevation: 50_000 },
    };
    let conditions = DesignConditions { outdoor_temp: 35_000, indoor_temp: 75_000 };
    let heat_loss = calculate_heat_loss(&building, &conditions);
    assert_eq!(heat_loss, milliwatts(20_191_000));
    assert_eq!(watts(heat_loss), 20191.0);
}

#[test]
fn heat_gain_three_room_building() {
    // 3*75 + 600*1.25 + 900*0.6 = 1515 W; the other two rooms give
    // 2*75 + 400*1.25 + 600*0.6 = 1010 W each.
    let room1 = Room {
        length: 15_000,
        width: 12_000,
        height: 8_000,
        window_area: 30_000,
        num_people: 3,
        lighting_load: 600_000,
        appliance_load: 900_000,
    };
    let room2 = Room {
        length: 12_000,
        width: 10_000,
        height: 8_000,
        window_area: 20_000,
        num_people: 2,
        lighting_load: 400_000,
        appliance_load: 600_000,
    };
    let room3 = Room {
        length: 10_000,
        width: 10_000,
        height: 8_000,
        window_area: 15_000,
        num_people: 2,
        lighting_load: 400_000,
        appliance_load: 600_000,
    };
    let building = Building {
        floors: vec![Floor { rooms: vec![room1, room2, room3] }],
        envelope: BuildingEnvelope {
            wall_area: 450_000,
            wall_u_value: 64,
            roof_area: 900_000,
            roof_u_value: 35,
            window_u_value: 350,
        },
        location: Location { latitude: 40_712_800, longitude: -74_005_900, elevation: 30_000 },
    };
    let heat_gain = calculate_heat_gain(&building);
    assert_eq!(heat_gain, milliwatts(3_535_000));
    assert_eq!(watts(heat_gain), 3535.0);
}

#[test]
fn test_calculate_cooling_load() {
    let heat_loss = milliwatts(8_320_000);
    let heat_gain = milliwatts(1_340_000);

    let cooling_load = calculate_cooling_load(heat_loss, heat_gain);
    assert_eq!(cooling_load, milliwatts(-6_980_000));
    assert_eq!(watts(cooling_load), -6980.0);
}

#[test]
fn test_calculate_heating_load() {
    let heat_loss = milliwatts(8_320_000);
    let heat_gain = milliwatts(1_340_000);

    let heating_load = calculate_heating_load(heat_loss, heat_gain);
    assert_eq!(heating_load, milliwatts(6_980_000));
    assert_eq!(watts(heating_load), 6980.0);
}

#[test]
fn cooling_load_negates_heating_load() {
    let pairs: Vec<(i64, i64)> = vec![(8_320_000, 1_340_000), (0, 0), (-5_000, 17), (123, -456)];
    for (loss_mw, gain_mw) in pairs {
        let loss = milliwatts(loss_mw);
        let gain = milliwatts(gain_mw);
        let cooling = calculate_cooling_load(loss, gain);
        let heating = calculate_heating_load(loss, gain);
        assert_eq!(cooling.scaled, -heating.scaled);
    }
}

#[test]
fn building_with_no_floors_has_zero_loads() {
    let building = Building {
        floors: vec![],
        envelope: BuildingEnvelope {
            wall_area: 100_000,
            wall_u_value: 300,
            roof_area: 40_000,
            roof_u_value: 200,
            window_u_value: 2_000,
        },
        location: Location { latitude: 0, longitude: 0, elevation: 0 },
    };
    let conditions = DesignConditions { outdoor_temp: -10_000, indoor_temp: 22_000 };
    assert_eq!(calculate_heat_loss(&building, &conditions).scaled, 0);
    assert_eq!(calculate_heat_gain(&building).scaled, 0);
}

#[test]
fn building_with_only_empty_floors_has_zero_loads() {
    let building = Building {
        floors: vec![Floor { rooms: vec![] }, Floor { rooms: vec![] }],
        envelope: BuildingEnvelope {
            wall_area: 100_000,
            wall_u_value: 300,
            roof_area: 40_000,
            roof_u_value: 200,
            window_u_value: 2_000,
        },
        location: Location { latitude: 0, longitude: 0, elevation: 0 },
    };
    let conditions = DesignConditions { outdoor_temp: -10_000, indoor_temp: 22_000 };
    assert_eq!(calculate_heat_loss(&building, &conditions).scaled, 0);
    assert_eq!(calculate_heat_gain(&building).scaled, 0);
}

#[test]
fn heat_loss_is_zero_without_temperature_differential() {
    let building = two_room_building();
    let conditions = DesignConditions { outdoor_temp: 21_000, indoor_temp: 21_000 };
    assert_eq!(calculate_heat_loss(&building, &conditions).scaled, 0);
}

#[test]
fn heat_gain_ignores_geometry() {
    let mut reshaped = two_room_building();
    for floor in &mut reshaped.floors {
        for room in &mut floor.rooms {
            room.length *= 2;
            room.width += 1_500;
            room.height = 9_000;
            room.window_area = 0;
        }
    }
    reshaped.envelope.wall_area = 0;
    let heat_gain = calculate_heat_gain(&two_room_building());
    assert_eq!(calculate_heat_gain(&reshaped), heat_gain);
    assert_eq!(heat_gain, milliwatts(1_420_000));
}

#[test]
fn from_milliwatts_scales_exactly() {
    assert_eq!(milliwatts(1).scaled, MILLIWATT_SCALE);
    assert_eq!(milliwatts(1_000).scaled, LOAD_SCALE);
    assert_eq!(milliwatts(-2_500).scaled, -2_500 * MILLIWATT_SCALE);
    assert_eq!(watts(milliwatts(1_000)), 1.0);
}
