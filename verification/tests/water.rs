use water_container::error::Error;
use water_container::substance::water::constants::{
    boiling_point_by_pressure, density_by_temperature, saturation_pressure_by_temperature,
    BOILING_POINT_BY_PRESSURE, DENSITY_BY_TEMPERATURE, SATURATION_PRESSURE_BY_TEMPERATURE,
};
use water_container::substance::water::Water;
use water_container::units::{
    MAX_MASS, MAX_TEMPERATURE, NANOGRAMS_PER_KILOGRAM, NANOKELVINS_PER_KELVIN, ZERO_CELSIUS,
};

fn kilograms(mass: f64) -> u64 {
    (mass * NANOGRAMS_PER_KILOGRAM as f64).round() as u64
}

fn kelvin(temperature: f64) -> u64 {
    (temperature * NANOKELVINS_PER_KELVIN as f64).round() as u64
}

fn in_kilograms(mass: u64) -> f64 {
    mass as f64 / NANOGRAMS_PER_KILOGRAM as f64
}

fn in_kelvin(temperature: u64) -> f64 {
    temperature as f64 / NANOKELVINS_PER_KELVIN as f64
}

#[test]
fn add() {
    let water1 = Water::new(kilograms(1.0), kelvin(400.0));

    let water2 = Water::new(kilograms(2.0), kelvin(100.0));

    let water_sum = water1.add(water2);
    assert!((in_kilograms(water_sum.mass()) - 3.0).abs() < 1e-10);
    assert!((in_kelvin(water_sum.temperature()) - 200.0).abs() < 1e-10);
}

#[test]
fn add_gives_exact_mass_and_mean_temperature() {
    let sum = Water::new(1_000, 400).add(Water::new(2_000, 100));
    assert_eq!(sum.mass(), 3_000);
    assert_eq!(sum.temperature(), 200);
    let rounded = Water::new(1, 1).add(Water::new(2, 2));
    assert_eq!(rounded.mass(), 3);
    assert_eq!(rounded.temperature(), 1);
}

#[test]
fn add_is_commutative() {
    let a = Water::new(123_456_789, 373_150_000_000);
    let b = Water::new(987_654_321, 293_150_000_001);
    let ab = a.add(b);
    let ba = b.add(a);
    assert_eq!(ab.mass(), ba.mass());
    assert_eq!(ab.temperature(), ba.temperature());
}

#[test]
fn add_is_associative_to_one_unit() {
    let a = Water::new(1, 1);
    let b = Water::new(1, 0);
    let c = Water::new(1, 2);
    let left = a.add(b).add(c);
    let right = a.add(b.add(c));
    assert_eq!(left.mass(), 3);
    assert_eq!(right.mass(), 3);
    assert_eq!(left.temperature(), 0);
    assert_eq!(right.temperature(), 1);

    let a = Water::new(kilograms(1.5), kelvin(300.0));
    let b = Water::new(kilograms(2.5), kelvin(350.0));
    let c = Water::new(kilograms(4.0), kelvin(400.0));
    let left = a.add(b).add(c);
    let right = a.add(b.add(c));
    assert_eq!(left.mass(), right.mass());
    assert!(left.temperature().abs_diff(right.temperature()) <= 1);
    assert!(left.temperature().abs_diff(kelvin(365.625)) <= 1);
}

#[test]
fn adding_nothing_changes_nothing() {
    let a = Water::new(kilograms(2.0), kelvin(300.0));
    let sum = a.add(Water::zero());
    assert_eq!(sum.mass(), a.mass());
    assert_eq!(sum.temperature(), a.temperature());
    let sum = Water::zero().add(a);
    assert_eq!(sum.mass(), a.mass());
    assert_eq!(sum.temperature(), a.temperature());
    let sum = a.add(Water::new(0, kelvin(900.0)));
    assert_eq!(sum.mass(), a.mass());
    assert_eq!(sum.temperature(), a.temperature());
}

#[test]
fn adding_nothing_to_nothing_gives_zero() {
    let sum = Water::new(0, kelvin(300.0)).add(Water::new(0, kelvin(500.0)));
    assert_eq!(sum.mass(), 0);
    assert_eq!(sum.temperature(), 0);
    let zero = Water::zero();
    assert_eq!(zero.mass(), 0);
    assert_eq!(zero.temperature(), 0);
}

#[test]
fn add_at_the_limits() {
    let half = Water::new(MAX_MASS / 2, MAX_TEMPERATURE);
    let sum = half.add(half);
    assert_eq!(sum.mass(), MAX_MASS);
    assert_eq!(sum.temperature(), MAX_TEMPERATURE);
}

#[test]
fn constants_of_water() {
    assert_eq!(Water::heat_capacity(), 4180);
    assert_eq!(Water::evaporization_energy(), 2230);
}

#[test]
fn volume_is_mass_by_density() {
    // 1 kg at 20 degrees Celsius, where the density is 0.9982071 g/cm3.
    let water = Water::new(kilograms(1.0), ZERO_CELSIUS + 20_000_000_000);
    assert_eq!(water.volume(), 1_001_796_120_264);
    // 1 kg at 2 degrees Celsius, between two entries of the density table.
    let water = Water::new(kilograms(1.0), ZERO_CELSIUS + 2_000_000_000);
    assert_eq!(density_by_temperature(water.temperature()), 999_906_016_064);
    assert_eq!(water.volume(), 1_000_093_992_769);
    assert_eq!(Water::zero().volume(), 0);
}

#[test]
fn pressure_follows_the_gas_law() {
    // 1 kg at 400 K in 1 m3: 461.5 * 400 Pa.
    let steam = Water::new(kilograms(1.0), kelvin(400.0));
    assert_eq!(steam.pressure(1_000_000_000_000_000), 184_600_000_000_000);
    assert_eq!(steam.pressure(2_000_000_000_000_000), 92_300_000_000_000);
    assert_eq!(Water::zero().pressure(1), 0);
    assert_eq!(Water::new(3, 1).pressure(2), 692_250);
    assert_eq!(Water::new(1, 1).pressure(2), 230_750);
}

#[test]
fn saturation_pressure_reads_the_curve() {
    let boiling = Water::new(kilograms(1.0), ZERO_CELSIUS + 100_000_000_000);
    assert_eq!(boiling.saturation_pressure(), 100_250_697_674_418);
    let hotter = Water::new(kilograms(1.0), ZERO_CELSIUS + 105_000_000_000);
    assert_eq!(hotter.saturation_pressure(), 121_751_134_020_618);
    let at_a_key = Water::new(1, ZERO_CELSIUS + 360_000_000_000);
    assert_eq!(at_a_key.saturation_pressure(), 18_666_000_000_000_000);
}

#[test]
fn remove_splits_at_the_same_temperature() {
    let mut water = Water::new(kilograms(3.0), kelvin(350.0));
    let portion = water.remove(kilograms(1.0));
    assert_eq!(water.mass(), kilograms(2.0));
    assert_eq!(water.temperature(), kelvin(350.0));
    assert_eq!(portion.mass(), kilograms(1.0));
    assert_eq!(portion.temperature(), kelvin(350.0));
    let rest = water.remove(kilograms(2.0));
    assert_eq!(water.mass(), 0);
    assert_eq!(water.temperature(), kelvin(350.0));
    assert_eq!(rest.mass(), kilograms(2.0));
    let nothing = water.remove(0);
    assert_eq!(nothing.mass(), 0);
}

#[test]
fn subtract_takes_the_share_of_the_volume() {
    let mut water = Water::new(kilograms(4.0), ZERO_CELSIUS + 20_000_000_000);
    let whole = water.volume();
    assert_eq!(whole, 4_007_184_481_056);
    let portion = water.subtract(whole / 4);
    assert_eq!(portion.mass(), kilograms(1.0));
    assert_eq!(portion.temperature(), ZERO_CELSIUS + 20_000_000_000);
    assert_eq!(water.mass(), kilograms(3.0));
    // A share that is no whole number of nanograms is rounded down.
    let portion = water.subtract(1);
    assert_eq!(portion.mass(), 0);
    let portion = water.subtract(2);
    assert_eq!(portion.mass(), 1);
    let mut water = Water::new(kilograms(4.0), ZERO_CELSIUS + 20_000_000_000);
    let all = water.subtract(whole);
    assert_eq!(all.mass(), kilograms(4.0));
    assert_eq!(water.mass(), 0);
    let mut water = Water::new(kilograms(4.0), ZERO_CELSIUS + 20_000_000_000);
    let none = water.subtract(0);
    assert_eq!(none.mass(), 0);
    assert_eq!(water.mass(), kilograms(4.0));
    let mut empty = Water::zero();
    assert_eq!(empty.subtract(0).mass(), 0);
}

#[test]
fn energy_shifts_the_temperature() {
    // 4180 J warm 1 kg by 1 K.
    let mut water = Water::new(kilograms(1.0), kelvin(300.0));
    assert_eq!(water.warming(4_180_000_000_000), 1_000_000_000);
    water.add_energy(4_180_000_000_000);
    assert_eq!(water.temperature(), kelvin(301.0));
    assert_eq!(water.mass(), kilograms(1.0));
    water.subtract_energy(2 * 4_180_000_000_000);
    assert_eq!(water.temperature(), kelvin(299.0));
    // 1 J warms 1 kg by 1/4180 K, rounded down.
    assert_eq!(water.warming(1_000_000_000), 239_234);
    let mut empty = Water::new(0, kelvin(300.0));
    assert_eq!(empty.warming(4_180_000_000_000), 0);
    empty.add_energy(4_180_000_000_000);
    assert_eq!(empty.temperature(), kelvin(300.0));
}

#[test]
fn evaporate_cools_the_body_and_splits() {
    let mut water = Water::new(kilograms(2.0), kelvin(300.0));
    let vapour = water.evaporate(1_000_000_000).unwrap();
    assert_eq!(water.mass(), 1_999_000_000_000);
    assert_eq!(water.temperature(), 299_733_253_589);
    assert_eq!(vapour.mass(), 1_000_000_000);
    assert_eq!(vapour.temperature(), 299_733_253_589);
    let nothing = water.evaporate(0).unwrap();
    assert_eq!(nothing.mass(), 0);
    assert_eq!(water.temperature(), 299_733_253_589);
}

#[test]
fn evaporate_fails_without_the_heat() {
    let mut water = Water::new(kilograms(1.0), kelvin(300.0));
    assert!(matches!(water.evaporate(kilograms(1.0)), Err(Error::NonPositiveTemperature)));
    assert_eq!(water.mass(), kilograms(1.0));
    assert_eq!(water.temperature(), kelvin(300.0));
    // The body cools to exactly zero: not enough.
    assert!(matches!(water.evaporate(562_331_838_566), Err(Error::NonPositiveTemperature)));
    assert_eq!(water.mass(), kilograms(1.0));
    // One unit above zero: enough.
    let vapour = water.evaporate(562_331_838_565).unwrap();
    assert_eq!(vapour.temperature(), 1);
    assert_eq!(water.temperature(), 1);
    assert_eq!(water.mass(), kilograms(1.0) - 562_331_838_565);
    let mut nothing = Water::zero();
    assert!(matches!(nothing.evaporate(0), Err(Error::NonPositiveTemperature)));
}

#[test]
fn condensate_warms_the_body_and_splits() {
    let mut steam = Water::new(kilograms(2.0), kelvin(300.0));
    let liquid = steam.condensate(1_000_000_000);
    assert_eq!(steam.mass(), 1_999_000_000_000);
    assert_eq!(steam.temperature(), 300_266_746_411);
    assert_eq!(liquid.mass(), 1_000_000_000);
    assert_eq!(liquid.temperature(), 300_266_746_411);
    let all = steam.condensate(1_999_000_000_000);
    assert_eq!(steam.mass(), 0);
    assert_eq!(all.temperature(), 300_266_746_411 + 533_492_822_966);
}

#[test]
fn exchange_swaps_both_masses_at_once() {
    let mut water = Water::new(kilograms(3.0), kelvin(400.0));
    let mut steam = Water::new(kilograms(1.0), kelvin(500.0));
    water.simultaneous_mass_exchange(&mut steam, kilograms(1.0), kilograms(1.0));
    // Each body keeps two parts of its own temperature per part of the other's.
    assert_eq!(water.mass(), kilograms(3.0));
    assert_eq!(water.temperature(), 433_333_333_333);
    assert_eq!(steam.mass(), kilograms(1.0));
    assert_eq!(steam.temperature(), kelvin(400.0));

    let mut water = Water::new(kilograms(3.0), kelvin(400.0));
    let mut steam = Water::new(kilograms(1.0), kelvin(500.0));
    water.simultaneous_mass_exchange(&mut steam, kilograms(3.0), 0);
    assert_eq!(water.mass(), 0);
    assert_eq!(water.temperature(), 0);
    assert_eq!(steam.mass(), kilograms(4.0));
    assert_eq!(steam.temperature(), kelvin(425.0));

    let mut water = Water::new(kilograms(3.0), kelvin(400.0));
    let mut steam = Water::new(kilograms(1.0), kelvin(500.0));
    water.simultaneous_mass_exchange(&mut steam, 0, 0);
    assert_eq!(water.mass(), kilograms(3.0));
    assert_eq!(water.temperature(), kelvin(400.0));
    assert_eq!(steam.mass(), kilograms(1.0));
    assert_eq!(steam.temperature(), kelvin(500.0));
}

#[test]
fn curves_give_their_entries_at_their_keys() {
    for (celsius, density) in DENSITY_BY_TEMPERATURE {
        assert_eq!(density_by_temperature(ZERO_CELSIUS + celsius as u64), density as u64);
    }
    for (pressure, celsius) in BOILING_POINT_BY_PRESSURE {
        assert_eq!(
            boiling_point_by_pressure(pressure as i128) as i128,
            ZERO_CELSIUS as i128 + celsius as i128
        );
    }
    for (celsius, pressure) in SATURATION_PRESSURE_BY_TEMPERATURE {
        let kelvin = ZERO_CELSIUS as i128 + celsius as i128;
        if kelvin <= u64::MAX as i128 {
            assert_eq!(saturation_pressure_by_temperature(kelvin as u64), pressure as i128);
        }
    }
}

#[test]
fn boiling_and_saturation_are_inverse_at_the_entries() {
    assert_eq!(SATURATION_PRESSURE_BY_TEMPERATURE.len(), BOILING_POINT_BY_PRESSURE.len());
    for i in 0..BOILING_POINT_BY_PRESSURE.len() {
        assert_eq!(SATURATION_PRESSURE_BY_TEMPERATURE[i].0, BOILING_POINT_BY_PRESSURE[i].1);
        assert_eq!(SATURATION_PRESSURE_BY_TEMPERATURE[i].1, BOILING_POINT_BY_PRESSURE[i].0);
    }
    for i in 0..BOILING_POINT_BY_PRESSURE.len() - 1 {
        let pressure = BOILING_POINT_BY_PRESSURE[i].0 as i128;
        let boiling = boiling_point_by_pressure(pressure);
        assert_eq!(saturation_pressure_by_temperature(boiling), pressure);
    }
}

#[test]
fn curves_are_clamped_outside_their_keys() {
    assert_eq!(density_by_temperature(0), 999_839_500_000);
    assert_eq!(density_by_temperature(ZERO_CELSIUS), 999_839_500_000);
    assert_eq!(density_by_temperature(ZERO_CELSIUS + 2_000_000_000_000), 20_850_000_000);
    assert_eq!(density_by_temperature(u64::MAX), 20_850_000_000);
    assert_eq!(saturation_pressure_by_temperature(0), 300_000_000);
    assert_eq!(saturation_pressure_by_temperature(u64::MAX), 21_044_100_000_000_000);
    assert_eq!(boiling_point_by_pressure(0), 205_150_000_000);
    assert_eq!(boiling_point_by_pressure(i128::MIN), 205_150_000_000);
    assert_eq!(
        boiling_point_by_pressure(i128::MAX),
        ZERO_CELSIUS + 9_223_372_036_854_775_807
    );
}

#[test]
fn curves_between_their_keys() {
    // Atmospheric pressure, 1014.2 mbar, boils at 100.3 degrees Celsius.
    assert_eq!(boiling_point_by_pressure(101_420_000_000_000), ZERO_CELSIUS + 100_300_000_000);
    // 1000 mbar lies between the entries for 846.6 mbar and 1014.2 mbar.
    assert_eq!(boiling_point_by_pressure(100_000_000_000_000), ZERO_CELSIUS + 99_935_680_190);
    // Half way to the critical pressure from the entry below it.
    assert_eq!(
        boiling_point_by_pressure(21_044_050_000_000_000),
        ZERO_CELSIUS + 4_611_686_203_427_387_903
    );
    // Above 370 degrees Celsius the saturation pressure hardly rises.
    let hot = saturation_pressure_by_temperature(ZERO_CELSIUS + 1_000_000_000_000);
    assert_eq!(hot, 21_044_000_000_006_830);
}

#[test]
fn the_error_says_what_happened() {
    assert_eq!(
        Error::NonPositiveTemperature.message(),
        "the operation left some mass with a temperature below zero Kelvin"
    );
}
