//! The measured curves of water that the model rests on, and the three
//! equations of state that read them.
use vstd::prelude::*;
use crate::interpolation_table::{
    interpolate, is_table, lemma_lookup_at_key, lemma_lookup_is_bounded,
    lemma_lookup_is_constant_outside, lemma_neighbours_suffice, lookup,
};
use crate::units::ZERO_CELSIUS;

verus! {

/// Density of liquid water by temperature.
///
/// Keys are billionths of a degree Celsius, values are picograms per cubic
/// centimetre. Above 100 degrees Celsius the entries follow the saturation curve.
pub const DENSITY_BY_TEMPERATURE: [(i64, i64); 45] = [
    (0, 999_839_500_000),
    (3_984_000_000, 999_972_000_000),
    (4_000_000_000, 999_972_000_000),
    (5_000_000_000, 999_960_000_000),
    (10_000_000_000, 999_702_600_000),
    (15_000_000_000, 999_102_600_000),
    (20_000_000_000, 998_207_100_000),
    (22_000_000_000, 997_773_500_000),
    (25_000_000_000, 997_047_900_000),
    (30_000_000_000, 995_650_200_000),
    (35_000_000_000, 994_030_000_000),
    (40_000_000_000, 992_210_000_000),
    (45_000_000_000, 990_220_000_000),
    (50_000_000_000, 988_040_000_000),
    (55_000_000_000, 985_700_000_000),
    (60_000_000_000, 983_210_000_000),
    (65_000_000_000, 980_560_000_000),
    (70_000_000_000, 977_780_000_000),
    (75_000_000_000, 974_860_000_000),
    (80_000_000_000, 971_800_000_000),
    (85_000_000_000, 968_620_000_000),
    (90_000_000_000, 965_310_000_000),
    (95_000_000_000, 961_890_000_000),
    (100_000_000_000, 958_350_000_000),
    (120_000_000_000, 943_500_000_000),
    (140_000_000_000, 926_200_000_000),
    (160_000_000_000, 907_500_000_000),
    (180_000_000_000, 887_000_000_000),
    (200_000_000_000, 864_700_000_000),
    (225_000_000_000, 833_800_000_000),
    (250_000_000_000, 799_000_000_000),
    (275_000_000_000, 759_100_000_000),
    (300_000_000_000, 712_200_000_000),
    (350_000_000_000, 581_000_000_000),
    (373_000_000_000, 443_400_000_000),
    (373_946_000_000, 388_800_000_000),
    (400_000_000_000, 122_200_000_000),
    (450_000_000_000, 90_430_000_000),
    (500_000_000_000, 76_500_000_000),
    (600_000_000_000, 61_450_000_000),
    (700_000_000_000, 52_600_000_000),
    (800_000_000_000, 46_450_000_000),
    (900_000_000_000, 41_800_000_000),
    (1_000_000_000_000, 38_100_000_000),
    (2_000_000_000_000, 20_850_000_000),
];

/// Boiling point of water by pressure.
///
/// Keys are nanopascals, values are billionths of a degree Celsius. Above the
/// critical pressure water is taken to be liquid at every temperature: the
/// last entry puts the boiling point at the largest value a table can hold.
pub const BOILING_POINT_BY_PRESSURE: [(i64, i64); 51] = [
    (300_000_000, -68_000_000_000),
    (1_700_000_000, -57_000_000_000),
    (3_000_000_000, -51_000_000_000),
    (7_000_000_000, -46_000_000_000),
    (13_000_000_000, -40_000_000_000),
    (17_000_000_000, -37_000_000_000),
    (34_000_000_000, -31_000_000_000),
    (40_000_000_000, -29_000_000_000),
    (67_000_000_000, -24_000_000_000),
    (133_000_000_000, -17_000_000_000),
    (169_000_000_000, -14_000_000_000),
    (339_000_000_000, -6_000_000_000),
    (610_000_000_000, 0),
    (1_016_000_000_000, 7_000_000_000),
    (1_355_000_000_000, 12_000_000_000),
    (1_693_000_000_000, 15_000_000_000),
    (2_032_000_000_000, 18_000_000_000),
    (2_371_000_000_000, 21_000_000_000),
    (2_709_000_000_000, 22_000_000_000),
    (3_048_000_000_000, 24_000_000_000),
    (3_386_000_000_000, 27_000_000_000),
    (4_233_000_000_000, 30_000_000_000),
    (7_348_000_000_000, 40_000_000_000),
    (12_330_000_000_000, 50_000_000_000),
    (13_330_000_000_000, 52_000_000_000),
    (19_910_000_000_000, 60_000_000_000),
    (26_660_000_000_000, 67_000_000_000),
    (31_150_000_000_000, 70_000_000_000),
    (47_340_000_000_000, 80_000_000_000),
    (66_660_000_000_000, 89_000_000_000),
    (70_060_000_000_000, 90_000_000_000),
    (84_660_000_000_000, 96_000_000_000),
    (101_420_000_000_000, 100_300_000_000),
    (143_380_000_000_000, 110_000_000_000),
    (198_670_000_000_000, 120_000_000_000),
    (270_280_000_000_000, 130_000_000_000),
    (361_540_000_000_000, 140_000_000_000),
    (476_160_000_000_000, 150_000_000_000),
    (618_230_000_000_000, 160_000_000_000),
    (1_002_800_000_000_000, 180_000_000_000),
    (1_554_900_000_000_000, 200_000_000_000),
    (2_319_600_000_000_000, 220_000_000_000),
    (3_346_900_000_000_000, 240_000_000_000),
    (4_692_300_000_000_000, 260_000_000_000),
    (6_416_600_000_000_000, 280_000_000_000),
    (8_587_900_000_000_000, 300_000_000_000),
    (11_284_000_000_000_000, 320_000_000_000),
    (14_601_000_000_000_000, 340_000_000_000),
    (18_666_000_000_000_000, 360_000_000_000),
    (21_044_000_000_000_000, 370_000_000_000),
    (21_044_100_000_000_000, 9_223_372_036_854_775_807),
];

/// Saturation pressure of water vapour by temperature: the boiling curve with
/// its two columns exchanged.
///
/// Keys are billionths of a degree Celsius, values are nanopascals.
pub const SATURATION_PRESSURE_BY_TEMPERATURE: [(i64, i64); 51] = [
    (-68_000_000_000, 300_000_000),
    (-57_000_000_000, 1_700_000_000),
    (-51_000_000_000, 3_000_000_000),
    (-46_000_000_000, 7_000_000_000),
    (-40_000_000_000, 13_000_000_000),
    (-37_000_000_000, 17_000_000_000),
    (-31_000_000_000, 34_000_000_000),
    (-29_000_000_000, 40_000_000_000),
    (-24_000_000_000, 67_000_000_000),
    (-17_000_000_000, 133_000_000_000),
    (-14_000_000_000, 169_000_000_000),
    (-6_000_000_000, 339_000_000_000),
    (0, 610_000_000_000),
    (7_000_000_000, 1_016_000_000_000),
    (12_000_000_000, 1_355_000_000_000),
    (15_000_000_000, 1_693_000_000_000),
    (18_000_000_000, 2_032_000_000_000),
    (21_000_000_000, 2_371_000_000_000),
    (22_000_000_000, 2_709_000_000_000),
    (24_000_000_000, 3_048_000_000_000),
    (27_000_000_000, 3_386_000_000_000),
    (30_000_000_000, 4_233_000_000_000),
    (40_000_000_000, 7_348_000_000_000),
    (50_000_000_000, 12_330_000_000_000),
    (52_000_000_000, 13_330_000_000_000),
    (60_000_000_000, 19_910_000_000_000),
    (67_000_000_000, 26_660_000_000_000),
    (70_000_000_000, 31_150_000_000_000),
    (80_000_000_000, 47_340_000_000_000),
    (89_000_000_000, 66_660_000_000_000),
    (90_000_000_000, 70_060_000_000_000),
    (96_000_000_000, 84_660_000_000_000),
    (100_300_000_000, 101_420_000_000_000),
    (110_000_000_000, 143_380_000_000_000),
    (120_000_000_000, 198_670_000_000_000),
    (130_000_000_000, 270_280_000_000_000),
    (140_000_000_000, 361_540_000_000_000),
    (150_000_000_000, 476_160_000_000_000),
    (160_000_000_000, 618_230_000_000_000),
    (180_000_000_000, 1_002_800_000_000_000),
    (200_000_000_000, 1_554_900_000_000_000),
    (220_000_000_000, 2_319_600_000_000_000),
    (240_000_000_000, 3_346_900_000_000_000),
    (260_000_000_000, 4_692_300_000_000_000),
    (280_000_000_000, 6_416_600_000_000_000),
    (300_000_000_000, 8_587_900_000_000_000),
    (320_000_000_000, 11_284_000_000_000_000),
    (340_000_000_000, 14_601_000_000_000_000),
    (360_000_000_000, 18_666_000_000_000_000),
    (370_000_000_000, 21_044_000_000_000_000),
    (9_223_372_036_854_775_807, 21_044_100_000_000_000),
];

/// The smallest density in the table, reached at its hot end.
pub const MIN_DENSITY: u64 = 20_850_000_000;

/// The largest density in the table, reached near 4 degrees Celsius.
pub const MAX_DENSITY: u64 = 999_972_000_000;

/// The smallest saturation pressure in the table.
pub const MIN_SATURATION_PRESSURE: i128 = 300_000_000;

/// The critical pressure, above which the saturation pressure does not rise.
pub const CRITICAL_PRESSURE: i128 = 21_044_100_000_000_000;

/// The boiling point at the lowest pressure in the table.
pub const MIN_BOILING_POINT: u64 = 205_150_000_000;

/// The three lists of entries above are tables: their keys grow.
pub proof fn lemma_curves_are_tables()
    ensures
        is_table(DENSITY_BY_TEMPERATURE@),
        is_table(BOILING_POINT_BY_PRESSURE@),
        is_table(SATURATION_PRESSURE_BY_TEMPERATURE@),
{
    let d = DENSITY_BY_TEMPERATURE@;
    assert(forall|i: int| 0 <= i < d.len() - 1 ==> (#[trigger] d[i]).0 < d[i + 1].0);
    lemma_neighbours_suffice(d);
    let b = BOILING_POINT_BY_PRESSURE@;
    assert(forall|i: int| 0 <= i < b.len() - 1 ==> (#[trigger] b[i]).0 < b[i + 1].0);
    lemma_neighbours_suffice(b);
    let s = SATURATION_PRESSURE_BY_TEMPERATURE@;
    assert(forall|i: int| 0 <= i < s.len() - 1 ==> (#[trigger] s[i]).0 < s[i + 1].0);
    lemma_neighbours_suffice(s);
}

/// The saturation curve is the boiling curve with its columns exchanged.
pub proof fn lemma_saturation_mirrors_boiling()
    ensures
        SATURATION_PRESSURE_BY_TEMPERATURE@.len() == BOILING_POINT_BY_PRESSURE@.len(),
        forall|i: int|
            0 <= i < BOILING_POINT_BY_PRESSURE@.len() ==> {
                &&& (#[trigger] SATURATION_PRESSURE_BY_TEMPERATURE@[i]).0
                    == BOILING_POINT_BY_PRESSURE@[i].1
                &&& SATURATION_PRESSURE_BY_TEMPERATURE@[i].1 == BOILING_POINT_BY_PRESSURE@[i].0
            },
{
}

/// The density, in picograms per cubic centimetre, of liquid water at the
/// given temperature in nanokelvin.
pub open spec fn density_at(temperature: int) -> int {
    lookup(DENSITY_BY_TEMPERATURE@, temperature - ZERO_CELSIUS)
}

/// The temperature, in nanokelvin, at which water boils under the given
/// pressure in nanopascal.
pub open spec fn boiling_point_at(pressure: int) -> int {
    lookup(BOILING_POINT_BY_PRESSURE@, pressure) + ZERO_CELSIUS
}

/// The pressure, in nanopascal, at which vapour of the given temperature in
/// nanokelvin is saturated.
pub open spec fn saturation_pressure_at(temperature: int) -> int {
    lookup(SATURATION_PRESSURE_BY_TEMPERATURE@, temperature - ZERO_CELSIUS)
}

/// At the entries of the boiling curve, boiling point and saturation pressure
/// undo each other: water under the pressure of entry `i` boils at a
/// temperature whose saturation pressure is that pressure, and vapour at the
/// temperature of entry `i` is saturated at a pressure under which water
/// boils at that temperature.
pub proof fn lemma_curves_undo_each_other(i: int)
    requires
        0 <= i < BOILING_POINT_BY_PRESSURE@.len(),
    ensures
        saturation_pressure_at(boiling_point_at(BOILING_POINT_BY_PRESSURE@[i].0 as int))
            == BOILING_POINT_BY_PRESSURE@[i].0,
        boiling_point_at(
            saturation_pressure_at(BOILING_POINT_BY_PRESSURE@[i].1 + ZERO_CELSIUS),
        ) == BOILING_POINT_BY_PRESSURE@[i].1 + ZERO_CELSIUS,
{
    lemma_curves_are_tables();
    lemma_saturation_mirrors_boiling();
    lemma_lookup_at_key(BOILING_POINT_BY_PRESSURE@, i);
    lemma_lookup_at_key(SATURATION_PRESSURE_BY_TEMPERATURE@, i);
}

/// Whatever the temperature, the density stays between the smallest and the
/// largest entry of its table.
pub proof fn lemma_density_is_bounded(temperature: int)
    ensures
        MIN_DENSITY <= density_at(temperature) <= MAX_DENSITY,
{
    lemma_curves_are_tables();
    lemma_lookup_is_bounded(
        DENSITY_BY_TEMPERATURE@,
        temperature - ZERO_CELSIUS,
        MIN_DENSITY as int,
        MAX_DENSITY as int,
    );
}

/// Whatever the temperature, the saturation pressure stays between the
/// smallest entry of its table and the critical pressure.
pub proof fn lemma_saturation_pressure_is_bounded(temperature: int)
    ensures
        MIN_SATURATION_PRESSURE <= saturation_pressure_at(temperature) <= CRITICAL_PRESSURE,
{
    lemma_curves_are_tables();
    lemma_lookup_is_bounded(
        SATURATION_PRESSURE_BY_TEMPERATURE@,
        temperature - ZERO_CELSIUS,
        MIN_SATURATION_PRESSURE as int,
        CRITICAL_PRESSURE as int,
    );
}

/// Whatever the pressure, the boiling point is no lower than the first entry
/// of its table, and fits in 64 bits.
pub proof fn lemma_boiling_point_is_bounded(pressure: int)
    ensures
        MIN_BOILING_POINT <= boiling_point_at(pressure) <= i64::MAX + ZERO_CELSIUS,
{
    lemma_curves_are_tables();
    lemma_lookup_is_bounded(
        BOILING_POINT_BY_PRESSURE@,
        pressure,
        MIN_BOILING_POINT - ZERO_CELSIUS,
        i64::MAX as int,
    );
}

/// The key under which a temperature in nanokelvin is looked up: billionths of
/// a degree Celsius, cut off at the largest key a table can hold.
fn celsius_key(temperature: u64) -> (key: i64)
    ensures
        key == if temperature - ZERO_CELSIUS <= i64::MAX {
            temperature - ZERO_CELSIUS
        } else {
            i64::MAX as int
        },
{
    let celsius: i128 = temperature as i128 - ZERO_CELSIUS as i128;
    if celsius <= i64::MAX as i128 {
        celsius as i64
    } else {
        i64::MAX
    }
}

/// The density of liquid water at the given temperature.
pub fn density_by_temperature(temperature: u64) -> (density: u64)
    ensures
        density == density_at(temperature as int),
        MIN_DENSITY <= density <= MAX_DENSITY,
{
    let key: i64 = celsius_key(temperature);
    proof {
        lemma_curves_are_tables();
        lemma_lookup_is_constant_outside(
            DENSITY_BY_TEMPERATURE@,
            key as int,
            temperature - ZERO_CELSIUS,
        );
        lemma_density_is_bounded(temperature as int);
    }
    let density: i64 = interpolate(&DENSITY_BY_TEMPERATURE, key);
    density as u64
}

/// The temperature at which water boils under the given pressure.
pub fn boiling_point_by_pressure(pressure: i128) -> (temperature: u64)
    ensures
        temperature == boiling_point_at(pressure as int),
        temperature >= MIN_BOILING_POINT,
{
    let key: i64 = if pressure < i64::MIN as i128 {
        i64::MIN
    } else if pressure > i64::MAX as i128 {
        i64::MAX
    } else {
        pressure as i64
    };
    proof {
        lemma_curves_are_tables();
        lemma_lookup_is_constant_outside(BOILING_POINT_BY_PRESSURE@, key as int, pressure as int);
        lemma_boiling_point_is_bounded(pressure as int);
    }
    let celsius: i64 = interpolate(&BOILING_POINT_BY_PRESSURE, key);
    (celsius as i128 + ZERO_CELSIUS as i128) as u64
}

/// The pressure at which vapour of the given temperature is saturated.
pub fn saturation_pressure_by_temperature(temperature: u64) -> (pressure: i128)
    ensures
        pressure == saturation_pressure_at(temperature as int),
        MIN_SATURATION_PRESSURE <= pressure <= CRITICAL_PRESSURE,
{
    let key: i64 = celsius_key(temperature);
    proof {
        lemma_curves_are_tables();
        lemma_lookup_is_constant_outside(
            SATURATION_PRESSURE_BY_TEMPERATURE@,
            key as int,
            temperature - ZERO_CELSIUS,
        );
        lemma_saturation_pressure_is_bounded(temperature as int);
    }
    let pressure: i64 = interpolate(&SATURATION_PRESSURE_BY_TEMPERATURE, key);
    pressure as i128
}

} // verus!
