use water_container::container::{PhaseEquillibrium, WaterContainer, SEARCH_TOLERANCE};
use water_container::error::Error;
use water_container::substance::water::Water;
use water_container::units::{
    NANOGRAMS_PER_KILOGRAM, NANOKELVINS_PER_KELVIN, PICOLITRES_PER_CUBIC_METRE,
    SQUARE_MILLIMETRES_PER_SQUARE_METRE, ZERO_CELSIUS,
};

fn kilograms(mass: f64) -> u64 {
    (mass * NANOGRAMS_PER_KILOGRAM as f64).round() as u64
}

fn celsius(temperature: f64) -> u64 {
    ZERO_CELSIUS + (temperature * NANOKELVINS_PER_KELVIN as f64).round() as u64
}

fn cubic_metres(volume: u64) -> u64 {
    volume * PICOLITRES_PER_CUBIC_METRE
}

fn square_metres(area: u64) -> u64 {
    area * SQUARE_MILLIMETRES_PER_SQUARE_METRE
}

/// 49.85 Mg of water at 360 degrees Celsius under 275 kg of steam at 350
/// degrees Celsius, in 100 cubic metres.
fn boiler() -> WaterContainer {
    WaterContainer::new(
        cubic_metres(100),
        square_metres(40),
        Water::new(kilograms(49850.0), celsius(360.0)),
        Water::new(kilograms(275.0), celsius(350.0)),
    )
}

/// 10 kg of water under 10 g of steam, both at 20 degrees Celsius, in one
/// cubic metre.
fn kettle() -> WaterContainer {
    WaterContainer::new(
        cubic_metres(1),
        square_metres(1),
        Water::new(kilograms(10.0), celsius(20.0)),
        Water::new(kilograms(0.01), celsius(20.0)),
    )
}

fn state(container: &WaterContainer) -> (u64, u64, u64, u64) {
    (
        container.water().mass(),
        container.water().temperature(),
        container.steam().mass(),
        container.steam().temperature(),
    )
}

#[test]
fn accessors_give_what_the_container_was_made_of() {
    let container = boiler();
    assert_eq!(container.volume(), 100_000_000_000_000_000);
    assert_eq!(container.surface_area(), 40_000_000);
    assert_eq!(container.water().mass(), 49_850_000_000_000_000);
    assert_eq!(container.water().temperature(), 633_150_000_000);
    assert_eq!(container.steam().mass(), 275_000_000_000_000);
    assert_eq!(container.steam().temperature(), 623_150_000_000);
}

#[test]
fn volumes_and_pressure() {
    let container = boiler();
    assert_eq!(container.water_volume(), 95_649_453_574_793_705);
    assert_eq!(container.steam_volume(), 4_350_546_425_206_295);
    assert_eq!(container.pressure(), 18_178_296_849_515_841);
}

#[test]
fn steam_volume_is_negative_where_the_water_overflows() {
    let container = WaterContainer::new(
        cubic_metres(1),
        0,
        Water::new(kilograms(1000.0), celsius(20.0)),
        Water::new(kilograms(1.0), 400_000_000_000),
    );
    assert_eq!(container.water_volume(), 1_001_796_120_264_021);
    assert_eq!(container.steam_volume(), -1_796_120_264_021);
}

#[test]
fn equilibrium_of_an_empty_container() {
    let container = WaterContainer::new(cubic_metres(1), 0, Water::zero(), Water::zero());
    assert_eq!(
        container.phase_equillibrium(),
        PhaseEquillibrium { should_condensate: false, should_evaporate: false }
    );
    let warm = WaterContainer::new(
        cubic_metres(1),
        0,
        Water::new(0, celsius(20.0)),
        Water::new(0, celsius(200.0)),
    );
    assert_eq!(
        warm.phase_equillibrium(),
        PhaseEquillibrium { should_condensate: false, should_evaporate: false }
    );
}

#[test]
fn equilibrium_of_a_full_container() {
    let container = WaterContainer::new(
        cubic_metres(1),
        0,
        Water::new(kilograms(1000.0), celsius(20.0)),
        Water::new(kilograms(1.0), 400_000_000_000),
    );
    assert_eq!(
        container.phase_equillibrium(),
        PhaseEquillibrium { should_condensate: true, should_evaporate: false }
    );
}

#[test]
fn equilibrium_by_the_pressures() {
    // Above both saturation pressures and below neither.
    assert_eq!(
        boiler().phase_equillibrium(),
        PhaseEquillibrium { should_condensate: true, should_evaporate: true }
    );
    assert_eq!(
        kettle().phase_equillibrium(),
        PhaseEquillibrium { should_condensate: false, should_evaporate: true }
    );
    let balanced = WaterContainer::new(
        cubic_metres(1),
        0,
        Water::new(kilograms(10.0), celsius(20.0)),
        Water::new(kilograms(0.02), celsius(200.0)),
    );
    assert_eq!(balanced.pressure(), 4_411_367_407_539);
    assert_eq!(
        balanced.phase_equillibrium(),
        PhaseEquillibrium { should_condensate: false, should_evaporate: false }
    );
    assert_eq!(
        PhaseEquillibrium::decide(
            cubic_metres(1),
            &Water::new(kilograms(10.0), celsius(20.0)),
            &Water::new(kilograms(0.02), celsius(200.0)),
        ),
        PhaseEquillibrium { should_condensate: false, should_evaporate: false }
    );
}

#[test]
fn a_full_container_condenses_all_its_steam() {
    let mut container = WaterContainer::new(
        cubic_metres(1),
        0,
        Water::new(kilograms(1000.0), celsius(20.0)),
        Water::new(kilograms(1.0), 400_000_000_000),
    );
    container.evaporate_condensate();
    assert_eq!(state(&container), (1_001_000_000_000_000, 293_256_743_256, 0, 0));
    container.evaporate_condensate();
    assert_eq!(state(&container), (1_001_000_000_000_000, 293_256_743_256, 0, 0));
}

#[test]
fn a_step_in_equilibrium_moves_nothing() {
    let mut balanced = WaterContainer::new(
        cubic_metres(1),
        0,
        Water::new(kilograms(10.0), celsius(20.0)),
        Water::new(kilograms(0.02), celsius(200.0)),
    );
    assert_eq!(balanced.evaporation_limit(), 0);
    assert_eq!(balanced.condensation_limit(), 0);
    balanced.evaporate_condensate();
    assert_eq!(state(&balanced), (10_000_000_000_000, 293_150_000_000, 20_000_000_000, 473_150_000_000));
}

#[test]
fn limits_of_the_first_step() {
    let container = boiler();
    assert_eq!(container.evaporation_limit(), 7_261_411_554_416);
    assert_eq!(container.condensation_limit(), 23_369_578_411_751);
    assert_eq!(container.evaporation_mass(), 7_261_411_554_389);
    assert_eq!(container.condensation_mass(), 3_892_904_279_984);
    let container = kettle();
    assert_eq!(container.evaporation_limit(), 6_523_028_386);
    assert_eq!(container.condensation_limit(), 0);
    assert_eq!(container.evaporation_mass(), 6_254_357_440);
    assert_eq!(container.condensation_mass(), 0);
}

#[test]
fn equilibrium_convergence() {
    let mut container = boiler();
    let expected: [(u64, u64, u64, u64); 10] = [
        (49_846_631_492_725_595, 633_149_219_023, 278_368_507_274_405, 623_410_856_072),
        (49_846_649_391_418_738, 633_148_376_092, 278_350_608_581_262, 623_561_180_747),
        (49_846_581_870_454_637, 633_147_561_537, 278_418_129_545_363, 623_709_339_544),
        (49_846_518_772_161_128, 633_146_771_811, 278_481_227_838_872, 623_852_834_277),
        (49_846_457_539_447_264, 633_146_005_844, 278_542_460_552_736, 623_991_950_640),
        (49_846_398_151_739_365, 633_145_262_568, 278_601_848_260_635, 624_126_885_954),
        (49_846_340_524_396_395, 633_144_540_981, 278_659_475_603_605, 624_257_827_587),
        (49_846_284_579_695_698, 633_143_840_140, 278_715_420_304_302, 624_384_951_755),
        (49_846_230_244_421_197, 633_143_159_155, 278_769_755_578_803, 624_508_424_391),
        (49_846_177_449_493_702, 633_142_497_187, 278_822_550_506_298, 624_628_401_895),
    ];
    for after in expected {
        container.evaporate_condensate();
        assert_eq!(state(&container), after);
        assert_eq!(container.water().mass() + container.steam().mass(), kilograms(50125.0));
        assert!(container.water().temperature() > 0);
        assert!(container.steam().temperature() > 0);
    }
    assert_eq!(container.pressure(), 18_408_818_451_197_651);
}

#[test]
fn steps_approach_the_saturation_pressure() {
    let mut container = kettle();
    let saturation = container.water().saturation_pressure();
    assert_eq!(saturation, 2_258_000_000_000);
    let expected: [(u64, i128); 5] = [
        (16_254_357_440, 2_221_269_972_588),
        (16_511_786_410, 2_256_448_827_789),
        (16_522_657_627, 2_257_934_429_293),
        (16_523_117_150, 2_257_997_225_211),
        (16_523_136_620, 2_257_999_885_875),
    ];
    let mut before = container.pressure();
    for (steam_mass, pressure) in expected {
        container.evaporate_condensate();
        assert_eq!(container.steam().mass(), steam_mass);
        assert_eq!(container.pressure(), pressure);
        assert!(before < container.pressure());
        assert!(container.pressure() < saturation);
        assert_eq!(container.water().mass() + container.steam().mass(), kilograms(10.01));
        before = container.pressure();
    }
    for _ in 0..20 {
        container.evaporate_condensate();
    }
    assert!(saturation - container.pressure() < saturation / 1_000_000_000);
    assert_eq!(container.water().mass() + container.steam().mass(), kilograms(10.01));
}

#[test]
fn mass_is_conserved_over_many_steps() {
    let mut container = WaterContainer::new(
        cubic_metres(1),
        0,
        Water::new(kilograms(10.0), celsius(20.0)),
        Water::new(kilograms(0.001), celsius(200.0)),
    );
    let total = container.water().mass() + container.steam().mass();
    for _ in 0..50 {
        container.evaporate_condensate();
        assert_eq!(container.water().mass() + container.steam().mass(), total);
    }
}

#[test]
fn found_masses_agree_with_the_answers_nearby() {
    for container in [boiler(), kettle()] {
        let limit = container.evaporation_limit();
        let found = container.evaporation_mass();
        assert!(found <= limit);
        let low = found.saturating_sub(SEARCH_TOLERANCE);
        let high = (found + SEARCH_TOLERANCE).min(limit);
        assert!(low == 0 || (low..=found).any(|mass| container.keeps_evaporating(mass)));
        assert!(high == limit || (found..=high).any(|mass| !container.keeps_evaporating(mass)));

        let limit = container.condensation_limit();
        let found = container.condensation_mass();
        assert!(found <= limit);
        let low = found.saturating_sub(SEARCH_TOLERANCE);
        let high = (found + SEARCH_TOLERANCE).min(limit);
        assert!(low == 0 || (low..=found).any(|mass| container.keeps_condensing(mass)));
        assert!(high == limit || (found..=high).any(|mass| !container.keeps_condensing(mass)));
    }
}

#[test]
fn probing_leaves_the_container_as_it_is() {
    let container = boiler();
    let before = state(&container);
    assert!(container.keeps_evaporating(1_000_000_000_000));
    assert!(!container.keeps_condensing(10_000_000_000_000));
    assert!(container.keeps_condensing(1_000_000_000_000));
    assert_eq!(state(&container), before);
}

#[test]
fn evaporate_moves_mass_to_the_steam() {
    let mut container = WaterContainer::new(
        cubic_metres(1),
        0,
        Water::new(kilograms(10.0), 373_150_000_000),
        Water::new(kilograms(1.0), 400_000_000_000),
    );
    assert!(container.evaporate(100_000_000_000).is_ok());
    assert_eq!(
        state(&container),
        (9_900_000_000_000, 367_815_071_771, 1_100_000_000_000, 397_074_097_433)
    );
}

#[test]
fn evaporate_fails_without_the_heat_and_changes_nothing() {
    let mut container = WaterContainer::new(
        cubic_metres(1),
        0,
        Water::new(kilograms(10.0), 373_150_000_000),
        Water::new(kilograms(1.0), 400_000_000_000),
    );
    let before = state(&container);
    assert!(matches!(container.evaporate(kilograms(10.0)), Err(Error::NonPositiveTemperature)));
    assert_eq!(state(&container), before);
}

#[test]
fn condensate_moves_mass_to_the_water() {
    let mut container = WaterContainer::new(
        cubic_metres(1),
        0,
        Water::new(kilograms(10.0), 373_150_000_000),
        Water::new(kilograms(1.0), 400_000_000_000),
    );
    container.condensate(100_000_000_000);
    assert_eq!(
        state(&container),
        (10_100_000_000_000, 373_944_052_299, 900_000_000_000, 453_349_282_296)
    );
}
