//! A body of water of one temperature, liquid or vapour.
//!
//! Which of the two a body is depends on where it is used: [`Water::volume`]
//! treats it as a liquid, [`Water::pressure`] as a vapour.
use vstd::prelude::*;
use crate::arith::{
    lemma_product_is_bounded, lemma_quotient_bounds, lemma_quotient_is_monotone,
    lemma_quotient_is_unique, lemma_quotient_of_bounded, lemma_share_is_bounded,
    lemma_weighted_mean_is_between,
};
use crate::error::Error;
use crate::units::{MAX_ENERGY, MAX_MASS, MAX_TEMPERATURE};
use self::constants::{
    density_at, density_by_temperature, saturation_pressure_at,
    saturation_pressure_by_temperature, CRITICAL_PRESSURE, MIN_DENSITY, MIN_SATURATION_PRESSURE,
};

pub mod constants;

verus! {

/// The gas constant of water vapour, 461.5 J/(kg K): the pressure in
/// nanopascal that one nanogram of vapour exerts per nanokelvin in one
/// picolitre.
pub const SPECIAL_IDEAL_GAS_CONSTANT: u64 = 461_500;

/// The heat that warms a kilogram of water by one kelvin, in joule. It is
/// taken to be the same at every temperature and in both phases, so that a
/// moving boiling point neither makes nor loses energy.
pub const HEAT_CAPACITY: u64 = 4180;

/// The heat that turns a gram of liquid water into vapour, in joule; which is
/// the same number in nanojoule per nanogram.
pub const EVAPORIZATION_ENERGY: u64 = 2230;

/// How many picolitres a nanogram fills at a density of one picogram per
/// cubic centimetre.
pub const VOLUME_PER_MASS_AT_UNIT_DENSITY: u64 = 1_000_000_000_000;

/// How many nanokelvin one nanojoule warms a nanogram of a substance whose
/// heat capacity is 1 J/(kg K).
pub const WARMING_PER_ENERGY_AT_UNIT_CAPACITY: u64 = 1_000_000_000_000;

/// No body of water takes more room than this as a liquid: the heaviest body
/// at the smallest density.
pub const MAX_LIQUID_VOLUME: i128 = 47_961_630_695_443_645_083;

/// No body of water exerts more pressure than this as a vapour: the heaviest
/// and hottest body in a single picolitre.
pub const MAX_VAPOUR_PRESSURE: i128 = 46_150_000_000_000_000_000_000_000_000_000_000_000;

/// The most that the heat of evaporation of a part of a body can change the
/// temperature of the whole body: about 533.5 K, when all of it evaporates.
pub const MAX_PHASE_CHANGE_WARMING: u64 = 533_492_822_966;

/// A body of water as the contracts see it: its mass in nanograms and its
/// temperature in nanokelvin, as unbounded integers.
pub struct WaterView {
    pub mass: int,
    pub temperature: int,
}

impl WaterView {
    /// The body can be held in a [`Water`].
    pub open spec fn is_valid(self) -> bool {
        &&& 0 <= self.mass <= MAX_MASS
        &&& 0 <= self.temperature <= MAX_TEMPERATURE
    }

    /// No water at all, at the temperature that stands for "none".
    pub open spec fn zero() -> WaterView {
        WaterView { mass: 0, temperature: 0 }
    }

    /// The room that the body takes as a liquid: its mass by its density.
    pub open spec fn volume(self) -> int {
        self.mass * VOLUME_PER_MASS_AT_UNIT_DENSITY / density_at(self.temperature)
    }

    /// The pressure of the body as a vapour that fills `volume`, by the law
    /// of ideal gases.
    pub open spec fn pressure(self, volume: int) -> int {
        self.mass * SPECIAL_IDEAL_GAS_CONSTANT * self.temperature / volume
    }

    /// The pressure at which vapour of the body's temperature is saturated.
    pub open spec fn saturation_pressure(self) -> int {
        saturation_pressure_at(self.temperature)
    }

    /// The two bodies poured together: the masses add up, and the temperature
    /// is the mean of the two weighted by mass.
    pub open spec fn add(self, other: WaterView) -> WaterView {
        let mass = self.mass + other.mass;
        WaterView {
            mass,
            temperature: if mass > 0 {
                (self.mass * self.temperature + other.mass * other.temperature) / mass
            } else {
                0
            },
        }
    }

    /// The part of the given mass that is taken out of the body.
    pub open spec fn portion(self, mass: int) -> WaterView {
        WaterView { mass, temperature: self.temperature }
    }

    /// What is left of the body when the given mass is taken out of it.
    pub open spec fn without(self, mass: int) -> WaterView {
        WaterView { mass: self.mass - mass, temperature: self.temperature }
    }

    /// The mass of the part of the body that fills `volume`.
    pub open spec fn mass_of_volume(self, volume: int) -> int {
        if self.volume() > 0 {
            self.mass * volume / self.volume()
        } else {
            0
        }
    }

    /// By how much the given heat changes the temperature of the body. An
    /// empty body has no temperature to change.
    pub open spec fn warming(self, energy: int) -> int {
        if self.mass > 0 {
            energy * WARMING_PER_ENERGY_AT_UNIT_CAPACITY / (self.mass * HEAT_CAPACITY)
        } else {
            0
        }
    }

    /// The body at the temperature that it has after taking up `warming`.
    pub open spec fn warmed_by(self, warming: int) -> WaterView {
        WaterView { mass: self.mass, temperature: self.temperature + warming }
    }

    /// The heat that it takes to evaporate the given mass, and that the same
    /// mass gives off when it condenses.
    pub open spec fn phase_change_energy(mass: int) -> int {
        mass * EVAPORIZATION_ENERGY
    }

    /// The body cooled by the heat that it takes to evaporate the given mass.
    pub open spec fn cooled_by_evaporation(self, mass: int) -> WaterView {
        self.warmed_by(-self.warming(Self::phase_change_energy(mass)))
    }

    /// The body warmed by the heat that the given mass gives off when it
    /// condenses.
    pub open spec fn warmed_by_condensation(self, mass: int) -> WaterView {
        self.warmed_by(self.warming(Self::phase_change_energy(mass)))
    }

    /// The body has the heat to let the given mass of it evaporate: it stays
    /// above zero kelvin.
    pub open spec fn can_evaporate(self, mass: int) -> bool {
        self.cooled_by_evaporation(mass).temperature > 0
    }

    /// The body after an exchange with `other`: it gives `outgoing` of its
    /// own mass away and takes `incoming` of the other's.
    pub open spec fn exchanged_with(self, other: WaterView, outgoing: int, incoming: int)
        -> WaterView {
        self.without(outgoing).add(other.portion(incoming))
    }
}

/// Pouring together does not depend on which body is poured into which.
pub proof fn lemma_add_is_commutative(a: WaterView, b: WaterView)
    ensures
        a.add(b) == b.add(a),
{
    assert(a.mass * a.temperature + b.mass * b.temperature == b.mass * b.temperature + a.mass
        * a.temperature);
}

/// Pouring nothing into a body leaves the body as it is, provided that the
/// body has mass or is itself [`WaterView::zero`].
pub proof fn lemma_add_of_nothing(a: WaterView, nothing: WaterView)
    requires
        nothing.mass == 0,
        a.mass > 0 || a == WaterView::zero(),
    ensures
        a.add(nothing) == a,
        nothing.add(a) == a,
{
    lemma_add_is_commutative(a, nothing);
    if a.mass > 0 {
        assert(nothing.mass * nothing.temperature == 0) by (nonlinear_arith)
            requires
                nothing.mass == 0,
        ;
        assert(a.mass * a.temperature == a.mass * a.temperature + 0);
        lemma_quotient_is_unique(a.mass * a.temperature, a.mass, a.temperature);
    }
}

/// The heat of three bodies: the sum of their masses, each weighted by its
/// temperature.
pub open spec fn heat_of_three(a: WaterView, b: WaterView, c: WaterView) -> int {
    a.mass * a.temperature + b.mass * b.temperature + c.mass * c.temperature
}

/// Pouring three bodies together gives the same mass in whichever order the
/// pairs are formed, and a temperature that is the mean of the three weighted
/// by mass, rounded down, or one unit less. So the two orders differ by one
/// unit of temperature at most.
pub proof fn lemma_add_is_associative(a: WaterView, b: WaterView, c: WaterView)
    requires
        0 <= a.mass,
        0 <= b.mass,
        0 <= c.mass,
        0 < a.mass + b.mass + c.mass,
    ensures
        a.add(b).add(c).mass == a.add(b.add(c)).mass == a.mass + b.mass + c.mass,
        heat_of_three(a, b, c) / (a.mass + b.mass + c.mass) - 1 <= a.add(b).add(c).temperature
            <= heat_of_three(a, b, c) / (a.mass + b.mass + c.mass),
        heat_of_three(a, b, c) / (a.mass + b.mass + c.mass) - 1 <= a.add(b.add(c)).temperature
            <= heat_of_three(a, b, c) / (a.mass + b.mass + c.mass),
        -1 <= a.add(b).add(c).temperature - a.add(b.add(c)).temperature <= 1,
{
    lemma_pair_then_third(a, b, c);
    lemma_pair_then_third(b, c, a);
    lemma_add_is_commutative(a, b.add(c));
    assert(heat_of_three(b, c, a) == heat_of_three(a, b, c));
}

/// The temperature of two bodies poured together and then a third.
proof fn lemma_pair_then_third(a: WaterView, b: WaterView, c: WaterView)
    requires
        0 <= a.mass,
        0 <= b.mass,
        0 <= c.mass,
        0 < a.mass + b.mass + c.mass,
    ensures
        heat_of_three(a, b, c) / (a.mass + b.mass + c.mass) - 1 <= a.add(b).add(c).temperature
            <= heat_of_three(a, b, c) / (a.mass + b.mass + c.mass),
{
    let pair = a.add(b);
    let all = a.mass + b.mass + c.mass;
    let heat = heat_of_three(a, b, c);
    let pair_heat = a.mass * a.temperature + b.mass * b.temperature;
    let mixed = pair.mass * pair.temperature + c.mass * c.temperature;
    assert(pair_heat - pair.mass < pair.mass * pair.temperature <= pair_heat || (pair.mass == 0
        && pair.mass * pair.temperature == pair_heat)) by {
        if pair.mass > 0 {
            lemma_quotient_bounds(pair_heat, pair.mass);
        } else {
            assert(a.mass * a.temperature == 0) by (nonlinear_arith)
                requires
                    a.mass == 0,
            ;
            assert(b.mass * b.temperature == 0) by (nonlinear_arith)
                requires
                    b.mass == 0,
            ;
            assert(pair.mass * pair.temperature == 0) by (nonlinear_arith)
                requires
                    pair.mass == 0,
            ;
        }
    }
    assert(heat - all < mixed <= heat);
    lemma_quotient_is_monotone(mixed, heat, all);
    lemma_quotient_is_monotone(heat - all, mixed, all);
    lemma_quotient_bounds(heat, all);
    assert(all * (heat / all - 1) == all * (heat / all) - all) by (nonlinear_arith);
    lemma_quotient_is_unique(heat - all, all, heat / all - 1);
}

/// Two bodies poured together are no colder than the colder and no hotter
/// than the hotter of the two: `low` and `high` are any bounds on the two
/// temperatures.
pub proof fn lemma_add_keeps_temperature_between(
    a: WaterView,
    b: WaterView,
    low: int,
    high: int,
)
    requires
        0 <= a.mass,
        0 <= b.mass,
        0 < a.mass + b.mass,
        low <= a.temperature <= high,
        low <= b.temperature <= high,
    ensures
        low <= a.add(b).temperature <= high,
{
    lemma_weighted_mean_is_between(a.mass, a.temperature, b.mass, b.temperature, low, high);
}

/// The heat of evaporation of a part of a body changes the temperature of
/// the body by [`MAX_PHASE_CHANGE_WARMING`] at most.
pub proof fn lemma_phase_change_warming_is_bounded(body: WaterView, mass: int)
    requires
        0 <= mass <= body.mass,
    ensures
        0 <= body.warming(WaterView::phase_change_energy(mass)) <= MAX_PHASE_CHANGE_WARMING,
{
    if body.mass > 0 {
        let n = mass * EVAPORIZATION_ENERGY * WARMING_PER_ENERGY_AT_UNIT_CAPACITY;
        let d = body.mass * HEAT_CAPACITY;
        let q = n / d;
        lemma_quotient_bounds(n, d);
        assert(0 <= n <= body.mass * 2_230_000_000_000_000) by (nonlinear_arith)
            requires
                0 <= mass <= body.mass,
                n == mass * 2230 * 1_000_000_000_000,
        ;
        assert(0 <= q <= 533_492_822_966) by (nonlinear_arith)
            requires
                body.mass > 0,
                d == body.mass * 4180,
                d * q <= n < d * q + d,
                0 <= n <= body.mass * 2_230_000_000_000_000,
        ;
    }
}

/// A body of water: so many nanograms at so many nanokelvin.
///
/// The mass is at most [`MAX_MASS`] and the temperature at most
/// [`MAX_TEMPERATURE`]. A body without mass may have any temperature;
/// [`Water::zero`] has the temperature zero.
#[derive(Clone, Copy, Debug)]
pub struct Water {
    mass: u64,
    temperature: u64,
}

impl View for Water {
    type V = WaterView;

    closed spec fn view(&self) -> WaterView {
        WaterView { mass: self.mass as int, temperature: self.temperature as int }
    }
}

impl Water {
    #[verifier::type_invariant]
    spec fn within_limits(self) -> bool {
        self@.is_valid()
    }

    /// A body of the given mass and temperature.
    pub fn new(mass: u64, temperature: u64) -> (water: Self)
        requires
            mass <= MAX_MASS,
            temperature <= MAX_TEMPERATURE,
        ensures
            water@ == (WaterView { mass: mass as int, temperature: temperature as int }),
    {
        Water { mass, temperature }
    }

    /// No water.
    pub fn zero() -> (water: Self)
        ensures
            water@ == WaterView::zero(),
    {
        Water { mass: 0, temperature: 0 }
    }

    /// The mass of the body, in nanograms.
    pub fn mass(&self) -> (mass: u64)
        ensures
            mass == self@.mass,
            self@.is_valid(),
    {
        proof {
            use_type_invariant(self);
        }
        self.mass
    }

    /// The temperature of the body, in nanokelvin.
    pub fn temperature(&self) -> (temperature: u64)
        ensures
            temperature == self@.temperature,
            self@.is_valid(),
    {
        proof {
            use_type_invariant(self);
        }
        self.temperature
    }

    /// The heat capacity of water, in J/(kg K).
    pub fn heat_capacity() -> (capacity: u64)
        ensures
            capacity == HEAT_CAPACITY,
    {
        HEAT_CAPACITY
    }

    /// The heat of evaporation of water, in J/g.
    pub fn evaporization_energy() -> (energy: u64)
        ensures
            energy == EVAPORIZATION_ENERGY,
    {
        EVAPORIZATION_ENERGY
    }

    /// The room that the body takes as a liquid, in picolitres.
    pub fn volume(&self) -> (volume: i128)
        ensures
            volume == self@.volume(),
            0 <= volume <= MAX_LIQUID_VOLUME,
    {
        proof {
            use_type_invariant(self);
        }
        let density: u64 = density_by_temperature(self.temperature);
        proof {
            lemma_product_is_bounded(
                self.mass as int,
                VOLUME_PER_MASS_AT_UNIT_DENSITY as int,
                MAX_MASS as int,
                VOLUME_PER_MASS_AT_UNIT_DENSITY as int,
            );
            lemma_quotient_of_bounded(
                self.mass * VOLUME_PER_MASS_AT_UNIT_DENSITY,
                density as int,
                MAX_MASS * VOLUME_PER_MASS_AT_UNIT_DENSITY,
                MIN_DENSITY as int,
            );
        }
        (self.mass as i128) * (VOLUME_PER_MASS_AT_UNIT_DENSITY as i128) / (density as i128)
    }

    /// The pressure, in nanopascal, of the body as a vapour that fills the
    /// given volume in picolitres.
    pub fn pressure(&self, volume: i128) -> (pressure: i128)
        requires
            volume > 0,
        ensures
            pressure == self@.pressure(volume as int),
            0 <= pressure <= MAX_VAPOUR_PRESSURE,
    {
        proof {
            use_type_invariant(self);
            lemma_product_is_bounded(
                self.mass as int,
                SPECIAL_IDEAL_GAS_CONSTANT as int,
                MAX_MASS as int,
                SPECIAL_IDEAL_GAS_CONSTANT as int,
            );
            lemma_product_is_bounded(
                self.mass * SPECIAL_IDEAL_GAS_CONSTANT,
                self.temperature as int,
                MAX_MASS * SPECIAL_IDEAL_GAS_CONSTANT,
                MAX_TEMPERATURE as int,
            );
            lemma_quotient_of_bounded(
                self.mass * SPECIAL_IDEAL_GAS_CONSTANT * self.temperature,
                volume as int,
                MAX_MASS * SPECIAL_IDEAL_GAS_CONSTANT * MAX_TEMPERATURE,
                1,
            );
        }
        (self.mass as i128) * (SPECIAL_IDEAL_GAS_CONSTANT as i128) * (self.temperature as i128)
            / volume
    }

    /// The pressure, in nanopascal, at which vapour of the body's
    /// temperature is saturated.
    pub fn saturation_pressure(&self) -> (pressure: i128)
        ensures
            pressure == self@.saturation_pressure(),
            MIN_SATURATION_PRESSURE <= pressure <= CRITICAL_PRESSURE,
    {
        saturation_pressure_by_temperature(self.temperature)
    }

    /// Pours the two bodies together.
    pub fn add(self, other: Water) -> (sum: Water)
        requires
            self@.mass + other@.mass <= MAX_MASS,
        ensures
            sum@ == self@.add(other@),
    {
        proof {
            use_type_invariant(self);
            use_type_invariant(other);
        }
        let mass: u64 = self.mass + other.mass;
        if mass > 0 {
            proof {
                lemma_product_is_bounded(
                    self.mass as int,
                    self.temperature as int,
                    MAX_MASS as int,
                    MAX_TEMPERATURE as int,
                );
                lemma_product_is_bounded(
                    other.mass as int,
                    other.temperature as int,
                    MAX_MASS as int,
                    MAX_TEMPERATURE as int,
                );
                lemma_weighted_mean_is_between(
                    self.mass as int,
                    self.temperature as int,
                    other.mass as int,
                    other.temperature as int,
                    0,
                    MAX_TEMPERATURE as int,
                );
            }
            let heat: u128 = (self.mass as u128) * (self.temperature as u128) + (other.mass as u128)
                * (other.temperature as u128);
            let temperature: u128 = heat / (mass as u128);
            Water { mass, temperature: temperature as u64 }
        } else {
            Water { mass, temperature: 0 }
        }
    }

    /// Takes the given mass out of the body, at the body's temperature, and
    /// returns it.
    pub fn remove(&mut self, mass: u64) -> (portion: Water)
        requires
            mass <= old(self)@.mass,
        ensures
            final(self)@ == old(self)@.without(mass as int),
            portion@ == old(self)@.portion(mass as int),
    {
        proof {
            use_type_invariant(&*self);
        }
        self.mass = self.mass - mass;
        Water { mass, temperature: self.temperature }
    }

    /// Takes out of the body the part of it that fills the given volume, in
    /// picolitres, and returns it.
    pub fn subtract(&mut self, volume: i128) -> (portion: Water)
        requires
            0 <= volume <= old(self)@.volume(),
        ensures
            final(self)@ == old(self)@.without(old(self)@.mass_of_volume(volume as int)),
            portion@ == old(self)@.portion(old(self)@.mass_of_volume(volume as int)),
            0 <= old(self)@.mass_of_volume(volume as int) <= old(self)@.mass,
    {
        proof {
            use_type_invariant(&*self);
        }
        let whole: i128 = self.volume();
        if whole > 0 {
            proof {
                lemma_product_is_bounded(
                    self.mass as int,
                    volume as int,
                    MAX_MASS as int,
                    MAX_LIQUID_VOLUME as int,
                );
                lemma_share_is_bounded(self.mass as int, volume as int, whole as int);
            }
            let mass: i128 = (self.mass as i128) * volume / whole;
            self.remove(mass as u64)
        } else {
            self.remove(0)
        }
    }

    /// By how many nanokelvin the given heat, in nanojoule, changes the
    /// temperature of the body.
    pub fn warming(&self, energy: i128) -> (warming: i128)
        requires
            0 <= energy <= MAX_ENERGY,
        ensures
            warming == self@.warming(energy as int),
            0 <= warming <= MAX_ENERGY * WARMING_PER_ENERGY_AT_UNIT_CAPACITY,
    {
        proof {
            use_type_invariant(self);
        }
        if self.mass > 0 {
            let capacity: i128 = (self.mass as i128) * (HEAT_CAPACITY as i128);
            proof {
                lemma_quotient_of_bounded(
                    energy * WARMING_PER_ENERGY_AT_UNIT_CAPACITY,
                    capacity as int,
                    MAX_ENERGY * WARMING_PER_ENERGY_AT_UNIT_CAPACITY,
                    1,
                );
            }
            energy * (WARMING_PER_ENERGY_AT_UNIT_CAPACITY as i128) / capacity
        } else {
            0
        }
    }

    /// Warms the body by the given heat, in nanojoule. The temperature that
    /// results must be one that a body can have.
    pub fn add_energy(&mut self, energy: i128)
        requires
            0 <= energy <= MAX_ENERGY,
            old(self)@.temperature + old(self)@.warming(energy as int) <= MAX_TEMPERATURE,
        ensures
            final(self)@ == old(self)@.warmed_by(old(self)@.warming(energy as int)),
    {
        proof {
            use_type_invariant(&*self);
        }
        let warming: i128 = self.warming(energy);
        self.temperature = (self.temperature as i128 + warming) as u64;
    }

    /// Cools the body by the given heat, in nanojoule. The body must hold
    /// at least that much heat.
    pub fn subtract_energy(&mut self, energy: i128)
        requires
            0 <= energy <= MAX_ENERGY,
            old(self)@.warming(energy as int) <= old(self)@.temperature,
        ensures
            final(self)@ == old(self)@.warmed_by(-old(self)@.warming(energy as int)),
    {
        proof {
            use_type_invariant(&*self);
        }
        let warming: i128 = self.warming(energy);
        self.temperature = (self.temperature as i128 - warming) as u64;
    }

    /// Lets the given mass of the body evaporate, and returns it.
    ///
    /// The heat of evaporation is taken from the whole body first, the
    /// departing mass included, and then the mass leaves at the temperature
    /// that the body has cooled to. Where the body would cool to zero kelvin
    /// or below, it has not the heat to evaporate that much: nothing changes
    /// and the call fails.
    pub fn evaporate(&mut self, mass: u64) -> (vapour: Result<Water, Error>)
        requires
            mass <= old(self)@.mass,
        ensures
            old(self)@.can_evaporate(mass as int) ==> {
                &&& vapour.is_ok()
                &&& vapour.unwrap()@ == old(self)@.cooled_by_evaporation(mass as int).portion(
                    mass as int,
                )
                &&& final(self)@ == old(self)@.cooled_by_evaporation(mass as int).without(
                    mass as int,
                )
            },
            !old(self)@.can_evaporate(mass as int) ==> {
                &&& vapour == Err::<Water, Error>(Error::NonPositiveTemperature)
                &&& final(self)@ == old(self)@
            },
    {
        proof {
            use_type_invariant(&*self);
        }
        let energy: i128 = (mass as i128) * (EVAPORIZATION_ENERGY as i128);
        let warming: i128 = self.warming(energy);
        if self.temperature as i128 - warming <= 0 {
            Err(Error::NonPositiveTemperature)
        } else {
            self.temperature = (self.temperature as i128 - warming) as u64;
            Ok(self.remove(mass))
        }
    }

    /// Lets the given mass of the body condense, and returns it.
    ///
    /// The heat of condensation goes to the whole body first, and then the
    /// mass leaves at the temperature that the body has warmed to, which
    /// must be one that a body can have.
    pub fn condensate(&mut self, mass: u64) -> (liquid: Water)
        requires
            mass <= old(self)@.mass,
            old(self)@.warmed_by_condensation(mass as int).temperature <= MAX_TEMPERATURE,
        ensures
            liquid@ == old(self)@.warmed_by_condensation(mass as int).portion(mass as int),
            final(self)@ == old(self)@.warmed_by_condensation(mass as int).without(mass as int),
    {
        proof {
            use_type_invariant(&*self);
        }
        let energy: i128 = (mass as i128) * (EVAPORIZATION_ENERGY as i128);
        self.add_energy(energy);
        self.remove(mass)
    }

    /// Exchanges mass with another body in one step: this body gives
    /// `outgoing_mass` to the other and takes `incoming_mass` from it. Each
    /// part leaves at the temperature that its body had before the exchange.
    pub fn simultaneous_mass_exchange(
        &mut self,
        other: &mut Water,
        outgoing_mass: u64,
        incoming_mass: u64,
    )
        requires
            outgoing_mass <= old(self)@.mass,
            incoming_mass <= old(other)@.mass,
            old(self)@.mass - outgoing_mass + incoming_mass <= MAX_MASS,
            old(other)@.mass - incoming_mass + outgoing_mass <= MAX_MASS,
        ensures
            final(self)@ == old(self)@.exchanged_with(
                old(other)@,
                outgoing_mass as int,
                incoming_mass as int,
            ),
            final(other)@ == old(other)@.exchanged_with(
                old(self)@,
                incoming_mass as int,
                outgoing_mass as int,
            ),
    {
        let outgoing: Water = self.remove(outgoing_mass);
        let incoming: Water = other.remove(incoming_mass);
        *other = other.add(outgoing);
        *self = self.add(incoming);
    }
}

} // verus!
