//! A sealed container in which liquid water and water vapour meet.
//!
//! The two bodies share the container's volume: the liquid takes what its
//! mass and density ask for, the vapour the rest. As long as the pressure of
//! the vapour is off the saturation pressure of either body, mass passes from
//! one to the other. [`WaterContainer::evaporate_condensate`] finds how much
//! passes in one step, by two searches that halve an interval of masses until
//! it is no wider than [`SEARCH_TOLERANCE`].
use vstd::prelude::*;
use crate::arith::{
    lemma_product_is_bounded, lemma_quotient_bounds, lemma_quotient_is_monotone,
    lemma_quotient_is_unique, lemma_quotient_of_bounded,
};
use crate::error::Error;
use crate::substance::water::constants::CRITICAL_PRESSURE;
use crate::substance::water::{
    lemma_add_keeps_temperature_between, lemma_add_of_nothing,
    lemma_phase_change_warming_is_bounded, Water, WaterView, SPECIAL_IDEAL_GAS_CONSTANT,
};
use crate::units::{MAX_MASS, MAX_TEMPERATURE};

verus! {

/// The width, in nanograms, at which a search for a mass stops: a tenth of a
/// microgram.
pub const SEARCH_TOLERANCE: u64 = 100;

/// Neither body in a container is hotter than this: ten thousand kelvin.
pub const MAX_CONTAINER_TEMPERATURE: u64 = 10_000_000_000_000;

/// In which directions mass should pass between the two bodies of a
/// container. Both may hold at once: a hot liquid evaporates while a cold
/// vapour under too much pressure condenses.
#[derive(Clone, Copy, Debug, PartialEq, Eq, Structural)]
pub struct PhaseEquillibrium {
    pub should_condensate: bool,
    pub should_evaporate: bool,
}

impl PhaseEquillibrium {
    /// The directions for a liquid `water` and a vapour `steam` that share
    /// `volume`.
    ///
    /// Without any mass nothing should pass. Where the liquid leaves no room,
    /// the vapour would be under unbounded pressure, water being taken as
    /// incompressible: it should condense, and nothing evaporate. Otherwise
    /// the vapour should condense where its pressure is above its own
    /// saturation pressure, and the liquid evaporate where that pressure is
    /// below the liquid's saturation pressure.
    pub open spec fn of(volume: int, water: WaterView, steam: WaterView) -> PhaseEquillibrium {
        let room = volume - water.volume();
        if steam.mass == 0 && water.mass == 0 {
            PhaseEquillibrium { should_condensate: false, should_evaporate: false }
        } else if room <= 0 {
            PhaseEquillibrium { should_condensate: true, should_evaporate: false }
        } else {
            PhaseEquillibrium {
                should_condensate: steam.pressure(room) > steam.saturation_pressure(),
                should_evaporate: steam.pressure(room) < water.saturation_pressure(),
            }
        }
    }
}

/// The mass of a gas at `temperature` whose pressure times volume is
/// `potential`, but no less than nothing and no more than is `available`.
/// At zero kelvin any mass of gas is without pressure, so all that is
/// available is taken.
pub open spec fn mass_bound(potential: int, temperature: int, available: int) -> int {
    if potential <= 0 || available <= 0 {
        0
    } else if temperature <= 0 {
        available
    } else if potential / (SPECIAL_IDEAL_GAS_CONSTANT * temperature) <= available {
        potential / (SPECIAL_IDEAL_GAS_CONSTANT * temperature)
    } else {
        available
    }
}

/// The mass at which a search between `left` and `right` ends.
///
/// While the two are more than [`SEARCH_TOLERANCE`] apart, the search asks
/// at their midpoint whether the transfer `continues` beyond it, and goes on
/// in the upper half if so, in the lower half if not. It ends at the
/// midpoint of what is left.
pub open spec fn search(continues: spec_fn(int) -> bool, left: int, right: int) -> int
    decreases right - left,
{
    if right - left <= SEARCH_TOLERANCE {
        (left + right) / 2
    } else if continues((left + right) / 2) {
        search(continues, (left + right) / 2, right)
    } else {
        search(continues, left, (left + right) / 2)
    }
}

/// A container as the contracts see it.
pub struct WaterContainerView {
    /// The volume of the container, in picolitres.
    pub volume: int,
    /// The area in which liquid and vapour touch, in square millimetres.
    pub surface_area: int,
    /// The liquid.
    pub water: WaterView,
    /// The vapour.
    pub steam: WaterView,
}

impl WaterContainerView {
    /// The container can be held in a [`WaterContainer`].
    pub open spec fn is_valid(self) -> bool {
        &&& 0 < self.volume <= u64::MAX
        &&& 0 <= self.surface_area <= u64::MAX
        &&& self.water.is_valid()
        &&& self.steam.is_valid()
        &&& self.water.mass + self.steam.mass <= MAX_MASS
        &&& self.water.temperature <= MAX_CONTAINER_TEMPERATURE
        &&& self.steam.temperature <= MAX_CONTAINER_TEMPERATURE
    }

    /// Each of the two bodies that has mass is above zero kelvin.
    pub open spec fn is_warm(self) -> bool {
        &&& self.water.mass > 0 ==> self.water.temperature > 0
        &&& self.steam.mass > 0 ==> self.steam.temperature > 0
    }

    /// The mass of liquid and vapour together.
    pub open spec fn total_mass(self) -> int {
        self.water.mass + self.steam.mass
    }

    /// The room that the liquid takes.
    pub open spec fn water_volume(self) -> int {
        self.water.volume()
    }

    /// The room that the liquid leaves to the vapour. Where the liquid would
    /// take more than the container has, this is negative.
    pub open spec fn steam_volume(self) -> int {
        self.volume - self.water.volume()
    }

    /// The pressure of the vapour in the room that is left to it.
    pub open spec fn pressure(self) -> int {
        self.steam.pressure(self.steam_volume())
    }

    /// In which directions mass should pass.
    pub open spec fn phase_equillibrium(self) -> PhaseEquillibrium {
        PhaseEquillibrium::of(self.volume, self.water, self.steam)
    }

    /// The container with other bodies in it.
    pub open spec fn holding(self, water: WaterView, steam: WaterView) -> WaterContainerView {
        WaterContainerView { volume: self.volume, surface_area: self.surface_area, water, steam }
    }

    /// The container after the given mass of liquid has evaporated into the
    /// vapour.
    pub open spec fn after_evaporation(self, mass: int) -> WaterContainerView {
        let cooled = self.water.cooled_by_evaporation(mass);
        self.holding(cooled.without(mass), self.steam.add(cooled.portion(mass)))
    }

    /// The container after the given mass of vapour has condensed into the
    /// liquid.
    pub open spec fn after_condensation(self, mass: int) -> WaterContainerView {
        let warmed = self.steam.warmed_by_condensation(mass);
        self.holding(self.water.add(warmed.portion(mass)), warmed.without(mass))
    }

    /// The liquid can give the given mass to the vapour, and should still
    /// evaporate when it has done so.
    pub open spec fn keeps_evaporating(self, mass: int) -> bool {
        self.water.can_evaporate(mass) && self.after_evaporation(
            mass,
        ).phase_equillibrium().should_evaporate
    }

    /// The vapour should still condense when it has given the given mass to
    /// the liquid.
    pub open spec fn keeps_condensing(self, mass: int) -> bool {
        self.after_condensation(mass).phase_equillibrium().should_condensate
    }

    /// [`Self::keeps_evaporating`] as a question to ask of a mass.
    pub open spec fn evaporation_question(self) -> spec_fn(int) -> bool {
        |mass: int| self.keeps_evaporating(mass)
    }

    /// [`Self::keeps_condensing`] as a question to ask of a mass.
    pub open spec fn condensation_question(self) -> spec_fn(int) -> bool {
        |mass: int| self.keeps_condensing(mass)
    }

    /// The most that may evaporate in one step: the mass of vapour that
    /// would lift the pressure to the saturation pressure of the liquid, if
    /// nothing else changed.
    pub open spec fn evaporation_limit(self) -> int {
        mass_bound(
            (self.water.saturation_pressure() - self.pressure()) * self.steam_volume(),
            self.water.temperature,
            self.water.mass,
        )
    }

    /// The most that may condense in one step: the mass of vapour whose loss
    /// would lower the pressure to the saturation pressure of the vapour, if
    /// nothing else changed.
    pub open spec fn condensation_limit(self) -> int {
        mass_bound(
            (self.pressure() - self.steam.saturation_pressure()) * self.steam_volume(),
            self.steam.temperature,
            self.steam.mass,
        )
    }

    /// The mass that evaporates in one step, where the vapour has room.
    pub open spec fn evaporation_mass(self) -> int {
        search(self.evaporation_question(), 0, self.evaporation_limit())
    }

    /// The mass that condenses in one step, where the vapour has room.
    pub open spec fn condensation_mass(self) -> int {
        search(self.condensation_question(), 0, self.condensation_limit())
    }

    /// The container one step later.
    ///
    /// Where the liquid leaves no room, all vapour joins the liquid. Else the
    /// two bodies exchange what evaporates and what condenses at once.
    pub open spec fn stepped(self) -> WaterContainerView {
        if self.steam_volume() <= 0 {
            self.holding(self.water.add(self.steam), WaterView::zero())
        } else {
            self.holding(
                self.water.exchanged_with(
                    self.steam,
                    self.evaporation_mass(),
                    self.condensation_mass(),
                ),
                self.steam.exchanged_with(
                    self.water,
                    self.condensation_mass(),
                    self.evaporation_mass(),
                ),
            )
        }
    }

    /// The container after the given number of steps.
    pub open spec fn after_steps(self, steps: nat) -> WaterContainerView
        decreases steps,
    {
        if steps == 0 {
            self
        } else {
            self.after_steps((steps - 1) as nat).stepped()
        }
    }
}

/// A search ends inside the interval that it was given.
pub proof fn lemma_search_stays_inside(continues: spec_fn(int) -> bool, left: int, right: int)
    requires
        left <= right,
    ensures
        left <= search(continues, left, right) <= right,
    decreases right - left,
{
    if right - left > SEARCH_TOLERANCE {
        if continues((left + right) / 2) {
            lemma_search_stays_inside(continues, (left + right) / 2, right);
        } else {
            lemma_search_stays_inside(continues, left, (left + right) / 2);
        }
    }
}

/// The interval from `low` to `high` is one in which a search between `left`
/// and `right` can have ended at `mass`: it holds `mass`, it is no wider than
/// [`SEARCH_TOLERANCE`], the transfer continues beyond `low` unless the
/// search started there, and it does not continue beyond `high` unless the
/// search was bounded there.
pub open spec fn settles(
    continues: spec_fn(int) -> bool,
    left: int,
    right: int,
    low: int,
    high: int,
    mass: int,
) -> bool {
    &&& left <= low <= mass <= high <= right
    &&& high - low <= SEARCH_TOLERANCE
    &&& low == left || continues(low)
    &&& high == right || !continues(high)
}

/// The mass that a search finds agrees with the answers that the search got,
/// to within [`SEARCH_TOLERANCE`]: no further than that below it lies a mass
/// beyond which the transfer continues, or the start of the search; and no
/// further than that above it lies a mass beyond which the transfer does not
/// continue, or the bound of the search.
pub proof fn lemma_search_settles(continues: spec_fn(int) -> bool, left: int, right: int)
    requires
        left <= right,
    ensures
        exists|low: int, high: int|
            settles(continues, left, right, low, high, search(continues, left, right)),
    decreases right - left,
{
    let mass = search(continues, left, right);
    let middle = (left + right) / 2;
    if right - left <= SEARCH_TOLERANCE {
        assert(settles(continues, left, right, left, right, mass));
    } else if continues(middle) {
        lemma_search_settles(continues, middle, right);
        let (low, high) = choose|low: int, high: int|
            settles(continues, middle, right, low, high, mass);
        assert(settles(continues, left, right, low, high, mass));
    } else {
        lemma_search_settles(continues, left, middle);
        let (low, high) = choose|low: int, high: int|
            settles(continues, left, middle, low, high, mass);
        assert(settles(continues, left, right, low, high, mass));
    }
}

/// No more is bounded than is available.
pub proof fn lemma_mass_bound_is_available(potential: int, temperature: int, available: int)
    requires
        0 <= available,
    ensures
        0 <= mass_bound(potential, temperature, available) <= available,
{
    if potential > 0 && available > 0 && temperature > 0 {
        let d = SPECIAL_IDEAL_GAS_CONSTANT * temperature;
        lemma_quotient_of_bounded(potential, d, potential, 1);
    }
}

/// What evaporates and what condenses in a step is a part of the liquid and
/// a part of the vapour.
pub proof fn lemma_step_moves_what_is_there(container: WaterContainerView)
    requires
        0 <= container.water.mass,
        0 <= container.steam.mass,
    ensures
        0 <= container.evaporation_limit() <= container.water.mass,
        0 <= container.condensation_limit() <= container.steam.mass,
        0 <= container.evaporation_mass() <= container.evaporation_limit(),
        0 <= container.condensation_mass() <= container.condensation_limit(),
{
    lemma_mass_bound_is_available(
        (container.water.saturation_pressure() - container.pressure()) * container.steam_volume(),
        container.water.temperature,
        container.water.mass,
    );
    lemma_mass_bound_is_available(
        (container.pressure() - container.steam.saturation_pressure()) * container.steam_volume(),
        container.steam.temperature,
        container.steam.mass,
    );
    lemma_search_stays_inside(container.evaporation_question(), 0, container.evaporation_limit());
    lemma_search_stays_inside(
        container.condensation_question(),
        0,
        container.condensation_limit(),
    );
}

/// The two masses that a step moves agree with the answers that its two
/// searches got, each to within [`SEARCH_TOLERANCE`].
pub proof fn lemma_step_masses_settle(container: WaterContainerView)
    requires
        0 <= container.water.mass,
        0 <= container.steam.mass,
    ensures
        exists|low: int, high: int|
            settles(
                container.evaporation_question(),
                0,
                container.evaporation_limit(),
                low,
                high,
                container.evaporation_mass(),
            ),
        exists|low: int, high: int|
            settles(
                container.condensation_question(),
                0,
                container.condensation_limit(),
                low,
                high,
                container.condensation_mass(),
            ),
{
    lemma_step_moves_what_is_there(container);
    lemma_search_settles(container.evaporation_question(), 0, container.evaporation_limit());
    lemma_search_settles(container.condensation_question(), 0, container.condensation_limit());
}

/// In equilibrium nothing passes: where the vapour has room and should
/// neither condense nor the liquid evaporate, a step moves no mass, and each
/// body that has mass stays as it is.
pub proof fn lemma_equilibrium_is_at_rest(container: WaterContainerView)
    requires
        0 <= container.water.mass,
        0 <= container.steam.mass,
        container.steam_volume() > 0,
        !container.phase_equillibrium().should_condensate,
        !container.phase_equillibrium().should_evaporate,
    ensures
        container.evaporation_mass() == 0,
        container.condensation_mass() == 0,
        container.stepped().water.mass == container.water.mass,
        container.stepped().steam.mass == container.steam.mass,
        container.water.mass > 0 ==> container.stepped().water == container.water,
        container.steam.mass > 0 ==> container.stepped().steam == container.steam,
{
    let room = container.steam_volume();
    let pressure = container.pressure();
    if container.water.mass > 0 || container.steam.mass > 0 {
        let rising = container.water.saturation_pressure() - pressure;
        let falling = pressure - container.steam.saturation_pressure();
        assert(rising * room <= 0) by (nonlinear_arith)
            requires
                rising <= 0,
                room > 0,
        ;
        assert(falling * room <= 0) by (nonlinear_arith)
            requires
                falling <= 0,
                room > 0,
        ;
    }
    assert(container.evaporation_limit() == 0);
    assert(container.condensation_limit() == 0);
    if container.water.mass > 0 {
        lemma_add_of_nothing(container.water.without(0), container.steam.portion(0));
    }
    if container.steam.mass > 0 {
        lemma_add_of_nothing(container.steam.without(0), container.water.portion(0));
    }
}

/// A step neither makes nor loses mass.
pub proof fn lemma_step_conserves_mass(container: WaterContainerView)
    ensures
        container.stepped().total_mass() == container.total_mass(),
{
}

/// No number of steps makes or loses mass.
pub proof fn lemma_steps_conserve_mass(container: WaterContainerView, steps: nat)
    ensures
        container.after_steps(steps).total_mass() == container.total_mass(),
    decreases steps,
{
    if steps > 0 {
        lemma_steps_conserve_mass(container, (steps - 1) as nat);
        lemma_step_conserves_mass(container.after_steps((steps - 1) as nat));
    }
}

/// Where the liquid fills the container or more, a step leaves no vapour:
/// all of it has joined the liquid, at the temperature that pouring the two
/// together gives.
pub proof fn lemma_full_container_loses_its_steam(container: WaterContainerView)
    requires
        container.water_volume() >= container.volume,
    ensures
        container.stepped().steam == WaterView::zero(),
        container.stepped().water == container.water.add(container.steam),
        container.stepped().water.mass == container.total_mass(),
{
}

/// An exchange between two bodies gives a body that is no colder than the
/// colder and no hotter than the hotter of the two, or that has no mass and
/// the temperature zero.
pub proof fn lemma_exchange_keeps_temperature_between(
    body: WaterView,
    other: WaterView,
    outgoing: int,
    incoming: int,
    low: int,
    high: int,
)
    requires
        0 <= outgoing <= body.mass,
        0 <= incoming <= other.mass,
        low <= body.temperature <= high,
        low <= other.temperature <= high,
    ensures
        body.exchanged_with(other, outgoing, incoming).mass == body.mass - outgoing + incoming,
        body.exchanged_with(other, outgoing, incoming).mass > 0 ==> low <= body.exchanged_with(
            other,
            outgoing,
            incoming,
        ).temperature <= high,
        body.exchanged_with(other, outgoing, incoming).mass == 0 ==> body.exchanged_with(
            other,
            outgoing,
            incoming,
        ) == WaterView::zero(),
{
    if body.mass - outgoing + incoming > 0 {
        lemma_add_keeps_temperature_between(
            body.without(outgoing),
            other.portion(incoming),
            low,
            high,
        );
    }
}

/// A step of a container that can be held gives a container that can be
/// held.
pub proof fn lemma_step_keeps_valid(container: WaterContainerView)
    requires
        container.is_valid(),
    ensures
        container.stepped().is_valid(),
{
    lemma_step_moves_what_is_there(container);
    if container.steam_volume() <= 0 {
        if container.total_mass() > 0 {
            lemma_add_keeps_temperature_between(
                container.water,
                container.steam,
                0,
                MAX_CONTAINER_TEMPERATURE as int,
            );
        }
    } else {
        lemma_exchange_keeps_temperature_between(
            container.water,
            container.steam,
            container.evaporation_mass(),
            container.condensation_mass(),
            0,
            MAX_CONTAINER_TEMPERATURE as int,
        );
        lemma_exchange_keeps_temperature_between(
            container.steam,
            container.water,
            container.condensation_mass(),
            container.evaporation_mass(),
            0,
            MAX_CONTAINER_TEMPERATURE as int,
        );
    }
}

/// A step cools no body to zero kelvin: where each body that has mass is
/// above zero kelvin before the step, each body that has mass is so after it.
pub proof fn lemma_step_keeps_bodies_warm(container: WaterContainerView)
    requires
        0 <= container.water.mass,
        0 <= container.steam.mass,
        0 <= container.water.temperature,
        0 <= container.steam.temperature,
        container.is_warm(),
    ensures
        container.stepped().is_warm(),
{
    lemma_step_moves_what_is_there(container);
    let water = container.water;
    let steam = container.steam;
    if container.steam_volume() <= 0 {
        lemma_sum_is_warm(water, steam);
    } else {
        lemma_sum_is_warm(
            water.without(container.evaporation_mass()),
            steam.portion(container.condensation_mass()),
        );
        lemma_sum_is_warm(
            steam.without(container.condensation_mass()),
            water.portion(container.evaporation_mass()),
        );
    }
}

/// Two bodies poured together are above zero kelvin if each of the two that
/// has mass is.
proof fn lemma_sum_is_warm(a: WaterView, b: WaterView)
    requires
        0 <= a.mass,
        0 <= b.mass,
        a.mass > 0 ==> a.temperature > 0,
        b.mass > 0 ==> b.temperature > 0,
        0 <= a.temperature,
        0 <= b.temperature,
    ensures
        a.add(b).mass > 0 ==> a.add(b).temperature > 0,
{
    if a.mass + b.mass > 0 {
        let heat = a.mass * a.temperature + b.mass * b.temperature;
        let all = a.mass + b.mass;
        assert(heat >= all) by (nonlinear_arith)
            requires
                0 <= a.mass,
                0 <= b.mass,
                a.mass > 0 ==> a.temperature >= 1,
                b.mass > 0 ==> b.temperature >= 1,
                0 <= a.temperature,
                0 <= b.temperature,
                heat == a.mass * a.temperature + b.mass * b.temperature,
                all == a.mass + b.mass,
        ;
        lemma_quotient_is_monotone(all, heat, all);
        lemma_quotient_is_unique(all, all, 1);
    }
}

impl PhaseEquillibrium {
    /// Decides in which directions mass should pass between a liquid `water`
    /// and a vapour `steam` that share `volume` picolitres.
    pub fn decide(volume: u64, water: &Water, steam: &Water) -> (decision: PhaseEquillibrium)
        ensures
            decision == PhaseEquillibrium::of(volume as int, water@, steam@),
    {
        if steam.mass() == 0 && water.mass() == 0 {
            PhaseEquillibrium { should_condensate: false, should_evaporate: false }
        } else {
            let room: i128 = volume as i128 - water.volume();
            if room <= 0 {
                PhaseEquillibrium { should_condensate: true, should_evaporate: false }
            } else {
                let pressure: i128 = steam.pressure(room);
                PhaseEquillibrium {
                    should_condensate: pressure > steam.saturation_pressure(),
                    should_evaporate: pressure < water.saturation_pressure(),
                }
            }
        }
    }
}

/// Computes [`mass_bound`] for a potential that is not negative.
fn bounded_mass(potential: i128, temperature: u64, available: u64) -> (mass: u64)
    requires
        0 <= potential,
        temperature <= MAX_TEMPERATURE,
    ensures
        mass == mass_bound(potential as int, temperature as int, available as int),
        mass <= available,
{
    if potential == 0 || available == 0 {
        0
    } else if temperature == 0 {
        available
    } else {
        let per_mass: i128 = (SPECIAL_IDEAL_GAS_CONSTANT as i128) * (temperature as i128);
        proof {
            lemma_quotient_of_bounded(potential as int, per_mass as int, potential as int, 1);
        }
        let mass: i128 = potential / per_mass;
        if mass <= available as i128 {
            mass as u64
        } else {
            available
        }
    }
}

/// A sealed container of a fixed volume with liquid water and water vapour
/// in it.
///
/// The two bodies together weigh [`MAX_MASS`] at most, and neither is hotter
/// than [`MAX_CONTAINER_TEMPERATURE`].
#[derive(Clone, Copy, Debug)]
pub struct WaterContainer {
    /// The total volume of the container.
    volume: u64,
    /// The surface area between steam and water in the container.
    surface_area: u64,
    /// The water in the container.
    water: Water,
    /// The steam in the container.
    steam: Water,
}

impl View for WaterContainer {
    type V = WaterContainerView;

    closed spec fn view(&self) -> WaterContainerView {
        WaterContainerView {
            volume: self.volume as int,
            surface_area: self.surface_area as int,
            water: self.water@,
            steam: self.steam@,
        }
    }
}

impl WaterContainer {
    #[verifier::type_invariant]
    spec fn can_be_held(self) -> bool {
        self@.is_valid()
    }

    /// A container of `volume` picolitres, in which `water` and `steam` touch
    /// in `surface_area` square millimetres.
    pub fn new(volume: u64, surface_area: u64, water: Water, steam: Water) -> (container: Self)
        requires
            volume > 0,
            water@.mass + steam@.mass <= MAX_MASS,
            water@.temperature <= MAX_CONTAINER_TEMPERATURE,
            steam@.temperature <= MAX_CONTAINER_TEMPERATURE,
        ensures
            container@ == (WaterContainerView {
                volume: volume as int,
                surface_area: surface_area as int,
                water: water@,
                steam: steam@,
            }),
    {
        let _ = water.mass();
        let _ = steam.mass();
        WaterContainer { volume, surface_area, water, steam }
    }

    /// The volume of the container, in picolitres.
    pub fn volume(&self) -> (volume: u64)
        ensures
            volume == self@.volume,
            self@.is_valid(),
    {
        proof {
            use_type_invariant(self);
        }
        self.volume
    }

    /// The surface area between water and steam, in square millimetres.
    pub fn surface_area(&self) -> (surface_area: u64)
        ensures
            surface_area == self@.surface_area,
    {
        self.surface_area
    }

    /// The liquid in the container.
    pub fn water(&self) -> (water: Water)
        ensures
            water@ == self@.water,
    {
        self.water
    }

    /// The vapour in the container.
    pub fn steam(&self) -> (steam: Water)
        ensures
            steam@ == self@.steam,
    {
        self.steam
    }

    /// The room that the liquid takes, in picolitres.
    pub fn water_volume(&self) -> (volume: i128)
        ensures
            volume == self@.water_volume(),
            0 <= volume,
    {
        self.water.volume()
    }

    /// The room that is left to the vapour, in picolitres. It is negative
    /// where the liquid would take more room than the container has.
    pub fn steam_volume(&self) -> (volume: i128)
        ensures
            volume == self@.steam_volume(),
            volume <= self@.volume,
    {
        self.volume as i128 - self.water_volume()
    }

    /// The pressure of the vapour, in nanopascal. The vapour must have room.
    pub fn pressure(&self) -> (pressure: i128)
        requires
            self@.steam_volume() > 0,
        ensures
            pressure == self@.pressure(),
            0 <= pressure,
    {
        self.steam.pressure(self.steam_volume())
    }

    /// Lets the given mass of the liquid evaporate into the vapour.
    ///
    /// Fails, and changes nothing, where the liquid has not the heat for it.
    pub fn evaporate(&mut self, mass: u64) -> (done: Result<(), Error>)
        requires
            mass <= old(self)@.water.mass,
        ensures
            old(self)@.water.can_evaporate(mass as int) ==> {
                &&& done.is_ok()
                &&& final(self)@ == old(self)@.after_evaporation(mass as int)
            },
            !old(self)@.water.can_evaporate(mass as int) ==> {
                &&& done == Err::<(), Error>(Error::NonPositiveTemperature)
                &&& final(self)@ == old(self)@
            },
    {
        proof {
            use_type_invariant(&*self);
            lemma_phase_change_warming_is_bounded(self@.water, mass as int);
        }
        let mut water: Water = self.water;
        match water.evaporate(mass) {
            Err(error) => Err(error),
            Ok(vapour) => {
                proof {
                    if self@.steam.mass + mass > 0 {
                        lemma_add_keeps_temperature_between(
                            self@.steam,
                            vapour@,
                            0,
                            MAX_CONTAINER_TEMPERATURE as int,
                        );
                    }
                }
                let steam: Water = self.steam.add(vapour);
                *self = WaterContainer {
                    volume: self.volume,
                    surface_area: self.surface_area,
                    water,
                    steam,
                };
                Ok(())
            },
        }
    }

    /// Lets the given mass of the vapour condense into the liquid. The
    /// vapour, which the heat of condensation warms, must not get hotter than
    /// a body in a container can be.
    pub fn condensate(&mut self, mass: u64)
        requires
            mass <= old(self)@.steam.mass,
            old(self)@.steam.warmed_by_condensation(mass as int).temperature
                <= MAX_CONTAINER_TEMPERATURE,
        ensures
            final(self)@ == old(self)@.after_condensation(mass as int),
    {
        proof {
            use_type_invariant(&*self);
            lemma_phase_change_warming_is_bounded(self@.steam, mass as int);
        }
        let mut steam: Water = self.steam;
        let liquid: Water = steam.condensate(mass);
        proof {
            if self@.water.mass + mass > 0 {
                lemma_add_keeps_temperature_between(
                    self@.water,
                    liquid@,
                    0,
                    MAX_CONTAINER_TEMPERATURE as int,
                );
            }
        }
        let water: Water = self.water.add(liquid);
        *self = WaterContainer {
            volume: self.volume,
            surface_area: self.surface_area,
            water,
            steam,
        };
    }

    /// In which directions mass should pass between the two bodies.
    pub fn phase_equillibrium(&self) -> (decision: PhaseEquillibrium)
        ensures
            decision == self@.phase_equillibrium(),
    {
        PhaseEquillibrium::decide(self.volume, &self.water, &self.steam)
    }

    /// Whether the liquid can give the given mass to the vapour and should
    /// still evaporate when it has done so. The answer is found on copies of
    /// the two bodies; the container is left as it is.
    pub fn keeps_evaporating(&self, mass: u64) -> (answer: bool)
        requires
            mass <= self@.water.mass,
        ensures
            answer == self@.keeps_evaporating(mass as int),
    {
        proof {
            use_type_invariant(self);
        }
        let mut water: Water = self.water;
        match water.evaporate(mass) {
            Err(_) => false,
            Ok(vapour) => {
                let steam: Water = self.steam.add(vapour);
                PhaseEquillibrium::decide(self.volume, &water, &steam).should_evaporate
            },
        }
    }

    /// Whether the vapour should still condense when it has given the given
    /// mass to the liquid. The answer is found on copies of the two bodies;
    /// the container is left as it is.
    pub fn keeps_condensing(&self, mass: u64) -> (answer: bool)
        requires
            mass <= self@.steam.mass,
        ensures
            answer == self@.keeps_condensing(mass as int),
    {
        proof {
            use_type_invariant(self);
            lemma_phase_change_warming_is_bounded(self@.steam, mass as int);
        }
        let mut steam: Water = self.steam;
        let liquid: Water = steam.condensate(mass);
        let water: Water = self.water.add(liquid);
        PhaseEquillibrium::decide(self.volume, &water, &steam).should_condensate
    }

    /// The most that may evaporate in one step, in nanograms. The vapour
    /// must have room.
    pub fn evaporation_limit(&self) -> (limit: u64)
        requires
            self@.steam_volume() > 0,
        ensures
            limit == self@.evaporation_limit(),
            limit <= self@.water.mass,
    {
        proof {
            use_type_invariant(self);
        }
        let room: i128 = self.steam_volume();
        let pressure: i128 = self.steam.pressure(room);
        let saturation: i128 = self.water.saturation_pressure();
        let water_mass: u64 = self.water.mass();
        let temperature: u64 = self.water.temperature();
        if pressure >= saturation {
            assert((saturation - pressure) * room <= 0) by (nonlinear_arith)
                requires
                    saturation - pressure <= 0,
                    room > 0,
            ;
            0
        } else {
            proof {
                lemma_product_is_bounded(
                    saturation - pressure,
                    room as int,
                    CRITICAL_PRESSURE as int,
                    u64::MAX as int,
                );
            }
            bounded_mass((saturation - pressure) * room, temperature, water_mass)
        }
    }

    /// The most that may condense in one step, in nanograms. The vapour must
    /// have room.
    pub fn condensation_limit(&self) -> (limit: u64)
        requires
            self@.steam_volume() > 0,
        ensures
            limit == self@.condensation_limit(),
            limit <= self@.steam.mass,
    {
        proof {
            use_type_invariant(self);
        }
        let room: i128 = self.steam_volume();
        let pressure: i128 = self.steam.pressure(room);
        let saturation: i128 = self.steam.saturation_pressure();
        let steam_mass: u64 = self.steam.mass();
        let temperature: u64 = self.steam.temperature();
        if pressure <= saturation {
            assert((pressure - saturation) * room <= 0) by (nonlinear_arith)
                requires
                    pressure - saturation <= 0,
                    room > 0,
            ;
            0
        } else {
            proof {
                let product = self@.steam.mass * SPECIAL_IDEAL_GAS_CONSTANT
                    * self@.steam.temperature;
                lemma_product_is_bounded(
                    self@.steam.mass,
                    SPECIAL_IDEAL_GAS_CONSTANT as int,
                    MAX_MASS as int,
                    SPECIAL_IDEAL_GAS_CONSTANT as int,
                );
                lemma_product_is_bounded(
                    self@.steam.mass * SPECIAL_IDEAL_GAS_CONSTANT,
                    self@.steam.temperature,
                    MAX_MASS * SPECIAL_IDEAL_GAS_CONSTANT,
                    MAX_TEMPERATURE as int,
                );
                lemma_quotient_bounds(product, room as int);
                assert(0 <= (pressure - saturation) * room <= room * pressure) by (nonlinear_arith)
                    requires
                        0 <= saturation < pressure,
                        room > 0,
                ;
            }
            bounded_mass((pressure - saturation) * room, temperature, steam_mass)
        }
    }

    /// The mass that evaporates in one step, in nanograms: what a search
    /// from nothing to [`Self::evaporation_limit`] finds. The vapour must
    /// have room.
    pub fn evaporation_mass(&self) -> (mass: u64)
        requires
            self@.steam_volume() > 0,
        ensures
            mass == self@.evaporation_mass(),
            mass <= self@.evaporation_limit() <= self@.water.mass,
    {
        proof {
            use_type_invariant(self);
        }
        let limit: u64 = self.evaporation_limit();
        let mut left: u64 = 0;
        let mut right: u64 = limit;
        while right - left > SEARCH_TOLERANCE
            invariant
                left <= right <= limit <= self@.water.mass,
                self@.water.mass <= MAX_MASS,
                search(self@.evaporation_question(), left as int, right as int) == search(
                    self@.evaporation_question(),
                    0,
                    limit as int,
                ),
            decreases right - left,
        {
            let middle: u64 = (left + right) / 2;
            if self.keeps_evaporating(middle) {
                left = middle;
            } else {
                right = middle;
            }
        }
        (left + right) / 2
    }

    /// The mass that condenses in one step, in nanograms: what a search from
    /// nothing to [`Self::condensation_limit`] finds. The vapour must have
    /// room.
    pub fn condensation_mass(&self) -> (mass: u64)
        requires
            self@.steam_volume() > 0,
        ensures
            mass == self@.condensation_mass(),
            mass <= self@.condensation_limit() <= self@.steam.mass,
    {
        proof {
            use_type_invariant(self);
        }
        let limit: u64 = self.condensation_limit();
        let mut left: u64 = 0;
        let mut right: u64 = limit;
        while right - left > SEARCH_TOLERANCE
            invariant
                left <= right <= limit <= self@.steam.mass,
                self@.steam.mass <= MAX_MASS,
                search(self@.condensation_question(), left as int, right as int) == search(
                    self@.condensation_question(),
                    0,
                    limit as int,
                ),
            decreases right - left,
        {
            let middle: u64 = (left + right) / 2;
            if self.keeps_condensing(middle) {
                left = middle;
            } else {
                right = middle;
            }
        }
        (left + right) / 2
    }

    /// Evaporates water and condenses steam, one step towards the saturation
    /// pressure.
    ///
    /// Both happen at once: where the water is hot and the steam is cold,
    /// water evaporates while steam condenses; where the steam is hot and
    /// the water is cold, nothing passes. Where the water leaves no room, all
    /// steam condenses, water being taken as incompressible.
    pub fn evaporate_condensate(&mut self)
        ensures
            final(self)@ == old(self)@.stepped(),
            final(self)@.is_valid(),
            final(self)@.total_mass() == old(self)@.total_mass(),
            old(self)@.steam_volume() <= 0 ==> final(self)@.steam == WaterView::zero()
                && final(self)@.water == old(self)@.water.add(old(self)@.steam),
            old(self)@.is_warm() ==> final(self)@.is_warm(),
    {
        proof {
            use_type_invariant(&*self);
            lemma_step_keeps_valid(self@);
            if self@.is_warm() {
                lemma_step_keeps_bodies_warm(self@);
            }
        }
        if self.steam_volume() <= 0 {
            let water: Water = self.water.add(self.steam);
            *self = WaterContainer {
                volume: self.volume,
                surface_area: self.surface_area,
                water,
                steam: Water::zero(),
            };
        } else {
            let evaporation_mass: u64 = self.evaporation_mass();
            let condensation_mass: u64 = self.condensation_mass();
            let mut water: Water = self.water;
            let mut steam: Water = self.steam;
            water.simultaneous_mass_exchange(&mut steam, evaporation_mass, condensation_mass);
            *self = WaterContainer {
                volume: self.volume,
                surface_area: self.surface_area,
                water,
                steam,
            };
        }
    }
}

} // verus!
