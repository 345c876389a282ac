//! The composite world state: five sector sub-states plus the simulation
//! year.  Exactly ten scalar quantities are integrable stocks; every other
//! field is auxiliary, recomputed from the stocks on each evaluation and
//! excluded from vector arithmetic.
//!
//! All fields are fixed-point values (multiples of `1 / fixed::SCALE`).

use vstd::prelude::*;
use crate::fixed::{
    fadd, fclamp, fmax, fmul, sat, fix_add, fix_clamp, fix_max, fix_mul, FIX_MAX, FIX_ONE,
};

verus! {

/// Population sector: four age cohorts are the stocks; the total and the
/// vital rates are derived.
#[derive(Clone, Copy, Debug, PartialEq, Eq, Structural)]
pub struct PopulationState {
    /// Total population; always the saturated sum of the four cohorts.
    pub population: i64,
    /// Age cohort 0 to 14.
    pub cohort_0_14: i64,
    /// Age cohort 15 to 44.
    pub cohort_15_44: i64,
    /// Age cohort 45 to 64.
    pub cohort_45_64: i64,
    /// Age cohort 65 and older.
    pub cohort_65_plus: i64,
    /// Crude birth rate, births per person per year.
    pub birth_rate: i64,
    /// Crude death rate, deaths per person per year.
    pub death_rate: i64,
    /// Life expectancy at birth, years.
    pub life_expectancy: i64,
    /// Total fertility rate, children per woman.
    pub fertility_rate: i64,
}

/// Capital sector: the two capital stocks plus derived output quantities.
#[derive(Clone, Copy, Debug, PartialEq, Eq, Structural)]
pub struct CapitalState {
    /// Industrial capital stock.
    pub industrial_capital: i64,
    /// Service capital stock.
    pub service_capital: i64,
    /// Industrial output per year.
    pub industrial_output: i64,
    /// Industrial output per capita per year.
    pub industrial_output_per_capita: i64,
    /// Service output per capita per year.
    pub service_output_per_capita: i64,
}

/// Agriculture sector: the two land stocks plus derived food quantities.
#[derive(Clone, Copy, Debug, PartialEq, Eq, Structural)]
pub struct AgricultureState {
    /// Arable land under cultivation, hectares.
    pub arable_land: i64,
    /// Potentially arable but undeveloped land, hectares.
    pub potentially_arable_land: i64,
    /// Annual food production.
    pub food: i64,
    /// Food per capita per year.
    pub food_per_capita: i64,
    /// Land yield per hectare per year.
    pub land_yield: i64,
    /// Agricultural capital inputs per hectare per year.
    pub agricultural_inputs_per_hectare: i64,
}

/// Resource sector: one stock, normalized so 1.0 is the initial endowment.
#[derive(Clone, Copy, Debug, PartialEq, Eq, Structural)]
pub struct ResourceState {
    /// Non-renewable resources remaining, normalized.
    pub nonrenewable_resources: i64,
    /// Fraction of the original resources remaining, clamped into [0, 1].
    pub fraction_remaining: i64,
}

/// Pollution sector: one stock plus derived index and flow rates.
#[derive(Clone, Copy, Debug, PartialEq, Eq, Structural)]
pub struct PollutionState {
    /// Persistent pollution stock.
    pub persistent_pollution: i64,
    /// Pollution index (1.0 at the reference year's level).
    pub pollution_index: i64,
    /// Current pollution generation rate per year.
    pub generation_rate: i64,
    /// Current pollution assimilation rate per year.
    pub assimilation_rate: i64,
}

/// Complete state of the model at a single point in time.
#[derive(Clone, Copy, Debug, PartialEq, Eq, Structural)]
pub struct WorldState {
    /// Simulation year.
    pub time: i64,
    pub population: PopulationState,
    pub capital: CapitalState,
    pub agriculture: AgricultureState,
    pub resources: ResourceState,
    pub pollution: PollutionState,
}

pub open spec fn zero_population() -> PopulationState {
    PopulationState {
        population: 0,
        cohort_0_14: 0,
        cohort_15_44: 0,
        cohort_45_64: 0,
        cohort_65_plus: 0,
        birth_rate: 0,
        death_rate: 0,
        life_expectancy: 0,
        fertility_rate: 0,
    }
}

pub open spec fn zero_capital() -> CapitalState {
    CapitalState {
        industrial_capital: 0,
        service_capital: 0,
        industrial_output: 0,
        industrial_output_per_capita: 0,
        service_output_per_capita: 0,
    }
}

pub open spec fn zero_agriculture() -> AgricultureState {
    AgricultureState {
        arable_land: 0,
        potentially_arable_land: 0,
        food: 0,
        food_per_capita: 0,
        land_yield: 0,
        agricultural_inputs_per_hectare: 0,
    }
}

pub open spec fn zero_resources() -> ResourceState {
    ResourceState { nonrenewable_resources: 0, fraction_remaining: 0 }
}

pub open spec fn zero_pollution() -> PollutionState {
    PollutionState {
        persistent_pollution: 0,
        pollution_index: 0,
        generation_rate: 0,
        assimilation_rate: 0,
    }
}

pub open spec fn zero_state(time: i64) -> WorldState {
    WorldState {
        time,
        population: zero_population(),
        capital: zero_capital(),
        agriculture: zero_agriculture(),
        resources: zero_resources(),
        pollution: zero_pollution(),
    }
}

/// The ten integrable stocks, in their fixed order: the four cohorts, the
/// two capital stocks, the two land stocks, resources, pollution.
pub open spec fn stock_seq(s: WorldState) -> Seq<i64> {
    seq![
        s.population.cohort_0_14,
        s.population.cohort_15_44,
        s.population.cohort_45_64,
        s.population.cohort_65_plus,
        s.capital.industrial_capital,
        s.capital.service_capital,
        s.agriculture.arable_land,
        s.agriculture.potentially_arable_land,
        s.resources.nonrenewable_resources,
        s.pollution.persistent_pollution,
    ]
}

/// Reconstruction from a flat stock vector: each stock clamped to be
/// nonnegative, the population total re-derived from the cohorts, the
/// resource fraction clamped into [0, 1], every auxiliary field zeroed.
pub open spec fn from_vec_spec(time: i64, v: Seq<i64>) -> WorldState {
    let c0 = fmax(v[0] as int, 0);
    let c1 = fmax(v[1] as int, 0);
    let c2 = fmax(v[2] as int, 0);
    let c3 = fmax(v[3] as int, 0);
    WorldState {
        time,
        population: PopulationState {
            population: sat(c0 + c1 + c2 + c3) as i64,
            cohort_0_14: c0 as i64,
            cohort_15_44: c1 as i64,
            cohort_45_64: c2 as i64,
            cohort_65_plus: c3 as i64,
            ..zero_population()
        },
        capital: CapitalState {
            industrial_capital: fmax(v[4] as int, 0) as i64,
            service_capital: fmax(v[5] as int, 0) as i64,
            ..zero_capital()
        },
        agriculture: AgricultureState {
            arable_land: fmax(v[6] as int, 0) as i64,
            potentially_arable_land: fmax(v[7] as int, 0) as i64,
            ..zero_agriculture()
        },
        resources: ResourceState {
            nonrenewable_resources: fmax(v[8] as int, 0) as i64,
            fraction_remaining: fclamp(v[8] as int, 0, FIX_ONE as int) as i64,
        },
        pollution: PollutionState { persistent_pollution: fmax(v[9] as int, 0) as i64, ..zero_pollution() },
    }
}

impl WorldState {
    /// Extract the ten integrable stocks into a flat vector, in the fixed
    /// documented order; `time` is tracked separately by the solver.
    pub fn to_vec(&self) -> (r: Vec<i64>)
        ensures
            r@ == stock_seq(*self),
    {
        let v = vec![
            self.population.cohort_0_14,
            self.population.cohort_15_44,
            self.population.cohort_45_64,
            self.population.cohort_65_plus,
            self.capital.industrial_capital,
            self.capital.service_capital,
            self.agriculture.arable_land,
            self.agriculture.potentially_arable_land,
            self.resources.nonrenewable_resources,
            self.pollution.persistent_pollution,
        ];
        proof {
            assert(v@ =~= stock_seq(*self));
        }
        v
    }

    /// Rebuild a state from a flat stock vector, clamping every stock to be
    /// nonnegative and leaving all auxiliary fields zero: they must be
    /// recomputed by the sector functions before being read.
    pub fn from_vec(time: i64, v: &Vec<i64>) -> (r: WorldState)
        requires
            v@.len() == 10,
        ensures
            r == from_vec_spec(time, v@),
    {
        let c0 = fix_max(v[0], 0);
        let c1 = fix_max(v[1], 0);
        let c2 = fix_max(v[2], 0);
        let c3 = fix_max(v[3], 0);
        let total: i128 = c0 as i128 + c1 as i128 + c2 as i128 + c3 as i128;
        let population: i64 = if total > FIX_MAX as i128 {
            FIX_MAX
        } else {
            total as i64
        };
        WorldState {
            time,
            population: PopulationState {
                population,
                cohort_0_14: c0,
                cohort_15_44: c1,
                cohort_45_64: c2,
                cohort_65_plus: c3,
                birth_rate: 0,
                death_rate: 0,
                life_expectancy: 0,
                fertility_rate: 0,
            },
            capital: CapitalState {
                industrial_capital: fix_max(v[4], 0),
                service_capital: fix_max(v[5], 0),
                industrial_output: 0,
                industrial_output_per_capita: 0,
                service_output_per_capita: 0,
            },
            agriculture: AgricultureState {
                arable_land: fix_max(v[6], 0),
                potentially_arable_land: fix_max(v[7], 0),
                food: 0,
                food_per_capita: 0,
                land_yield: 0,
                agricultural_inputs_per_hectare: 0,
            },
            resources: ResourceState {
                nonrenewable_resources: fix_max(v[8], 0),
                fraction_remaining: fix_clamp(v[8], 0, FIX_ONE),
            },
            pollution: PollutionState {
                persistent_pollution: fix_max(v[9], 0),
                pollution_index: 0,
                generation_rate: 0,
                assimilation_rate: 0,
            },
        }
    }

    /// A state with every field zero except `time`: the derivative
    /// accumulator's starting point.
    pub fn zero_derivative(time: i64) -> (r: WorldState)
        ensures
            r == zero_state(time),
    {
        WorldState {
            time,
            population: PopulationState {
                population: 0,
                cohort_0_14: 0,
                cohort_15_44: 0,
                cohort_45_64: 0,
                cohort_65_plus: 0,
                birth_rate: 0,
                death_rate: 0,
                life_expectancy: 0,
                fertility_rate: 0,
            },
            capital: CapitalState {
                industrial_capital: 0,
                service_capital: 0,
                industrial_output: 0,
                industrial_output_per_capita: 0,
                service_output_per_capita: 0,
            },
            agriculture: AgricultureState {
                arable_land: 0,
                potentially_arable_land: 0,
                food: 0,
                food_per_capita: 0,
                land_yield: 0,
                agricultural_inputs_per_hectare: 0,
            },
            resources: ResourceState { nonrenewable_resources: 0, fraction_remaining: 0 },
            pollution: PollutionState {
                persistent_pollution: 0,
                pollution_index: 0,
                generation_rate: 0,
                assimilation_rate: 0,
            },
        }
    }

    /// Pointwise saturating sum over the ten stocks only; `time` and every
    /// auxiliary field are taken from `self` unchanged.
    pub fn add_stocks(&self, rhs: &WorldState) -> (r: WorldState)
        ensures
            r == add_stocks_spec(*self, *rhs),
    {
        let mut r = *self;
        r.population.cohort_0_14 = fix_add(self.population.cohort_0_14, rhs.population.cohort_0_14);
        r.population.cohort_15_44 = fix_add(
            self.population.cohort_15_44,
            rhs.population.cohort_15_44,
        );
        r.population.cohort_45_64 = fix_add(
            self.population.cohort_45_64,
            rhs.population.cohort_45_64,
        );
        r.population.cohort_65_plus = fix_add(
            self.population.cohort_65_plus,
            rhs.population.cohort_65_plus,
        );
        r.capital.industrial_capital = fix_add(
            self.capital.industrial_capital,
            rhs.capital.industrial_capital,
        );
        r.capital.service_capital = fix_add(self.capital.service_capital, rhs.capital.service_capital);
        r.agriculture.arable_land = fix_add(self.agriculture.arable_land, rhs.agriculture.arable_land);
        r.agriculture.potentially_arable_land = fix_add(
            self.agriculture.potentially_arable_land,
            rhs.agriculture.potentially_arable_land,
        );
        r.resources.nonrenewable_resources = fix_add(
            self.resources.nonrenewable_resources,
            rhs.resources.nonrenewable_resources,
        );
        r.pollution.persistent_pollution = fix_add(
            self.pollution.persistent_pollution,
            rhs.pollution.persistent_pollution,
        );
        r
    }

    /// Pointwise saturating scale of the ten stocks by a fixed-point factor;
    /// `time` and every auxiliary field are taken from `self` unchanged.
    pub fn scale_stocks(&self, factor: i64) -> (r: WorldState)
        ensures
            r == scale_stocks_spec(*self, factor as int),
    {
        let mut r = *self;
        r.population.cohort_0_14 = fix_mul(self.population.cohort_0_14, factor);
        r.population.cohort_15_44 = fix_mul(self.population.cohort_15_44, factor);
        r.population.cohort_45_64 = fix_mul(self.population.cohort_45_64, factor);
        r.population.cohort_65_plus = fix_mul(self.population.cohort_65_plus, factor);
        r.capital.industrial_capital = fix_mul(self.capital.industrial_capital, factor);
        r.capital.service_capital = fix_mul(self.capital.service_capital, factor);
        r.agriculture.arable_land = fix_mul(self.agriculture.arable_land, factor);
        r.agriculture.potentially_arable_land = fix_mul(
            self.agriculture.potentially_arable_land,
            factor,
        );
        r.resources.nonrenewable_resources = fix_mul(self.resources.nonrenewable_resources, factor);
        r.pollution.persistent_pollution = fix_mul(self.pollution.persistent_pollution, factor);
        r
    }
}

/// The stock-wise saturating sum: stocks add, everything else follows `a`.
pub open spec fn add_stocks_spec(a: WorldState, b: WorldState) -> WorldState {
    WorldState {
        population: PopulationState {
            cohort_0_14: fadd(a.population.cohort_0_14 as int, b.population.cohort_0_14 as int) as i64,
            cohort_15_44: fadd(a.population.cohort_15_44 as int, b.population.cohort_15_44 as int) as i64,
            cohort_45_64: fadd(a.population.cohort_45_64 as int, b.population.cohort_45_64 as int) as i64,
            cohort_65_plus: fadd(a.population.cohort_65_plus as int, b.population.cohort_65_plus as int) as i64,
            ..a.population
        },
        capital: CapitalState {
            industrial_capital: fadd(a.capital.industrial_capital as int, b.capital.industrial_capital as int) as i64,
            service_capital: fadd(a.capital.service_capital as int, b.capital.service_capital as int) as i64,
            ..a.capital
        },
        agriculture: AgricultureState {
            arable_land: fadd(a.agriculture.arable_land as int, b.agriculture.arable_land as int) as i64,
            potentially_arable_land: fadd(
                a.agriculture.potentially_arable_land as int,
                b.agriculture.potentially_arable_land as int,
            ) as i64,
            ..a.agriculture
        },
        resources: ResourceState {
            nonrenewable_resources: fadd(
                a.resources.nonrenewable_resources as int,
                b.resources.nonrenewable_resources as int,
            ) as i64,
            ..a.resources
        },
        pollution: PollutionState {
            persistent_pollution: fadd(
                a.pollution.persistent_pollution as int,
                b.pollution.persistent_pollution as int,
            ) as i64,
            ..a.pollution
        },
        ..a
    }
}

/// The stock-wise saturating scale: stocks multiply by `factor`, everything
/// else follows `a`.
pub open spec fn scale_stocks_spec(a: WorldState, factor: int) -> WorldState {
    WorldState {
        population: PopulationState {
            cohort_0_14: fmul(a.population.cohort_0_14 as int, factor) as i64,
            cohort_15_44: fmul(a.population.cohort_15_44 as int, factor) as i64,
            cohort_45_64: fmul(a.population.cohort_45_64 as int, factor) as i64,
            cohort_65_plus: fmul(a.population.cohort_65_plus as int, factor) as i64,
            ..a.population
        },
        capital: CapitalState {
            industrial_capital: fmul(a.capital.industrial_capital as int, factor) as i64,
            service_capital: fmul(a.capital.service_capital as int, factor) as i64,
            ..a.capital
        },
        agriculture: AgricultureState {
            arable_land: fmul(a.agriculture.arable_land as int, factor) as i64,
            potentially_arable_land: fmul(a.agriculture.potentially_arable_land as int, factor) as i64,
            ..a.agriculture
        },
        resources: ResourceState {
            nonrenewable_resources: fmul(a.resources.nonrenewable_resources as int, factor) as i64,
            ..a.resources
        },
        pollution: PollutionState {
            persistent_pollution: fmul(a.pollution.persistent_pollution as int, factor) as i64,
            ..a.pollution
        },
        ..a
    }
}

/// Every stock of the state is nonnegative.
pub open spec fn stocks_nonneg(s: WorldState) -> bool {
    forall|i: int| 0 <= i < 10 ==> #[trigger] stock_seq(s)[i] >= 0
}

/// Round trip: for any state with nonnegative stocks, rebuilding from the
/// flat stock vector reproduces all ten stock values exactly.  Auxiliary
/// fields are deliberately not preserved.
pub proof fn lemma_from_to_vec_roundtrip(s: WorldState, time: i64)
    requires
        stocks_nonneg(s),
    ensures
        stock_seq(from_vec_spec(time, stock_seq(s))) == stock_seq(s),
{
    assert(forall|i: int| 0 <= i < 10 ==> #[trigger] stock_seq(s)[i] >= 0);
    assert(stock_seq(s)[0] >= 0);
    assert(stock_seq(s)[1] >= 0);
    assert(stock_seq(s)[2] >= 0);
    assert(stock_seq(s)[3] >= 0);
    assert(stock_seq(s)[4] >= 0);
    assert(stock_seq(s)[5] >= 0);
    assert(stock_seq(s)[6] >= 0);
    assert(stock_seq(s)[7] >= 0);
    assert(stock_seq(s)[8] >= 0);
    assert(stock_seq(s)[9] >= 0);
    assert(stock_seq(from_vec_spec(time, stock_seq(s))) =~= stock_seq(s));
}

impl Default for WorldState {
    /// The all-zero state.
    fn default() -> (r: WorldState)
        ensures
            r == zero_state(0),
    {
        WorldState::zero_derivative(0)
    }
}

} // verus!
