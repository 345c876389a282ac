//! The calibrated curve set: every empirical response relationship the model
//! uses, constructed once from embedded control points and shared read-only.
//!
//! Control points are stored in fixed point (multiples of `1 / SCALE`).
//! `load` pins every curve's exact contents in its contract, so each sector's
//! specification is grounded in this data.

use vstd::prelude::*;
use crate::lookup::{table_wf, LookupTable};

verus! {

/// All lookup tables used by the model, loaded once at startup.
pub struct WorldLookupTables {
    /// Life-expectancy multiplier from food.
    /// x: food ratio (food per capita over the subsistence threshold); y: multiplier.
    pub life_exp_multiplier_food: LookupTable,
    /// Life-expectancy multiplier from health services.
    /// x: service output per capita; y: multiplier (below one where services are poor).
    pub life_exp_multiplier_health: LookupTable,
    /// Life-expectancy multiplier from crowding.
    /// x: crowding ratio (population over the reference population); y: multiplier.
    pub life_exp_multiplier_crowding: LookupTable,
    /// Life-expectancy multiplier from pollution.
    /// x: pollution index; y: multiplier.
    pub life_exp_multiplier_pollution: LookupTable,
    /// Desired completed family size against income.
    /// x: industrial output per capita; y: children per woman.
    pub desired_family_size: LookupTable,
    /// Family-planning multiplier on fertility.
    /// x: effective family planning (zero for none, one for full); y: multiplier.
    pub family_planning_multiplier: LookupTable,
    /// Fraction of services devoted to health.
    /// x: effective services per capita (normalized); y: fraction.
    pub fraction_services_health: LookupTable,
    /// Capital-output ratio multiplier from resource depletion.
    /// x: fraction of resources remaining; y: multiplier on the capital-output ratio.
    pub capital_output_ratio_resources: LookupTable,
    /// Fraction of industrial output allocated to agriculture under food pressure.
    /// x: food ratio; y: fraction.
    pub industrial_fraction_to_agriculture: LookupTable,
    /// Fraction of industrial output allocated to services.
    /// x: normalized service output per capita; y: fraction.
    pub industrial_fraction_to_services: LookupTable,
    /// Jobs per unit of industrial capital.
    /// x: normalized industrial output per capita; y: jobs per capital unit.
    pub jobs_per_capital: LookupTable,
    /// Labor-force participation by age structure.
    /// x: fraction of the population of working age; y: labor-force fraction.
    pub labor_force_participation: LookupTable,
    /// Land-yield multiplier from capital inputs.
    /// x: agricultural inputs per hectare; y: yield multiplier.
    pub land_yield_multiplier_capital: LookupTable,
    /// Land-yield multiplier from pollution.
    /// x: pollution index; y: yield multiplier.
    pub land_yield_multiplier_pollution: LookupTable,
    /// Land erosion multiplier from over-farming.
    /// x: ratio of actual to reference yield; y: erosion multiplier.
    pub land_erosion_multiplier: LookupTable,
    /// Land development cost as marginal land is brought into production.
    /// x: fraction of potential arable land already developed; y: cost multiplier.
    pub land_development_cost: LookupTable,
    /// Food effect on fertility.
    /// x: food ratio; y: fertility fraction.
    pub food_fertility_multiplier: LookupTable,
    /// Fraction of industrial capital diverted to resource extraction.
    /// x: fraction of resources remaining; y: fraction of capital.
    pub capital_fraction_resource_extraction: LookupTable,
    /// Pollution generation from industrial activity.
    /// x: industrial output per capita (normalized to the reference year); y: multiplier.
    pub pollution_generation_industry: LookupTable,
    /// Pollution generation from agricultural inputs.
    /// x: normalized agricultural inputs; y: multiplier.
    pub pollution_generation_agriculture: LookupTable,
    /// Pollution assimilation time.
    /// x: pollution index; y: assimilation time in years, rising steeply as the
    /// environment is overwhelmed.
    pub pollution_assimilation_time: LookupTable,
}

/// Every curve in the set satisfies the table invariant.
pub open spec fn tables_wf(t: WorldLookupTables) -> bool {
    &&& table_wf(t.life_exp_multiplier_food.x@, t.life_exp_multiplier_food.y@)
    &&& table_wf(t.life_exp_multiplier_health.x@, t.life_exp_multiplier_health.y@)
    &&& table_wf(t.life_exp_multiplier_crowding.x@, t.life_exp_multiplier_crowding.y@)
    &&& table_wf(t.life_exp_multiplier_pollution.x@, t.life_exp_multiplier_pollution.y@)
    &&& table_wf(t.desired_family_size.x@, t.desired_family_size.y@)
    &&& table_wf(t.family_planning_multiplier.x@, t.family_planning_multiplier.y@)
    &&& table_wf(t.fraction_services_health.x@, t.fraction_services_health.y@)
    &&& table_wf(t.capital_output_ratio_resources.x@, t.capital_output_ratio_resources.y@)
    &&& table_wf(t.industrial_fraction_to_agriculture.x@, t.industrial_fraction_to_agriculture.y@)
    &&& table_wf(t.industrial_fraction_to_services.x@, t.industrial_fraction_to_services.y@)
    &&& table_wf(t.jobs_per_capital.x@, t.jobs_per_capital.y@)
    &&& table_wf(t.labor_force_participation.x@, t.labor_force_participation.y@)
    &&& table_wf(t.land_yield_multiplier_capital.x@, t.land_yield_multiplier_capital.y@)
    &&& table_wf(t.land_yield_multiplier_pollution.x@, t.land_yield_multiplier_pollution.y@)
    &&& table_wf(t.land_erosion_multiplier.x@, t.land_erosion_multiplier.y@)
    &&& table_wf(t.land_development_cost.x@, t.land_development_cost.y@)
    &&& table_wf(t.food_fertility_multiplier.x@, t.food_fertility_multiplier.y@)
    &&& table_wf(t.capital_fraction_resource_extraction.x@, t.capital_fraction_resource_extraction.y@)
    &&& table_wf(t.pollution_generation_industry.x@, t.pollution_generation_industry.y@)
    &&& table_wf(t.pollution_generation_agriculture.x@, t.pollution_generation_agriculture.y@)
    &&& table_wf(t.pollution_assimilation_time.x@, t.pollution_assimilation_time.y@)
}

/// The exact embedded calibration data, curve by curve.
pub open spec fn tables_loaded(t: WorldLookupTables) -> bool {
    &&& t.life_exp_multiplier_food.x@ == seq![0i64, 10000, 20000, 30000, 40000, 50000]
    &&& t.life_exp_multiplier_food.y@ == seq![0i64, 10000, 14300, 15000, 15000, 15000]
    &&& t.life_exp_multiplier_health.x@ == seq![0i64, 2000000, 4000000, 6000000, 8000000, 10000000]
    &&& t.life_exp_multiplier_health.y@ == seq![5000i64, 7600, 11500, 15500, 17800, 20000]
    &&& t.life_exp_multiplier_crowding.x@ == seq![0i64, 5000, 10000, 15000, 20000, 25000, 30000, 35000, 40000, 45000, 50000]
    &&& t.life_exp_multiplier_crowding.y@ == seq![15000i64, 14000, 13000, 12000, 11000, 10000, 9000, 8000, 7000, 6000, 5000]
    &&& t.life_exp_multiplier_pollution.x@ == seq![0i64, 100000, 200000, 300000, 400000, 500000, 600000, 700000, 800000]
    &&& t.life_exp_multiplier_pollution.y@ == seq![10000i64, 9900, 9700, 9500, 9000, 8500, 7500, 6500, 5500]
    &&& t.desired_family_size.x@ == seq![0i64, 4000000, 8000000, 12000000, 16000000]
    &&& t.desired_family_size.y@ == seq![50000i64, 40000, 30000, 21000, 19000]
    &&& t.family_planning_multiplier.x@ == seq![0i64, 2500, 5000, 7500, 10000]
    &&& t.family_planning_multiplier.y@ == seq![10000i64, 9000, 7500, 5500, 4000]
    &&& t.fraction_services_health.x@ == seq![0i64, 5000, 10000, 15000, 20000]
    &&& t.fraction_services_health.y@ == seq![3000i64, 3500, 4000, 4500, 5000]
    &&& t.capital_output_ratio_resources.x@ == seq![0i64, 1000, 2000, 3000, 4000, 5000, 6000, 7000, 8000, 9000, 10000]
    &&& t.capital_output_ratio_resources.y@ == seq![40000i64, 32000, 26000, 20000, 16000, 12500, 9000, 7500, 6200, 5500, 5000]
    &&& t.industrial_fraction_to_agriculture.x@ == seq![0i64, 5000, 10000, 15000, 20000, 25000]
    &&& t.industrial_fraction_to_agriculture.y@ == seq![4000i64, 2500, 1500, 1000, 700, 500]
    &&& t.industrial_fraction_to_services.x@ == seq![0i64, 5000, 10000, 15000, 20000]
    &&& t.industrial_fraction_to_services.y@ == seq![3000i64, 2500, 2000, 1500, 1200]
    &&& t.jobs_per_capital.x@ == seq![0i64, 5000, 10000, 20000, 30000, 40000]
    &&& t.jobs_per_capital.y@ == seq![7i64, 14, 17, 18, 19, 20]
    &&& t.labor_force_participation.x@ == seq![5000i64, 6000, 7000, 8000]
    &&& t.labor_force_participation.y@ == seq![5000i64, 5500, 6000, 6500]
    &&& t.land_yield_multiplier_capital.x@ == seq![0i64, 400000, 800000, 1200000, 1600000, 2000000, 2400000, 2800000, 3200000, 3600000, 4000000]
    &&& t.land_yield_multiplier_capital.y@ == seq![10000i64, 30000, 45000, 50000, 53000, 56000, 59000, 61000, 63500, 66000, 69000]
    &&& t.land_yield_multiplier_pollution.x@ == seq![0i64, 100000, 200000, 300000, 400000, 500000, 600000]
    &&& t.land_yield_multiplier_pollution.y@ == seq![12000i64, 10000, 8500, 7500, 6500, 5500, 5000]
    &&& t.land_erosion_multiplier.x@ == seq![0i64, 2500, 5000, 7500, 10000, 12500, 15000, 17500, 20000]
    &&& t.land_erosion_multiplier.y@ == seq![0i64, 1000, 3000, 5000, 7000, 10000, 15000, 20000, 25000]
    &&& t.land_development_cost.x@ == seq![0i64, 1000, 2000, 3000, 4000, 5000, 6000, 7000, 8000, 9000, 10000]
    &&& t.land_development_cost.y@ == seq![1000000i64, 1170000, 1370000, 1610000, 1920000, 2320000, 2820000, 3440000, 4180000, 5070000, 6160000]
    &&& t.food_fertility_multiplier.x@ == seq![0i64, 5000, 10000, 15000, 20000]
    &&& t.food_fertility_multiplier.y@ == seq![0i64, 6000, 10000, 10500, 11000]
    &&& t.capital_fraction_resource_extraction.x@ == seq![0i64, 1000, 2000, 3000, 4000, 5000, 6000, 7000, 8000, 9000, 10000]
    &&& t.capital_fraction_resource_extraction.y@ == seq![10000i64, 9000, 7000, 5000, 4000, 3000, 2000, 1400, 800, 400, 0]
    &&& t.pollution_generation_industry.x@ == seq![0i64, 10000, 20000, 30000, 40000, 50000]
    &&& t.pollution_generation_industry.y@ == seq![0i64, 10000, 15000, 19000, 21600, 23600]
    &&& t.pollution_generation_agriculture.x@ == seq![0i64, 10000, 20000, 30000, 40000]
    &&& t.pollution_generation_agriculture.y@ == seq![0i64, 10000, 17000, 22000, 25000]
    &&& t.pollution_assimilation_time.x@ == seq![0i64, 100000, 200000, 300000, 400000, 500000, 600000]
    &&& t.pollution_assimilation_time.y@ == seq![200000i64, 450000, 900000, 1500000, 2200000, 3200000, 4800000]
}

fn curve_life_exp_multiplier_food() -> (c: LookupTable)
    ensures
        c.x@ == seq![0i64, 10000, 20000, 30000, 40000, 50000],
        c.y@ == seq![0i64, 10000, 14300, 15000, 15000, 15000],
        table_wf(c.x@, c.y@),
{
    let x = vec![0i64, 10000, 20000, 30000, 40000, 50000];
    let y = vec![0i64, 10000, 14300, 15000, 15000, 15000];
    proof {
        assert(x@ =~= seq![0i64, 10000, 20000, 30000, 40000, 50000]);
        assert(y@ =~= seq![0i64, 10000, 14300, 15000, 15000, 15000]);
        assert(crate::lookup::strictly_increasing(x@));
    }
    LookupTable::new("life_exp_multiplier_food", x, y)
}

fn curve_life_exp_multiplier_health() -> (c: LookupTable)
    ensures
        c.x@ == seq![0i64, 2000000, 4000000, 6000000, 8000000, 10000000],
        c.y@ == seq![5000i64, 7600, 11500, 15500, 17800, 20000],
        table_wf(c.x@, c.y@),
{
    let x = vec![0i64, 2000000, 4000000, 6000000, 8000000, 10000000];
    let y = vec![5000i64, 7600, 11500, 15500, 17800, 20000];
    proof {
        assert(x@ =~= seq![0i64, 2000000, 4000000, 6000000, 8000000, 10000000]);
        assert(y@ =~= seq![5000i64, 7600, 11500, 15500, 17800, 20000]);
        assert(crate::lookup::strictly_increasing(x@));
    }
    LookupTable::new("life_exp_multiplier_health", x, y)
}

fn curve_life_exp_multiplier_crowding() -> (c: LookupTable)
    ensures
        c.x@ == seq![0i64, 5000, 10000, 15000, 20000, 25000, 30000, 35000, 40000, 45000, 50000],
        c.y@ == seq![15000i64, 14000, 13000, 12000, 11000, 10000, 9000, 8000, 7000, 6000, 5000],
        table_wf(c.x@, c.y@),
{
    let x = vec![0i64, 5000, 10000, 15000, 20000, 25000, 30000, 35000, 40000, 45000, 50000];
    let y = vec![15000i64, 14000, 13000, 12000, 11000, 10000, 9000, 8000, 7000, 6000, 5000];
    proof {
        assert(x@ =~= seq![0i64, 5000, 10000, 15000, 20000, 25000, 30000, 35000, 40000, 45000, 50000]);
        assert(y@ =~= seq![15000i64, 14000, 13000, 12000, 11000, 10000, 9000, 8000, 7000, 6000, 5000]);
        assert(crate::lookup::strictly_increasing(x@));
    }
    LookupTable::new("life_exp_multiplier_crowding", x, y)
}

fn curve_life_exp_multiplier_pollution() -> (c: LookupTable)
    ensures
        c.x@ == seq![0i64, 100000, 200000, 300000, 400000, 500000, 600000, 700000, 800000],
        c.y@ == seq![10000i64, 9900, 9700, 9500, 9000, 8500, 7500, 6500, 5500],
        table_wf(c.x@, c.y@),
{
    let x = vec![0i64, 100000, 200000, 300000, 400000, 500000, 600000, 700000, 800000];
    let y = vec![10000i64, 9900, 9700, 9500, 9000, 8500, 7500, 6500, 5500];
    proof {
        assert(x@ =~= seq![0i64, 100000, 200000, 300000, 400000, 500000, 600000, 700000, 800000]);
        assert(y@ =~= seq![10000i64, 9900, 9700, 9500, 9000, 8500, 7500, 6500, 5500]);
        assert(crate::lookup::strictly_increasing(x@));
    }
    LookupTable::new("life_exp_multiplier_pollution", x, y)
}

fn curve_desired_family_size() -> (c: LookupTable)
    ensures
        c.x@ == seq![0i64, 4000000, 8000000, 12000000, 16000000],
        c.y@ == seq![50000i64, 40000, 30000, 21000, 19000],
        table_wf(c.x@, c.y@),
{
    let x = vec![0i64, 4000000, 8000000, 12000000, 16000000];
    let y = vec![50000i64, 40000, 30000, 21000, 19000];
    proof {
        assert(x@ =~= seq![0i64, 4000000, 8000000, 12000000, 16000000]);
        assert(y@ =~= seq![50000i64, 40000, 30000, 21000, 19000]);
        assert(crate::lookup::strictly_increasing(x@));
    }
    LookupTable::new("desired_family_size", x, y)
}

fn curve_family_planning_multiplier() -> (c: LookupTable)
    ensures
        c.x@ == seq![0i64, 2500, 5000, 7500, 10000],
        c.y@ == seq![10000i64, 9000, 7500, 5500, 4000],
        table_wf(c.x@, c.y@),
{
    let x = vec![0i64, 2500, 5000, 7500, 10000];
    let y = vec![10000i64, 9000, 7500, 5500, 4000];
    proof {
        assert(x@ =~= seq![0i64, 2500, 5000, 7500, 10000]);
        assert(y@ =~= seq![10000i64, 9000, 7500, 5500, 4000]);
        assert(crate::lookup::strictly_increasing(x@));
    }
    LookupTable::new("family_planning_multiplier", x, y)
}

fn curve_fraction_services_health() -> (c: LookupTable)
    ensures
        c.x@ == seq![0i64, 5000, 10000, 15000, 20000],
        c.y@ == seq![3000i64, 3500, 4000, 4500, 5000],
        table_wf(c.x@, c.y@),
{
    let x = vec![0i64, 5000, 10000, 15000, 20000];
    let y = vec![3000i64, 3500, 4000, 4500, 5000];
    proof {
        assert(x@ =~= seq![0i64, 5000, 10000, 15000, 20000]);
        assert(y@ =~= seq![3000i64, 3500, 4000, 4500, 5000]);
        assert(crate::lookup::strictly_increasing(x@));
    }
    LookupTable::new("fraction_services_health", x, y)
}

fn curve_capital_output_ratio_resources() -> (c: LookupTable)
    ensures
        c.x@ == seq![0i64, 1000, 2000, 3000, 4000, 5000, 6000, 7000, 8000, 9000, 10000],
        c.y@ == seq![40000i64, 32000, 26000, 20000, 16000, 12500, 9000, 7500, 6200, 5500, 5000],
        table_wf(c.x@, c.y@),
{
    let x = vec![0i64, 1000, 2000, 3000, 4000, 5000, 6000, 7000, 8000, 9000, 10000];
    let y = vec![40000i64, 32000, 26000, 20000, 16000, 12500, 9000, 7500, 6200, 5500, 5000];
    proof {
        assert(x@ =~= seq![0i64, 1000, 2000, 3000, 4000, 5000, 6000, 7000, 8000, 9000, 10000]);
        assert(y@ =~= seq![40000i64, 32000, 26000, 20000, 16000, 12500, 9000, 7500, 6200, 5500, 5000]);
        assert(crate::lookup::strictly_increasing(x@));
    }
    LookupTable::new("capital_output_ratio_resources", x, y)
}

fn curve_industrial_fraction_to_agriculture() -> (c: LookupTable)
    ensures
        c.x@ == seq![0i64, 5000, 10000, 15000, 20000, 25000],
        c.y@ == seq![4000i64, 2500, 1500, 1000, 700, 500],
        table_wf(c.x@, c.y@),
{
    let x = vec![0i64, 5000, 10000, 15000, 20000, 25000];
    let y = vec![4000i64, 2500, 1500, 1000, 700, 500];
    proof {
        assert(x@ =~= seq![0i64, 5000, 10000, 15000, 20000, 25000]);
        assert(y@ =~= seq![4000i64, 2500, 1500, 1000, 700, 500]);
        assert(crate::lookup::strictly_increasing(x@));
    }
    LookupTable::new("industrial_fraction_to_agriculture", x, y)
}

fn curve_industrial_fraction_to_services() -> (c: LookupTable)
    ensures
        c.x@ == seq![0i64, 5000, 10000, 15000, 20000],
        c.y@ == seq![3000i64, 2500, 2000, 1500, 1200],
        table_wf(c.x@, c.y@),
{
    let x = vec![0i64, 5000, 10000, 15000, 20000];
    let y = vec![3000i64, 2500, 2000, 1500, 1200];
    proof {
        assert(x@ =~= seq![0i64, 5000, 10000, 15000, 20000]);
        assert(y@ =~= seq![3000i64, 2500, 2000, 1500, 1200]);
        assert(crate::lookup::strictly_increasing(x@));
    }
    LookupTable::new("industrial_fraction_to_services", x, y)
}

fn curve_jobs_per_capital() -> (c: LookupTable)
    ensures
        c.x@ == seq![0i64, 5000, 10000, 20000, 30000, 40000],
        c.y@ == seq![7i64, 14, 17, 18, 19, 20],
        table_wf(c.x@, c.y@),
{
    let x = vec![0i64, 5000, 10000, 20000, 30000, 40000];
    let y = vec![7i64, 14, 17, 18, 19, 20];
    proof {
        assert(x@ =~= seq![0i64, 5000, 10000, 20000, 30000, 40000]);
        assert(y@ =~= seq![7i64, 14, 17, 18, 19, 20]);
        assert(crate::lookup::strictly_increasing(x@));
    }
    LookupTable::new("jobs_per_capital", x, y)
}

fn curve_labor_force_participation() -> (c: LookupTable)
    ensures
        c.x@ == seq![5000i64, 6000, 7000, 8000],
        c.y@ == seq![5000i64, 5500, 6000, 6500],
        table_wf(c.x@, c.y@),
{
    let x = vec![5000i64, 6000, 7000, 8000];
    let y = vec![5000i64, 5500, 6000, 6500];
    proof {
        assert(x@ =~= seq![5000i64, 6000, 7000, 8000]);
        assert(y@ =~= seq![5000i64, 5500, 6000, 6500]);
        assert(crate::lookup::strictly_increasing(x@));
    }
    LookupTable::new("labor_force_participation", x, y)
}

fn curve_land_yield_multiplier_capital() -> (c: LookupTable)
    ensures
        c.x@ == seq![0i64, 400000, 800000, 1200000, 1600000, 2000000, 2400000, 2800000, 3200000, 3600000, 4000000],
        c.y@ == seq![10000i64, 30000, 45000, 50000, 53000, 56000, 59000, 61000, 63500, 66000, 69000],
        table_wf(c.x@, c.y@),
{
    let x = vec![0i64, 400000, 800000, 1200000, 1600000, 2000000, 2400000, 2800000, 3200000, 3600000, 4000000];
    let y = vec![10000i64, 30000, 45000, 50000, 53000, 56000, 59000, 61000, 63500, 66000, 69000];
    proof {
        assert(x@ =~= seq![0i64, 400000, 800000, 1200000, 1600000, 2000000, 2400000, 2800000, 3200000, 3600000, 4000000]);
        assert(y@ =~= seq![10000i64, 30000, 45000, 50000, 53000, 56000, 59000, 61000, 63500, 66000, 69000]);
        assert(crate::lookup::strictly_increasing(x@));
    }
    LookupTable::new("land_yield_multiplier_capital", x, y)
}

fn curve_land_yield_multiplier_pollution() -> (c: LookupTable)
    ensures
        c.x@ == seq![0i64, 100000, 200000, 300000, 400000, 500000, 600000],
        c.y@ == seq![12000i64, 10000, 8500, 7500, 6500, 5500, 5000],
        table_wf(c.x@, c.y@),
{
    let x = vec![0i64, 100000, 200000, 300000, 400000, 500000, 600000];
    let y = vec![12000i64, 10000, 8500, 7500, 6500, 5500, 5000];
    proof {
        assert(x@ =~= seq![0i64, 100000, 200000, 300000, 400000, 500000, 600000]);
        assert(y@ =~= seq![12000i64, 10000, 8500, 7500, 6500, 5500, 5000]);
        assert(crate::lookup::strictly_increasing(x@));
    }
    LookupTable::new("land_yield_multiplier_pollution", x, y)
}

fn curve_land_erosion_multiplier() -> (c: LookupTable)
    ensures
        c.x@ == seq![0i64, 2500, 5000, 7500, 10000, 12500, 15000, 17500, 20000],
        c.y@ == seq![0i64, 1000, 3000, 5000, 7000, 10000, 15000, 20000, 25000],
        table_wf(c.x@, c.y@),
{
    let x = vec![0i64, 2500, 5000, 7500, 10000, 12500, 15000, 17500, 20000];
    let y = vec![0i64, 1000, 3000, 5000, 7000, 10000, 15000, 20000, 25000];
    proof {
        assert(x@ =~= seq![0i64, 2500, 5000, 7500, 10000, 12500, 15000, 17500, 20000]);
        assert(y@ =~= seq![0i64, 1000, 3000, 5000, 7000, 10000, 15000, 20000, 25000]);
        assert(crate::lookup::strictly_increasing(x@));
    }
    LookupTable::new("land_erosion_multiplier", x, y)
}

fn curve_land_development_cost() -> (c: LookupTable)
    ensures
        c.x@ == seq![0i64, 1000, 2000, 3000, 4000, 5000, 6000, 7000, 8000, 9000, 10000],
        c.y@ == seq![1000000i64, 1170000, 1370000, 1610000, 1920000, 2320000, 2820000, 3440000, 4180000, 5070000, 6160000],
        table_wf(c.x@, c.y@),
{
    let x = vec![0i64, 1000, 2000, 3000, 4000, 5000, 6000, 7000, 8000, 9000, 10000];
    let y = vec![1000000i64, 1170000, 1370000, 1610000, 1920000, 2320000, 2820000, 3440000, 4180000, 5070000, 6160000];
    proof {
        assert(x@ =~= seq![0i64, 1000, 2000, 3000, 4000, 5000, 6000, 7000, 8000, 9000, 10000]);
        assert(y@ =~= seq![1000000i64, 1170000, 1370000, 1610000, 1920000, 2320000, 2820000, 3440000, 4180000, 5070000, 6160000]);
        assert(crate::lookup::strictly_increasing(x@));
    }
    LookupTable::new("land_development_cost", x, y)
}

fn curve_food_fertility_multiplier() -> (c: LookupTable)
    ensures
        c.x@ == seq![0i64, 5000, 10000, 15000, 20000],
        c.y@ == seq![0i64, 6000, 10000, 10500, 11000],
        table_wf(c.x@, c.y@),
{
    let x = vec![0i64, 5000, 10000, 15000, 20000];
    let y = vec![0i64, 6000, 10000, 10500, 11000];
    proof {
        assert(x@ =~= seq![0i64, 5000, 10000, 15000, 20000]);
        assert(y@ =~= seq![0i64, 6000, 10000, 10500, 11000]);
        assert(crate::lookup::strictly_increasing(x@));
    }
    LookupTable::new("food_fertility_multiplier", x, y)
}

fn curve_capital_fraction_resource_extraction() -> (c: LookupTable)
    ensures
        c.x@ == seq![0i64, 1000, 2000, 3000, 4000, 5000, 6000, 7000, 8000, 9000, 10000],
        c.y@ == seq![10000i64, 9000, 7000, 5000, 4000, 3000, 2000, 1400, 800, 400, 0],
        table_wf(c.x@, c.y@),
{
    let x = vec![0i64, 1000, 2000, 3000, 4000, 5000, 6000, 7000, 8000, 9000, 10000];
    let y = vec![10000i64, 9000, 7000, 5000, 4000, 3000, 2000, 1400, 800, 400, 0];
    proof {
        assert(x@ =~= seq![0i64, 1000, 2000, 3000, 4000, 5000, 6000, 7000, 8000, 9000, 10000]);
        assert(y@ =~= seq![10000i64, 9000, 7000, 5000, 4000, 3000, 2000, 1400, 800, 400, 0]);
        assert(crate::lookup::strictly_increasing(x@));
    }
    LookupTable::new("capital_fraction_resource_extraction", x, y)
}

fn curve_pollution_generation_industry() -> (c: LookupTable)
    ensures
        c.x@ == seq![0i64, 10000, 20000, 30000, 40000, 50000],
        c.y@ == seq![0i64, 10000, 15000, 19000, 21600, 23600],
        table_wf(c.x@, c.y@),
{
    let x = vec![0i64, 10000, 20000, 30000, 40000, 50000];
    let y = vec![0i64, 10000, 15000, 19000, 21600, 23600];
    proof {
        assert(x@ =~= seq![0i64, 10000, 20000, 30000, 40000, 50000]);
        assert(y@ =~= seq![0i64, 10000, 15000, 19000, 21600, 23600]);
        assert(crate::lookup::strictly_increasing(x@));
    }
    LookupTable::new("pollution_generation_industry", x, y)
}

fn curve_pollution_generation_agriculture() -> (c: LookupTable)
    ensures
        c.x@ == seq![0i64, 10000, 20000, 30000, 40000],
        c.y@ == seq![0i64, 10000, 17000, 22000, 25000],
        table_wf(c.x@, c.y@),
{
    let x = vec![0i64, 10000, 20000, 30000, 40000];
    let y = vec![0i64, 10000, 17000, 22000, 25000];
    proof {
        assert(x@ =~= seq![0i64, 10000, 20000, 30000, 40000]);
        assert(y@ =~= seq![0i64, 10000, 17000, 22000, 25000]);
        assert(crate::lookup::strictly_increasing(x@));
    }
    LookupTable::new("pollution_generation_agriculture", x, y)
}

fn curve_pollution_assimilation_time() -> (c: LookupTable)
    ensures
        c.x@ == seq![0i64, 100000, 200000, 300000, 400000, 500000, 600000],
        c.y@ == seq![200000i64, 450000, 900000, 1500000, 2200000, 3200000, 4800000],
        table_wf(c.x@, c.y@),
{
    let x = vec![0i64, 100000, 200000, 300000, 400000, 500000, 600000];
    let y = vec![200000i64, 450000, 900000, 1500000, 2200000, 3200000, 4800000];
    proof {
        assert(x@ =~= seq![0i64, 100000, 200000, 300000, 400000, 500000, 600000]);
        assert(y@ =~= seq![200000i64, 450000, 900000, 1500000, 2200000, 3200000, 4800000]);
        assert(crate::lookup::strictly_increasing(x@));
    }
    LookupTable::new("pollution_assimilation_time", x, y)
}

impl WorldLookupTables {
    /// Build the full curve set from the embedded calibration data; the
    /// contract pins every control point and establishes every invariant.
    pub fn load() -> (r: WorldLookupTables)
        ensures
            tables_wf(r),
            tables_loaded(r),
    {
        WorldLookupTables {
            life_exp_multiplier_food: curve_life_exp_multiplier_food(),
            life_exp_multiplier_health: curve_life_exp_multiplier_health(),
            life_exp_multiplier_crowding: curve_life_exp_multiplier_crowding(),
            life_exp_multiplier_pollution: curve_life_exp_multiplier_pollution(),
            desired_family_size: curve_desired_family_size(),
            family_planning_multiplier: curve_family_planning_multiplier(),
            fraction_services_health: curve_fraction_services_health(),
            capital_output_ratio_resources: curve_capital_output_ratio_resources(),
            industrial_fraction_to_agriculture: curve_industrial_fraction_to_agriculture(),
            industrial_fraction_to_services: curve_industrial_fraction_to_services(),
            jobs_per_capital: curve_jobs_per_capital(),
            labor_force_participation: curve_labor_force_participation(),
            land_yield_multiplier_capital: curve_land_yield_multiplier_capital(),
            land_yield_multiplier_pollution: curve_land_yield_multiplier_pollution(),
            land_erosion_multiplier: curve_land_erosion_multiplier(),
            land_development_cost: curve_land_development_cost(),
            food_fertility_multiplier: curve_food_fertility_multiplier(),
            capital_fraction_resource_extraction: curve_capital_fraction_resource_extraction(),
            pollution_generation_industry: curve_pollution_generation_industry(),
            pollution_generation_agriculture: curve_pollution_generation_agriculture(),
            pollution_assimilation_time: curve_pollution_assimilation_time(),
        }
    }
}

} // verus!
