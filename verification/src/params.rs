//! Scenario configuration: the policy levers of a run, with named presets,
//! a self-describing parameter schema, and scenario metadata.
//!
//! All numeric values are fixed point (multiples of `1 / fixed::SCALE`):
//! a rate of 0.05 per year is stored as 500, the year 1900 as 19000000.

use vstd::prelude::*;

verus! {

/// All adjustable parameters for a simulation scenario, immutable during a
/// run.
#[derive(Clone, Debug)]
pub struct ScenarioParams {
    pub meta: ScenarioMeta,
    /// Year at which family planning reaches full effectiveness.
    pub family_planning_year: i64,
    /// Maximum effectiveness of family planning, in [0, 1].
    pub family_planning_efficacy: i64,
    /// Health services investment multiplier.
    pub health_investment_multiplier: i64,
    /// Industrial capital depreciation rate per year.
    pub industrial_depreciation_rate: i64,
    /// Service capital depreciation rate per year.
    pub service_depreciation_rate: i64,
    /// Technology progress rate per year.
    pub technology_growth_rate: i64,
    /// Fraction of industrial output reinvested in industry.
    pub investment_rate: i64,
    /// Agricultural technology multiplier on land yield.
    pub agricultural_technology: i64,
    /// Fraction of arable land protected from degradation.
    pub land_protection_fraction: i64,
    /// Subsistence food threshold per person per year.
    pub subsistence_food_per_capita: i64,
    /// Resource extraction efficiency multiplier.
    pub resource_efficiency: i64,
    /// Non-renewable resource initial stock, normalized.
    pub initial_nnr_fraction: i64,
    /// Pollution control policy strength, in [0, 1].
    pub pollution_control: i64,
    /// Simulation start year.
    pub start_year: i64,
    /// Simulation end year.
    pub end_year: i64,
    /// Time step in years.
    pub time_step: i64,
}

/// The default numeric configuration, shared by every preset's contract.
pub open spec fn default_numeric(p: ScenarioParams) -> bool {
    &&& p.family_planning_year == 20000000
    &&& p.family_planning_efficacy == 7500
    &&& p.health_investment_multiplier == 10000
    &&& p.industrial_depreciation_rate == 500
    &&& p.service_depreciation_rate == 500
    &&& p.technology_growth_rate == 20
    &&& p.investment_rate == 1200
    &&& p.agricultural_technology == 10000
    &&& p.land_protection_fraction == 0
    &&& p.subsistence_food_per_capita == 2300000
    &&& p.resource_efficiency == 10000
    &&& p.initial_nnr_fraction == 10000
    &&& p.pollution_control == 0
    &&& p.start_year == 19000000
    &&& p.end_year == 21000000
    &&& p.time_step == 10000
}

impl Default for ScenarioParams {
    /// The default scenario: every parameter at its documented default.
    fn default() -> (r: ScenarioParams)
        ensures
            default_numeric(r),
    {
        ScenarioParams {
            meta: ScenarioMeta::default(),
            family_planning_year: 20000000,
            family_planning_efficacy: 7500,
            health_investment_multiplier: 10000,
            industrial_depreciation_rate: 500,
            service_depreciation_rate: 500,
            technology_growth_rate: 20,
            investment_rate: 1200,
            agricultural_technology: 10000,
            land_protection_fraction: 0,
            subsistence_food_per_capita: 2300000,
            resource_efficiency: 10000,
            initial_nnr_fraction: 10000,
            pollution_control: 0,
            start_year: 19000000,
            end_year: 21000000,
            time_step: 10000,
        }
    }
}

impl ScenarioParams {
    /// Business as usual: the standard run, with no policy interventions.
    /// Fertility is purely demand-driven, so family planning is disabled.
    pub fn bau() -> (r: ScenarioParams)
        ensures
            r.family_planning_efficacy == 0,
            r.family_planning_year == 20000000,
            r.health_investment_multiplier == 10000,
            r.industrial_depreciation_rate == 500,
            r.service_depreciation_rate == 500,
            r.technology_growth_rate == 20,
            r.investment_rate == 1200,
            r.agricultural_technology == 10000,
            r.land_protection_fraction == 0,
            r.subsistence_food_per_capita == 2300000,
            r.resource_efficiency == 10000,
            r.initial_nnr_fraction == 10000,
            r.pollution_control == 0,
            r.start_year == 19000000,
            r.end_year == 21000000,
            r.time_step == 10000,
            r.meta.name@ == "Business as Usual"@,
    {
        let mut p = ScenarioParams::default();
        p.meta.name = "Business as Usual".to_string();
        p.meta.description = "Standard run. No policy interventions.".to_string();
        p.meta.color_hex = "#e63946".to_string();
        p.family_planning_efficacy = 0;
        p
    }

    /// Comprehensive technology: aggressive efficiency gains with no social
    /// change.
    pub fn comprehensive_technology() -> (r: ScenarioParams)
        ensures
            r.family_planning_efficacy == 7500,
            r.family_planning_year == 20000000,
            r.health_investment_multiplier == 10000,
            r.industrial_depreciation_rate == 500,
            r.service_depreciation_rate == 500,
            r.technology_growth_rate == 200,
            r.investment_rate == 1200,
            r.agricultural_technology == 20000,
            r.land_protection_fraction == 0,
            r.subsistence_food_per_capita == 2300000,
            r.resource_efficiency == 40000,
            r.initial_nnr_fraction == 10000,
            r.pollution_control == 8000,
            r.start_year == 19000000,
            r.end_year == 21000000,
            r.time_step == 10000,
            r.meta.name@ == "Comprehensive Technology"@,
    {
        let mut p = ScenarioParams::default();
        p.meta.name = "Comprehensive Technology".to_string();
        p.meta.description =
            "Technology solves resource and pollution problems, but no social changes.".to_string();
        p.meta.color_hex = "#2a9d8f".to_string();
        p.resource_efficiency = 40000;
        p.pollution_control = 8000;
        p.agricultural_technology = 20000;
        p.technology_growth_rate = 200;
        p
    }

    /// Stabilized world: technology, pollution control, family planning, and
    /// land protection combined.
    pub fn stabilized_world() -> (r: ScenarioParams)
        ensures
            r.family_planning_efficacy == 9500,
            r.family_planning_year == 19750000,
            r.health_investment_multiplier == 10000,
            r.industrial_depreciation_rate == 500,
            r.service_depreciation_rate == 500,
            r.technology_growth_rate == 150,
            r.investment_rate == 1200,
            r.agricultural_technology == 20000,
            r.land_protection_fraction == 3000,
            r.subsistence_food_per_capita == 2300000,
            r.resource_efficiency == 40000,
            r.initial_nnr_fraction == 10000,
            r.pollution_control == 8000,
            r.start_year == 19000000,
            r.end_year == 21000000,
            r.time_step == 10000,
            r.meta.name@ == "Stabilized World"@,
    {
        let mut p = ScenarioParams::default();
        p.meta.name = "Stabilized World".to_string();
        p.meta.description =
            "Combination of technology, pollution control, family planning, and resource efficiency.".to_string();
        p.meta.color_hex = "#457b9d".to_string();
        p.resource_efficiency = 40000;
        p.pollution_control = 8000;
        p.agricultural_technology = 20000;
        p.technology_growth_rate = 150;
        p.family_planning_efficacy = 9500;
        p.family_planning_year = 19750000;
        p.land_protection_fraction = 3000;
        p
    }
}

/// Metadata for a named scenario.
#[derive(Clone, Debug)]
pub struct ScenarioMeta {
    pub id: String,
    pub name: String,
    pub description: String,
    /// Hex color for chart rendering.
    pub color_hex: String,
    pub created_at: String,
}

impl Default for ScenarioMeta {
    /// A fresh unnamed scenario with a newly drawn identifier.
    fn default() -> (r: ScenarioMeta)
        ensures
            r.name@ == "Unnamed Scenario"@,
            r.description@ == Seq::<char>::empty(),
            r.color_hex@ == "#888888"@,
            r.id@.len() == 16,
    {
        ScenarioMeta {
            id: uuid_v4(),
            name: "Unnamed Scenario".to_string(),
            description: String::new(),
            color_hex: "#888888".to_string(),
            created_at: crate::clock::now_rfc3339(),
        }
    }
}

/// The sixteen lowercase hexadecimal digit characters.
pub open spec fn hex_char(d: int) -> char {
    if d == 0 {
        '0'
    } else if d == 1 {
        '1'
    } else if d == 2 {
        '2'
    } else if d == 3 {
        '3'
    } else if d == 4 {
        '4'
    } else if d == 5 {
        '5'
    } else if d == 6 {
        '6'
    } else if d == 7 {
        '7'
    } else if d == 8 {
        '8'
    } else if d == 9 {
        '9'
    } else if d == 10 {
        'a'
    } else if d == 11 {
        'b'
    } else if d == 12 {
        'c'
    } else if d == 13 {
        'd'
    } else if d == 14 {
        'e'
    } else {
        'f'
    }
}

pub open spec fn is_hex_char(c: char) -> bool {
    exists|d: int| 0 <= d < 16 && c == hex_char(d)
}

/// Sixteen to the power `k`.
pub open spec fn p16(k: nat) -> int
    decreases k,
{
    if k == 0 {
        1
    } else {
        16 * p16((k - 1) as nat)
    }
}

/// The `i`-th hexadecimal digit of `h`, most significant first, over sixteen
/// positions.
pub open spec fn hex_digit_at(h: int, i: int) -> int {
    (h / p16((15 - i) as nat)) % 16
}

fn push_hex_digit(s: &mut String, d: u64)
    requires
        d < 16,
    ensures
        final(s)@ == old(s)@ + seq![hex_char(d as int)],
{
    if d == 0 {
        s.append("0");
        proof {
            reveal_strlit("0");
            assert("0"@ =~= seq![hex_char(0)]);
        }
    } else if d == 1 {
        s.append("1");
        proof {
            reveal_strlit("1");
            assert("1"@ =~= seq![hex_char(1)]);
        }
    } else if d == 2 {
        s.append("2");
        proof {
            reveal_strlit("2");
            assert("2"@ =~= seq![hex_char(2)]);
        }
    } else if d == 3 {
        s.append("3");
        proof {
            reveal_strlit("3");
            assert("3"@ =~= seq![hex_char(3)]);
        }
    } else if d == 4 {
        s.append("4");
        proof {
            reveal_strlit("4");
            assert("4"@ =~= seq![hex_char(4)]);
        }
    } else if d == 5 {
        s.append("5");
        proof {
            reveal_strlit("5");
            assert("5"@ =~= seq![hex_char(5)]);
        }
    } else if d == 6 {
        s.append("6");
        proof {
            reveal_strlit("6");
            assert("6"@ =~= seq![hex_char(6)]);
        }
    } else if d == 7 {
        s.append("7");
        proof {
            reveal_strlit("7");
            assert("7"@ =~= seq![hex_char(7)]);
        }
    } else if d == 8 {
        s.append("8");
        proof {
            reveal_strlit("8");
            assert("8"@ =~= seq![hex_char(8)]);
        }
    } else if d == 9 {
        s.append("9");
        proof {
            reveal_strlit("9");
            assert("9"@ =~= seq![hex_char(9)]);
        }
    } else if d == 10 {
        s.append("a");
        proof {
            reveal_strlit("a");
            assert("a"@ =~= seq![hex_char(10)]);
        }
    } else if d == 11 {
        s.append("b");
        proof {
            reveal_strlit("b");
            assert("b"@ =~= seq![hex_char(11)]);
        }
    } else if d == 12 {
        s.append("c");
        proof {
            reveal_strlit("c");
            assert("c"@ =~= seq![hex_char(12)]);
        }
    } else if d == 13 {
        s.append("d");
        proof {
            reveal_strlit("d");
            assert("d"@ =~= seq![hex_char(13)]);
        }
    } else if d == 14 {
        s.append("e");
        proof {
            reveal_strlit("e");
            assert("e"@ =~= seq![hex_char(14)]);
        }
    } else {
        s.append("f");
        proof {
            reveal_strlit("f");
            assert("f"@ =~= seq![hex_char(15)]);
        }
    }
}

/// Format a 64-bit value as exactly sixteen lowercase hexadecimal digits,
/// most significant first.
pub fn format_hex16(h: u64) -> (r: String)
    ensures
        r@.len() == 16,
        forall|i: int| 0 <= i < 16 ==> r@[i] == hex_char(hex_digit_at(h as int, i)),
{
    let mut s = String::new();
    let mut p: u64 = 1152921504606846976;
    let mut i: usize = 0;
    proof {
        assert(p16(0) == 1);
        assert(p16(1) == 16);
        assert(p16(2) == 256);
        assert(p16(3) == 4096);
        assert(p16(4) == 65536);
        assert(p16(5) == 1048576);
        assert(p16(6) == 16777216);
        assert(p16(7) == 268435456);
        assert(p16(8) == 4294967296);
        assert(p16(9) == 68719476736);
        assert(p16(10) == 1099511627776);
        assert(p16(11) == 17592186044416);
        assert(p16(12) == 281474976710656);
        assert(p16(13) == 4503599627370496);
        assert(p16(14) == 72057594037927936);
        assert(p16(15) == 1152921504606846976);
    }
    while i < 16
        invariant
            s@.len() == i,
            0 <= i <= 16,
            i < 16 ==> p as int == p16((15 - i) as nat),
            p >= 1,
            forall|j: int| 0 <= j < i ==> s@[j] == hex_char(hex_digit_at(h as int, j)),
        decreases 16 - i,
    {
        let d = (h / p) % 16;
        push_hex_digit(&mut s, d);
        if i < 15 {
            proof {
                assert(p16((15 - i) as nat) == 16 * p16((15 - (i + 1)) as nat));
            }
            p = p / 16;
        }
        i = i + 1;
    }
    s
}

/// Draw a fresh 16-digit lowercase hexadecimal identifier from the clock.
pub fn uuid_v4() -> (r: String)
    ensures
        r@.len() == 16,
        forall|i: int| 0 <= i < 16 ==> is_hex_char(#[trigger] r@[i]),
{
    let h = crate::clock::time_hash();
    let r = format_hex16(h);
    proof {
        assert forall|i: int| 0 <= i < 16 implies is_hex_char(r@[i]) by {
            let d = hex_digit_at(h as int, i);
            assert(0 <= d < 16);
            assert(r@[i] == hex_char(d));
        }
    }
    r
}

/// Descriptor for a single parameter: the self-describing schema used to
/// present and bound each policy lever.
#[derive(Clone, Debug)]
pub struct ParameterDescriptor {
    /// Machine-readable field name.
    pub field: String,
    /// Human-readable label.
    pub label: String,
    /// Unit string.
    pub unit: String,
    pub min: i64,
    pub max: i64,
    pub default: i64,
    pub step: i64,
    /// Sector group.
    pub sector: String,
    pub description: String,
}

/// The full parameter schema: one descriptor per adjustable parameter, with
/// its documented range and default.
pub fn parameter_descriptors() -> (r: Vec<ParameterDescriptor>)
    ensures
        r@.len() == 10,
        r@[0].field@ == "family_planning_year"@ && r@[0].min == 19500000 && r@[0].max == 21000000
            && r@[0].default == 20000000 && r@[0].step == 50000,
        r@[1].field@ == "family_planning_efficacy"@ && r@[1].min == 0 && r@[1].max == 10000
            && r@[1].default == 7500 && r@[1].step == 500,
        r@[2].field@ == "health_investment_multiplier"@ && r@[2].min == 5000 && r@[2].max == 30000
            && r@[2].default == 10000 && r@[2].step == 1000,
        r@[3].field@ == "industrial_depreciation_rate"@ && r@[3].min == 200 && r@[3].max == 1000
            && r@[3].default == 500 && r@[3].step == 50,
        r@[4].field@ == "technology_growth_rate"@ && r@[4].min == 0 && r@[4].max == 300
            && r@[4].default == 20 && r@[4].step == 10,
        r@[5].field@ == "investment_rate"@ && r@[5].min == 0 && r@[5].max == 4000 && r@[5].default
            == 1200 && r@[5].step == 100,
        r@[6].field@ == "agricultural_technology"@ && r@[6].min == 5000 && r@[6].max == 30000
            && r@[6].default == 10000 && r@[6].step == 1000,
        r@[7].field@ == "land_protection_fraction"@ && r@[7].min == 0 && r@[7].max == 5000
            && r@[7].default == 0 && r@[7].step == 500,
        r@[8].field@ == "resource_efficiency"@ && r@[8].min == 10000 && r@[8].max == 50000
            && r@[8].default == 10000 && r@[8].step == 2500,
        r@[9].field@ == "pollution_control"@ && r@[9].min == 0 && r@[9].max == 10000
            && r@[9].default == 0 && r@[9].step == 500,
{
    let v = vec![
        ParameterDescriptor {
            field: "family_planning_year".to_string(),
            label: "Family Planning Year".to_string(),
            unit: "year".to_string(),
            min: 19500000,
            max: 21000000,
            default: 20000000,
            step: 50000,
            sector: "population".to_string(),
            description: "Year at which family planning reaches full effectiveness.".to_string(),
        },
        ParameterDescriptor {
            field: "family_planning_efficacy".to_string(),
            label: "Family Planning Efficacy".to_string(),
            unit: "fraction".to_string(),
            min: 0,
            max: 10000,
            default: 7500,
            step: 500,
            sector: "population".to_string(),
            description: "Maximum reduction in desired family size from family planning programs.".to_string(),
        },
        ParameterDescriptor {
            field: "health_investment_multiplier".to_string(),
            label: "Health Investment".to_string(),
            unit: "multiplier".to_string(),
            min: 5000,
            max: 30000,
            default: 10000,
            step: 1000,
            sector: "population".to_string(),
            description: "Scales health services spending, affecting life expectancy.".to_string(),
        },
        ParameterDescriptor {
            field: "industrial_depreciation_rate".to_string(),
            label: "Industrial Capital Depreciation".to_string(),
            unit: "per year".to_string(),
            min: 200,
            max: 1000,
            default: 500,
            step: 50,
            sector: "capital".to_string(),
            description: "Annual fraction of industrial capital that wears out.".to_string(),
        },
        ParameterDescriptor {
            field: "technology_growth_rate".to_string(),
            label: "Technology Progress Rate".to_string(),
            unit: "per year".to_string(),
            min: 0,
            max: 300,
            default: 20,
            step: 10,
            sector: "capital".to_string(),
            description: "Annual improvement in industrial output per unit capital.".to_string(),
        },
        ParameterDescriptor {
            field: "investment_rate".to_string(),
            label: "Investment Rate".to_string(),
            unit: "fraction".to_string(),
            min: 0,
            max: 4000,
            default: 1200,
            step: 100,
            sector: "capital".to_string(),
            description: "Fraction of industrial output reinvested in industrial capital.".to_string(),
        },
        ParameterDescriptor {
            field: "agricultural_technology".to_string(),
            label: "Agricultural Technology".to_string(),
            unit: "multiplier".to_string(),
            min: 5000,
            max: 30000,
            default: 10000,
            step: 1000,
            sector: "agriculture".to_string(),
            description: "Multiplier on land yield from crop improvements and irrigation.".to_string(),
        },
        ParameterDescriptor {
            field: "land_protection_fraction".to_string(),
            label: "Land Protection".to_string(),
            unit: "fraction".to_string(),
            min: 0,
            max: 5000,
            default: 0,
            step: 500,
            sector: "agriculture".to_string(),
            description: "Fraction of arable land protected from degradation and overuse.".to_string(),
        },
        ParameterDescriptor {
            field: "resource_efficiency".to_string(),
            label: "Resource Efficiency".to_string(),
            unit: "multiplier".to_string(),
            min: 10000,
            max: 50000,
            default: 10000,
            step: 2500,
            sector: "resources".to_string(),
            description: "Reduces resource use per unit of industrial output.".to_string(),
        },
        ParameterDescriptor {
            field: "pollution_control".to_string(),
            label: "Pollution Control".to_string(),
            unit: "fraction".to_string(),
            min: 0,
            max: 10000,
            default: 0,
            step: 500,
            sector: "pollution".to_string(),
            description: "Fraction by which pollution generation is reduced per unit output.".to_string(),
        },
    ];
    v
}

} // verus!
