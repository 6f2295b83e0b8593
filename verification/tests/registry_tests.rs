use indicator_sync::indicators::{
    BuffettIndicator, CalculatedIndicator, Calculator, CommercialPaperSpread, CopperGoldRatio,
    FinancialStress, GoldSilverRatio, NdxSpxRatio, NetLiquidity, RealYield10Y, RuleOf20, SofrSpread,
    VixTermStructure, YieldCurve10Y2Y, YieldCurve10Y3M, YieldGap,
};
use indicator_sync::registry::{
    Category, IndicatorMetadata, Registry, RegistryStats, SourceType, UnitType,
};

fn entry(slug: &str, source: SourceType, category: Category) -> IndicatorMetadata {
    IndicatorMetadata {
        slug: slug.to_string(),
        name: slug.to_uppercase(),
        source,
        category,
        description: None,
        source_symbol: None,
        unit: UnitType::Index,
        source_url: None,
        frequency: None,
        has_history: false,
    }
}

#[test]
fn standard_catalog_counts() {
    let registry = Registry::standard();
    assert_eq!(
        registry.get_stats(),
        RegistryStats {
            total: 107,
            visible: 92,
            fred: 58,
            tiingo: 28,
            binance: 5,
            calculated: 11,
            alternative: 3,
            manual: 2,
        }
    );
    assert_eq!(registry.get_all_indicators().len(), 107);
    assert_eq!(registry.get_available_indicators().len(), 92);
}

#[test]
fn standard_catalog_keeps_its_order() {
    let registry = Registry::standard();
    let all = registry.get_all_indicators();
    assert_eq!(all[0].slug, "buffett_indicator");
    assert_eq!(all[106].slug, "SP500PE12M");
    let calculated: Vec<String> =
        registry.get_by_source(SourceType::Calculated).into_iter().map(|m| m.slug).collect();
    assert_eq!(
        calculated,
        vec![
            "buffett_indicator",
            "yield_curve_10y_2y",
            "yield_curve_10y_3m",
            "net_liquidity",
            "financial_stress",
            "copper_gold_ratio",
            "gold_silver_ratio",
            "real_yield",
            "yield_gap",
            "cp_bill_spread",
            "sofr_spread",
        ]
    );
}

#[test]
fn available_indicators_exclude_internal_entries() {
    let registry = Registry::standard();
    let available = registry.get_available_indicators();
    assert!(available.iter().all(|m| m.category != Category::Internal));
    assert!(available.iter().all(|m| m.slug != "cp_3m_rate"));
    let hidden = registry.get_metadata("cp_3m_rate").unwrap();
    assert_eq!(hidden.category, Category::Internal);
    assert_eq!(hidden.source_symbol.as_deref(), Some("CPF3M"));
    assert_eq!(registry.get_by_category(Category::Internal).len(), 15);
}

#[test]
fn metadata_lookup_returns_the_entry() {
    let registry = Registry::standard();
    let entry = registry.get_metadata("us_10y").unwrap();
    assert_eq!(entry.slug, "us_10y");
    assert_eq!(entry.name, "10-Year Treasury Yield");
    assert_eq!(entry.source, SourceType::Fred);
    assert_eq!(entry.category, Category::UsMacro);
    assert_eq!(
        entry.description.as_deref(),
        Some("Benchmark long-term rate. Affects all asset valuations")
    );
    assert_eq!(entry.source_symbol.as_deref(), Some("DGS10"));
    assert_eq!(entry.unit, UnitType::Percent);
    assert_eq!(entry.source_url.as_deref(), Some("https://fred.stlouisfed.org/series/DGS10"));
    assert_eq!(entry.frequency.as_deref(), Some("Daily"));
    assert!(entry.has_history);
    assert!(registry.get_metadata("US_10Y").is_none());
    assert!(registry.get_metadata("").is_none());
    assert!(registry.get_metadata("us_10").is_none());
}

#[test]
fn lookup_takes_the_last_entry_of_a_slug() {
    let registry = Registry::from_entries(vec![
        entry("dup", SourceType::Fred, Category::Risk),
        entry("other", SourceType::Manual, Category::Global),
        entry("dup", SourceType::Tiingo, Category::Crypto),
    ]);
    let found = registry.get_metadata("dup").unwrap();
    assert_eq!(found.source, SourceType::Tiingo);
    assert_eq!(found.category, Category::Crypto);
    assert_eq!(registry.get_stats().total, 3);
    assert_eq!(registry.get_stats().fred, 1);
}

#[test]
fn selections_by_category_and_source() {
    let registry = Registry::standard();
    let housing: Vec<String> =
        registry.get_by_category(Category::RealEstate).into_iter().map(|m| m.slug).collect();
    assert_eq!(housing, vec!["case_shiller_index", "mortgage_30y", "housing_starts", "building_permits"]);
    let manual: Vec<String> =
        registry.get_by_source(SourceType::Manual).into_iter().map(|m| m.slug).collect();
    assert_eq!(manual, vec!["vxn", "skew"]);
    assert!(registry.get_by_source(SourceType::Glassnode).is_empty());
    assert!(registry.get_by_category(Category::KoreaMacro).is_empty());
    let empty = Registry::from_entries(Vec::new());
    assert!(empty.get_available_indicators().is_empty());
    assert_eq!(empty.get_stats().total, 0);
}

#[test]
fn calculators_are_registered_by_slug() {
    assert_eq!(Registry::get_calculator("buffett_indicator"), Some(Calculator::Buffett));
    assert_eq!(Registry::get_calculator("net_liquidity"), Some(Calculator::NetLiquidity));
    assert_eq!(Registry::get_calculator("yield_curve_10y_2y"), Some(Calculator::YieldCurve10Y2Y));
    assert_eq!(Registry::get_calculator("yield_curve_10y_3m"), Some(Calculator::YieldCurve10Y3M));
    assert_eq!(Registry::get_calculator("financial_stress"), Some(Calculator::FinancialStress));
    assert_eq!(Registry::get_calculator("copper_gold_ratio"), Some(Calculator::CopperGold));
    assert_eq!(Registry::get_calculator("gold_silver_ratio"), Some(Calculator::GoldSilver));
    assert_eq!(Registry::get_calculator("real_yield"), Some(Calculator::RealYield));
    assert_eq!(Registry::get_calculator("yield_gap"), Some(Calculator::YieldGap));
    assert_eq!(Registry::get_calculator("cp_bill_spread"), Some(Calculator::CommercialPaperSpread));
    assert_eq!(Registry::get_calculator("sofr_spread"), Some(Calculator::SofrSpread));
    assert_eq!(Registry::get_calculator("rule_of_20"), None);
    assert_eq!(Registry::get_calculator("vix_term_structure"), None);
    assert_eq!(Registry::get_calculator("us_10y"), None);
}

#[test]
fn every_calculated_entry_of_the_catalog_has_its_calculator() {
    let registry = Registry::standard();
    for entry in registry.get_by_source(SourceType::Calculated) {
        let calculator = Registry::get_calculator(&entry.slug).unwrap();
        assert_eq!(calculator.slug(), entry.slug);
    }
}

#[test]
fn calculators_declare_their_inputs_in_order() {
    assert_eq!(BuffettIndicator.required_inputs(), vec!["us_market_cap", "gdp"]);
    assert_eq!(GoldSilverRatio.required_inputs(), vec!["gold", "silver"]);
    assert_eq!(CopperGoldRatio.required_inputs(), vec!["copper", "gold"]);
    assert_eq!(FinancialStress.required_inputs(), vec!["stlfsi4"]);
    assert_eq!(NetLiquidity.required_inputs(), vec!["fed_balance_sheet", "treasury_tga", "fed_rrp"]);
    assert_eq!(CommercialPaperSpread.required_inputs(), vec!["cp_3m_rate", "us_3m"]);
    assert_eq!(SofrSpread.required_inputs(), vec!["sofr_30d", "fed_funds"]);
    assert_eq!(RealYield10Y.required_inputs(), vec!["us_10y", "breakeven_10y"]);
    assert_eq!(YieldCurve10Y2Y.required_inputs(), vec!["us_10y", "us_2y"]);
    assert_eq!(YieldCurve10Y3M.required_inputs(), vec!["us_10y", "us_3m"]);
    assert_eq!(YieldGap.required_inputs(), vec!["SP500PE12M", "us_10y"]);
    assert_eq!(RuleOf20.required_inputs(), vec!["SP500PE12M", "cpi"]);
    assert_eq!(VixTermStructure.required_inputs(), vec!["vix_3m", "vix"]);
    assert_eq!(NdxSpxRatio.required_inputs(), vec!["ndx", "spx"]);
    assert_eq!(Calculator::NetLiquidity.required_inputs(), NetLiquidity.required_inputs());
}

#[test]
fn calculators_carry_slug_and_name() {
    assert_eq!(BuffettIndicator.slug(), "buffett_indicator");
    assert_eq!(BuffettIndicator.name(), "Buffett Indicator (Market Cap / GDP)");
    assert_eq!(YieldCurve10Y2Y.slug(), "yield_curve_10y_2y");
    assert_eq!(YieldCurve10Y2Y.name(), "Yield Curve Spread (10Y - 2Y)");
    assert_eq!(RuleOf20.slug(), "rule_of_20");
    assert_eq!(VixTermStructure.name(), "VIX Term Structure");
    assert_eq!(NdxSpxRatio.slug(), "ndx_spx_ratio");
    assert_eq!(Calculator::SofrSpread.slug(), "sofr_spread");
    assert_eq!(Calculator::SofrSpread.name(), "SOFR - Fed Funds Spread");
    assert_eq!(Calculator::FinancialStress.name(), "St. Louis Fed Financial Stress Index");
}

#[test]
fn calculators_accept_their_number_of_inputs() {
    assert!(!BuffettIndicator.accepts_count(1));
    assert!(BuffettIndicator.accepts_count(2));
    assert!(BuffettIndicator.accepts_count(3));
    assert!(!FinancialStress.accepts_count(0));
    assert!(FinancialStress.accepts_count(1));
    assert!(!NetLiquidity.accepts_count(2));
    assert!(NetLiquidity.accepts_count(3));
    assert!(RuleOf20.accepts_count(2));
    assert!(!RuleOf20.accepts_count(3));
    assert!(!VixTermStructure.accepts_count(1));
    assert!(!NdxSpxRatio.accepts_count(3));
    assert_eq!(RuleOf20.refusal(), "Rule of 20 requires SP500PE12M and CPI");
    assert_eq!(NetLiquidity.refusal(), "Net Liquidity requires 3 inputs: Fed Assets, TGA, RRP");
}

#[test]
fn every_input_of_every_calculator_is_a_raw_entry_of_the_catalog() {
    let registry = Registry::standard();
    for entry in registry.get_by_source(SourceType::Calculated) {
        let calculator = Registry::get_calculator(&entry.slug).unwrap();
        for input in calculator.required_inputs() {
            let found = registry.get_metadata(input).unwrap();
            assert_eq!(found.slug, input);
            assert_ne!(found.source, SourceType::Calculated);
        }
    }
}

#[test]
fn standard_catalog_has_no_slug_twice() {
    let registry = Registry::standard();
    let all = registry.get_all_indicators();
    for (i, entry) in all.iter().enumerate() {
        assert!(all.iter().skip(i + 1).all(|other| other.slug != entry.slug));
        assert_eq!(registry.get_metadata(&entry.slug).unwrap().name, entry.name);
    }
}
