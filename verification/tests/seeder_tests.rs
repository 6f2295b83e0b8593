use indicator_sync::registry::{Category, IndicatorMetadata, Registry, SourceType, UnitType};
use indicator_sync::seeder::{
    category_to_string, default_indicator_name, is_listed, obsolete_slugs, refresh_interval_for,
    seed_rows, source_to_string, SeedRow,
};
use indicator_sync::staleness::parse_refresh_interval;

fn entry(slug: &str, name: &str, source: SourceType, category: Category) -> IndicatorMetadata {
    IndicatorMetadata {
        slug: slug.to_string(),
        name: name.to_string(),
        source,
        category,
        description: None,
        source_symbol: None,
        unit: UnitType::Index,
        source_url: None,
        frequency: None,
        has_history: true,
    }
}

#[test]
fn category_names() {
    assert_eq!(category_to_string(&Category::Valuation), "Valuation");
    assert_eq!(category_to_string(&Category::Liquidity), "Liquidity");
    assert_eq!(category_to_string(&Category::UsMacro), "US Macro");
    assert_eq!(category_to_string(&Category::UsStocks), "US Stocks");
    assert_eq!(category_to_string(&Category::KoreaMacro), "Korea Macro");
    assert_eq!(category_to_string(&Category::KoreaStocks), "Korea Stocks");
    assert_eq!(category_to_string(&Category::Crypto), "Crypto");
    assert_eq!(category_to_string(&Category::Commodities), "Commodities");
    assert_eq!(category_to_string(&Category::RealEstate), "Real Estate");
    assert_eq!(category_to_string(&Category::Global), "Global");
    assert_eq!(category_to_string(&Category::Risk), "Risk");
    assert_eq!(category_to_string(&Category::Technical), "Technical");
    assert_eq!(category_to_string(&Category::Internal), "Internal");
}

#[test]
fn source_names() {
    assert_eq!(source_to_string(&SourceType::Fred), "FRED");
    assert_eq!(source_to_string(&SourceType::Yahoo), "Yahoo");
    assert_eq!(source_to_string(&SourceType::Tiingo), "Tiingo");
    assert_eq!(source_to_string(&SourceType::Binance), "Binance");
    assert_eq!(source_to_string(&SourceType::Glassnode), "Glassnode");
    assert_eq!(source_to_string(&SourceType::Alternative), "Alternative");
    assert_eq!(source_to_string(&SourceType::Manual), "Manual");
    assert_eq!(source_to_string(&SourceType::Calculated), "Calculated");
}

#[test]
fn refresh_intervals_by_source() {
    assert_eq!(refresh_interval_for(&SourceType::Tiingo), "60m");
    assert_eq!(refresh_interval_for(&SourceType::Binance), "60m");
    assert_eq!(refresh_interval_for(&SourceType::Fred), "1440m");
    assert_eq!(refresh_interval_for(&SourceType::Calculated), "1440m");
    assert_eq!(refresh_interval_for(&SourceType::Manual), "1440m");
    assert_eq!(parse_refresh_interval(refresh_interval_for(&SourceType::Tiingo)), 60);
    assert_eq!(parse_refresh_interval(refresh_interval_for(&SourceType::Yahoo)), 1440);
}

#[test]
fn seed_rows_cover_every_entry() {
    let registry = Registry::from_entries(vec![
        entry("spx", "S&P 500", SourceType::Tiingo, Category::UsStocks),
        entry("cp_3m_rate", "3-Month Commercial Paper", SourceType::Fred, Category::Internal),
    ]);
    assert_eq!(
        seed_rows(&registry),
        vec![
            SeedRow {
                slug: "spx".to_string(),
                name: "S&P 500".to_string(),
                category: "US Stocks".to_string(),
                source: "Tiingo".to_string(),
                refresh_interval: "60m".to_string(),
            },
            SeedRow {
                slug: "cp_3m_rate".to_string(),
                name: "3-Month Commercial Paper".to_string(),
                category: "Internal".to_string(),
                source: "FRED".to_string(),
                refresh_interval: "1440m".to_string(),
            },
        ]
    );
    assert_eq!(seed_rows(&Registry::standard()).len(), 107);
}

#[test]
fn obsolete_slugs_are_those_the_catalog_does_not_list() {
    let registry = Registry::standard();
    let stored = vec![
        "us_10y".to_string(),
        "kimchi_premium".to_string(),
        "cp_3m_rate".to_string(),
        "US_10Y".to_string(),
        "upbit_btc_krw".to_string(),
    ];
    assert_eq!(obsolete_slugs(&registry, &stored), vec!["kimchi_premium", "US_10Y", "upbit_btc_krw"]);
    assert!(obsolete_slugs(&registry, &Vec::new()).is_empty());
    assert!(is_listed(&registry, "skew"));
    assert!(!is_listed(&registry, "skewed"));
}

#[test]
fn new_indicators_are_named_by_their_slug_in_upper_case() {
    assert_eq!(default_indicator_name("us_10y"), "US_10Y");
    assert_eq!(default_indicator_name("DGS10"), "DGS10");
    assert_eq!(default_indicator_name("straße"), "STRASSE");
    assert_eq!(default_indicator_name(""), "");
}
