//! The standard catalog: the indicators that the engine keeps fresh.

use vstd::prelude::*;
use crate::registry::{
    distinct_slugs,
    lemma_lookup_finds,
    lookup,
    Category,
    IndicatorMetadata,
    MetadataView,
    SourceType,
    UnitType,
};

verus! {

/// The content of a catalog entry with a description and full history.
pub open spec fn row(
    slug: Seq<char>,
    name: Seq<char>,
    source: SourceType,
    category: Category,
    description: Seq<char>,
    source_symbol: Option<Seq<char>>,
    unit: UnitType,
    source_url: Option<Seq<char>>,
    frequency: Option<Seq<char>>,
) -> MetadataView {
    MetadataView {
        slug,
        name,
        source,
        category,
        description: Some(description),
        source_symbol,
        unit,
        source_url,
        frequency,
        has_history: true,
    }
}

/// The characters of an optional text.
pub open spec fn text_of(text: Option<&str>) -> Option<Seq<char>> {
    match text {
        Some(s) => Some(s@),
        None => None,
    }
}

/// An owned copy of an optional text.
fn owned(text: Option<&str>) -> (r: Option<String>)
    ensures
        r.deep_view() == text_of(text),
{
    match text {
        Some(s) => Some(s.to_owned()),
        None => None,
    }
}

/// A catalog entry with a description and full history.
fn entry(
    slug: &str,
    name: &str,
    source: SourceType,
    category: Category,
    description: &str,
    source_symbol: Option<&str>,
    unit: UnitType,
    source_url: Option<&str>,
    frequency: Option<&str>,
) -> (r: IndicatorMetadata)
    ensures
        r@ == row(
            slug@,
            name@,
            source,
            category,
            description@,
            text_of(source_symbol),
            unit,
            text_of(source_url),
            text_of(frequency),
        ),
{
    IndicatorMetadata {
        slug: slug.to_owned(),
        name: name.to_owned(),
        source,
        category,
        description: Some(description.to_owned()),
        source_symbol: owned(source_symbol),
        unit,
        source_url: owned(source_url),
        frequency: owned(frequency),
        has_history: true,
    }
}

/// Indicators computed from other indicators.
pub open spec fn calculated_rows() -> Seq<MetadataView> {
    seq![
        row(
            "buffett_indicator"@,
            "Buffett Indicator"@,
            SourceType::Calculated,
            Category::Valuation,
            "Market Cap to GDP Ratio. >100% = overvalued"@,
            None,
            UnitType::Percent,
            None,
            Some("Daily"@),
        ),
        row(
            "yield_curve_10y_2y"@,
            "10Y-2Y Yield Curve"@,
            SourceType::Calculated,
            Category::UsMacro,
            "Spread between 10Y and 2Y Treasury. Negative = recession signal"@,
            None,
            UnitType::Percent,
            None,
            Some("Daily"@),
        ),
        row(
            "yield_curve_10y_3m"@,
            "10Y-3M Yield Curve"@,
            SourceType::Calculated,
            Category::UsMacro,
            "Spread between 10Y and 3M Treasury. More accurate recession predictor"@,
            None,
            UnitType::Percent,
            None,
            Some("Daily"@),
        ),
        row(
            "net_liquidity"@,
            "Net Liquidity"@,
            SourceType::Calculated,
            Category::Liquidity,
            "Fed Balance Sheet - TGA - RRP. Drives equity markets"@,
            None,
            UnitType::Dollars,
            None,
            Some("Weekly"@),
        ),
        row(
            "financial_stress"@,
            "Financial Stress Index"@,
            SourceType::Calculated,
            Category::Risk,
            "St. Louis Fed Financial Stress Index"@,
            None,
            UnitType::Index,
            Some("https://fred.stlouisfed.org/series/STLFSI4"@),
            Some("Weekly"@),
        ),
        row(
            "copper_gold_ratio"@,
            "Copper/Gold Ratio"@,
            SourceType::Calculated,
            Category::Global,
            "Economic health indicator. Rising = growth, Falling = risk-off"@,
            None,
            UnitType::Ratio,
            None,
            Some("Daily"@),
        ),
        row(
            "gold_silver_ratio"@,
            "Gold/Silver Ratio"@,
            SourceType::Calculated,
            Category::Commodities,
            "Safe haven demand. High = fear, Low = risk-on"@,
            None,
            UnitType::Ratio,
            None,
            Some("Daily"@),
        ),
        row(
            "real_yield"@,
            "Real Yield (10Y)"@,
            SourceType::Calculated,
            Category::UsMacro,
            "10Y Treasury - Breakeven Inflation"@,
            None,
            UnitType::Percent,
            Some("https://fred.stlouisfed.org/series/DFII10"@),
            Some("Daily"@),
        ),
        row(
            "yield_gap"@,
            "Yield Gap"@,
            SourceType::Calculated,
            Category::Valuation,
            "Earnings Yield (S&P 500) - 10Y Treasury Yield. >0 = Stocks Cheap, <0 = Stocks Expensive"@,
            None,
            UnitType::Percent,
            None,
            Some("Monthly"@),
        ),
        row(
            "cp_bill_spread"@,
            "Commercial Paper Spread"@,
            SourceType::Calculated,
            Category::Risk,
            "CP 3M - T-Bill 3M. Corporate funding stress (TED Spread alternative)"@,
            None,
            UnitType::Percent,
            None,
            Some("Daily"@),
        ),
        row(
            "sofr_spread"@,
            "SOFR - Fed Funds"@,
            SourceType::Calculated,
            Category::Liquidity,
            "Repo market stress indicator. Positive = collateral scarcity or stress"@,
            None,
            UnitType::Percent,
            None,
            Some("Daily"@),
        ),
    ]
}

fn push_calculated(entries: &mut Vec<IndicatorMetadata>)
    ensures
        final(entries).deep_view() == old(entries).deep_view() + calculated_rows(),
{
    entries.push(
        entry(
            "buffett_indicator",
            "Buffett Indicator",
            SourceType::Calculated,
            Category::Valuation,
            "Market Cap to GDP Ratio. >100% = overvalued",
            None,
            UnitType::Percent,
            None,
            Some("Daily"),
        ),
    );
    entries.push(
        entry(
            "yield_curve_10y_2y",
            "10Y-2Y Yield Curve",
            SourceType::Calculated,
            Category::UsMacro,
            "Spread between 10Y and 2Y Treasury. Negative = recession signal",
            None,
            UnitType::Percent,
            None,
            Some("Daily"),
        ),
    );
    entries.push(
        entry(
            "yield_curve_10y_3m",
            "10Y-3M Yield Curve",
            SourceType::Calculated,
            Category::UsMacro,
            "Spread between 10Y and 3M Treasury. More accurate recession predictor",
            None,
            UnitType::Percent,
            None,
            Some("Daily"),
        ),
    );
    entries.push(
        entry(
            "net_liquidity",
            "Net Liquidity",
            SourceType::Calculated,
            Category::Liquidity,
            "Fed Balance Sheet - TGA - RRP. Drives equity markets",
            None,
            UnitType::Dollars,
            None,
            Some("Weekly"),
        ),
    );
    entries.push(
        entry(
            "financial_stress",
            "Financial Stress Index",
            SourceType::Calculated,
            Category::Risk,
            "St. Louis Fed Financial Stress Index",
            None,
            UnitType::Index,
            Some("https://fred.stlouisfed.org/series/STLFSI4"),
            Some("Weekly"),
        ),
    );
    entries.push(
        entry(
            "copper_gold_ratio",
            "Copper/Gold Ratio",
            SourceType::Calculated,
            Category::Global,
            "Economic health indicator. Rising = growth, Falling = risk-off",
            None,
            UnitType::Ratio,
            None,
            Some("Daily"),
        ),
    );
    entries.push(
        entry(
            "gold_silver_ratio",
            "Gold/Silver Ratio",
            SourceType::Calculated,
            Category::Commodities,
            "Safe haven demand. High = fear, Low = risk-on",
            None,
            UnitType::Ratio,
            None,
            Some("Daily"),
        ),
    );
    entries.push(
        entry(
            "real_yield",
            "Real Yield (10Y)",
            SourceType::Calculated,
            Category::UsMacro,
            "10Y Treasury - Breakeven Inflation",
            None,
            UnitType::Percent,
            Some("https://fred.stlouisfed.org/series/DFII10"),
            Some("Daily"),
        ),
    );
    entries.push(
        entry(
            "yield_gap",
            "Yield Gap",
            SourceType::Calculated,
            Category::Valuation,
            "Earnings Yield (S&P 500) - 10Y Treasury Yield. >0 = Stocks Cheap, <0 = Stocks Expensive",
            None,
            UnitType::Percent,
            None,
            Some("Monthly"),
        ),
    );
    entries.push(
        entry(
            "cp_bill_spread",
            "Commercial Paper Spread",
            SourceType::Calculated,
            Category::Risk,
            "CP 3M - T-Bill 3M. Corporate funding stress (TED Spread alternative)",
            None,
            UnitType::Percent,
            None,
            Some("Daily"),
        ),
    );
    entries.push(
        entry(
            "sofr_spread",
            "SOFR - Fed Funds",
            SourceType::Calculated,
            Category::Liquidity,
            "Repo market stress indicator. Positive = collateral scarcity or stress",
            None,
            UnitType::Percent,
            None,
            Some("Daily"),
        ),
    );
    assert(entries.deep_view() =~= old(entries).deep_view() + calculated_rows());
}

/// Valuation inputs from FRED.
pub open spec fn fred_valuation_rows() -> Seq<MetadataView> {
    seq![
        row(
            "us_market_cap"@,
            "US Total Market Cap"@,
            SourceType::Fred,
            Category::Valuation,
            "Total market value of US corporate equities (Quarterly)"@,
            Some("NCBEILQ027S"@),
            UnitType::Millions,
            Some("https://fred.stlouisfed.org/series/NCBEILQ027S"@),
            Some("Quarterly"@),
        ),
    ]
}

fn push_fred_valuation(entries: &mut Vec<IndicatorMetadata>)
    ensures
        final(entries).deep_view() == old(entries).deep_view() + fred_valuation_rows(),
{
    entries.push(
        entry(
            "us_market_cap",
            "US Total Market Cap",
            SourceType::Fred,
            Category::Valuation,
            "Total market value of US corporate equities (Quarterly)",
            Some("NCBEILQ027S"),
            UnitType::Millions,
            Some("https://fred.stlouisfed.org/series/NCBEILQ027S"),
            Some("Quarterly"),
        ),
    );
    assert(entries.deep_view() =~= old(entries).deep_view() + fred_valuation_rows());
}

/// Treasury yields and policy rates from FRED.
pub open spec fn fred_rates_rows() -> Seq<MetadataView> {
    seq![
        row(
            "us_10y"@,
            "10-Year Treasury Yield"@,
            SourceType::Fred,
            Category::UsMacro,
            "Benchmark long-term rate. Affects all asset valuations"@,
            Some("DGS10"@),
            UnitType::Percent,
            Some("https://fred.stlouisfed.org/series/DGS10"@),
            Some("Daily"@),
        ),
        row(
            "us_2y"@,
            "2-Year Treasury Yield"@,
            SourceType::Fred,
            Category::UsMacro,
            "Fed policy expectations proxy"@,
            Some("DGS2"@),
            UnitType::Percent,
            Some("https://fred.stlouisfed.org/series/DGS2"@),
            Some("Daily"@),
        ),
        row(
            "us_3m"@,
            "3-Month Treasury Yield"@,
            SourceType::Fred,
            Category::UsMacro,
            "Risk-free rate benchmark"@,
            Some("DGS3MO"@),
            UnitType::Percent,
            Some("https://fred.stlouisfed.org/series/DGS3MO"@),
            Some("Daily"@),
        ),
        row(
            "us_30y"@,
            "30-Year Treasury Yield"@,
            SourceType::Fred,
            Category::UsMacro,
            "Long-term inflation expectations"@,
            Some("DGS30"@),
            UnitType::Percent,
            Some("https://fred.stlouisfed.org/series/DGS30"@),
            Some("Daily"@),
        ),
        row(
            "us_5y"@,
            "5-Year Treasury Yield"@,
            SourceType::Fred,
            Category::UsMacro,
            "Medium-term rate"@,
            Some("DGS5"@),
            UnitType::Percent,
            Some("https://fred.stlouisfed.org/series/DGS5"@),
            Some("Daily"@),
        ),
        row(
            "us_1y"@,
            "1-Year Treasury Yield"@,
            SourceType::Fred,
            Category::UsMacro,
            "Short-term rate"@,
            Some("DGS1"@),
            UnitType::Percent,
            Some("https://fred.stlouisfed.org/series/DGS1"@),
            Some("Daily"@),
        ),
        row(
            "tips_10y"@,
            "10-Year TIPS Yield"@,
            SourceType::Fred,
            Category::UsMacro,
            "Real interest rate (inflation-protected)"@,
            Some("DFII10"@),
            UnitType::Percent,
            Some("https://fred.stlouisfed.org/series/DFII10"@),
            Some("Daily"@),
        ),
        row(
            "breakeven_10y"@,
            "10Y Breakeven Inflation"@,
            SourceType::Fred,
            Category::UsMacro,
            "Market's inflation expectation"@,
            Some("T10YIE"@),
            UnitType::Percent,
            Some("https://fred.stlouisfed.org/series/T10YIE"@),
            Some("Daily"@),
        ),
        row(
            "fed_funds"@,
            "Fed Funds Rate"@,
            SourceType::Fred,
            Category::UsMacro,
            "Federal Reserve policy rate"@,
            Some("FEDFUNDS"@),
            UnitType::Percent,
            Some("https://fred.stlouisfed.org/series/FEDFUNDS"@),
            Some("Daily"@),
        ),
        row(
            "cp_3m_rate"@,
            "3-Month Commercial Paper"@,
            SourceType::Fred,
            Category::Internal,
            "3-Month AA Financial Commercial Paper Rate"@,
            Some("CPF3M"@),
            UnitType::Percent,
            Some("https://fred.stlouisfed.org/series/CPF3M"@),
            Some("Daily"@),
        ),
        row(
            "sofr_30d"@,
            "SOFR (30-Day Avg)"@,
            SourceType::Fred,
            Category::Internal,
            "Secured Overnight Financing Rate (30-Day Average)"@,
            Some("SOFR30DAYAVG"@),
            UnitType::Percent,
            Some("https://fred.stlouisfed.org/series/SOFR30DAYAVG"@),
            Some("Daily"@),
        ),
    ]
}

fn push_fred_rates(entries: &mut Vec<IndicatorMetadata>)
    ensures
        final(entries).deep_view() == old(entries).deep_view() + fred_rates_rows(),
{
    entries.push(
        entry(
            "us_10y",
            "10-Year Treasury Yield",
            SourceType::Fred,
            Category::UsMacro,
            "Benchmark long-term rate. Affects all asset valuations",
            Some("DGS10"),
            UnitType::Percent,
            Some("https://fred.stlouisfed.org/series/DGS10"),
            Some("Daily"),
        ),
    );
    entries.push(
        entry(
            "us_2y",
            "2-Year Treasury Yield",
            SourceType::Fred,
            Category::UsMacro,
            "Fed policy expectations proxy",
            Some("DGS2"),
            UnitType::Percent,
            Some("https://fred.stlouisfed.org/series/DGS2"),
            Some("Daily"),
        ),
    );
    entries.push(
        entry(
            "us_3m",
            "3-Month Treasury Yield",
            SourceType::Fred,
            Category::UsMacro,
            "Risk-free rate benchmark",
            Some("DGS3MO"),
            UnitType::Percent,
            Some("https://fred.stlouisfed.org/series/DGS3MO"),
            Some("Daily"),
        ),
    );
    entries.push(
        entry(
            "us_30y",
            "30-Year Treasury Yield",
            SourceType::Fred,
            Category::UsMacro,
            "Long-term inflation expectations",
            Some("DGS30"),
            UnitType::Percent,
            Some("https://fred.stlouisfed.org/series/DGS30"),
            Some("Daily"),
        ),
    );
    entries.push(
        entry(
            "us_5y",
            "5-Year Treasury Yield",
            SourceType::Fred,
            Category::UsMacro,
            "Medium-term rate",
            Some("DGS5"),
            UnitType::Percent,
            Some("https://fred.stlouisfed.org/series/DGS5"),
            Some("Daily"),
        ),
    );
    entries.push(
        entry(
            "us_1y",
            "1-Year Treasury Yield",
            SourceType::Fred,
            Category::UsMacro,
            "Short-term rate",
            Some("DGS1"),
            UnitType::Percent,
            Some("https://fred.stlouisfed.org/series/DGS1"),
            Some("Daily"),
        ),
    );
    entries.push(
        entry(
            "tips_10y",
            "10-Year TIPS Yield",
            SourceType::Fred,
            Category::UsMacro,
            "Real interest rate (inflation-protected)",
            Some("DFII10"),
            UnitType::Percent,
            Some("https://fred.stlouisfed.org/series/DFII10"),
            Some("Daily"),
        ),
    );
    entries.push(
        entry(
            "breakeven_10y",
            "10Y Breakeven Inflation",
            SourceType::Fred,
            Category::UsMacro,
            "Market's inflation expectation",
            Some("T10YIE"),
            UnitType::Percent,
            Some("https://fred.stlouisfed.org/series/T10YIE"),
            Some("Daily"),
        ),
    );
    entries.push(
        entry(
            "fed_funds",
            "Fed Funds Rate",
            SourceType::Fred,
            Category::UsMacro,
            "Federal Reserve policy rate",
            Some("FEDFUNDS"),
            UnitType::Percent,
            Some("https://fred.stlouisfed.org/series/FEDFUNDS"),
            Some("Daily"),
        ),
    );
    entries.push(
        entry(
            "cp_3m_rate",
            "3-Month Commercial Paper",
            SourceType::Fred,
            Category::Internal,
            "3-Month AA Financial Commercial Paper Rate",
            Some("CPF3M"),
            UnitType::Percent,
            Some("https://fred.stlouisfed.org/series/CPF3M"),
            Some("Daily"),
        ),
    );
    entries.push(
        entry(
            "sofr_30d",
            "SOFR (30-Day Avg)",
            SourceType::Fred,
            Category::Internal,
            "Secured Overnight Financing Rate (30-Day Average)",
            Some("SOFR30DAYAVG"),
            UnitType::Percent,
            Some("https://fred.stlouisfed.org/series/SOFR30DAYAVG"),
            Some("Daily"),
        ),
    );
    assert(entries.deep_view() =~= old(entries).deep_view() + fred_rates_rows());
}

/// Employment figures from FRED.
pub open spec fn fred_employment_rows() -> Seq<MetadataView> {
    seq![
        row(
            "unrate"@,
            "Unemployment Rate"@,
            SourceType::Fred,
            Category::UsMacro,
            "US unemployment rate. <4% = tight labor market"@,
            Some("UNRATE"@),
            UnitType::Percent,
            Some("https://fred.stlouisfed.org/series/UNRATE"@),
            Some("Monthly"@),
        ),
        row(
            "nfp"@,
            "Nonfarm Payrolls"@,
            SourceType::Fred,
            Category::UsMacro,
            "Monthly job additions. Key employment indicator"@,
            Some("PAYEMS"@),
            UnitType::Thousands,
            Some("https://fred.stlouisfed.org/series/PAYEMS"@),
            Some("Monthly"@),
        ),
        row(
            "jolts"@,
            "Job Openings (JOLTS)"@,
            SourceType::Fred,
            Category::UsMacro,
            "Labor demand. Falling = economic slowdown signal"@,
            Some("JTSJOL"@),
            UnitType::Thousands,
            Some("https://fred.stlouisfed.org/series/JTSJOL"@),
            Some("Monthly"@),
        ),
        row(
            "initial_claims"@,
            "Initial Jobless Claims"@,
            SourceType::Fred,
            Category::UsMacro,
            "Weekly unemployment filings. Rising = recession signal"@,
            Some("ICSA"@),
            UnitType::Thousands,
            Some("https://fred.stlouisfed.org/series/ICSA"@),
            Some("Weekly"@),
        ),
        row(
            "continued_claims"@,
            "Continued Claims"@,
            SourceType::Fred,
            Category::UsMacro,
            "Ongoing unemployment. Lagging indicator"@,
            Some("CCSA"@),
            UnitType::Thousands,
            Some("https://fred.stlouisfed.org/series/CCSA"@),
            Some("Weekly"@),
        ),
        row(
            "labor_force_part"@,
            "Labor Force Participation"@,
            SourceType::Fred,
            Category::UsMacro,
            "Working-age population in workforce"@,
            Some("CIVPART"@),
            UnitType::Percent,
            Some("https://fred.stlouisfed.org/series/CIVPART"@),
            Some("Monthly"@),
        ),
        row(
            "u6_rate"@,
            "U-6 Unemployment Rate"@,
            SourceType::Fred,
            Category::UsMacro,
            "Broad unemployment including underemployed"@,
            Some("U6RATE"@),
            UnitType::Percent,
            Some("https://fred.stlouisfed.org/series/U6RATE"@),
            Some("Monthly"@),
        ),
    ]
}

fn push_fred_employment(entries: &mut Vec<IndicatorMetadata>)
    ensures
        final(entries).deep_view() == old(entries).deep_view() + fred_employment_rows(),
{
    entries.push(
        entry(
            "unrate",
            "Unemployment Rate",
            SourceType::Fred,
            Category::UsMacro,
            "US unemployment rate. <4% = tight labor market",
            Some("UNRATE"),
            UnitType::Percent,
            Some("https://fred.stlouisfed.org/series/UNRATE"),
            Some("Monthly"),
        ),
    );
    entries.push(
        entry(
            "nfp",
            "Nonfarm Payrolls",
            SourceType::Fred,
            Category::UsMacro,
            "Monthly job additions. Key employment indicator",
            Some("PAYEMS"),
            UnitType::Thousands,
            Some("https://fred.stlouisfed.org/series/PAYEMS"),
            Some("Monthly"),
        ),
    );
    entries.push(
        entry(
            "jolts",
            "Job Openings (JOLTS)",
            SourceType::Fred,
            Category::UsMacro,
            "Labor demand. Falling = economic slowdown signal",
            Some("JTSJOL"),
            UnitType::Thousands,
            Some("https://fred.stlouisfed.org/series/JTSJOL"),
            Some("Monthly"),
        ),
    );
    entries.push(
        entry(
            "initial_claims",
            "Initial Jobless Claims",
            SourceType::Fred,
            Category::UsMacro,
            "Weekly unemployment filings. Rising = recession signal",
            Some("ICSA"),
            UnitType::Thousands,
            Some("https://fred.stlouisfed.org/series/ICSA"),
            Some("Weekly"),
        ),
    );
    entries.push(
        entry(
            "continued_claims",
            "Continued Claims",
            SourceType::Fred,
            Category::UsMacro,
            "Ongoing unemployment. Lagging indicator",
            Some("CCSA"),
            UnitType::Thousands,
            Some("https://fred.stlouisfed.org/series/CCSA"),
            Some("Weekly"),
        ),
    );
    entries.push(
        entry(
            "labor_force_part",
            "Labor Force Participation",
            SourceType::Fred,
            Category::UsMacro,
            "Working-age population in workforce",
            Some("CIVPART"),
            UnitType::Percent,
            Some("https://fred.stlouisfed.org/series/CIVPART"),
            Some("Monthly"),
        ),
    );
    entries.push(
        entry(
            "u6_rate",
            "U-6 Unemployment Rate",
            SourceType::Fred,
            Category::UsMacro,
            "Broad unemployment including underemployed",
            Some("U6RATE"),
            UnitType::Percent,
            Some("https://fred.stlouisfed.org/series/U6RATE"),
            Some("Monthly"),
        ),
    );
    assert(entries.deep_view() =~= old(entries).deep_view() + fred_employment_rows());
}

/// Inflation and price figures from FRED.
pub open spec fn fred_inflation_rows() -> Seq<MetadataView> {
    seq![
        row(
            "cpi"@,
            "Consumer Price Index"@,
            SourceType::Fred,
            Category::UsMacro,
            "Headline inflation measure"@,
            Some("CPIAUCSL"@),
            UnitType::Index,
            Some("https://fred.stlouisfed.org/series/CPIAUCSL"@),
            Some("Monthly"@),
        ),
        row(
            "core_cpi"@,
            "Core CPI (ex Food/Energy)"@,
            SourceType::Fred,
            Category::UsMacro,
            "Underlying inflation trend"@,
            Some("CPILFESL"@),
            UnitType::Index,
            Some("https://fred.stlouisfed.org/series/CPILFESL"@),
            Some("Monthly"@),
        ),
        row(
            "pce"@,
            "PCE Price Index"@,
            SourceType::Fred,
            Category::UsMacro,
            "Fed's preferred inflation gauge"@,
            Some("PCEPI"@),
            UnitType::Index,
            Some("https://fred.stlouisfed.org/series/PCEPI"@),
            Some("Monthly"@),
        ),
        row(
            "core_pce"@,
            "Core PCE"@,
            SourceType::Fred,
            Category::UsMacro,
            "Fed's primary inflation target (2%)"@,
            Some("PCEPILFE"@),
            UnitType::Index,
            Some("https://fred.stlouisfed.org/series/PCEPILFE"@),
            Some("Monthly"@),
        ),
        row(
            "ppi"@,
            "Producer Price Index"@,
            SourceType::Fred,
            Category::UsMacro,
            "Wholesale inflation (leads CPI)"@,
            Some("PPIACO"@),
            UnitType::Index,
            Some("https://fred.stlouisfed.org/series/PPIACO"@),
            Some("Monthly"@),
        ),
        row(
            "import_prices"@,
            "Import Price Index"@,
            SourceType::Fred,
            Category::UsMacro,
            "Import inflation"@,
            Some("IR"@),
            UnitType::Index,
            Some("https://fred.stlouisfed.org/series/IR"@),
            Some("Monthly"@),
        ),
    ]
}

fn push_fred_inflation(entries: &mut Vec<IndicatorMetadata>)
    ensures
        final(entries).deep_view() == old(entries).deep_view() + fred_inflation_rows(),
{
    entries.push(
        entry(
            "cpi",
            "Consumer Price Index",
            SourceType::Fred,
            Category::UsMacro,
            "Headline inflation measure",
            Some("CPIAUCSL"),
            UnitType::Index,
            Some("https://fred.stlouisfed.org/series/CPIAUCSL"),
            Some("Monthly"),
        ),
    );
    entries.push(
        entry(
            "core_cpi",
            "Core CPI (ex Food/Energy)",
            SourceType::Fred,
            Category::UsMacro,
            "Underlying inflation trend",
            Some("CPILFESL"),
            UnitType::Index,
            Some("https://fred.stlouisfed.org/series/CPILFESL"),
            Some("Monthly"),
        ),
    );
    entries.push(
        entry(
            "pce",
            "PCE Price Index",
            SourceType::Fred,
            Category::UsMacro,
            "Fed's preferred inflation gauge",
            Some("PCEPI"),
            UnitType::Index,
            Some("https://fred.stlouisfed.org/series/PCEPI"),
            Some("Monthly"),
        ),
    );
    entries.push(
        entry(
            "core_pce",
            "Core PCE",
            SourceType::Fred,
            Category::UsMacro,
            "Fed's primary inflation target (2%)",
            Some("PCEPILFE"),
            UnitType::Index,
            Some("https://fred.stlouisfed.org/series/PCEPILFE"),
            Some("Monthly"),
        ),
    );
    entries.push(
        entry(
            "ppi",
            "Producer Price Index",
            SourceType::Fred,
            Category::UsMacro,
            "Wholesale inflation (leads CPI)",
            Some("PPIACO"),
            UnitType::Index,
            Some("https://fred.stlouisfed.org/series/PPIACO"),
            Some("Monthly"),
        ),
    );
    entries.push(
        entry(
            "import_prices",
            "Import Price Index",
            SourceType::Fred,
            Category::UsMacro,
            "Import inflation",
            Some("IR"),
            UnitType::Index,
            Some("https://fred.stlouisfed.org/series/IR"),
            Some("Monthly"),
        ),
    );
    assert(entries.deep_view() =~= old(entries).deep_view() + fred_inflation_rows());
}

/// Output and growth figures from FRED.
pub open spec fn fred_growth_rows() -> Seq<MetadataView> {
    seq![
        row(
            "gdp"@,
            "Gross Domestic Product"@,
            SourceType::Fred,
            Category::UsMacro,
            "US economic output (nominal)"@,
            Some("GDP"@),
            UnitType::Billions,
            Some("https://fred.stlouisfed.org/series/GDP"@),
            Some("Quarterly"@),
        ),
        row(
            "real_gdp"@,
            "Real GDP"@,
            SourceType::Fred,
            Category::UsMacro,
            "Inflation-adjusted GDP"@,
            Some("GDPC1"@),
            UnitType::Billions,
            Some("https://fred.stlouisfed.org/series/GDPC1"@),
            Some("Quarterly"@),
        ),
        row(
            "gdp_growth"@,
            "GDP Growth Rate"@,
            SourceType::Fred,
            Category::UsMacro,
            "Quarterly GDP growth"@,
            Some("A191RL1Q225SBEA"@),
            UnitType::Percent,
            Some("https://fred.stlouisfed.org/series/A191RL1Q225SBEA"@),
            Some("Quarterly"@),
        ),
        row(
            "industrial_prod"@,
            "Industrial Production"@,
            SourceType::Fred,
            Category::UsMacro,
            "Manufacturing output index"@,
            Some("INDPRO"@),
            UnitType::Index,
            Some("https://fred.stlouisfed.org/series/INDPRO"@),
            Some("Monthly"@),
        ),
        row(
            "capacity_util"@,
            "Capacity Utilization"@,
            SourceType::Fred,
            Category::UsMacro,
            "Factory usage rate. High = inflation pressure"@,
            Some("TCU"@),
            UnitType::Percent,
            Some("https://fred.stlouisfed.org/series/TCU"@),
            Some("Monthly"@),
        ),
        row(
            "ism_pmi"@,
            "ISM Manufacturing PMI"@,
            SourceType::Fred,
            Category::UsMacro,
            "Leading economic indicator. >50 = expansion, <50 = contraction"@,
            Some("MANEMP"@),
            UnitType::Index,
            Some("https://fred.stlouisfed.org/series/MANEMP"@),
            Some("Monthly"@),
        ),
    ]
}

fn push_fred_growth(entries: &mut Vec<IndicatorMetadata>)
    ensures
        final(entries).deep_view() == old(entries).deep_view() + fred_growth_rows(),
{
    entries.push(
        entry(
            "gdp",
            "Gross Domestic Product",
            SourceType::Fred,
            Category::UsMacro,
            "US economic output (nominal)",
            Some("GDP"),
            UnitType::Billions,
            Some("https://fred.stlouisfed.org/series/GDP"),
            Some("Quarterly"),
        ),
    );
    entries.push(
        entry(
            "real_gdp",
            "Real GDP",
            SourceType::Fred,
            Category::UsMacro,
            "Inflation-adjusted GDP",
            Some("GDPC1"),
            UnitType::Billions,
            Some("https://fred.stlouisfed.org/series/GDPC1"),
            Some("Quarterly"),
        ),
    );
    entries.push(
        entry(
            "gdp_growth",
            "GDP Growth Rate",
            SourceType::Fred,
            Category::UsMacro,
            "Quarterly GDP growth",
            Some("A191RL1Q225SBEA"),
            UnitType::Percent,
            Some("https://fred.stlouisfed.org/series/A191RL1Q225SBEA"),
            Some("Quarterly"),
        ),
    );
    entries.push(
        entry(
            "industrial_prod",
            "Industrial Production",
            SourceType::Fred,
            Category::UsMacro,
            "Manufacturing output index",
            Some("INDPRO"),
            UnitType::Index,
            Some("https://fred.stlouisfed.org/series/INDPRO"),
            Some("Monthly"),
        ),
    );
    entries.push(
        entry(
            "capacity_util",
            "Capacity Utilization",
            SourceType::Fred,
            Category::UsMacro,
            "Factory usage rate. High = inflation pressure",
            Some("TCU"),
            UnitType::Percent,
            Some("https://fred.stlouisfed.org/series/TCU"),
            Some("Monthly"),
        ),
    );
    entries.push(
        entry(
            "ism_pmi",
            "ISM Manufacturing PMI",
            SourceType::Fred,
            Category::UsMacro,
            "Leading economic indicator. >50 = expansion, <50 = contraction",
            Some("MANEMP"),
            UnitType::Index,
            Some("https://fred.stlouisfed.org/series/MANEMP"),
            Some("Monthly"),
        ),
    );
    assert(entries.deep_view() =~= old(entries).deep_view() + fred_growth_rows());
}

/// Consumer and retail figures from FRED.
pub open spec fn fred_consumer_rows() -> Seq<MetadataView> {
    seq![
        row(
            "retail_sales"@,
            "Retail Sales"@,
            SourceType::Fred,
            Category::UsMacro,
            "Consumer spending indicator"@,
            Some("RSXFS"@),
            UnitType::Millions,
            Some("https://fred.stlouisfed.org/series/RSXFS"@),
            Some("Monthly"@),
        ),
        row(
            "consumer_sentiment"@,
            "Michigan Consumer Sentiment"@,
            SourceType::Fred,
            Category::UsMacro,
            "Consumer confidence survey"@,
            Some("UMCSENT"@),
            UnitType::Index,
            Some("https://fred.stlouisfed.org/series/UMCSENT"@),
            Some("Monthly"@),
        ),
        row(
            "personal_income"@,
            "Personal Income"@,
            SourceType::Fred,
            Category::UsMacro,
            "Household income"@,
            Some("PI"@),
            UnitType::Billions,
            Some("https://fred.stlouisfed.org/series/PI"@),
            Some("Monthly"@),
        ),
        row(
            "personal_spending"@,
            "Personal Spending"@,
            SourceType::Fred,
            Category::UsMacro,
            "Consumer expenditures"@,
            Some("PCE"@),
            UnitType::Billions,
            Some("https://fred.stlouisfed.org/series/PCE"@),
            Some("Monthly"@),
        ),
        row(
            "savings_rate"@,
            "Personal Savings Rate"@,
            SourceType::Fred,
            Category::UsMacro,
            "Savings as % of income"@,
            Some("PSAVERT"@),
            UnitType::Percent,
            Some("https://fred.stlouisfed.org/series/PSAVERT"@),
            Some("Monthly"@),
        ),
    ]
}

fn push_fred_consumer(entries: &mut Vec<IndicatorMetadata>)
    ensures
        final(entries).deep_view() == old(entries).deep_view() + fred_consumer_rows(),
{
    entries.push(
        entry(
            "retail_sales",
            "Retail Sales",
            SourceType::Fred,
            Category::UsMacro,
            "Consumer spending indicator",
            Some("RSXFS"),
            UnitType::Millions,
            Some("https://fred.stlouisfed.org/series/RSXFS"),
            Some("Monthly"),
        ),
    );
    entries.push(
        entry(
            "consumer_sentiment",
            "Michigan Consumer Sentiment",
            SourceType::Fred,
            Category::UsMacro,
            "Consumer confidence survey",
            Some("UMCSENT"),
            UnitType::Index,
            Some("https://fred.stlouisfed.org/series/UMCSENT"),
            Some("Monthly"),
        ),
    );
    entries.push(
        entry(
            "personal_income",
            "Personal Income",
            SourceType::Fred,
            Category::UsMacro,
            "Household income",
            Some("PI"),
            UnitType::Billions,
            Some("https://fred.stlouisfed.org/series/PI"),
            Some("Monthly"),
        ),
    );
    entries.push(
        entry(
            "personal_spending",
            "Personal Spending",
            SourceType::Fred,
            Category::UsMacro,
            "Consumer expenditures",
            Some("PCE"),
            UnitType::Billions,
            Some("https://fred.stlouisfed.org/series/PCE"),
            Some("Monthly"),
        ),
    );
    entries.push(
        entry(
            "savings_rate",
            "Personal Savings Rate",
            SourceType::Fred,
            Category::UsMacro,
            "Savings as % of income",
            Some("PSAVERT"),
            UnitType::Percent,
            Some("https://fred.stlouisfed.org/series/PSAVERT"),
            Some("Monthly"),
        ),
    );
    assert(entries.deep_view() =~= old(entries).deep_view() + fred_consumer_rows());
}

/// Central bank balance sheet and liquidity figures from FRED.
pub open spec fn fred_liquidity_rows() -> Seq<MetadataView> {
    seq![
        row(
            "fed_balance_sheet"@,
            "Fed Balance Sheet"@,
            SourceType::Fred,
            Category::Liquidity,
            "Total Fed assets. QE increases, QT decreases"@,
            Some("WALCL"@),
            UnitType::Millions,
            Some("https://fred.stlouisfed.org/series/WALCL"@),
            Some("Weekly"@),
        ),
        row(
            "treasury_tga"@,
            "Treasury General Account"@,
            SourceType::Fred,
            Category::Liquidity,
            "Government cash balance. Drains liquidity when rising"@,
            Some("WTREGEN"@),
            UnitType::Millions,
            Some("https://fred.stlouisfed.org/series/WTREGEN"@),
            Some("Weekly"@),
        ),
        row(
            "fed_rrp"@,
            "Reverse Repo (RRP)"@,
            SourceType::Fred,
            Category::Liquidity,
            "Overnight RRP. Absorbs excess liquidity"@,
            Some("RRPONTSYD"@),
            UnitType::Billions,
            Some("https://fred.stlouisfed.org/series/RRPONTSYD"@),
            Some("Daily"@),
        ),
        row(
            "m2"@,
            "M2 Money Supply"@,
            SourceType::Fred,
            Category::Liquidity,
            "Broad money supply"@,
            Some("M2SL"@),
            UnitType::Billions,
            Some("https://fred.stlouisfed.org/series/M2SL"@),
            Some("Monthly"@),
        ),
        row(
            "m1"@,
            "M1 Money Supply"@,
            SourceType::Fred,
            Category::Liquidity,
            "Narrow money (cash + checking)"@,
            Some("M1SL"@),
            UnitType::Billions,
            Some("https://fred.stlouisfed.org/series/M1SL"@),
            Some("Monthly"@),
        ),
        row(
            "monetary_base"@,
            "Monetary Base"@,
            SourceType::Fred,
            Category::Liquidity,
            "Reserve money"@,
            Some("BOGMBASE"@),
            UnitType::Billions,
            Some("https://fred.stlouisfed.org/series/BOGMBASE"@),
            Some("Monthly"@),
        ),
    ]
}

fn push_fred_liquidity(entries: &mut Vec<IndicatorMetadata>)
    ensures
        final(entries).deep_view() == old(entries).deep_view() + fred_liquidity_rows(),
{
    entries.push(
        entry(
            "fed_balance_sheet",
            "Fed Balance Sheet",
            SourceType::Fred,
            Category::Liquidity,
            "Total Fed assets. QE increases, QT decreases",
            Some("WALCL"),
            UnitType::Millions,
            Some("https://fred.stlouisfed.org/series/WALCL"),
            Some("Weekly"),
        ),
    );
    entries.push(
        entry(
            "treasury_tga",
            "Treasury General Account",
            SourceType::Fred,
            Category::Liquidity,
            "Government cash balance. Drains liquidity when rising",
            Some("WTREGEN"),
            UnitType::Millions,
            Some("https://fred.stlouisfed.org/series/WTREGEN"),
            Some("Weekly"),
        ),
    );
    entries.push(
        entry(
            "fed_rrp",
            "Reverse Repo (RRP)",
            SourceType::Fred,
            Category::Liquidity,
            "Overnight RRP. Absorbs excess liquidity",
            Some("RRPONTSYD"),
            UnitType::Billions,
            Some("https://fred.stlouisfed.org/series/RRPONTSYD"),
            Some("Daily"),
        ),
    );
    entries.push(
        entry(
            "m2",
            "M2 Money Supply",
            SourceType::Fred,
            Category::Liquidity,
            "Broad money supply",
            Some("M2SL"),
            UnitType::Billions,
            Some("https://fred.stlouisfed.org/series/M2SL"),
            Some("Monthly"),
        ),
    );
    entries.push(
        entry(
            "m1",
            "M1 Money Supply",
            SourceType::Fred,
            Category::Liquidity,
            "Narrow money (cash + checking)",
            Some("M1SL"),
            UnitType::Billions,
            Some("https://fred.stlouisfed.org/series/M1SL"),
            Some("Monthly"),
        ),
    );
    entries.push(
        entry(
            "monetary_base",
            "Monetary Base",
            SourceType::Fred,
            Category::Liquidity,
            "Reserve money",
            Some("BOGMBASE"),
            UnitType::Billions,
            Some("https://fred.stlouisfed.org/series/BOGMBASE"),
            Some("Monthly"),
        ),
    );
    assert(entries.deep_view() =~= old(entries).deep_view() + fred_liquidity_rows());
}

/// Credit conditions and spreads from FRED.
pub open spec fn fred_credit_rows() -> Seq<MetadataView> {
    seq![
        row(
            "hy_spread"@,
            "High Yield Spread"@,
            SourceType::Fred,
            Category::Risk,
            "Junk bond risk premium. Rising = credit stress"@,
            Some("BAMLH0A0HYM2"@),
            UnitType::Percent,
            Some("https://fred.stlouisfed.org/series/BAMLH0A0HYM2"@),
            Some("Daily"@),
        ),
        row(
            "ig_spread"@,
            "IG Corporate Spread"@,
            SourceType::Fred,
            Category::Risk,
            "Investment grade bond spread"@,
            Some("BAMLC0A0CM"@),
            UnitType::Percent,
            Some("https://fred.stlouisfed.org/series/BAMLC0A0CM"@),
            Some("Daily"@),
        ),
        row(
            "credit_spread"@,
            "BBB-AAA Spread"@,
            SourceType::Fred,
            Category::Risk,
            "Credit quality spread"@,
            Some("BAA10Y"@),
            UnitType::Percent,
            Some("https://fred.stlouisfed.org/series/BAA10Y"@),
            Some("Daily"@),
        ),
        row(
            "nfci"@,
            "Chicago Fed Conditions"@,
            SourceType::Fred,
            Category::Risk,
            "Financial conditions index. Negative = loose"@,
            Some("NFCI"@),
            UnitType::Index,
            Some("https://fred.stlouisfed.org/series/NFCI"@),
            Some("Weekly"@),
        ),
        row(
            "sloos"@,
            "Senior Loan Officer Survey"@,
            SourceType::Fred,
            Category::Risk,
            "Bank lending standards. Tightening = recession signal"@,
            Some("DRTSCILM"@),
            UnitType::Index,
            Some("https://fred.stlouisfed.org/series/DRTSCILM"@),
            Some("Quarterly"@),
        ),
    ]
}

fn push_fred_credit(entries: &mut Vec<IndicatorMetadata>)
    ensures
        final(entries).deep_view() == old(entries).deep_view() + fred_credit_rows(),
{
    entries.push(
        entry(
            "hy_spread",
            "High Yield Spread",
            SourceType::Fred,
            Category::Risk,
            "Junk bond risk premium. Rising = credit stress",
            Some("BAMLH0A0HYM2"),
            UnitType::Percent,
            Some("https://fred.stlouisfed.org/series/BAMLH0A0HYM2"),
            Some("Daily"),
        ),
    );
    entries.push(
        entry(
            "ig_spread",
            "IG Corporate Spread",
            SourceType::Fred,
            Category::Risk,
            "Investment grade bond spread",
            Some("BAMLC0A0CM"),
            UnitType::Percent,
            Some("https://fred.stlouisfed.org/series/BAMLC0A0CM"),
            Some("Daily"),
        ),
    );
    entries.push(
        entry(
            "credit_spread",
            "BBB-AAA Spread",
            SourceType::Fred,
            Category::Risk,
            "Credit quality spread",
            Some("BAA10Y"),
            UnitType::Percent,
            Some("https://fred.stlouisfed.org/series/BAA10Y"),
            Some("Daily"),
        ),
    );
    entries.push(
        entry(
            "nfci",
            "Chicago Fed Conditions",
            SourceType::Fred,
            Category::Risk,
            "Financial conditions index. Negative = loose",
            Some("NFCI"),
            UnitType::Index,
            Some("https://fred.stlouisfed.org/series/NFCI"),
            Some("Weekly"),
        ),
    );
    entries.push(
        entry(
            "sloos",
            "Senior Loan Officer Survey",
            SourceType::Fred,
            Category::Risk,
            "Bank lending standards. Tightening = recession signal",
            Some("DRTSCILM"),
            UnitType::Index,
            Some("https://fred.stlouisfed.org/series/DRTSCILM"),
            Some("Quarterly"),
        ),
    );
    assert(entries.deep_view() =~= old(entries).deep_view() + fred_credit_rows());
}

/// Housing figures from FRED.
pub open spec fn fred_housing_rows() -> Seq<MetadataView> {
    seq![
        row(
            "case_shiller_index"@,
            "Case-Shiller Home Price"@,
            SourceType::Fred,
            Category::RealEstate,
            "US national home price index"@,
            Some("CSUSHPINSA"@),
            UnitType::Index,
            Some("https://fred.stlouisfed.org/series/CSUSHPINSA"@),
            Some("Monthly"@),
        ),
        row(
            "mortgage_30y"@,
            "30-Year Mortgage Rate"@,
            SourceType::Fred,
            Category::RealEstate,
            "Average mortgage rate"@,
            Some("MORTGAGE30US"@),
            UnitType::Percent,
            Some("https://fred.stlouisfed.org/series/MORTGAGE30US"@),
            Some("Weekly"@),
        ),
        row(
            "housing_starts"@,
            "Housing Starts"@,
            SourceType::Fred,
            Category::RealEstate,
            "New construction starts"@,
            Some("HOUST"@),
            UnitType::Thousands,
            Some("https://fred.stlouisfed.org/series/HOUST"@),
            Some("Monthly"@),
        ),
        row(
            "building_permits"@,
            "Building Permits"@,
            SourceType::Fred,
            Category::RealEstate,
            "Future construction indicator"@,
            Some("PERMIT"@),
            UnitType::Thousands,
            Some("https://fred.stlouisfed.org/series/PERMIT"@),
            Some("Monthly"@),
        ),
    ]
}

fn push_fred_housing(entries: &mut Vec<IndicatorMetadata>)
    ensures
        final(entries).deep_view() == old(entries).deep_view() + fred_housing_rows(),
{
    entries.push(
        entry(
            "case_shiller_index",
            "Case-Shiller Home Price",
            SourceType::Fred,
            Category::RealEstate,
            "US national home price index",
            Some("CSUSHPINSA"),
            UnitType::Index,
            Some("https://fred.stlouisfed.org/series/CSUSHPINSA"),
            Some("Monthly"),
        ),
    );
    entries.push(
        entry(
            "mortgage_30y",
            "30-Year Mortgage Rate",
            SourceType::Fred,
            Category::RealEstate,
            "Average mortgage rate",
            Some("MORTGAGE30US"),
            UnitType::Percent,
            Some("https://fred.stlouisfed.org/series/MORTGAGE30US"),
            Some("Weekly"),
        ),
    );
    entries.push(
        entry(
            "housing_starts",
            "Housing Starts",
            SourceType::Fred,
            Category::RealEstate,
            "New construction starts",
            Some("HOUST"),
            UnitType::Thousands,
            Some("https://fred.stlouisfed.org/series/HOUST"),
            Some("Monthly"),
        ),
    );
    entries.push(
        entry(
            "building_permits",
            "Building Permits",
            SourceType::Fred,
            Category::RealEstate,
            "Future construction indicator",
            Some("PERMIT"),
            UnitType::Thousands,
            Some("https://fred.stlouisfed.org/series/PERMIT"),
            Some("Monthly"),
        ),
    );
    assert(entries.deep_view() =~= old(entries).deep_view() + fred_housing_rows());
}

/// US equity indices from Tiingo.
pub open spec fn tiingo_us_indices_rows() -> Seq<MetadataView> {
    seq![
        row(
            "spx"@,
            "S&P 500"@,
            SourceType::Tiingo,
            Category::UsStocks,
            "US large-cap benchmark"@,
            Some("spy"@),
            UnitType::Index,
            Some("https://www.tiingo.com/spy"@),
            Some("Daily"@),
        ),
        row(
            "ndx"@,
            "Nasdaq 100"@,
            SourceType::Tiingo,
            Category::UsStocks,
            "Tech-heavy index"@,
            Some("qqq"@),
            UnitType::Index,
            Some("https://www.tiingo.com/qqq"@),
            Some("Daily"@),
        ),
        row(
            "djia"@,
            "Dow Jones Industrial"@,
            SourceType::Tiingo,
            Category::UsStocks,
            "30 blue-chip stocks"@,
            Some("dia"@),
            UnitType::Index,
            Some("https://www.tiingo.com/dia"@),
            Some("Daily"@),
        ),
        row(
            "russell_2000"@,
            "Russell 2000"@,
            SourceType::Tiingo,
            Category::UsStocks,
            "Small-cap benchmark"@,
            Some("iwm"@),
            UnitType::Index,
            Some("https://www.tiingo.com/iwm"@),
            Some("Daily"@),
        ),
        row(
            "vix"@,
            "VIX Volatility Index"@,
            SourceType::Fred,
            Category::Risk,
            "Fear gauge. >30 = high fear, <15 = complacency"@,
            Some("VIXCLS"@),
            UnitType::Index,
            Some("https://fred.stlouisfed.org/series/VIXCLS"@),
            Some("Daily"@),
        ),
        row(
            "vxn"@,
            "VXN (Nasdaq Volatility)"@,
            SourceType::Manual,
            Category::Risk,
            "Nasdaq volatility index (No free API available)"@,
            None,
            UnitType::Index,
            None,
            Some("Manual"@),
        ),
        row(
            "skew"@,
            "SKEW Index"@,
            SourceType::Manual,
            Category::Risk,
            "Black swan risk (No free API available)"@,
            None,
            UnitType::Index,
            None,
            Some("Manual"@),
        ),
    ]
}

fn push_tiingo_us_indices(entries: &mut Vec<IndicatorMetadata>)
    ensures
        final(entries).deep_view() == old(entries).deep_view() + tiingo_us_indices_rows(),
{
    entries.push(
        entry(
            "spx",
            "S&P 500",
            SourceType::Tiingo,
            Category::UsStocks,
            "US large-cap benchmark",
            Some("spy"),
            UnitType::Index,
            Some("https://www.tiingo.com/spy"),
            Some("Daily"),
        ),
    );
    entries.push(
        entry(
            "ndx",
            "Nasdaq 100",
            SourceType::Tiingo,
            Category::UsStocks,
            "Tech-heavy index",
            Some("qqq"),
            UnitType::Index,
            Some("https://www.tiingo.com/qqq"),
            Some("Daily"),
        ),
    );
    entries.push(
        entry(
            "djia",
            "Dow Jones Industrial",
            SourceType::Tiingo,
            Category::UsStocks,
            "30 blue-chip stocks",
            Some("dia"),
            UnitType::Index,
            Some("https://www.tiingo.com/dia"),
            Some("Daily"),
        ),
    );
    entries.push(
        entry(
            "russell_2000",
            "Russell 2000",
            SourceType::Tiingo,
            Category::UsStocks,
            "Small-cap benchmark",
            Some("iwm"),
            UnitType::Index,
            Some("https://www.tiingo.com/iwm"),
            Some("Daily"),
        ),
    );
    entries.push(
        entry(
            "vix",
            "VIX Volatility Index",
            SourceType::Fred,
            Category::Risk,
            "Fear gauge. >30 = high fear, <15 = complacency",
            Some("VIXCLS"),
            UnitType::Index,
            Some("https://fred.stlouisfed.org/series/VIXCLS"),
            Some("Daily"),
        ),
    );
    entries.push(
        entry(
            "vxn",
            "VXN (Nasdaq Volatility)",
            SourceType::Manual,
            Category::Risk,
            "Nasdaq volatility index (No free API available)",
            None,
            UnitType::Index,
            None,
            Some("Manual"),
        ),
    );
    entries.push(
        entry(
            "skew",
            "SKEW Index",
            SourceType::Manual,
            Category::Risk,
            "Black swan risk (No free API available)",
            None,
            UnitType::Index,
            None,
            Some("Manual"),
        ),
    );
    assert(entries.deep_view() =~= old(entries).deep_view() + tiingo_us_indices_rows());
}

/// Equity indices of other regions from Tiingo.
pub open spec fn tiingo_global_indices_rows() -> Seq<MetadataView> {
    seq![
        row(
            "nikkei"@,
            "Nikkei 225"@,
            SourceType::Tiingo,
            Category::Global,
            "Japan benchmark"@,
            Some("ewj"@),
            UnitType::Index,
            Some("https://www.tiingo.com/ewj"@),
            Some("Daily"@),
        ),
        row(
            "shanghai"@,
            "Shanghai Composite"@,
            SourceType::Tiingo,
            Category::Global,
            "China A-shares"@,
            Some("mchi"@),
            UnitType::Index,
            Some("https://www.tiingo.com/mchi"@),
            Some("Daily"@),
        ),
        row(
            "hang_seng"@,
            "Hang Seng"@,
            SourceType::Tiingo,
            Category::Global,
            "Hong Kong benchmark"@,
            Some("ewh"@),
            UnitType::Index,
            Some("https://www.tiingo.com/ewh"@),
            Some("Daily"@),
        ),
        row(
            "dax"@,
            "DAX"@,
            SourceType::Tiingo,
            Category::Global,
            "Germany benchmark"@,
            Some("ewg"@),
            UnitType::Index,
            Some("https://www.tiingo.com/ewg"@),
            Some("Daily"@),
        ),
        row(
            "ftse"@,
            "FTSE 100"@,
            SourceType::Tiingo,
            Category::Global,
            "UK benchmark"@,
            Some("ewu"@),
            UnitType::Index,
            Some("https://www.tiingo.com/ewu"@),
            Some("Daily"@),
        ),
        row(
            "euro_stoxx"@,
            "Euro Stoxx 50"@,
            SourceType::Tiingo,
            Category::Global,
            "Eurozone blue chips"@,
            Some("fez"@),
            UnitType::Index,
            Some("https://www.tiingo.com/fez"@),
            Some("Daily"@),
        ),
    ]
}

fn push_tiingo_global_indices(entries: &mut Vec<IndicatorMetadata>)
    ensures
        final(entries).deep_view() == old(entries).deep_view() + tiingo_global_indices_rows(),
{
    entries.push(
        entry(
            "nikkei",
            "Nikkei 225",
            SourceType::Tiingo,
            Category::Global,
            "Japan benchmark",
            Some("ewj"),
            UnitType::Index,
            Some("https://www.tiingo.com/ewj"),
            Some("Daily"),
        ),
    );
    entries.push(
        entry(
            "shanghai",
            "Shanghai Composite",
            SourceType::Tiingo,
            Category::Global,
            "China A-shares",
            Some("mchi"),
            UnitType::Index,
            Some("https://www.tiingo.com/mchi"),
            Some("Daily"),
        ),
    );
    entries.push(
        entry(
            "hang_seng",
            "Hang Seng",
            SourceType::Tiingo,
            Category::Global,
            "Hong Kong benchmark",
            Some("ewh"),
            UnitType::Index,
            Some("https://www.tiingo.com/ewh"),
            Some("Daily"),
        ),
    );
    entries.push(
        entry(
            "dax",
            "DAX",
            SourceType::Tiingo,
            Category::Global,
            "Germany benchmark",
            Some("ewg"),
            UnitType::Index,
            Some("https://www.tiingo.com/ewg"),
            Some("Daily"),
        ),
    );
    entries.push(
        entry(
            "ftse",
            "FTSE 100",
            SourceType::Tiingo,
            Category::Global,
            "UK benchmark",
            Some("ewu"),
            UnitType::Index,
            Some("https://www.tiingo.com/ewu"),
            Some("Daily"),
        ),
    );
    entries.push(
        entry(
            "euro_stoxx",
            "Euro Stoxx 50",
            SourceType::Tiingo,
            Category::Global,
            "Eurozone blue chips",
            Some("fez"),
            UnitType::Index,
            Some("https://www.tiingo.com/fez"),
            Some("Daily"),
        ),
    );
    assert(entries.deep_view() =~= old(entries).deep_view() + tiingo_global_indices_rows());
}

/// Currencies from Tiingo.
pub open spec fn tiingo_currencies_rows() -> Seq<MetadataView> {
    seq![
        row(
            "dxy"@,
            "Dollar Index (DXY)"@,
            SourceType::Tiingo,
            Category::Global,
            "USD vs 6 major currencies"@,
            Some("uup"@),
            UnitType::Index,
            Some("https://www.tiingo.com/uup"@),
            Some("Daily"@),
        ),
        row(
            "eur_usd"@,
            "EUR/USD"@,
            SourceType::Fred,
            Category::Global,
            "Euro vs Dollar"@,
            Some("DEXUSEU"@),
            UnitType::Ratio,
            Some("https://fred.stlouisfed.org/series/DEXUSEU"@),
            Some("Daily"@),
        ),
        row(
            "usd_jpy"@,
            "USD/JPY"@,
            SourceType::Fred,
            Category::Global,
            "Dollar vs Yen"@,
            Some("DEXJPUS"@),
            UnitType::Ratio,
            Some("https://fred.stlouisfed.org/series/DEXJPUS"@),
            Some("Daily"@),
        ),
        row(
            "usd_cny"@,
            "USD/CNY"@,
            SourceType::Fred,
            Category::Global,
            "Dollar vs Yuan"@,
            Some("DEXCHUS"@),
            UnitType::Ratio,
            Some("https://fred.stlouisfed.org/series/DEXCHUS"@),
            Some("Daily"@),
        ),
        row(
            "gbp_usd"@,
            "GBP/USD"@,
            SourceType::Fred,
            Category::Global,
            "Pound vs Dollar"@,
            Some("DEXUSUK"@),
            UnitType::Ratio,
            Some("https://fred.stlouisfed.org/series/DEXUSUK"@),
            Some("Daily"@),
        ),
    ]
}

fn push_tiingo_currencies(entries: &mut Vec<IndicatorMetadata>)
    ensures
        final(entries).deep_view() == old(entries).deep_view() + tiingo_currencies_rows(),
{
    entries.push(
        entry(
            "dxy",
            "Dollar Index (DXY)",
            SourceType::Tiingo,
            Category::Global,
            "USD vs 6 major currencies",
            Some("uup"),
            UnitType::Index,
            Some("https://www.tiingo.com/uup"),
            Some("Daily"),
        ),
    );
    entries.push(
        entry(
            "eur_usd",
            "EUR/USD",
            SourceType::Fred,
            Category::Global,
            "Euro vs Dollar",
            Some("DEXUSEU"),
            UnitType::Ratio,
            Some("https://fred.stlouisfed.org/series/DEXUSEU"),
            Some("Daily"),
        ),
    );
    entries.push(
        entry(
            "usd_jpy",
            "USD/JPY",
            SourceType::Fred,
            Category::Global,
            "Dollar vs Yen",
            Some("DEXJPUS"),
            UnitType::Ratio,
            Some("https://fred.stlouisfed.org/series/DEXJPUS"),
            Some("Daily"),
        ),
    );
    entries.push(
        entry(
            "usd_cny",
            "USD/CNY",
            SourceType::Fred,
            Category::Global,
            "Dollar vs Yuan",
            Some("DEXCHUS"),
            UnitType::Ratio,
            Some("https://fred.stlouisfed.org/series/DEXCHUS"),
            Some("Daily"),
        ),
    );
    entries.push(
        entry(
            "gbp_usd",
            "GBP/USD",
            SourceType::Fred,
            Category::Global,
            "Pound vs Dollar",
            Some("DEXUSUK"),
            UnitType::Ratio,
            Some("https://fred.stlouisfed.org/series/DEXUSUK"),
            Some("Daily"),
        ),
    );
    assert(entries.deep_view() =~= old(entries).deep_view() + tiingo_currencies_rows());
}

/// Commodities from Tiingo.
pub open spec fn tiingo_commodities_rows() -> Seq<MetadataView> {
    seq![
        row(
            "gold"@,
            "Gold"@,
            SourceType::Tiingo,
            Category::Commodities,
            "Safe haven asset"@,
            Some("gld"@),
            UnitType::UsdPrice,
            Some("https://www.tiingo.com/gld"@),
            Some("Daily"@),
        ),
        row(
            "silver"@,
            "Silver"@,
            SourceType::Tiingo,
            Category::Commodities,
            "Industrial + precious metal"@,
            Some("slv"@),
            UnitType::UsdPrice,
            Some("https://www.tiingo.com/slv"@),
            Some("Daily"@),
        ),
        row(
            "copper"@,
            "Copper"@,
            SourceType::Tiingo,
            Category::Commodities,
            "Economic barometer (Dr. Copper)"@,
            Some("cper"@),
            UnitType::UsdPrice,
            Some("https://www.tiingo.com/cper"@),
            Some("Daily"@),
        ),
        row(
            "oil_wti"@,
            "WTI Crude Oil"@,
            SourceType::Tiingo,
            Category::Commodities,
            "US oil benchmark"@,
            Some("uso"@),
            UnitType::UsdPrice,
            Some("https://www.tiingo.com/uso"@),
            Some("Daily"@),
        ),
        row(
            "oil_brent"@,
            "Brent Crude Oil"@,
            SourceType::Tiingo,
            Category::Commodities,
            "Global oil benchmark"@,
            Some("bno"@),
            UnitType::UsdPrice,
            Some("https://www.tiingo.com/bno"@),
            Some("Daily"@),
        ),
        row(
            "natural_gas"@,
            "Natural Gas"@,
            SourceType::Tiingo,
            Category::Commodities,
            "Energy commodity"@,
            Some("ung"@),
            UnitType::UsdPrice,
            Some("https://www.tiingo.com/ung"@),
            Some("Daily"@),
        ),
    ]
}

fn push_tiingo_commodities(entries: &mut Vec<IndicatorMetadata>)
    ensures
        final(entries).deep_view() == old(entries).deep_view() + tiingo_commodities_rows(),
{
    entries.push(
        entry(
            "gold",
            "Gold",
            SourceType::Tiingo,
            Category::Commodities,
            "Safe haven asset",
            Some("gld"),
            UnitType::UsdPrice,
            Some("https://www.tiingo.com/gld"),
            Some("Daily"),
        ),
    );
    entries.push(
        entry(
            "silver",
            "Silver",
            SourceType::Tiingo,
            Category::Commodities,
            "Industrial + precious metal",
            Some("slv"),
            UnitType::UsdPrice,
            Some("https://www.tiingo.com/slv"),
            Some("Daily"),
        ),
    );
    entries.push(
        entry(
            "copper",
            "Copper",
            SourceType::Tiingo,
            Category::Commodities,
            "Economic barometer (Dr. Copper)",
            Some("cper"),
            UnitType::UsdPrice,
            Some("https://www.tiingo.com/cper"),
            Some("Daily"),
        ),
    );
    entries.push(
        entry(
            "oil_wti",
            "WTI Crude Oil",
            SourceType::Tiingo,
            Category::Commodities,
            "US oil benchmark",
            Some("uso"),
            UnitType::UsdPrice,
            Some("https://www.tiingo.com/uso"),
            Some("Daily"),
        ),
    );
    entries.push(
        entry(
            "oil_brent",
            "Brent Crude Oil",
            SourceType::Tiingo,
            Category::Commodities,
            "Global oil benchmark",
            Some("bno"),
            UnitType::UsdPrice,
            Some("https://www.tiingo.com/bno"),
            Some("Daily"),
        ),
    );
    entries.push(
        entry(
            "natural_gas",
            "Natural Gas",
            SourceType::Tiingo,
            Category::Commodities,
            "Energy commodity",
            Some("ung"),
            UnitType::UsdPrice,
            Some("https://www.tiingo.com/ung"),
            Some("Daily"),
        ),
    );
    assert(entries.deep_view() =~= old(entries).deep_view() + tiingo_commodities_rows());
}

/// Derivatives figures from Binance.
pub open spec fn binance_derivatives_rows() -> Seq<MetadataView> {
    seq![
        row(
            "binance_btc_usdt"@,
            "BTC/USDT (Binance)"@,
            SourceType::Binance,
            Category::Crypto,
            "Global BTC price benchmark"@,
            Some("BTCUSDT"@),
            UnitType::UsdPrice,
            Some("https://www.binance.com/en/trade/BTC_USDT"@),
            Some("Daily"@),
        ),
        row(
            "binance_eth_usdt"@,
            "ETH/USDT (Binance)"@,
            SourceType::Binance,
            Category::Crypto,
            "Global ETH price benchmark"@,
            Some("ETHUSDT"@),
            UnitType::UsdPrice,
            Some("https://www.binance.com/en/trade/ETH_USDT"@),
            Some("Daily"@),
        ),
        row(
            "binance_funding_btc"@,
            "BTC Funding Rate"@,
            SourceType::Binance,
            Category::Crypto,
            "Perpetual funding rate. Positive = long crowded"@,
            Some("BTCUSDT_FUNDING"@),
            UnitType::Percent,
            Some("https://www.binance.com/en/trade/BTC_USDT"@),
            Some("Daily"@),
        ),
        row(
            "binance_oi_btc"@,
            "BTC Open Interest"@,
            SourceType::Binance,
            Category::Crypto,
            "Total perpetual contracts outstanding"@,
            Some("BTCUSDT_OI"@),
            UnitType::Dollars,
            Some("https://www.binance.com/en/trade/BTC_USDT"@),
            Some("Daily"@),
        ),
        row(
            "binance_ls_ratio"@,
            "BTC Long/Short Ratio"@,
            SourceType::Binance,
            Category::Crypto,
            "Retail position ratio. Contrarian signal"@,
            Some("BTCUSDT_LS"@),
            UnitType::Ratio,
            Some("https://www.binance.com/en/trade/BTC_USDT"@),
            Some("Daily"@),
        ),
    ]
}

fn push_binance_derivatives(entries: &mut Vec<IndicatorMetadata>)
    ensures
        final(entries).deep_view() == old(entries).deep_view() + binance_derivatives_rows(),
{
    entries.push(
        entry(
            "binance_btc_usdt",
            "BTC/USDT (Binance)",
            SourceType::Binance,
            Category::Crypto,
            "Global BTC price benchmark",
            Some("BTCUSDT"),
            UnitType::UsdPrice,
            Some("https://www.binance.com/en/trade/BTC_USDT"),
            Some("Daily"),
        ),
    );
    entries.push(
        entry(
            "binance_eth_usdt",
            "ETH/USDT (Binance)",
            SourceType::Binance,
            Category::Crypto,
            "Global ETH price benchmark",
            Some("ETHUSDT"),
            UnitType::UsdPrice,
            Some("https://www.binance.com/en/trade/ETH_USDT"),
            Some("Daily"),
        ),
    );
    entries.push(
        entry(
            "binance_funding_btc",
            "BTC Funding Rate",
            SourceType::Binance,
            Category::Crypto,
            "Perpetual funding rate. Positive = long crowded",
            Some("BTCUSDT_FUNDING"),
            UnitType::Percent,
            Some("https://www.binance.com/en/trade/BTC_USDT"),
            Some("Daily"),
        ),
    );
    entries.push(
        entry(
            "binance_oi_btc",
            "BTC Open Interest",
            SourceType::Binance,
            Category::Crypto,
            "Total perpetual contracts outstanding",
            Some("BTCUSDT_OI"),
            UnitType::Dollars,
            Some("https://www.binance.com/en/trade/BTC_USDT"),
            Some("Daily"),
        ),
    );
    entries.push(
        entry(
            "binance_ls_ratio",
            "BTC Long/Short Ratio",
            SourceType::Binance,
            Category::Crypto,
            "Retail position ratio. Contrarian signal",
            Some("BTCUSDT_LS"),
            UnitType::Ratio,
            Some("https://www.binance.com/en/trade/BTC_USDT"),
            Some("Daily"),
        ),
    );
    assert(entries.deep_view() =~= old(entries).deep_view() + binance_derivatives_rows());
}

/// Sentiment figures from alternative sources.
pub open spec fn alternative_data_rows() -> Seq<MetadataView> {
    seq![
        row(
            "fear_greed_index"@,
            "Fear & Greed Index"@,
            SourceType::Alternative,
            Category::Risk,
            "CNN sentiment gauge. 0-25 = Extreme Fear, 75-100 = Extreme Greed"@,
            None,
            UnitType::Index,
            Some("https://www.cnn.com/markets/fear-and-greed"@),
            Some("Daily"@),
        ),
        row(
            "crypto_fear_greed"@,
            "Crypto Fear & Greed"@,
            SourceType::Alternative,
            Category::Crypto,
            "alternative.me crypto sentiment"@,
            None,
            UnitType::Index,
            Some("https://alternative.me/crypto/fear-and-greed-index/"@),
            Some("Daily"@),
        ),
    ]
}

fn push_alternative_data(entries: &mut Vec<IndicatorMetadata>)
    ensures
        final(entries).deep_view() == old(entries).deep_view() + alternative_data_rows(),
{
    entries.push(
        entry(
            "fear_greed_index",
            "Fear & Greed Index",
            SourceType::Alternative,
            Category::Risk,
            "CNN sentiment gauge. 0-25 = Extreme Fear, 75-100 = Extreme Greed",
            None,
            UnitType::Index,
            Some("https://www.cnn.com/markets/fear-and-greed"),
            Some("Daily"),
        ),
    );
    entries.push(
        entry(
            "crypto_fear_greed",
            "Crypto Fear & Greed",
            SourceType::Alternative,
            Category::Crypto,
            "alternative.me crypto sentiment",
            None,
            UnitType::Index,
            Some("https://alternative.me/crypto/fear-and-greed-index/"),
            Some("Daily"),
        ),
    );
    assert(entries.deep_view() =~= old(entries).deep_view() + alternative_data_rows());
}

/// Sector funds, kept as inputs of sector analysis.
pub open spec fn sector_etfs_rows() -> Seq<MetadataView> {
    seq![
        row(
            "sector_xlk"@,
            "Tech Sector (XLK)"@,
            SourceType::Tiingo,
            Category::Internal,
            "Technology Select Sector SPDR"@,
            Some("xlk"@),
            UnitType::UsdPrice,
            Some("https://www.tiingo.com/xlk"@),
            Some("Daily"@),
        ),
        row(
            "sector_xlv"@,
            "Healthcare Sector (XLV)"@,
            SourceType::Tiingo,
            Category::Internal,
            "Health Care Select Sector SPDR"@,
            Some("xlv"@),
            UnitType::UsdPrice,
            Some("https://www.tiingo.com/xlv"@),
            Some("Daily"@),
        ),
        row(
            "sector_xlf"@,
            "Financial Sector (XLF)"@,
            SourceType::Tiingo,
            Category::Internal,
            "Financial Select Sector SPDR"@,
            Some("xlf"@),
            UnitType::UsdPrice,
            Some("https://www.tiingo.com/xlf"@),
            Some("Daily"@),
        ),
        row(
            "sector_xly"@,
            "Consumer Discretionary (XLY)"@,
            SourceType::Tiingo,
            Category::Internal,
            "Consumer Discretionary SPDR"@,
            Some("xly"@),
            UnitType::UsdPrice,
            Some("https://www.tiingo.com/xly"@),
            Some("Daily"@),
        ),
        row(
            "sector_xlp"@,
            "Consumer Staples (XLP)"@,
            SourceType::Tiingo,
            Category::Internal,
            "Consumer Staples SPDR"@,
            Some("xlp"@),
            UnitType::UsdPrice,
            Some("https://www.tiingo.com/xlp"@),
            Some("Daily"@),
        ),
        row(
            "sector_xle"@,
            "Energy Sector (XLE)"@,
            SourceType::Tiingo,
            Category::Internal,
            "Energy Select Sector SPDR"@,
            Some("xle"@),
            UnitType::UsdPrice,
            Some("https://www.tiingo.com/xle"@),
            Some("Daily"@),
        ),
        row(
            "sector_xlu"@,
            "Utilities Sector (XLU)"@,
            SourceType::Tiingo,
            Category::Internal,
            "Utilities Select Sector SPDR"@,
            Some("xlu"@),
            UnitType::UsdPrice,
            Some("https://www.tiingo.com/xlu"@),
            Some("Daily"@),
        ),
        row(
            "sector_xlb"@,
            "Materials Sector (XLB)"@,
            SourceType::Tiingo,
            Category::Internal,
            "Materials Select Sector SPDR"@,
            Some("xlb"@),
            UnitType::UsdPrice,
            Some("https://www.tiingo.com/xlb"@),
            Some("Daily"@),
        ),
        row(
            "sector_xli"@,
            "Industrial Sector (XLI)"@,
            SourceType::Tiingo,
            Category::Internal,
            "Industrial Select Sector SPDR"@,
            Some("xli"@),
            UnitType::UsdPrice,
            Some("https://www.tiingo.com/xli"@),
            Some("Daily"@),
        ),
        row(
            "sector_xlre"@,
            "Real Estate Sector (XLRE)"@,
            SourceType::Tiingo,
            Category::Internal,
            "Real Estate Select Sector SPDR"@,
            Some("xlre"@),
            UnitType::UsdPrice,
            Some("https://www.tiingo.com/xlre"@),
            Some("Daily"@),
        ),
        row(
            "sector_xlc"@,
            "Communication (XLC)"@,
            SourceType::Tiingo,
            Category::Internal,
            "Communication Services SPDR"@,
            Some("xlc"@),
            UnitType::UsdPrice,
            Some("https://www.tiingo.com/xlc"@),
            Some("Daily"@),
        ),
    ]
}

fn push_sector_etfs(entries: &mut Vec<IndicatorMetadata>)
    ensures
        final(entries).deep_view() == old(entries).deep_view() + sector_etfs_rows(),
{
    entries.push(
        entry(
            "sector_xlk",
            "Tech Sector (XLK)",
            SourceType::Tiingo,
            Category::Internal,
            "Technology Select Sector SPDR",
            Some("xlk"),
            UnitType::UsdPrice,
            Some("https://www.tiingo.com/xlk"),
            Some("Daily"),
        ),
    );
    entries.push(
        entry(
            "sector_xlv",
            "Healthcare Sector (XLV)",
            SourceType::Tiingo,
            Category::Internal,
            "Health Care Select Sector SPDR",
            Some("xlv"),
            UnitType::UsdPrice,
            Some("https://www.tiingo.com/xlv"),
            Some("Daily"),
        ),
    );
    entries.push(
        entry(
            "sector_xlf",
            "Financial Sector (XLF)",
            SourceType::Tiingo,
            Category::Internal,
            "Financial Select Sector SPDR",
            Some("xlf"),
            UnitType::UsdPrice,
            Some("https://www.tiingo.com/xlf"),
            Some("Daily"),
        ),
    );
    entries.push(
        entry(
            "sector_xly",
            "Consumer Discretionary (XLY)",
            SourceType::Tiingo,
            Category::Internal,
            "Consumer Discretionary SPDR",
            Some("xly"),
            UnitType::UsdPrice,
            Some("https://www.tiingo.com/xly"),
            Some("Daily"),
        ),
    );
    entries.push(
        entry(
            "sector_xlp",
            "Consumer Staples (XLP)",
            SourceType::Tiingo,
            Category::Internal,
            "Consumer Staples SPDR",
            Some("xlp"),
            UnitType::UsdPrice,
            Some("https://www.tiingo.com/xlp"),
            Some("Daily"),
        ),
    );
    entries.push(
        entry(
            "sector_xle",
            "Energy Sector (XLE)",
            SourceType::Tiingo,
            Category::Internal,
            "Energy Select Sector SPDR",
            Some("xle"),
            UnitType::UsdPrice,
            Some("https://www.tiingo.com/xle"),
            Some("Daily"),
        ),
    );
    entries.push(
        entry(
            "sector_xlu",
            "Utilities Sector (XLU)",
            SourceType::Tiingo,
            Category::Internal,
            "Utilities Select Sector SPDR",
            Some("xlu"),
            UnitType::UsdPrice,
            Some("https://www.tiingo.com/xlu"),
            Some("Daily"),
        ),
    );
    entries.push(
        entry(
            "sector_xlb",
            "Materials Sector (XLB)",
            SourceType::Tiingo,
            Category::Internal,
            "Materials Select Sector SPDR",
            Some("xlb"),
            UnitType::UsdPrice,
            Some("https://www.tiingo.com/xlb"),
            Some("Daily"),
        ),
    );
    entries.push(
        entry(
            "sector_xli",
            "Industrial Sector (XLI)",
            SourceType::Tiingo,
            Category::Internal,
            "Industrial Select Sector SPDR",
            Some("xli"),
            UnitType::UsdPrice,
            Some("https://www.tiingo.com/xli"),
            Some("Daily"),
        ),
    );
    entries.push(
        entry(
            "sector_xlre",
            "Real Estate Sector (XLRE)",
            SourceType::Tiingo,
            Category::Internal,
            "Real Estate Select Sector SPDR",
            Some("xlre"),
            UnitType::UsdPrice,
            Some("https://www.tiingo.com/xlre"),
            Some("Daily"),
        ),
    );
    entries.push(
        entry(
            "sector_xlc",
            "Communication (XLC)",
            SourceType::Tiingo,
            Category::Internal,
            "Communication Services SPDR",
            Some("xlc"),
            UnitType::UsdPrice,
            Some("https://www.tiingo.com/xlc"),
            Some("Daily"),
        ),
    );
    assert(entries.deep_view() =~= old(entries).deep_view() + sector_etfs_rows());
}

/// Raw series kept as inputs of computed indicators.
pub open spec fn internal_inputs_rows() -> Seq<MetadataView> {
    seq![
        row(
            "ncbeilq027s"@,
            "US Corporate Equities"@,
            SourceType::Fred,
            Category::Internal,
            "Total market cap for Buffett Indicator"@,
            Some("NCBEILQ027S"@),
            UnitType::Billions,
            Some("https://fred.stlouisfed.org/series/NCBEILQ027S"@),
            Some("Quarterly"@),
        ),
        row(
            "stlfsi4"@,
            "STLFSI4"@,
            SourceType::Fred,
            Category::Internal,
            "Financial Stress Index raw series used for internal calculations"@,
            Some("STLFSI4"@),
            UnitType::Index,
            Some("https://fred.stlouisfed.org/series/STLFSI4"@),
            Some("Weekly"@),
        ),
        row(
            "SP500PE12M"@,
            "S&P 500 PE Ratio"@,
            SourceType::Alternative,
            Category::Valuation,
            "S&P 500 Price to Earnings Ratio (Trailing 12M). Source: multpl.com"@,
            None,
            UnitType::Ratio,
            Some("https://www.multpl.com/s-p-500-pe-ratio"@),
            Some("Monthly"@),
        ),
    ]
}

fn push_internal_inputs(entries: &mut Vec<IndicatorMetadata>)
    ensures
        final(entries).deep_view() == old(entries).deep_view() + internal_inputs_rows(),
{
    entries.push(
        entry(
            "ncbeilq027s",
            "US Corporate Equities",
            SourceType::Fred,
            Category::Internal,
            "Total market cap for Buffett Indicator",
            Some("NCBEILQ027S"),
            UnitType::Billions,
            Some("https://fred.stlouisfed.org/series/NCBEILQ027S"),
            Some("Quarterly"),
        ),
    );
    entries.push(
        entry(
            "stlfsi4",
            "STLFSI4",
            SourceType::Fred,
            Category::Internal,
            "Financial Stress Index raw series used for internal calculations",
            Some("STLFSI4"),
            UnitType::Index,
            Some("https://fred.stlouisfed.org/series/STLFSI4"),
            Some("Weekly"),
        ),
    );
    entries.push(
        entry(
            "SP500PE12M",
            "S&P 500 PE Ratio",
            SourceType::Alternative,
            Category::Valuation,
            "S&P 500 Price to Earnings Ratio (Trailing 12M). Source: multpl.com",
            None,
            UnitType::Ratio,
            Some("https://www.multpl.com/s-p-500-pe-ratio"),
            Some("Monthly"),
        ),
    );
    assert(entries.deep_view() =~= old(entries).deep_view() + internal_inputs_rows());
}

/// The standard catalog, section by section.
pub open spec fn standard_table() -> Seq<MetadataView> {
    calculated_rows()
        + fred_valuation_rows()
        + fred_rates_rows()
        + fred_employment_rows()
        + fred_inflation_rows()
        + fred_growth_rows()
        + fred_consumer_rows()
        + fred_liquidity_rows()
        + fred_credit_rows()
        + fred_housing_rows()
        + tiingo_us_indices_rows()
        + tiingo_global_indices_rows()
        + tiingo_currencies_rows()
        + tiingo_commodities_rows()
        + binance_derivatives_rows()
        + alternative_data_rows()
        + sector_etfs_rows()
        + internal_inputs_rows()
}

/// The entries of the standard catalog.
pub fn standard_entries() -> (entries: Vec<IndicatorMetadata>)
    ensures
        entries.deep_view() == standard_table(),
{
    let mut entries: Vec<IndicatorMetadata> = Vec::new();
    assert(entries.deep_view() =~= Seq::<MetadataView>::empty());
    push_calculated(&mut entries);
    push_fred_valuation(&mut entries);
    push_fred_rates(&mut entries);
    push_fred_employment(&mut entries);
    push_fred_inflation(&mut entries);
    push_fred_growth(&mut entries);
    push_fred_consumer(&mut entries);
    push_fred_liquidity(&mut entries);
    push_fred_credit(&mut entries);
    push_fred_housing(&mut entries);
    push_tiingo_us_indices(&mut entries);
    push_tiingo_global_indices(&mut entries);
    push_tiingo_currencies(&mut entries);
    push_tiingo_commodities(&mut entries);
    push_binance_derivatives(&mut entries);
    push_alternative_data(&mut entries);
    push_sector_etfs(&mut entries);
    push_internal_inputs(&mut entries);
    assert(entries.deep_view() =~= standard_table());
    entries
}

/// The place of a slug in the standard catalog, told by its length and a
/// few of its characters.
spec fn place(slug: Seq<char>) -> int {
    if slug.len() == 17 && slug[0] == 'b' {
        0
    } else if slug.len() == 18 && slug[16] == '2' {
        1
    } else if slug.len() == 18 && slug[16] == '3' {
        2
    } else if slug.len() == 13 && slug[0] == 'n' {
        3
    } else if slug.len() == 16 && slug[6] == 'i' {
        4
    } else if slug.len() == 17 && slug[2] == 'p' {
        5
    } else if slug.len() == 17 && slug[0] == 'g' {
        6
    } else if slug.len() == 10 && slug[0] == 'r' {
        7
    } else if slug.len() == 9 && slug[0] == 'y' {
        8
    } else if slug.len() == 14 && slug[0] == 'c' {
        9
    } else if slug.len() == 11 && slug[1] == 'o' {
        10
    } else if slug.len() == 13 && slug[0] == 'u' {
        11
    } else if slug.len() == 6 && slug[3] == '1' {
        12
    } else if slug.len() == 5 && slug[3] == '2' {
        13
    } else if slug.len() == 5 && slug[3] == '3' {
        14
    } else if slug.len() == 6 && slug[3] == '3' {
        15
    } else if slug.len() == 5 && slug[3] == '5' {
        16
    } else if slug.len() == 5 && slug[3] == '1' {
        17
    } else if slug.len() == 8 && slug[0] == 't' {
        18
    } else if slug.len() == 13 && slug[0] == 'b' {
        19
    } else if slug.len() == 9 && slug[0] == 'f' {
        20
    } else if slug.len() == 10 && slug[0] == 'c' {
        21
    } else if slug.len() == 8 && slug[2] == 'f' {
        22
    } else if slug.len() == 6 && slug[1] == 'n' {
        23
    } else if slug.len() == 3 && slug[1] == 'f' {
        24
    } else if slug.len() == 5 && slug[0] == 'j' {
        25
    } else if slug.len() == 14 && slug[0] == 'i' {
        26
    } else if slug.len() == 16 && slug[0] == 'c' {
        27
    } else if slug.len() == 16 && slug[0] == 'l' {
        28
    } else if slug.len() == 7 && slug[1] == '6' {
        29
    } else if slug.len() == 3 && slug[0] == 'c' {
        30
    } else if slug.len() == 8 && slug[5] == 'c' {
        31
    } else if slug.len() == 3 && slug[1] == 'c' {
        32
    } else if slug.len() == 8 && slug[5] == 'p' {
        33
    } else if slug.len() == 3 && slug[0] == 'p' && slug[1] == 'p' {
        34
    } else if slug.len() == 13 && slug[0] == 'i' {
        35
    } else if slug.len() == 3 && slug[0] == 'g' {
        36
    } else if slug.len() == 8 && slug[0] == 'r' {
        37
    } else if slug.len() == 10 && slug[0] == 'g' {
        38
    } else if slug.len() == 15 && slug[0] == 'i' {
        39
    } else if slug.len() == 13 && slug[1] == 'a' {
        40
    } else if slug.len() == 7 && slug[0] == 'i' {
        41
    } else if slug.len() == 12 && slug[1] == 'e' {
        42
    } else if slug.len() == 18 && slug[1] == 'o' {
        43
    } else if slug.len() == 15 && slug[0] == 'p' {
        44
    } else if slug.len() == 17 && slug[0] == 'p' {
        45
    } else if slug.len() == 12 && slug[0] == 's' {
        46
    } else if slug.len() == 17 && slug[0] == 'f' {
        47
    } else if slug.len() == 12 && slug[0] == 't' {
        48
    } else if slug.len() == 7 && slug[0] == 'f' {
        49
    } else if slug.len() == 2 && slug[1] == '2' {
        50
    } else if slug.len() == 2 && slug[1] == '1' {
        51
    } else if slug.len() == 13 && slug[0] == 'm' {
        52
    } else if slug.len() == 9 && slug[1] == 'y' {
        53
    } else if slug.len() == 9 && slug[0] == 'i' {
        54
    } else if slug.len() == 13 && slug[3] == 'd' {
        55
    } else if slug.len() == 4 && slug[0] == 'n' {
        56
    } else if slug.len() == 5 && slug[0] == 's' {
        57
    } else if slug.len() == 18 && slug[1] == 'a' {
        58
    } else if slug.len() == 12 && slug[0] == 'm' {
        59
    } else if slug.len() == 14 && slug[0] == 'h' {
        60
    } else if slug.len() == 16 && slug[1] == 'u' {
        61
    } else if slug.len() == 3 && slug[0] == 's' {
        62
    } else if slug.len() == 3 && slug[0] == 'n' && slug[1] == 'd' {
        63
    } else if slug.len() == 4 && slug[0] == 'd' {
        64
    } else if slug.len() == 12 && slug[1] == 'u' {
        65
    } else if slug.len() == 3 && slug[1] == 'i' {
        66
    } else if slug.len() == 3 && slug[2] == 'n' {
        67
    } else if slug.len() == 4 && slug[0] == 's' {
        68
    } else if slug.len() == 6 && slug[0] == 'n' {
        69
    } else if slug.len() == 8 && slug[1] == 'h' {
        70
    } else if slug.len() == 9 && slug[1] == 'a' {
        71
    } else if slug.len() == 3 && slug[1] == 'a' {
        72
    } else if slug.len() == 4 && slug[0] == 'f' {
        73
    } else if slug.len() == 10 && slug[0] == 'e' {
        74
    } else if slug.len() == 3 && slug[2] == 'y' {
        75
    } else if slug.len() == 7 && slug[0] == 'e' {
        76
    } else if slug.len() == 7 && slug[4] == 'j' {
        77
    } else if slug.len() == 7 && slug[4] == 'c' {
        78
    } else if slug.len() == 7 && slug[0] == 'g' {
        79
    } else if slug.len() == 4 && slug[0] == 'g' {
        80
    } else if slug.len() == 6 && slug[0] == 's' {
        81
    } else if slug.len() == 6 && slug[0] == 'c' {
        82
    } else if slug.len() == 7 && slug[0] == 'o' {
        83
    } else if slug.len() == 9 && slug[0] == 'o' {
        84
    } else if slug.len() == 11 && slug[1] == 'a' {
        85
    } else if slug.len() == 16 && slug[8] == 'b' {
        86
    } else if slug.len() == 16 && slug[10] == 'h' {
        87
    } else if slug.len() == 19 {
        88
    } else if slug.len() == 14 && slug[0] == 'b' {
        89
    } else if slug.len() == 16 && slug[9] == 's' {
        90
    } else if slug.len() == 16 && slug[1] == 'e' {
        91
    } else if slug.len() == 17 && slug[1] == 'r' {
        92
    } else if slug.len() == 10 && slug[9] == 'k' {
        93
    } else if slug.len() == 10 && slug[9] == 'v' {
        94
    } else if slug.len() == 10 && slug[9] == 'f' {
        95
    } else if slug.len() == 10 && slug[9] == 'y' {
        96
    } else if slug.len() == 10 && slug[9] == 'p' {
        97
    } else if slug.len() == 10 && slug[0] == 's' && slug[9] == 'e' {
        98
    } else if slug.len() == 10 && slug[9] == 'u' {
        99
    } else if slug.len() == 10 && slug[9] == 'b' {
        100
    } else if slug.len() == 10 && slug[9] == 'i' {
        101
    } else if slug.len() == 11 && slug[1] == 'e' {
        102
    } else if slug.len() == 10 && slug[9] == 'c' {
        103
    } else if slug.len() == 11 && slug[1] == 'c' {
        104
    } else if slug.len() == 7 && slug[0] == 's' {
        105
    } else if slug.len() == 10 && slug[0] == 'S' {
        106
    } else {
        -1
    }
}

/// The places of the entries of one section.
proof fn lemma_places_calculated()
    ensures
        calculated_rows().len() == 11,
        forall|i: int| 0 <= i < 11 ==> place((#[trigger] calculated_rows()[i]).slug) == 0 + i,
{
    reveal_strlit("buffett_indicator");
    reveal_strlit("yield_curve_10y_2y");
    reveal_strlit("yield_curve_10y_3m");
    reveal_strlit("net_liquidity");
    reveal_strlit("financial_stress");
    reveal_strlit("copper_gold_ratio");
    reveal_strlit("gold_silver_ratio");
    reveal_strlit("real_yield");
    reveal_strlit("yield_gap");
    reveal_strlit("cp_bill_spread");
    reveal_strlit("sofr_spread");
    let rows = calculated_rows();
    assert(rows[0].slug == "buffett_indicator"@);
    assert("buffett_indicator"@.len() == 17);
    assert(place("buffett_indicator"@) == 0);
    assert(rows[1].slug == "yield_curve_10y_2y"@);
    assert("yield_curve_10y_2y"@.len() == 18);
    assert(place("yield_curve_10y_2y"@) == 1);
    assert(rows[2].slug == "yield_curve_10y_3m"@);
    assert("yield_curve_10y_3m"@.len() == 18);
    assert(place("yield_curve_10y_3m"@) == 2);
    assert(rows[3].slug == "net_liquidity"@);
    assert("net_liquidity"@.len() == 13);
    assert(place("net_liquidity"@) == 3);
    assert(rows[4].slug == "financial_stress"@);
    assert("financial_stress"@.len() == 16);
    assert(place("financial_stress"@) == 4);
    assert(rows[5].slug == "copper_gold_ratio"@);
    assert("copper_gold_ratio"@.len() == 17);
    assert(place("copper_gold_ratio"@) == 5);
    assert(rows[6].slug == "gold_silver_ratio"@);
    assert("gold_silver_ratio"@.len() == 17);
    assert(place("gold_silver_ratio"@) == 6);
    assert(rows[7].slug == "real_yield"@);
    assert("real_yield"@.len() == 10);
    assert(place("real_yield"@) == 7);
    assert(rows[8].slug == "yield_gap"@);
    assert("yield_gap"@.len() == 9);
    assert(place("yield_gap"@) == 8);
    assert(rows[9].slug == "cp_bill_spread"@);
    assert("cp_bill_spread"@.len() == 14);
    assert(place("cp_bill_spread"@) == 9);
    assert(rows[10].slug == "sofr_spread"@);
    assert("sofr_spread"@.len() == 11);
    assert(place("sofr_spread"@) == 10);
    assert forall|i: int| 0 <= i < 11 implies place((#[trigger] rows[i]).slug) == 0 + i by {
        if i == 0 {
            assert(rows[0].slug == "buffett_indicator"@);
        } else if i == 1 {
            assert(rows[1].slug == "yield_curve_10y_2y"@);
        } else if i == 2 {
            assert(rows[2].slug == "yield_curve_10y_3m"@);
        } else if i == 3 {
            assert(rows[3].slug == "net_liquidity"@);
        } else if i == 4 {
            assert(rows[4].slug == "financial_stress"@);
        } else if i == 5 {
            assert(rows[5].slug == "copper_gold_ratio"@);
        } else if i == 6 {
            assert(rows[6].slug == "gold_silver_ratio"@);
        } else if i == 7 {
            assert(rows[7].slug == "real_yield"@);
        } else if i == 8 {
            assert(rows[8].slug == "yield_gap"@);
        } else if i == 9 {
            assert(rows[9].slug == "cp_bill_spread"@);
        } else if i == 10 {
            assert(rows[10].slug == "sofr_spread"@);
        }
    }
}

/// The places of the entries of one section.
proof fn lemma_places_fred_valuation()
    ensures
        fred_valuation_rows().len() == 1,
        forall|i: int| 0 <= i < 1 ==> place((#[trigger] fred_valuation_rows()[i]).slug) == 11 + i,
{
    reveal_strlit("us_market_cap");
    let rows = fred_valuation_rows();
    assert(rows[0].slug == "us_market_cap"@);
    assert("us_market_cap"@.len() == 13);
    assert(place("us_market_cap"@) == 11);
    assert forall|i: int| 0 <= i < 1 implies place((#[trigger] rows[i]).slug) == 11 + i by {
        if i == 0 {
            assert(rows[0].slug == "us_market_cap"@);
        }
    }
}

/// The places of the entries of one section.
proof fn lemma_places_fred_rates()
    ensures
        fred_rates_rows().len() == 11,
        forall|i: int| 0 <= i < 11 ==> place((#[trigger] fred_rates_rows()[i]).slug) == 12 + i,
{
    reveal_strlit("us_10y");
    reveal_strlit("us_2y");
    reveal_strlit("us_3m");
    reveal_strlit("us_30y");
    reveal_strlit("us_5y");
    reveal_strlit("us_1y");
    reveal_strlit("tips_10y");
    reveal_strlit("breakeven_10y");
    reveal_strlit("fed_funds");
    reveal_strlit("cp_3m_rate");
    reveal_strlit("sofr_30d");
    let rows = fred_rates_rows();
    assert(rows[0].slug == "us_10y"@);
    assert("us_10y"@.len() == 6);
    assert(place("us_10y"@) == 12);
    assert(rows[1].slug == "us_2y"@);
    assert("us_2y"@.len() == 5);
    assert(place("us_2y"@) == 13);
    assert(rows[2].slug == "us_3m"@);
    assert("us_3m"@.len() == 5);
    assert(place("us_3m"@) == 14);
    assert(rows[3].slug == "us_30y"@);
    assert("us_30y"@.len() == 6);
    assert(place("us_30y"@) == 15);
    assert(rows[4].slug == "us_5y"@);
    assert("us_5y"@.len() == 5);
    assert(place("us_5y"@) == 16);
    assert(rows[5].slug == "us_1y"@);
    assert("us_1y"@.len() == 5);
    assert(place("us_1y"@) == 17);
    assert(rows[6].slug == "tips_10y"@);
    assert("tips_10y"@.len() == 8);
    assert(place("tips_10y"@) == 18);
    assert(rows[7].slug == "breakeven_10y"@);
    assert("breakeven_10y"@.len() == 13);
    assert(place("breakeven_10y"@) == 19);
    assert(rows[8].slug == "fed_funds"@);
    assert("fed_funds"@.len() == 9);
    assert(place("fed_funds"@) == 20);
    assert(rows[9].slug == "cp_3m_rate"@);
    assert("cp_3m_rate"@.len() == 10);
    assert(place("cp_3m_rate"@) == 21);
    assert(rows[10].slug == "sofr_30d"@);
    assert("sofr_30d"@.len() == 8);
    assert(place("sofr_30d"@) == 22);
    assert forall|i: int| 0 <= i < 11 implies place((#[trigger] rows[i]).slug) == 12 + i by {
        if i == 0 {
            assert(rows[0].slug == "us_10y"@);
        } else if i == 1 {
            assert(rows[1].slug == "us_2y"@);
        } else if i == 2 {
            assert(rows[2].slug == "us_3m"@);
        } else if i == 3 {
            assert(rows[3].slug == "us_30y"@);
        } else if i == 4 {
            assert(rows[4].slug == "us_5y"@);
        } else if i == 5 {
            assert(rows[5].slug == "us_1y"@);
        } else if i == 6 {
            assert(rows[6].slug == "tips_10y"@);
        } else if i == 7 {
            assert(rows[7].slug == "breakeven_10y"@);
        } else if i == 8 {
            assert(rows[8].slug == "fed_funds"@);
        } else if i == 9 {
            assert(rows[9].slug == "cp_3m_rate"@);
        } else if i == 10 {
            assert(rows[10].slug == "sofr_30d"@);
        }
    }
}

/// The places of the entries of one section.
proof fn lemma_places_fred_employment()
    ensures
        fred_employment_rows().len() == 7,
        forall|i: int| 0 <= i < 7 ==> place((#[trigger] fred_employment_rows()[i]).slug) == 23 + i,
{
    reveal_strlit("unrate");
    reveal_strlit("nfp");
    reveal_strlit("jolts");
    reveal_strlit("initial_claims");
    reveal_strlit("continued_claims");
    reveal_strlit("labor_force_part");
    reveal_strlit("u6_rate");
    let rows = fred_employment_rows();
    assert(rows[0].slug == "unrate"@);
    assert("unrate"@.len() == 6);
    assert(place("unrate"@) == 23);
    assert(rows[1].slug == "nfp"@);
    assert("nfp"@.len() == 3);
    assert(place("nfp"@) == 24);
    assert(rows[2].slug == "jolts"@);
    assert("jolts"@.len() == 5);
    assert(place("jolts"@) == 25);
    assert(rows[3].slug == "initial_claims"@);
    assert("initial_claims"@.len() == 14);
    assert(place("initial_claims"@) == 26);
    assert(rows[4].slug == "continued_claims"@);
    assert("continued_claims"@.len() == 16);
    assert(place("continued_claims"@) == 27);
    assert(rows[5].slug == "labor_force_part"@);
    assert("labor_force_part"@.len() == 16);
    assert(place("labor_force_part"@) == 28);
    assert(rows[6].slug == "u6_rate"@);
    assert("u6_rate"@.len() == 7);
    assert(place("u6_rate"@) == 29);
    assert forall|i: int| 0 <= i < 7 implies place((#[trigger] rows[i]).slug) == 23 + i by {
        if i == 0 {
            assert(rows[0].slug == "unrate"@);
        } else if i == 1 {
            assert(rows[1].slug == "nfp"@);
        } else if i == 2 {
            assert(rows[2].slug == "jolts"@);
        } else if i == 3 {
            assert(rows[3].slug == "initial_claims"@);
        } else if i == 4 {
            assert(rows[4].slug == "continued_claims"@);
        } else if i == 5 {
            assert(rows[5].slug == "labor_force_part"@);
        } else if i == 6 {
            assert(rows[6].slug == "u6_rate"@);
        }
    }
}

/// The places of the entries of one section.
proof fn lemma_places_fred_inflation()
    ensures
        fred_inflation_rows().len() == 6,
        forall|i: int| 0 <= i < 6 ==> place((#[trigger] fred_inflation_rows()[i]).slug) == 30 + i,
{
    reveal_strlit("cpi");
    reveal_strlit("core_cpi");
    reveal_strlit("pce");
    reveal_strlit("core_pce");
    reveal_strlit("ppi");
    reveal_strlit("import_prices");
    let rows = fred_inflation_rows();
    assert(rows[0].slug == "cpi"@);
    assert("cpi"@.len() == 3);
    assert(place("cpi"@) == 30);
    assert(rows[1].slug == "core_cpi"@);
    assert("core_cpi"@.len() == 8);
    assert(place("core_cpi"@) == 31);
    assert(rows[2].slug == "pce"@);
    assert("pce"@.len() == 3);
    assert(place("pce"@) == 32);
    assert(rows[3].slug == "core_pce"@);
    assert("core_pce"@.len() == 8);
    assert(place("core_pce"@) == 33);
    assert(rows[4].slug == "ppi"@);
    assert("ppi"@.len() == 3);
    assert(place("ppi"@) == 34);
    assert(rows[5].slug == "import_prices"@);
    assert("import_prices"@.len() == 13);
    assert(place("import_prices"@) == 35);
    assert forall|i: int| 0 <= i < 6 implies place((#[trigger] rows[i]).slug) == 30 + i by {
        if i == 0 {
            assert(rows[0].slug == "cpi"@);
        } else if i == 1 {
            assert(rows[1].slug == "core_cpi"@);
        } else if i == 2 {
            assert(rows[2].slug == "pce"@);
        } else if i == 3 {
            assert(rows[3].slug == "core_pce"@);
        } else if i == 4 {
            assert(rows[4].slug == "ppi"@);
        } else if i == 5 {
            assert(rows[5].slug == "import_prices"@);
        }
    }
}

/// The places of the entries of one section.
proof fn lemma_places_fred_growth()
    ensures
        fred_growth_rows().len() == 6,
        forall|i: int| 0 <= i < 6 ==> place((#[trigger] fred_growth_rows()[i]).slug) == 36 + i,
{
    reveal_strlit("gdp");
    reveal_strlit("real_gdp");
    reveal_strlit("gdp_growth");
    reveal_strlit("industrial_prod");
    reveal_strlit("capacity_util");
    reveal_strlit("ism_pmi");
    let rows = fred_growth_rows();
    assert(rows[0].slug == "gdp"@);
    assert("gdp"@.len() == 3);
    assert(place("gdp"@) == 36);
    assert(rows[1].slug == "real_gdp"@);
    assert("real_gdp"@.len() == 8);
    assert(place("real_gdp"@) == 37);
    assert(rows[2].slug == "gdp_growth"@);
    assert("gdp_growth"@.len() == 10);
    assert(place("gdp_growth"@) == 38);
    assert(rows[3].slug == "industrial_prod"@);
    assert("industrial_prod"@.len() == 15);
    assert(place("industrial_prod"@) == 39);
    assert(rows[4].slug == "capacity_util"@);
    assert("capacity_util"@.len() == 13);
    assert(place("capacity_util"@) == 40);
    assert(rows[5].slug == "ism_pmi"@);
    assert("ism_pmi"@.len() == 7);
    assert(place("ism_pmi"@) == 41);
    assert forall|i: int| 0 <= i < 6 implies place((#[trigger] rows[i]).slug) == 36 + i by {
        if i == 0 {
            assert(rows[0].slug == "gdp"@);
        } else if i == 1 {
            assert(rows[1].slug == "real_gdp"@);
        } else if i == 2 {
            assert(rows[2].slug == "gdp_growth"@);
        } else if i == 3 {
            assert(rows[3].slug == "industrial_prod"@);
        } else if i == 4 {
            assert(rows[4].slug == "capacity_util"@);
        } else if i == 5 {
            assert(rows[5].slug == "ism_pmi"@);
        }
    }
}

/// The places of the entries of one section.
proof fn lemma_places_fred_consumer()
    ensures
        fred_consumer_rows().len() == 5,
        forall|i: int| 0 <= i < 5 ==> place((#[trigger] fred_consumer_rows()[i]).slug) == 42 + i,
{
    reveal_strlit("retail_sales");
    reveal_strlit("consumer_sentiment");
    reveal_strlit("personal_income");
    reveal_strlit("personal_spending");
    reveal_strlit("savings_rate");
    let rows = fred_consumer_rows();
    assert(rows[0].slug == "retail_sales"@);
    assert("retail_sales"@.len() == 12);
    assert(place("retail_sales"@) == 42);
    assert(rows[1].slug == "consumer_sentiment"@);
    assert("consumer_sentiment"@.len() == 18);
    assert(place("consumer_sentiment"@) == 43);
    assert(rows[2].slug == "personal_income"@);
    assert("personal_income"@.len() == 15);
    assert(place("personal_income"@) == 44);
    assert(rows[3].slug == "personal_spending"@);
    assert("personal_spending"@.len() == 17);
    assert(place("personal_spending"@) == 45);
    assert(rows[4].slug == "savings_rate"@);
    assert("savings_rate"@.len() == 12);
    assert(place("savings_rate"@) == 46);
    assert forall|i: int| 0 <= i < 5 implies place((#[trigger] rows[i]).slug) == 42 + i by {
        if i == 0 {
            assert(rows[0].slug == "retail_sales"@);
        } else if i == 1 {
            assert(rows[1].slug == "consumer_sentiment"@);
        } else if i == 2 {
            assert(rows[2].slug == "personal_income"@);
        } else if i == 3 {
            assert(rows[3].slug == "personal_spending"@);
        } else if i == 4 {
            assert(rows[4].slug == "savings_rate"@);
        }
    }
}

/// The places of the entries of one section.
proof fn lemma_places_fred_liquidity()
    ensures
        fred_liquidity_rows().len() == 6,
        forall|i: int| 0 <= i < 6 ==> place((#[trigger] fred_liquidity_rows()[i]).slug) == 47 + i,
{
    reveal_strlit("fed_balance_sheet");
    reveal_strlit("treasury_tga");
    reveal_strlit("fed_rrp");
    reveal_strlit("m2");
    reveal_strlit("m1");
    reveal_strlit("monetary_base");
    let rows = fred_liquidity_rows();
    assert(rows[0].slug == "fed_balance_sheet"@);
    assert("fed_balance_sheet"@.len() == 17);
    assert(place("fed_balance_sheet"@) == 47);
    assert(rows[1].slug == "treasury_tga"@);
    assert("treasury_tga"@.len() == 12);
    assert(place("treasury_tga"@) == 48);
    assert(rows[2].slug == "fed_rrp"@);
    assert("fed_rrp"@.len() == 7);
    assert(place("fed_rrp"@) == 49);
    assert(rows[3].slug == "m2"@);
    assert("m2"@.len() == 2);
    assert(place("m2"@) == 50);
    assert(rows[4].slug == "m1"@);
    assert("m1"@.len() == 2);
    assert(place("m1"@) == 51);
    assert(rows[5].slug == "monetary_base"@);
    assert("monetary_base"@.len() == 13);
    assert(place("monetary_base"@) == 52);
    assert forall|i: int| 0 <= i < 6 implies place((#[trigger] rows[i]).slug) == 47 + i by {
        if i == 0 {
            assert(rows[0].slug == "fed_balance_sheet"@);
        } else if i == 1 {
            assert(rows[1].slug == "treasury_tga"@);
        } else if i == 2 {
            assert(rows[2].slug == "fed_rrp"@);
        } else if i == 3 {
            assert(rows[3].slug == "m2"@);
        } else if i == 4 {
            assert(rows[4].slug == "m1"@);
        } else if i == 5 {
            assert(rows[5].slug == "monetary_base"@);
        }
    }
}

/// The places of the entries of one section.
proof fn lemma_places_fred_credit()
    ensures
        fred_credit_rows().len() == 5,
        forall|i: int| 0 <= i < 5 ==> place((#[trigger] fred_credit_rows()[i]).slug) == 53 + i,
{
    reveal_strlit("hy_spread");
    reveal_strlit("ig_spread");
    reveal_strlit("credit_spread");
    reveal_strlit("nfci");
    reveal_strlit("sloos");
    let rows = fred_credit_rows();
    assert(rows[0].slug == "hy_spread"@);
    assert("hy_spread"@.len() == 9);
    assert(place("hy_spread"@) == 53);
    assert(rows[1].slug == "ig_spread"@);
    assert("ig_spread"@.len() == 9);
    assert(place("ig_spread"@) == 54);
    assert(rows[2].slug == "credit_spread"@);
    assert("credit_spread"@.len() == 13);
    assert(place("credit_spread"@) == 55);
    assert(rows[3].slug == "nfci"@);
    assert("nfci"@.len() == 4);
    assert(place("nfci"@) == 56);
    assert(rows[4].slug == "sloos"@);
    assert("sloos"@.len() == 5);
    assert(place("sloos"@) == 57);
    assert forall|i: int| 0 <= i < 5 implies place((#[trigger] rows[i]).slug) == 53 + i by {
        if i == 0 {
            assert(rows[0].slug == "hy_spread"@);
        } else if i == 1 {
            assert(rows[1].slug == "ig_spread"@);
        } else if i == 2 {
            assert(rows[2].slug == "credit_spread"@);
        } else if i == 3 {
            assert(rows[3].slug == "nfci"@);
        } else if i == 4 {
            assert(rows[4].slug == "sloos"@);
        }
    }
}

/// The places of the entries of one section.
proof fn lemma_places_fred_housing()
    ensures
        fred_housing_rows().len() == 4,
        forall|i: int| 0 <= i < 4 ==> place((#[trigger] fred_housing_rows()[i]).slug) == 58 + i,
{
    reveal_strlit("case_shiller_index");
    reveal_strlit("mortgage_30y");
    reveal_strlit("housing_starts");
    reveal_strlit("building_permits");
    let rows = fred_housing_rows();
    assert(rows[0].slug == "case_shiller_index"@);
    assert("case_shiller_index"@.len() == 18);
    assert(place("case_shiller_index"@) == 58);
    assert(rows[1].slug == "mortgage_30y"@);
    assert("mortgage_30y"@.len() == 12);
    assert(place("mortgage_30y"@) == 59);
    assert(rows[2].slug == "housing_starts"@);
    assert("housing_starts"@.len() == 14);
    assert(place("housing_starts"@) == 60);
    assert(rows[3].slug == "building_permits"@);
    assert("building_permits"@.len() == 16);
    assert(place("building_permits"@) == 61);
    assert forall|i: int| 0 <= i < 4 implies place((#[trigger] rows[i]).slug) == 58 + i by {
        if i == 0 {
            assert(rows[0].slug == "case_shiller_index"@);
        } else if i == 1 {
            assert(rows[1].slug == "mortgage_30y"@);
        } else if i == 2 {
            assert(rows[2].slug == "housing_starts"@);
        } else if i == 3 {
            assert(rows[3].slug == "building_permits"@);
        }
    }
}

/// The places of the entries of one section.
proof fn lemma_places_tiingo_us_indices()
    ensures
        tiingo_us_indices_rows().len() == 7,
        forall|i: int| 0 <= i < 7 ==> place((#[trigger] tiingo_us_indices_rows()[i]).slug) == 62 + i,
{
    reveal_strlit("spx");
    reveal_strlit("ndx");
    reveal_strlit("djia");
    reveal_strlit("russell_2000");
    reveal_strlit("vix");
    reveal_strlit("vxn");
    reveal_strlit("skew");
    let rows = tiingo_us_indices_rows();
    assert(rows[0].slug == "spx"@);
    assert("spx"@.len() == 3);
    assert(place("spx"@) == 62);
    assert(rows[1].slug == "ndx"@);
    assert("ndx"@.len() == 3);
    assert(place("ndx"@) == 63);
    assert(rows[2].slug == "djia"@);
    assert("djia"@.len() == 4);
    assert(place("djia"@) == 64);
    assert(rows[3].slug == "russell_2000"@);
    assert("russell_2000"@.len() == 12);
    assert(place("russell_2000"@) == 65);
    assert(rows[4].slug == "vix"@);
    assert("vix"@.len() == 3);
    assert(place("vix"@) == 66);
    assert(rows[5].slug == "vxn"@);
    assert("vxn"@.len() == 3);
    assert(place("vxn"@) == 67);
    assert(rows[6].slug == "skew"@);
    assert("skew"@.len() == 4);
    assert(place("skew"@) == 68);
    assert forall|i: int| 0 <= i < 7 implies place((#[trigger] rows[i]).slug) == 62 + i by {
        if i == 0 {
            assert(rows[0].slug == "spx"@);
        } else if i == 1 {
            assert(rows[1].slug == "ndx"@);
        } else if i == 2 {
            assert(rows[2].slug == "djia"@);
        } else if i == 3 {
            assert(rows[3].slug == "russell_2000"@);
        } else if i == 4 {
            assert(rows[4].slug == "vix"@);
        } else if i == 5 {
            assert(rows[5].slug == "vxn"@);
        } else if i == 6 {
            assert(rows[6].slug == "skew"@);
        }
    }
}

/// The places of the entries of one section.
proof fn lemma_places_tiingo_global_indices()
    ensures
        tiingo_global_indices_rows().len() == 6,
        forall|i: int| 0 <= i < 6 ==> place((#[trigger] tiingo_global_indices_rows()[i]).slug) == 69 + i,
{
    reveal_strlit("nikkei");
    reveal_strlit("shanghai");
    reveal_strlit("hang_seng");
    reveal_strlit("dax");
    reveal_strlit("ftse");
    reveal_strlit("euro_stoxx");
    let rows = tiingo_global_indices_rows();
    assert(rows[0].slug == "nikkei"@);
    assert("nikkei"@.len() == 6);
    assert(place("nikkei"@) == 69);
    assert(rows[1].slug == "shanghai"@);
    assert("shanghai"@.len() == 8);
    assert(place("shanghai"@) == 70);
    assert(rows[2].slug == "hang_seng"@);
    assert("hang_seng"@.len() == 9);
    assert(place("hang_seng"@) == 71);
    assert(rows[3].slug == "dax"@);
    assert("dax"@.len() == 3);
    assert(place("dax"@) == 72);
    assert(rows[4].slug == "ftse"@);
    assert("ftse"@.len() == 4);
    assert(place("ftse"@) == 73);
    assert(rows[5].slug == "euro_stoxx"@);
    assert("euro_stoxx"@.len() == 10);
    assert(place("euro_stoxx"@) == 74);
    assert forall|i: int| 0 <= i < 6 implies place((#[trigger] rows[i]).slug) == 69 + i by {
        if i == 0 {
            assert(rows[0].slug == "nikkei"@);
        } else if i == 1 {
            assert(rows[1].slug == "shanghai"@);
        } else if i == 2 {
            assert(rows[2].slug == "hang_seng"@);
        } else if i == 3 {
            assert(rows[3].slug == "dax"@);
        } else if i == 4 {
            assert(rows[4].slug == "ftse"@);
        } else if i == 5 {
            assert(rows[5].slug == "euro_stoxx"@);
        }
    }
}

/// The places of the entries of one section.
proof fn lemma_places_tiingo_currencies()
    ensures
        tiingo_currencies_rows().len() == 5,
        forall|i: int| 0 <= i < 5 ==> place((#[trigger] tiingo_currencies_rows()[i]).slug) == 75 + i,
{
    reveal_strlit("dxy");
    reveal_strlit("eur_usd");
    reveal_strlit("usd_jpy");
    reveal_strlit("usd_cny");
    reveal_strlit("gbp_usd");
    let rows = tiingo_currencies_rows();
    assert(rows[0].slug == "dxy"@);
    assert("dxy"@.len() == 3);
    assert(place("dxy"@) == 75);
    assert(rows[1].slug == "eur_usd"@);
    assert("eur_usd"@.len() == 7);
    assert(place("eur_usd"@) == 76);
    assert(rows[2].slug == "usd_jpy"@);
    assert("usd_jpy"@.len() == 7);
    assert(place("usd_jpy"@) == 77);
    assert(rows[3].slug == "usd_cny"@);
    assert("usd_cny"@.len() == 7);
    assert(place("usd_cny"@) == 78);
    assert(rows[4].slug == "gbp_usd"@);
    assert("gbp_usd"@.len() == 7);
    assert(place("gbp_usd"@) == 79);
    assert forall|i: int| 0 <= i < 5 implies place((#[trigger] rows[i]).slug) == 75 + i by {
        if i == 0 {
            assert(rows[0].slug == "dxy"@);
        } else if i == 1 {
            assert(rows[1].slug == "eur_usd"@);
        } else if i == 2 {
            assert(rows[2].slug == "usd_jpy"@);
        } else if i == 3 {
            assert(rows[3].slug == "usd_cny"@);
        } else if i == 4 {
            assert(rows[4].slug == "gbp_usd"@);
        }
    }
}

/// The places of the entries of one section.
proof fn lemma_places_tiingo_commodities()
    ensures
        tiingo_commodities_rows().len() == 6,
        forall|i: int| 0 <= i < 6 ==> place((#[trigger] tiingo_commodities_rows()[i]).slug) == 80 + i,
{
    reveal_strlit("gold");
    reveal_strlit("silver");
    reveal_strlit("copper");
    reveal_strlit("oil_wti");
    reveal_strlit("oil_brent");
    reveal_strlit("natural_gas");
    let rows = tiingo_commodities_rows();
    assert(rows[0].slug == "gold"@);
    assert("gold"@.len() == 4);
    assert(place("gold"@) == 80);
    assert(rows[1].slug == "silver"@);
    assert("silver"@.len() == 6);
    assert(place("silver"@) == 81);
    assert(rows[2].slug == "copper"@);
    assert("copper"@.len() == 6);
    assert(place("copper"@) == 82);
    assert(rows[3].slug == "oil_wti"@);
    assert("oil_wti"@.len() == 7);
    assert(place("oil_wti"@) == 83);
    assert(rows[4].slug == "oil_brent"@);
    assert("oil_brent"@.len() == 9);
    assert(place("oil_brent"@) == 84);
    assert(rows[5].slug == "natural_gas"@);
    assert("natural_gas"@.len() == 11);
    assert(place("natural_gas"@) == 85);
    assert forall|i: int| 0 <= i < 6 implies place((#[trigger] rows[i]).slug) == 80 + i by {
        if i == 0 {
            assert(rows[0].slug == "gold"@);
        } else if i == 1 {
            assert(rows[1].slug == "silver"@);
        } else if i == 2 {
            assert(rows[2].slug == "copper"@);
        } else if i == 3 {
            assert(rows[3].slug == "oil_wti"@);
        } else if i == 4 {
            assert(rows[4].slug == "oil_brent"@);
        } else if i == 5 {
            assert(rows[5].slug == "natural_gas"@);
        }
    }
}

/// The places of the entries of one section.
proof fn lemma_places_binance_derivatives()
    ensures
        binance_derivatives_rows().len() == 5,
        forall|i: int| 0 <= i < 5 ==> place((#[trigger] binance_derivatives_rows()[i]).slug) == 86 + i,
{
    reveal_strlit("binance_btc_usdt");
    reveal_strlit("binance_eth_usdt");
    reveal_strlit("binance_funding_btc");
    reveal_strlit("binance_oi_btc");
    reveal_strlit("binance_ls_ratio");
    let rows = binance_derivatives_rows();
    assert(rows[0].slug == "binance_btc_usdt"@);
    assert("binance_btc_usdt"@.len() == 16);
    assert(place("binance_btc_usdt"@) == 86);
    assert(rows[1].slug == "binance_eth_usdt"@);
    assert("binance_eth_usdt"@.len() == 16);
    assert(place("binance_eth_usdt"@) == 87);
    assert(rows[2].slug == "binance_funding_btc"@);
    assert("binance_funding_btc"@.len() == 19);
    assert(place("binance_funding_btc"@) == 88);
    assert(rows[3].slug == "binance_oi_btc"@);
    assert("binance_oi_btc"@.len() == 14);
    assert(place("binance_oi_btc"@) == 89);
    assert(rows[4].slug == "binance_ls_ratio"@);
    assert("binance_ls_ratio"@.len() == 16);
    assert(place("binance_ls_ratio"@) == 90);
    assert forall|i: int| 0 <= i < 5 implies place((#[trigger] rows[i]).slug) == 86 + i by {
        if i == 0 {
            assert(rows[0].slug == "binance_btc_usdt"@);
        } else if i == 1 {
            assert(rows[1].slug == "binance_eth_usdt"@);
        } else if i == 2 {
            assert(rows[2].slug == "binance_funding_btc"@);
        } else if i == 3 {
            assert(rows[3].slug == "binance_oi_btc"@);
        } else if i == 4 {
            assert(rows[4].slug == "binance_ls_ratio"@);
        }
    }
}

/// The places of the entries of one section.
proof fn lemma_places_alternative_data()
    ensures
        alternative_data_rows().len() == 2,
        forall|i: int| 0 <= i < 2 ==> place((#[trigger] alternative_data_rows()[i]).slug) == 91 + i,
{
    reveal_strlit("fear_greed_index");
    reveal_strlit("crypto_fear_greed");
    let rows = alternative_data_rows();
    assert(rows[0].slug == "fear_greed_index"@);
    assert("fear_greed_index"@.len() == 16);
    assert(place("fear_greed_index"@) == 91);
    assert(rows[1].slug == "crypto_fear_greed"@);
    assert("crypto_fear_greed"@.len() == 17);
    assert(place("crypto_fear_greed"@) == 92);
    assert forall|i: int| 0 <= i < 2 implies place((#[trigger] rows[i]).slug) == 91 + i by {
        if i == 0 {
            assert(rows[0].slug == "fear_greed_index"@);
        } else if i == 1 {
            assert(rows[1].slug == "crypto_fear_greed"@);
        }
    }
}

/// The places of the entries of one section.
proof fn lemma_places_sector_etfs()
    ensures
        sector_etfs_rows().len() == 11,
        forall|i: int| 0 <= i < 11 ==> place((#[trigger] sector_etfs_rows()[i]).slug) == 93 + i,
{
    reveal_strlit("sector_xlk");
    reveal_strlit("sector_xlv");
    reveal_strlit("sector_xlf");
    reveal_strlit("sector_xly");
    reveal_strlit("sector_xlp");
    reveal_strlit("sector_xle");
    reveal_strlit("sector_xlu");
    reveal_strlit("sector_xlb");
    reveal_strlit("sector_xli");
    reveal_strlit("sector_xlre");
    reveal_strlit("sector_xlc");
    let rows = sector_etfs_rows();
    assert(rows[0].slug == "sector_xlk"@);
    assert("sector_xlk"@.len() == 10);
    assert(place("sector_xlk"@) == 93);
    assert(rows[1].slug == "sector_xlv"@);
    assert("sector_xlv"@.len() == 10);
    assert(place("sector_xlv"@) == 94);
    assert(rows[2].slug == "sector_xlf"@);
    assert("sector_xlf"@.len() == 10);
    assert(place("sector_xlf"@) == 95);
    assert(rows[3].slug == "sector_xly"@);
    assert("sector_xly"@.len() == 10);
    assert(place("sector_xly"@) == 96);
    assert(rows[4].slug == "sector_xlp"@);
    assert("sector_xlp"@.len() == 10);
    assert(place("sector_xlp"@) == 97);
    assert(rows[5].slug == "sector_xle"@);
    assert("sector_xle"@.len() == 10);
    assert(place("sector_xle"@) == 98);
    assert(rows[6].slug == "sector_xlu"@);
    assert("sector_xlu"@.len() == 10);
    assert(place("sector_xlu"@) == 99);
    assert(rows[7].slug == "sector_xlb"@);
    assert("sector_xlb"@.len() == 10);
    assert(place("sector_xlb"@) == 100);
    assert(rows[8].slug == "sector_xli"@);
    assert("sector_xli"@.len() == 10);
    assert(place("sector_xli"@) == 101);
    assert(rows[9].slug == "sector_xlre"@);
    assert("sector_xlre"@.len() == 11);
    assert(place("sector_xlre"@) == 102);
    assert(rows[10].slug == "sector_xlc"@);
    assert("sector_xlc"@.len() == 10);
    assert(place("sector_xlc"@) == 103);
    assert forall|i: int| 0 <= i < 11 implies place((#[trigger] rows[i]).slug) == 93 + i by {
        if i == 0 {
            assert(rows[0].slug == "sector_xlk"@);
        } else if i == 1 {
            assert(rows[1].slug == "sector_xlv"@);
        } else if i == 2 {
            assert(rows[2].slug == "sector_xlf"@);
        } else if i == 3 {
            assert(rows[3].slug == "sector_xly"@);
        } else if i == 4 {
            assert(rows[4].slug == "sector_xlp"@);
        } else if i == 5 {
            assert(rows[5].slug == "sector_xle"@);
        } else if i == 6 {
            assert(rows[6].slug == "sector_xlu"@);
        } else if i == 7 {
            assert(rows[7].slug == "sector_xlb"@);
        } else if i == 8 {
            assert(rows[8].slug == "sector_xli"@);
        } else if i == 9 {
            assert(rows[9].slug == "sector_xlre"@);
        } else if i == 10 {
            assert(rows[10].slug == "sector_xlc"@);
        }
    }
}

/// The places of the entries of one section.
proof fn lemma_places_internal_inputs()
    ensures
        internal_inputs_rows().len() == 3,
        forall|i: int| 0 <= i < 3 ==> place((#[trigger] internal_inputs_rows()[i]).slug) == 104 + i,
{
    reveal_strlit("ncbeilq027s");
    reveal_strlit("stlfsi4");
    reveal_strlit("SP500PE12M");
    let rows = internal_inputs_rows();
    assert(rows[0].slug == "ncbeilq027s"@);
    assert("ncbeilq027s"@.len() == 11);
    assert(place("ncbeilq027s"@) == 104);
    assert(rows[1].slug == "stlfsi4"@);
    assert("stlfsi4"@.len() == 7);
    assert(place("stlfsi4"@) == 105);
    assert(rows[2].slug == "SP500PE12M"@);
    assert("SP500PE12M"@.len() == 10);
    assert(place("SP500PE12M"@) == 106);
    assert forall|i: int| 0 <= i < 3 implies place((#[trigger] rows[i]).slug) == 104 + i by {
        if i == 0 {
            assert(rows[0].slug == "ncbeilq027s"@);
        } else if i == 1 {
            assert(rows[1].slug == "stlfsi4"@);
        } else if i == 2 {
            assert(rows[2].slug == "SP500PE12M"@);
        }
    }
}

/// Where each section stands in the standard catalog.
pub proof fn lemma_standard_sections()
    ensures
        standard_table().len() == 107,
        forall|i: int| 0 <= i < 11 ==> #[trigger] calculated_rows()[i] == standard_table()[0 + i],
        forall|i: int| 0 <= i < 1 ==> #[trigger] fred_valuation_rows()[i] == standard_table()[11 + i],
        forall|i: int| 0 <= i < 11 ==> #[trigger] fred_rates_rows()[i] == standard_table()[12 + i],
        forall|i: int| 0 <= i < 7 ==> #[trigger] fred_employment_rows()[i] == standard_table()[23 + i],
        forall|i: int| 0 <= i < 6 ==> #[trigger] fred_inflation_rows()[i] == standard_table()[30 + i],
        forall|i: int| 0 <= i < 6 ==> #[trigger] fred_growth_rows()[i] == standard_table()[36 + i],
        forall|i: int| 0 <= i < 5 ==> #[trigger] fred_consumer_rows()[i] == standard_table()[42 + i],
        forall|i: int| 0 <= i < 6 ==> #[trigger] fred_liquidity_rows()[i] == standard_table()[47 + i],
        forall|i: int| 0 <= i < 5 ==> #[trigger] fred_credit_rows()[i] == standard_table()[53 + i],
        forall|i: int| 0 <= i < 4 ==> #[trigger] fred_housing_rows()[i] == standard_table()[58 + i],
        forall|i: int| 0 <= i < 7 ==> #[trigger] tiingo_us_indices_rows()[i] == standard_table()[62 + i],
        forall|i: int| 0 <= i < 6 ==> #[trigger] tiingo_global_indices_rows()[i] == standard_table()[69 + i],
        forall|i: int| 0 <= i < 5 ==> #[trigger] tiingo_currencies_rows()[i] == standard_table()[75 + i],
        forall|i: int| 0 <= i < 6 ==> #[trigger] tiingo_commodities_rows()[i] == standard_table()[80 + i],
        forall|i: int| 0 <= i < 5 ==> #[trigger] binance_derivatives_rows()[i] == standard_table()[86 + i],
        forall|i: int| 0 <= i < 2 ==> #[trigger] alternative_data_rows()[i] == standard_table()[91 + i],
        forall|i: int| 0 <= i < 11 ==> #[trigger] sector_etfs_rows()[i] == standard_table()[93 + i],
        forall|i: int| 0 <= i < 3 ==> #[trigger] internal_inputs_rows()[i] == standard_table()[104 + i],
{
    lemma_places_calculated();
    lemma_places_fred_valuation();
    lemma_places_fred_rates();
    lemma_places_fred_employment();
    lemma_places_fred_inflation();
    lemma_places_fred_growth();
    lemma_places_fred_consumer();
    lemma_places_fred_liquidity();
    lemma_places_fred_credit();
    lemma_places_fred_housing();
    lemma_places_tiingo_us_indices();
    lemma_places_tiingo_global_indices();
    lemma_places_tiingo_currencies();
    lemma_places_tiingo_commodities();
    lemma_places_binance_derivatives();
    lemma_places_alternative_data();
    lemma_places_sector_etfs();
    lemma_places_internal_inputs();
}

/// Every entry of the standard catalog stands at the place of its slug.
proof fn lemma_standard_places()
    ensures
        standard_table().len() == 107,
        forall|k: int| 0 <= k < 107 ==> place((#[trigger] standard_table()[k]).slug) == k,
{
    lemma_standard_sections();
    lemma_places_calculated();
    lemma_places_fred_valuation();
    lemma_places_fred_rates();
    lemma_places_fred_employment();
    lemma_places_fred_inflation();
    lemma_places_fred_growth();
    lemma_places_fred_consumer();
    lemma_places_fred_liquidity();
    lemma_places_fred_credit();
    lemma_places_fred_housing();
    lemma_places_tiingo_us_indices();
    lemma_places_tiingo_global_indices();
    lemma_places_tiingo_currencies();
    lemma_places_tiingo_commodities();
    lemma_places_binance_derivatives();
    lemma_places_alternative_data();
    lemma_places_sector_etfs();
    lemma_places_internal_inputs();
    assert forall|k: int| 0 <= k < 107 implies place((#[trigger] standard_table()[k]).slug) == k by {
        if k < 11 {
            assert(calculated_rows()[k - 0] == standard_table()[k]);
        } else if k < 12 {
            assert(fred_valuation_rows()[k - 11] == standard_table()[k]);
        } else if k < 23 {
            assert(fred_rates_rows()[k - 12] == standard_table()[k]);
        } else if k < 30 {
            assert(fred_employment_rows()[k - 23] == standard_table()[k]);
        } else if k < 36 {
            assert(fred_inflation_rows()[k - 30] == standard_table()[k]);
        } else if k < 42 {
            assert(fred_growth_rows()[k - 36] == standard_table()[k]);
        } else if k < 47 {
            assert(fred_consumer_rows()[k - 42] == standard_table()[k]);
        } else if k < 53 {
            assert(fred_liquidity_rows()[k - 47] == standard_table()[k]);
        } else if k < 58 {
            assert(fred_credit_rows()[k - 53] == standard_table()[k]);
        } else if k < 62 {
            assert(fred_housing_rows()[k - 58] == standard_table()[k]);
        } else if k < 69 {
            assert(tiingo_us_indices_rows()[k - 62] == standard_table()[k]);
        } else if k < 75 {
            assert(tiingo_global_indices_rows()[k - 69] == standard_table()[k]);
        } else if k < 80 {
            assert(tiingo_currencies_rows()[k - 75] == standard_table()[k]);
        } else if k < 86 {
            assert(tiingo_commodities_rows()[k - 80] == standard_table()[k]);
        } else if k < 91 {
            assert(binance_derivatives_rows()[k - 86] == standard_table()[k]);
        } else if k < 93 {
            assert(alternative_data_rows()[k - 91] == standard_table()[k]);
        } else if k < 104 {
            assert(sector_etfs_rows()[k - 93] == standard_table()[k]);
        } else {
            assert(internal_inputs_rows()[k - 104] == standard_table()[k]);
        }
    }
}

/// The slug is the key of the standard catalog: no two of its entries carry
/// the same slug.
pub proof fn lemma_standard_slugs_differ()
    ensures
        distinct_slugs(standard_table()),
{
    lemma_standard_places();
    assert forall|i: int, j: int| 0 <= i < j < standard_table().len() implies (
    #[trigger] standard_table()[i]).slug != (#[trigger] standard_table()[j]).slug by {
        assert(place(standard_table()[i].slug) == i);
        assert(place(standard_table()[j].slug) == j);
    }
}

/// In the standard catalog the slug of every entry finds that entry.
pub proof fn lemma_standard_lookup(k: int)
    requires
        0 <= k < standard_table().len(),
    ensures
        lookup(standard_table(), standard_table()[k].slug) == Some(standard_table()[k]),
{
    lemma_standard_slugs_differ();
    lemma_lookup_finds(standard_table(), k);
}

} // verus!
