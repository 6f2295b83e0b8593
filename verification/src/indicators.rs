//! The computed indicators: what each one is called, which indicators it
//! reads, which inputs it accepts, and which observations it joins. The
//! arithmetic on the joined values is the caller's.

use vstd::prelude::*;
use crate::catalog::{
    calculated_rows,
    fred_growth_rows,
    fred_liquidity_rows,
    fred_rates_rows,
    fred_valuation_rows,
    internal_inputs_rows,
    lemma_standard_sections,
    lemma_standard_lookup,
    standard_table,
    tiingo_commodities_rows,
};
use crate::registry::{delivers, lookup, Registry, SourceType};
use crate::staleness::{elapsed_nanos, toward_zero};
use crate::text::same_text;
use crate::timeseries::{
    aligned,
    align_series,
    carried,
    normalized,
    DataPoint,
    MultiAlignedData,
    MultiAlignedView,
    TimeSeries,
    Timestamp,
};

verus! {

/// A computation over the series of other indicators.
pub trait CalculatedIndicator {
    /// The slug of the indicator that the computation gives.
    spec fn slug_text(&self) -> Seq<char>;

    /// The display name.
    spec fn name_text(&self) -> Seq<char>;

    /// The slugs of the indicators whose series the computation reads, in
    /// the order in which it takes them.
    spec fn inputs(&self) -> Seq<Seq<char>>;

    /// Whether the computation accepts that many input series.
    spec fn accepts(&self, count: nat) -> bool;

    /// What the computation says when it refuses the number of inputs.
    spec fn refusal_text(&self) -> Seq<char>;

    fn slug(&self) -> (r: &'static str)
        ensures
            r@ == self.slug_text(),
    ;

    fn name(&self) -> (r: &'static str)
        ensures
            r@ == self.name_text(),
    ;

    fn required_inputs(&self) -> (r: Vec<&'static str>)
        ensures
            r.deep_view() == self.inputs(),
    ;

    fn accepts_count(&self, count: usize) -> (r: bool)
        ensures
            r == self.accepts(count as nat),
    ;

    fn refusal(&self) -> (r: &'static str)
        ensures
            r@ == self.refusal_text(),
    ;
}

/// Market capitalisation of US equities over gross domestic product.
#[derive(Clone, Copy, Debug, PartialEq, Eq, Structural)]
pub struct BuffettIndicator;

impl CalculatedIndicator for BuffettIndicator {
    open spec fn slug_text(&self) -> Seq<char> {
        "buffett_indicator"@
    }

    open spec fn name_text(&self) -> Seq<char> {
        "Buffett Indicator (Market Cap / GDP)"@
    }

    open spec fn inputs(&self) -> Seq<Seq<char>> {
        seq!["us_market_cap"@, "gdp"@]
    }

    open spec fn accepts(&self, count: nat) -> bool {
        count >= 2
    }

    open spec fn refusal_text(&self) -> Seq<char> {
        "Buffett Indicator requires 2 inputs: Market Cap and GDP"@
    }

    fn slug(&self) -> (r: &'static str) {
        "buffett_indicator"
    }

    fn name(&self) -> (r: &'static str) {
        "Buffett Indicator (Market Cap / GDP)"
    }

    fn required_inputs(&self) -> (r: Vec<&'static str>) {
        let r: Vec<&'static str> = vec!["us_market_cap", "gdp"];
        assert(r.deep_view() =~= self.inputs());
        r
    }

    fn accepts_count(&self, count: usize) -> (r: bool) {
        count >= 2
    }

    fn refusal(&self) -> (r: &'static str) {
        "Buffett Indicator requires 2 inputs: Market Cap and GDP"
    }
}

/// The price of gold over the price of silver.
#[derive(Clone, Copy, Debug, PartialEq, Eq, Structural)]
pub struct GoldSilverRatio;

impl CalculatedIndicator for GoldSilverRatio {
    open spec fn slug_text(&self) -> Seq<char> {
        "gold_silver_ratio"@
    }

    open spec fn name_text(&self) -> Seq<char> {
        "Gold/Silver Ratio"@
    }

    open spec fn inputs(&self) -> Seq<Seq<char>> {
        seq!["gold"@, "silver"@]
    }

    open spec fn accepts(&self, count: nat) -> bool {
        count >= 2
    }

    open spec fn refusal_text(&self) -> Seq<char> {
        "Gold/Silver Ratio requires 2 inputs: Gold and Silver"@
    }

    fn slug(&self) -> (r: &'static str) {
        "gold_silver_ratio"
    }

    fn name(&self) -> (r: &'static str) {
        "Gold/Silver Ratio"
    }

    fn required_inputs(&self) -> (r: Vec<&'static str>) {
        let r: Vec<&'static str> = vec!["gold", "silver"];
        assert(r.deep_view() =~= self.inputs());
        r
    }

    fn accepts_count(&self, count: usize) -> (r: bool) {
        count >= 2
    }

    fn refusal(&self) -> (r: &'static str) {
        "Gold/Silver Ratio requires 2 inputs: Gold and Silver"
    }
}

/// The price of copper over the price of gold.
#[derive(Clone, Copy, Debug, PartialEq, Eq, Structural)]
pub struct CopperGoldRatio;

impl CalculatedIndicator for CopperGoldRatio {
    open spec fn slug_text(&self) -> Seq<char> {
        "copper_gold_ratio"@
    }

    open spec fn name_text(&self) -> Seq<char> {
        "Copper/Gold Ratio"@
    }

    open spec fn inputs(&self) -> Seq<Seq<char>> {
        seq!["copper"@, "gold"@]
    }

    open spec fn accepts(&self, count: nat) -> bool {
        count >= 2
    }

    open spec fn refusal_text(&self) -> Seq<char> {
        "Missing input data (copper, gold)"@
    }

    fn slug(&self) -> (r: &'static str) {
        "copper_gold_ratio"
    }

    fn name(&self) -> (r: &'static str) {
        "Copper/Gold Ratio"
    }

    fn required_inputs(&self) -> (r: Vec<&'static str>) {
        let r: Vec<&'static str> = vec!["copper", "gold"];
        assert(r.deep_view() =~= self.inputs());
        r
    }

    fn accepts_count(&self, count: usize) -> (r: bool) {
        count >= 2
    }

    fn refusal(&self) -> (r: &'static str) {
        "Missing input data (copper, gold)"
    }
}

/// The financial stress index, taken over as it is published.
#[derive(Clone, Copy, Debug, PartialEq, Eq, Structural)]
pub struct FinancialStress;

impl CalculatedIndicator for FinancialStress {
    open spec fn slug_text(&self) -> Seq<char> {
        "financial_stress"@
    }

    open spec fn name_text(&self) -> Seq<char> {
        "St. Louis Fed Financial Stress Index"@
    }

    open spec fn inputs(&self) -> Seq<Seq<char>> {
        seq!["stlfsi4"@]
    }

    open spec fn accepts(&self, count: nat) -> bool {
        count >= 1
    }

    open spec fn refusal_text(&self) -> Seq<char> {
        "Missing input data (STLFSI4)"@
    }

    fn slug(&self) -> (r: &'static str) {
        "financial_stress"
    }

    fn name(&self) -> (r: &'static str) {
        "St. Louis Fed Financial Stress Index"
    }

    fn required_inputs(&self) -> (r: Vec<&'static str>) {
        let r: Vec<&'static str> = vec!["stlfsi4"];
        assert(r.deep_view() =~= self.inputs());
        r
    }

    fn accepts_count(&self, count: usize) -> (r: bool) {
        count >= 1
    }

    fn refusal(&self) -> (r: &'static str) {
        "Missing input data (STLFSI4)"
    }
}

/// Central bank assets less the treasury account and the reverse repo facility.
#[derive(Clone, Copy, Debug, PartialEq, Eq, Structural)]
pub struct NetLiquidity;

impl CalculatedIndicator for NetLiquidity {
    open spec fn slug_text(&self) -> Seq<char> {
        "net_liquidity"@
    }

    open spec fn name_text(&self) -> Seq<char> {
        "Net Liquidity (Fed Assets - TGA - RRP)"@
    }

    open spec fn inputs(&self) -> Seq<Seq<char>> {
        seq!["fed_balance_sheet"@, "treasury_tga"@, "fed_rrp"@]
    }

    open spec fn accepts(&self, count: nat) -> bool {
        count >= 3
    }

    open spec fn refusal_text(&self) -> Seq<char> {
        "Net Liquidity requires 3 inputs: Fed Assets, TGA, RRP"@
    }

    fn slug(&self) -> (r: &'static str) {
        "net_liquidity"
    }

    fn name(&self) -> (r: &'static str) {
        "Net Liquidity (Fed Assets - TGA - RRP)"
    }

    fn required_inputs(&self) -> (r: Vec<&'static str>) {
        let r: Vec<&'static str> = vec!["fed_balance_sheet", "treasury_tga", "fed_rrp"];
        assert(r.deep_view() =~= self.inputs());
        r
    }

    fn accepts_count(&self, count: usize) -> (r: bool) {
        count >= 3
    }

    fn refusal(&self) -> (r: &'static str) {
        "Net Liquidity requires 3 inputs: Fed Assets, TGA, RRP"
    }
}

/// The commercial paper rate less the treasury bill rate.
#[derive(Clone, Copy, Debug, PartialEq, Eq, Structural)]
pub struct CommercialPaperSpread;

impl CalculatedIndicator for CommercialPaperSpread {
    open spec fn slug_text(&self) -> Seq<char> {
        "cp_bill_spread"@
    }

    open spec fn name_text(&self) -> Seq<char> {
        "Commercial Paper Spread"@
    }

    open spec fn inputs(&self) -> Seq<Seq<char>> {
        seq!["cp_3m_rate"@, "us_3m"@]
    }

    open spec fn accepts(&self, count: nat) -> bool {
        count >= 2
    }

    open spec fn refusal_text(&self) -> Seq<char> {
        "CP Spread requires 2 inputs: CP 3M and T-Bill 3M"@
    }

    fn slug(&self) -> (r: &'static str) {
        "cp_bill_spread"
    }

    fn name(&self) -> (r: &'static str) {
        "Commercial Paper Spread"
    }

    fn required_inputs(&self) -> (r: Vec<&'static str>) {
        let r: Vec<&'static str> = vec!["cp_3m_rate", "us_3m"];
        assert(r.deep_view() =~= self.inputs());
        r
    }

    fn accepts_count(&self, count: usize) -> (r: bool) {
        count >= 2
    }

    fn refusal(&self) -> (r: &'static str) {
        "CP Spread requires 2 inputs: CP 3M and T-Bill 3M"
    }
}

/// The secured overnight rate less the policy rate.
#[derive(Clone, Copy, Debug, PartialEq, Eq, Structural)]
pub struct SofrSpread;

impl CalculatedIndicator for SofrSpread {
    open spec fn slug_text(&self) -> Seq<char> {
        "sofr_spread"@
    }

    open spec fn name_text(&self) -> Seq<char> {
        "SOFR - Fed Funds Spread"@
    }

    open spec fn inputs(&self) -> Seq<Seq<char>> {
        seq!["sofr_30d"@, "fed_funds"@]
    }

    open spec fn accepts(&self, count: nat) -> bool {
        count >= 2
    }

    open spec fn refusal_text(&self) -> Seq<char> {
        "SOFR Spread requires 2 inputs: SOFR and Fed Funds"@
    }

    fn slug(&self) -> (r: &'static str) {
        "sofr_spread"
    }

    fn name(&self) -> (r: &'static str) {
        "SOFR - Fed Funds Spread"
    }

    fn required_inputs(&self) -> (r: Vec<&'static str>) {
        let r: Vec<&'static str> = vec!["sofr_30d", "fed_funds"];
        assert(r.deep_view() =~= self.inputs());
        r
    }

    fn accepts_count(&self, count: usize) -> (r: bool) {
        count >= 2
    }

    fn refusal(&self) -> (r: &'static str) {
        "SOFR Spread requires 2 inputs: SOFR and Fed Funds"
    }
}

/// The ten-year yield less expected inflation.
#[derive(Clone, Copy, Debug, PartialEq, Eq, Structural)]
pub struct RealYield10Y;

impl CalculatedIndicator for RealYield10Y {
    open spec fn slug_text(&self) -> Seq<char> {
        "real_yield"@
    }

    open spec fn name_text(&self) -> Seq<char> {
        "Real Yield (10Y)"@
    }

    open spec fn inputs(&self) -> Seq<Seq<char>> {
        seq!["us_10y"@, "breakeven_10y"@]
    }

    open spec fn accepts(&self, count: nat) -> bool {
        count >= 2
    }

    open spec fn refusal_text(&self) -> Seq<char> {
        "Real Yield requires 2 inputs: 10Y Yield and Breakeven Inflation"@
    }

    fn slug(&self) -> (r: &'static str) {
        "real_yield"
    }

    fn name(&self) -> (r: &'static str) {
        "Real Yield (10Y)"
    }

    fn required_inputs(&self) -> (r: Vec<&'static str>) {
        let r: Vec<&'static str> = vec!["us_10y", "breakeven_10y"];
        assert(r.deep_view() =~= self.inputs());
        r
    }

    fn accepts_count(&self, count: usize) -> (r: bool) {
        count >= 2
    }

    fn refusal(&self) -> (r: &'static str) {
        "Real Yield requires 2 inputs: 10Y Yield and Breakeven Inflation"
    }
}

/// The ten-year yield less the two-year yield.
#[derive(Clone, Copy, Debug, PartialEq, Eq, Structural)]
pub struct YieldCurve10Y2Y;

impl CalculatedIndicator for YieldCurve10Y2Y {
    open spec fn slug_text(&self) -> Seq<char> {
        "yield_curve_10y_2y"@
    }

    open spec fn name_text(&self) -> Seq<char> {
        "Yield Curve Spread (10Y - 2Y)"@
    }

    open spec fn inputs(&self) -> Seq<Seq<char>> {
        seq!["us_10y"@, "us_2y"@]
    }

    open spec fn accepts(&self, count: nat) -> bool {
        count >= 2
    }

    open spec fn refusal_text(&self) -> Seq<char> {
        "Spread calculation requires 2 inputs: 10Y (DGS10) and 2Y (DGS2)"@
    }

    fn slug(&self) -> (r: &'static str) {
        "yield_curve_10y_2y"
    }

    fn name(&self) -> (r: &'static str) {
        "Yield Curve Spread (10Y - 2Y)"
    }

    fn required_inputs(&self) -> (r: Vec<&'static str>) {
        let r: Vec<&'static str> = vec!["us_10y", "us_2y"];
        assert(r.deep_view() =~= self.inputs());
        r
    }

    fn accepts_count(&self, count: usize) -> (r: bool) {
        count >= 2
    }

    fn refusal(&self) -> (r: &'static str) {
        "Spread calculation requires 2 inputs: 10Y (DGS10) and 2Y (DGS2)"
    }
}

/// The ten-year yield less the three-month yield.
#[derive(Clone, Copy, Debug, PartialEq, Eq, Structural)]
pub struct YieldCurve10Y3M;

impl CalculatedIndicator for YieldCurve10Y3M {
    open spec fn slug_text(&self) -> Seq<char> {
        "yield_curve_10y_3m"@
    }

    open spec fn name_text(&self) -> Seq<char> {
        "Yield Curve Spread (10Y - 3M)"@
    }

    open spec fn inputs(&self) -> Seq<Seq<char>> {
        seq!["us_10y"@, "us_3m"@]
    }

    open spec fn accepts(&self, count: nat) -> bool {
        count >= 2
    }

    open spec fn refusal_text(&self) -> Seq<char> {
        "Spread calculation requires 2 inputs: 10Y (DGS10) and 3M (DGS3MO)"@
    }

    fn slug(&self) -> (r: &'static str) {
        "yield_curve_10y_3m"
    }

    fn name(&self) -> (r: &'static str) {
        "Yield Curve Spread (10Y - 3M)"
    }

    fn required_inputs(&self) -> (r: Vec<&'static str>) {
        let r: Vec<&'static str> = vec!["us_10y", "us_3m"];
        assert(r.deep_view() =~= self.inputs());
        r
    }

    fn accepts_count(&self, count: usize) -> (r: bool) {
        count >= 2
    }

    fn refusal(&self) -> (r: &'static str) {
        "Spread calculation requires 2 inputs: 10Y (DGS10) and 3M (DGS3MO)"
    }
}

/// The earnings yield of equities less the ten-year yield.
#[derive(Clone, Copy, Debug, PartialEq, Eq, Structural)]
pub struct YieldGap;

impl CalculatedIndicator for YieldGap {
    open spec fn slug_text(&self) -> Seq<char> {
        "yield_gap"@
    }

    open spec fn name_text(&self) -> Seq<char> {
        "Yield Gap (Earnings Yield - 10Y Treasury)"@
    }

    open spec fn inputs(&self) -> Seq<Seq<char>> {
        seq!["SP500PE12M"@, "us_10y"@]
    }

    open spec fn accepts(&self, count: nat) -> bool {
        count >= 2
    }

    open spec fn refusal_text(&self) -> Seq<char> {
        "Yield Gap requires 2 inputs: PE Ratio and 10Y Yield"@
    }

    fn slug(&self) -> (r: &'static str) {
        "yield_gap"
    }

    fn name(&self) -> (r: &'static str) {
        "Yield Gap (Earnings Yield - 10Y Treasury)"
    }

    fn required_inputs(&self) -> (r: Vec<&'static str>) {
        let r: Vec<&'static str> = vec!["SP500PE12M", "us_10y"];
        assert(r.deep_view() =~= self.inputs());
        r
    }

    fn accepts_count(&self, count: usize) -> (r: bool) {
        count >= 2
    }

    fn refusal(&self) -> (r: &'static str) {
        "Yield Gap requires 2 inputs: PE Ratio and 10Y Yield"
    }
}

/// The price-earnings ratio plus the yearly rate of inflation. The unit is registered nowhere: the catalog
/// does not list its indicator, and no indicator resolves through it.
#[derive(Clone, Copy, Debug, PartialEq, Eq, Structural)]
pub struct RuleOf20;

impl CalculatedIndicator for RuleOf20 {
    open spec fn slug_text(&self) -> Seq<char> {
        "rule_of_20"@
    }

    open spec fn name_text(&self) -> Seq<char> {
        "Rule of 20"@
    }

    open spec fn inputs(&self) -> Seq<Seq<char>> {
        seq!["SP500PE12M"@, "cpi"@]
    }

    open spec fn accepts(&self, count: nat) -> bool {
        count == 2
    }

    open spec fn refusal_text(&self) -> Seq<char> {
        "Rule of 20 requires SP500PE12M and CPI"@
    }

    fn slug(&self) -> (r: &'static str) {
        "rule_of_20"
    }

    fn name(&self) -> (r: &'static str) {
        "Rule of 20"
    }

    fn required_inputs(&self) -> (r: Vec<&'static str>) {
        let r: Vec<&'static str> = vec!["SP500PE12M", "cpi"];
        assert(r.deep_view() =~= self.inputs());
        r
    }

    fn accepts_count(&self, count: usize) -> (r: bool) {
        count == 2
    }

    fn refusal(&self) -> (r: &'static str) {
        "Rule of 20 requires SP500PE12M and CPI"
    }
}

/// Three-month implied volatility over one-month implied volatility. The unit is registered nowhere: the catalog
/// does not list its indicator, and no indicator resolves through it.
#[derive(Clone, Copy, Debug, PartialEq, Eq, Structural)]
pub struct VixTermStructure;

impl CalculatedIndicator for VixTermStructure {
    open spec fn slug_text(&self) -> Seq<char> {
        "vix_term_structure"@
    }

    open spec fn name_text(&self) -> Seq<char> {
        "VIX Term Structure"@
    }

    open spec fn inputs(&self) -> Seq<Seq<char>> {
        seq!["vix_3m"@, "vix"@]
    }

    open spec fn accepts(&self, count: nat) -> bool {
        count == 2
    }

    open spec fn refusal_text(&self) -> Seq<char> {
        "VIX Term Structure requires VIX3M and VIX"@
    }

    fn slug(&self) -> (r: &'static str) {
        "vix_term_structure"
    }

    fn name(&self) -> (r: &'static str) {
        "VIX Term Structure"
    }

    fn required_inputs(&self) -> (r: Vec<&'static str>) {
        let r: Vec<&'static str> = vec!["vix_3m", "vix"];
        assert(r.deep_view() =~= self.inputs());
        r
    }

    fn accepts_count(&self, count: usize) -> (r: bool) {
        count == 2
    }

    fn refusal(&self) -> (r: &'static str) {
        "VIX Term Structure requires VIX3M and VIX"
    }
}

/// The technology index over the broad index. The unit is registered nowhere: the catalog
/// does not list its indicator, and no indicator resolves through it.
#[derive(Clone, Copy, Debug, PartialEq, Eq, Structural)]
pub struct NdxSpxRatio;

impl CalculatedIndicator for NdxSpxRatio {
    open spec fn slug_text(&self) -> Seq<char> {
        "ndx_spx_ratio"@
    }

    open spec fn name_text(&self) -> Seq<char> {
        "NDX / SPX Ratio"@
    }

    open spec fn inputs(&self) -> Seq<Seq<char>> {
        seq!["ndx"@, "spx"@]
    }

    open spec fn accepts(&self, count: nat) -> bool {
        count == 2
    }

    open spec fn refusal_text(&self) -> Seq<char> {
        "NDX/SPX Ratio requires 2 inputs"@
    }

    fn slug(&self) -> (r: &'static str) {
        "ndx_spx_ratio"
    }

    fn name(&self) -> (r: &'static str) {
        "NDX / SPX Ratio"
    }

    fn required_inputs(&self) -> (r: Vec<&'static str>) {
        let r: Vec<&'static str> = vec!["ndx", "spx"];
        assert(r.deep_view() =~= self.inputs());
        r
    }

    fn accepts_count(&self, count: usize) -> (r: bool) {
        count == 2
    }

    fn refusal(&self) -> (r: &'static str) {
        "NDX/SPX Ratio requires 2 inputs"
    }
}

/// The computations that the catalog knows, one for each computed indicator
/// that can be resolved.
#[derive(Clone, Copy, Debug, PartialEq, Eq, Structural)]
pub enum Calculator {
    Buffett,
    GoldSilver,
    CopperGold,
    FinancialStress,
    NetLiquidity,
    CommercialPaperSpread,
    SofrSpread,
    RealYield,
    YieldCurve10Y2Y,
    YieldCurve10Y3M,
    YieldGap,
}

/// The computation registered under a slug, if there is one.
pub open spec fn calculator_for(slug: Seq<char>) -> Option<Calculator> {
    if slug == "buffett_indicator"@ {
        Some(Calculator::Buffett)
    } else     if slug == "gold_silver_ratio"@ {
        Some(Calculator::GoldSilver)
    } else     if slug == "copper_gold_ratio"@ {
        Some(Calculator::CopperGold)
    } else     if slug == "financial_stress"@ {
        Some(Calculator::FinancialStress)
    } else     if slug == "net_liquidity"@ {
        Some(Calculator::NetLiquidity)
    } else     if slug == "cp_bill_spread"@ {
        Some(Calculator::CommercialPaperSpread)
    } else     if slug == "sofr_spread"@ {
        Some(Calculator::SofrSpread)
    } else     if slug == "real_yield"@ {
        Some(Calculator::RealYield)
    } else     if slug == "yield_curve_10y_2y"@ {
        Some(Calculator::YieldCurve10Y2Y)
    } else     if slug == "yield_curve_10y_3m"@ {
        Some(Calculator::YieldCurve10Y3M)
    } else     if slug == "yield_gap"@ {
        Some(Calculator::YieldGap)
    } else {
        None
    }
}

/// Why a computation refuses its inputs.
#[derive(Clone, Copy, Debug, PartialEq, Eq, Structural)]
pub enum CalcError {
    /// The number of input series is not one that the computation accepts.
    MissingInputs,
    /// An input series that must hold observations holds none.
    EmptyInput,
    /// The input series share no instant after alignment.
    NoOverlap,
}

/// Each observation of one series as a row of its own.
pub open spec fn single_rows(points: Seq<DataPoint>) -> Seq<MultiAlignedView> {
    Seq::new(
        points.len(),
        |i: int| MultiAlignedView { timestamp: points[i].timestamp, values: seq![points[i].value] },
    )
}

/// The rows of two aligned series.
pub open spec fn pair_rows(rows: Seq<(Timestamp, u64, u64)>) -> Seq<MultiAlignedView> {
    Seq::new(
        rows.len(),
        |i: int| MultiAlignedView { timestamp: rows[i].0, values: seq![rows[i].1, rows[i].2] },
    )
}

/// The rows with one more value each: the one that the ascending series `c`
/// carries forward to the row's instant. Rows before `c` begins are dropped.
pub open spec fn extended(rows: Seq<MultiAlignedView>, c: Seq<DataPoint>) -> Seq<MultiAlignedView>
    decreases rows.len(),
{
    if rows.len() == 0 {
        Seq::empty()
    } else {
        let head = extended(rows.drop_last(), c);
        match carried(c, rows.last().timestamp) {
            Some(v) => head.push(
                MultiAlignedView {
                    timestamp: rows.last().timestamp,
                    values: rows.last().values.push(v),
                },
            ),
            None => head,
        }
    }
}

impl Calculator {
    pub open spec fn slug_text(self) -> Seq<char> {
        match self {
            Calculator::Buffett => BuffettIndicator.slug_text(),
            Calculator::GoldSilver => GoldSilverRatio.slug_text(),
            Calculator::CopperGold => CopperGoldRatio.slug_text(),
            Calculator::FinancialStress => FinancialStress.slug_text(),
            Calculator::NetLiquidity => NetLiquidity.slug_text(),
            Calculator::CommercialPaperSpread => CommercialPaperSpread.slug_text(),
            Calculator::SofrSpread => SofrSpread.slug_text(),
            Calculator::RealYield => RealYield10Y.slug_text(),
            Calculator::YieldCurve10Y2Y => YieldCurve10Y2Y.slug_text(),
            Calculator::YieldCurve10Y3M => YieldCurve10Y3M.slug_text(),
            Calculator::YieldGap => YieldGap.slug_text(),
        }
    }

    pub open spec fn name_text(self) -> Seq<char> {
        match self {
            Calculator::Buffett => BuffettIndicator.name_text(),
            Calculator::GoldSilver => GoldSilverRatio.name_text(),
            Calculator::CopperGold => CopperGoldRatio.name_text(),
            Calculator::FinancialStress => FinancialStress.name_text(),
            Calculator::NetLiquidity => NetLiquidity.name_text(),
            Calculator::CommercialPaperSpread => CommercialPaperSpread.name_text(),
            Calculator::SofrSpread => SofrSpread.name_text(),
            Calculator::RealYield => RealYield10Y.name_text(),
            Calculator::YieldCurve10Y2Y => YieldCurve10Y2Y.name_text(),
            Calculator::YieldCurve10Y3M => YieldCurve10Y3M.name_text(),
            Calculator::YieldGap => YieldGap.name_text(),
        }
    }

    pub open spec fn inputs(self) -> Seq<Seq<char>> {
        match self {
            Calculator::Buffett => BuffettIndicator.inputs(),
            Calculator::GoldSilver => GoldSilverRatio.inputs(),
            Calculator::CopperGold => CopperGoldRatio.inputs(),
            Calculator::FinancialStress => FinancialStress.inputs(),
            Calculator::NetLiquidity => NetLiquidity.inputs(),
            Calculator::CommercialPaperSpread => CommercialPaperSpread.inputs(),
            Calculator::SofrSpread => SofrSpread.inputs(),
            Calculator::RealYield => RealYield10Y.inputs(),
            Calculator::YieldCurve10Y2Y => YieldCurve10Y2Y.inputs(),
            Calculator::YieldCurve10Y3M => YieldCurve10Y3M.inputs(),
            Calculator::YieldGap => YieldGap.inputs(),
        }
    }

    pub open spec fn accepts(self, count: nat) -> bool {
        match self {
            Calculator::Buffett => BuffettIndicator.accepts(count),
            Calculator::GoldSilver => GoldSilverRatio.accepts(count),
            Calculator::CopperGold => CopperGoldRatio.accepts(count),
            Calculator::FinancialStress => FinancialStress.accepts(count),
            Calculator::NetLiquidity => NetLiquidity.accepts(count),
            Calculator::CommercialPaperSpread => CommercialPaperSpread.accepts(count),
            Calculator::SofrSpread => SofrSpread.accepts(count),
            Calculator::RealYield => RealYield10Y.accepts(count),
            Calculator::YieldCurve10Y2Y => YieldCurve10Y2Y.accepts(count),
            Calculator::YieldCurve10Y3M => YieldCurve10Y3M.accepts(count),
            Calculator::YieldGap => YieldGap.accepts(count),
        }
    }

    pub open spec fn refusal_text(self) -> Seq<char> {
        match self {
            Calculator::Buffett => BuffettIndicator.refusal_text(),
            Calculator::GoldSilver => GoldSilverRatio.refusal_text(),
            Calculator::CopperGold => CopperGoldRatio.refusal_text(),
            Calculator::FinancialStress => FinancialStress.refusal_text(),
            Calculator::NetLiquidity => NetLiquidity.refusal_text(),
            Calculator::CommercialPaperSpread => CommercialPaperSpread.refusal_text(),
            Calculator::SofrSpread => SofrSpread.refusal_text(),
            Calculator::RealYield => RealYield10Y.refusal_text(),
            Calculator::YieldCurve10Y2Y => YieldCurve10Y2Y.refusal_text(),
            Calculator::YieldCurve10Y3M => YieldCurve10Y3M.refusal_text(),
            Calculator::YieldGap => YieldGap.refusal_text(),
        }
    }

    /// What the computation says of an error.
    pub open spec fn error_text(self, error: CalcError) -> Seq<char> {
        match error {
            CalcError::MissingInputs => self.refusal_text(),
            CalcError::EmptyInput => "Empty input data for Buffett Indicator"@,
            CalcError::NoOverlap => "No overlapping data after alignment"@,
        }
    }

    /// The rows that the computation combines, or why it refuses the inputs.
    ///
    /// The stress index takes its one input as it is. Net liquidity joins
    /// its first two inputs by forward fill and then carries the third to
    /// each row. Every other computation joins its first two inputs by
    /// forward fill; the market-value ratio refuses an empty input, and the
    /// copper ratio refuses inputs that share no row.
    pub open spec fn spec_rows(self, inputs: Seq<Seq<DataPoint>>) -> Result<
        Seq<MultiAlignedView>,
        CalcError,
    > {
        if !self.accepts(inputs.len()) {
            Err(CalcError::MissingInputs)
        } else {
            match self {
                Calculator::FinancialStress => Ok(single_rows(inputs[0])),
                Calculator::NetLiquidity => Ok(
                    extended(
                        pair_rows(aligned(normalized(inputs[0]), normalized(inputs[1]))),
                        normalized(inputs[2]),
                    ),
                ),
                Calculator::Buffett => if inputs[0].len() == 0 || inputs[1].len() == 0 {
                    Err(CalcError::EmptyInput)
                } else {
                    Ok(pair_rows(aligned(normalized(inputs[0]), normalized(inputs[1]))))
                },
                Calculator::CopperGold => if aligned(
                    normalized(inputs[0]),
                    normalized(inputs[1]),
                ).len() == 0 {
                    Err(CalcError::NoOverlap)
                } else {
                    Ok(pair_rows(aligned(normalized(inputs[0]), normalized(inputs[1]))))
                },
                _ => Ok(pair_rows(aligned(normalized(inputs[0]), normalized(inputs[1])))),
            }
        }
    }

    pub fn slug(&self) -> (r: &'static str)
        ensures
            r@ == self.slug_text(),
    {
        match self {
            Calculator::Buffett => BuffettIndicator.slug(),
            Calculator::GoldSilver => GoldSilverRatio.slug(),
            Calculator::CopperGold => CopperGoldRatio.slug(),
            Calculator::FinancialStress => FinancialStress.slug(),
            Calculator::NetLiquidity => NetLiquidity.slug(),
            Calculator::CommercialPaperSpread => CommercialPaperSpread.slug(),
            Calculator::SofrSpread => SofrSpread.slug(),
            Calculator::RealYield => RealYield10Y.slug(),
            Calculator::YieldCurve10Y2Y => YieldCurve10Y2Y.slug(),
            Calculator::YieldCurve10Y3M => YieldCurve10Y3M.slug(),
            Calculator::YieldGap => YieldGap.slug(),
        }
    }

    pub fn name(&self) -> (r: &'static str)
        ensures
            r@ == self.name_text(),
    {
        match self {
            Calculator::Buffett => BuffettIndicator.name(),
            Calculator::GoldSilver => GoldSilverRatio.name(),
            Calculator::CopperGold => CopperGoldRatio.name(),
            Calculator::FinancialStress => FinancialStress.name(),
            Calculator::NetLiquidity => NetLiquidity.name(),
            Calculator::CommercialPaperSpread => CommercialPaperSpread.name(),
            Calculator::SofrSpread => SofrSpread.name(),
            Calculator::RealYield => RealYield10Y.name(),
            Calculator::YieldCurve10Y2Y => YieldCurve10Y2Y.name(),
            Calculator::YieldCurve10Y3M => YieldCurve10Y3M.name(),
            Calculator::YieldGap => YieldGap.name(),
        }
    }

    pub fn required_inputs(&self) -> (r: Vec<&'static str>)
        ensures
            r.deep_view() == self.inputs(),
    {
        match self {
            Calculator::Buffett => BuffettIndicator.required_inputs(),
            Calculator::GoldSilver => GoldSilverRatio.required_inputs(),
            Calculator::CopperGold => CopperGoldRatio.required_inputs(),
            Calculator::FinancialStress => FinancialStress.required_inputs(),
            Calculator::NetLiquidity => NetLiquidity.required_inputs(),
            Calculator::CommercialPaperSpread => CommercialPaperSpread.required_inputs(),
            Calculator::SofrSpread => SofrSpread.required_inputs(),
            Calculator::RealYield => RealYield10Y.required_inputs(),
            Calculator::YieldCurve10Y2Y => YieldCurve10Y2Y.required_inputs(),
            Calculator::YieldCurve10Y3M => YieldCurve10Y3M.required_inputs(),
            Calculator::YieldGap => YieldGap.required_inputs(),
        }
    }

    pub fn accepts_count(&self, count: usize) -> (r: bool)
        ensures
            r == self.accepts(count as nat),
    {
        match self {
            Calculator::Buffett => BuffettIndicator.accepts_count(count),
            Calculator::GoldSilver => GoldSilverRatio.accepts_count(count),
            Calculator::CopperGold => CopperGoldRatio.accepts_count(count),
            Calculator::FinancialStress => FinancialStress.accepts_count(count),
            Calculator::NetLiquidity => NetLiquidity.accepts_count(count),
            Calculator::CommercialPaperSpread => CommercialPaperSpread.accepts_count(count),
            Calculator::SofrSpread => SofrSpread.accepts_count(count),
            Calculator::RealYield => RealYield10Y.accepts_count(count),
            Calculator::YieldCurve10Y2Y => YieldCurve10Y2Y.accepts_count(count),
            Calculator::YieldCurve10Y3M => YieldCurve10Y3M.accepts_count(count),
            Calculator::YieldGap => YieldGap.accepts_count(count),
        }
    }

    /// What the computation says of an error.
    pub fn describe(&self, error: CalcError) -> (r: &'static str)
        ensures
            r@ == self.error_text(error),
    {
        match error {
            CalcError::MissingInputs => match self {
                Calculator::Buffett => BuffettIndicator.refusal(),
                Calculator::GoldSilver => GoldSilverRatio.refusal(),
                Calculator::CopperGold => CopperGoldRatio.refusal(),
                Calculator::FinancialStress => FinancialStress.refusal(),
                Calculator::NetLiquidity => NetLiquidity.refusal(),
                Calculator::CommercialPaperSpread => CommercialPaperSpread.refusal(),
                Calculator::SofrSpread => SofrSpread.refusal(),
                Calculator::RealYield => RealYield10Y.refusal(),
                Calculator::YieldCurve10Y2Y => YieldCurve10Y2Y.refusal(),
                Calculator::YieldCurve10Y3M => YieldCurve10Y3M.refusal(),
                Calculator::YieldGap => YieldGap.refusal(),
            },
            CalcError::EmptyInput => "Empty input data for Buffett Indicator",
            CalcError::NoOverlap => "No overlapping data after alignment",
        }
    }

    /// The rows that the computation combines, or why it refuses the inputs.
    pub fn rows(&self, inputs: &Vec<Vec<DataPoint>>) -> (r: Result<Vec<MultiAlignedData>, CalcError>)
        ensures
            match r {
                Ok(rows) => self.spec_rows(inputs.deep_view()) == Ok::<
                    Seq<MultiAlignedView>,
                    CalcError,
                >(rows.deep_view()),
                Err(error) => self.spec_rows(inputs.deep_view()) == Err::<
                    Seq<MultiAlignedView>,
                    CalcError,
                >(error),
            },
    {
        if !self.accepts_count(inputs.len()) {
            return Err(CalcError::MissingInputs);
        }
        proof {
            lemma_inputs_view(inputs);
        }
        match self {
            Calculator::FinancialStress => Ok(rows_of_series(&inputs[0])),
            Calculator::NetLiquidity => {
                let pairs = align_series(inputs[0].as_slice(), inputs[1].as_slice(), "ffill");
                let third = TimeSeries::from_points(inputs[2].as_slice());
                Ok(extend_rows(rows_of_pairs(&pairs), &third))
            },
            Calculator::Buffett => {
                if inputs[0].len() == 0 || inputs[1].len() == 0 {
                    return Err(CalcError::EmptyInput);
                }
                let pairs = align_series(inputs[0].as_slice(), inputs[1].as_slice(), "ffill");
                Ok(rows_of_pairs(&pairs))
            },
            Calculator::CopperGold => {
                let pairs = align_series(inputs[0].as_slice(), inputs[1].as_slice(), "ffill");
                if pairs.len() == 0 {
                    return Err(CalcError::NoOverlap);
                }
                Ok(rows_of_pairs(&pairs))
            },
            _ => {
                let pairs = align_series(inputs[0].as_slice(), inputs[1].as_slice(), "inner");
                Ok(rows_of_pairs(&pairs))
            },
        }
    }
}

/// The day on which an instant falls, counted from the first day of 1970.
pub open spec fn day_number(t: Timestamp) -> int {
    t.secs as int / 86400
}

/// The first point of the series from position `from` on that lies at the
/// instant `t`.
pub open spec fn first_at(s: Seq<DataPoint>, t: Timestamp, from: int) -> Option<DataPoint>
    decreases s.len() - from,
{
    if from < 0 || from >= s.len() {
        None
    } else if s[from].timestamp == t {
        Some(s[from])
    } else {
        first_at(s, t, from + 1)
    }
}

/// The first point of the series from position `from` on that lies on the
/// day of the instant `t`.
pub open spec fn first_on_day(s: Seq<DataPoint>, t: Timestamp, from: int) -> Option<DataPoint>
    decreases s.len() - from,
{
    if from < 0 || from >= s.len() {
        None
    } else if day_number(s[from].timestamp) == day_number(t) {
        Some(s[from])
    } else {
        first_on_day(s, t, from + 1)
    }
}

/// The point of the series that goes with the instant `t`: the first one at
/// that instant, or where there is none, the first one on its day.
pub open spec fn partner(s: Seq<DataPoint>, t: Timestamp) -> Option<DataPoint> {
    match first_at(s, t, 0) {
        Some(p) => Some(p),
        None => first_on_day(s, t, 0),
    }
}

/// The points of `above` that have a partner in `below`, each with the
/// value of its partner, in the order of `above`.
pub open spec fn day_rows(above: Seq<DataPoint>, below: Seq<DataPoint>) -> Seq<
    (Timestamp, u64, u64),
>
    decreases above.len(),
{
    if above.len() == 0 {
        Seq::empty()
    } else {
        let head = day_rows(above.drop_last(), below);
        match partner(below, above.last().timestamp) {
            Some(p) => head.push((above.last().timestamp, above.last().value, p.value)),
            None => head,
        }
    }
}

/// The day on which an instant falls.
fn day_of(t: &Timestamp) -> (day: i64)
    ensures
        day == day_number(*t),
{
    if t.secs >= 0 {
        t.secs / 86400
    } else {
        (t.secs + 1) / 86400 - 1
    }
}

/// The point of the series that goes with the instant `t`.
fn find_partner(s: &Vec<DataPoint>, t: &Timestamp) -> (r: Option<DataPoint>)
    ensures
        r == partner(s@, *t),
{
    let mut i: usize = 0;
    while i < s.len()
        invariant
            i <= s.len(),
            first_at(s@, *t, 0) == first_at(s@, *t, i as int),
        decreases s.len() - i,
    {
        if s[i].timestamp.same_instant(t) {
            return Some(s[i]);
        }
        i += 1;
    }
    let day = day_of(t);
    let mut i: usize = 0;
    while i < s.len()
        invariant
            i <= s.len(),
            day == day_number(*t),
            first_at(s@, *t, 0) is None,
            first_on_day(s@, *t, 0) == first_on_day(s@, *t, i as int),
        decreases s.len() - i,
    {
        if day_of(&s[i].timestamp) == day {
            return Some(s[i]);
        }
        i += 1;
    }
    None
}

/// The rows of a quotient of two series that are joined by day.
fn rows_by_day(above: &Vec<DataPoint>, below: &Vec<DataPoint>) -> (rows: Vec<(Timestamp, u64, u64)>)
    ensures
        rows@ == day_rows(above@, below@),
{
    let mut rows: Vec<(Timestamp, u64, u64)> = Vec::new();
    let mut i: usize = 0;
    while i < above.len()
        invariant
            i <= above.len(),
            rows@ == day_rows(above@.subrange(0, i as int), below@),
        decreases above.len() - i,
    {
        proof {
            assert(above@.subrange(0, i + 1).drop_last() =~= above@.subrange(0, i as int));
        }
        match find_partner(below, &above[i].timestamp) {
            Some(p) => {
                rows.push((above[i].timestamp, above[i].value, p.value));
            },
            None => {},
        }
        i += 1;
    }
    assert(above@.subrange(0, i as int) =~= above@);
    rows
}

/// What the two quotients by day make of their inputs: a refusal unless
/// there are exactly two series, else the rows of the first series joined
/// with the second by day.
pub open spec fn spec_day_rows(inputs: Seq<Seq<DataPoint>>) -> Result<
    Seq<(Timestamp, u64, u64)>,
    CalcError,
> {
    if inputs.len() != 2 {
        Err(CalcError::MissingInputs)
    } else {
        Ok(day_rows(inputs[0], inputs[1]))
    }
}

/// The rows of the two quotients by day, or the refusal of the inputs.
fn quotient_rows(inputs: &Vec<Vec<DataPoint>>) -> (r: Result<Vec<(Timestamp, u64, u64)>, CalcError>)
    ensures
        match r {
            Ok(rows) => spec_day_rows(inputs.deep_view()) == Ok::<
                Seq<(Timestamp, u64, u64)>,
                CalcError,
            >(rows@),
            Err(error) => spec_day_rows(inputs.deep_view()) == Err::<
                Seq<(Timestamp, u64, u64)>,
                CalcError,
            >(error),
        },
{
    proof {
        lemma_inputs_view(inputs);
    }
    if inputs.len() != 2 {
        return Err(CalcError::MissingInputs);
    }
    Ok(rows_by_day(&inputs[0], &inputs[1]))
}

impl VixTermStructure {
    /// The rows of the quotient: each observation of the three-month
    /// volatility with the one-month volatility at the same instant, or
    /// where there is none, on the same day.
    pub fn rows(&self, inputs: &Vec<Vec<DataPoint>>) -> (r: Result<
        Vec<(Timestamp, u64, u64)>,
        CalcError,
    >)
        ensures
            match r {
                Ok(rows) => spec_day_rows(inputs.deep_view()) == Ok::<
                    Seq<(Timestamp, u64, u64)>,
                    CalcError,
                >(rows@),
                Err(error) => spec_day_rows(inputs.deep_view()) == Err::<
                    Seq<(Timestamp, u64, u64)>,
                    CalcError,
                >(error),
            },
    {
        quotient_rows(inputs)
    }
}

impl NdxSpxRatio {
    /// The rows of the quotient: each observation of the technology index
    /// with the broad index at the same instant, or where there is none, on
    /// the same day.
    pub fn rows(&self, inputs: &Vec<Vec<DataPoint>>) -> (r: Result<
        Vec<(Timestamp, u64, u64)>,
        CalcError,
    >)
        ensures
            match r {
                Ok(rows) => spec_day_rows(inputs.deep_view()) == Ok::<
                    Seq<(Timestamp, u64, u64)>,
                    CalcError,
                >(rows@),
                Err(error) => spec_day_rows(inputs.deep_view()) == Err::<
                    Seq<(Timestamp, u64, u64)>,
                    CalcError,
                >(error),
            },
    {
        quotient_rows(inputs)
    }
}

/// How many days back a rate may lie to go with a valuation.
pub const RATE_WINDOW_DAYS: i64 = 65;

/// The whole days from `earlier` to `later`: the whole seconds first, then
/// the whole days of those, each rounded toward zero.
pub open spec fn whole_days(later: Timestamp, earlier: Timestamp) -> int {
    toward_zero(toward_zero(elapsed_nanos(later, earlier), 1_000_000_000), 86400)
}

/// Whether a rate may go with a valuation at the instant `t`: it lies at or
/// before `t` and fewer whole days back than the window.
pub open spec fn in_window(rate: DataPoint, t: Timestamp) -> bool {
    rate.timestamp.key() <= t.key() && whole_days(t, rate.timestamp) < RATE_WINDOW_DAYS
}

/// The rate that goes with a valuation at the instant `t`: of the rates in
/// the window the one that lies the fewest whole days back, and of several
/// such the first in the given order.
pub open spec fn nearest_rate(rates: Seq<DataPoint>, t: Timestamp) -> Option<DataPoint>
    decreases rates.len(),
{
    if rates.len() == 0 {
        None
    } else {
        let before = nearest_rate(rates.drop_last(), t);
        let rate = rates.last();
        if in_window(rate, t) && (before is None || whole_days(t, rate.timestamp) < whole_days(
            t,
            before->0.timestamp,
        )) {
            Some(rate)
        } else {
            before
        }
    }
}

/// The valuations that have a rate in their window, each with the value of
/// its nearest rate, in the order of the valuations.
pub open spec fn rate_rows(valuations: Seq<DataPoint>, rates: Seq<DataPoint>) -> Seq<
    (Timestamp, u64, u64),
>
    decreases valuations.len(),
{
    if valuations.len() == 0 {
        Seq::empty()
    } else {
        let head = rate_rows(valuations.drop_last(), rates);
        match nearest_rate(rates, valuations.last().timestamp) {
            Some(rate) => head.push(
                (valuations.last().timestamp, valuations.last().value, rate.value),
            ),
            None => head,
        }
    }
}

/// The rate that goes with a valuation is one of the rates, lies in the
/// window, and no rate in the window lies fewer whole days back. No rate
/// goes with the valuation only where none lies in the window.
pub proof fn lemma_nearest_rate(rates: Seq<DataPoint>, t: Timestamp)
    ensures
        match nearest_rate(rates, t) {
            Some(found) => rates.contains(found) && in_window(found, t) && forall|i: int|
                0 <= i < rates.len() && in_window(#[trigger] rates[i], t) ==> whole_days(
                    t,
                    found.timestamp,
                ) <= whole_days(t, rates[i].timestamp),
            None => forall|i: int| 0 <= i < rates.len() ==> !in_window(#[trigger] rates[i], t),
        },
    decreases rates.len(),
{
    if rates.len() > 0 {
        let head = rates.drop_last();
        let last = rates.len() - 1;
        lemma_nearest_rate(head, t);
        assert(rates[last] == rates.last());
        match nearest_rate(head, t) {
            Some(before) => {
                let k = choose|k: int| 0 <= k < head.len() && head[k] == before;
                assert(rates[k] == before);
            },
            None => {},
        }
        assert forall|i: int| 0 <= i < last implies head[i] == #[trigger] rates[i] by {}
    }
}

/// The whole days from `earlier` to `later`.
fn days_between(later: &Timestamp, earlier: &Timestamp) -> (days: i128)
    ensures
        days == whole_days(*later, *earlier),
{
    let seconds: i128 = later.secs as i128 - earlier.secs as i128;
    let nanos: i128 = seconds * 1_000_000_000 + (later.nanos as i128 - earlier.nanos as i128);
    let whole_seconds: i128 = if nanos >= 0 {
        nanos / 1_000_000_000
    } else {
        -((-nanos) / 1_000_000_000)
    };
    if whole_seconds >= 0 {
        whole_seconds / 86400
    } else {
        -((-whole_seconds) / 86400)
    }
}

/// The rate that goes with a valuation at the instant `t`.
fn find_rate(rates: &Vec<DataPoint>, t: &Timestamp) -> (r: Option<DataPoint>)
    ensures
        r == nearest_rate(rates@, *t),
{
    let mut found: Option<DataPoint> = None;
    let mut back: i128 = 0;
    let mut i: usize = 0;
    while i < rates.len()
        invariant
            i <= rates.len(),
            found == nearest_rate(rates@.subrange(0, i as int), *t),
            found matches Some(rate) ==> back == whole_days(*t, rate.timestamp),
        decreases rates.len() - i,
    {
        let rate = rates[i];
        proof {
            assert(rates@.subrange(0, i + 1).drop_last() =~= rates@.subrange(0, i as int));
        }
        if !t.is_before(&rate.timestamp) {
            let days = days_between(t, &rate.timestamp);
            if days < 65 && (found.is_none() || days < back) {
                found = Some(rate);
                back = days;
            }
        }
        i += 1;
    }
    assert(rates@.subrange(0, i as int) =~= rates@);
    found
}

impl RuleOf20 {
    /// The rows of the sum: each valuation with the rate that lies nearest
    /// before it within the window, in the order of the valuations.
    /// Valuations without a rate in their window give no row.
    pub fn pair(&self, valuations: &Vec<DataPoint>, rates: &Vec<DataPoint>) -> (rows: Vec<
        (Timestamp, u64, u64),
    >)
        ensures
            rows@ == rate_rows(valuations@, rates@),
    {
        let mut rows: Vec<(Timestamp, u64, u64)> = Vec::new();
        let mut i: usize = 0;
        while i < valuations.len()
            invariant
                i <= valuations.len(),
                rows@ == rate_rows(valuations@.subrange(0, i as int), rates@),
            decreases valuations.len() - i,
        {
            proof {
                assert(valuations@.subrange(0, i + 1).drop_last() =~= valuations@.subrange(
                    0,
                    i as int,
                ));
            }
            match find_rate(rates, &valuations[i].timestamp) {
                Some(rate) => {
                    rows.push((valuations[i].timestamp, valuations[i].value, rate.value));
                },
                None => {},
            }
            i += 1;
        }
        assert(valuations@.subrange(0, i as int) =~= valuations@);
        rows
    }
}

/// The deep view of a list of series is the list of their views.
pub proof fn lemma_inputs_view(inputs: &Vec<Vec<DataPoint>>)
    ensures
        inputs.deep_view().len() == inputs.len(),
        forall|i: int| 0 <= i < inputs.len() ==> #[trigger] inputs.deep_view()[i] == inputs[i]@,
{
    assert forall|i: int| 0 <= i < inputs.len() implies #[trigger] inputs.deep_view()[i]
        == inputs[i]@ by {
        assert(inputs[i].deep_view() =~= inputs[i]@);
    }
}

/// Each observation of one series as a row of its own.
fn rows_of_series(points: &Vec<DataPoint>) -> (r: Vec<MultiAlignedData>)
    ensures
        r.deep_view() == single_rows(points@),
{
    let mut r: Vec<MultiAlignedData> = Vec::new();
    let mut i: usize = 0;
    while i < points.len()
        invariant
            i <= points.len(),
            r.deep_view() == single_rows(points@.subrange(0, i as int)),
        decreases points.len() - i,
    {
        let ghost before = r.deep_view();
        let mut values: Vec<u64> = Vec::new();
        values.push(points[i].value);
        assert(values@ =~= seq![points[i as int].value]);
        let row = MultiAlignedData { timestamp: points[i].timestamp, values };
        let ghost content = row@;
        r.push(row);
        assert(r.deep_view() =~= before.push(content));
        assert(before.push(content) =~= single_rows(points@.subrange(0, i + 1)));
        i += 1;
    }
    assert(points@.subrange(0, i as int) =~= points@);
    r
}

/// The rows of two aligned series.
fn rows_of_pairs(rows: &Vec<(Timestamp, u64, u64)>) -> (r: Vec<MultiAlignedData>)
    ensures
        r.deep_view() == pair_rows(rows@),
{
    let mut r: Vec<MultiAlignedData> = Vec::new();
    let mut i: usize = 0;
    while i < rows.len()
        invariant
            i <= rows.len(),
            r.deep_view() == pair_rows(rows@.subrange(0, i as int)),
        decreases rows.len() - i,
    {
        let ghost before = r.deep_view();
        let mut values: Vec<u64> = Vec::new();
        values.push(rows[i].1);
        values.push(rows[i].2);
        assert(values@ =~= seq![rows[i as int].1, rows[i as int].2]);
        let row = MultiAlignedData { timestamp: rows[i].0, values };
        let ghost content = row@;
        r.push(row);
        assert(r.deep_view() =~= before.push(content));
        assert(before.push(content) =~= pair_rows(rows@.subrange(0, i + 1)));
        i += 1;
    }
    assert(rows@.subrange(0, i as int) =~= rows@);
    r
}

/// The rows with the value that `c` carries to each appended.
fn extend_rows(rows: Vec<MultiAlignedData>, c: &TimeSeries) -> (r: Vec<MultiAlignedData>)
    ensures
        r.deep_view() == extended(rows.deep_view(), c@),
{
    let mut r: Vec<MultiAlignedData> = Vec::new();
    let mut i: usize = 0;
    while i < rows.len()
        invariant
            i <= rows.len(),
            r.deep_view() == extended(rows.deep_view().subrange(0, i as int), c@),
        decreases rows.len() - i,
    {
        let row = &rows[i];
        proof {
            assert(rows.deep_view().subrange(0, i + 1).drop_last() =~= rows.deep_view().subrange(
                0,
                i as int,
            ));
            assert(rows.deep_view().subrange(0, i + 1).last() == row@);
        }
        match c.carried_to(&row.timestamp) {
            Some(v) => {
                let ghost before = r.deep_view();
                let mut values: Vec<u64> = copy_values(&row.values);
                values.push(v);
                r.push(MultiAlignedData { timestamp: row.timestamp, values });
                assert(r.deep_view() =~= before.push(
                    MultiAlignedView { timestamp: row.timestamp, values: row.values@.push(v) },
                ));
            },
            None => {},
        }
        i += 1;
    }
    assert(rows.deep_view().subrange(0, i as int) =~= rows.deep_view());
    r
}

/// A copy of the values.
fn copy_values(values: &Vec<u64>) -> (r: Vec<u64>)
    ensures
        r@ == values@,
{
    let mut r: Vec<u64> = Vec::new();
    let mut i: usize = 0;
    while i < values.len()
        invariant
            i <= values.len(),
            r@ == values@.subrange(0, i as int),
        decreases values.len() - i,
    {
        r.push(values[i]);
        assert(values@.subrange(0, i + 1) =~= values@.subrange(0, i as int).push(values@[i as int]));
        i += 1;
    }
    assert(values@.subrange(0, i as int) =~= values@);
    r
}

/// Every series that a computation of the catalog reads is an entry of the
/// standard catalog under the slug by which the computation names it, and
/// that entry is one that a provider delivers: it is not computed.
pub proof fn lemma_inputs_are_listed(calculator: Calculator)
    ensures
        forall|i: int|
            0 <= i < calculator.inputs().len() ==> is_raw_entry(
                #[trigger] calculator.inputs()[i],
            ),
{
    assert forall|i: int| 0 <= i < calculator.inputs().len() implies is_raw_entry(
        #[trigger] calculator.inputs()[i],
    ) by {
        lemma_listed(calculator.inputs()[i]);
    }
}

/// Whether the standard catalog holds an entry under the slug that a
/// provider delivers.
pub open spec fn is_raw_entry(slug: Seq<char>) -> bool {
    lookup(standard_table(), slug) is Some && lookup(standard_table(), slug)->0.slug == slug
        && delivers(lookup(standard_table(), slug)->0.source)
}

/// Whether the standard catalog lists the computation as a computed
/// indicator under its slug, and the slug finds the computation.
pub open spec fn is_listed_computation(calculator: Calculator) -> bool {
    &&& lookup(standard_table(), calculator.slug_text()) is Some
    &&& lookup(standard_table(), calculator.slug_text())->0.source == SourceType::Calculated
    &&& calculator_for(calculator.slug_text()) == Some(calculator)
}


/// The entry of the standard catalog under one of the slugs.
proof fn lemma_listed_us_market_cap()
    ensures
        is_raw_entry("us_market_cap"@),
{
    lemma_standard_sections();
    assert(fred_valuation_rows()[0] == standard_table()[11]);
    assert(standard_table()[11].slug == "us_market_cap"@);
    lemma_standard_lookup(11);
}

/// The entry of the standard catalog under one of the slugs.
proof fn lemma_listed_gdp()
    ensures
        is_raw_entry("gdp"@),
{
    lemma_standard_sections();
    assert(fred_growth_rows()[0] == standard_table()[36]);
    assert(standard_table()[36].slug == "gdp"@);
    lemma_standard_lookup(36);
}

/// The entry of the standard catalog under one of the slugs.
proof fn lemma_listed_gold()
    ensures
        is_raw_entry("gold"@),
{
    lemma_standard_sections();
    assert(tiingo_commodities_rows()[0] == standard_table()[80]);
    assert(standard_table()[80].slug == "gold"@);
    lemma_standard_lookup(80);
}

/// The entry of the standard catalog under one of the slugs.
proof fn lemma_listed_silver()
    ensures
        is_raw_entry("silver"@),
{
    lemma_standard_sections();
    assert(tiingo_commodities_rows()[1] == standard_table()[81]);
    assert(standard_table()[81].slug == "silver"@);
    lemma_standard_lookup(81);
}

/// The entry of the standard catalog under one of the slugs.
proof fn lemma_listed_copper()
    ensures
        is_raw_entry("copper"@),
{
    lemma_standard_sections();
    assert(tiingo_commodities_rows()[2] == standard_table()[82]);
    assert(standard_table()[82].slug == "copper"@);
    lemma_standard_lookup(82);
}

/// The entry of the standard catalog under one of the slugs.
proof fn lemma_listed_stlfsi4()
    ensures
        is_raw_entry("stlfsi4"@),
{
    lemma_standard_sections();
    assert(internal_inputs_rows()[1] == standard_table()[105]);
    assert(standard_table()[105].slug == "stlfsi4"@);
    lemma_standard_lookup(105);
}

/// The entry of the standard catalog under one of the slugs.
proof fn lemma_listed_fed_balance_sheet()
    ensures
        is_raw_entry("fed_balance_sheet"@),
{
    lemma_standard_sections();
    assert(fred_liquidity_rows()[0] == standard_table()[47]);
    assert(standard_table()[47].slug == "fed_balance_sheet"@);
    lemma_standard_lookup(47);
}

/// The entry of the standard catalog under one of the slugs.
proof fn lemma_listed_treasury_tga()
    ensures
        is_raw_entry("treasury_tga"@),
{
    lemma_standard_sections();
    assert(fred_liquidity_rows()[1] == standard_table()[48]);
    assert(standard_table()[48].slug == "treasury_tga"@);
    lemma_standard_lookup(48);
}

/// The entry of the standard catalog under one of the slugs.
proof fn lemma_listed_fed_rrp()
    ensures
        is_raw_entry("fed_rrp"@),
{
    lemma_standard_sections();
    assert(fred_liquidity_rows()[2] == standard_table()[49]);
    assert(standard_table()[49].slug == "fed_rrp"@);
    lemma_standard_lookup(49);
}

/// The entry of the standard catalog under one of the slugs.
proof fn lemma_listed_cp_3m_rate()
    ensures
        is_raw_entry("cp_3m_rate"@),
{
    lemma_standard_sections();
    assert(fred_rates_rows()[9] == standard_table()[21]);
    assert(standard_table()[21].slug == "cp_3m_rate"@);
    lemma_standard_lookup(21);
}

/// The entry of the standard catalog under one of the slugs.
proof fn lemma_listed_us_3m()
    ensures
        is_raw_entry("us_3m"@),
{
    lemma_standard_sections();
    assert(fred_rates_rows()[2] == standard_table()[14]);
    assert(standard_table()[14].slug == "us_3m"@);
    lemma_standard_lookup(14);
}

/// The entry of the standard catalog under one of the slugs.
proof fn lemma_listed_sofr_30d()
    ensures
        is_raw_entry("sofr_30d"@),
{
    lemma_standard_sections();
    assert(fred_rates_rows()[10] == standard_table()[22]);
    assert(standard_table()[22].slug == "sofr_30d"@);
    lemma_standard_lookup(22);
}

/// The entry of the standard catalog under one of the slugs.
proof fn lemma_listed_fed_funds()
    ensures
        is_raw_entry("fed_funds"@),
{
    lemma_standard_sections();
    assert(fred_rates_rows()[8] == standard_table()[20]);
    assert(standard_table()[20].slug == "fed_funds"@);
    lemma_standard_lookup(20);
}

/// The entry of the standard catalog under one of the slugs.
proof fn lemma_listed_us_10y()
    ensures
        is_raw_entry("us_10y"@),
{
    lemma_standard_sections();
    assert(fred_rates_rows()[0] == standard_table()[12]);
    assert(standard_table()[12].slug == "us_10y"@);
    lemma_standard_lookup(12);
}

/// The entry of the standard catalog under one of the slugs.
proof fn lemma_listed_breakeven_10y()
    ensures
        is_raw_entry("breakeven_10y"@),
{
    lemma_standard_sections();
    assert(fred_rates_rows()[7] == standard_table()[19]);
    assert(standard_table()[19].slug == "breakeven_10y"@);
    lemma_standard_lookup(19);
}

/// The entry of the standard catalog under one of the slugs.
proof fn lemma_listed_us_2y()
    ensures
        is_raw_entry("us_2y"@),
{
    lemma_standard_sections();
    assert(fred_rates_rows()[1] == standard_table()[13]);
    assert(standard_table()[13].slug == "us_2y"@);
    lemma_standard_lookup(13);
}

/// The entry of the standard catalog under one of the slugs.
proof fn lemma_listed_sp500pe12m()
    ensures
        is_raw_entry("SP500PE12M"@),
{
    lemma_standard_sections();
    assert(internal_inputs_rows()[2] == standard_table()[106]);
    assert(standard_table()[106].slug == "SP500PE12M"@);
    lemma_standard_lookup(106);
}

/// The slugs that the computations read are entries of the standard catalog.
proof fn lemma_listed(slug: Seq<char>)
    requires
        slug == "us_market_cap"@
            || slug == "gdp"@
            || slug == "gold"@
            || slug == "silver"@
            || slug == "copper"@
            || slug == "stlfsi4"@
            || slug == "fed_balance_sheet"@
            || slug == "treasury_tga"@
            || slug == "fed_rrp"@
            || slug == "cp_3m_rate"@
            || slug == "us_3m"@
            || slug == "sofr_30d"@
            || slug == "fed_funds"@
            || slug == "us_10y"@
            || slug == "breakeven_10y"@
            || slug == "us_2y"@
            || slug == "SP500PE12M"@,
    ensures
        is_raw_entry(slug),
{
    lemma_listed_us_market_cap();
    lemma_listed_gdp();
    lemma_listed_gold();
    lemma_listed_silver();
    lemma_listed_copper();
    lemma_listed_stlfsi4();
    lemma_listed_fed_balance_sheet();
    lemma_listed_treasury_tga();
    lemma_listed_fed_rrp();
    lemma_listed_cp_3m_rate();
    lemma_listed_us_3m();
    lemma_listed_sofr_30d();
    lemma_listed_fed_funds();
    lemma_listed_us_10y();
    lemma_listed_breakeven_10y();
    lemma_listed_us_2y();
    lemma_listed_sp500pe12m();
}

/// The entry of the standard catalog for one of the computations.
proof fn lemma_listed_buffett_indicator()
    ensures
        lookup(standard_table(), "buffett_indicator"@) is Some,
        lookup(standard_table(), "buffett_indicator"@)->0.source == SourceType::Calculated,
{
    lemma_standard_sections();
    assert(calculated_rows()[0] == standard_table()[0]);
    assert(standard_table()[0].slug == "buffett_indicator"@);
    lemma_standard_lookup(0);
}

/// The entry of the standard catalog for one of the computations.
proof fn lemma_listed_yield_curve_10y_2y()
    ensures
        lookup(standard_table(), "yield_curve_10y_2y"@) is Some,
        lookup(standard_table(), "yield_curve_10y_2y"@)->0.source == SourceType::Calculated,
{
    lemma_standard_sections();
    assert(calculated_rows()[1] == standard_table()[1]);
    assert(standard_table()[1].slug == "yield_curve_10y_2y"@);
    lemma_standard_lookup(1);
}

/// The entry of the standard catalog for one of the computations.
proof fn lemma_listed_yield_curve_10y_3m()
    ensures
        lookup(standard_table(), "yield_curve_10y_3m"@) is Some,
        lookup(standard_table(), "yield_curve_10y_3m"@)->0.source == SourceType::Calculated,
{
    lemma_standard_sections();
    assert(calculated_rows()[2] == standard_table()[2]);
    assert(standard_table()[2].slug == "yield_curve_10y_3m"@);
    lemma_standard_lookup(2);
}

/// The entry of the standard catalog for one of the computations.
proof fn lemma_listed_net_liquidity()
    ensures
        lookup(standard_table(), "net_liquidity"@) is Some,
        lookup(standard_table(), "net_liquidity"@)->0.source == SourceType::Calculated,
{
    lemma_standard_sections();
    assert(calculated_rows()[3] == standard_table()[3]);
    assert(standard_table()[3].slug == "net_liquidity"@);
    lemma_standard_lookup(3);
}

/// The entry of the standard catalog for one of the computations.
proof fn lemma_listed_financial_stress()
    ensures
        lookup(standard_table(), "financial_stress"@) is Some,
        lookup(standard_table(), "financial_stress"@)->0.source == SourceType::Calculated,
{
    lemma_standard_sections();
    assert(calculated_rows()[4] == standard_table()[4]);
    assert(standard_table()[4].slug == "financial_stress"@);
    lemma_standard_lookup(4);
}

/// The entry of the standard catalog for one of the computations.
proof fn lemma_listed_copper_gold_ratio()
    ensures
        lookup(standard_table(), "copper_gold_ratio"@) is Some,
        lookup(standard_table(), "copper_gold_ratio"@)->0.source == SourceType::Calculated,
{
    lemma_standard_sections();
    assert(calculated_rows()[5] == standard_table()[5]);
    assert(standard_table()[5].slug == "copper_gold_ratio"@);
    lemma_standard_lookup(5);
}

/// The entry of the standard catalog for one of the computations.
proof fn lemma_listed_gold_silver_ratio()
    ensures
        lookup(standard_table(), "gold_silver_ratio"@) is Some,
        lookup(standard_table(), "gold_silver_ratio"@)->0.source == SourceType::Calculated,
{
    lemma_standard_sections();
    assert(calculated_rows()[6] == standard_table()[6]);
    assert(standard_table()[6].slug == "gold_silver_ratio"@);
    lemma_standard_lookup(6);
}

/// The entry of the standard catalog for one of the computations.
proof fn lemma_listed_real_yield()
    ensures
        lookup(standard_table(), "real_yield"@) is Some,
        lookup(standard_table(), "real_yield"@)->0.source == SourceType::Calculated,
{
    lemma_standard_sections();
    assert(calculated_rows()[7] == standard_table()[7]);
    assert(standard_table()[7].slug == "real_yield"@);
    lemma_standard_lookup(7);
}

/// The entry of the standard catalog for one of the computations.
proof fn lemma_listed_yield_gap()
    ensures
        lookup(standard_table(), "yield_gap"@) is Some,
        lookup(standard_table(), "yield_gap"@)->0.source == SourceType::Calculated,
{
    lemma_standard_sections();
    assert(calculated_rows()[8] == standard_table()[8]);
    assert(standard_table()[8].slug == "yield_gap"@);
    lemma_standard_lookup(8);
}

/// The entry of the standard catalog for one of the computations.
proof fn lemma_listed_cp_bill_spread()
    ensures
        lookup(standard_table(), "cp_bill_spread"@) is Some,
        lookup(standard_table(), "cp_bill_spread"@)->0.source == SourceType::Calculated,
{
    lemma_standard_sections();
    assert(calculated_rows()[9] == standard_table()[9]);
    assert(standard_table()[9].slug == "cp_bill_spread"@);
    lemma_standard_lookup(9);
}

/// The entry of the standard catalog for one of the computations.
proof fn lemma_listed_sofr_spread()
    ensures
        lookup(standard_table(), "sofr_spread"@) is Some,
        lookup(standard_table(), "sofr_spread"@)->0.source == SourceType::Calculated,
{
    lemma_standard_sections();
    assert(calculated_rows()[10] == standard_table()[10]);
    assert(standard_table()[10].slug == "sofr_spread"@);
    lemma_standard_lookup(10);
}

/// The slugs of the computations differ from one another, so that each
/// finds its own computation.
proof fn lemma_slugs_find_computations(calculator: Calculator)
    ensures
        calculator_for(calculator.slug_text()) == Some(calculator),
{
    reveal_strlit("buffett_indicator");
    reveal_strlit("yield_curve_10y_2y");
    reveal_strlit("yield_curve_10y_3m");
    reveal_strlit("net_liquidity");
    reveal_strlit("financial_stress");
    reveal_strlit("copper_gold_ratio");
    reveal_strlit("gold_silver_ratio");
    reveal_strlit("real_yield");
    reveal_strlit("yield_gap");
    reveal_strlit("cp_bill_spread");
    reveal_strlit("sofr_spread");
    assert("buffett_indicator"@.len() == 17);
    assert("yield_curve_10y_2y"@.len() == 18);
    assert("yield_curve_10y_3m"@.len() == 18);
    assert("net_liquidity"@.len() == 13);
    assert("financial_stress"@.len() == 16);
    assert("copper_gold_ratio"@.len() == 17);
    assert("gold_silver_ratio"@.len() == 17);
    assert("real_yield"@.len() == 10);
    assert("yield_gap"@.len() == 9);
    assert("cp_bill_spread"@.len() == 14);
    assert("sofr_spread"@.len() == 11);
    assert("buffett_indicator"@[0] != "copper_gold_ratio"@[0]);
    assert("buffett_indicator"@[0] != "gold_silver_ratio"@[0]);
    assert("yield_curve_10y_2y"@[16] != "yield_curve_10y_3m"@[16]);
    assert("copper_gold_ratio"@[0] != "gold_silver_ratio"@[0]);
}

/// Every computation of the catalog is listed in the standard catalog as a
/// computed indicator under its slug, and its slug finds it.
pub proof fn lemma_calculators_are_listed(calculator: Calculator)
    ensures
        is_listed_computation(calculator),
{
    lemma_slugs_find_computations(calculator);
    lemma_listed_buffett_indicator();
    lemma_listed_yield_curve_10y_2y();
    lemma_listed_yield_curve_10y_3m();
    lemma_listed_net_liquidity();
    lemma_listed_financial_stress();
    lemma_listed_copper_gold_ratio();
    lemma_listed_gold_silver_ratio();
    lemma_listed_real_yield();
    lemma_listed_yield_gap();
    lemma_listed_cp_bill_spread();
    lemma_listed_sofr_spread();
}

/// The three units that are registered nowhere are found under no slug of
/// theirs: resolving never reaches them.
pub proof fn lemma_unregistered_units()
    ensures
        calculator_for(RuleOf20.slug_text()) is None,
        calculator_for(VixTermStructure.slug_text()) is None,
        calculator_for(NdxSpxRatio.slug_text()) is None,
{
    reveal_strlit("buffett_indicator");
    reveal_strlit("net_liquidity");
    reveal_strlit("yield_curve_10y_2y");
    reveal_strlit("yield_curve_10y_3m");
    reveal_strlit("financial_stress");
    reveal_strlit("copper_gold_ratio");
    reveal_strlit("gold_silver_ratio");
    reveal_strlit("real_yield");
    reveal_strlit("yield_gap");
    reveal_strlit("cp_bill_spread");
    reveal_strlit("sofr_spread");
    reveal_strlit("rule_of_20");
    reveal_strlit("vix_term_structure");
    reveal_strlit("ndx_spx_ratio");
    assert("buffett_indicator"@.len() == 17);
    assert("net_liquidity"@.len() == 13);
    assert("yield_curve_10y_2y"@.len() == 18);
    assert("yield_curve_10y_3m"@.len() == 18);
    assert("financial_stress"@.len() == 16);
    assert("copper_gold_ratio"@.len() == 17);
    assert("gold_silver_ratio"@.len() == 17);
    assert("real_yield"@.len() == 10);
    assert("yield_gap"@.len() == 9);
    assert("cp_bill_spread"@.len() == 14);
    assert("sofr_spread"@.len() == 11);
    assert("rule_of_20"@.len() == 10);
    assert("vix_term_structure"@.len() == 18);
    assert("ndx_spx_ratio"@.len() == 13);
    assert("rule_of_20"@[1] != "real_yield"@[1]);
    assert("vix_term_structure"@[0] != "yield_curve_10y_2y"@[0]);
    assert("vix_term_structure"@[0] != "yield_curve_10y_3m"@[0]);
    assert("ndx_spx_ratio"@[1] != "net_liquidity"@[1]);
}

/// No computation of the catalog reads what another one gives, and none
/// reads more than three series: a computed indicator rests on series that
/// are fetched or kept by hand.
pub proof fn lemma_inputs_are_not_computed(calculator: Calculator)
    ensures
        calculator.inputs().len() <= 3,
        forall|i: int|
            0 <= i < calculator.inputs().len() ==> calculator_for(
                #[trigger] calculator.inputs()[i],
            ) is None,
{
    assert forall|i: int| 0 <= i < calculator.inputs().len() implies calculator_for(
        #[trigger] calculator.inputs()[i],
    ) is None by {
        lemma_names_differ(calculator.inputs()[i]);
    }
}

/// The slugs that the computations read differ from the slugs under which
/// the computations are registered.
proof fn lemma_names_differ(slug: Seq<char>)
    requires
        slug == "us_market_cap"@
            || slug == "gdp"@
            || slug == "gold"@
            || slug == "silver"@
            || slug == "copper"@
            || slug == "stlfsi4"@
            || slug == "fed_balance_sheet"@
            || slug == "treasury_tga"@
            || slug == "fed_rrp"@
            || slug == "cp_3m_rate"@
            || slug == "us_3m"@
            || slug == "sofr_30d"@
            || slug == "fed_funds"@
            || slug == "us_10y"@
            || slug == "breakeven_10y"@
            || slug == "us_2y"@
            || slug == "SP500PE12M"@,
    ensures
        calculator_for(slug) is None,
{
    reveal_strlit("buffett_indicator");
    reveal_strlit("net_liquidity");
    reveal_strlit("yield_curve_10y_2y");
    reveal_strlit("yield_curve_10y_3m");
    reveal_strlit("financial_stress");
    reveal_strlit("copper_gold_ratio");
    reveal_strlit("gold_silver_ratio");
    reveal_strlit("real_yield");
    reveal_strlit("yield_gap");
    reveal_strlit("cp_bill_spread");
    reveal_strlit("sofr_spread");
    reveal_strlit("us_market_cap");
    reveal_strlit("gdp");
    reveal_strlit("gold");
    reveal_strlit("silver");
    reveal_strlit("copper");
    reveal_strlit("stlfsi4");
    reveal_strlit("fed_balance_sheet");
    reveal_strlit("treasury_tga");
    reveal_strlit("fed_rrp");
    reveal_strlit("cp_3m_rate");
    reveal_strlit("us_3m");
    reveal_strlit("sofr_30d");
    reveal_strlit("fed_funds");
    reveal_strlit("us_10y");
    reveal_strlit("breakeven_10y");
    reveal_strlit("us_2y");
    reveal_strlit("SP500PE12M");
    assert("buffett_indicator"@.len() == 17);
    assert("net_liquidity"@.len() == 13);
    assert("yield_curve_10y_2y"@.len() == 18);
    assert("yield_curve_10y_3m"@.len() == 18);
    assert("financial_stress"@.len() == 16);
    assert("copper_gold_ratio"@.len() == 17);
    assert("gold_silver_ratio"@.len() == 17);
    assert("real_yield"@.len() == 10);
    assert("yield_gap"@.len() == 9);
    assert("cp_bill_spread"@.len() == 14);
    assert("sofr_spread"@.len() == 11);
    assert("us_market_cap"@.len() == 13);
    assert("gdp"@.len() == 3);
    assert("gold"@.len() == 4);
    assert("silver"@.len() == 6);
    assert("copper"@.len() == 6);
    assert("stlfsi4"@.len() == 7);
    assert("fed_balance_sheet"@.len() == 17);
    assert("treasury_tga"@.len() == 12);
    assert("fed_rrp"@.len() == 7);
    assert("cp_3m_rate"@.len() == 10);
    assert("us_3m"@.len() == 5);
    assert("sofr_30d"@.len() == 8);
    assert("fed_funds"@.len() == 9);
    assert("us_10y"@.len() == 6);
    assert("breakeven_10y"@.len() == 13);
    assert("us_2y"@.len() == 5);
    assert("SP500PE12M"@.len() == 10);
    assert("us_market_cap"@[0] != "net_liquidity"@[0]);
    assert("fed_balance_sheet"@[0] != "buffett_indicator"@[0]);
    assert("fed_balance_sheet"@[0] != "copper_gold_ratio"@[0]);
    assert("fed_balance_sheet"@[0] != "gold_silver_ratio"@[0]);
    assert("cp_3m_rate"@[0] != "real_yield"@[0]);
    assert("fed_funds"@[0] != "yield_gap"@[0]);
    assert("breakeven_10y"@[0] != "net_liquidity"@[0]);
    assert("SP500PE12M"@[0] != "real_yield"@[0]);
}

impl Registry {
    /// The computation registered under a slug, if there is one.
    pub fn get_calculator(slug: &str) -> (r: Option<Calculator>)
        ensures
            r == calculator_for(slug@),
    {
        if same_text(slug, "buffett_indicator") {
            return Some(Calculator::Buffett);
        }
        if same_text(slug, "gold_silver_ratio") {
            return Some(Calculator::GoldSilver);
        }
        if same_text(slug, "copper_gold_ratio") {
            return Some(Calculator::CopperGold);
        }
        if same_text(slug, "financial_stress") {
            return Some(Calculator::FinancialStress);
        }
        if same_text(slug, "net_liquidity") {
            return Some(Calculator::NetLiquidity);
        }
        if same_text(slug, "cp_bill_spread") {
            return Some(Calculator::CommercialPaperSpread);
        }
        if same_text(slug, "sofr_spread") {
            return Some(Calculator::SofrSpread);
        }
        if same_text(slug, "real_yield") {
            return Some(Calculator::RealYield);
        }
        if same_text(slug, "yield_curve_10y_2y") {
            return Some(Calculator::YieldCurve10Y2Y);
        }
        if same_text(slug, "yield_curve_10y_3m") {
            return Some(Calculator::YieldCurve10Y3M);
        }
        if same_text(slug, "yield_gap") {
            return Some(Calculator::YieldGap);
        }
        None
    }
}

} // verus!
