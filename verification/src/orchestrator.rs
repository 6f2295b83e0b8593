//! Resolving one indicator to its series.
//!
//! A [`Resolver`] decides what has to happen next; the caller does it. A run
//! begins with [`Resolver::start`] and goes on with [`Resolver::resume`],
//! which takes the outcome of the request that the last step made, until a
//! step is [`Step::Done`].

use vstd::prelude::*;
use crate::catalog::standard_table;
use crate::indicators::{
    calculator_for,
    lemma_calculators_are_listed,
    lemma_inputs_are_listed,
    lemma_inputs_are_not_computed,
    Calculator,
};
use crate::registry::{delivers, lookup, MetadataView, Registry, SourceType};
use crate::text::{any_lowercase, contains_char, has_lowercase};
use crate::timeseries::DataPoint;

verus! {

/// Why an indicator could not be resolved.
#[derive(Clone, Debug, PartialEq, Eq)]
pub enum ResolveError {
    /// No catalog entry carries the slug, and it does not look like a series
    /// identifier of the default provider.
    UnknownIndicator { slug: String },
    /// The catalog lists the indicator as computed, and no computation is
    /// registered for it.
    MissingCalculator { slug: String },
    /// The stored series of a dependency could not be read.
    DependencyResolutionFailed { slug: String, cause: String },
    /// The provider did not deliver the series.
    FetchFailed { slug: String, source: SourceType, symbol: String, cause: String },
    /// The computation refused or failed.
    CalculationFailed { slug: String, cause: String },
    /// The store did not take the series.
    PersistenceFailed { calculated: bool, cause: String },
    /// The catalog names a provider for which no fetch exists.
    UnsupportedSource { slug: String },
}

/// The mathematical content of a [`ResolveError`].
pub enum ResolveErrorView {
    UnknownIndicator { slug: Seq<char> },
    MissingCalculator { slug: Seq<char> },
    DependencyResolutionFailed { slug: Seq<char>, cause: Seq<char> },
    FetchFailed { slug: Seq<char>, source: SourceType, symbol: Seq<char>, cause: Seq<char> },
    CalculationFailed { slug: Seq<char>, cause: Seq<char> },
    PersistenceFailed { calculated: bool, cause: Seq<char> },
    UnsupportedSource { slug: Seq<char> },
}

impl View for ResolveError {
    type V = ResolveErrorView;

    open spec fn view(&self) -> ResolveErrorView {
        match self {
            ResolveError::UnknownIndicator { slug } => ResolveErrorView::UnknownIndicator {
                slug: slug@,
            },
            ResolveError::MissingCalculator { slug } => ResolveErrorView::MissingCalculator {
                slug: slug@,
            },
            ResolveError::DependencyResolutionFailed {
                slug,
                cause,
            } => ResolveErrorView::DependencyResolutionFailed { slug: slug@, cause: cause@ },
            ResolveError::FetchFailed {
                slug,
                source,
                symbol,
                cause,
            } => ResolveErrorView::FetchFailed {
                slug: slug@,
                source: *source,
                symbol: symbol@,
                cause: cause@,
            },
            ResolveError::CalculationFailed { slug, cause } => ResolveErrorView::CalculationFailed {
                slug: slug@,
                cause: cause@,
            },
            ResolveError::PersistenceFailed { calculated, cause } => ResolveErrorView::PersistenceFailed {
                calculated: *calculated,
                cause: cause@,
            },
            ResolveError::UnsupportedSource { slug } => ResolveErrorView::UnsupportedSource {
                slug: slug@,
            },
        }
    }
}

impl ResolveErrorView {
    /// The message of the error, as it is stored with the indicator's status.
    pub open spec fn message(self) -> Seq<char> {
        match self {
            ResolveErrorView::UnknownIndicator { slug } => "Unknown indicator '"@ + slug
                + "'. Not a valid external ID."@,
            ResolveErrorView::MissingCalculator { slug } =>
                "Calculator implementation not found for "@ + slug,
            ResolveErrorView::DependencyResolutionFailed { slug, cause } =>
                "Failed to read dependency "@ + slug + " from DB: "@ + cause,
            ResolveErrorView::FetchFailed { slug, source, symbol, cause } => "Fetch failed for "@
                + slug + " ("@ + symbol + "): "@ + cause,
            ResolveErrorView::CalculationFailed { slug, cause } => "Calculation failed for "@ + slug
                + ": "@ + cause,
            ResolveErrorView::PersistenceFailed { calculated, cause } => if calculated {
                "Failed to save calculated indicator: "@ + cause
            } else {
                "Failed to save raw data: "@ + cause
            },
            ResolveErrorView::UnsupportedSource { slug } => "Glassnode fetcher not implemented for "@
                + slug,
        }
    }
}

impl ResolveError {
    /// The message of the error, as it is stored with the indicator's status.
    pub fn message(&self) -> (r: String)
        ensures
            r@ == self@.message(),
    {
        match self {
            ResolveError::UnknownIndicator { slug } => {
                let mut r = String::from_str("Unknown indicator '");
                r.append(slug.as_str());
                r.append("'. Not a valid external ID.");
                r
            },
            ResolveError::MissingCalculator { slug } => {
                let mut r = String::from_str("Calculator implementation not found for ");
                r.append(slug.as_str());
                r
            },
            ResolveError::DependencyResolutionFailed { slug, cause } => {
                let mut r = String::from_str("Failed to read dependency ");
                r.append(slug.as_str());
                r.append(" from DB: ");
                r.append(cause.as_str());
                r
            },
            ResolveError::FetchFailed { slug, source, symbol, cause } => {
                let mut r = String::from_str("Fetch failed for ");
                r.append(slug.as_str());
                r.append(" (");
                r.append(symbol.as_str());
                r.append("): ");
                r.append(cause.as_str());
                r
            },
            ResolveError::CalculationFailed { slug, cause } => {
                let mut r = String::from_str("Calculation failed for ");
                r.append(slug.as_str());
                r.append(": ");
                r.append(cause.as_str());
                r
            },
            ResolveError::PersistenceFailed { calculated, cause } => {
                let mut r = if *calculated {
                    String::from_str("Failed to save calculated indicator: ")
                } else {
                    String::from_str("Failed to save raw data: ")
                };
                r.append(cause.as_str());
                r
            },
            ResolveError::UnsupportedSource { slug } => {
                let mut r = String::from_str("Glassnode fetcher not implemented for ");
                r.append(slug.as_str());
                r
            },
        }
    }
}

/// The name under which a series from the source is stored.
pub open spec fn source_name_text(source: SourceType) -> Seq<char> {
    match source {
        SourceType::Fred => "FRED"@,
        SourceType::Yahoo => "Yahoo"@,
        SourceType::Tiingo => "Tiingo"@,
        SourceType::Binance => "Binance"@,
        SourceType::WorldBank => "WorldBank"@,
        SourceType::Eia => "EIA"@,
        SourceType::Glassnode => "Glassnode"@,
        SourceType::Alternative => "Alternative"@,
        SourceType::Manual => "Manual"@,
        SourceType::Calculated => "Calculated"@,
    }
}

/// The name under which a series from the source is stored.
pub fn source_name(source: SourceType) -> (r: &'static str)
    ensures
        r@ == source_name_text(source),
{
    match source {
        SourceType::Fred => "FRED",
        SourceType::Yahoo => "Yahoo",
        SourceType::Tiingo => "Tiingo",
        SourceType::Binance => "Binance",
        SourceType::WorldBank => "WorldBank",
        SourceType::Eia => "EIA",
        SourceType::Glassnode => "Glassnode",
        SourceType::Alternative => "Alternative",
        SourceType::Manual => "Manual",
        SourceType::Calculated => "Calculated",
    }
}

/// Whether a slug that the catalog does not know may be tried as a series
/// identifier of the default provider: it holds no lowercase letter and no
/// hyphen.
pub open spec fn looks_like_series_id(slug: Seq<char>) -> bool {
    !has_lowercase(slug) && !slug.contains('-')
}

/// The rule behind [`looks_like_series_id`], on what was found in the slug.
pub fn series_id_rule(has_lowercase: bool, has_hyphen: bool) -> (r: bool)
    ensures
        r == (!has_lowercase && !has_hyphen),
{
    !has_lowercase && !has_hyphen
}

/// Whether a slug that the catalog does not know may be tried as a series
/// identifier of the default provider.
pub fn is_series_id(slug: &str) -> (r: bool)
    ensures
        r == looks_like_series_id(slug@),
{
    series_id_rule(any_lowercase(slug), contains_char(slug, '-'))
}

/// What resolving a slug begins with.
#[derive(Clone, Debug, PartialEq, Eq)]
pub enum Route {
    /// Fetch the series from a provider, under the provider's symbol.
    Fetch { source: SourceType, symbol: String },
    /// The series is kept by hand: nothing is fetched, and nothing is given.
    Empty,
    /// The catalog names a provider for which no fetch exists.
    Unsupported,
    /// Compute the series from the series of other indicators.
    Compute { calculator: Calculator },
    /// The catalog lists the indicator as computed, and nothing computes it.
    NoCalculator,
    /// Nothing is known of the slug.
    Unknown,
}

/// The mathematical content of a [`Route`].
pub enum RouteView {
    Fetch { source: SourceType, symbol: Seq<char> },
    Empty,
    Unsupported,
    Compute { calculator: Calculator },
    NoCalculator,
    Unknown,
}

impl View for Route {
    type V = RouteView;

    open spec fn view(&self) -> RouteView {
        match self {
            Route::Fetch { source, symbol } => RouteView::Fetch { source: *source, symbol: symbol@ },
            Route::Empty => RouteView::Empty,
            Route::Unsupported => RouteView::Unsupported,
            Route::Compute { calculator } => RouteView::Compute { calculator: *calculator },
            Route::NoCalculator => RouteView::NoCalculator,
            Route::Unknown => RouteView::Unknown,
        }
    }
}

/// What resolving `slug` begins with. An entry of the catalog decides by its
/// source; the symbol to fetch is the entry's, or the slug where the entry
/// has none. Without an entry, a slug that looks like a series identifier is
/// fetched from the default provider under its own name.
pub open spec fn route_of(entries: Seq<MetadataView>, slug: Seq<char>) -> RouteView {
    match lookup(entries, slug) {
        Some(entry) => match entry.source {
            SourceType::Glassnode => RouteView::Unsupported,
            SourceType::Manual => RouteView::Empty,
            SourceType::Calculated => match calculator_for(slug) {
                Some(calculator) => RouteView::Compute { calculator },
                None => RouteView::NoCalculator,
            },
            source => RouteView::Fetch {
                source,
                symbol: match entry.source_symbol {
                    Some(symbol) => symbol,
                    None => slug,
                },
            },
        },
        None => if looks_like_series_id(slug) {
            RouteView::Fetch { source: SourceType::Fred, symbol: slug }
        } else {
            RouteView::Unknown
        },
    }
}

/// What resolving `slug` begins with.
pub fn route(registry: &Registry, slug: &str) -> (r: Route)
    ensures
        r@ == route_of(registry@, slug@),
{
    match registry.get_metadata(slug) {
        Some(entry) => match entry.source {
            SourceType::Glassnode => Route::Unsupported,
            SourceType::Manual => Route::Empty,
            SourceType::Calculated => match Registry::get_calculator(slug) {
                Some(calculator) => Route::Compute { calculator },
                None => Route::NoCalculator,
            },
            source => {
                let symbol = match entry.source_symbol {
                    Some(symbol) => symbol,
                    None => slug.to_owned(),
                };
                Route::Fetch { source, symbol }
            },
        },
        None => if is_series_id(slug) {
            Route::Fetch { source: SourceType::Fred, symbol: slug.to_owned() }
        } else {
            Route::Unknown
        },
    }
}


/// The provider to wait for before an indicator is resolved at the user's
/// request: the provider of its catalog entry where that is the statistics
/// provider, the market-data provider or the exchange, and the statistics
/// provider where the catalog does not know the slug. No wait is due for any
/// other source.
pub open spec fn throttle_key(entries: Seq<MetadataView>, slug: Seq<char>) -> Option<Seq<char>> {
    let source = match lookup(entries, slug) {
        Some(entry) => entry.source,
        None => SourceType::Fred,
    };
    match source {
        SourceType::Fred => Some("FRED"@),
        SourceType::Tiingo => Some("Tiingo"@),
        SourceType::Binance => Some("Binance"@),
        _ => None,
    }
}

/// The provider to wait for before an indicator is resolved at the user's
/// request, if a wait is due.
pub fn throttle_provider(registry: &Registry, slug: &str) -> (r: Option<&'static str>)
    ensures
        match r {
            Some(key) => throttle_key(registry@, slug@) == Some(key@),
            None => throttle_key(registry@, slug@) is None,
        },
{
    let source = match registry.get_metadata(slug) {
        Some(entry) => entry.source,
        None => SourceType::Fred,
    };
    match source {
        SourceType::Fred => Some("FRED"),
        SourceType::Tiingo => Some("Tiingo"),
        SourceType::Binance => Some("Binance"),
        _ => None,
    }
}

/// A copy of the points.
pub fn copy_points(points: &Vec<DataPoint>) -> (r: Vec<DataPoint>)
    ensures
        r@ == points@,
{
    let mut r: Vec<DataPoint> = Vec::new();
    let mut i: usize = 0;
    while i < points.len()
        invariant
            i <= points.len(),
            r@ == points@.subrange(0, i as int),
        decreases points.len() - i,
    {
        r.push(points[i]);
        assert(points@.subrange(0, i + 1) =~= points@.subrange(0, i as int).push(points@[i as int]));
        i += 1;
    }
    assert(points@.subrange(0, i as int) =~= points@);
    r
}

/// The work that a step asks of the caller.
#[derive(Clone, Debug, PartialEq, Eq)]
pub enum Request {
    /// Fetch the series of `symbol` from the provider `source`, from the
    /// far past on if `backfill` is set. Report the series or the failure.
    Fetch { slug: String, source: SourceType, symbol: String, backfill: bool },
    /// Read the stored series of `slug`. Report the series or the failure.
    ReadSeries { slug: String },
    /// The dependencies of the computed indicator `slug` are opened next.
    /// Nothing is to be done; what is reported is not read.
    Descend { slug: String },
    /// Run the computation on the inputs, which stand in the order in which
    /// it declares them. Report the series or the failure.
    Calculate { slug: String, calculator: Calculator, inputs: Vec<Vec<DataPoint>> },
    /// Save the points under `slug`, point by point, a point replacing the
    /// stored one at the same instant. Report success, with any series, or
    /// the failure.
    Save { slug: String, points: Vec<DataPoint>, source_name: String, category: String },
}

/// The mathematical content of a [`Request`].
pub enum RequestView {
    Fetch { slug: Seq<char>, source: SourceType, symbol: Seq<char>, backfill: bool },
    ReadSeries { slug: Seq<char> },
    Descend { slug: Seq<char> },
    Calculate { slug: Seq<char>, calculator: Calculator, inputs: Seq<Seq<DataPoint>> },
    Save { slug: Seq<char>, points: Seq<DataPoint>, source_name: Seq<char>, category: Seq<char> },
}

impl View for Request {
    type V = RequestView;

    open spec fn view(&self) -> RequestView {
        match self {
            Request::Fetch { slug, source, symbol, backfill } => RequestView::Fetch {
                slug: slug@,
                source: *source,
                symbol: symbol@,
                backfill: *backfill,
            },
            Request::ReadSeries { slug } => RequestView::ReadSeries { slug: slug@ },
            Request::Descend { slug } => RequestView::Descend { slug: slug@ },
            Request::Calculate { slug, calculator, inputs } => RequestView::Calculate {
                slug: slug@,
                calculator: *calculator,
                inputs: inputs.deep_view(),
            },
            Request::Save { slug, points, source_name, category } => RequestView::Save {
                slug: slug@,
                points: points@,
                source_name: source_name@,
                category: category@,
            },
        }
    }
}

/// A computed indicator whose inputs are being gathered.
struct Frame {
    slug: String,
    calculator: Calculator,
    inputs: Vec<Vec<DataPoint>>,
}

/// The mathematical content of a frame: the indicator, its computation,
/// and the input series gathered so far, in declared order.
pub struct FrameView {
    pub slug: Seq<char>,
    pub calculator: Calculator,
    pub inputs: Seq<Seq<DataPoint>>,
}

impl DeepView for Frame {
    type V = FrameView;

    closed spec fn deep_view(&self) -> FrameView {
        FrameView {
            slug: self.slug@,
            calculator: self.calculator,
            inputs: self.inputs.deep_view(),
        }
    }
}

/// The request whose outcome a resolver waits for.
enum Pending {
    Fetch { slug: String, source: SourceType, symbol: String },
    SaveFetched { points: Vec<DataPoint> },
    SaveCalculated { points: Vec<DataPoint> },
    Read { slug: String },
    Calculation { slug: String },
    Descent,
}

/// The mathematical content of what a resolver waits for.
pub enum PendingView {
    Fetch { slug: Seq<char>, source: SourceType, symbol: Seq<char> },
    SaveFetched { points: Seq<DataPoint> },
    SaveCalculated { points: Seq<DataPoint> },
    Read { slug: Seq<char> },
    Calculation { slug: Seq<char> },
    Descent,
}

impl View for Pending {
    type V = PendingView;

    closed spec fn view(&self) -> PendingView {
        match self {
            Pending::Fetch { slug, source, symbol } => PendingView::Fetch {
                slug: slug@,
                source: *source,
                symbol: symbol@,
            },
            Pending::SaveFetched { points } => PendingView::SaveFetched { points: points@ },
            Pending::SaveCalculated { points } => PendingView::SaveCalculated { points: points@ },
            Pending::Read { slug } => PendingView::Read { slug: slug@ },
            Pending::Calculation { slug } => PendingView::Calculation { slug: slug@ },
            Pending::Descent => PendingView::Descent,
        }
    }
}

/// The state of resolving one indicator, between two requests.
pub struct Resolver {
    backfill: bool,
    fetch_deps: bool,
    stack: Vec<Frame>,
    pending: Pending,
}

/// The mathematical content of a [`Resolver`]: the two flags of the run, the
/// computed indicators that are open, outermost first, and the request that
/// is under way.
pub struct ResolverView {
    pub backfill: bool,
    pub fetch_deps: bool,
    pub stack: Seq<FrameView>,
    pub pending: PendingView,
}

impl View for Resolver {
    type V = ResolverView;

    closed spec fn view(&self) -> ResolverView {
        ResolverView {
            backfill: self.backfill,
            fetch_deps: self.fetch_deps,
            stack: self.stack.deep_view(),
            pending: self.pending@,
        }
    }
}

/// What a step of resolving gives: a request to carry out, with the state
/// to resume from, or the end of the run.
pub enum Step {
    Act(Resolver, Request),
    Done(Result<Vec<DataPoint>, ResolveError>),
}

/// The mathematical content of a [`Step`].
pub enum StepView {
    Act(ResolverView, RequestView),
    Done(Result<Seq<DataPoint>, ResolveErrorView>),
}

impl View for Step {
    type V = StepView;

    open spec fn view(&self) -> StepView {
        match self {
            Step::Act(resolver, request) => StepView::Act(resolver@, request@),
            Step::Done(Ok(points)) => StepView::Done(Ok(points@)),
            Step::Done(Err(error)) => StepView::Done(Err(error@)),
        }
    }
}

/// The outcome of a request, as the caller reports it.
pub open spec fn outcome_view(outcome: Result<Vec<DataPoint>, String>) -> Result<
    Seq<DataPoint>,
    Seq<char>,
> {
    match outcome {
        Ok(points) => Ok(points@),
        Err(cause) => Err(cause@),
    }
}

impl ResolverView {
    /// The state with one more input series for the innermost open
    /// indicator.
    pub open spec fn with_input(self, points: Seq<DataPoint>) -> ResolverView {
        if self.stack.len() == 0 {
            self
        } else {
            let top = self.stack.last();
            ResolverView {
                stack: self.stack.drop_last().push(
                    FrameView { inputs: top.inputs.push(points), ..top },
                ),
                ..self
            }
        }
    }

    /// The state with no request under way.
    pub open spec fn settled(self) -> ResolverView {
        ResolverView { pending: PendingView::Descent, ..self }
    }

    /// How many inputs the innermost open indicator still lacks.
    pub open spec fn lacking(self) -> nat {
        if self.stack.len() == 0 {
            0
        } else {
            let top = self.stack.last();
            if top.inputs.len() >= top.calculator.inputs().len() {
                0
            } else {
                (top.calculator.inputs().len() - top.inputs.len()) as nat
            }
        }
    }

    /// Goes on with the innermost open indicator. With all inputs gathered,
    /// the computation is requested and the indicator is closed. Otherwise
    /// the next input in declared order is taken up: read from the store
    /// where dependencies are not to be fetched, and resolved like an
    /// indicator of its own where they are. An input that is kept by hand
    /// is an empty series.
    pub open spec fn advance(self, entries: Seq<MetadataView>) -> StepView
        decreases self.lacking(),
    {
        if self.stack.len() == 0 {
            StepView::Done(Ok(Seq::empty()))
        } else {
            let top = self.stack.last();
            if self.lacking() == 0 {
                StepView::Act(
                    ResolverView {
                        stack: self.stack.drop_last(),
                        pending: PendingView::Calculation { slug: top.slug },
                        ..self
                    },
                    RequestView::Calculate {
                        slug: top.slug,
                        calculator: top.calculator,
                        inputs: top.inputs,
                    },
                )
            } else {
                let dep = top.calculator.inputs()[top.inputs.len() as int];
                if !self.fetch_deps {
                    StepView::Act(
                        ResolverView { pending: PendingView::Read { slug: dep }, ..self },
                        RequestView::ReadSeries { slug: dep },
                    )
                } else {
                    match route_of(entries, dep) {
                        RouteView::Fetch { source, symbol } => StepView::Act(
                            ResolverView {
                                pending: PendingView::Fetch { slug: dep, source, symbol },
                                ..self
                            },
                            RequestView::Fetch { slug: dep, source, symbol, backfill: self.backfill },
                        ),
                        RouteView::Empty => self.with_input(Seq::empty()).advance(entries),
                        RouteView::Unsupported => StepView::Done(
                            Err(ResolveErrorView::UnsupportedSource { slug: dep }),
                        ),
                        RouteView::Compute { calculator } => StepView::Act(
                            ResolverView {
                                stack: self.stack.push(
                                    FrameView { slug: dep, calculator, inputs: Seq::empty() },
                                ),
                                pending: PendingView::Descent,
                                ..self
                            },
                            RequestView::Descend { slug: dep },
                        ),
                        RouteView::NoCalculator => StepView::Done(
                            Err(ResolveErrorView::MissingCalculator { slug: dep }),
                        ),
                        RouteView::Unknown => StepView::Done(
                            Err(ResolveErrorView::UnknownIndicator { slug: dep }),
                        ),
                    }
                }
            }
        }
    }

    /// Hands a resolved series on: to the caller where no indicator is
    /// open, else to the innermost open indicator as its next input.
    pub open spec fn complete(self, entries: Seq<MetadataView>, points: Seq<DataPoint>) -> StepView {
        if self.stack.len() == 0 {
            StepView::Done(Ok(points))
        } else {
            self.with_input(points).advance(entries)
        }
    }

    /// The step that follows the outcome of the request under way.
    ///
    /// A fetched series is saved under the provider's name, a computed one
    /// under `System`; once saved, the series is the result. A failure ends
    /// the run with the error that names it.
    pub open spec fn resume(
        self,
        entries: Seq<MetadataView>,
        outcome: Result<Seq<DataPoint>, Seq<char>>,
    ) -> StepView {
        match self.pending {
            PendingView::Fetch { slug, source, symbol } => match outcome {
                Ok(points) => StepView::Act(
                    ResolverView { pending: PendingView::SaveFetched { points }, ..self },
                    RequestView::Save {
                        slug,
                        points,
                        source_name: source_name_text(source),
                        category: "Macro"@,
                    },
                ),
                Err(cause) => StepView::Done(
                    Err(ResolveErrorView::FetchFailed { slug, source, symbol, cause }),
                ),
            },
            PendingView::SaveFetched { points } => match outcome {
                Ok(_) => self.settled().complete(entries, points),
                Err(cause) => StepView::Done(
                    Err(ResolveErrorView::PersistenceFailed { calculated: false, cause }),
                ),
            },
            PendingView::SaveCalculated { points } => match outcome {
                Ok(_) => self.settled().complete(entries, points),
                Err(cause) => StepView::Done(
                    Err(ResolveErrorView::PersistenceFailed { calculated: true, cause }),
                ),
            },
            PendingView::Read { slug } => match outcome {
                Ok(points) => self.settled().with_input(points).advance(entries),
                Err(cause) => StepView::Done(
                    Err(ResolveErrorView::DependencyResolutionFailed { slug, cause }),
                ),
            },
            PendingView::Calculation { slug } => match outcome {
                Ok(points) => StepView::Act(
                    ResolverView { pending: PendingView::SaveCalculated { points }, ..self },
                    RequestView::Save {
                        slug,
                        points,
                        source_name: "System"@,
                        category: "Calculated"@,
                    },
                ),
                Err(cause) => StepView::Done(Err(ResolveErrorView::CalculationFailed { slug, cause })),
            },
            PendingView::Descent => self.advance(entries),
        }
    }
}

/// The first step of resolving `slug`.
pub open spec fn start_of(
    entries: Seq<MetadataView>,
    slug: Seq<char>,
    backfill: bool,
    fetch_deps: bool,
) -> StepView {
    let fresh = ResolverView {
        backfill,
        fetch_deps,
        stack: Seq::empty(),
        pending: PendingView::Descent,
    };
    match route_of(entries, slug) {
        RouteView::Fetch { source, symbol } => StepView::Act(
            ResolverView { pending: PendingView::Fetch { slug, source, symbol }, ..fresh },
            RequestView::Fetch { slug, source, symbol, backfill },
        ),
        RouteView::Empty => StepView::Done(Ok(Seq::empty())),
        RouteView::Unsupported => StepView::Done(Err(ResolveErrorView::UnsupportedSource { slug })),
        RouteView::Compute { calculator } => ResolverView {
            stack: seq![FrameView { slug, calculator, inputs: Seq::empty() }],
            ..fresh
        }.advance(entries),
        RouteView::NoCalculator => StepView::Done(Err(ResolveErrorView::MissingCalculator { slug })),
        RouteView::Unknown => StepView::Done(Err(ResolveErrorView::UnknownIndicator { slug })),
    }
}


impl Resolver {
    /// The state with one more input series for the innermost open
    /// indicator.
    fn with_input(self, points: Vec<DataPoint>) -> (r: Resolver)
        ensures
            r@ == self@.with_input(points@),
    {
        let mut this = self;
        match this.stack.pop() {
            None => this,
            Some(frame) => {
                let ghost below = this.stack.deep_view();
                let ghost gathered = frame.inputs.deep_view();
                let mut inputs = frame.inputs;
                inputs.push(points);
                assert(inputs.deep_view() =~= gathered.push(points@)) by {
                    assert(points.deep_view() =~= points@);
                }
                let grown = Frame { slug: frame.slug, calculator: frame.calculator, inputs };
                this.stack.push(grown);
                assert(this.stack.deep_view() =~= below.push(grown.deep_view()));
                assert(below =~= self@.stack.drop_last());
                this
            },
        }
    }

    /// Goes on with the innermost open indicator.
    fn advance(self, registry: &Registry) -> (step: Step)
        ensures
            step@ == self@.advance(registry@),
    {
        let mut this = self;
        loop
            invariant
                this@.advance(registry@) == self@.advance(registry@),
            decreases this@.lacking(),
        {
            if this.stack.len() == 0 {
                return Step::Done(Ok(Vec::new()));
            }
            let top = this.stack.len() - 1;
            let need = this.stack[top].calculator.required_inputs();
            let have = this.stack[top].inputs.len();
            proof {
                assert(this@.stack.last() == this.stack[top as int].deep_view());
                assert(this.stack[top as int].inputs.deep_view().len() == have);
            }
            if have >= need.len() {
                let ghost before = this@;
                match this.stack.pop() {
                    None => {
                        return Step::Done(Ok(Vec::new()));
                    },
                    Some(frame) => {
                        assert(this.stack.deep_view() =~= before.stack.drop_last());
                        let request = Request::Calculate {
                            slug: frame.slug.clone(),
                            calculator: frame.calculator,
                            inputs: frame.inputs,
                        };
                        this.pending = Pending::Calculation { slug: frame.slug };
                        return Step::Act(this, request);
                    },
                }
            }
            let dep: &'static str = need[have];
            assert(dep@ == this@.stack.last().calculator.inputs()[have as int]);
            if !this.fetch_deps {
                this.pending = Pending::Read { slug: dep.to_owned() };
                return Step::Act(this, Request::ReadSeries { slug: dep.to_owned() });
            }
            match route(registry, dep) {
                Route::Fetch { source, symbol } => {
                    let request = Request::Fetch {
                        slug: dep.to_owned(),
                        source,
                        symbol: symbol.clone(),
                        backfill: this.backfill,
                    };
                    this.pending = Pending::Fetch { slug: dep.to_owned(), source, symbol };
                    return Step::Act(this, request);
                },
                Route::Empty => {
                    this = this.with_input(Vec::new());
                },
                Route::Unsupported => {
                    return Step::Done(Err(ResolveError::UnsupportedSource { slug: dep.to_owned() }));
                },
                Route::Compute { calculator } => {
                    let ghost before = this.stack.deep_view();
                    let frame = Frame { slug: dep.to_owned(), calculator, inputs: Vec::new() };
                    assert(frame.inputs.deep_view() =~= Seq::<Seq<DataPoint>>::empty());
                    this.stack.push(frame);
                    assert(this.stack.deep_view() =~= before.push(frame.deep_view()));
                    this.pending = Pending::Descent;
                    return Step::Act(this, Request::Descend { slug: dep.to_owned() });
                },
                Route::NoCalculator => {
                    return Step::Done(Err(ResolveError::MissingCalculator { slug: dep.to_owned() }));
                },
                Route::Unknown => {
                    return Step::Done(Err(ResolveError::UnknownIndicator { slug: dep.to_owned() }));
                },
            }
        }
    }

    /// Hands a resolved series on.
    fn complete(self, registry: &Registry, points: Vec<DataPoint>) -> (step: Step)
        ensures
            step@ == self@.complete(registry@, points@),
    {
        if self.stack.len() == 0 {
            Step::Done(Ok(points))
        } else {
            self.with_input(points).advance(registry)
        }
    }

    /// The first step of resolving `slug`: to its series, saved on the way.
    /// `backfill` asks providers for the whole history. With `fetch_deps`
    /// the inputs of a computed indicator are resolved in turn; without it
    /// they are read from the store.
    pub fn start(registry: &Registry, slug: &str, backfill: bool, fetch_deps: bool) -> (step: Step)
        ensures
            step@ == start_of(registry@, slug@, backfill, fetch_deps),
    {
        let mut fresh = Resolver {
            backfill,
            fetch_deps,
            stack: Vec::new(),
            pending: Pending::Descent,
        };
        assert(fresh.stack.deep_view() =~= Seq::<FrameView>::empty());
        match route(registry, slug) {
            Route::Fetch { source, symbol } => {
                let request = Request::Fetch {
                    slug: slug.to_owned(),
                    source,
                    symbol: symbol.clone(),
                    backfill,
                };
                fresh.pending = Pending::Fetch { slug: slug.to_owned(), source, symbol };
                Step::Act(fresh, request)
            },
            Route::Empty => Step::Done(Ok(Vec::new())),
            Route::Unsupported => Step::Done(
                Err(ResolveError::UnsupportedSource { slug: slug.to_owned() }),
            ),
            Route::Compute { calculator } => {
                let frame = Frame { slug: slug.to_owned(), calculator, inputs: Vec::new() };
                assert(frame.inputs.deep_view() =~= Seq::<Seq<DataPoint>>::empty());
                fresh.stack.push(frame);
                assert(fresh.stack.deep_view() =~= seq![frame.deep_view()]);
                fresh.advance(registry)
            },
            Route::NoCalculator => Step::Done(
                Err(ResolveError::MissingCalculator { slug: slug.to_owned() }),
            ),
            Route::Unknown => Step::Done(
                Err(ResolveError::UnknownIndicator { slug: slug.to_owned() }),
            ),
        }
    }

    /// The step that follows the outcome of the request that the last step
    /// made.
    pub fn resume(self, registry: &Registry, outcome: Result<Vec<DataPoint>, String>) -> (step:
        Step)
        ensures
            step@ == self@.resume(registry@, outcome_view(outcome)),
    {
        let mut this = self;
        let mut pending = Pending::Descent;
        core::mem::swap(&mut pending, &mut this.pending);
        match pending {
            Pending::Fetch { slug, source, symbol } => match outcome {
                Ok(points) => {
                    let request = Request::Save {
                        slug,
                        points: copy_points(&points),
                        source_name: source_name(source).to_owned(),
                        category: "Macro".to_owned(),
                    };
                    this.pending = Pending::SaveFetched { points };
                    Step::Act(this, request)
                },
                Err(cause) => Step::Done(
                    Err(ResolveError::FetchFailed { slug, source, symbol, cause }),
                ),
            },
            Pending::SaveFetched { points } => match outcome {
                Ok(_) => this.complete(registry, points),
                Err(cause) => Step::Done(
                    Err(ResolveError::PersistenceFailed { calculated: false, cause }),
                ),
            },
            Pending::SaveCalculated { points } => match outcome {
                Ok(_) => this.complete(registry, points),
                Err(cause) => Step::Done(
                    Err(ResolveError::PersistenceFailed { calculated: true, cause }),
                ),
            },
            Pending::Read { slug } => match outcome {
                Ok(points) => this.with_input(points).advance(registry),
                Err(cause) => Step::Done(
                    Err(ResolveError::DependencyResolutionFailed { slug, cause }),
                ),
            },
            Pending::Calculation { slug } => match outcome {
                Ok(points) => {
                    let request = Request::Save {
                        slug,
                        points: copy_points(&points),
                        source_name: "System".to_owned(),
                        category: "Calculated".to_owned(),
                    };
                    this.pending = Pending::SaveCalculated { points };
                    Step::Act(this, request)
                },
                Err(cause) => Step::Done(Err(ResolveError::CalculationFailed { slug, cause })),
            },
            Pending::Descent => this.advance(registry),
        }
    }
}


/// Begins to resolve an indicator to its series, which is saved on the way:
/// the first step of the run. The caller carries out the request of each
/// step and hands its outcome to [`Resolver::resume`], until a step is done.
pub fn calculate_and_save(registry: &Registry, indicator_slug: &str, backfill: bool, fetch_deps: bool) -> (step:
    Step)
    ensures
        step@ == start_of(registry@, indicator_slug@, backfill, fetch_deps),
{
    Resolver::start(registry, indicator_slug, backfill, fetch_deps)
}

/// What a run of a resolver asks for when its requests meet the given
/// outcomes in turn, and the step at which the outcomes leave it.
pub open spec fn run(
    step: StepView,
    entries: Seq<MetadataView>,
    outcomes: Seq<Result<Seq<DataPoint>, Seq<char>>>,
) -> (Seq<RequestView>, StepView)
    decreases outcomes.len(),
{
    match step {
        StepView::Done(_) => (Seq::empty(), step),
        StepView::Act(state, request) => if outcomes.len() == 0 {
            (seq![request], step)
        } else {
            let rest = run(state.resume(entries, outcomes[0]), entries, outcomes.drop_first());
            (seq![request] + rest.0, rest.1)
        },
    }
}

/// Whether a step keeps away from the providers: it asks for no fetch, and
/// the run it belongs to reads its dependencies from the store.
pub open spec fn keeps_to_store(step: StepView) -> bool {
    match step {
        StepView::Act(state, request) => !state.fetch_deps && !(request is Fetch),
        StepView::Done(_) => true,
    }
}

/// An indicator that a provider delivers is fetched under its symbol, the
/// fetched series is saved under the indicator's slug and the provider's
/// name, and that series is what the run gives. Nothing else is asked for.
pub proof fn lemma_fetched_and_saved(
    entries: Seq<MetadataView>,
    slug: Seq<char>,
    backfill: bool,
    fetch_deps: bool,
    points: Seq<DataPoint>,
    saved: Seq<DataPoint>,
)
    requires
        route_of(entries, slug) is Fetch,
    ensures
        run(start_of(entries, slug, backfill, fetch_deps), entries, seq![Ok(points), Ok(saved)])
            == (
            seq![
                RequestView::Fetch {
                    slug,
                    source: route_of(entries, slug)->Fetch_source,
                    symbol: route_of(entries, slug)->Fetch_symbol,
                    backfill,
                },
                RequestView::Save {
                    slug,
                    points,
                    source_name: source_name_text(route_of(entries, slug)->Fetch_source),
                    category: "Macro"@,
                },
            ],
            StepView::Done(Ok(points)),
        ),
        delivers(route_of(entries, slug)->Fetch_source),
{
    let source = route_of(entries, slug)->Fetch_source;
    let symbol = route_of(entries, slug)->Fetch_symbol;
    let fetch = RequestView::Fetch { slug, source, symbol, backfill };
    let save = RequestView::Save {
        slug,
        points,
        source_name: source_name_text(source),
        category: "Macro"@,
    };
    let outcomes: Seq<Result<Seq<DataPoint>, Seq<char>>> = seq![Ok(points), Ok(saved)];
    let first = start_of(entries, slug, backfill, fetch_deps);
    let fetching = first->Act_0;
    assert(first == StepView::Act(fetching, fetch));
    let second = fetching.resume(entries, outcomes[0]);
    let saving = second->Act_0;
    assert(second == StepView::Act(saving, save));
    let rest = outcomes.drop_first();
    assert(rest =~= seq![Ok(saved)]);
    let done = saving.resume(entries, rest[0]);
    assert(done == StepView::Done(Ok(points)));
    assert(rest.drop_first() =~= Seq::empty());
    assert(run(done, entries, rest.drop_first()) == (Seq::<RequestView>::empty(), done));
    assert(run(second, entries, rest) == (seq![save] + Seq::<RequestView>::empty(), done));
    assert(seq![fetch] + (seq![save] + Seq::<RequestView>::empty()) =~= seq![fetch, save]);
}

/// If the provider does not deliver, the run ends with the error that
/// names the indicator, the symbol and the cause, and nothing is saved. If
/// the store does not take the fetched series, the run ends with the error
/// of the store.
pub proof fn lemma_fetch_failures(
    entries: Seq<MetadataView>,
    slug: Seq<char>,
    backfill: bool,
    fetch_deps: bool,
    points: Seq<DataPoint>,
    cause: Seq<char>,
)
    requires
        route_of(entries, slug) is Fetch,
    ensures
        run(start_of(entries, slug, backfill, fetch_deps), entries, seq![Err(cause)]).1
            == StepView::Done(
            Err(
                ResolveErrorView::FetchFailed {
                    slug,
                    source: route_of(entries, slug)->Fetch_source,
                    symbol: route_of(entries, slug)->Fetch_symbol,
                    cause,
                },
            ),
        ),
        run(start_of(entries, slug, backfill, fetch_deps), entries, seq![Err(cause)]).0.len() == 1,
        run(start_of(entries, slug, backfill, fetch_deps), entries, seq![Ok(points), Err(cause)]).1
            == StepView::Done(
            Err(ResolveErrorView::PersistenceFailed { calculated: false, cause }),
        ),
{
    let first = start_of(entries, slug, backfill, fetch_deps);
    let fetching = first->Act_0;
    let failed: Seq<Result<Seq<DataPoint>, Seq<char>>> = seq![Err(cause)];
    assert(failed.drop_first() =~= Seq::empty());
    let ended = fetching.resume(entries, failed[0]);
    assert(run(ended, entries, failed.drop_first()) == (Seq::<RequestView>::empty(), ended));
    let unsaved: Seq<Result<Seq<DataPoint>, Seq<char>>> = seq![Ok(points), Err(cause)];
    let second = fetching.resume(entries, unsaved[0]);
    let saving = second->Act_0;
    let rest = unsaved.drop_first();
    assert(rest =~= seq![Err(cause)]);
    let refused = saving.resume(entries, rest[0]);
    assert(rest.drop_first() =~= Seq::empty());
    assert(run(refused, entries, rest.drop_first()) == (Seq::<RequestView>::empty(), refused));
    assert(run(second, entries, rest).1 == refused);
}

/// An indicator that is kept by hand resolves to the empty series, and
/// nothing is asked for: neither a fetch nor a save.
pub proof fn lemma_manual_is_empty(
    entries: Seq<MetadataView>,
    slug: Seq<char>,
    backfill: bool,
    fetch_deps: bool,
    outcomes: Seq<Result<Seq<DataPoint>, Seq<char>>>,
)
    requires
        lookup(entries, slug) matches Some(entry) && entry.source == SourceType::Manual,
    ensures
        run(start_of(entries, slug, backfill, fetch_deps), entries, outcomes) == (
            Seq::<RequestView>::empty(),
            StepView::Done(Ok(Seq::<DataPoint>::empty())),
        ),
{
}

/// Every fetch that a run begins with names a source that a provider
/// delivers.
pub proof fn lemma_first_fetch_names_a_provider(
    entries: Seq<MetadataView>,
    slug: Seq<char>,
    backfill: bool,
    fetch_deps: bool,
)
    ensures
        start_of(entries, slug, backfill, fetch_deps) matches StepView::Act(
            _,
            RequestView::Fetch { source, .. },
        ) ==> delivers(source),
{
    match route_of(entries, slug) {
        RouteView::Compute { calculator } => {
            lemma_advance_fetch(
                ResolverView {
                    backfill,
                    fetch_deps,
                    stack: seq![FrameView { slug, calculator, inputs: Seq::empty() }],
                    pending: PendingView::Descent,
                },
                entries,
            );
        },
        _ => {},
    }
}

/// Every fetch that a run goes on with names a source that a provider
/// delivers.
pub proof fn lemma_next_fetch_names_a_provider(
    state: ResolverView,
    entries: Seq<MetadataView>,
    outcome: Result<Seq<DataPoint>, Seq<char>>,
)
    ensures
        state.resume(entries, outcome) matches StepView::Act(_, RequestView::Fetch { source, .. })
            ==> delivers(source),
{
    lemma_advance_fetch(state, entries);
    match outcome {
        Ok(points) => {
            lemma_advance_fetch(state.settled().with_input(points), entries);
        },
        Err(_) => {},
    }
    match state.pending {
        PendingView::SaveFetched { points } => {
            lemma_advance_fetch(state.settled().with_input(points), entries);
        },
        PendingView::SaveCalculated { points } => {
            lemma_advance_fetch(state.settled().with_input(points), entries);
        },
        _ => {},
    }
}

/// Going on with the open indicator asks only for fetches that a provider
/// delivers.
proof fn lemma_advance_fetch(state: ResolverView, entries: Seq<MetadataView>)
    ensures
        state.advance(entries) matches StepView::Act(_, RequestView::Fetch { source, .. })
            ==> delivers(source),
    decreases state.lacking(),
{
    if state.stack.len() > 0 && state.lacking() > 0 && state.fetch_deps {
        let top = state.stack.last();
        let dep = top.calculator.inputs()[top.inputs.len() as int];
        if route_of(entries, dep) is Empty {
            let next = state.with_input(Seq::empty());
            assert(next.stack.last().inputs.len() == top.inputs.len() + 1);
            assert(next.stack.last().calculator == top.calculator);
            lemma_advance_fetch(next, entries);
        }
    }
}

/// A slug that the catalog does not know is fetched from the default
/// provider under its own name if it holds no lowercase letter and no
/// hyphen. Any other unknown slug fails at once, and nothing is asked for.
pub proof fn lemma_unknown_slug(
    entries: Seq<MetadataView>,
    slug: Seq<char>,
    backfill: bool,
    fetch_deps: bool,
)
    requires
        lookup(entries, slug) is None,
    ensures
        looks_like_series_id(slug) ==> start_of(entries, slug, backfill, fetch_deps)
            == StepView::Act(
            ResolverView {
                backfill,
                fetch_deps,
                stack: Seq::empty(),
                pending: PendingView::Fetch { slug, source: SourceType::Fred, symbol: slug },
            },
            RequestView::Fetch { slug, source: SourceType::Fred, symbol: slug, backfill },
        ),
        !looks_like_series_id(slug) ==> start_of(entries, slug, backfill, fetch_deps)
            == StepView::Done(Err(ResolveErrorView::UnknownIndicator { slug })),
{
}

/// A run that reads its dependencies from the store keeps doing so, and its
/// next step asks for no fetch, whatever the outcome of the request under
/// way.
pub proof fn lemma_resume_keeps_to_store(
    state: ResolverView,
    entries: Seq<MetadataView>,
    outcome: Result<Seq<DataPoint>, Seq<char>>,
)
    requires
        !state.fetch_deps,
    ensures
        keeps_to_store(state.resume(entries, outcome)),
{
}

/// Resolving a computed indicator without fetching its dependencies asks
/// for no fetch at all, whatever the outcomes of its requests are: the
/// inputs come from the store alone.
pub proof fn lemma_stored_inputs_are_not_fetched(
    entries: Seq<MetadataView>,
    slug: Seq<char>,
    backfill: bool,
    outcomes: Seq<Result<Seq<DataPoint>, Seq<char>>>,
)
    requires
        route_of(entries, slug) is Compute,
    ensures
        forall|i: int|
            0 <= i < run(start_of(entries, slug, backfill, false), entries, outcomes).0.len()
                ==> !(#[trigger] run(
                start_of(entries, slug, backfill, false),
                entries,
                outcomes,
            ).0[i] is Fetch),
{
    lemma_run_keeps_to_store(start_of(entries, slug, backfill, false), entries, outcomes);
}

/// From a step that keeps to the store, the whole run does.
proof fn lemma_run_keeps_to_store(
    step: StepView,
    entries: Seq<MetadataView>,
    outcomes: Seq<Result<Seq<DataPoint>, Seq<char>>>,
)
    requires
        keeps_to_store(step),
    ensures
        keeps_to_store(run(step, entries, outcomes).1),
        forall|i: int|
            0 <= i < run(step, entries, outcomes).0.len() ==> !(#[trigger] run(
                step,
                entries,
                outcomes,
            ).0[i] is Fetch),
    decreases outcomes.len(),
{
    match step {
        StepView::Done(_) => {},
        StepView::Act(state, request) => {
            if outcomes.len() > 0 {
                lemma_resume_keeps_to_store(state, entries, outcomes[0]);
                lemma_run_keeps_to_store(
                    state.resume(entries, outcomes[0]),
                    entries,
                    outcomes.drop_first(),
                );
            }
        },
    }
}

/// The requests to read the stored series of the dependencies from
/// position `from` on.
pub open spec fn reads_from(deps: Seq<Seq<char>>, from: int) -> Seq<RequestView> {
    Seq::new(
        (deps.len() - from) as nat,
        |i: int| RequestView::ReadSeries { slug: deps[from + i] },
    )
}

/// The reports that hand over the series from position `from` on.
pub open spec fn handed_from(series: Seq<Seq<DataPoint>>, from: int) -> Seq<
    Result<Seq<DataPoint>, Seq<char>>,
> {
    Seq::new((series.len() - from) as nat, |i: int| Ok(series[from + i]))
}

/// The state of a run from the store in which the first `have` inputs of the
/// one open indicator are gathered.
pub open spec fn gathering(
    slug: Seq<char>,
    calculator: Calculator,
    backfill: bool,
    series: Seq<Seq<DataPoint>>,
    have: int,
) -> ResolverView {
    ResolverView {
        backfill,
        fetch_deps: false,
        stack: seq![FrameView { slug, calculator, inputs: series.take(have) }],
        pending: PendingView::Descent,
    }
}

/// Resolving a computed indicator from the store composes its dependencies:
/// the stored series of the inputs are read in the order in which the
/// computation declares them, the computation is given exactly these series
/// in that order, its result is saved under the indicator's slug as a
/// series of the system, and that result is what the run gives.
pub proof fn lemma_computed_from_store(
    entries: Seq<MetadataView>,
    slug: Seq<char>,
    calculator: Calculator,
    backfill: bool,
    series: Seq<Seq<DataPoint>>,
    result: Seq<DataPoint>,
    saved: Seq<DataPoint>,
)
    requires
        route_of(entries, slug) == (RouteView::Compute { calculator }),
        series.len() == calculator.inputs().len(),
    ensures
        run(
            start_of(entries, slug, backfill, false),
            entries,
            handed_from(series, 0) + seq![Ok(result), Ok(saved)],
        ) == (
            reads_from(calculator.inputs(), 0) + seq![
                RequestView::Calculate { slug, calculator, inputs: series },
                RequestView::Save {
                    slug,
                    points: result,
                    source_name: "System"@,
                    category: "Calculated"@,
                },
            ],
            StepView::Done(Ok(result)),
        ),
{
    assert(series.take(0) =~= Seq::<Seq<DataPoint>>::empty());
    lemma_gathered_from_store(entries, slug, calculator, backfill, series, result, saved, 0);
}

/// The run from the store, from the point at which `have` inputs are
/// gathered.
proof fn lemma_gathered_from_store(
    entries: Seq<MetadataView>,
    slug: Seq<char>,
    calculator: Calculator,
    backfill: bool,
    series: Seq<Seq<DataPoint>>,
    result: Seq<DataPoint>,
    saved: Seq<DataPoint>,
    have: int,
)
    requires
        series.len() == calculator.inputs().len(),
        0 <= have <= series.len(),
    ensures
        run(
            gathering(slug, calculator, backfill, series, have).advance(entries),
            entries,
            handed_from(series, have) + seq![Ok(result), Ok(saved)],
        ) == (
            reads_from(calculator.inputs(), have) + seq![
                RequestView::Calculate { slug, calculator, inputs: series },
                RequestView::Save {
                    slug,
                    points: result,
                    source_name: "System"@,
                    category: "Calculated"@,
                },
            ],
            StepView::Done(Ok(result)),
        ),
    decreases series.len() - have,
{
    let deps = calculator.inputs();
    let state = gathering(slug, calculator, backfill, series, have);
    let tail: Seq<Result<Seq<DataPoint>, Seq<char>>> = seq![Ok(result), Ok(saved)];
    let outcomes = handed_from(series, have) + tail;
    let calculate = RequestView::Calculate { slug, calculator, inputs: series };
    let save = RequestView::Save {
        slug,
        points: result,
        source_name: "System"@,
        category: "Calculated"@,
    };
    assert(state.stack.last() == FrameView { slug, calculator, inputs: series.take(have) });
    if have == series.len() {
        assert(series.take(have) =~= series);
        assert(state.lacking() == 0);
        let computing = ResolverView {
            stack: state.stack.drop_last(),
            pending: PendingView::Calculation { slug },
            ..state
        };
        assert(state.advance(entries) == StepView::Act(computing, calculate));
        assert(outcomes =~= tail);
        let saving = ResolverView { pending: PendingView::SaveCalculated { points: result }, ..computing };
        assert(computing.resume(entries, outcomes[0]) == StepView::Act(saving, save));
        let after_first = outcomes.drop_first();
        assert(after_first =~= seq![Ok(saved)]);
        assert(computing.stack =~= Seq::<FrameView>::empty());
        let done = StepView::Done(Ok(result));
        assert(saving.resume(entries, after_first[0]) == done);
        assert(after_first.drop_first() =~= Seq::empty());
        assert(run(done, entries, after_first.drop_first()) == (Seq::<RequestView>::empty(), done));
        assert(run(StepView::Act(saving, save), entries, after_first) == (
            seq![save] + Seq::<RequestView>::empty(),
            done,
        ));
        assert(run(StepView::Act(computing, calculate), entries, outcomes) == (
            seq![calculate] + (seq![save] + Seq::<RequestView>::empty()),
            done,
        ));
        assert(reads_from(deps, have) =~= Seq::<RequestView>::empty());
        assert(seq![calculate] + (seq![save] + Seq::<RequestView>::empty()) =~= reads_from(
            deps,
            have,
        ) + seq![calculate, save]);
    } else {
        assert(series.take(have).len() == have);
        assert(state.lacking() > 0);
        let dep = deps[have];
        let reading = ResolverView { pending: PendingView::Read { slug: dep }, ..state };
        let read = RequestView::ReadSeries { slug: dep };
        assert(state.advance(entries) == StepView::Act(reading, read));
        assert(outcomes[0] == Ok::<Seq<DataPoint>, Seq<char>>(series[have]));
        let next = gathering(slug, calculator, backfill, series, have + 1);
        assert(series.take(have).push(series[have]) =~= series.take(have + 1));
        assert(reading.settled().with_input(series[have]).stack =~= next.stack);
        assert(reading.settled().with_input(series[have]) == next);
        assert(reading.resume(entries, outcomes[0]) == next.advance(entries));
        assert(outcomes.drop_first() =~= handed_from(series, have + 1) + tail);
        lemma_gathered_from_store(
            entries,
            slug,
            calculator,
            backfill,
            series,
            result,
            saved,
            have + 1,
        );
        assert(seq![read] + (reads_from(deps, have + 1) + seq![calculate, save]) =~= reads_from(
            deps,
            have,
        ) + seq![calculate, save]);
    }
}


/// Over the standard catalog every computation is reached under its slug,
/// and every series that it reads is an entry of the catalog that a
/// provider delivers: no input falls to the rule for unknown slugs, and none
/// is refused.
pub proof fn lemma_standard_computation(calculator: Calculator)
    ensures
        route_of(standard_table(), calculator.slug_text()) == (RouteView::Compute { calculator }),
        forall|i: int|
            0 <= i < calculator.inputs().len() ==> route_of(
                standard_table(),
                #[trigger] calculator.inputs()[i],
            ) is Fetch,
        forall|i: int|
            0 <= i < calculator.inputs().len() ==> lookup(
                standard_table(),
                #[trigger] calculator.inputs()[i],
            ) is Some,
{
    lemma_calculators_are_listed(calculator);
    lemma_inputs_are_listed(calculator);
}

/// Over the standard catalog every computed indicator composes its
/// dependencies: resolved with them, each input is fetched and saved under
/// its own slug of the catalog, the computation is given the fetched series
/// in declared order, and its saved result is what the run gives.
pub proof fn lemma_standard_composition(
    calculator: Calculator,
    backfill: bool,
    series: Seq<Seq<DataPoint>>,
    result: Seq<DataPoint>,
    saved: Seq<DataPoint>,
)
    requires
        series.len() == calculator.inputs().len(),
    ensures
        run(
            start_of(standard_table(), calculator.slug_text(), backfill, true),
            standard_table(),
            delivered_from(series, saved, 0) + seq![Ok(result), Ok(saved)],
        ) == (
            fetches_from(standard_table(), calculator.inputs(), series, backfill, 0) + seq![
                RequestView::Calculate { slug: calculator.slug_text(), calculator, inputs: series },
                RequestView::Save {
                    slug: calculator.slug_text(),
                    points: result,
                    source_name: "System"@,
                    category: "Calculated"@,
                },
            ],
            StepView::Done(Ok(result)),
        ),
{
    lemma_standard_computation(calculator);
    lemma_computed_from_providers(
        standard_table(),
        calculator.slug_text(),
        calculator,
        backfill,
        series,
        result,
        saved,
    );
}

/// Whether a run is in order with at most one computed indicator open:
/// while the indicator is open, the run waits for one of its inputs, which
/// is still lacking, or is about to go on with it.
pub open spec fn orderly(state: ResolverView) -> bool {
    &&& state.stack.len() <= 1
    &&& state.stack.len() == 1 ==> match state.pending {
        PendingView::Descent => true,
        PendingView::Fetch { .. } | PendingView::SaveFetched { .. } | PendingView::Read { .. } =>
            state.lacking() >= 1,
        _ => false,
    }
}

/// The requests that fetch and save the dependencies from position `from`
/// on, each under its own slug and the name of its provider.
pub open spec fn fetches_from(
    entries: Seq<MetadataView>,
    deps: Seq<Seq<char>>,
    series: Seq<Seq<DataPoint>>,
    backfill: bool,
    from: int,
) -> Seq<RequestView>
    decreases deps.len() - from,
{
    if from < 0 || from >= deps.len() {
        Seq::empty()
    } else {
        let source = route_of(entries, deps[from])->Fetch_source;
        seq![
            RequestView::Fetch {
                slug: deps[from],
                source,
                symbol: route_of(entries, deps[from])->Fetch_symbol,
                backfill,
            },
            RequestView::Save {
                slug: deps[from],
                points: series[from],
                source_name: source_name_text(source),
                category: "Macro"@,
            },
        ] + fetches_from(entries, deps, series, backfill, from + 1)
    }
}

/// The reports of the providers and the store for the dependencies from
/// position `from` on: each series is delivered and then saved.
pub open spec fn delivered_from(series: Seq<Seq<DataPoint>>, saved: Seq<DataPoint>, from: int) -> Seq<
    Result<Seq<DataPoint>, Seq<char>>,
>
    decreases series.len() - from,
{
    if from < 0 || from >= series.len() {
        Seq::empty()
    } else {
        seq![Ok(series[from]), Ok(saved)] + delivered_from(series, saved, from + 1)
    }
}

/// Resolving a computed indicator with its dependencies composes them as
/// well: where providers deliver all inputs, each input is fetched and
/// saved like an indicator of its own, in the order in which the
/// computation declares them; the computation is given exactly the fetched
/// series in that order; its result is saved as a series of the system; and
/// that result is what the run gives.
pub proof fn lemma_computed_from_providers(
    entries: Seq<MetadataView>,
    slug: Seq<char>,
    calculator: Calculator,
    backfill: bool,
    series: Seq<Seq<DataPoint>>,
    result: Seq<DataPoint>,
    saved: Seq<DataPoint>,
)
    requires
        route_of(entries, slug) == (RouteView::Compute { calculator }),
        series.len() == calculator.inputs().len(),
        forall|i: int|
            0 <= i < calculator.inputs().len() ==> route_of(
                entries,
                #[trigger] calculator.inputs()[i],
            ) is Fetch,
    ensures
        run(
            start_of(entries, slug, backfill, true),
            entries,
            delivered_from(series, saved, 0) + seq![Ok(result), Ok(saved)],
        ) == (
            fetches_from(entries, calculator.inputs(), series, backfill, 0) + seq![
                RequestView::Calculate { slug, calculator, inputs: series },
                RequestView::Save {
                    slug,
                    points: result,
                    source_name: "System"@,
                    category: "Calculated"@,
                },
            ],
            StepView::Done(Ok(result)),
        ),
{
    assert(series.take(0) =~= Seq::<Seq<DataPoint>>::empty());
    lemma_gathered_from_providers(entries, slug, calculator, backfill, series, result, saved, 0);
}

/// The run with dependencies, from the point at which `have` inputs are
/// gathered.
proof fn lemma_gathered_from_providers(
    entries: Seq<MetadataView>,
    slug: Seq<char>,
    calculator: Calculator,
    backfill: bool,
    series: Seq<Seq<DataPoint>>,
    result: Seq<DataPoint>,
    saved: Seq<DataPoint>,
    have: int,
)
    requires
        series.len() == calculator.inputs().len(),
        0 <= have <= series.len(),
        forall|i: int|
            0 <= i < calculator.inputs().len() ==> route_of(
                entries,
                #[trigger] calculator.inputs()[i],
            ) is Fetch,
    ensures
        run(
            (ResolverView {
                fetch_deps: true,
                ..gathering(slug, calculator, backfill, series, have)
            }).advance(entries),
            entries,
            delivered_from(series, saved, have) + seq![Ok(result), Ok(saved)],
        ) == (
            fetches_from(entries, calculator.inputs(), series, backfill, have) + seq![
                RequestView::Calculate { slug, calculator, inputs: series },
                RequestView::Save {
                    slug,
                    points: result,
                    source_name: "System"@,
                    category: "Calculated"@,
                },
            ],
            StepView::Done(Ok(result)),
        ),
    decreases series.len() - have,
{
    let deps = calculator.inputs();
    let state = ResolverView {
        fetch_deps: true,
        ..gathering(slug, calculator, backfill, series, have)
    };
    let tail: Seq<Result<Seq<DataPoint>, Seq<char>>> = seq![Ok(result), Ok(saved)];
    let outcomes = delivered_from(series, saved, have) + tail;
    let calculate = RequestView::Calculate { slug, calculator, inputs: series };
    let save = RequestView::Save {
        slug,
        points: result,
        source_name: "System"@,
        category: "Calculated"@,
    };
    assert(state.stack.last() == FrameView { slug, calculator, inputs: series.take(have) });
    if have == series.len() {
        assert(series.take(have) =~= series);
        assert(state.lacking() == 0);
        let computing = ResolverView {
            stack: state.stack.drop_last(),
            pending: PendingView::Calculation { slug },
            ..state
        };
        assert(state.advance(entries) == StepView::Act(computing, calculate));
        assert(outcomes =~= tail);
        let saving = ResolverView { pending: PendingView::SaveCalculated { points: result }, ..computing };
        assert(computing.resume(entries, outcomes[0]) == StepView::Act(saving, save));
        let after_first = outcomes.drop_first();
        assert(after_first =~= seq![Ok(saved)]);
        assert(computing.stack =~= Seq::<FrameView>::empty());
        let done = StepView::Done(Ok(result));
        assert(saving.resume(entries, after_first[0]) == done);
        assert(after_first.drop_first() =~= Seq::empty());
        assert(run(done, entries, after_first.drop_first()) == (Seq::<RequestView>::empty(), done));
        assert(run(StepView::Act(saving, save), entries, after_first) == (
            seq![save] + Seq::<RequestView>::empty(),
            done,
        ));
        assert(run(StepView::Act(computing, calculate), entries, outcomes) == (
            seq![calculate] + (seq![save] + Seq::<RequestView>::empty()),
            done,
        ));
        assert(seq![calculate] + (seq![save] + Seq::<RequestView>::empty()) =~= fetches_from(
            entries,
            deps,
            series,
            backfill,
            have,
        ) + seq![calculate, save]);
    } else {
        assert(series.take(have).len() == have);
        assert(state.lacking() > 0);
        let dep = deps[have];
        assert(route_of(entries, dep) is Fetch);
        let source = route_of(entries, dep)->Fetch_source;
        let symbol = route_of(entries, dep)->Fetch_symbol;
        let fetch = RequestView::Fetch { slug: dep, source, symbol, backfill };
        let keep = RequestView::Save {
            slug: dep,
            points: series[have],
            source_name: source_name_text(source),
            category: "Macro"@,
        };
        let fetching = ResolverView {
            pending: PendingView::Fetch { slug: dep, source, symbol },
            ..state
        };
        assert(state.advance(entries) == StepView::Act(fetching, fetch));
        let rest_outcomes = delivered_from(series, saved, have + 1) + tail;
        assert(outcomes =~= seq![Ok(series[have]), Ok(saved)] + rest_outcomes);
        assert(outcomes[0] == Ok::<Seq<DataPoint>, Seq<char>>(series[have]));
        let keeping = ResolverView {
            pending: PendingView::SaveFetched { points: series[have] },
            ..fetching
        };
        assert(fetching.resume(entries, outcomes[0]) == StepView::Act(keeping, keep));
        let after_fetch = outcomes.drop_first();
        assert(after_fetch =~= seq![Ok(saved)] + rest_outcomes);
        assert(after_fetch[0] == Ok::<Seq<DataPoint>, Seq<char>>(saved));
        let next = ResolverView {
            fetch_deps: true,
            ..gathering(slug, calculator, backfill, series, have + 1)
        };
        assert(series.take(have).push(series[have]) =~= series.take(have + 1));
        assert(keeping.settled().with_input(series[have]).stack =~= next.stack);
        assert(keeping.settled().with_input(series[have]) == next);
        assert(keeping.resume(entries, after_fetch[0]) == next.advance(entries));
        assert(after_fetch.drop_first() =~= rest_outcomes);
        lemma_gathered_from_providers(
            entries,
            slug,
            calculator,
            backfill,
            series,
            result,
            saved,
            have + 1,
        );
        let rest_requests = fetches_from(entries, deps, series, backfill, have + 1) + seq![
            calculate,
            save,
        ];
        assert(run(next.advance(entries), entries, rest_outcomes).0 == rest_requests);
        assert(run(StepView::Act(keeping, keep), entries, after_fetch).0 == seq![keep]
            + rest_requests);
        assert(run(StepView::Act(fetching, fetch), entries, outcomes).0 == seq![fetch] + (seq![
            keep,
        ] + rest_requests));
        assert(seq![fetch] + (seq![keep] + rest_requests) =~= fetches_from(
            entries,
            deps,
            series,
            backfill,
            have,
        ) + seq![calculate, save]);
    }
}

/// A bound on the outcomes that an orderly run can still take before it
/// ends: two for each input that is still lacking, the computation and its
/// saving among them, and what the request under way adds.
pub open spec fn effort(state: ResolverView) -> nat {
    let open: nat = if state.stack.len() == 0 {
        0
    } else {
        2 * state.lacking()
    };
    let waiting: nat = match state.pending {
        PendingView::Fetch { .. } => 2,
        PendingView::Calculation { .. } => 2,
        PendingView::Descent => 3,
        _ => 1,
    };
    open + waiting
}

/// Whether a step belongs to an orderly run that ends within `bound`
/// outcomes.
pub open spec fn within(step: StepView, bound: nat) -> bool {
    match step {
        StepView::Act(state, request) => orderly(state) && effort(state) <= bound && !(
        request is Descend),
        StepView::Done(_) => true,
    }
}

/// Going on with the one open indicator asks for no descent and leaves a
/// bounded rest.
proof fn lemma_advance_effort(state: ResolverView, entries: Seq<MetadataView>)
    requires
        state.stack.len() == 1,
    ensures
        within(state.advance(entries), 2 * state.lacking() + 2),
    decreases state.lacking(),
{
    let top = state.stack.last();
    lemma_inputs_are_not_computed(top.calculator);
    if state.lacking() > 0 {
        let dep = top.calculator.inputs()[top.inputs.len() as int];
        assert(calculator_for(dep) is None);
        if state.fetch_deps && route_of(entries, dep) is Empty {
            let next = state.with_input(Seq::empty());
            assert(next.stack.len() == 1);
            assert(next.stack.last().inputs.len() == top.inputs.len() + 1);
            assert(next.stack.last().calculator == top.calculator);
            lemma_advance_effort(next, entries);
        }
    } else {
        assert(state.stack.drop_last().len() == 0);
    }
}

/// Handing a series to the open indicator as its next input leaves a rest
/// that is bounded by the inputs that were lacking before.
proof fn lemma_input_effort(state: ResolverView, entries: Seq<MetadataView>, points: Seq<DataPoint>)
    requires
        state.stack.len() == 1,
        state.lacking() >= 1,
    ensures
        within(state.with_input(points).advance(entries), 2 * state.lacking()),
{
    let next = state.with_input(points);
    let top = state.stack.last();
    assert(next.stack.len() == 1);
    assert(next.stack.last().inputs.len() == top.inputs.len() + 1);
    assert(next.stack.last().calculator == top.calculator);
    assert(next.lacking() == state.lacking() - 1);
    lemma_advance_effort(next, entries);
}

/// In an orderly run every outcome brings the end nearer: the next step
/// belongs to an orderly run with less effort left, and asks for no descent.
pub proof fn lemma_resume_makes_progress(
    state: ResolverView,
    entries: Seq<MetadataView>,
    outcome: Result<Seq<DataPoint>, Seq<char>>,
)
    requires
        orderly(state),
    ensures
        effort(state) >= 1,
        within(state.resume(entries, outcome), (effort(state) - 1) as nat),
{
    if state.stack.len() == 1 {
        match state.pending {
            PendingView::SaveFetched { points } => {
                assert(state.settled().lacking() == state.lacking());
                lemma_input_effort(state.settled(), entries, points);
            },
            PendingView::Read { slug } => {
                if outcome is Ok {
                    assert(state.settled().lacking() == state.lacking());
                    lemma_input_effort(state.settled(), entries, outcome->Ok_0);
                }
            },
            PendingView::Descent => {
                lemma_advance_effort(state, entries);
            },
            _ => {},
        }
    }
}

/// The first step of any run belongs to an orderly run that ends within
/// eight outcomes.
pub proof fn lemma_start_effort(
    entries: Seq<MetadataView>,
    slug: Seq<char>,
    backfill: bool,
    fetch_deps: bool,
)
    ensures
        within(start_of(entries, slug, backfill, fetch_deps), 8),
{
    match route_of(entries, slug) {
        RouteView::Compute { calculator } => {
            lemma_inputs_are_not_computed(calculator);
            let opened = ResolverView {
                backfill,
                fetch_deps,
                stack: seq![FrameView { slug, calculator, inputs: Seq::empty() }],
                pending: PendingView::Descent,
            };
            assert(opened.stack.last().calculator == calculator);
            lemma_advance_effort(opened, entries);
        },
        _ => {},
    }
}

/// A run that is bounded ends within its bound and never asks for a descent.
proof fn lemma_run_ends(
    step: StepView,
    entries: Seq<MetadataView>,
    outcomes: Seq<Result<Seq<DataPoint>, Seq<char>>>,
    bound: nat,
)
    requires
        within(step, bound),
        outcomes.len() >= bound,
    ensures
        run(step, entries, outcomes).1 is Done,
        run(step, entries, outcomes).0.len() <= bound,
        forall|i: int|
            0 <= i < run(step, entries, outcomes).0.len() ==> !(#[trigger] run(
                step,
                entries,
                outcomes,
            ).0[i] is Descend),
    decreases outcomes.len(),
{
    match step {
        StepView::Done(_) => {},
        StepView::Act(state, request) => {
            lemma_resume_makes_progress(state, entries, outcomes[0]);
            lemma_run_ends(
                state.resume(entries, outcomes[0]),
                entries,
                outcomes.drop_first(),
                (bound - 1) as nat,
            );
        },
    }
}

/// Resolving ends. Whatever the catalog holds and whatever the outcomes of
/// the requests are, a run makes at most eight requests and is over when
/// their outcomes are in; it never has more than one computed indicator
/// open, so that no descent is asked for.
pub proof fn lemma_resolution_ends(
    entries: Seq<MetadataView>,
    slug: Seq<char>,
    backfill: bool,
    fetch_deps: bool,
    outcomes: Seq<Result<Seq<DataPoint>, Seq<char>>>,
)
    requires
        outcomes.len() >= 8,
    ensures
        run(start_of(entries, slug, backfill, fetch_deps), entries, outcomes).1 is Done,
        run(start_of(entries, slug, backfill, fetch_deps), entries, outcomes).0.len() <= 8,
        forall|i: int|
            0 <= i < run(start_of(entries, slug, backfill, fetch_deps), entries, outcomes).0.len()
                ==> !(#[trigger] run(
                start_of(entries, slug, backfill, fetch_deps),
                entries,
                outcomes,
            ).0[i] is Descend),
{
    lemma_start_effort(entries, slug, backfill, fetch_deps);
    lemma_run_ends(start_of(entries, slug, backfill, fetch_deps), entries, outcomes, 8);
}

} // verus!
