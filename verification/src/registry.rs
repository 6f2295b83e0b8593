//! The catalog of indicators: what each one is called, where its data comes
//! from, and how it is shown.

use vstd::prelude::*;
use crate::catalog::{lemma_standard_slugs_differ, standard_entries, standard_table};
use crate::text::same_text;

verus! {

/// Where the observations of an indicator come from: one of the outside
/// providers, the user, or a computation over other indicators.
#[derive(Clone, Copy, Debug, PartialEq, Eq, Structural)]
pub enum SourceType {
    Fred,
    Yahoo,
    Tiingo,
    Binance,
    WorldBank,
    Eia,
    Glassnode,
    Alternative,
    Manual,
    Calculated,
}

/// Whether a provider delivers series of the source.
pub open spec fn delivers(source: SourceType) -> bool {
    source != SourceType::Glassnode && source != SourceType::Manual && source
        != SourceType::Calculated
}

/// The group under which an indicator is listed. `Internal` entries serve
/// only as inputs of computed indicators and are not listed.
#[derive(Clone, Copy, Debug, PartialEq, Eq, Structural)]
pub enum Category {
    Valuation,
    Liquidity,
    UsMacro,
    UsStocks,
    KoreaMacro,
    KoreaStocks,
    Crypto,
    Commodities,
    RealEstate,
    Global,
    Risk,
    Technical,
    Internal,
}

/// How a value of the indicator is to be read and shown.
#[derive(Clone, Copy, Debug, PartialEq, Eq, Structural)]
pub enum UnitType {
    Index,
    Percent,
    UsdPrice,
    KrwPrice,
    Billions,
    Millions,
    Thousands,
    Dollars,
    Ratio,
}

/// One entry of the catalog.
#[derive(Clone, Debug)]
pub struct IndicatorMetadata {
    pub slug: String,
    pub name: String,
    pub source: SourceType,
    pub category: Category,
    pub description: Option<String>,
    pub source_symbol: Option<String>,
    pub unit: UnitType,
    pub source_url: Option<String>,
    pub frequency: Option<String>,
    pub has_history: bool,
}

/// The mathematical content of a catalog entry.
pub struct MetadataView {
    pub slug: Seq<char>,
    pub name: Seq<char>,
    pub source: SourceType,
    pub category: Category,
    pub description: Option<Seq<char>>,
    pub source_symbol: Option<Seq<char>>,
    pub unit: UnitType,
    pub source_url: Option<Seq<char>>,
    pub frequency: Option<Seq<char>>,
    pub has_history: bool,
}

impl DeepView for IndicatorMetadata {
    type V = MetadataView;

    open spec fn deep_view(&self) -> MetadataView {
        MetadataView {
            slug: self.slug@,
            name: self.name@,
            source: self.source,
            category: self.category,
            description: self.description.deep_view(),
            source_symbol: self.source_symbol.deep_view(),
            unit: self.unit,
            source_url: self.source_url.deep_view(),
            frequency: self.frequency.deep_view(),
            has_history: self.has_history,
        }
    }
}

impl View for IndicatorMetadata {
    type V = MetadataView;

    open spec fn view(&self) -> MetadataView {
        self.deep_view()
    }
}

/// A copy of an optional text.
pub fn copy_text(text: &Option<String>) -> (r: Option<String>)
    ensures
        r.deep_view() == text.deep_view(),
{
    match text {
        Some(s) => Some(s.clone()),
        None => None,
    }
}

impl IndicatorMetadata {
    /// A copy with the same content.
    pub fn duplicate(&self) -> (r: IndicatorMetadata)
        ensures
            r@ == self@,
    {
        IndicatorMetadata {
            slug: self.slug.clone(),
            name: self.name.clone(),
            source: self.source,
            category: self.category,
            description: copy_text(&self.description),
            source_symbol: copy_text(&self.source_symbol),
            unit: self.unit,
            source_url: copy_text(&self.source_url),
            frequency: copy_text(&self.frequency),
            has_history: self.has_history,
        }
    }
}

/// A way to choose entries of the catalog.
#[derive(Clone, Copy, Debug, PartialEq, Eq, Structural)]
pub enum Selection {
    /// Every entry that is listed, that is, not `Internal`.
    Visible,
    /// Every entry of one category.
    InCategory(Category),
    /// Every entry of one source.
    FromSource(SourceType),
}

/// Whether the selection takes the entry.
pub open spec fn selects(selection: Selection, entry: MetadataView) -> bool {
    match selection {
        Selection::Visible => entry.category != Category::Internal,
        Selection::InCategory(category) => entry.category == category,
        Selection::FromSource(source) => entry.source == source,
    }
}

/// The entries that the selection takes, in catalog order.
pub open spec fn selected(entries: Seq<MetadataView>, selection: Selection) -> Seq<MetadataView>
    decreases entries.len(),
{
    if entries.len() == 0 {
        Seq::empty()
    } else {
        let head = selected(entries.drop_last(), selection);
        if selects(selection, entries.last()) {
            head.push(entries.last())
        } else {
            head
        }
    }
}

/// The entry that a slug names: the last one in catalog order that carries
/// it, if any does.
pub open spec fn lookup(entries: Seq<MetadataView>, slug: Seq<char>) -> Option<MetadataView>
    decreases entries.len(),
{
    if entries.len() == 0 {
        None
    } else if entries.last().slug == slug {
        Some(entries.last())
    } else {
        lookup(entries.drop_last(), slug)
    }
}

/// Whether no two entries carry the same slug.
pub open spec fn distinct_slugs(entries: Seq<MetadataView>) -> bool {
    forall|i: int, j: int|
        0 <= i < j < entries.len() ==> (#[trigger] entries[i]).slug != (#[trigger] entries[j]).slug
}

/// Where no two entries carry the same slug, the slug of an entry finds
/// that entry.
pub proof fn lemma_lookup_finds(entries: Seq<MetadataView>, k: int)
    requires
        distinct_slugs(entries),
        0 <= k < entries.len(),
    ensures
        lookup(entries, entries[k].slug) == Some(entries[k]),
    decreases entries.len(),
{
    let last = entries.len() - 1;
    if k < last {
        let head = entries.drop_last();
        assert(entries[k].slug != entries[last].slug);
        assert(head[k] == entries[k]);
        assert forall|i: int, j: int| 0 <= i < j < head.len() implies (#[trigger] head[i]).slug != (
        #[trigger] head[j]).slug by {
            assert(head[i] == entries[i]);
            assert(head[j] == entries[j]);
        }
        lemma_lookup_finds(head, k);
    } else {
        assert(entries[last] == entries.last());
    }
}

/// A selection takes no more entries than there are.
pub proof fn lemma_selected_len(entries: Seq<MetadataView>, selection: Selection)
    ensures
        selected(entries, selection).len() <= entries.len(),
    decreases entries.len(),
{
    if entries.len() > 0 {
        lemma_selected_len(entries.drop_last(), selection);
    }
}

/// What a lookup finds is an entry of the catalog, carries the slug that was
/// asked for, and no later entry carries it; it finds nothing only where no
/// entry carries the slug.
pub proof fn lemma_lookup(entries: Seq<MetadataView>, slug: Seq<char>)
    ensures
        match lookup(entries, slug) {
            Some(found) => exists|i: int|
                0 <= i < entries.len() && #[trigger] entries[i] == found && found.slug == slug
                    && forall|j: int| i < j < entries.len() ==> (#[trigger] entries[j]).slug != slug,
            None => forall|i: int| 0 <= i < entries.len() ==> (#[trigger] entries[i]).slug != slug,
        },
    decreases entries.len(),
{
    if entries.len() > 0 {
        let head = entries.drop_last();
        if entries.last().slug == slug {
            assert(entries[entries.len() - 1] == entries.last());
        } else {
            lemma_lookup(head, slug);
            match lookup(head, slug) {
                Some(found) => {
                    let i = choose|i: int|
                        0 <= i < head.len() && #[trigger] head[i] == found && found.slug == slug
                            && forall|j: int|
                            i < j < head.len() ==> (#[trigger] head[j]).slug != slug;
                    assert(entries[i] == found);
                    assert forall|j: int| i < j < entries.len() implies (#[trigger] entries[j]).slug
                        != slug by {
                        if j < head.len() {
                            assert(head[j] == entries[j]);
                        }
                    }
                },
                None => {
                    assert forall|i: int| 0 <= i < entries.len() implies (#[trigger] entries[i]).slug
                        != slug by {
                        if i < head.len() {
                            assert(head[i] == entries[i]);
                        }
                    }
                },
            }
        }
    }
}

/// How many entries the catalog holds, in all and by kind.
#[derive(Clone, Copy, Debug, PartialEq, Eq, Structural)]
pub struct RegistryStats {
    pub total: usize,
    pub visible: usize,
    pub fred: usize,
    pub tiingo: usize,
    pub binance: usize,
    pub calculated: usize,
    pub alternative: usize,
    pub manual: usize,
}

/// The catalog: entries in a fixed order, looked up by slug.
pub struct Registry {
    entries: Vec<IndicatorMetadata>,
}

impl View for Registry {
    type V = Seq<MetadataView>;

    closed spec fn view(&self) -> Seq<MetadataView> {
        self.entries.deep_view()
    }
}

impl Registry {
    /// The standard catalog.
    pub fn standard() -> (r: Registry)
        ensures
            r@ == standard_table(),
            distinct_slugs(r@),
    {
        proof {
            lemma_standard_slugs_differ();
        }
        Registry { entries: standard_entries() }
    }

    /// A catalog of the given entries, in their order.
    pub fn from_entries(entries: Vec<IndicatorMetadata>) -> (r: Registry)
        ensures
            r@ == entries.deep_view(),
    {
        Registry { entries }
    }

    /// The entries that the selection takes, in catalog order.
    fn select(&self, selection: Selection) -> (r: Vec<IndicatorMetadata>)
        ensures
            r.deep_view() == selected(self@, selection),
    {
        let mut r: Vec<IndicatorMetadata> = Vec::new();
        let mut i: usize = 0;
        while i < self.entries.len()
            invariant
                i <= self.entries.len(),
                r.deep_view() == selected(self@.subrange(0, i as int), selection),
            decreases self.entries.len() - i,
        {
            let entry = &self.entries[i];
            let take = match selection {
                Selection::Visible => entry.category != Category::Internal,
                Selection::InCategory(category) => entry.category == category,
                Selection::FromSource(source) => entry.source == source,
            };
            proof {
                assert(self@.subrange(0, i + 1).drop_last() =~= self@.subrange(0, i as int));
                assert(self@.subrange(0, i + 1).last() == entry@);
            }
            if take {
                let ghost before = r.deep_view();
                r.push(entry.duplicate());
                assert(r.deep_view() =~= before.push(entry@));
            }
            i += 1;
        }
        assert(self@.subrange(0, i as int) =~= self@);
        r
    }

    /// How many entries the selection takes.
    fn count(&self, selection: Selection) -> (n: usize)
        ensures
            n == selected(self@, selection).len(),
    {
        let mut n: usize = 0;
        let mut i: usize = 0;
        while i < self.entries.len()
            invariant
                i <= self.entries.len(),
                n <= i,
                n == selected(self@.subrange(0, i as int), selection).len(),
            decreases self.entries.len() - i,
        {
            let entry = &self.entries[i];
            let take = match selection {
                Selection::Visible => entry.category != Category::Internal,
                Selection::InCategory(category) => entry.category == category,
                Selection::FromSource(source) => entry.source == source,
            };
            proof {
                assert(self@.subrange(0, i + 1).drop_last() =~= self@.subrange(0, i as int));
                assert(self@.subrange(0, i + 1).last() == entry@);
            }
            if take {
                n += 1;
            }
            i += 1;
        }
        assert(self@.subrange(0, i as int) =~= self@);
        n
    }

    /// The entries that are listed: all but the `Internal` ones.
    pub fn get_available_indicators(&self) -> (r: Vec<IndicatorMetadata>)
        ensures
            r.deep_view() == selected(self@, Selection::Visible),
    {
        self.select(Selection::Visible)
    }

    /// Every entry, the `Internal` ones too.
    pub fn get_all_indicators(&self) -> (r: &Vec<IndicatorMetadata>)
        ensures
            r.deep_view() == self@,
    {
        &self.entries
    }

    /// The entries of one category.
    pub fn get_by_category(&self, category: Category) -> (r: Vec<IndicatorMetadata>)
        ensures
            r.deep_view() == selected(self@, Selection::InCategory(category)),
    {
        self.select(Selection::InCategory(category))
    }

    /// The entries of one source.
    pub fn get_by_source(&self, source: SourceType) -> (r: Vec<IndicatorMetadata>)
        ensures
            r.deep_view() == selected(self@, Selection::FromSource(source)),
    {
        self.select(Selection::FromSource(source))
    }

    /// The entry that the slug names, if there is one.
    pub fn get_metadata(&self, slug: &str) -> (r: Option<IndicatorMetadata>)
        ensures
            r.deep_view() == lookup(self@, slug@),
    {
        let mut k: usize = self.entries.len();
        assert(self@.subrange(0, k as int) =~= self@);
        while k > 0
            invariant
                k <= self.entries.len(),
                lookup(self@, slug@) == lookup(self@.subrange(0, k as int), slug@),
            decreases k,
        {
            let entry = &self.entries[k - 1];
            proof {
                assert(self@.subrange(0, k as int).drop_last() =~= self@.subrange(0, k - 1));
                assert(self@.subrange(0, k as int).last() == entry@);
            }
            if same_text(entry.slug.as_str(), slug) {
                return Some(entry.duplicate());
            }
            k -= 1;
        }
        None
    }

    /// The counts of the catalog.
    pub fn get_stats(&self) -> (stats: RegistryStats)
        ensures
            stats.total == self@.len(),
            stats.visible == selected(self@, Selection::Visible).len(),
            stats.fred == selected(self@, Selection::FromSource(SourceType::Fred)).len(),
            stats.tiingo == selected(self@, Selection::FromSource(SourceType::Tiingo)).len(),
            stats.binance == selected(self@, Selection::FromSource(SourceType::Binance)).len(),
            stats.calculated == selected(
                self@,
                Selection::FromSource(SourceType::Calculated),
            ).len(),
            stats.alternative == selected(
                self@,
                Selection::FromSource(SourceType::Alternative),
            ).len(),
            stats.manual == selected(self@, Selection::FromSource(SourceType::Manual)).len(),
    {
        RegistryStats {
            total: self.entries.len(),
            visible: self.count(Selection::Visible),
            fred: self.count(Selection::FromSource(SourceType::Fred)),
            tiingo: self.count(Selection::FromSource(SourceType::Tiingo)),
            binance: self.count(Selection::FromSource(SourceType::Binance)),
            calculated: self.count(Selection::FromSource(SourceType::Calculated)),
            alternative: self.count(Selection::FromSource(SourceType::Alternative)),
            manual: self.count(Selection::FromSource(SourceType::Manual)),
        }
    }
}

} // verus!
