//! What the store is to hold of the catalog: one row for each entry, and no
//! row for an indicator that the catalog no longer lists.

use vstd::prelude::*;
use crate::orchestrator::{source_name, source_name_text};
use crate::registry::{Category, MetadataView, Registry, SourceType};
use crate::staleness::{digits_value, refresh_minutes, signed_decimal, without_trailing};
use crate::text::{same_text, to_uppercase, uppercased};

verus! {

/// The name under which a category is stored.
pub open spec fn category_text(category: Category) -> Seq<char> {
    match category {
        Category::Valuation => "Valuation"@,
        Category::Liquidity => "Liquidity"@,
        Category::UsMacro => "US Macro"@,
        Category::UsStocks => "US Stocks"@,
        Category::KoreaMacro => "Korea Macro"@,
        Category::KoreaStocks => "Korea Stocks"@,
        Category::Crypto => "Crypto"@,
        Category::Commodities => "Commodities"@,
        Category::RealEstate => "Real Estate"@,
        Category::Global => "Global"@,
        Category::Risk => "Risk"@,
        Category::Technical => "Technical"@,
        Category::Internal => "Internal"@,
    }
}

/// The name under which a category is stored.
pub fn category_to_string(category: &Category) -> (r: &'static str)
    ensures
        r@ == category_text(*category),
{
    match category {
        Category::Valuation => "Valuation",
        Category::Liquidity => "Liquidity",
        Category::UsMacro => "US Macro",
        Category::UsStocks => "US Stocks",
        Category::KoreaMacro => "Korea Macro",
        Category::KoreaStocks => "Korea Stocks",
        Category::Crypto => "Crypto",
        Category::Commodities => "Commodities",
        Category::RealEstate => "Real Estate",
        Category::Global => "Global",
        Category::Risk => "Risk",
        Category::Technical => "Technical",
        Category::Internal => "Internal",
    }
}

/// The name under which a source is stored.
pub fn source_to_string(source: &SourceType) -> (r: &'static str)
    ensures
        r@ == source_name_text(*source),
{
    source_name(*source)
}

/// The refresh interval that is stored for an indicator of the source: an
/// hour for the market-data provider and the exchange, a day for all others.
pub open spec fn refresh_interval_text(source: SourceType) -> Seq<char> {
    match source {
        SourceType::Tiingo | SourceType::Binance => "60m"@,
        _ => "1440m"@,
    }
}

/// The refresh interval that is stored for an indicator of the source.
pub fn refresh_interval_for(source: &SourceType) -> (r: &'static str)
    ensures
        r@ == refresh_interval_text(*source),
{
    match source {
        SourceType::Tiingo | SourceType::Binance => "60m",
        _ => "1440m",
    }
}

/// The refresh interval that is stored for an indicator is read back as an
/// hour for the market-data provider and the exchange, and as a day for
/// every other source.
pub proof fn lemma_seeded_interval(source: SourceType)
    ensures
        refresh_minutes(refresh_interval_text(source)) == (match source {
            SourceType::Tiingo | SourceType::Binance => 60int,
            _ => 1440int,
        }),
{
    reveal_strlit("60m");
    reveal_strlit("1440m");
    let hour = "60m"@;
    let hour_digits = seq!['6', '0'];
    assert(hour.drop_last() =~= hour_digits);
    assert(without_trailing(hour_digits, 'm') == hour_digits);
    assert(without_trailing(hour, 'm') == hour_digits);
    assert(hour_digits.drop_last() =~= seq!['6']);
    assert(digits_value(seq!['6']) == Some(6int));
    assert(digits_value(hour_digits) == Some(60int));
    assert(signed_decimal(hour_digits) == Some(60int));
    let day = "1440m"@;
    let day_digits = seq!['1', '4', '4', '0'];
    assert(day.drop_last() =~= day_digits);
    assert(without_trailing(day_digits, 'm') == day_digits);
    assert(without_trailing(day, 'm') == day_digits);
    assert(day_digits.drop_last() =~= seq!['1', '4', '4']);
    assert(seq!['1', '4', '4'].drop_last() =~= seq!['1', '4']);
    assert(seq!['1', '4'].drop_last() =~= seq!['1']);
    assert(digits_value(seq!['1']) == Some(1int));
    assert(digits_value(seq!['1', '4']) == Some(14int));
    assert(digits_value(seq!['1', '4', '4']) == Some(144int));
    assert(digits_value(day_digits) == Some(1440int));
    assert(signed_decimal(day_digits) == Some(1440int));
}

/// The name that the store gives an indicator that it meets for the first
/// time when a series is saved: the slug in upper case.
pub fn default_indicator_name(slug: &str) -> (name: String)
    ensures
        name@ == uppercased(slug@),
{
    to_uppercase(slug)
}

/// The row that the store is to hold for a catalog entry.
#[derive(Clone, Debug, PartialEq, Eq)]
pub struct SeedRow {
    pub slug: String,
    pub name: String,
    pub category: String,
    pub source: String,
    pub refresh_interval: String,
}

/// The mathematical content of a [`SeedRow`].
pub struct SeedRowView {
    pub slug: Seq<char>,
    pub name: Seq<char>,
    pub category: Seq<char>,
    pub source: Seq<char>,
    pub refresh_interval: Seq<char>,
}

impl DeepView for SeedRow {
    type V = SeedRowView;

    open spec fn deep_view(&self) -> SeedRowView {
        SeedRowView {
            slug: self.slug@,
            name: self.name@,
            category: self.category@,
            source: self.source@,
            refresh_interval: self.refresh_interval@,
        }
    }
}

impl View for SeedRow {
    type V = SeedRowView;

    open spec fn view(&self) -> SeedRowView {
        self.deep_view()
    }
}

/// The row for a catalog entry.
pub open spec fn seed_row_of(entry: MetadataView) -> SeedRowView {
    SeedRowView {
        slug: entry.slug,
        name: entry.name,
        category: category_text(entry.category),
        source: source_name_text(entry.source),
        refresh_interval: refresh_interval_text(entry.source),
    }
}

/// The rows for the entries of a catalog, the unlisted ones too, in catalog
/// order.
pub open spec fn seed_rows_of(entries: Seq<MetadataView>) -> Seq<SeedRowView> {
    Seq::new(entries.len(), |i: int| seed_row_of(entries[i]))
}

/// Whether some entry of the catalog carries the slug.
pub open spec fn lists(entries: Seq<MetadataView>, slug: Seq<char>) -> bool {
    exists|i: int| 0 <= i < entries.len() && (#[trigger] entries[i]).slug == slug
}

/// The stored slugs that the catalog does not list, in their order.
pub open spec fn obsolete(entries: Seq<MetadataView>, stored: Seq<Seq<char>>) -> Seq<Seq<char>>
    decreases stored.len(),
{
    if stored.len() == 0 {
        Seq::empty()
    } else {
        let head = obsolete(entries, stored.drop_last());
        if lists(entries, stored.last()) {
            head
        } else {
            head.push(stored.last())
        }
    }
}

/// The rows to write into the store: one for each entry of the catalog.
pub fn seed_rows(registry: &Registry) -> (rows: Vec<SeedRow>)
    ensures
        rows.deep_view() == seed_rows_of(registry@),
{
    let entries = registry.get_all_indicators();
    let mut rows: Vec<SeedRow> = Vec::new();
    let mut i: usize = 0;
    while i < entries.len()
        invariant
            i <= entries.len(),
            entries.deep_view() == registry@,
            rows.deep_view() == seed_rows_of(registry@.subrange(0, i as int)),
        decreases entries.len() - i,
    {
        let entry = &entries[i];
        let ghost before = rows.deep_view();
        let row = SeedRow {
            slug: entry.slug.clone(),
            name: entry.name.clone(),
            category: category_to_string(&entry.category).to_owned(),
            source: source_to_string(&entry.source).to_owned(),
            refresh_interval: refresh_interval_for(&entry.source).to_owned(),
        };
        rows.push(row);
        assert(rows.deep_view() =~= before.push(row@));
        assert(before.push(row@) =~= seed_rows_of(registry@.subrange(0, i + 1)));
        i += 1;
    }
    assert(registry@.subrange(0, i as int) =~= registry@);
    rows
}

/// Whether some entry of the catalog carries the slug.
pub fn is_listed(registry: &Registry, slug: &str) -> (r: bool)
    ensures
        r == lists(registry@, slug@),
{
    let entries = registry.get_all_indicators();
    let mut i: usize = 0;
    while i < entries.len()
        invariant
            i <= entries.len(),
            entries.deep_view() == registry@,
            forall|j: int| 0 <= j < i ==> (#[trigger] registry@[j]).slug != slug@,
        decreases entries.len() - i,
    {
        if same_text(entries[i].slug.as_str(), slug) {
            assert(registry@[i as int].slug == slug@);
            return true;
        }
        i += 1;
    }
    false
}

/// The stored slugs to delete from the store: those that the catalog does
/// not list.
pub fn obsolete_slugs(registry: &Registry, stored: &Vec<String>) -> (gone: Vec<String>)
    ensures
        gone.deep_view() == obsolete(registry@, stored.deep_view()),
{
    let mut gone: Vec<String> = Vec::new();
    let mut i: usize = 0;
    while i < stored.len()
        invariant
            i <= stored.len(),
            gone.deep_view() == obsolete(registry@, stored.deep_view().subrange(0, i as int)),
        decreases stored.len() - i,
    {
        proof {
            assert(stored.deep_view().subrange(0, i + 1).drop_last() =~= stored.deep_view().subrange(
                0,
                i as int,
            ));
            assert(stored.deep_view().subrange(0, i + 1).last() == stored[i as int]@);
        }
        if !is_listed(registry, stored[i].as_str()) {
            let ghost before = gone.deep_view();
            gone.push(stored[i].clone());
            assert(gone.deep_view() =~= before.push(stored[i as int]@));
        }
        i += 1;
    }
    assert(stored.deep_view().subrange(0, i as int) =~= stored.deep_view());
    gone
}

} // verus!
