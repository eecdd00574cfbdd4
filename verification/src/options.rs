//! Filtering, paging and sorting options of a request, and the query string
//! they are written as.
//!
//! An [`Options`] value is made with an [`OptionsBuilder`] and handed to
//! [`format_with_options`] together with the URL of the request:
//!
//! ```text
//! let options = OptionsBuilder::new()
//!     .filter(|f| {
//!         f.artist_name(String::from("Radiohead"));
//!     })
//!     .paging(2, 25)
//!     .sort(Sort::DESC)
//!     .build();
//! let url = format_with_options("http://host/events.json?apikey=KEY", Some(options));
//! // http://host/events.json?apikey=KEY&artist_name=Radiohead&page=2&per_page=25&order=desc
//! ```
//!
//! What the builders hold is stated over the views [`FilterView`],
//! [`BuilderView`] and [`OptionsView`], and what the function returns over
//! [`compose`].

use crate::util::{decimal, encode, encoded, push_decimal};
use vstd::prelude::*;
use vstd::seq_lib::lemma_concat_associative;
use vstd::string::*;

verus! {

/// The order in which results are asked for.
pub enum Sort {
    ASC,
    DESC,
}

impl Sort {
    /// The word that stands for this order in a query string.
    pub open spec fn token(self) -> Seq<char> {
        match self {
            Sort::ASC => "asc"@,
            Sort::DESC => "desc"@,
        }
    }

    fn as_str(&self) -> (word: &'static str)
        ensures
            word@ == self.token(),
    {
        match self {
            Sort::ASC => "asc",
            Sort::DESC => "desc",
        }
    }
}

/// One parameter of a query string: `&`, the key, `=`, the value.
pub open spec fn param(key: Seq<char>, value: Seq<char>) -> Seq<char> {
    seq!['&'] + key + seq!['='] + value
}

/// The parameter of an optional text: nothing if it is absent, else the key
/// with the percent-encoded text.
pub open spec fn text_param(key: Seq<char>, value: Option<Seq<char>>) -> Seq<char> {
    match value {
        Some(text) => param(key, encoded(text)),
        None => Seq::empty(),
    }
}

/// The fields of a filter as texts; `None` is a field that was not set.
pub struct FilterView {
    pub artist_name: Option<Seq<char>>,
    pub min_date: Option<Seq<char>>,
    pub max_date: Option<Seq<char>>,
    pub location: Option<Seq<char>>,
}

impl FilterView {
    /// The filter with no field set.
    pub open spec fn unset() -> FilterView {
        FilterView { artist_name: None, min_date: None, max_date: None, location: None }
    }

    /// No field is set.
    pub open spec fn is_unset(self) -> bool {
        self == FilterView::unset()
    }

    /// This filter with the artist's name set to `name`.
    pub open spec fn with_artist_name(self, name: Seq<char>) -> FilterView {
        FilterView { artist_name: Some(name), ..self }
    }

    /// This filter with the earliest date set to `date`.
    pub open spec fn with_min_date(self, date: Seq<char>) -> FilterView {
        FilterView { min_date: Some(date), ..self }
    }

    /// This filter with the latest date set to `date`.
    pub open spec fn with_max_date(self, date: Seq<char>) -> FilterView {
        FilterView { max_date: Some(date), ..self }
    }

    /// This filter with the location set to `location`.
    pub open spec fn with_location(self, location: Seq<char>) -> FilterView {
        FilterView { location: Some(location), ..self }
    }

    /// The parameters of the fields that are set: `min_date`, `max_date`,
    /// `artist_name`, `location`, in that order, each value percent-encoded.
    pub open spec fn query(self) -> Seq<char> {
        text_param("min_date"@, self.min_date) + text_param("max_date"@, self.max_date)
            + text_param("artist_name"@, self.artist_name) + text_param("location"@, self.location)
    }
}

/// A page of results: which one, and how many results a page holds.
pub struct PagingView {
    pub page: nat,
    pub per_page: nat,
}

impl PagingView {
    /// The parameters `page` and `per_page`, in that order, as decimal
    /// numerals.
    pub open spec fn query(self) -> Seq<char> {
        param("page"@, decimal(self.page)) + param("per_page"@, decimal(self.per_page))
    }
}

/// What an [`Options`] value holds: each part is there or not.
pub struct OptionsView {
    pub filter: Option<FilterView>,
    pub paging: Option<PagingView>,
    pub sort: Option<Sort>,
}

impl OptionsView {
    /// The options with no part set.
    pub open spec fn unset() -> OptionsView {
        OptionsView { filter: None, paging: None, sort: None }
    }

    /// A filter that is there has a field set.
    pub open spec fn wf(self) -> bool {
        self.filter matches Some(f) ==> !f.is_unset()
    }

    /// The parameters of the filter, if there is one.
    pub open spec fn filter_query(self) -> Seq<char> {
        match self.filter {
            Some(f) => f.query(),
            None => Seq::empty(),
        }
    }

    /// The parameters of the paging, if there is one.
    pub open spec fn paging_query(self) -> Seq<char> {
        match self.paging {
            Some(p) => p.query(),
            None => Seq::empty(),
        }
    }

    /// The parameter `order`, if a sort order is set.
    pub open spec fn sort_query(self) -> Seq<char> {
        match self.sort {
            Some(s) => param("order"@, s.token()),
            None => Seq::empty(),
        }
    }

    /// The parameters of the parts that are set: those of the filter, then
    /// those of the paging, then `order`.
    pub open spec fn query(self) -> Seq<char> {
        self.filter_query() + self.paging_query() + self.sort_query()
    }
}

/// The URL of a request with its options: `url` itself where there are
/// none, else `url` followed by the parameters of the options.
pub open spec fn compose(url: Seq<char>, options: Option<OptionsView>) -> Seq<char> {
    match options {
        Some(o) => url + o.query(),
        None => url,
    }
}

/// What an [`OptionsBuilder`] holds: the fields of the filter so far, and
/// the paging and the sort order if they were set.
pub struct BuilderView {
    pub filter: FilterView,
    pub paging: Option<PagingView>,
    pub sort: Option<Sort>,
}

impl BuilderView {
    /// The builder with nothing set.
    pub open spec fn unset() -> BuilderView {
        BuilderView { filter: FilterView::unset(), paging: None, sort: None }
    }

    /// This builder with `filter` as the fields of its filter.
    pub open spec fn with_filter(self, filter: FilterView) -> BuilderView {
        BuilderView { filter, ..self }
    }

    /// This builder with the paging set to `page` and `per_page`.
    pub open spec fn with_paging(self, page: nat, per_page: nat) -> BuilderView {
        BuilderView { paging: Some(PagingView { page, per_page }), ..self }
    }

    /// This builder with the sort order set to `sort`.
    pub open spec fn with_sort(self, sort: Sort) -> BuilderView {
        BuilderView { sort: Some(sort), ..self }
    }

    /// The options that the builder stands for: a filter with no field set
    /// is no filter.
    pub open spec fn built(self) -> OptionsView {
        OptionsView {
            filter: if self.filter.is_unset() {
                None
            } else {
                Some(self.filter)
            },
            paging: self.paging,
            sort: self.sort,
        }
    }
}

spec fn text(field: Option<String>) -> Option<Seq<char>> {
    match field {
        Some(s) => Some(s@),
        None => None,
    }
}

/// Collects the fields of a filter. It cannot be made or finished from
/// outside: [`OptionsBuilder::filter`] hands it to the caller's function.
pub struct FilterBuilder {
    empty: bool,
    artist_name: Option<String>,
    min_date: Option<String>,
    max_date: Option<String>,
    location: Option<String>,
}

impl View for FilterBuilder {
    type V = FilterView;

    closed spec fn view(&self) -> FilterView {
        FilterView {
            artist_name: text(self.artist_name),
            min_date: text(self.min_date),
            max_date: text(self.max_date),
            location: text(self.location),
        }
    }
}

/// Takes the flag of a builder down and stores `value` in one of its
/// fields, both in one step: between the two the flag would be wrong.
fn store(empty: &mut bool, field: &mut Option<String>, value: String)
    ensures
        !*final(empty),
        *final(field) == Some(value),
    no_unwind
{
    *empty = false;
    *field = Some(value);
}

impl FilterBuilder {
    /// The flag `empty` is up exactly as long as no field is set.
    #[verifier::type_invariant]
    spec fn flag_tells_unset(self) -> bool {
        self.empty <==> self@.is_unset()
    }

    fn new() -> (builder: FilterBuilder)
        ensures
            builder@ == FilterView::unset(),
    {
        FilterBuilder {
            empty: true,
            artist_name: None,
            min_date: None,
            max_date: None,
            location: None,
        }
    }

    /// Sets the artist's name, in place of an earlier one. Any text is taken.
    pub fn artist_name(&mut self, name: String) -> (builder: &mut FilterBuilder)
        ensures
            builder@ == old(self)@.with_artist_name(name@),
            *final(self) == *final(builder),
    {
        store(&mut self.empty, &mut self.artist_name, name);
        self
    }

    /// Sets the earliest date, in place of an earlier one. Any text is taken.
    pub fn min_date(&mut self, min_date: String) -> (builder: &mut FilterBuilder)
        ensures
            builder@ == old(self)@.with_min_date(min_date@),
            *final(self) == *final(builder),
    {
        store(&mut self.empty, &mut self.min_date, min_date);
        self
    }

    /// Sets the latest date, in place of an earlier one. Any text is taken.
    pub fn max_date(&mut self, max_date: String) -> (builder: &mut FilterBuilder)
        ensures
            builder@ == old(self)@.with_max_date(max_date@),
            *final(self) == *final(builder),
    {
        store(&mut self.empty, &mut self.max_date, max_date);
        self
    }

    /// Sets the location, in place of an earlier one. Any text is taken.
    pub fn location(&mut self, location: String) -> (builder: &mut FilterBuilder)
        ensures
            builder@ == old(self)@.with_location(location@),
            *final(self) == *final(builder),
    {
        store(&mut self.empty, &mut self.location, location);
        self
    }

    /// The filter that was collected, or `None` if no field was ever set.
    fn build(self) -> (filter: Option<Filter>)
        ensures
            filter is None <==> self@.is_unset(),
            filter matches Some(f) ==> f@ == self@,
    {
        proof {
            use_type_invariant(&self);
        }
        match self.empty {
            false => Some(
                Filter {
                    max_date: self.max_date,
                    min_date: self.min_date,
                    artist_name: self.artist_name,
                    location: self.location,
                },
            ),
            true => None,
        }
    }
}

/// A filter of which at least one field is set.
struct Filter {
    artist_name: Option<String>,
    min_date: Option<String>,
    max_date: Option<String>,
    location: Option<String>,
}

impl View for Filter {
    type V = FilterView;

    closed spec fn view(&self) -> FilterView {
        FilterView {
            artist_name: text(self.artist_name),
            min_date: text(self.min_date),
            max_date: text(self.max_date),
            location: text(self.location),
        }
    }
}

impl Filter {
    #[verifier::type_invariant]
    spec fn some_field_set(self) -> bool {
        !self@.is_unset()
    }

    /// Appends the parameters of the fields that are set.
    fn push_query(&self, url: &mut String)
        ensures
            final(url)@ == old(url)@ + self@.query(),
    {
        let ghost min_date = text_param("min_date"@, self@.min_date);
        let ghost max_date = text_param("max_date"@, self@.max_date);
        let ghost artist_name = text_param("artist_name"@, self@.artist_name);
        let ghost location = text_param("location"@, self@.location);
        push_text_param(url, "min_date", &self.min_date);
        push_text_param(url, "max_date", &self.max_date);
        push_text_param(url, "artist_name", &self.artist_name);
        push_text_param(url, "location", &self.location);
        proof {
            lemma_concat_associative(old(url)@, min_date, max_date);
            lemma_concat_associative(old(url)@, min_date + max_date, artist_name);
            lemma_concat_associative(old(url)@, min_date + max_date + artist_name, location);
        }
    }
}

struct Paging {
    per_page: u64,
    page: u64,
}

impl View for Paging {
    type V = PagingView;

    closed spec fn view(&self) -> PagingView {
        PagingView { page: self.page as nat, per_page: self.per_page as nat }
    }
}

impl Paging {
    /// Appends the parameters `page` and `per_page`.
    fn push_query(&self, url: &mut String)
        ensures
            final(url)@ == old(url)@ + self@.query(),
    {
        push_number_param(url, "page", self.page);
        push_number_param(url, "per_page", self.per_page);
        proof {
            lemma_concat_associative(
                old(url)@,
                param("page"@, decimal(self.page as nat)),
                param("per_page"@, decimal(self.per_page as nat)),
            );
        }
    }
}

/// Filtering, paging and sorting options of one request. A part that was
/// not set is absent, and nothing is written for it.
pub struct Options {
    paging: Option<Paging>,
    filter: Option<Filter>,
    sort: Option<Sort>,
}

impl View for Options {
    type V = OptionsView;

    closed spec fn view(&self) -> OptionsView {
        OptionsView {
            filter: match self.filter {
                Some(f) => Some(f@),
                None => None,
            },
            paging: match self.paging {
                Some(p) => Some(p@),
                None => None,
            },
            sort: self.sort,
        }
    }
}

/// The view of options that may be absent.
pub open spec fn view_of(options: Option<Options>) -> Option<OptionsView> {
    match options {
        Some(o) => Some(o@),
        None => None,
    }
}

/// Collects the options of a request.
pub struct OptionsBuilder {
    filter: FilterBuilder,
    paging: Option<Paging>,
    sort: Option<Sort>,
}

impl View for OptionsBuilder {
    type V = BuilderView;

    closed spec fn view(&self) -> BuilderView {
        BuilderView {
            filter: self.filter@,
            paging: match self.paging {
                Some(p) => Some(p@),
                None => None,
            },
            sort: self.sort,
        }
    }
}

impl OptionsBuilder {
    /// A builder with nothing set.
    pub fn new() -> (builder: OptionsBuilder)
        ensures
            builder@ == BuilderView::unset(),
    {
        OptionsBuilder { paging: None, filter: FilterBuilder::new(), sort: None }
    }

    /// Asks for page `page` of pages that hold `per_page` results each, in
    /// place of an earlier paging. Any two numbers are taken.
    pub fn paging(self, page: u64, per_page: u64) -> (builder: OptionsBuilder)
        ensures
            builder@ == self@.with_paging(page as nat, per_page as nat),
    {
        let mut builder = self;
        builder.paging = Some(Paging { per_page: per_page, page: page });
        builder
    }

    /// Asks for the order `sort`, in place of an earlier one.
    pub fn sort(self, sort: Sort) -> (builder: OptionsBuilder)
        ensures
            builder@ == self@.with_sort(sort),
    {
        let mut builder = self;
        builder.sort = Some(sort);
        builder
    }

    /// Calls `filter` once on the builder of the filter, so that it can set
    /// fields there. `filter` has to accept the fields as they are now. The
    /// builder that comes back holds the fields as that call left them;
    /// paging and sort order are as before.
    pub fn filter<F>(self, filter: F) -> (builder: OptionsBuilder) where F: Fn(&mut FilterBuilder)
        requires
            forall|fields: &mut FilterBuilder|
                (*fields)@ == self@.filter ==> #[trigger] call_requires(filter, (fields,)),
        ensures
            builder@ == self@.with_filter(builder@.filter),
            exists|fields: &mut FilterBuilder|
                (*fields)@ == self@.filter && (*final(fields))@ == builder@.filter
                    && #[trigger] call_ensures(filter, (fields,), ()),
    {
        let mut builder = self;
        filter(&mut builder.filter);
        builder
    }

    /// The options that were collected. A filter of which no field was set
    /// is left out.
    pub fn build(self) -> (options: Options)
        ensures
            options@ == self@.built(),
            options@.wf(),
    {
        Options { paging: self.paging, filter: self.filter.build(), sort: self.sort }
    }
}

/// Appends the parameter `key` with `value` as it is.
fn push_param(url: &mut String, key: &str, value: &str)
    ensures
        final(url)@ == old(url)@ + param(key@, value@),
{
    url.push('&');
    url.append(key);
    url.push('=');
    url.append(value);
}

/// Appends the parameter `key` with the percent-encoded text, if there is
/// one.
fn push_text_param(url: &mut String, key: &str, value: &Option<String>)
    ensures
        final(url)@ == old(url)@ + text_param(key@, text(*value)),
{
    if let Some(text) = value {
        let escaped = encode(text.as_str());
        push_param(url, key, escaped.as_str());
    }
}

/// Appends the parameter `key` with the decimal numeral of `value`.
fn push_number_param(url: &mut String, key: &str, value: u64)
    ensures
        final(url)@ == old(url)@ + param(key@, decimal(value as nat)),
{
    url.push('&');
    url.append(key);
    url.push('=');
    push_decimal(url, value);
}

/// Appends the options to `url` as query parameters, each written as `&`,
/// its name, `=` and its value: the filter's `min_date`, `max_date`,
/// `artist_name` and `location`, then `page` and `per_page`, then `order`.
/// What is not set is left out, and without options `url` comes back as it
/// is. No `?` is ever written: `url` is taken to hold a parameter already.
pub fn format_with_options(url: &str, options: Option<Options>) -> (new_url: String)
    ensures
        new_url@ == compose(url@, view_of(options)),
{
    match options {
        Some(opts) => {
            let mut new_url = url.to_owned();

            // filtering
            if let Some(filter) = &opts.filter {
                filter.push_query(&mut new_url);
            }
            // pagination
            if let Some(paging) = &opts.paging {
                paging.push_query(&mut new_url);
            }
            // sorting
            if let Some(sort) = &opts.sort {
                push_param(&mut new_url, "order", sort.as_str());
            }
            proof {
                let view = opts@;
                lemma_concat_associative(url@, view.filter_query(), view.paging_query());
                lemma_concat_associative(
                    url@,
                    view.filter_query() + view.paging_query(),
                    view.sort_query(),
                );
            }
            new_url
        },
        None => url.to_owned(),
    }
}

/// Without options the URL is returned unchanged.
pub proof fn lemma_no_options_is_identity(url: Seq<char>)
    ensures
        compose(url, None) == url,
{
}

/// Options of which nothing is set add nothing to the URL, and a builder on
/// which nothing was set builds such options.
pub proof fn lemma_unset_options_add_nothing(url: Seq<char>)
    ensures
        compose(url, Some(OptionsView::unset())) == url,
        BuilderView::unset().built() == OptionsView::unset(),
{
    assert(OptionsView::unset().query() =~= Seq::empty());
}

/// With every field of the filter, the paging and the sort order set, in
/// whatever order, the parameters follow the URL in the order `min_date`,
/// `max_date`, `artist_name`, `location`, `page`, `per_page`, `order`.
pub proof fn lemma_parameters_in_fixed_order(
    url: Seq<char>,
    min_date: Seq<char>,
    max_date: Seq<char>,
    artist_name: Seq<char>,
    location: Seq<char>,
    page: nat,
    per_page: nat,
    sort: Sort,
)
    ensures
        compose(
            url,
            Some(
                BuilderView::unset().with_sort(sort).with_paging(page, per_page).with_filter(
                    FilterView::unset().with_location(location).with_artist_name(
                        artist_name,
                    ).with_max_date(max_date).with_min_date(min_date),
                ).built(),
            ),
        ) == url + param("min_date"@, encoded(min_date)) + param("max_date"@, encoded(max_date))
            + param("artist_name"@, encoded(artist_name)) + param("location"@, encoded(location))
            + param("page"@, decimal(page)) + param("per_page"@, decimal(per_page)) + param(
            "order"@,
            sort.token(),
        ),
{
    let filter = FilterView::unset().with_location(location).with_artist_name(
        artist_name,
    ).with_max_date(max_date).with_min_date(min_date);
    let paging = PagingView { page, per_page };
    let options = BuilderView::unset().with_sort(sort).with_paging(page, per_page).with_filter(
        filter,
    ).built();
    assert(options.filter == Some(filter));
    assert(compose(url, Some(options)) =~= url + filter.query() + paging.query() + param(
        "order"@,
        sort.token(),
    ));
}

/// A field of the filter that is set twice keeps the second value, as if
/// the first had never been given.
pub proof fn lemma_filter_last_write_wins(filter: FilterView, first: Seq<char>, second: Seq<char>)
    ensures
        filter.with_artist_name(first).with_artist_name(second) == filter.with_artist_name(second),
        filter.with_min_date(first).with_min_date(second) == filter.with_min_date(second),
        filter.with_max_date(first).with_max_date(second) == filter.with_max_date(second),
        filter.with_location(first).with_location(second) == filter.with_location(second),
{
}

/// Paging or a sort order that is set twice keeps the second value, as if
/// the first had never been given.
pub proof fn lemma_builder_last_write_wins(
    builder: BuilderView,
    first: PagingView,
    second: PagingView,
    earlier: Sort,
    later: Sort,
)
    ensures
        builder.with_paging(first.page, first.per_page).with_paging(second.page, second.per_page)
            == builder.with_paging(second.page, second.per_page),
        builder.with_sort(earlier).with_sort(later) == builder.with_sort(later),
{
}

} // verus!
