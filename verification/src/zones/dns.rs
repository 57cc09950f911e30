//! DNS record types and the list-filter query composer.
//!
//! A filter over DNS record listings (record type, name/content substrings,
//! pagination hints, one sort field with a direction, match-all-vs-any) is
//! turned into an ordered list of key/value pairs. The emission order
//! `type, name, content, page, per_page, order, direction, match` is a wire
//! compatibility contract with the remote service's query parsing, not a
//! convenience: absent optional fields are omitted, `match` is always
//! emitted, and nothing is re-sorted.

use vstd::prelude::*;

use std::collections::HashMap;

verus! {

/// The type of a DNS record. The wire strings of the variants are part of
/// the service's query and body conventions and are kept verbatim.
#[derive(Debug, Clone, Copy, PartialEq, Eq, Structural)]
pub enum RecordType {
    A,
    AAAA,
    CNAME,
    TXT,
    SRV,
    LOC,
    MX,
    NS,
    SPF,
}

/// One DNS record as the service reports it.
#[derive(Debug)]
pub struct DnsRecord {
    pub id: String,
    pub record_type: RecordType,
    pub name: String,
    pub content: String,
    pub proxiable: bool,
    pub proxied: bool,
    pub ttl: u32,
    pub locked: bool,
    pub zone_id: String,
    pub zone_name: String,
    pub created_on: String,
    pub modified_on: String,
    pub data: Option<HashMap<String, String>>,
}

/// The direction that a result should be sorted in.
#[derive(Debug, Clone, Copy, PartialEq, Eq, Structural)]
pub enum SortDirection {
    /// A-Z (the default).
    Ascending,
    /// Z-A.
    Descending,
}

/// The field that a record list should be sorted on, with its direction.
#[derive(Debug, Clone, Copy, PartialEq, Eq, Structural)]
pub enum ListQuerySorting {
    Type(SortDirection),
    Name(SortDirection),
    Content(SortDirection),
    TTL(SortDirection),
    Proxied(SortDirection),
}

/// Whether all conditions or just any condition must match for a DNS record
/// to be found.
#[derive(Debug, Clone, Copy, PartialEq, Eq, Structural)]
pub enum MatchType {
    /// All matchers must be fulfilled to match a record (the default).
    All,
    /// Any of the specified matchers must match for a record to be returned.
    Any,
}

/// Payload for a DNS update. Optional fields left as `None` do not change
/// the currently live values.
#[derive(Debug)]
pub struct UpdateDnsRecord {
    pub record_type: RecordType,
    pub name: String,
    pub content: String,
    pub proxied: Option<bool>,
    pub ttl: Option<u32>,
}

impl RecordType {
    /// The wire string of this record type.
    pub open spec fn wire_str(self) -> Seq<char> {
        match self {
            RecordType::A => "A"@,
            RecordType::AAAA => "AAAA"@,
            RecordType::CNAME => "CNAME"@,
            RecordType::TXT => "TXT"@,
            RecordType::SRV => "SRV"@,
            RecordType::LOC => "LOC"@,
            RecordType::MX => "MX"@,
            RecordType::NS => "NS"@,
            RecordType::SPF => "SPF"@,
        }
    }

    /// The wire string of this record type, as sent in queries and bodies.
    pub fn as_ref(&self) -> (r: &'static str)
        ensures
            r@ == self.wire_str(),
    {
        match self {
            RecordType::A => "A",
            RecordType::AAAA => "AAAA",
            RecordType::CNAME => "CNAME",
            RecordType::TXT => "TXT",
            RecordType::SRV => "SRV",
            RecordType::LOC => "LOC",
            RecordType::MX => "MX",
            RecordType::NS => "NS",
            RecordType::SPF => "SPF",
        }
    }
}

impl SortDirection {
    /// The wire string of this direction: `asc` or `desc`.
    pub open spec fn wire_str(self) -> Seq<char> {
        match self {
            SortDirection::Ascending => "asc"@,
            SortDirection::Descending => "desc"@,
        }
    }

    /// The wire string of this direction, as sent in queries.
    pub fn as_ref(&self) -> (r: &'static str)
        ensures
            r@ == self.wire_str(),
    {
        match self {
            SortDirection::Ascending => "asc",
            SortDirection::Descending => "desc",
        }
    }
}

impl MatchType {
    /// The wire string of this match mode: `all` or `any`.
    pub open spec fn wire_str(self) -> Seq<char> {
        match self {
            MatchType::All => "all"@,
            MatchType::Any => "any"@,
        }
    }

    /// The wire string of this match mode, as sent in queries.
    pub fn as_ref(&self) -> (r: &'static str)
        ensures
            r@ == self.wire_str(),
    {
        match self {
            MatchType::All => "all",
            MatchType::Any => "any",
        }
    }
}

impl Default for MatchType {
    /// All matchers must match unless the caller says otherwise.
    fn default() -> (r: Self)
        ensures
            r == MatchType::All,
    {
        MatchType::All
    }
}

impl Default for SortDirection {
    /// Sorts ascend unless the caller says otherwise.
    fn default() -> (r: Self)
        ensures
            r == SortDirection::Ascending,
    {
        SortDirection::Ascending
    }
}

impl ListQuerySorting {
    /// The wire string of the sorted field: the `order` parameter's value.
    pub open spec fn field_str(self) -> Seq<char> {
        match self {
            ListQuerySorting::Type(_) => "type"@,
            ListQuerySorting::Name(_) => "name"@,
            ListQuerySorting::Content(_) => "content"@,
            ListQuerySorting::TTL(_) => "ttl"@,
            ListQuerySorting::Proxied(_) => "proxied"@,
        }
    }

    /// The direction this sorting carries.
    pub open spec fn spec_direction(self) -> SortDirection {
        match self {
            ListQuerySorting::Type(d) => d,
            ListQuerySorting::Name(d) => d,
            ListQuerySorting::Content(d) => d,
            ListQuerySorting::TTL(d) => d,
            ListQuerySorting::Proxied(d) => d,
        }
    }

    /// The same sorting with the given direction.
    pub open spec fn spec_with_direction(self, direction: SortDirection) -> ListQuerySorting {
        match self {
            ListQuerySorting::Type(_) => ListQuerySorting::Type(direction),
            ListQuerySorting::Name(_) => ListQuerySorting::Name(direction),
            ListQuerySorting::Content(_) => ListQuerySorting::Content(direction),
            ListQuerySorting::TTL(_) => ListQuerySorting::TTL(direction),
            ListQuerySorting::Proxied(_) => ListQuerySorting::Proxied(direction),
        }
    }

    /// Sort by record type, in the default (ascending) direction.
    pub fn by_type() -> (r: Self)
        ensures
            r == ListQuerySorting::Type(SortDirection::Ascending),
    {
        ListQuerySorting::Type(SortDirection::default())
    }

    /// Sort by record name, in the default (ascending) direction.
    pub fn by_name() -> (r: Self)
        ensures
            r == ListQuerySorting::Name(SortDirection::Ascending),
    {
        ListQuerySorting::Name(SortDirection::default())
    }

    /// Sort by record content, in the default (ascending) direction.
    pub fn by_content() -> (r: Self)
        ensures
            r == ListQuerySorting::Content(SortDirection::Ascending),
    {
        ListQuerySorting::Content(SortDirection::default())
    }

    /// Sort by time-to-live, in the default (ascending) direction.
    pub fn by_ttl() -> (r: Self)
        ensures
            r == ListQuerySorting::TTL(SortDirection::Ascending),
    {
        ListQuerySorting::TTL(SortDirection::default())
    }

    /// Sort by proxying state, in the default (ascending) direction.
    pub fn by_proxied() -> (r: Self)
        ensures
            r == ListQuerySorting::Proxied(SortDirection::Ascending),
    {
        ListQuerySorting::Proxied(SortDirection::default())
    }

    /// The same sorting, ascending.
    pub fn asc(self) -> (r: Self)
        ensures
            r == self.spec_with_direction(SortDirection::Ascending),
    {
        match self {
            ListQuerySorting::Type(_) => ListQuerySorting::Type(SortDirection::Ascending),
            ListQuerySorting::Name(_) => ListQuerySorting::Name(SortDirection::Ascending),
            ListQuerySorting::Content(_) => ListQuerySorting::Content(SortDirection::Ascending),
            ListQuerySorting::TTL(_) => ListQuerySorting::TTL(SortDirection::Ascending),
            ListQuerySorting::Proxied(_) => ListQuerySorting::Proxied(SortDirection::Ascending),
        }
    }

    /// The same sorting, descending.
    pub fn desc(self) -> (r: Self)
        ensures
            r == self.spec_with_direction(SortDirection::Descending),
    {
        match self {
            ListQuerySorting::Type(_) => ListQuerySorting::Type(SortDirection::Descending),
            ListQuerySorting::Name(_) => ListQuerySorting::Name(SortDirection::Descending),
            ListQuerySorting::Content(_) => ListQuerySorting::Content(SortDirection::Descending),
            ListQuerySorting::TTL(_) => ListQuerySorting::TTL(SortDirection::Descending),
            ListQuerySorting::Proxied(_) => ListQuerySorting::Proxied(SortDirection::Descending),
        }
    }

    /// The wire string of the carried direction: the `direction` parameter's
    /// value.
    pub fn direction_str(&self) -> (r: &'static str)
        ensures
            r@ == self.spec_direction().wire_str(),
    {
        match self {
            ListQuerySorting::Type(direction) => direction.as_ref(),
            ListQuerySorting::Name(direction) => direction.as_ref(),
            ListQuerySorting::Content(direction) => direction.as_ref(),
            ListQuerySorting::TTL(direction) => direction.as_ref(),
            ListQuerySorting::Proxied(direction) => direction.as_ref(),
        }
    }

    /// The wire string of the sorted field, as the `order` parameter's value.
    pub fn as_ref(&self) -> (r: &'static str)
        ensures
            r@ == self.field_str(),
    {
        match self {
            ListQuerySorting::Type(_) => "type",
            ListQuerySorting::Name(_) => "name",
            ListQuerySorting::Content(_) => "content",
            ListQuerySorting::TTL(_) => "ttl",
            ListQuerySorting::Proxied(_) => "proxied",
        }
    }
}

/// Query parameters for listing DNS records. Values left as `None` are left
/// out of the query and the server's defaults apply.
#[derive(Debug, Clone)]
pub struct ListQueryParams<'a> {
    pub record_type: Option<RecordType>,
    pub name: Option<&'a str>,
    pub content: Option<&'a str>,
    pub page: Option<&'a str>,
    pub per_page: Option<&'a str>,
    pub sort: Option<ListQuerySorting>,
    pub match_type: MatchType,
}

/// The abstract content of a [`ListQueryParams`]: the same filter with the
/// borrowed strings read as character sequences.
pub ghost struct FilterView {
    pub record_type: Option<RecordType>,
    pub name: Option<Seq<char>>,
    pub content: Option<Seq<char>>,
    pub page: Option<Seq<char>>,
    pub per_page: Option<Seq<char>>,
    pub sort: Option<ListQuerySorting>,
    pub match_type: MatchType,
}

impl<'a> View for ListQueryParams<'a> {
    type V = FilterView;

    open spec fn view(&self) -> FilterView {
        FilterView {
            record_type: self.record_type,
            name: match self.name {
                Some(s) => Some(s@),
                None => None,
            },
            content: match self.content {
                Some(s) => Some(s@),
                None => None,
            },
            page: match self.page {
                Some(s) => Some(s@),
                None => None,
            },
            per_page: match self.per_page {
                Some(s) => Some(s@),
                None => None,
            },
            sort: self.sort,
            match_type: self.match_type,
        }
    }
}

impl FilterView {
    /// The ordered key/value pairs this filter emits: present fields in the
    /// fixed order `type, name, content, page, per_page, order, direction,
    /// match`, absent optional fields omitted, `match` always last.
    pub open spec fn spec_query_pairs(self) -> Seq<(Seq<char>, Seq<char>)> {
        let pairs: Seq<(Seq<char>, Seq<char>)> = Seq::empty();
        let pairs = if self.record_type is Some {
            pairs.push(("type"@, self.record_type->0.wire_str()))
        } else {
            pairs
        };
        let pairs = if self.name is Some {
            pairs.push(("name"@, self.name->0))
        } else {
            pairs
        };
        let pairs = if self.content is Some {
            pairs.push(("content"@, self.content->0))
        } else {
            pairs
        };
        let pairs = if self.page is Some {
            pairs.push(("page"@, self.page->0))
        } else {
            pairs
        };
        let pairs = if self.per_page is Some {
            pairs.push(("per_page"@, self.per_page->0))
        } else {
            pairs
        };
        let pairs = if self.sort is Some {
            pairs.push(("order"@, self.sort->0.field_str())).push(
                ("direction"@, self.sort->0.spec_direction().wire_str()),
            )
        } else {
            pairs
        };
        pairs.push(("match"@, self.match_type.wire_str()))
    }
}

impl<'a> ListQueryParams<'a> {
    /// Emits this filter as ordered query parameters: present fields in the
    /// fixed order `type, name, content, page, per_page, order, direction,
    /// match`, absent optional fields omitted, the `match` mode always
    /// emitted last.
    pub fn as_query_params(&'a self) -> (r: Vec<(&'a str, &'a str)>)
        ensures
            crate::query::spec_pairs(r@) == self@.spec_query_pairs(),
    {
        let mut params: Vec<(&'a str, &'a str)> = Vec::new();

        if let Some(record_type) = &self.record_type {
            params.push(("type", record_type.as_ref()));
        }

        if let Some(name) = &self.name {
            params.push(("name", name));
        }

        if let Some(content) = &self.content {
            params.push(("content", content));
        }

        if let Some(page) = &self.page {
            params.push(("page", page));
        }

        if let Some(per_page) = &self.per_page {
            params.push(("per_page", per_page));
        }

        if let Some(sort) = &self.sort {
            params.push(("order", sort.as_ref()));
            params.push(("direction", sort.direction_str()));
        }

        params.push(("match", self.match_type.as_ref()));

        proof {
            assert(crate::query::spec_pairs(params@) =~~= self@.spec_query_pairs());
        }
        params
    }
}

impl<'a> Default for ListQueryParams<'a> {
    /// An empty filter: no conditions, no pagination hints, no sort, and
    /// match-all semantics.
    fn default() -> (r: Self)
        ensures
            r.record_type is None,
            r.name is None,
            r.content is None,
            r.page is None,
            r.per_page is None,
            r.sort is None,
            r.match_type == MatchType::All,
    {
        ListQueryParams {
            record_type: None,
            name: None,
            content: None,
            page: None,
            per_page: None,
            sort: None,
            match_type: MatchType::All,
        }
    }
}

impl<'a> PartialEq for ListQueryParams<'a> {
    fn eq(&self, other: &Self) -> (r: bool) {
        let names_eq = match (self.name, other.name) {
            (Some(a), Some(b)) => crate::query::str_eq(a, b),
            (None, None) => true,
            _ => false,
        };
        let contents_eq = match (self.content, other.content) {
            (Some(a), Some(b)) => crate::query::str_eq(a, b),
            (None, None) => true,
            _ => false,
        };
        let pages_eq = match (self.page, other.page) {
            (Some(a), Some(b)) => crate::query::str_eq(a, b),
            (None, None) => true,
            _ => false,
        };
        let per_pages_eq = match (self.per_page, other.per_page) {
            (Some(a), Some(b)) => crate::query::str_eq(a, b),
            (None, None) => true,
            _ => false,
        };
        self.record_type == other.record_type && names_eq && contents_eq && pages_eq
            && per_pages_eq && self.sort == other.sort && self.match_type == other.match_type
    }
}

impl<'a> vstd::std_specs::cmp::PartialEqSpecImpl for ListQueryParams<'a> {
    open spec fn obeys_eq_spec() -> bool {
        true
    }

    open spec fn eq_spec(&self, other: &Self) -> bool {
        self@ == other@
    }
}

/// What a record-type wire string parses back to: the inverse of
/// [`RecordType::wire_str`], `None` for any other string.
pub open spec fn spec_parse_record_type(s: Seq<char>) -> Option<RecordType> {
    if s == "A"@ {
        Some(RecordType::A)
    } else if s == "AAAA"@ {
        Some(RecordType::AAAA)
    } else if s == "CNAME"@ {
        Some(RecordType::CNAME)
    } else if s == "TXT"@ {
        Some(RecordType::TXT)
    } else if s == "SRV"@ {
        Some(RecordType::SRV)
    } else if s == "LOC"@ {
        Some(RecordType::LOC)
    } else if s == "MX"@ {
        Some(RecordType::MX)
    } else if s == "NS"@ {
        Some(RecordType::NS)
    } else if s == "SPF"@ {
        Some(RecordType::SPF)
    } else {
        None
    }
}

/// What a direction wire string parses back to: the inverse of
/// [`SortDirection::wire_str`].
pub open spec fn spec_parse_direction(s: Seq<char>) -> Option<SortDirection> {
    if s == "asc"@ {
        Some(SortDirection::Ascending)
    } else if s == "desc"@ {
        Some(SortDirection::Descending)
    } else {
        None
    }
}

/// What a match-mode wire string parses back to: the inverse of
/// [`MatchType::wire_str`].
pub open spec fn spec_parse_match(s: Seq<char>) -> Option<MatchType> {
    if s == "all"@ {
        Some(MatchType::All)
    } else if s == "any"@ {
        Some(MatchType::Any)
    } else {
        None
    }
}

/// What an `order`/`direction` value pair parses back to: the inverse of
/// [`ListQuerySorting::field_str`] paired with the direction's wire string.
pub open spec fn spec_parse_sort(field: Seq<char>, direction: Seq<char>) -> Option<
    ListQuerySorting,
> {
    match spec_parse_direction(direction) {
        None => None,
        Some(d) => {
            if field == "type"@ {
                Some(ListQuerySorting::Type(d))
            } else if field == "name"@ {
                Some(ListQuerySorting::Name(d))
            } else if field == "content"@ {
                Some(ListQuerySorting::Content(d))
            } else if field == "ttl"@ {
                Some(ListQuerySorting::TTL(d))
            } else if field == "proxied"@ {
                Some(ListQuerySorting::Proxied(d))
            } else {
                None
            }
        }
    }
}

/// How a server reads an ordered parameter list back into a filter: present
/// keys are expected in the fixed emission order, `match` must come last and
/// close the list, and a `direction` must follow an `order`. Any other shape
/// fails.
pub open spec fn spec_parse_query_pairs(s: Seq<(Seq<char>, Seq<char>)>) -> Option<FilterView> {
    let i0 = 0int;
    let has_type = i0 < s.len() && s[i0].0 == "type"@;
    let i1 = if has_type { i0 + 1 } else { i0 };
    let has_name = i1 < s.len() && s[i1].0 == "name"@;
    let i2 = if has_name { i1 + 1 } else { i1 };
    let has_content = i2 < s.len() && s[i2].0 == "content"@;
    let i3 = if has_content { i2 + 1 } else { i2 };
    let has_page = i3 < s.len() && s[i3].0 == "page"@;
    let i4 = if has_page { i3 + 1 } else { i3 };
    let has_per_page = i4 < s.len() && s[i4].0 == "per_page"@;
    let i5 = if has_per_page { i4 + 1 } else { i4 };
    let has_order = i5 < s.len() && s[i5].0 == "order"@;
    let has_direction = has_order && i5 + 1 < s.len() && s[i5 + 1].0 == "direction"@;
    let i6 = if has_order { i5 + 2 } else { i5 };
    if has_order && !has_direction {
        None
    } else if !(i6 + 1 == s.len() && s[i6].0 == "match"@) {
        None
    } else if has_type && spec_parse_record_type(s[i0].1) is None {
        None
    } else if has_order && spec_parse_sort(s[i5].1, s[i5 + 1].1) is None {
        None
    } else if spec_parse_match(s[i6].1) is None {
        None
    } else {
        Some(
            FilterView {
                record_type: if has_type {
                    spec_parse_record_type(s[i0].1)
                } else {
                    None
                },
                name: if has_name {
                    Some(s[i1].1)
                } else {
                    None
                },
                content: if has_content {
                    Some(s[i2].1)
                } else {
                    None
                },
                page: if has_page {
                    Some(s[i3].1)
                } else {
                    None
                },
                per_page: if has_per_page {
                    Some(s[i4].1)
                } else {
                    None
                },
                sort: if has_order {
                    spec_parse_sort(s[i5].1, s[i5 + 1].1)
                } else {
                    None
                },
                match_type: spec_parse_match(s[i6].1)->0,
            },
        )
    }
}

/// Parses a record-type wire string.
pub fn record_type_from_str(s: &str) -> (r: Option<RecordType>)
    ensures
        r == spec_parse_record_type(s@),
{
    if crate::query::str_eq(s, "A") {
        Some(RecordType::A)
    } else if crate::query::str_eq(s, "AAAA") {
        Some(RecordType::AAAA)
    } else if crate::query::str_eq(s, "CNAME") {
        Some(RecordType::CNAME)
    } else if crate::query::str_eq(s, "TXT") {
        Some(RecordType::TXT)
    } else if crate::query::str_eq(s, "SRV") {
        Some(RecordType::SRV)
    } else if crate::query::str_eq(s, "LOC") {
        Some(RecordType::LOC)
    } else if crate::query::str_eq(s, "MX") {
        Some(RecordType::MX)
    } else if crate::query::str_eq(s, "NS") {
        Some(RecordType::NS)
    } else if crate::query::str_eq(s, "SPF") {
        Some(RecordType::SPF)
    } else {
        None
    }
}

/// Parses a direction wire string.
pub fn direction_from_str(s: &str) -> (r: Option<SortDirection>)
    ensures
        r == spec_parse_direction(s@),
{
    if crate::query::str_eq(s, "asc") {
        Some(SortDirection::Ascending)
    } else if crate::query::str_eq(s, "desc") {
        Some(SortDirection::Descending)
    } else {
        None
    }
}

/// Parses a match-mode wire string.
pub fn match_type_from_str(s: &str) -> (r: Option<MatchType>)
    ensures
        r == spec_parse_match(s@),
{
    if crate::query::str_eq(s, "all") {
        Some(MatchType::All)
    } else if crate::query::str_eq(s, "any") {
        Some(MatchType::Any)
    } else {
        None
    }
}

/// Parses an `order` value together with its `direction` value.
pub fn sort_from_strs(field: &str, direction: &str) -> (r: Option<ListQuerySorting>)
    ensures
        r == spec_parse_sort(field@, direction@),
{
    let d = match direction_from_str(direction) {
        Some(d) => d,
        None => {
            return None;
        }
    };
    if crate::query::str_eq(field, "type") {
        Some(ListQuerySorting::Type(d))
    } else if crate::query::str_eq(field, "name") {
        Some(ListQuerySorting::Name(d))
    } else if crate::query::str_eq(field, "content") {
        Some(ListQuerySorting::Content(d))
    } else if crate::query::str_eq(field, "ttl") {
        Some(ListQuerySorting::TTL(d))
    } else if crate::query::str_eq(field, "proxied") {
        Some(ListQuerySorting::Proxied(d))
    } else {
        None
    }
}

/// Reads an ordered parameter list back into a structured filter, the way a
/// server observing the fixed emission order would: present keys in order,
/// `direction` directly after `order`, `match` last and closing the list.
pub fn parse_query_params<'a>(params: &Vec<(&'a str, &'a str)>) -> (r: Option<
    ListQueryParams<'a>,
>)
    ensures
        spec_parse_query_pairs(crate::query::spec_pairs(params@)) is None ==> r is None,
        spec_parse_query_pairs(crate::query::spec_pairs(params@)) matches Some(v) ==> (
        r matches Some(q) && q@ == v),
{
    let ghost s = crate::query::spec_pairs(params@);
    let mut i: usize = 0;

    let mut record_type: Option<RecordType> = None;
    if i < params.len() && crate::query::str_eq(params[i].0, "type") {
        match record_type_from_str(params[i].1) {
            Some(rt) => {
                record_type = Some(rt);
            }
            None => {
                return None;
            }
        }
        i = i + 1;
    }

    let mut name: Option<&'a str> = None;
    if i < params.len() && crate::query::str_eq(params[i].0, "name") {
        name = Some(params[i].1);
        i = i + 1;
    }

    let mut content: Option<&'a str> = None;
    if i < params.len() && crate::query::str_eq(params[i].0, "content") {
        content = Some(params[i].1);
        i = i + 1;
    }

    let mut page: Option<&'a str> = None;
    if i < params.len() && crate::query::str_eq(params[i].0, "page") {
        page = Some(params[i].1);
        i = i + 1;
    }

    let mut per_page: Option<&'a str> = None;
    if i < params.len() && crate::query::str_eq(params[i].0, "per_page") {
        per_page = Some(params[i].1);
        i = i + 1;
    }

    let mut sort: Option<ListQuerySorting> = None;
    if i < params.len() && crate::query::str_eq(params[i].0, "order") {
        if i + 1 < params.len() && crate::query::str_eq(params[i + 1].0, "direction") {
            match sort_from_strs(params[i].1, params[i + 1].1) {
                Some(srt) => {
                    sort = Some(srt);
                }
                None => {
                    return None;
                }
            }
            i = i + 2;
        } else {
            return None;
        }
    }

    if !(i + 1 == params.len() && crate::query::str_eq(params[i].0, "match")) {
        return None;
    }
    let match_type = match match_type_from_str(params[i].1) {
        Some(m) => m,
        None => {
            return None;
        }
    };
    Some(ListQueryParams { record_type, name, content, page, per_page, sort, match_type })
}

/// A record type's wire string parses back to the same record type.
pub proof fn lemma_record_type_roundtrip(record_type: RecordType)
    ensures
        spec_parse_record_type(record_type.wire_str()) == Some(record_type),
{
    reveal_strlit("A");
    reveal_strlit("AAAA");
    reveal_strlit("CNAME");
    reveal_strlit("TXT");
    reveal_strlit("SRV");
    reveal_strlit("LOC");
    reveal_strlit("MX");
    reveal_strlit("NS");
    reveal_strlit("SPF");
    assert("A"@.len() == 1 && "AAAA"@.len() == 4 && "CNAME"@.len() == 5 && "TXT"@.len() == 3
        && "SRV"@.len() == 3 && "LOC"@.len() == 3 && "MX"@.len() == 2 && "NS"@.len() == 2
        && "SPF"@.len() == 3);
    assert("TXT"@[0] == 'T' && "SRV"@[0] == 'S' && "LOC"@[0] == 'L' && "SPF"@[0] == 'S');
    assert("SRV"@[1] == 'R' && "SPF"@[1] == 'P');
    assert("MX"@[0] == 'M' && "NS"@[0] == 'N');
}

/// A direction's wire string parses back to the same direction.
pub proof fn lemma_direction_roundtrip(direction: SortDirection)
    ensures
        spec_parse_direction(direction.wire_str()) == Some(direction),
{
    reveal_strlit("asc");
    reveal_strlit("desc");
    assert("asc"@.len() == 3 && "desc"@.len() == 4);
}

/// A match mode's wire string parses back to the same mode.
pub proof fn lemma_match_roundtrip(match_type: MatchType)
    ensures
        spec_parse_match(match_type.wire_str()) == Some(match_type),
{
    reveal_strlit("all");
    reveal_strlit("any");
    assert("all"@[1] == 'l' && "any"@[1] == 'n');
}

/// A sorting's `order` and `direction` values parse back to the same sorting.
pub proof fn lemma_sort_roundtrip(sort: ListQuerySorting)
    ensures
        spec_parse_sort(sort.field_str(), sort.spec_direction().wire_str()) == Some(sort),
{
    reveal_strlit("type");
    reveal_strlit("name");
    reveal_strlit("content");
    reveal_strlit("ttl");
    reveal_strlit("proxied");
    assert("type"@.len() == 4 && "name"@.len() == 4 && "content"@.len() == 7 && "ttl"@.len() == 3
        && "proxied"@.len() == 7);
    assert("type"@[0] == 't' && "name"@[0] == 'n' && "content"@[0] == 'c' && "proxied"@[0] == 'p');
    lemma_direction_roundtrip(sort.spec_direction());
}

/// The eight parameter keys the composer emits, each told apart from the
/// others by its length or its first character.
proof fn lemma_keys_distinct()
    ensures
        "type"@ != "name"@,
        "type"@ != "content"@,
        "type"@ != "page"@,
        "type"@ != "per_page"@,
        "type"@ != "order"@,
        "type"@ != "direction"@,
        "type"@ != "match"@,
        "name"@ != "content"@,
        "name"@ != "page"@,
        "name"@ != "per_page"@,
        "name"@ != "order"@,
        "name"@ != "direction"@,
        "name"@ != "match"@,
        "content"@ != "page"@,
        "content"@ != "per_page"@,
        "content"@ != "order"@,
        "content"@ != "direction"@,
        "content"@ != "match"@,
        "page"@ != "per_page"@,
        "page"@ != "order"@,
        "page"@ != "direction"@,
        "page"@ != "match"@,
        "per_page"@ != "order"@,
        "per_page"@ != "direction"@,
        "per_page"@ != "match"@,
        "order"@ != "direction"@,
        "order"@ != "match"@,
        "direction"@ != "match"@,
{
    reveal_strlit("type");
    reveal_strlit("name");
    reveal_strlit("content");
    reveal_strlit("page");
    reveal_strlit("per_page");
    reveal_strlit("order");
    reveal_strlit("direction");
    reveal_strlit("match");
    assert("type"@.len() == 4 && "name"@.len() == 4 && "content"@.len() == 7 && "page"@.len() == 4
        && "per_page"@.len() == 8 && "order"@.len() == 5 && "direction"@.len() == 9
        && "match"@.len() == 5);
    assert("type"@[0] == 't' && "name"@[0] == 'n' && "page"@[0] == 'p');
    assert("order"@[0] == 'o' && "match"@[0] == 'm');
}

/// Round trip: any filter run through the composer and read back in the
/// fixed emission order yields the same structured filter, for all fields
/// representable in the filter.
#[verifier::rlimit(100)]
pub proof fn lemma_query_roundtrip(filter: FilterView)
    ensures
        spec_parse_query_pairs(filter.spec_query_pairs()) == Some(filter),
{
    lemma_keys_distinct();
    if filter.record_type is Some {
        lemma_record_type_roundtrip(filter.record_type->0);
    }
    if filter.sort is Some {
        lemma_sort_roundtrip(filter.sort->0);
    }
    lemma_match_roundtrip(filter.match_type);
}

} // verus!
