use cloudflare::zones::dns::{
    parse_query_params, ListQueryParams, ListQuerySorting, MatchType, RecordType, SortDirection,
};

#[test]
fn it_has_correct_defaults() {
    assert_eq!(MatchType::default(), MatchType::All);
    assert_eq!(SortDirection::default(), SortDirection::Ascending);
}

#[test]
fn it_has_fluent_sorting_options() {
    assert_eq!(
        ListQuerySorting::by_type().desc(),
        ListQuerySorting::Type(SortDirection::Descending)
    );

    assert_eq!(
        ListQuerySorting::by_ttl().asc(),
        ListQuerySorting::TTL(SortDirection::Ascending)
    );
    assert_eq!(
        ListQuerySorting::by_content(),
        ListQuerySorting::Content(SortDirection::Ascending)
    );
}

#[test]
fn it_emits_correct_strings_for_sorting_options() {
    assert_eq!(
        ListQuerySorting::Type(SortDirection::default()).as_ref(),
        "type",
    );
    assert_eq!(
        ListQuerySorting::Name(SortDirection::default()).as_ref(),
        "name",
    );
    assert_eq!(
        ListQuerySorting::Content(SortDirection::default()).as_ref(),
        "content",
    );
    assert_eq!(
        ListQuerySorting::TTL(SortDirection::default()).as_ref(),
        "ttl",
    );
    assert_eq!(
        ListQuerySorting::Proxied(SortDirection::default()).as_ref(),
        "proxied",
    );

    assert_eq!(
        ListQuerySorting::Name(SortDirection::Ascending).direction_str(),
        "asc",
    );
    assert_eq!(
        ListQuerySorting::Name(SortDirection::Descending).direction_str(),
        "desc",
    );
}

#[test]
fn it_generates_query_parameters() {
    let query = ListQueryParams {
        record_type: Some(RecordType::CNAME),
        name: None,
        content: Some("example.com"),
        page: Some("2"),
        per_page: Some("5"),
        sort: Some(ListQuerySorting::by_name().desc()),
        match_type: MatchType::Any,
    };
    let query_params = query.as_query_params();
    assert_eq!(
        query_params,
        vec![
            ("type", "CNAME"),
            ("content", "example.com"),
            ("page", "2"),
            ("per_page", "5"),
            ("order", "name"),
            ("direction", "desc"),
            ("match", "any"),
        ],
    );
}

#[test]
fn it_has_sane_defaults_for_list_query() {
    assert_eq!(
        ListQueryParams::default(),
        ListQueryParams {
            record_type: None,
            name: None,
            content: None,
            page: None,
            per_page: None,
            sort: None,
            match_type: MatchType::All,
        }
    );
}

#[test]
fn record_type_wire_strings() {
    assert_eq!(RecordType::A.as_ref(), "A");
    assert_eq!(RecordType::AAAA.as_ref(), "AAAA");
    assert_eq!(RecordType::CNAME.as_ref(), "CNAME");
    assert_eq!(RecordType::TXT.as_ref(), "TXT");
    assert_eq!(RecordType::SRV.as_ref(), "SRV");
    assert_eq!(RecordType::LOC.as_ref(), "LOC");
    assert_eq!(RecordType::MX.as_ref(), "MX");
    assert_eq!(RecordType::NS.as_ref(), "NS");
    assert_eq!(RecordType::SPF.as_ref(), "SPF");
    assert_eq!(MatchType::Any.as_ref(), "any");
    assert_eq!(SortDirection::Descending.as_ref(), "desc");
}

#[test]
fn query_parameters_round_trip_full_filter() {
    let query = ListQueryParams {
        record_type: Some(RecordType::TXT),
        name: Some("sub.example.com"),
        content: Some("10.0.0.1"),
        page: Some("3"),
        per_page: Some("50"),
        sort: Some(ListQuerySorting::by_ttl().desc()),
        match_type: MatchType::All,
    };
    let expected = query.clone();
    let params = query.as_query_params();
    let parsed = parse_query_params(&params);
    assert_eq!(parsed, Some(expected));
}

#[test]
fn query_parameters_round_trip_default_filter() {
    let query = ListQueryParams::default();
    let expected = query.clone();
    let params = query.as_query_params();
    assert_eq!(params, vec![("match", "all")]);
    let parsed = parse_query_params(&params);
    assert_eq!(parsed, Some(expected));
}

#[test]
fn parse_rejects_misordered_parameters() {
    let params = vec![("match", "all"), ("type", "A")];
    assert_eq!(parse_query_params(&params), None);
    let params = vec![("type", "NOT_A_RECORD_TYPE"), ("match", "all")];
    assert_eq!(parse_query_params(&params), None);
    let params = vec![("order", "name"), ("match", "all")];
    assert_eq!(parse_query_params(&params), None);
}
