use query_box::endpoint::{
    EndpointFilter, EndpointRepository, EndpointStatus, EndpointType, UpdateEndpointDto,
};
use query_box::http_method::HttpMethod;
use query_box::pagination::{PaginatedResponse, PaginationParams};
use query_box::request_history::{
    DeleteRequestHistoryDto, RequestHistoryRepository, UpdateRequestHistoryDto,
};
use query_box::settings::{Setting, SettingsRepository, UpsertAction, UpsertOptions};

fn params(page: Option<u32>, per_page: Option<u32>) -> PaginationParams {
    PaginationParams { page, per_page }
}

#[test]
fn pagination_defaults() {
    let p = params(None, None);
    assert_eq!(p.page(), 1);
    assert_eq!(p.per_page(), 20);
    assert_eq!(p.offset(), 0);
}

#[test]
fn pagination_clamps_and_offsets() {
    assert_eq!(params(Some(0), None).page(), 1);
    assert_eq!(params(None, Some(0)).per_page(), 1);
    assert_eq!(params(None, Some(500)).per_page(), 100);
    assert_eq!(params(None, Some(55)).per_page(), 55);
    assert_eq!(params(Some(3), Some(10)).offset(), 20);
}

#[test]
fn paginated_response_counts_pages() {
    let r = PaginatedResponse::new(vec![1, 2, 3], 45, &params(Some(2), None));
    assert_eq!(r.items, vec![1, 2, 3]);
    assert_eq!(r.total, 45);
    assert_eq!(r.page, 2);
    assert_eq!(r.per_page, 20);
    assert_eq!(r.total_pages, 3);

    assert_eq!(PaginatedResponse::<u8>::new(vec![], 40, &params(None, None)).total_pages, 2);
    assert_eq!(PaginatedResponse::<u8>::new(vec![], 0, &params(None, None)).total_pages, 0);
    assert_eq!(PaginatedResponse::<u8>::new(vec![], 1, &params(None, Some(1))).total_pages, 1);
}

#[test]
fn http_method_names_and_parsing_round_trip() {
    let all = [
        HttpMethod::GET,
        HttpMethod::HEAD,
        HttpMethod::POST,
        HttpMethod::PUT,
        HttpMethod::DELETE,
        HttpMethod::CONNECT,
        HttpMethod::OPTIONS,
        HttpMethod::TRACE,
        HttpMethod::PATCH,
    ];
    for m in all {
        assert_eq!(HttpMethod::parse(m.name()), Some(m));
    }
    assert_eq!(HttpMethod::parse("get"), Some(HttpMethod::GET));
    assert_eq!(HttpMethod::parse("GET"), None);
    assert_eq!(HttpMethod::parse("fetch"), None);
}

#[test]
fn endpoint_type_parses_case_insensitively() {
    assert_eq!(EndpointType::parse("graphql"), Some(EndpointType::GraphQL));
    assert_eq!(EndpointType::parse("GraphQL"), Some(EndpointType::GraphQL));
    assert_eq!(EndpointType::parse("rest"), None);
    assert_eq!(EndpointType::GraphQL.name(), "graphql");
}

#[test]
fn endpoint_status_defaults_to_inactive() {
    assert_eq!(EndpointStatus::parse("active"), EndpointStatus::Active);
    assert_eq!(EndpointStatus::parse("ERROR"), EndpointStatus::Error);
    assert_eq!(EndpointStatus::parse("Inactive"), EndpointStatus::Inactive);
    assert_eq!(EndpointStatus::parse("broken"), EndpointStatus::Inactive);
    assert_eq!(EndpointStatus::Active.name(), "active");
}

#[test]
fn filter_conditions_follow_the_filter() {
    let base = EndpointFilter { pagination: params(None, None), name: None, url: None };
    let (c, p) = EndpointRepository::build_filter_conditions(&base);
    assert!(c.is_empty() && p.is_empty());

    let named = EndpointFilter {
        pagination: params(None, None),
        name: Some("foo".to_string()),
        url: None,
    };
    let (c, p) = EndpointRepository::build_filter_conditions(&named);
    assert_eq!(c, vec!["name LIKE ?".to_string()]);
    assert_eq!(p, vec!["%foo%".to_string()]);

    let both = EndpointFilter {
        pagination: params(None, None),
        name: Some("foo".to_string()),
        url: Some("bar".to_string()),
    };
    let (c, p) = EndpointRepository::build_filter_conditions(&both);
    assert_eq!(c, vec!["name LIKE ?".to_string(), "url LIKE ?".to_string()]);
    assert_eq!(p, vec!["%foo%".to_string(), "%bar%".to_string()]);
}

#[test]
fn listing_and_count_queries_join_conditions() {
    let none: Vec<String> = vec![];
    assert_eq!(
        EndpointRepository::main_query_sql(&none),
        "SELECT * FROM endpoint ORDER BY name LIMIT ? OFFSET ?"
    );
    assert_eq!(EndpointRepository::count_query_sql(&none), "SELECT COUNT(*) FROM endpoint");

    let two = vec!["name LIKE ?".to_string(), "url LIKE ?".to_string()];
    assert_eq!(
        EndpointRepository::main_query_sql(&two),
        "SELECT * FROM endpoint WHERE name LIKE ? AND url LIKE ? ORDER BY name LIMIT ? OFFSET ?"
    );
    assert_eq!(
        EndpointRepository::count_query_sql(&two),
        "SELECT COUNT(*) FROM endpoint WHERE name LIKE ? AND url LIKE ?"
    );
}

fn empty_endpoint_update(id: &str) -> UpdateEndpointDto {
    UpdateEndpointDto {
        id: id.to_string(),
        name: None,
        description: None,
        url: None,
        status: None,
        auth: None,
        config: None,
        headers: None,
        tags: None,
        favorite: None,
    }
}

#[test]
fn endpoint_update_with_no_fields_is_refused() {
    let err = EndpointRepository::update_assignments(&empty_endpoint_update("e1")).unwrap_err();
    assert_eq!(err, "No fields to update");

    // Tags and favorite are not updatable through the assignment list.
    let mut dto = empty_endpoint_update("e1");
    dto.tags = Some(vec!["x".to_string()]);
    dto.favorite = Some(true);
    assert!(EndpointRepository::update_assignments(&dto).is_err());
}

#[test]
fn endpoint_update_assignments_list_given_fields_in_order() {
    let mut dto = empty_endpoint_update("e1");
    dto.name = Some("renamed".to_string());
    dto.status = Some(EndpointStatus::Error);
    dto.config = Some("{\"graphql\":null}".to_string());
    let (columns, values) = EndpointRepository::update_assignments(&dto).unwrap();
    assert_eq!(
        columns,
        vec!["name = ?".to_string(), "status = ?".to_string(), "config = ?".to_string()]
    );
    assert_eq!(
        values,
        vec!["renamed".to_string(), "error".to_string(), "{\"graphql\":null}".to_string()]
    );
}

fn empty_update(id: &str) -> UpdateRequestHistoryDto {
    UpdateRequestHistoryDto {
        id: id.to_string(),
        name: None,
        is_custom_name: None,
        active: None,
        method: None,
        headers: None,
        body: None,
        query: None,
    }
}

#[test]
fn update_with_no_fields_is_refused() {
    let err = RequestHistoryRepository::update_assignments(&empty_update("h1")).unwrap_err();
    assert_eq!(err, "No fields to update");
}

#[test]
fn update_assignments_list_given_fields_in_order() {
    let mut dto = empty_update("h1");
    dto.name = Some("renamed".to_string());
    dto.method = Some(HttpMethod::POST);
    dto.query = Some("limit=1".to_string());
    let (columns, values) = RequestHistoryRepository::update_assignments(&dto).unwrap();
    assert_eq!(
        columns,
        vec!["name = ?".to_string(), "method = ?".to_string(), "query = ?".to_string()]
    );
    assert_eq!(
        values,
        vec!["renamed".to_string(), "post".to_string(), "limit=1".to_string()]
    );
}

#[test]
fn delete_needs_an_id_or_an_endpoint() {
    let neither = DeleteRequestHistoryDto { id: None, endpoint_id: None };
    let err = RequestHistoryRepository::delete_conditions(&neither).unwrap_err();
    assert_eq!(err, "Either id or endpoint_id must be provided");

    let by_id = DeleteRequestHistoryDto { id: Some("h1".to_string()), endpoint_id: None };
    let (c, p) = RequestHistoryRepository::delete_conditions(&by_id).unwrap();
    assert_eq!(c, vec!["id = ?".to_string()]);
    assert_eq!(p, vec!["h1".to_string()]);

    let both = DeleteRequestHistoryDto {
        id: Some("h1".to_string()),
        endpoint_id: Some("e1".to_string()),
    };
    let (c, p) = RequestHistoryRepository::delete_conditions(&both).unwrap();
    assert_eq!(c, vec!["id = ?".to_string(), "endpoint_id = ?".to_string()]);
    assert_eq!(p, vec!["h1".to_string(), "e1".to_string()]);
}

fn setting(key: &str, value: Option<&str>) -> Setting {
    Setting {
        key: Some(key.to_string()),
        value: value.map(|v| v.to_string()),
        value_type: None,
        category: Some("network".to_string()),
        description: None,
        created_at: None,
        updated_at: None,
    }
}

#[test]
fn category_pairs_read_absent_fields_as_empty() {
    let settings = vec![
        setting("a", Some("1")),
        setting("b", None),
        Setting {
            key: None,
            value: Some("orphan".to_string()),
            value_type: None,
            category: None,
            description: None,
            created_at: None,
            updated_at: None,
        },
    ];
    assert_eq!(
        SettingsRepository::category_pairs(&settings),
        vec![
            ("a".to_string(), "1".to_string()),
            ("b".to_string(), String::new()),
            (String::new(), "orphan".to_string()),
        ]
    );
}

#[test]
fn bool_settings_parse_case_insensitively() {
    assert_eq!(
        SettingsRepository::bool_setting_value("k", &Some(setting("k", Some("TRUE")))),
        Ok(true)
    );
    assert_eq!(
        SettingsRepository::bool_setting_value("k", &Some(setting("k", Some("false")))),
        Ok(false)
    );
    let err = SettingsRepository::bool_setting_value("k", &Some(setting("k", Some("yes"))))
        .unwrap_err();
    assert_eq!(err, "Invalid boolean value for k: yes");
    let missing = SettingsRepository::bool_setting_value("k", &None).unwrap_err();
    assert_eq!(missing, "Setting not found: k");
}

#[test]
fn number_settings_parse_the_full_i64_range() {
    let read = |v: &str| SettingsRepository::number_setting_value("n", &Some(setting("n", Some(v))));
    assert_eq!(read("42"), Ok(42));
    assert_eq!(read("+7"), Ok(7));
    assert_eq!(read("-13"), Ok(-13));
    assert_eq!(read("9223372036854775807"), Ok(i64::MAX));
    assert_eq!(read("-9223372036854775808"), Ok(i64::MIN));
    assert_eq!(read("0042"), Ok(42));
    for bad in ["9223372036854775808", "-9223372036854775809", "1.5", "", "+", "-", "12x", " 7"] {
        assert_eq!(read(bad), Err(format!("Invalid number value for n: {}", bad)));
    }
    assert_eq!(
        SettingsRepository::number_setting_value("n", &None),
        Err("Setting not found: n".to_string())
    );
}

#[test]
fn upsert_updates_when_the_key_exists() {
    let action =
        SettingsRepository::upsert_plan("ui.theme", "dark".to_string(), true, None).unwrap();
    match action {
        UpsertAction::Update(u) => assert_eq!(u.value, "dark"),
        UpsertAction::Create(_) => panic!("an existing key must be updated"),
    }
}

#[test]
fn upsert_creates_only_with_options() {
    let err = SettingsRepository::upsert_plan("ui.theme", "dark".to_string(), false, None)
        .unwrap_err();
    assert_eq!(err, "Cannot create setting 'ui.theme': missing type and category information");

    let options = UpsertOptions {
        value_type: "string".to_string(),
        category: "ui_theme".to_string(),
        description: "color scheme".to_string(),
    };
    let action =
        SettingsRepository::upsert_plan("ui.theme", "dark".to_string(), false, Some(options))
            .unwrap();
    match action {
        UpsertAction::Create(n) => {
            assert_eq!(n.key, "ui.theme");
            assert_eq!(n.value, "dark");
            assert_eq!(n.value_type, "string");
            assert_eq!(n.category, "ui_theme");
            assert_eq!(n.description, Some("color scheme".to_string()));
        }
        UpsertAction::Update(_) => panic!("a missing key must be created"),
    }
}
