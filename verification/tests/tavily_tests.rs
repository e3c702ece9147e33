use tavily_mcp::json::{obj_get, Json, JsonField};
use tavily_mcp::tavily::{
    contains_news, extract_tool_info, http_outcome, prepare_search_params, search_tool_info,
};

fn s(x: &str) -> String {
    String::from(x)
}

fn field(k: &str, v: Json) -> JsonField {
    JsonField { key: s(k), value: v }
}

fn get<'a>(v: &'a Json, k: &str) -> Option<&'a Json> {
    match v {
        Json::Obj(fields) => obj_get(fields, k),
        _ => None,
    }
}

fn get_str<'a>(v: &'a Json, k: &str) -> &'a str {
    match get(v, k) {
        Some(Json::Str(t)) => t.as_str(),
        _ => panic!("expected a string under {}", k),
    }
}

#[test]
fn search_params_receive_the_api_key() {
    let params = Json::Obj(vec![field("query", Json::Str(s("rust verification")))]);
    let prepared = prepare_search_params(params, &s("tvly-key"));
    assert_eq!(get_str(&prepared, "api_key"), "tvly-key");
    assert_eq!(get_str(&prepared, "query"), "rust verification");
}

#[test]
fn uppercase_news_query_chooses_the_news_topic() {
    // The query mentions news only in uppercase: the rule lowercases first.
    let params = Json::Obj(vec![field("query", Json::Str(s("latest NEWS about rust")))]);
    let prepared = prepare_search_params(params, &s("k"));
    assert_eq!(get_str(&prepared, "topic"), "news");
}

#[test]
fn chosen_topic_is_never_overridden() {
    let params = Json::Obj(vec![
        field("query", Json::Str(s("news about rust"))),
        field("topic", Json::Str(s("general"))),
    ]);
    let prepared = prepare_search_params(params, &s("k"));
    assert_eq!(get_str(&prepared, "topic"), "general");
}

#[test]
fn query_without_news_gets_no_topic() {
    let params = Json::Obj(vec![field("query", Json::Str(s("rust verification")))]);
    let prepared = prepare_search_params(params, &s("k"));
    assert!(get(&prepared, "topic").is_none());
}

#[test]
fn other_search_params_pass_through_untouched() {
    let params = Json::Obj(vec![
        field("query", Json::Str(s("rust"))),
        field("max_results", Json::Num(s("5"))),
        field("include_images", Json::Bool(true)),
    ]);
    let prepared = prepare_search_params(params, &s("k"));
    assert!(matches!(get(&prepared, "max_results"), Some(Json::Num(n)) if n == "5"));
    assert!(matches!(get(&prepared, "include_images"), Some(Json::Bool(true))));
}

#[test]
fn contains_news_scans_every_position() {
    assert!(contains_news("news"));
    assert!(contains_news("breaking newspaper story"));
    assert!(!contains_news("new"));
    assert!(!contains_news(""));
    assert!(!contains_news("nothing else wrong signals"));
}

fn str_arr_texts(v: &Json) -> Vec<String> {
    match v {
        Json::Arr(items) => items
            .iter()
            .map(|j| match j {
                Json::Str(t) => t.clone(),
                _ => panic!("expected a string element"),
            })
            .collect(),
        _ => panic!("expected an array"),
    }
}

#[test]
fn search_schema_declares_its_properties_exactly() {
    let search = search_tool_info();
    assert_eq!(search.name.as_str(), "tavily-search");
    let schema = &search.input_schema;
    assert_eq!(get_str(schema, "type"), "object");
    assert_eq!(str_arr_texts(get(schema, "required").unwrap()), vec![s("query")]);
    let props = get(schema, "properties").expect("properties present");
    match props {
        Json::Obj(fields) => assert_eq!(fields.len(), 11),
        _ => panic!("properties must be an object"),
    }
    let query = get(props, "query").unwrap();
    assert_eq!(get_str(query, "type"), "string");
    let depth = get(props, "search_depth").unwrap();
    assert_eq!(get_str(depth, "type"), "string");
    assert_eq!(
        str_arr_texts(get(depth, "enum").unwrap()),
        vec![s("basic"), s("advanced")]
    );
    assert_eq!(get_str(depth, "default"), "basic");
    let topic = get(props, "topic").unwrap();
    assert_eq!(
        str_arr_texts(get(topic, "enum").unwrap()),
        vec![s("general"), s("news")]
    );
    assert_eq!(get_str(topic, "default"), "general");
    let days = get(props, "days").unwrap();
    assert_eq!(get_str(days, "type"), "number");
    assert!(matches!(get(days, "default"), Some(Json::Num(n)) if n == "3"));
    let time_range = get(props, "time_range").unwrap();
    assert_eq!(
        str_arr_texts(get(time_range, "enum").unwrap()),
        vec![s("day"), s("week"), s("month"), s("year"), s("d"), s("w"), s("m"), s("y")]
    );
    let max_results = get(props, "max_results").unwrap();
    assert!(matches!(get(max_results, "default"), Some(Json::Num(n)) if n == "10"));
    assert!(matches!(get(max_results, "minimum"), Some(Json::Num(n)) if n == "5"));
    assert!(matches!(get(max_results, "maximum"), Some(Json::Num(n)) if n == "20"));
    for key in ["include_images", "include_image_descriptions", "include_raw_content"] {
        let p = get(props, key).unwrap();
        assert_eq!(get_str(p, "type"), "boolean");
        assert!(matches!(get(p, "default"), Some(Json::Bool(false))));
    }
    for key in ["include_domains", "exclude_domains"] {
        let p = get(props, key).unwrap();
        assert_eq!(get_str(p, "type"), "array");
        assert_eq!(get_str(get(p, "items").unwrap(), "type"), "string");
        assert!(matches!(get(p, "default"), Some(Json::Arr(items)) if items.is_empty()));
    }
}

#[test]
fn extract_schema_declares_its_properties_exactly() {
    let extract = extract_tool_info();
    assert_eq!(extract.name.as_str(), "tavily-extract");
    let schema = &extract.input_schema;
    assert_eq!(get_str(schema, "type"), "object");
    assert_eq!(str_arr_texts(get(schema, "required").unwrap()), vec![s("urls")]);
    let props = get(schema, "properties").expect("properties present");
    match props {
        Json::Obj(fields) => assert_eq!(fields.len(), 3),
        _ => panic!("properties must be an object"),
    }
    let urls = get(props, "urls").unwrap();
    assert_eq!(get_str(urls, "type"), "array");
    assert_eq!(get_str(get(urls, "items").unwrap(), "type"), "string");
    let depth = get(props, "extract_depth").unwrap();
    assert_eq!(
        str_arr_texts(get(depth, "enum").unwrap()),
        vec![s("basic"), s("advanced")]
    );
    assert_eq!(get_str(depth, "default"), "basic");
    let images = get(props, "include_images").unwrap();
    assert_eq!(get_str(images, "type"), "boolean");
    assert!(matches!(get(images, "default"), Some(Json::Bool(false))));
}

#[test]
fn http_outcome_passes_success_and_wraps_failure() {
    assert_eq!(http_outcome(true, s("{\"ok\":1}")), Ok(s("{\"ok\":1}")));
    assert_eq!(
        http_outcome(false, s("quota exceeded")),
        Err(s("Tavily API error: quota exceeded"))
    );
}
