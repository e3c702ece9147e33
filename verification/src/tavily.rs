//! The Tavily tools' data model and request preparation: what the search and
//! extract endpoints take and return, held as plain values, and the search
//! parameter rules (API key injection, the news topic heuristic).
use vstd::prelude::*;

verus! {

use vstd::string::{StrSliceExecFns, StringExecFns};
use crate::json::{field_lookup, obj_get, obj_lookup, obj_set, push_field, str_is, Json, JsonField};
use crate::registry::ToolInfo;

/// One search hit. The relevance score and dates are carried as the literal
/// text the API sent, read by nothing here.
pub struct TavilyResult {
    pub title: String,
    pub url: String,
    pub content: String,
    pub score: String,
    pub published_date: Option<String>,
    pub raw_content: Option<String>,
}

/// An image reference in a search response: a bare URL or an annotated one.
pub enum TavilyImage {
    String(String),
    Object { url: String, description: Option<String> },
}

/// A whole search response.
pub struct TavilyResponse {
    pub query: String,
    pub follow_up_questions: Option<Vec<String>>,
    pub answer: Option<String>,
    pub images: Option<Vec<TavilyImage>>,
    pub results: Vec<TavilyResult>,
}

/// One successfully extracted page.
pub struct ExtractResult {
    pub url: String,
    pub raw_content: String,
    pub images: Option<Vec<String>>,
}

/// One page the extract endpoint failed on.
pub struct FailedResult {
    pub url: String,
    pub error: String,
}

/// A whole extract response. The response time is carried as the literal
/// text the API sent.
pub struct TavilyExtractResponse {
    pub results: Vec<ExtractResult>,
    pub failed_results: Option<Vec<FailedResult>>,
    pub response_time: String,
}

/// What a text lowercases to.
pub uninterp spec fn lower_of(s: Seq<char>) -> Seq<char>;

/// Relies on str::to_lowercase: the result depends on the characters alone.
#[verifier::external_body]
fn lowercase(s: &str) -> (r: String)
    ensures
        r@ == lower_of(s@),
{
    s.to_lowercase()
}

/// Whether `s` contains the text `news`.
pub open spec fn has_news(s: Seq<char>) -> bool {
    exists|i: int| 0 <= i && i + 4 <= s.len() && #[trigger] s.subrange(i, i + 4) == "news"@
}

/// The characters of the text `news`.
proof fn lemma_news()
    ensures
        "news"@.len() == 4,
        "news"@[0] == 'n',
        "news"@[1] == 'e',
        "news"@[2] == 'w',
        "news"@[3] == 's',
{
    reveal_strlit("news");
}

/// Whether `s` contains the text `news`, by scanning every position.
#[verifier::loop_isolation(false)]
pub fn contains_news(s: &str) -> (b: bool)
    ensures
        b == has_news(s@),
{
    proof {
        lemma_news();
    }
    let n = s.unicode_len();
    if n < 4 {
        return false;
    }
    let mut i: usize = 0;
    while i <= n - 4
        invariant
            4 <= n,
            i <= n - 3,
            forall|j: int| 0 <= j < i ==> #[trigger] s@.subrange(j, j + 4) != "news"@,
        decreases n - i,
    {
        let c0 = s.get_char(i);
        let c1 = s.get_char(i + 1);
        let c2 = s.get_char(i + 2);
        let c3 = s.get_char(i + 3);
        if c0 == 'n' && c1 == 'e' && c2 == 'w' && c3 == 's' {
            proof {
                assert(s@.subrange(i as int, i as int + 4) =~= "news"@);
            }
            return true;
        }
        proof {
            assert(s@.subrange(i as int, i as int + 4) != "news"@) by {
                assert(s@.subrange(i as int, i as int + 4)[0] == c0);
                assert(s@.subrange(i as int, i as int + 4)[1] == c1);
                assert(s@.subrange(i as int, i as int + 4)[2] == c2);
                assert(s@.subrange(i as int, i as int + 4)[3] == c3);
            }
        }
        i += 1;
    }
    false
}

/// Whether the news topic rule applies to search parameters `p`: the query is
/// a string whose lowercase form contains `news`, and no topic was chosen.
pub open spec fn news_applies(p: Json) -> bool {
    &&& obj_lookup(p, "query"@) matches Some(q) && q matches Json::Str(s) && has_news(
        lower_of(s@),
    )
    &&& obj_lookup(p, "topic"@) is None
}

/// The keys the search preparation touches are distinct texts.
proof fn lemma_tavily_keys()
    ensures
        "api_key"@ != "topic"@,
        "api_key"@ != "query"@,
        "topic"@ != "query"@,
{
    reveal_strlit("api_key");
    reveal_strlit("topic");
    reveal_strlit("query");
    assert("api_key"@.len() == 7);
    assert("topic"@.len() == 5);
    assert("query"@.len() == 5);
    assert("topic"@[0] == 't' && "query"@[0] == 'q');
}

/// Prepares search parameters for the API: injects the API key, and chooses
/// the news topic when the query asks for news and none was chosen. Every
/// other parameter is passed through untouched.
pub fn prepare_search_params(params: Json, api_key: &String) -> (r: Json)
    requires
        params is Obj,
    ensures
        r is Obj,
        obj_lookup(r, "api_key"@) matches Some(x) && x matches Json::Str(s) && s@ == api_key@,
        news_applies(params) ==> (obj_lookup(r, "topic"@) matches Some(x) && x matches Json::Str(s)
            && s@ == "news"@),
        !news_applies(params) ==> obj_lookup(r, "topic"@) == obj_lookup(params, "topic"@),
        forall|k: Seq<char>| k != "api_key"@ && k != "topic"@ ==> #[trigger] obj_lookup(r, k)
            == obj_lookup(params, k),
{
    proof {
        lemma_tavily_keys();
    }
    let ghost gp = params;
    let mut fields = match params {
        Json::Obj(fields) => fields,
        _ => Vec::new(),
    };
    let wants_news = match obj_get(&fields, "query") {
        Some(j) => match j {
            Json::Str(q) => {
                let low = lowercase(q.as_str());
                contains_news(low.as_str())
            }
            _ => false,
        },
        None => false,
    };
    let topic_absent = obj_get(&fields, "topic").is_none();
    obj_set(&mut fields, "api_key", Json::Str(api_key.clone()));
    if wants_news && topic_absent {
        obj_set(&mut fields, "topic", Json::Str(String::from_str("news")));
    }
    Json::Obj(fields)
}

/// The name of the search tool.
pub fn search_tool_name() -> (r: &'static str)
    ensures
        r@ == "tavily-search"@,
{
    "tavily-search"
}

/// The name of the extract tool.
pub fn extract_tool_name() -> (r: &'static str)
    ensures
        r@ == "tavily-extract"@,
{
    "tavily-extract"
}

/// A JSON string value.
fn jstr(s: &str) -> (r: Json)
    ensures
        r matches Json::Str(x) && x@ == s@,
{
    Json::Str(String::from_str(s))
}

/// Whether the value under `k` of object `v` is the string `t`.
pub open spec fn key_is_str(v: Json, k: Seq<char>, t: Seq<char>) -> bool {
    obj_lookup(v, k) matches Some(x) && x matches Json::Str(s) && s@ == t
}

/// Whether the value under `k` of object `v` is the number with literal text `t`.
pub open spec fn key_is_num(v: Json, k: Seq<char>, t: Seq<char>) -> bool {
    obj_lookup(v, k) matches Some(x) && x matches Json::Num(s) && s@ == t
}

/// Whether the value under `k` of object `v` is `false`.
pub open spec fn key_is_false(v: Json, k: Seq<char>) -> bool {
    obj_lookup(v, k) == Some(Json::Bool(false))
}

/// Whether `v` is the array of exactly the strings `ts`, in order.
pub open spec fn is_str_arr(v: Json, ts: Seq<Seq<char>>) -> bool {
    v matches Json::Arr(items) && items@.len() == ts.len() && (forall|i: int|
        0 <= i < ts.len() ==> (#[trigger] items@[i] matches Json::Str(s) && s@ == ts[i]))
}

/// Whether `v` is the empty array.
pub open spec fn is_empty_arr(v: Json) -> bool {
    v matches Json::Arr(items) && items@.len() == 0
}

/// Whether `v` is the item schema of a string array: `{"type": "string"}`.
pub open spec fn is_string_items(v: Json) -> bool {
    &&& v is Obj
    &&& key_is_str(v, "type"@, "string"@)
}

/// Whether `p` is a schema property of type `ty`.
pub open spec fn prop_is(p: Json, ty: Seq<char>) -> bool {
    &&& p is Obj
    &&& key_is_str(p, "type"@, ty)
}

/// The declared search input schema: an object schema requiring `query`,
/// whose eleven properties carry the types, enumerations, defaults and
/// bounds the tool documents.
pub open spec fn is_search_schema(v: Json) -> bool {
    &&& v matches Json::Obj(fs) && fs@.len() == 3
    &&& key_is_str(v, "type"@, "object"@)
    &&& obj_lookup(v, "required"@) matches Some(r) && is_str_arr(r, seq!["query"@])
    &&& obj_lookup(v, "properties"@) matches Some(p) && is_search_props(p)
}

/// The search schema's properties, each pinned to its declared shape.
pub open spec fn is_search_props(p: Json) -> bool {
    &&& p matches Json::Obj(fs) && fs@.len() == 11
    &&& obj_lookup(p, "query"@) matches Some(q) && prop_is(q, "string"@)
    &&& obj_lookup(p, "search_depth"@) matches Some(d) && prop_is(d, "string"@) && (obj_lookup(
        d,
        "enum"@,
    ) matches Some(e) && is_str_arr(e, seq!["basic"@, "advanced"@])) && key_is_str(
        d,
        "default"@,
        "basic"@,
    )
    &&& obj_lookup(p, "topic"@) matches Some(t) && prop_is(t, "string"@) && (obj_lookup(t, "enum"@)
        matches Some(e) && is_str_arr(e, seq!["general"@, "news"@])) && key_is_str(
        t,
        "default"@,
        "general"@,
    )
    &&& obj_lookup(p, "days"@) matches Some(d) && prop_is(d, "number"@) && key_is_num(
        d,
        "default"@,
        "3"@,
    )
    &&& obj_lookup(p, "time_range"@) matches Some(t) && prop_is(t, "string"@) && (obj_lookup(
        t,
        "enum"@,
    ) matches Some(e) && is_str_arr(
        e,
        seq!["day"@, "week"@, "month"@, "year"@, "d"@, "w"@, "m"@, "y"@],
    ))
    &&& obj_lookup(p, "max_results"@) matches Some(m) && prop_is(m, "number"@) && key_is_num(
        m,
        "default"@,
        "10"@,
    ) && key_is_num(m, "minimum"@, "5"@) && key_is_num(m, "maximum"@, "20"@)
    &&& obj_lookup(p, "include_images"@) matches Some(b) && prop_is(b, "boolean"@) && key_is_false(
        b,
        "default"@,
    )
    &&& obj_lookup(p, "include_image_descriptions"@) matches Some(b) && prop_is(b, "boolean"@)
        && key_is_false(b, "default"@)
    &&& obj_lookup(p, "include_raw_content"@) matches Some(b) && prop_is(b, "boolean"@)
        && key_is_false(b, "default"@)
    &&& obj_lookup(p, "include_domains"@) matches Some(d) && prop_is(d, "array"@) && (obj_lookup(
        d,
        "items"@,
    ) matches Some(it) && is_string_items(it)) && (obj_lookup(d, "default"@) matches Some(df)
        && is_empty_arr(df))
    &&& obj_lookup(p, "exclude_domains"@) matches Some(d) && prop_is(d, "array"@) && (obj_lookup(
        d,
        "items"@,
    ) matches Some(it) && is_string_items(it)) && (obj_lookup(d, "default"@) matches Some(df)
        && is_empty_arr(df))
}

/// The declared extract input schema: an object schema requiring `urls`,
/// whose three properties carry their declared shapes.
pub open spec fn is_extract_schema(v: Json) -> bool {
    &&& v matches Json::Obj(fs) && fs@.len() == 3
    &&& key_is_str(v, "type"@, "object"@)
    &&& obj_lookup(v, "required"@) matches Some(r) && is_str_arr(r, seq!["urls"@])
    &&& obj_lookup(v, "properties"@) matches Some(p) && is_extract_props(p)
}

/// The extract schema's properties, each pinned to its declared shape.
pub open spec fn is_extract_props(p: Json) -> bool {
    &&& p matches Json::Obj(fs) && fs@.len() == 3
    &&& obj_lookup(p, "urls"@) matches Some(u) && prop_is(u, "array"@) && (obj_lookup(u, "items"@)
        matches Some(it) && is_string_items(it))
    &&& obj_lookup(p, "extract_depth"@) matches Some(d) && prop_is(d, "string"@) && (obj_lookup(
        d,
        "enum"@,
    ) matches Some(e) && is_str_arr(e, seq!["basic"@, "advanced"@])) && key_is_str(
        d,
        "default"@,
        "basic"@,
    )
    &&& obj_lookup(p, "include_images"@) matches Some(b) && prop_is(b, "boolean"@) && key_is_false(
        b,
        "default"@,
    )
}

/// The texts of the schema keys: their lengths, and the characters that tell
/// the equally long ones apart.
proof fn lemma_schema_keys()
    ensures
        "type"@.len() == 4,
        "type"@[0] == 't',
        "properties"@.len() == 10,
        "required"@.len() == 8,
        "description"@.len() == 11,
        "enum"@.len() == 4,
        "enum"@[0] == 'e',
        "default"@.len() == 7,
        "default"@[0] == 'd',
        "minimum"@.len() == 7,
        "minimum"@[0] == 'm',
        "minimum"@[1] == 'i',
        "maximum"@.len() == 7,
        "maximum"@[0] == 'm',
        "maximum"@[1] == 'a',
        "items"@.len() == 5,
        "query"@.len() == 5,
        "query"@[0] == 'q',
        "search_depth"@.len() == 12,
        "topic"@.len() == 5,
        "topic"@[0] == 't',
        "days"@.len() == 4,
        "days"@[0] == 'd',
        "time_range"@.len() == 10,
        "max_results"@.len() == 11,
        "include_images"@.len() == 14,
        "include_image_descriptions"@.len() == 26,
        "include_raw_content"@.len() == 19,
        "include_domains"@.len() == 15,
        "include_domains"@[0] == 'i',
        "exclude_domains"@.len() == 15,
        "exclude_domains"@[0] == 'e',
        "urls"@.len() == 4,
        "urls"@[0] == 'u',
        "extract_depth"@.len() == 13,
{
    reveal_strlit("type");
    reveal_strlit("properties");
    reveal_strlit("required");
    reveal_strlit("description");
    reveal_strlit("enum");
    reveal_strlit("default");
    reveal_strlit("minimum");
    reveal_strlit("maximum");
    reveal_strlit("items");
    reveal_strlit("query");
    reveal_strlit("search_depth");
    reveal_strlit("topic");
    reveal_strlit("days");
    reveal_strlit("time_range");
    reveal_strlit("max_results");
    reveal_strlit("include_images");
    reveal_strlit("include_image_descriptions");
    reveal_strlit("include_raw_content");
    reveal_strlit("include_domains");
    reveal_strlit("exclude_domains");
    reveal_strlit("urls");
    reveal_strlit("extract_depth");
}

/// A property's base: its declared type and its description.
fn prop2(ty: &str, desc: &str) -> (r: Vec<JsonField>)
    ensures
        field_lookup(r@, "type"@) matches Some(x) && x matches Json::Str(s) && s@ == ty@,
        forall|k: Seq<char>| k != "type"@ && k != "description"@ ==> #[trigger] field_lookup(
            r@,
            k,
        ) is None,
{
    proof {
        lemma_schema_keys();
    }
    let mut fs: Vec<JsonField> = Vec::new();
    push_field(&mut fs, "type", jstr(ty));
    push_field(&mut fs, "description", jstr(desc));
    fs
}

/// The array of two strings.
fn str_arr2(a: &str, b: &str) -> (r: Json)
    ensures
        is_str_arr(r, seq![a@, b@]),
{
    let mut items: Vec<Json> = Vec::new();
    items.push(jstr(a));
    items.push(jstr(b));
    proof {
        assert(items@[0] matches Json::Str(s) && s@ == a@);
        assert(items@[1] matches Json::Str(s) && s@ == b@);
    }
    Json::Arr(items)
}

/// The array of one string.
fn str_arr1(a: &str) -> (r: Json)
    ensures
        is_str_arr(r, seq![a@]),
{
    let mut items: Vec<Json> = Vec::new();
    items.push(jstr(a));
    proof {
        assert(items@[0] matches Json::Str(s) && s@ == a@);
    }
    Json::Arr(items)
}

/// A string property with no further constraints.
fn text_prop(desc: &str) -> (r: Json)
    ensures
        prop_is(r, "string"@),
{
    Json::Obj(prop2("string", desc))
}

/// A string property constrained to two values, with a default.
fn enum2_str_prop(desc: &str, a: &str, b: &str, dflt: &str) -> (r: Json)
    ensures
        prop_is(r, "string"@),
        obj_lookup(r, "enum"@) matches Some(e) && is_str_arr(e, seq![a@, b@]),
        key_is_str(r, "default"@, dflt@),
{
    proof {
        lemma_schema_keys();
    }
    let mut fs = prop2("string", desc);
    push_field(&mut fs, "enum", str_arr2(a, b));
    push_field(&mut fs, "default", jstr(dflt));
    Json::Obj(fs)
}

/// A boolean property that defaults to `false`.
fn bool_prop(desc: &str) -> (r: Json)
    ensures
        prop_is(r, "boolean"@),
        key_is_false(r, "default"@),
{
    proof {
        lemma_schema_keys();
    }
    let mut fs = prop2("boolean", desc);
    push_field(&mut fs, "default", Json::Bool(false));
    Json::Obj(fs)
}

/// A number property with a default.
fn num_prop(desc: &str, dflt: &str) -> (r: Json)
    ensures
        prop_is(r, "number"@),
        key_is_num(r, "default"@, dflt@),
{
    proof {
        lemma_schema_keys();
    }
    let mut fs = prop2("number", desc);
    push_field(&mut fs, "default", Json::Num(String::from_str(dflt)));
    Json::Obj(fs)
}

/// A number property with a default and inclusive bounds.
fn bounded_num_prop(desc: &str, dflt: &str, min: &str, max: &str) -> (r: Json)
    ensures
        prop_is(r, "number"@),
        key_is_num(r, "default"@, dflt@),
        key_is_num(r, "minimum"@, min@),
        key_is_num(r, "maximum"@, max@),
{
    proof {
        lemma_schema_keys();
    }
    let mut fs = prop2("number", desc);
    push_field(&mut fs, "default", Json::Num(String::from_str(dflt)));
    push_field(&mut fs, "minimum", Json::Num(String::from_str(min)));
    push_field(&mut fs, "maximum", Json::Num(String::from_str(max)));
    Json::Obj(fs)
}

/// The item schema of a string array.
fn string_items() -> (r: Json)
    ensures
        is_string_items(r),
{
    let mut fs: Vec<JsonField> = Vec::new();
    push_field(&mut fs, "type", jstr("string"));
    Json::Obj(fs)
}

/// A string-array property with no default.
fn string_array_prop(desc: &str) -> (r: Json)
    ensures
        prop_is(r, "array"@),
        obj_lookup(r, "items"@) matches Some(it) && is_string_items(it),
{
    proof {
        lemma_schema_keys();
    }
    let mut fs = prop2("array", desc);
    push_field(&mut fs, "items", string_items());
    Json::Obj(fs)
}

/// A string-array property that defaults to the empty list.
fn domains_prop(desc: &str) -> (r: Json)
    ensures
        prop_is(r, "array"@),
        obj_lookup(r, "items"@) matches Some(it) && is_string_items(it),
        obj_lookup(r, "default"@) matches Some(df) && is_empty_arr(df),
{
    proof {
        lemma_schema_keys();
    }
    let mut fs = prop2("array", desc);
    push_field(&mut fs, "items", string_items());
    push_field(&mut fs, "default", Json::Arr(Vec::new()));
    Json::Obj(fs)
}

/// A string property constrained to the documented time ranges.
fn time_range_prop(desc: &str) -> (r: Json)
    ensures
        prop_is(r, "string"@),
        obj_lookup(r, "enum"@) matches Some(e) && is_str_arr(
            e,
            seq!["day"@, "week"@, "month"@, "year"@, "d"@, "w"@, "m"@, "y"@],
        ),
{
    proof {
        lemma_schema_keys();
    }
    let mut items: Vec<Json> = Vec::new();
    items.push(jstr("day"));
    items.push(jstr("week"));
    items.push(jstr("month"));
    items.push(jstr("year"));
    items.push(jstr("d"));
    items.push(jstr("w"));
    items.push(jstr("m"));
    items.push(jstr("y"));
    proof {
        assert(items@[0] matches Json::Str(s) && s@ == "day"@);
        assert(items@[1] matches Json::Str(s) && s@ == "week"@);
        assert(items@[2] matches Json::Str(s) && s@ == "month"@);
        assert(items@[3] matches Json::Str(s) && s@ == "year"@);
        assert(items@[4] matches Json::Str(s) && s@ == "d"@);
        assert(items@[5] matches Json::Str(s) && s@ == "w"@);
        assert(items@[6] matches Json::Str(s) && s@ == "m"@);
        assert(items@[7] matches Json::Str(s) && s@ == "y"@);
    }
    let mut fs = prop2("string", desc);
    push_field(&mut fs, "enum", Json::Arr(items));
    Json::Obj(fs)
}

/// The registry entry of the search tool: its name, its description, and
/// exactly the input schema it declares.
#[verifier::rlimit(30)]
pub fn search_tool_info() -> (r: ToolInfo)
    ensures
        r.name@ == "tavily-search"@,
        r.description@
            == "A powerful web search tool that provides comprehensive, real-time results using Tavily's AI search engine. Returns relevant web content with customizable parameters for result count, content type, and domain filtering. Ideal for gathering current information, news, and detailed web content analysis."@,
        is_search_schema(r.input_schema),
{
    proof {
        lemma_schema_keys();
    }
    let mut props: Vec<JsonField> = Vec::new();
    push_field(&mut props, "query", text_prop("Search query"));
    push_field(
        &mut props,
        "search_depth",
        enum2_str_prop(
            "The depth of the search. It can be 'basic' or 'advanced'",
            "basic",
            "advanced",
            "basic",
        ),
    );
    push_field(
        &mut props,
        "topic",
        enum2_str_prop(
            "The category of the search. This will determine which of our agents will be used for the search",
            "general",
            "news",
            "general",
        ),
    );
    push_field(
        &mut props,
        "days",
        num_prop(
            "The number of days back from the current date to include in the search results. This specifies the time frame of data to be retrieved. Please note that this feature is only available when using the 'news' search topic",
            "3",
        ),
    );
    push_field(
        &mut props,
        "time_range",
        time_range_prop(
            "The time range back from the current date to include in the search results. This feature is available for both 'general' and 'news' search topics",
        ),
    );
    push_field(
        &mut props,
        "max_results",
        bounded_num_prop("The maximum number of search results to return", "10", "5", "20"),
    );
    push_field(
        &mut props,
        "include_images",
        bool_prop("Include a list of query-related images in the response"),
    );
    push_field(
        &mut props,
        "include_image_descriptions",
        bool_prop("Include a list of query-related images and their descriptions in the response"),
    );
    push_field(
        &mut props,
        "include_raw_content",
        bool_prop("Include the cleaned and parsed HTML content of each search result"),
    );
    push_field(
        &mut props,
        "include_domains",
        domains_prop(
            "A list of domains to specifically include in the search results, if the user asks to search on specific sites set this to the domain of the site",
        ),
    );
    push_field(
        &mut props,
        "exclude_domains",
        domains_prop(
            "List of domains to specifically exclude, if the user asks to exclude a domain set this to the domain of the site",
        ),
    );

    let mut schema: Vec<JsonField> = Vec::new();
    push_field(&mut schema, "type", jstr("object"));
    push_field(&mut schema, "properties", Json::Obj(props));
    push_field(&mut schema, "required", str_arr1("query"));

    ToolInfo {
        name: String::from_str(search_tool_name()),
        description: String::from_str(
            "A powerful web search tool that provides comprehensive, real-time results using Tavily's AI search engine. Returns relevant web content with customizable parameters for result count, content type, and domain filtering. Ideal for gathering current information, news, and detailed web content analysis.",
        ),
        input_schema: Json::Obj(schema),
    }
}

/// The registry entry of the extract tool: its name, its description, and
/// exactly the input schema it declares.
#[verifier::rlimit(30)]
pub fn extract_tool_info() -> (r: ToolInfo)
    ensures
        r.name@ == "tavily-extract"@,
        r.description@
            == "A powerful web content extraction tool that retrieves and processes raw content from specified URLs, ideal for data collection, content analysis, and research tasks."@,
        is_extract_schema(r.input_schema),
{
    proof {
        lemma_schema_keys();
    }
    let mut props: Vec<JsonField> = Vec::new();
    push_field(&mut props, "urls", string_array_prop("List of URLs to extract content from"));
    push_field(
        &mut props,
        "extract_depth",
        enum2_str_prop(
            "Depth of extraction - 'basic' or 'advanced', if urls are linkedin use 'advanced' or if explicitly told to use advanced",
            "basic",
            "advanced",
            "basic",
        ),
    );
    push_field(
        &mut props,
        "include_images",
        bool_prop("Include a list of images extracted from the urls in the response"),
    );

    let mut schema: Vec<JsonField> = Vec::new();
    push_field(&mut schema, "type", jstr("object"));
    push_field(&mut schema, "properties", Json::Obj(props));
    push_field(&mut schema, "required", str_arr1("urls"));

    ToolInfo {
        name: String::from_str(extract_tool_name()),
        description: String::from_str(
            "A powerful web content extraction tool that retrieves and processes raw content from specified URLs, ideal for data collection, content analysis, and research tasks.",
        ),
        input_schema: Json::Obj(schema),
    }
}

/// The rule for an HTTP reply from the API: a success status hands the body
/// on unchanged; any other status fails, preserving the API's message.
pub fn http_outcome(success: bool, body: String) -> (r: Result<String, String>)
    ensures
        success ==> r == Result::<String, String>::Ok(body),
        !success ==> (r matches Err(m) && m@ == "Tavily API error: "@ + body@),
{
    if success {
        Ok(body)
    } else {
        let mut m = String::from_str("Tavily API error: ");
        m.append(body.as_str());
        Err(m)
    }
}

} // verus!
