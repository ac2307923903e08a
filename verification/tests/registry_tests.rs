use data_processor::charts::chart_from_hash;
use data_processor::charts::chart_key;
use data_processor::charts::chart_type_from_str;
use data_processor::charts::ChartHash;
use data_processor::charts::ChartType;
use data_processor::json::JsonValue;
use data_processor::ratelimits::is_ratelimited;
use data_processor::ratelimits::ratelimit_key;
use data_processor::service::parse_chart_ids;
use data_processor::service::service_from_hash;
use data_processor::service::service_key;
use data_processor::service::service_name_index_key;
use data_processor::software::software_from_hash;
use data_processor::software::software_key;
use data_processor::software::software_url_index_key;
use data_processor::strutil::parse_u16;
use data_processor::strutil::parse_u64;
use data_processor::strutil::str_contains;
use data_processor::strutil::u64_to_string;

fn field(key: &str, value: &str) -> (String, String) {
    (String::from(key), String::from(value))
}

#[test]
fn keys_match_the_stored_layout() {
    assert_eq!(software_key(1), "software:1");
    assert_eq!(software_url_index_key("bukkit"), "software.index.id.url:bukkit");
    assert_eq!(service_key(1337), "plugins:1337");
    assert_eq!(
        service_name_index_key("bukkit", "MyPlugin"),
        "plugins.index.id.url+name:bukkit.myplugin"
    );
    assert_eq!(chart_key(24), "charts:24");
    assert_eq!(
        ratelimit_key(1337, "server-uuid-1", "bukkit", 429206),
        "ratelimit:1337#server-uuid-1:bukkit:429206"
    );
}

#[test]
fn decimal_text_round_trips() {
    assert_eq!(u64_to_string(0), "0");
    assert_eq!(u64_to_string(429206), "429206");
    assert_eq!(parse_u64("429206"), Some(429206));
    assert_eq!(parse_u64("+7"), Some(7));
    assert_eq!(parse_u64(""), None);
    assert_eq!(parse_u64("12a"), None);
    assert_eq!(parse_u64("18446744073709551615"), Some(u64::MAX));
    assert_eq!(parse_u64("18446744073709551616"), None);
    assert_eq!(parse_u16("65535"), Some(65535));
    assert_eq!(parse_u16("65536"), None);
}

#[test]
fn chart_id_lists_decode_with_json_whitespace() {
    assert_eq!(parse_chart_ids("[1,2,3]"), Some(vec![1, 2, 3]));
    assert_eq!(parse_chart_ids("[]"), Some(vec![]));
    assert_eq!(parse_chart_ids(" [ 24 , 25 ] "), Some(vec![24, 25]));
    assert_eq!(parse_chart_ids("[1,]"), None);
    assert_eq!(parse_chart_ids("1,2"), None);
    assert_eq!(parse_chart_ids("[18446744073709551616]"), None);
    assert_eq!(parse_chart_ids("[1 2]"), None);
}

#[test]
fn service_records_decode_from_hash_fields() {
    let fields = vec![
        field("name", "TestPlugin"),
        field("owner", "Admin"),
        field("software", "1"),
        field("charts", "[24,25]"),
    ];
    let service = service_from_hash(1337, &fields).unwrap();
    assert_eq!(service.name, "TestPlugin");
    assert_eq!(service.software_id, 1);
    assert!(!service.global);
    assert_eq!(service.charts, vec![24, 25]);

    let with_global = vec![
        field("name", "Global"),
        field("owner", "Admin"),
        field("software", "1"),
        field("global", "1"),
        field("charts", "[]"),
    ];
    assert!(service_from_hash(99, &with_global).unwrap().global);

    let missing_name = vec![field("owner", "Admin"), field("software", "1"), field("charts", "[]")];
    assert!(service_from_hash(1, &missing_name).is_none());

    let bad_charts = vec![
        field("name", "X"),
        field("owner", "Y"),
        field("software", "1"),
        field("charts", "nope"),
    ];
    assert!(service_from_hash(1, &bad_charts).is_none());
}

#[test]
fn software_records_decode_from_hash_fields() {
    let fields = vec![
        field("name", "Bukkit / Spigot"),
        field("url", "bukkit"),
        field("maxRequestsPerIp", "3"),
        field("globalPlugin", "99"),
        field("metricsClass", "com.example.Metrics"),
        field("hideInPluginList", "0"),
    ];
    let software = software_from_hash(1, &fields, vec![]).unwrap();
    assert_eq!(software.name, "Bukkit / Spigot");
    assert_eq!(software.url, "bukkit");
    assert_eq!(software.max_requests_per_ip, 3);
    assert_eq!(software.global_plugin, Some(99));
    assert!(!software.hide_in_plugin_list);

    let no_cap = vec![field("name", "X"), field("url", "x")];
    assert!(software_from_hash(1, &no_cap, vec![]).is_none());

    let bad_global = vec![
        field("name", "X"),
        field("url", "x"),
        field("maxRequestsPerIp", "3"),
        field("globalPlugin", "abc"),
    ];
    assert!(software_from_hash(1, &bad_global, vec![]).is_none());
}

#[test]
fn chart_slots_decode_or_resolve_to_nothing() {
    let slot = ChartHash {
        id_custom: Some(String::from("servers")),
        chart_type: Some(String::from("single_linechart")),
        position: Some(String::from("0")),
        title: Some(String::from("Servers")),
        default: Some(String::from("1")),
        data: Some(JsonValue::Null),
        service_id: Some(String::from("1337")),
    };
    let chart = chart_from_hash(24, &slot).unwrap();
    assert_eq!(chart.id, 24);
    assert_eq!(chart.id_custom, "servers");
    assert!(chart.default);
    assert_eq!(chart.service_id, 1337);
    assert!(matches!(chart.chart_type, ChartType::SingleLineChart));

    let unknown_type = ChartHash {
        chart_type: Some(String::from("mystery")),
        ..slot.clone()
    };
    assert!(chart_from_hash(24, &unknown_type).is_none());

    let missing_title = ChartHash { title: None, ..slot.clone() };
    assert!(chart_from_hash(24, &missing_title).is_none());
}

#[test]
fn chart_type_tags_decode() {
    assert!(matches!(chart_type_from_str("simple_pie"), Some(ChartType::SimplePie)));
    assert!(matches!(chart_type_from_str("advanced_pie"), Some(ChartType::AdvancedPie)));
    assert!(matches!(chart_type_from_str("drilldown_pie"), Some(ChartType::DrilldownPie)));
    assert!(matches!(chart_type_from_str("simple_map"), Some(ChartType::SimpleMap)));
    assert!(matches!(chart_type_from_str("advanced_map"), Some(ChartType::AdvancedMap)));
    assert!(matches!(chart_type_from_str("simple_bar"), Some(ChartType::SimpleBar)));
    assert!(matches!(chart_type_from_str("advanced_bar"), Some(ChartType::AdvancedBar)));
    assert!(chart_type_from_str("pie").is_none());
}

#[test]
fn the_threshold_crossing_request_is_rejected() {
    assert!(!is_ratelimited(1, 1));
    assert!(is_ratelimited(2, 1));
    assert!(!is_ratelimited(3, 3));
    assert!(is_ratelimited(4, 3));
}

#[test]
fn substring_search_finds_needles_anywhere() {
    assert!(str_contains("git-Paper-196 (MC: 1.20.1)", "MC:"));
    assert!(!str_contains("1.8", "MC:"));
    assert!(str_contains("abc", ""));
    assert!(!str_contains("", "abc"));
}
