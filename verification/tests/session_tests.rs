use std::collections::HashMap;

use data_processor::chart_updater::BatchCommand;
use data_processor::charts::ChartHash;
use data_processor::charts::ChartType;
use data_processor::charts::DefaultChartTemplate;
use data_processor::data_submission::Action;
use data_processor::data_submission::Event;
use data_processor::data_submission::Session;
use data_processor::data_submission::Step;
use data_processor::data_submission::SubmissionOutcome;
use data_processor::json::JsonValue;
use data_processor::legacy_data_submission::legacy_plugin_lookup_key;
use data_processor::legacy_data_submission::legacy_plugin_submission;
use data_processor::legacy_data_submission::LegacySubmitDataServiceSchema;
use data_processor::submit_data_schema::SubmitDataChartSchema;
use data_processor::submit_data_schema::SubmitDataSchema;
use data_processor::submit_data_schema::SubmitDataServiceSchema;

/// A tiny in-memory stand-in for the store and the outside collaborators.
#[derive(Default)]
struct FakeWorld {
    values: HashMap<String, String>,
    hashes: HashMap<String, Vec<(String, String)>>,
    counters: HashMap<String, u64>,
    zsets: HashMap<String, HashMap<String, i64>>,
    line_hashes: HashMap<String, HashMap<i64, i64>>,
    templates: HashMap<String, Vec<DefaultChartTemplate>>,
    charts: HashMap<String, ChartHash>,
    countries: HashMap<String, (String, Option<String>)>,
}

fn apply(world: &mut FakeWorld, command: BatchCommand) {
    match command {
        BatchCommand::ZIncrBy { key, member, by } => {
            *world.zsets.entry(key).or_default().entry(member).or_insert(0) += by as i64;
        }
        BatchCommand::Expire { .. } => {}
        BatchCommand::HIncrBy { key, field, by } => {
            *world.line_hashes.entry(key).or_default().entry(field).or_insert(0) += by;
        }
    }
}

fn drive(
    world: &mut FakeWorld,
    url: &str,
    data: SubmitDataSchema,
    is_global: bool,
    ip: &str,
    tms2000: i64,
    serialized: &str,
    blocklist: &Vec<String>,
) -> SubmissionOutcome {
    let (mut session, mut step) = Session::start(
        String::from(url),
        data,
        is_global,
        String::from(ip),
        tms2000,
        serialized,
        blocklist,
    );
    loop {
        let action = match step {
            Step::Done(outcome) => return outcome,
            Step::Ask(action) => action,
        };
        let event = match action {
            Action::Get { key } => Event::Value(world.values.get(&key).cloned()),
            Action::HashGetAll { key } => {
                Event::Hash(world.hashes.get(&key).cloned().unwrap_or_default())
            }
            Action::DecodeTemplates { json } => {
                Event::Templates(world.templates.get(&json).cloned())
            }
            Action::IncrAndExpire { key, .. } => {
                let counter = world.counters.entry(key).or_insert(0);
                *counter += 1;
                Event::Count(*counter)
            }
            Action::FetchCharts { keys } => Event::Charts(
                keys.iter().map(|key| world.charts.get(key).cloned()).collect(),
            ),
            Action::ResolveCountry { ip } => Event::Country(world.countries.get(&ip).cloned()),
            Action::Forward { submission } => {
                let _ = drive(world, url, submission, true, ip, tms2000, "", &vec![]);
                Event::Forwarded
            }
            Action::Commit { line_writes, batch } => {
                for command in line_writes {
                    apply(world, command);
                }
                for command in batch {
                    apply(world, command);
                }
                Event::Committed
            }
        };
        let next = session.step(event);
        session = next.0;
        step = next.1;
    }
}

fn field(key: &str, value: &str) -> (String, String) {
    (String::from(key), String::from(value))
}

fn pie_chart_record(id_custom: &str, service_id: &str, default: bool) -> ChartHash {
    ChartHash {
        id_custom: Some(String::from(id_custom)),
        chart_type: Some(String::from("simple_pie")),
        position: Some(String::from("0")),
        title: Some(String::from("A pie")),
        default: Some(String::from(if default { "1" } else { "0" })),
        data: Some(JsonValue::Null),
        service_id: Some(String::from(service_id)),
    }
}

fn predefined_template(id: &str, value: &str) -> DefaultChartTemplate {
    DefaultChartTemplate {
        id: String::from(id),
        chart_type: ChartType::SimplePie,
        title: String::from("A pie"),
        data: JsonValue::Null,
        request_parser: JsonValue::Object(vec![(
            String::from("predefinedValue"),
            JsonValue::Object(vec![(
                String::from("value"),
                JsonValue::Str(String::from(value)),
            )]),
        )]),
    }
}

/// A tenant `bukkit` (id 1, cap 3 per address) owning service 1337 with
/// chart 24.
fn setup_basic(world: &mut FakeWorld) {
    world
        .values
        .insert(String::from("software.index.id.url:bukkit"), String::from("1"));
    world.hashes.insert(
        String::from("software:1"),
        vec![
            field("name", "Bukkit / Spigot"),
            field("url", "bukkit"),
            field("maxRequestsPerIp", "3"),
            field("defaultCharts", "tpl-basic"),
        ],
    );
    world.templates.insert(
        String::from("tpl-basic"),
        vec![predefined_template("servers", "online")],
    );
    world.hashes.insert(
        String::from("plugins:1337"),
        vec![
            field("name", "TestPlugin"),
            field("owner", "Admin"),
            field("software", "1"),
            field("charts", "[24]"),
        ],
    );
    world
        .charts
        .insert(String::from("charts:24"), pie_chart_record("servers", "1337", true));
}

fn submission(service_id: u32, server_uuid: &str) -> SubmitDataSchema {
    SubmitDataSchema {
        server_uuid: String::from(server_uuid),
        metrics_version: Some(String::from("3.0.2")),
        service: SubmitDataServiceSchema {
            id: service_id,
            custom_charts: None,
            extra: vec![],
        },
        extra: vec![],
    }
}

const T: i64 = 429206;

#[test]
fn accepted_submission_aggregates_the_default_chart() {
    let mut world = FakeWorld::default();
    setup_basic(&mut world);
    let outcome = drive(
        &mut world,
        "bukkit",
        submission(1337, "uuid-1"),
        false,
        "127.0.0.1",
        T,
        "",
        &vec![],
    );
    assert_eq!(outcome, SubmissionOutcome::Accepted);
    assert_eq!(world.zsets["data:{1337}.24.429206"]["online"], 1);
}

#[test]
fn unknown_tenant_is_not_found() {
    let mut world = FakeWorld::default();
    setup_basic(&mut world);
    let outcome = drive(
        &mut world,
        "unknown",
        submission(1337, "uuid-1"),
        false,
        "127.0.0.1",
        T,
        "",
        &vec![],
    );
    assert_eq!(outcome, SubmissionOutcome::NotFound);
}

#[test]
fn unknown_service_is_not_found() {
    let mut world = FakeWorld::default();
    setup_basic(&mut world);
    let outcome = drive(
        &mut world,
        "bukkit",
        submission(4242, "uuid-1"),
        false,
        "127.0.0.1",
        T,
        "",
        &vec![],
    );
    assert_eq!(outcome, SubmissionOutcome::NotFound);
}

#[test]
fn blocklisted_submission_is_accepted_without_any_effect() {
    let mut world = FakeWorld::default();
    setup_basic(&mut world);
    let blocklist = vec![String::from("badword")];
    let outcome = drive(
        &mut world,
        "bukkit",
        submission(1337, "uuid-1"),
        false,
        "127.0.0.1",
        T,
        "{\"serverUUID\":\"uuid-1 badword\"}",
        &blocklist,
    );
    assert_eq!(outcome, SubmissionOutcome::Accepted);
    assert!(world.zsets.is_empty());
    assert!(world.counters.is_empty());
}

#[test]
fn ratelimits_reject_the_crossing_request_per_dimension() {
    // Cap 3 per address: four submissions from one address with distinct
    // server identifiers — the fourth is rejected. A fifth reusing the
    // first server identifier is rejected by the per-server dimension,
    // before the per-address counter is even touched.
    let mut world = FakeWorld::default();
    setup_basic(&mut world);
    let uuids = ["server-uuid-1", "server-uuid-2", "server-uuid-3", "server-uuid-4"];
    for (i, uuid) in uuids.iter().enumerate() {
        let outcome = drive(
            &mut world,
            "bukkit",
            submission(1337, uuid),
            false,
            "127.0.0.1",
            T,
            "",
            &vec![],
        );
        if i < 3 {
            assert_eq!(outcome, SubmissionOutcome::Accepted, "submission {}", i);
        } else {
            assert_eq!(outcome, SubmissionOutcome::TooManyRequests, "submission {}", i);
        }
    }
    let ip_key = "ratelimit:1337#127.0.0.1:bukkit:429206";
    assert_eq!(world.counters[ip_key], 4);
    let outcome = drive(
        &mut world,
        "bukkit",
        submission(1337, "server-uuid-1"),
        false,
        "127.0.0.1",
        T,
        "",
        &vec![],
    );
    assert_eq!(outcome, SubmissionOutcome::TooManyRequests);
    // The per-address counter was not touched by the fifth submission.
    assert_eq!(world.counters[ip_key], 4);
}

#[test]
fn untrusted_custom_chart_matching_a_default_chart_is_dropped() {
    // Chart 24 is flagged as a default chart. A client-declared submission
    // addressed to its custom id must leave the aggregate unchanged, and
    // the run must be otherwise side-effect free on the aggregates.
    let mut world = FakeWorld::default();
    setup_basic(&mut world);
    // Remove the default template so only the custom chart could write.
    world.templates.insert(String::from("tpl-basic"), vec![]);
    let mut data = submission(1337, "uuid-1");
    data.service.custom_charts = Some(vec![SubmitDataChartSchema {
        chart_id: String::from("servers"),
        data: JsonValue::Object(vec![(
            String::from("value"),
            JsonValue::Str(String::from("forged")),
        )]),
        trusted: false,
    }]);
    let outcome = drive(&mut world, "bukkit", data, false, "127.0.0.1", T, "", &vec![]);
    assert_eq!(outcome, SubmissionOutcome::Accepted);
    assert!(world.zsets.is_empty());
    assert!(world.line_hashes.is_empty());
}

#[test]
fn direct_submission_to_a_global_service_is_a_bad_request() {
    let mut world = FakeWorld::default();
    setup_basic(&mut world);
    world.hashes.insert(
        String::from("plugins:99"),
        vec![
            field("name", "Global"),
            field("owner", "Admin"),
            field("software", "1"),
            field("global", "1"),
            field("charts", "[25]"),
        ],
    );
    let outcome = drive(
        &mut world,
        "bukkit",
        submission(99, "uuid-1"),
        false,
        "127.0.0.1",
        T,
        "",
        &vec![],
    );
    assert_eq!(outcome, SubmissionOutcome::BadRequest);
}

#[test]
fn global_forward_updates_both_services_exactly_once() {
    // The tenant declares companion service 99; one client request to
    // service 1337 must produce aggregate updates for both services,
    // exactly once each.
    let mut world = FakeWorld::default();
    setup_basic(&mut world);
    world.hashes.insert(
        String::from("software:1"),
        vec![
            field("name", "Bukkit / Spigot"),
            field("url", "bukkit"),
            field("maxRequestsPerIp", "3"),
            field("globalPlugin", "99"),
            field("defaultCharts", "tpl-basic"),
        ],
    );
    world.hashes.insert(
        String::from("plugins:99"),
        vec![
            field("name", "Global"),
            field("owner", "Admin"),
            field("software", "1"),
            field("global", "1"),
            field("charts", "[25]"),
        ],
    );
    world
        .charts
        .insert(String::from("charts:25"), pie_chart_record("servers", "99", true));
    let outcome = drive(
        &mut world,
        "bukkit",
        submission(1337, "uuid-1"),
        false,
        "127.0.0.1",
        T,
        "",
        &vec![],
    );
    assert_eq!(outcome, SubmissionOutcome::Accepted);
    assert_eq!(world.zsets["data:{1337}.24.429206"]["online"], 1);
    assert_eq!(world.zsets["data:{99}.25.429206"]["online"], 1);
}

#[test]
fn name_in_request_parser_reads_the_submission_extras() {
    let mut world = FakeWorld::default();
    setup_basic(&mut world);
    world.templates.insert(
        String::from("tpl-basic"),
        vec![DefaultChartTemplate {
            id: String::from("servers"),
            chart_type: ChartType::SimplePie,
            title: String::from("A pie"),
            data: JsonValue::Null,
            request_parser: JsonValue::Object(vec![
                (
                    String::from("nameInRequest"),
                    JsonValue::Str(String::from("osArch")),
                ),
                (String::from("position"), JsonValue::Str(String::from("global"))),
            ]),
        }],
    );
    let mut data = submission(1337, "uuid-1");
    data.extra = vec![(
        String::from("osArch"),
        JsonValue::Object(vec![(String::from("value"), JsonValue::Str(String::from("amd64")))]),
    )];
    let outcome = drive(&mut world, "bukkit", data, false, "127.0.0.1", T, "", &vec![]);
    assert_eq!(outcome, SubmissionOutcome::Accepted);
    assert_eq!(world.zsets["data:{1337}.24.429206"]["amd64"], 1);
}

#[test]
fn a_line_chart_write_runs_outside_the_batch() {
    let mut world = FakeWorld::default();
    setup_basic(&mut world);
    world.templates.insert(
        String::from("tpl-basic"),
        vec![DefaultChartTemplate {
            id: String::from("players"),
            chart_type: ChartType::SingleLineChart,
            title: String::from("Players"),
            data: JsonValue::Null,
            request_parser: JsonValue::Object(vec![(
                String::from("predefinedValue"),
                JsonValue::Object(vec![(String::from("value"), JsonValue::Int(10))]),
            )]),
        }],
    );
    world.charts.insert(
        String::from("charts:24"),
        ChartHash {
            id_custom: Some(String::from("players")),
            chart_type: Some(String::from("single_linechart")),
            position: Some(String::from("0")),
            title: Some(String::from("Players")),
            default: Some(String::from("1")),
            data: Some(JsonValue::Null),
            service_id: Some(String::from("1337")),
        },
    );
    let outcome = drive(
        &mut world,
        "bukkit",
        submission(1337, "uuid-1"),
        false,
        "127.0.0.1",
        T,
        "",
        &vec![],
    );
    assert_eq!(outcome, SubmissionOutcome::Accepted);
    assert!(world.zsets.is_empty());
    assert_eq!(world.line_hashes["data:{24}.1"][&1721934000], 10);
}

#[test]
fn an_ordinary_custom_chart_is_aggregated() {
    let mut world = FakeWorld::default();
    setup_basic(&mut world);
    world.templates.insert(String::from("tpl-basic"), vec![]);
    world
        .charts
        .insert(String::from("charts:24"), pie_chart_record("servers", "1337", false));
    let mut data = submission(1337, "uuid-1");
    data.service.custom_charts = Some(vec![SubmitDataChartSchema {
        chart_id: String::from("servers"),
        data: JsonValue::Object(vec![(
            String::from("value"),
            JsonValue::Str(String::from("mine")),
        )]),
        trusted: false,
    }]);
    let outcome = drive(&mut world, "bukkit", data, false, "127.0.0.1", T, "", &vec![]);
    assert_eq!(outcome, SubmissionOutcome::Accepted);
    assert_eq!(world.zsets["data:{1337}.24.429206"]["mine"], 1);
}

#[test]
fn an_unreadable_tenant_index_is_an_internal_error() {
    let mut world = FakeWorld::default();
    setup_basic(&mut world);
    world
        .values
        .insert(String::from("software.index.id.url:bukkit"), String::from("nonsense"));
    let outcome = drive(
        &mut world,
        "bukkit",
        submission(1337, "uuid-1"),
        false,
        "127.0.0.1",
        T,
        "",
        &vec![],
    );
    assert_eq!(outcome, SubmissionOutcome::InternalError);
}

#[test]
fn an_undecodable_template_document_is_an_internal_error() {
    let mut world = FakeWorld::default();
    setup_basic(&mut world);
    world.templates.remove("tpl-basic");
    let outcome = drive(
        &mut world,
        "bukkit",
        submission(1337, "uuid-1"),
        false,
        "127.0.0.1",
        T,
        "",
        &vec![],
    );
    assert_eq!(outcome, SubmissionOutcome::InternalError);
}

#[test]
fn legacy_parts_resolve_ids_and_reshape() {
    let plugin = LegacySubmitDataServiceSchema {
        id: None,
        plugin_name: Some(String::from("MyPlugin")),
        custom_charts: None,
        extra: vec![],
    };
    let key = legacy_plugin_lookup_key(&plugin, "bukkit").unwrap();
    assert_eq!(key, "plugins.index.id.url+name:bukkit.myplugin");

    let server_uuid = String::from("uuid-1");
    let extra = vec![(String::from("osArch"), JsonValue::Str(String::from("amd64")))];
    let reshaped = legacy_plugin_submission(&server_uuid, &extra, plugin, Some(1337)).unwrap();
    assert_eq!(reshaped.service.id, 1337);
    assert_eq!(reshaped.server_uuid, "uuid-1");
    assert_eq!(reshaped.metrics_version, None);

    let nameless = LegacySubmitDataServiceSchema {
        id: None,
        plugin_name: None,
        custom_charts: None,
        extra: vec![],
    };
    assert!(legacy_plugin_lookup_key(&nameless, "bukkit").is_none());
    assert!(legacy_plugin_submission(&server_uuid, &extra, nameless, None).is_none());

    let with_id = LegacySubmitDataServiceSchema {
        id: Some(7),
        plugin_name: None,
        custom_charts: None,
        extra: vec![],
    };
    assert!(legacy_plugin_lookup_key(&with_id, "bukkit").is_none());
    let reshaped = legacy_plugin_submission(&server_uuid, &extra, with_id, None).unwrap();
    assert_eq!(reshaped.service.id, 7);
}
