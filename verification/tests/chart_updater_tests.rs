use std::collections::HashMap;

use data_processor::chart_updater::update_chart;
use data_processor::chart_updater::update_drilldown_pie_data;
use data_processor::chart_updater::update_map_data;
use data_processor::chart_updater::update_pie_data;
use data_processor::chart_updater::BatchCommand;
use data_processor::chart_updater::Pipeline;
use data_processor::charts::single_line_chart::SingleLineChart;
use data_processor::charts::single_line_chart::SingleLineChartFilter;
use data_processor::charts::Chart;
use data_processor::charts::ChartType;
use data_processor::json::JsonValue;
use data_processor::submit_data_schema::SubmitDataChartSchema;

fn apply(zsets: &mut HashMap<String, HashMap<String, i64>>, commands: Vec<BatchCommand>) {
    for command in commands {
        match command {
            BatchCommand::ZIncrBy { key, member, by } => {
                *zsets.entry(key).or_default().entry(member).or_insert(0) += by as i64;
            }
            BatchCommand::Expire { .. } => {}
            BatchCommand::HIncrBy { .. } => panic!("no line writes expected here"),
        }
    }
}

fn obj(entries: Vec<(&str, JsonValue)>) -> JsonValue {
    JsonValue::Object(
        entries
            .into_iter()
            .map(|(k, v)| (String::from(k), v))
            .collect(),
    )
}

fn chart(chart_type: ChartType, data: JsonValue, default: bool) -> Chart {
    Chart {
        id: 5,
        id_custom: String::from("my_chart"),
        chart_type,
        position: 0,
        title: String::from("My chart"),
        default,
        data,
        service_id: 7,
    }
}

fn submission(data: JsonValue) -> SubmitDataChartSchema {
    SubmitDataChartSchema {
        chart_id: String::from("my_chart"),
        data,
        trusted: false,
    }
}

#[test]
fn pie_data_commands_use_the_bucketed_key() {
    let mut pipeline = Pipeline::new();
    update_pie_data(7, 5, 100, "Paper", 1, &mut pipeline);
    assert_eq!(pipeline.commands.len(), 2);
    match &pipeline.commands[0] {
        BatchCommand::ZIncrBy { key, member, by } => {
            assert_eq!(key, "data:{7}.5.100");
            assert_eq!(member, "Paper");
            assert_eq!(*by, 1);
        }
        other => panic!("unexpected command {:?}", other),
    }
    match &pipeline.commands[1] {
        BatchCommand::Expire { key, seconds } => {
            assert_eq!(key, "data:{7}.5.100");
            assert_eq!(*seconds, 3660);
        }
        other => panic!("unexpected command {:?}", other),
    }
}

#[test]
fn drilldown_inner_sets_and_derived_parent_total() {
    // Submitting {"A": {"x": 2, "y": 3}} must increment the inner sorted
    // set by x=2 and y=3 under outer label A, and the parent set's A entry
    // by exactly 5, the sum of the inner counts.
    let mut pipeline = Pipeline::new();
    let values = vec![(String::from("x"), 2u16), (String::from("y"), 3u16)];
    update_drilldown_pie_data(7, 5, 100, "A", &values, &mut pipeline);
    let mut zsets = HashMap::new();
    apply(&mut zsets, pipeline.commands);
    assert_eq!(zsets["data:{7}.5.100.A"]["x"], 2);
    assert_eq!(zsets["data:{7}.5.100.A"]["y"], 3);
    assert_eq!(zsets["data:{7}.5.100"]["A"], 5);
}

#[test]
fn drilldown_chart_update_decodes_and_aggregates() {
    let c = chart(ChartType::DrilldownPie, JsonValue::Null, false);
    let payload = obj(vec![(
        "values",
        obj(vec![(
            "A",
            obj(vec![("x", JsonValue::Int(2)), ("y", JsonValue::Int(3))]),
        )]),
    )]);
    let mut pipeline = Pipeline::new();
    let line = update_chart(&c, &submission(payload), 100, None, &mut pipeline).unwrap();
    assert!(line.is_none());
    let mut zsets = HashMap::new();
    apply(&mut zsets, pipeline.commands);
    assert_eq!(zsets["data:{7}.5.100.A"]["x"], 2);
    assert_eq!(zsets["data:{7}.5.100.A"]["y"], 3);
    assert_eq!(zsets["data:{7}.5.100"]["A"], 5);
}

#[test]
fn simple_map_auto_uses_resolved_country() {
    // With label AUTO and a resolved country DE the DE member grows by one.
    let c = chart(ChartType::SimpleMap, JsonValue::Null, false);
    let payload = obj(vec![("value", JsonValue::Str(String::from("AUTO")))]);
    let mut pipeline = Pipeline::new();
    let line = update_chart(&c, &submission(payload), 100, Some("DE"), &mut pipeline).unwrap();
    assert!(line.is_none());
    let mut zsets = HashMap::new();
    apply(&mut zsets, pipeline.commands);
    assert_eq!(zsets["data:{7}.5.100"]["DE"], 1);
}

#[test]
fn simple_map_auto_without_country_touches_nothing() {
    let c = chart(ChartType::SimpleMap, JsonValue::Null, false);
    let payload = obj(vec![("value", JsonValue::Str(String::from("AUTO")))]);
    let mut pipeline = Pipeline::new();
    let line = update_chart(&c, &submission(payload), 100, None, &mut pipeline).unwrap();
    assert!(line.is_none());
    assert!(pipeline.commands.is_empty());
}

#[test]
fn map_data_is_stored_like_pie_data() {
    let mut as_map = Pipeline::new();
    update_map_data(7, 5, 100, "DE", 1, &mut as_map);
    let mut as_pie = Pipeline::new();
    update_pie_data(7, 5, 100, "DE", 1, &mut as_pie);
    assert_eq!(as_map.commands.len(), as_pie.commands.len());
}

#[test]
fn advanced_pie_increments_each_label_by_its_count() {
    let c = chart(ChartType::AdvancedPie, JsonValue::Null, false);
    let payload = obj(vec![(
        "values",
        obj(vec![("a", JsonValue::Int(4)), ("b", JsonValue::Int(9))]),
    )]);
    let mut pipeline = Pipeline::new();
    update_chart(&c, &submission(payload), 100, None, &mut pipeline).unwrap();
    let mut zsets = HashMap::new();
    apply(&mut zsets, pipeline.commands);
    assert_eq!(zsets["data:{7}.5.100"]["a"], 4);
    assert_eq!(zsets["data:{7}.5.100"]["b"], 9);
}

#[test]
fn line_chart_write_is_its_own_command() {
    let c = chart(ChartType::SingleLineChart, JsonValue::Null, false);
    let payload = obj(vec![("value", JsonValue::Int(50))]);
    let mut pipeline = Pipeline::new();
    let line = update_chart(&c, &submission(payload), 429206, None, &mut pipeline).unwrap();
    assert!(pipeline.commands.is_empty());
    match line.unwrap() {
        BatchCommand::HIncrBy { key, field, by } => {
            assert_eq!(key, "data:{5}.1");
            assert_eq!(field, 1721934000);
            assert_eq!(by, 50);
        }
        other => panic!("unexpected command {:?}", other),
    }
}

#[test]
fn line_chart_filter_blocks_values_outside_the_range() {
    let filter = obj(vec![(
        "filter",
        obj(vec![
            ("enabled", JsonValue::Bool(true)),
            ("maxValue", JsonValue::Int(200)),
            ("minValue", JsonValue::Int(0)),
        ]),
    )]);
    let c = chart(ChartType::SingleLineChart, filter, false);
    let payload = obj(vec![("value", JsonValue::Int(500))]);
    let mut pipeline = Pipeline::new();
    let line = update_chart(&c, &submission(payload), 100, None, &mut pipeline).unwrap();
    assert!(line.is_none());
    assert!(pipeline.commands.is_empty());

    let payload = obj(vec![("value", JsonValue::Int(150))]);
    let line = update_chart(&c, &submission(payload), 100, None, &mut pipeline).unwrap();
    assert!(line.is_some());
}

#[test]
fn undecodable_payload_reports_an_error_and_queues_nothing() {
    let c = chart(ChartType::AdvancedPie, JsonValue::Null, false);
    let payload = obj(vec![(
        "values",
        obj(vec![("a", JsonValue::Str(String::from("bad")))]),
    )]);
    let mut pipeline = Pipeline::new();
    let result = update_chart(&c, &submission(payload), 100, None, &mut pipeline);
    assert!(result.is_err());
    assert!(pipeline.commands.is_empty());

    let c = chart(ChartType::SimplePie, JsonValue::Null, false);
    let result = update_chart(&c, &submission(JsonValue::Null), 100, None, &mut pipeline);
    assert!(result.is_err());
    assert!(pipeline.commands.is_empty());
}

#[test]
fn bar_and_advanced_map_charts_are_accepted_without_aggregation() {
    for chart_type in [ChartType::AdvancedMap, ChartType::SimpleBar, ChartType::AdvancedBar] {
        let c = chart(chart_type, JsonValue::Null, false);
        let mut pipeline = Pipeline::new();
        let line = update_chart(&c, &submission(JsonValue::Null), 100, None, &mut pipeline)
            .unwrap();
        assert!(line.is_none());
        assert!(pipeline.commands.is_empty());
    }
}

#[test]
fn filter_blocks_only_when_enabled_and_out_of_range() {
    let filter = SingleLineChartFilter {
        enabled: true,
        max_value: Some(200),
        min_value: Some(0),
    };
    assert!(filter.should_block(&SingleLineChart { value: 201 }));
    assert!(filter.should_block(&SingleLineChart { value: -1 }));
    assert!(!filter.should_block(&SingleLineChart { value: 200 }));
    assert!(!filter.should_block(&SingleLineChart { value: 0 }));
    let disabled = SingleLineChartFilter { enabled: false, ..filter };
    assert!(!disabled.should_block(&SingleLineChart { value: 10000 }));
    let unbounded = SingleLineChartFilter {
        enabled: true,
        max_value: None,
        min_value: None,
    };
    assert!(!unbounded.should_block(&SingleLineChart { value: 10000 }));
}
