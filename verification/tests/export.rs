use poideck::clock::UtcInstant;
use poideck::command::Command;
use poideck::controller::{Controller, DaemonPoll, Event, PanelPoll};
use poideck::export::{assemble, bounds_from_row, node_for, Bounds, Node, OsmExport, PoiRow};
use poideck::fix::{Report, Speed};
use poideck::rules::{Rule, RuleError, RuleSet, Section, Tag};

fn tag(key: &str, value: &str) -> Tag {
    Tag { key: key.to_string(), value: value.to_string() }
}

fn rule(key: &str, value: Option<&str>) -> Rule {
    Rule { key: key.to_string(), value: value.map(|v| v.to_string()) }
}

fn section(name: &str, rules: Vec<Rule>) -> Section {
    Section { name: name.to_string(), rules }
}

fn row(id: &str, lat: &str, lon: &str, created: &str, category: &str) -> PoiRow {
    PoiRow {
        id: id.to_string(),
        lat: lat.to_string(),
        lon: lon.to_string(),
        created: created.to_string(),
        category: category.to_string(),
    }
}

fn point(lat: &str, lon: &str) -> Bounds {
    Bounds {
        minlat: lat.to_string(),
        minlon: lon.to_string(),
        maxlat: lat.to_string(),
        maxlon: lon.to_string(),
    }
}

fn some(text: &str) -> Option<String> {
    Some(text.to_string())
}

const RULES: &str = "[bench]\namenity = bench\n\n[fire_hydrant]\nemergency = fire_hydrant\nfire_hydrant:type = pillar\n";

#[test]
fn rule_file_is_read_section_by_section() {
    let rules = RuleSet::parse(RULES).unwrap();
    let expected = vec![
        section("bench", vec![rule("amenity", Some("bench"))]),
        section(
            "fire_hydrant",
            vec![rule("emergency", Some("fire_hydrant")), rule("fire_hydrant", Some("type = pillar"))],
        ),
    ];
    assert_eq!(rules, RuleSet { sections: expected });
}

#[test]
fn rule_file_keeps_file_order() {
    let text = "[z]\nzz = 1\naa = 2\nmm = 3\n[a]\nk = v\n[m]\n";
    let rules = RuleSet::parse(text).unwrap();
    let names: Vec<&str> = rules.sections.iter().map(|s| s.name.as_str()).collect();
    assert_eq!(names, vec!["z", "a", "m"]);
    assert_eq!(rules.tags_for("z"), Ok(vec![tag("zz", "1"), tag("aa", "2"), tag("mm", "3")]));
    assert_eq!(rules.tags_for("m"), Ok(vec![]));
}

#[test]
fn rule_file_has_no_comment_lines() {
    let rules = RuleSet::parse("[bench]\n#note = kept\n;other = kept too\n").unwrap();
    assert_eq!(rules.tags_for("bench"), Ok(vec![tag("#note", "kept"), tag(";other", "kept too")]));
}

#[test]
fn rule_file_names_are_lower_case() {
    let rules = RuleSet::parse("[Bench]\nAmenity = Bench\n").unwrap();
    assert_eq!(rules.tags_for("bench"), Ok(vec![tag("amenity", "Bench")]));
    assert_eq!(
        rules.tags_for("Bench"),
        Err(RuleError::MissingRule { category: "Bench".to_string() })
    );
}

#[test]
fn unreadable_rule_file_is_an_error() {
    match RuleSet::parse("[bench\namenity = bench\n") {
        Err(RuleError::Unreadable { message }) => assert!(!message.is_empty()),
        other => panic!("expected an unreadable rule file, got {:?}", other),
    }
    assert!(matches!(RuleSet::parse("[bench]\n= bench\n"), Err(RuleError::Unreadable { .. })));
}

#[test]
fn reader_results_are_wrapped_unchanged() {
    let sections = vec![section("bench", vec![rule("amenity", Some("bench"))])];
    let expected = RuleSet { sections: vec![section("bench", vec![rule("amenity", Some("bench"))])] };
    assert_eq!(RuleSet::from_parsed(Ok(sections)), Ok(expected));
    assert_eq!(
        RuleSet::from_parsed(Err("line 1: no".to_string())),
        Err(RuleError::Unreadable { message: "line 1: no".to_string() })
    );
}

#[test]
fn tags_come_from_the_first_section_of_the_name() {
    let rules = RuleSet {
        sections: vec![
            section("post-box", vec![rule("amenity", Some("post_box"))]),
            section("bench", vec![rule("amenity", Some("bench")), rule("backrest", Some("yes"))]),
            section("bench", vec![rule("amenity", Some("other"))]),
        ],
    };
    assert_eq!(rules.tags_for("bench"), Ok(vec![tag("amenity", "bench"), tag("backrest", "yes")]));
    assert_eq!(rules.tags_for("post-box"), Ok(vec![tag("amenity", "post_box")]));
}

#[test]
fn category_without_section_is_an_error() {
    let rules = RuleSet::parse(RULES).unwrap();
    assert_eq!(
        rules.tags_for("taxi"),
        Err(RuleError::MissingRule { category: "taxi".to_string() })
    );
    let none = RuleSet { sections: vec![] };
    assert_eq!(none.tags_for("bench"), Err(RuleError::MissingRule { category: "bench".to_string() }));
}

#[test]
fn key_without_value_is_an_error() {
    let rules = RuleSet::parse("[bench]\namenity = bench\nbackrest\nseats = 3\n").unwrap();
    assert_eq!(
        rules.tags_for("bench"),
        Err(RuleError::MissingValue { category: "bench".to_string(), key: "backrest".to_string() })
    );
}

#[test]
fn bounds_need_all_four_corners() {
    assert_eq!(
        bounds_from_row(some("1"), some("2"), some("3"), some("4")),
        Some(Bounds {
            minlat: "1".to_string(),
            minlon: "2".to_string(),
            maxlat: "3".to_string(),
            maxlon: "4".to_string(),
        })
    );
    assert_eq!(bounds_from_row(None, None, None, None), None);
    assert_eq!(bounds_from_row(None, some("2"), some("3"), some("4")), None);
    assert_eq!(bounds_from_row(some("1"), None, some("3"), some("4")), None);
    assert_eq!(bounds_from_row(some("1"), some("2"), None, some("4")), None);
    assert_eq!(bounds_from_row(some("1"), some("2"), some("3"), None), None);
}

#[test]
fn node_carries_the_row_and_its_tags() {
    let rules = RuleSet::parse(RULES).unwrap();
    let node = node_for(&row("7", "47.5", "19.05", "2023-11-14 22:13:20", "bench"), &rules);
    let expected = Node {
        lat: "47.5".to_string(),
        lon: "19.05".to_string(),
        id: "7".to_string(),
        created: "2023-11-14 22:13:20".to_string(),
        tags: vec![tag("amenity", "bench")],
    };
    assert_eq!(node, Ok(expected));
}

#[test]
fn export_without_records_is_empty() {
    let rules = RuleSet::parse(RULES).unwrap();
    let bounds = bounds_from_row(None, None, None, None);
    assert_eq!(assemble(bounds, &Vec::new(), &rules), Ok(OsmExport { bounds: None, nodes: vec![] }));
}

#[test]
fn export_without_bounds_does_not_look_at_rows() {
    let rules = RuleSet { sections: vec![] };
    let rows = vec![row("1", "1", "1", "now", "unknown")];
    assert_eq!(assemble(None, &rows, &rules), Ok(OsmExport { bounds: None, nodes: vec![] }));
}

#[test]
fn export_has_one_node_per_row_in_row_order() {
    let rules = RuleSet::parse(RULES).unwrap();
    let rows = vec![
        row("1", "47.5", "19.05", "2023-11-14 22:13:20", "bench"),
        row("2", "47.6", "19.00", "2023-11-14 22:14:00", "fire_hydrant"),
        row("3", "47.4", "19.10", "2023-11-15 08:00:00", "bench"),
    ];
    let bounds = Bounds {
        minlat: "47.4".to_string(),
        minlon: "19.00".to_string(),
        maxlat: "47.6".to_string(),
        maxlon: "19.10".to_string(),
    };
    let export = assemble(bounds_from_row(some("47.4"), some("19.00"), some("47.6"), some("19.10")), &rows, &rules)
        .unwrap();
    assert_eq!(export.bounds, Some(bounds));
    let ids: Vec<&str> = export.nodes.iter().map(|n| n.id.as_str()).collect();
    assert_eq!(ids, vec!["1", "2", "3"]);
    assert_eq!(export.nodes[0].tags, vec![tag("amenity", "bench")]);
    assert_eq!(
        export.nodes[1].tags,
        vec![tag("emergency", "fire_hydrant"), tag("fire_hydrant", "type = pillar")]
    );
    assert_eq!(export.nodes[2].lat, "47.4");
    assert_eq!(export.nodes[2].lon, "19.10");
    assert_eq!(export.nodes[2].created, "2023-11-15 08:00:00");
}

#[test]
fn export_fails_on_the_first_row_without_rule() {
    let rules = RuleSet::parse("[bench]\namenity = bench\n[stop]\nhighway\n").unwrap();
    let rows = vec![
        row("1", "1", "1", "t", "bench"),
        row("2", "2", "2", "t", "taxi"),
        row("3", "3", "3", "t", "stop"),
    ];
    assert_eq!(
        assemble(Some(point("1", "1")), &rows, &rules),
        Err(RuleError::MissingRule { category: "taxi".to_string() })
    );
    let rows = vec![row("3", "3", "3", "t", "stop"), row("2", "2", "2", "t", "taxi")];
    assert_eq!(
        assemble(Some(point("1", "1")), &rows, &rules),
        Err(RuleError::MissingValue { category: "stop".to_string(), key: "highway".to_string() })
    );
}

#[test]
fn recorded_bench_comes_out_as_one_tagged_node() {
    let mut ctl = Controller::new(vec!["taxi".to_string(), "bench".to_string()]).unwrap();
    let report = Report::Fix3D {
        lat: 47.5f64.to_bits(),
        lon: 19.05f64.to_bits(),
        time: UtcInstant::from_epoch_seconds(1_700_000_000).unwrap(),
        speed: Speed { mps: 0.0f64.to_bits(), kmh: 0 },
    };
    ctl.step(Event::Wake);
    ctl.step(Event::Daemon(DaemonPoll::Response(report)));
    let mut states = vec![0u8; 15];
    states[1] = 1;
    let step = ctl.step(Event::Panel(PanelPoll::Buttons(states)));
    assert_eq!(step.fault, None);
    assert_eq!(step.commands.len(), 2);

    // What a store does with the insert: keep the values, number the row.
    let stored = match &step.commands[0] {
        Command::InsertPoi { draft } => {
            assert_eq!(draft.category, "bench");
            assert_eq!(draft.epoch_seconds, 1_700_000_000);
            row(
                "1",
                &format!("{}", f64::from_bits(draft.lat)),
                &format!("{}", f64::from_bits(draft.lon)),
                "2023-11-14 22:13:21",
                &draft.category,
            )
        }
        other => panic!("expected an insert, got {:?}", other),
    };
    assert_eq!(stored.lat, "47.5");
    assert_eq!(stored.lon, "19.05");
    let bounds = bounds_from_row(some("47.5"), some("19.05"), some("47.5"), some("19.05"));

    let rules = RuleSet::parse("[bench]\namenity = bench\n").unwrap();
    let export = assemble(bounds, &vec![stored], &rules).unwrap();
    assert_eq!(export.bounds, Some(point("47.5", "19.05")));
    let expected = Node {
        lat: "47.5".to_string(),
        lon: "19.05".to_string(),
        id: "1".to_string(),
        created: "2023-11-14 22:13:21".to_string(),
        tags: vec![tag("amenity", "bench")],
    };
    assert_eq!(export.nodes, vec![expected]);
}
