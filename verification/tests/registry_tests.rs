use gpop::registry::{build_element_info, sort_by_name, DetailLevel, FactoryData, PadDirection, PadPresence, PadTemplateData};

#[test]
fn test_invalid_detail_level() {
    let result = "invalid".parse::<DetailLevel>();
    assert!(result.is_err());
}

#[test]
fn test_detail_level_parse() {
    assert_eq!("none".parse::<DetailLevel>().unwrap(), DetailLevel::NameOnly);
    assert_eq!(
        "summary".parse::<DetailLevel>().unwrap(),
        DetailLevel::Summary
    );
    assert_eq!("full".parse::<DetailLevel>().unwrap(), DetailLevel::Full);
}

#[test]
fn detail_level_error_message() {
    assert_eq!(
        DetailLevel::parse("loud").unwrap_err(),
        "Invalid detail level: 'loud'. Expected 'none', 'summary', or 'full'"
    );
}

#[test]
fn detail_level_order() {
    assert!(DetailLevel::Full.at_least(DetailLevel::Summary));
    assert!(!DetailLevel::NameOnly.at_least(DetailLevel::Summary));
    assert_eq!(DetailLevel::NameOnly.max_level(DetailLevel::Summary), DetailLevel::Summary);
    assert_eq!(DetailLevel::Full.max_level(DetailLevel::Summary), DetailLevel::Full);
}

fn factory(name: &str) -> FactoryData {
    FactoryData {
        name: name.to_string(),
        plugin_name: Some("coreelements".to_string()),
        long_name: Some("Fake Sink".to_string()),
        klass: Some("Sink".to_string()),
        description: None,
        author: Some("A".to_string()),
        rank: 0,
        pad_templates: vec![PadTemplateData {
            name_template: "sink".to_string(),
            direction: PadDirection::Sink,
            presence: PadPresence::Always,
            caps: "ANY".to_string(),
        }],
    }
}

#[test]
fn element_info_by_detail() {
    let e = build_element_info(&factory("fakesink"), DetailLevel::NameOnly);
    assert_eq!(e.name, "fakesink");
    assert_eq!(e.plugin_name, "coreelements");
    assert!(e.long_name.is_none() && e.rank.is_none() && e.pad_templates.is_none());
    let e = build_element_info(&factory("fakesink"), DetailLevel::Summary);
    assert_eq!(e.long_name, Some("Fake Sink".to_string()));
    assert_eq!(e.description, Some(String::new()));
    assert_eq!(e.rank, Some(0));
    assert!(e.pad_templates.is_none());
    let e = build_element_info(&factory("fakesink"), DetailLevel::Full);
    let pads = e.pad_templates.unwrap();
    assert_eq!(pads.len(), 1);
    assert_eq!(pads[0].direction, "sink");
    assert_eq!(pads[0].presence, "always");
    assert_eq!(pads[0].caps, "ANY");
}

#[test]
fn listing_sorted_by_name() {
    let names = ["videotestsrc", "fakesink", "audioconvert", "fakesrc", "Zeta"];
    let elements = names.iter().map(|n| build_element_info(&factory(n), DetailLevel::NameOnly)).collect();
    let sorted: Vec<String> = sort_by_name(elements).into_iter().map(|e| e.name).collect();
    assert_eq!(sorted, vec!["Zeta", "audioconvert", "fakesink", "fakesrc", "videotestsrc"]);
}
