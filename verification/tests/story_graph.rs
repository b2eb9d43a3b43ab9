use component_routing::story_graph::{
    Intent, Module, ModuleData, ModuleOutput, SessionGraph, StoryGraph,
};

#[test]
fn module_pairs_id_with_data() {
    let module = Module::new("mod-id", ModuleData::new(Intent::new().with_action("SOME_ACTION")));
    assert_eq!(module.module_id, "mod-id");
    assert_eq!(
        module.module_data.last_intent,
        Intent::new().with_action("SOME_ACTION")
    );
}

#[test]
fn session_graph() {
    let mut session_graph = SessionGraph::new();
    assert_eq!(session_graph.story_count(), 0);
    assert!(session_graph.get_story_graph("story_x").is_none());
    assert!(session_graph.get_story_graph_mut("story_x").is_none());
    assert_eq!(session_graph.story_count(), 0);

    session_graph.new_story("story_x");
    assert!(session_graph.get_story_graph("story_x").is_some());
    assert!(session_graph.get_story_graph_mut("story_x").is_some());
    assert_eq!(session_graph.story_count(), 1);
}

#[test]
fn story_graph() {
    let mut story_graph = StoryGraph::new();
    assert_eq!(story_graph.get_module_count(), 0);

    let intent = Intent::new().with_action("SOME_ACTION");
    story_graph.add_module("mod-id", intent.clone());
    assert_eq!(story_graph.get_module_count(), 1);
    assert!(story_graph.get_module_data("mod-id").is_some());
    assert!(story_graph.get_module_data_mut("mod-id").is_some());

    let module_data = story_graph.get_module_data("mod-id").unwrap();
    assert_eq!(module_data.last_intent, intent);
}

#[test]
fn module_data() {
    let intent = Intent::new().with_action("SOME_ACTION");
    let mut module_data = ModuleData::new(intent.clone());
    assert_eq!(module_data.last_intent, intent);
    assert_eq!(module_data.created_timestamp(), module_data.last_modified_timestamp());
    assert_eq!(module_data.child_count(), 0);
    assert_eq!(module_data.output_count(), 0);
    let created_timestamp = module_data.created_timestamp();
    let mut timestamps = vec![module_data.last_modified_timestamp()];

    // Verify intents
    let new_intent = Intent::new().with_action("SOME_OTHER_ACTION");
    module_data.update_intent(new_intent.clone());
    assert_eq!(module_data.last_intent, new_intent);
    timestamps.push(module_data.last_modified_timestamp());

    // Verify children
    module_data.add_child("other-mod");
    assert!(module_data.has_child("other-mod"));
    timestamps.push(module_data.last_modified_timestamp());

    module_data.remove_child("other-mod");
    assert_eq!(module_data.child_count(), 0);
    timestamps.push(module_data.last_modified_timestamp());

    // Verify outputs
    module_data.update_output("some-output", Some("some-ref".to_string()));
    let output = module_data.get_output("some-output").unwrap();
    assert_eq!(output.entity_reference, "some-ref");
    assert_eq!(output.consumer_count(), 0);
    timestamps.push(module_data.last_modified_timestamp());

    module_data.add_output_consumer("some-output", "some-ref", "some_consumer_id", "some_type");
    let new_output = module_data.get_output("some-output").unwrap();
    assert!(new_output.consumer_count() > 0);
    timestamps.push(module_data.last_modified_timestamp());

    module_data.update_output("some-output", None);
    assert_eq!(module_data.output_count(), 0);
    timestamps.push(module_data.last_modified_timestamp());

    // Verify all timestamp changes are incremental and created timestamp wasn't updated.
    for i in 1..timestamps.len() {
        assert!(timestamps[i] > timestamps[i - 1]);
    }
    assert_eq!(module_data.created_timestamp(), created_timestamp);
}

#[test]
fn module_output() {
    let mut module_output = ModuleOutput::new("some-ref");
    assert_eq!(module_output.consumer_count(), 0);
    assert_eq!(module_output.entity_reference, "some-ref");

    module_output.add_consumer("some-consumer", "some-type");
    module_output.add_consumer("other-consumer", "some-type");
    assert_eq!(module_output.consumer_count(), 2);
    assert!(module_output.has_consumer("some-consumer", "some-type"));
    assert!(module_output.has_consumer("other-consumer", "some-type"));

    module_output.remove_consumer("some-consumer");
    assert_eq!(module_output.consumer_count(), 1);
    assert!(!module_output.has_consumer("some-consumer", "some-type"));
    assert!(module_output.has_consumer("other-consumer", "some-type"));
}

#[test]
fn add_consumer_is_idempotent() {
    let mut module_output = ModuleOutput::new("some-ref");
    module_output.add_consumer("some-consumer", "some-type");
    module_output.add_consumer("some-consumer", "some-type");
    assert_eq!(module_output.consumer_count(), 1);
}

#[test]
fn new_story_replaces_existing_story() {
    let mut session_graph = SessionGraph::new();
    session_graph.new_story("story_x");
    let graph = session_graph.get_story_graph_mut("story_x").unwrap();
    graph.add_module("mod-id", Intent::new());
    assert_eq!(session_graph.get_story_graph("story_x").unwrap().get_module_count(), 1);

    session_graph.new_story("story_x");
    assert_eq!(session_graph.story_count(), 1);
    assert_eq!(session_graph.get_story_graph("story_x").unwrap().get_module_count(), 0);
}

#[test]
fn get_all_modules_lists_entries() {
    let mut story_graph = StoryGraph::new();
    story_graph.add_module("first", Intent::new().with_action("A"));
    story_graph.add_module("second", Intent::new().with_action("B"));
    let all = story_graph.get_all_modules();
    assert_eq!(all.len(), 2);
    assert_eq!(all[0].0, "first");
    assert_eq!(all[1].0, "second");
}
