use pmx_output_setup::{
    partition_ports, App, AppError, AppFlags, AppMessage, Command, ListPort, MixerOutput,
    PmxOutput, PortDirection, UpdateOutputPortAssignmentsRequest,
};

fn port(path: &str, direction: PortDirection) -> ListPort {
    ListPort { path: path.to_string(), direction, node_id: 7 }
}

fn output(id: u32, name: &str, left: Option<&str>, right: Option<&str>) -> PmxOutput {
    PmxOutput {
        id,
        name: name.to_string(),
        left_port_path: left.map(|s| s.to_string()),
        right_port_path: right.map(|s| s.to_string()),
    }
}

fn flags() -> AppFlags {
    AppFlags {
        port_registry_url: "http://ports:50001".to_string(),
        pmx_registry_url: "http://pmx:50002".to_string(),
    }
}

fn catalog_ports() -> Vec<ListPort> {
    vec![
        port("/a/in1", PortDirection::In),
        port("/a/out1", PortDirection::Out),
        port("/b/in2", PortDirection::In),
    ]
}

fn loaded(outputs: Vec<PmxOutput>, ports: Vec<ListPort>) -> App {
    let (mut app, _) = App::new(flags());
    let r = app.update(AppMessage::LoadInputsCompleted((outputs, ports)));
    assert!(matches!(r, Ok(Command::Idle)));
    app
}

fn strings(v: &[&str]) -> Vec<String> {
    v.iter().map(|s| s.to_string()).collect()
}

fn same_state(a: &MixerOutput, b: &MixerOutput) -> bool {
    a.pmx_output_id == b.pmx_output_id
        && a.name == b.name
        && a.selected_left_in_port_path == b.selected_left_in_port_path
        && a.selected_right_in_port_path == b.selected_right_in_port_path
        && a.saved == b.saved
}

#[test]
fn load_scenario_one_output_three_ports() {
    let app = loaded(vec![output(1, "Main", None, None)], catalog_ports());
    assert_eq!(app.outputs.len(), 1);
    let o = &app.outputs[0];
    assert_eq!(o.pmx_output_id, 1);
    assert_eq!(o.name, "Main");
    assert_eq!(o.selected_left_in_port_path, None);
    assert_eq!(o.selected_right_in_port_path, None);
    assert!(o.saved);
    assert_eq!(app.pipewire_in_port_paths, strings(&["/a/in1", "/b/in2"]));
    assert_eq!(app.pipewire_out_port_paths, strings(&["/a/out1"]));
}

#[test]
fn select_left_scenario_commits_both_fields() {
    let mut app = loaded(vec![output(1, "Main", None, None)], catalog_ports());
    let r = app.update(AppMessage::LeftPortSelected((1, "/a/in1".to_string())));
    assert_eq!(app.outputs[0].selected_left_in_port_path, Some("/a/in1".to_string()));
    assert_eq!(app.outputs[0].selected_right_in_port_path, None);
    match r {
        Ok(Command::Commit { registry_url, request }) => {
            assert_eq!(registry_url, "http://pmx:50002");
            assert_eq!(request.id, 1);
            assert_eq!(request.left_port_path, Some("/a/in1".to_string()));
            assert_eq!(request.right_port_path, None);
        }
        other => panic!("unexpected result {:?}", other),
    }
}

#[test]
fn partition_keeps_every_path_once_in_order() {
    let ports = vec![
        port("/x/out1", PortDirection::Out),
        port("/x/in1", PortDirection::In),
        port("/x/out2", PortDirection::Out),
        port("/y/in2", PortDirection::In),
        port("/y/in3", PortDirection::In),
    ];
    let c = partition_ports(&ports);
    assert_eq!(c.in_port_paths, strings(&["/x/in1", "/y/in2", "/y/in3"]));
    assert_eq!(c.out_port_paths, strings(&["/x/out1", "/x/out2"]));
    assert_eq!(c.in_port_paths.len() + c.out_port_paths.len(), ports.len());
}

#[test]
fn partition_of_no_ports_is_empty() {
    let c = partition_ports(&Vec::new());
    assert!(c.in_port_paths.is_empty());
    assert!(c.out_port_paths.is_empty());
}

#[test]
fn initialize_twice_gives_the_same_model() {
    let outputs = vec![
        output(1, "Main", Some("/a/in1"), None),
        output(2, "Monitor", None, Some("/b/in2")),
    ];
    let mut app = loaded(outputs.clone(), catalog_ports());
    let first: Vec<MixerOutput> = app.outputs.clone();
    app.select_right(1, "/b/in2".to_string()).unwrap();
    app.initialize(&outputs, &catalog_ports());
    app.initialize(&outputs, &catalog_ports());
    assert_eq!(app.outputs.len(), first.len());
    for (a, b) in app.outputs.iter().zip(first.iter()) {
        assert!(same_state(a, b));
    }
    assert_eq!(app.pipewire_in_port_paths, strings(&["/a/in1", "/b/in2"]));
    assert_eq!(app.pipewire_out_port_paths, strings(&["/a/out1"]));
}

#[test]
fn initialize_replaces_earlier_outputs() {
    let mut app = loaded(vec![output(1, "Main", None, None)], catalog_ports());
    app.initialize(&vec![output(5, "Aux", Some("/b/in2"), Some("/a/in1"))], &Vec::new());
    assert_eq!(app.outputs.len(), 1);
    assert_eq!(app.outputs[0].pmx_output_id, 5);
    assert_eq!(app.outputs[0].selected_left_in_port_path, Some("/b/in2".to_string()));
    assert_eq!(app.outputs[0].selected_right_in_port_path, Some("/a/in1".to_string()));
    assert!(app.pipewire_in_port_paths.is_empty());
    assert!(app.pipewire_out_port_paths.is_empty());
}

#[test]
fn select_left_leaves_right_fields_alone() {
    let mut app = loaded(
        vec![
            output(1, "Main", Some("/a/in1"), Some("/b/in2")),
            output(2, "Monitor", Some("/b/in2"), Some("/a/in1")),
        ],
        catalog_ports(),
    );
    let other_before = app.outputs[1].clone();
    let snap = app.select_left(1, "/b/in2".to_string()).unwrap();
    assert_eq!(snap.selected_left_in_port_path, Some("/b/in2".to_string()));
    assert_eq!(snap.selected_right_in_port_path, Some("/b/in2".to_string()));
    assert_eq!(app.outputs[0].selected_right_in_port_path, Some("/b/in2".to_string()));
    assert!(same_state(&app.outputs[1], &other_before));
}

#[test]
fn select_right_leaves_left_fields_alone() {
    let mut app = loaded(
        vec![
            output(1, "Main", Some("/a/in1"), None),
            output(2, "Monitor", Some("/b/in2"), None),
        ],
        catalog_ports(),
    );
    let other_before = app.outputs[0].clone();
    let snap = app.select_right(2, "/a/in1".to_string()).unwrap();
    assert_eq!(snap.pmx_output_id, 2);
    assert_eq!(snap.selected_left_in_port_path, Some("/b/in2".to_string()));
    assert_eq!(snap.selected_right_in_port_path, Some("/a/in1".to_string()));
    assert_eq!(app.outputs[1].selected_left_in_port_path, Some("/b/in2".to_string()));
    assert!(same_state(&app.outputs[0], &other_before));
}

#[test]
fn right_commit_resends_previous_left() {
    let mut app = loaded(vec![output(3, "Phones", Some("/a/in1"), None)], catalog_ports());
    match app.update(AppMessage::RightPortSelected((3, "/b/in2".to_string()))) {
        Ok(Command::Commit { request, .. }) => {
            assert_eq!(request.id, 3);
            assert_eq!(request.left_port_path, Some("/a/in1".to_string()));
            assert_eq!(request.right_port_path, Some("/b/in2".to_string()));
        }
        other => panic!("unexpected result {:?}", other),
    }
}

#[test]
fn unknown_id_is_not_found_and_changes_nothing() {
    let mut app = loaded(vec![output(1, "Main", Some("/a/in1"), None)], catalog_ports());
    let before = app.outputs[0].clone();
    assert!(matches!(app.select_left(9, "/b/in2".to_string()), Err(AppError::NotFound)));
    assert!(matches!(app.select_right(9, "/b/in2".to_string()), Err(AppError::NotFound)));
    assert_eq!(app.apply_commit_result(9), Err(AppError::NotFound));
    assert!(matches!(
        app.update(AppMessage::LeftPortSelected((9, "/b/in2".to_string()))),
        Err(AppError::NotFound)
    ));
    assert!(matches!(app.update(AppMessage::PortSaved(9)), Err(AppError::NotFound)));
    assert_eq!(app.outputs.len(), 1);
    assert!(same_state(&app.outputs[0], &before));
}

#[test]
fn selection_before_load_is_not_found() {
    let (mut app, _) = App::new(flags());
    assert!(matches!(
        app.update(AppMessage::RightPortSelected((1, "/a/in1".to_string()))),
        Err(AppError::NotFound)
    ));
    assert!(app.outputs.is_empty());
}

#[test]
fn edit_marks_unsaved_until_commit_confirmed() {
    let mut app = loaded(vec![output(1, "Main", None, None)], catalog_ports());
    app.update(AppMessage::LeftPortSelected((1, "/a/in1".to_string()))).unwrap();
    assert!(!app.outputs[0].saved);
    assert!(matches!(app.update(AppMessage::PortSaved(1)), Ok(Command::Idle)));
    assert!(app.outputs[0].saved);
    assert_eq!(app.outputs[0].selected_left_in_port_path, Some("/a/in1".to_string()));
}

#[test]
fn duplicate_ids_edit_the_first_output() {
    let mut app = loaded(
        vec![output(4, "First", None, None), output(4, "Second", None, None)],
        catalog_ports(),
    );
    let snap = app.select_left(4, "/a/in1".to_string()).unwrap();
    assert_eq!(snap.name, "First");
    assert_eq!(app.outputs[1].selected_left_in_port_path, None);
}

#[test]
fn new_asks_for_the_load() {
    let (app, command) = App::new(flags());
    assert!(app.outputs.is_empty());
    assert_eq!(app.flags.pmx_registry_url, "http://pmx:50002");
    match command {
        Command::LoadInputs { pmx_registry_url, port_registry_url } => {
            assert_eq!(pmx_registry_url, "http://pmx:50002");
            assert_eq!(port_registry_url, "http://ports:50001");
        }
        other => panic!("unexpected command {:?}", other),
    }
}

#[test]
fn title_names_the_window() {
    let (app, _) = App::new(flags());
    assert_eq!(app.title(), "PMX-1 Output Setup");
}

#[test]
fn loaded_state_copies_persisted_paths() {
    let o = output(8, "Sub", Some("/c/in9"), Some("/c/in10"));
    let m = MixerOutput::from(&o);
    assert_eq!(m.pmx_output_id, 8);
    assert_eq!(m.name, "Sub");
    assert_eq!(m.selected_left_in_port_path, Some("/c/in9".to_string()));
    assert_eq!(m.selected_right_in_port_path, Some("/c/in10".to_string()));
    assert!(m.saved);
    let req: UpdateOutputPortAssignmentsRequest = m.commit_request();
    assert_eq!(req.id, 8);
    assert_eq!(req.left_port_path, Some("/c/in9".to_string()));
    assert_eq!(req.right_port_path, Some("/c/in10".to_string()));
}
