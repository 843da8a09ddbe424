use code_assistant::driver::{Driver, DriverState, ModelReply, Role, ToolRequest, MAX_TOOL_ROUNDS};
use code_assistant::fs_access::create_file;
use code_assistant::registry::{registry, ArgumentError, ToolKind};

fn call(name: &str, args: &[(&str, &str)]) -> ToolRequest {
    ToolRequest {
        name: name.to_string(),
        arguments: args.iter().map(|(k, v)| (k.to_string(), v.to_string())).collect(),
    }
}

#[test]
fn create_file_turn_end_to_end() {
    let mut d = Driver::new();
    d.submit_user("create a file named notes.txt".to_string());
    assert_eq!(d.state(), DriverState::AwaitingModel);
    let asked = d.receive_reply(ModelReply::ToolCalls {
        calls: vec![call("create_file", &[("path", "notes.txt")])],
    });
    assert!(asked.is_none());
    assert_eq!(d.state(), DriverState::AwaitingTools);
    let pending = d.pending_calls();
    assert_eq!(pending.len(), 1);
    let kind = ToolKind::from_name(&pending[0].name).unwrap();
    assert_eq!(kind, ToolKind::CreateFile);
    let values = kind.bind_arguments(&pending[0].arguments).unwrap();
    assert_eq!(values, vec!["notes.txt".to_string(), String::new()]);
    let step = create_file(&values[0], &values[1], false);
    d.receive_tool_results(vec![step.message.clone()]);
    assert_eq!(d.state(), DriverState::AwaitingModel);
    let answer = d.receive_reply(ModelReply::Text { content: "Created notes.txt successfully.".to_string() });
    assert_eq!(answer.as_deref(), Some("Created notes.txt successfully."));
    assert_eq!(d.state(), DriverState::Idle);
    let h = d.history();
    assert_eq!(h.len(), 4);
    assert_eq!(h[0].role, Role::User);
    assert_eq!(h[1].role, Role::Assistant);
    assert_eq!(h[1].calls.len(), 1);
    assert_eq!(h[2].role, Role::Tool);
    assert_eq!(h[2].content, "File `notes.txt` created successfully!");
    assert_eq!(h[3].role, Role::Assistant);
    assert_eq!(h[3].content, "Created notes.txt successfully.");
}

#[test]
fn tool_rounds_are_capped() {
    let mut d = Driver::new();
    d.submit_user("loop".to_string());
    for _ in 0..MAX_TOOL_ROUNDS {
        assert!(d.receive_reply(ModelReply::ToolCalls { calls: vec![call("read_file", &[("path", "a")])] }).is_none());
        d.receive_tool_results(vec!["r".to_string()]);
    }
    let r = d.receive_reply(ModelReply::ToolCalls { calls: vec![call("read_file", &[("path", "a")])] });
    assert!(r.unwrap().starts_with("Stopped"));
    assert_eq!(d.state(), DriverState::Idle);
}

#[test]
fn abandoned_turn_keeps_history() {
    let mut d = Driver::new();
    d.submit_user("hi".to_string());
    d.abandon_turn();
    assert_eq!(d.state(), DriverState::Idle);
    assert_eq!(d.history().len(), 1);
}

#[test]
fn dispatch_by_name() {
    for k in registry() {
        assert_eq!(ToolKind::from_name(&k.name()), Some(k));
    }
    assert_eq!(registry().len(), 8);
    assert_eq!(ToolKind::from_name("install_everything"), None);
}

#[test]
fn binding_arguments() {
    let args = vec![("content".to_string(), "x".to_string()), ("path".to_string(), "a.txt".to_string())];
    assert_eq!(ToolKind::WriteToFile.bind_arguments(&args).unwrap(), vec!["a.txt".to_string(), "x".to_string()]);
    match ToolKind::WriteToFile.bind_arguments(&vec![("path".to_string(), "a".to_string())]) {
        Err(ArgumentError::Missing { name }) => assert_eq!(name, "content"),
        Ok(_) => panic!("content is required"),
    }
    assert_eq!(ToolKind::GatherDirectoryContext.bind_arguments(&vec![]).unwrap(), vec![String::new()]);
    let params = ToolKind::CreateFile.parameters();
    assert_eq!(params.len(), 2);
    assert_eq!(params[1].name, "content");
    assert!(!params[1].required);
}
