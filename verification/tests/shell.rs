use senars_shell::launcher::{command_reply, spawn_request, SpawnOutcome};
use senars_shell::shell::{bootstrap_registry, CommandRegistry};

#[test]
fn launch_plans_fixed_spawn() {
    let request = spawn_request();
    assert_eq!(request.path, "../../senars-engine");
    assert!(request.args.is_empty());
}

#[test]
fn launch_reply_success() {
    let reply = command_reply(SpawnOutcome::Started);
    assert_eq!(reply, Ok(()));
}

#[test]
fn launch_reply_missing_executable() {
    let message = "No such file or directory (os error 2)".to_string();
    let reply = command_reply(SpawnOutcome::Failed { message: message.clone() });
    assert_eq!(reply, Err(message));
    assert!(!reply.unwrap_err().is_empty());
}

#[test]
fn launch_reply_permission_denied() {
    let message = "Permission denied (os error 13)".to_string();
    let reply = command_reply(SpawnOutcome::Failed { message: message.clone() });
    assert_eq!(reply, Err(message));
    assert!(!reply.unwrap_err().is_empty());
}

#[test]
fn repeated_invocations_plan_identical_spawns() {
    let first = spawn_request();
    let second = spawn_request();
    assert_eq!(first.path, second.path);
    assert_eq!(first.args, second.args);
    let reply_one = command_reply(SpawnOutcome::Started);
    let reply_two = command_reply(SpawnOutcome::Started);
    assert_eq!(reply_one, reply_two);
}

#[test]
fn bootstrap_registers_exactly_one_command() {
    let registry = bootstrap_registry();
    assert_eq!(registry.command_count(), 1);
    assert!(registry.is_invokable(&"launch_engine".to_string()));
    assert!(!registry.is_invokable(&"quit".to_string()));
    assert!(!registry.is_invokable(&"launch".to_string()));
    assert!(!registry.is_invokable(&"".to_string()));
}

#[test]
fn dispatch_reaches_only_the_launcher() {
    let registry = bootstrap_registry();
    let launcher = "launch_engine".to_string();
    assert_eq!(registry.dispatch(&launcher, SpawnOutcome::Started), Some(Ok(())));
    let message = "No such file or directory (os error 2)".to_string();
    assert_eq!(
        registry.dispatch(&launcher, SpawnOutcome::Failed { message: message.clone() }),
        Some(Err(message))
    );
    assert_eq!(registry.dispatch(&"quit".to_string(), SpawnOutcome::Started), None);
    assert_eq!(registry.dispatch(&"".to_string(), SpawnOutcome::Started), None);
}

#[test]
fn registry_grows_in_registration_order() {
    let mut registry = CommandRegistry::new();
    assert_eq!(registry.command_count(), 0);
    assert!(!registry.is_invokable(&"launch_engine".to_string()));
    registry.register("launch_engine".to_string());
    registry.register("quit".to_string());
    assert_eq!(registry.command_count(), 2);
    assert!(registry.is_invokable(&"launch_engine".to_string()));
    assert!(registry.is_invokable(&"quit".to_string()));
    assert!(!registry.is_invokable(&"restart".to_string()));
}
