use arta::ast::ContainerOptions;
use arta::bridge::Timestamp;
use arta::container::{Container, ContainerManager, DEFAULT_CONTAINER};
use arta::context::VariableValue;
use arta::error::ArtaError;

fn now() -> Timestamp {
    Timestamp { secs: 1_700_000_000, nanos: 0 }
}

fn manager() -> ContainerManager {
    ContainerManager::new("/work".to_string(), now())
}

fn create(manager: &mut ContainerManager, name: &str) -> Result<(), ArtaError> {
    manager.create(name, ContainerOptions::default(), "/work".to_string(), now())
}

#[test]
fn test_container_new() {
    let container = Container::new_default("test".to_string(), "/work".to_string(), now());
    assert_eq!(container.name, "test");
    assert!(!container.allow_actions);
    assert!(!container.readonly);
}

#[test]
fn test_container_with_options() {
    let options = ContainerOptions { allow_actions: true, readonly: true };
    let container = Container::new("test".to_string(), options, "/work".to_string(), now());
    assert!(container.allow_actions);
    assert!(container.readonly);
}

#[test]
fn test_container_context() {
    let mut container = Container::new_default("test".to_string(), "/work".to_string(), now());
    let ctx = container.context_mut();
    assert_eq!(ctx.current_folder(), "/work");
    ctx.set_variable("x".to_string(), VariableValue::Boolean(true));
    assert!(container.context().get_variable("x").is_some());
}

#[test]
fn test_manager_new() {
    let manager = manager();
    assert_eq!(manager.count(), 1);
    assert!(manager.contains(DEFAULT_CONTAINER));
    assert_eq!(manager.active_name(), DEFAULT_CONTAINER);
}

#[test]
fn test_manager_create() {
    let mut manager = manager();
    create(&mut manager, "test").unwrap();
    assert_eq!(manager.count(), 2);
    assert!(manager.contains("test"));
}

#[test]
fn test_manager_create_duplicate() {
    let mut manager = manager();
    create(&mut manager, "test").unwrap();
    let result = create(&mut manager, "test");
    assert!(result.is_err());
    assert_eq!(manager.count(), 2);
}

#[test]
fn test_manager_switch() {
    let mut manager = manager();
    create(&mut manager, "test").unwrap();
    manager.switch("test").unwrap();
    assert_eq!(manager.active_name(), "test");
}

#[test]
fn test_manager_switch_nonexistent() {
    let mut manager = manager();
    let result = manager.switch("nonexistent");
    assert!(result.is_err());
    assert_eq!(manager.active_name(), DEFAULT_CONTAINER);
}

#[test]
fn test_manager_destroy() {
    let mut manager = manager();
    create(&mut manager, "test").unwrap();
    manager.destroy("test").unwrap();
    assert_eq!(manager.count(), 1);
    assert!(!manager.contains("test"));
}

#[test]
fn test_manager_destroy_default() {
    let mut manager = manager();
    let result = manager.destroy(DEFAULT_CONTAINER);
    assert!(result.is_err());
    assert!(manager.contains(DEFAULT_CONTAINER));
}

#[test]
fn test_manager_destroy_active() {
    let mut manager = manager();
    create(&mut manager, "test").unwrap();
    manager.switch("test").unwrap();
    manager.destroy("test").unwrap();
    // Should switch back to default
    assert_eq!(manager.active_name(), DEFAULT_CONTAINER);
}

#[test]
fn test_manager_list() {
    let mut manager = manager();
    create(&mut manager, "test1").unwrap();
    create(&mut manager, "test2").unwrap();
    let list = manager.list();
    assert_eq!(list.len(), 3);
    assert!(list.contains(&"default"));
    assert!(list.contains(&"test1"));
    assert!(list.contains(&"test2"));
}

#[test]
fn destroy_default_fails_in_a_full_registry() {
    let mut manager = manager();
    create(&mut manager, "a").unwrap();
    create(&mut manager, "b").unwrap();
    manager.switch("b").unwrap();
    match manager.destroy("default") {
        Err(ArtaError::ExecutionError(m)) => {
            assert_eq!(m, "Cannot destroy the default container")
        }
        other => panic!("unexpected {:?}", other),
    }
    assert_eq!(manager.count(), 3);
    assert_eq!(manager.active_name(), "b");
}

#[test]
fn destroy_missing_container_fails() {
    let mut manager = manager();
    match manager.destroy("ghost") {
        Err(ArtaError::ExecutionError(m)) => assert_eq!(m, "Container 'ghost' does not exist"),
        other => panic!("unexpected {:?}", other),
    }
}

#[test]
fn destroy_inactive_keeps_active() {
    let mut manager = manager();
    create(&mut manager, "a").unwrap();
    create(&mut manager, "b").unwrap();
    manager.switch("a").unwrap();
    manager.destroy("b").unwrap();
    assert_eq!(manager.active_name(), "a");
}

#[test]
fn create_duplicate_message() {
    let mut manager = manager();
    create(&mut manager, "a").unwrap();
    match create(&mut manager, "a") {
        Err(ArtaError::ExecutionError(m)) => assert_eq!(m, "Container 'a' already exists"),
        other => panic!("unexpected {:?}", other),
    }
}

#[test]
fn active_mut_changes_only_the_active_session() {
    let mut manager = manager();
    create(&mut manager, "a").unwrap();
    manager.switch("a").unwrap();
    manager
        .active_mut()
        .set_variable("x".to_string(), VariableValue::Size(7));
    assert!(manager.get("a").unwrap().context().get_variable("x").is_some());
    assert!(manager.get("default").unwrap().context().get_variable("x").is_none());
    assert!(manager.get_mut("nowhere").is_none());
}

#[test]
fn describe_marks_the_active_container() {
    let mut manager = manager();
    manager
        .create(
            "a",
            ContainerOptions { allow_actions: true, readonly: false },
            "/work".to_string(),
            now(),
        )
        .unwrap();
    manager.switch("a").unwrap();
    let lines = manager.describe();
    assert_eq!(lines.len(), 2);
    assert_eq!(lines[0].name, "default");
    assert!(!lines[0].is_active);
    assert!(!lines[0].allow_actions);
    assert_eq!(lines[1].name, "a");
    assert!(lines[1].is_active);
    assert!(lines[1].allow_actions);
}

#[test]
fn export_writes_variables_and_folder() {
    let mut manager = manager();
    manager
        .create(
            "box",
            ContainerOptions { allow_actions: true, readonly: false },
            "/work".to_string(),
            Timestamp { secs: 1431648000, nanos: 0 },
        )
        .unwrap();
    {
        let ctx = manager.get_mut("box").unwrap();
        ctx.set_variable("name".to_string(), VariableValue::String("hello".to_string()));
        ctx.set_variable("limit".to_string(), VariableValue::Size(512));
        ctx.set_variable("on".to_string(), VariableValue::Boolean(true));
    }
    let script = manager.export("box").unwrap();
    let expected = "-- Exported container: box\n-- Created: 2015-05-15 00:00:00 UTC\n-- Allow actions: true\n-- Readonly: false\n\nLET name = \"hello\";\nLET limit = 512 B;\nLET on = true;\n\nENTER FOLDER \"/work\";\n";
    assert_eq!(script, expected);
    assert!(manager.export("none").is_err());
}

#[test]
fn fresh_copy_has_an_empty_session() {
    let mut container = Container::new_default("c".to_string(), "/work".to_string(), now());
    container
        .context_mut()
        .set_variable("x".to_string(), VariableValue::Boolean(false));
    let copy = container.fresh_copy("/other".to_string());
    assert_eq!(copy.name, "c");
    assert_eq!(copy.created_at, now());
    assert!(copy.context().get_variable("x").is_none());
    assert_eq!(copy.context().current_folder(), "/other");
    assert!(!copy.actions_allowed());
    assert!(!copy.is_readonly());
}

#[test]
fn a_moment_is_written_where_it_lies_in_the_years_that_can_be_written() {
    let created = |secs: i64, nanos: u32| {
        let mut manager = manager();
        manager
            .create(
                "box",
                ContainerOptions { allow_actions: false, readonly: false },
                "/work".to_string(),
                Timestamp { secs, nanos },
            )
            .unwrap();
        let script = manager.export("box").unwrap();
        script.lines().nth(1).unwrap().to_string()
    };
    assert_eq!(created(0, 0), "-- Created: 1970-01-01 00:00:00 UTC");
    // the last second of the year 262142, and the first of the year -262143
    assert_eq!(created(8_210_266_876_799, 0), "-- Created: +262142-12-31 23:59:59 UTC");
    assert_eq!(created(8_210_266_876_800, 0), "-- Created: -");
    assert_eq!(created(-8_334_601_228_800, 0), "-- Created: -262143-01-01 00:00:00 UTC");
    assert_eq!(created(-8_334_601_228_801, 0), "-- Created: -");
    assert_eq!(created(i64::MAX, 0), "-- Created: -");
    assert_eq!(created(i64::MIN, 0), "-- Created: -");
    // nanoseconds from a thousand millions on stand for a leap second
    assert_eq!(created(0, 999_999_999), "-- Created: 1970-01-01 00:00:00.999999999 UTC");
    assert_eq!(created(0, 1_000_000_000), "-- Created: -");
    assert_eq!(created(58, 1_000_000_000), "-- Created: -");
    assert_eq!(created(59, 1_000_000_000), "-- Created: 1970-01-01 00:00:60 UTC");
    assert_eq!(created(59, 2_000_000_000), "-- Created: -");
    assert_eq!(created(-1, 1_999_999_999), "-- Created: 1969-12-31 23:59:60.999999999 UTC");
    assert_eq!(created(-2, 1_000_000_000), "-- Created: -");
    assert_eq!(created(0, u32::MAX), "-- Created: -");
}
