use arta::parser::parse_script;
use arta::validator::{
    has_errors, has_warnings, validate_command, validate_script, ScriptValidationError,
    ValidationOptions, ValidationSeverity,
};

#[test]
fn test_validate_safe_script() {
    let script = parse_script("SELECT CPU *; SELECT MEMORY *").unwrap();
    let errors = validate_script(&script, &ValidationOptions::default());
    assert!(errors.is_empty());
}

#[test]
fn test_validate_action_without_permission() {
    let script = parse_script("DELETE FILES FROM /tmp WHERE size > 100MB").unwrap();
    let errors = validate_script(&script, &ValidationOptions::default());
    assert!(has_errors(&errors));
}

#[test]
fn test_validate_action_with_permission() {
    let script = parse_script("DELETE FILES FROM /tmp WHERE size > 100MB").unwrap();
    let options = ValidationOptions { allow_actions: true, ..Default::default() };
    let errors = validate_script(&script, &options);
    assert!(!has_errors(&errors));
}

#[test]
fn test_validate_delete_without_where() {
    let script = parse_script("DELETE FILES FROM /tmp").unwrap();
    let options = ValidationOptions { allow_actions: true, ..Default::default() };
    let errors = validate_script(&script, &options);
    assert!(has_warnings(&errors));
}

#[test]
fn test_validate_dangerous_path() {
    let script = parse_script("DELETE FILES FROM / WHERE name = \"temp\"").unwrap();
    let options = ValidationOptions { allow_actions: true, ..Default::default() };
    let errors = validate_script(&script, &options);
    assert!(has_warnings(&errors));
}

fn texts(errors: &[ScriptValidationError]) -> Vec<String> {
    errors.iter().map(|e| e.to_text()).collect()
}

#[test]
fn default_options() {
    let options = ValidationOptions::default();
    assert!(!options.allow_actions);
    assert!(!options.allow_life_actions);
    assert_eq!(options.max_nesting_depth, 10);
}

#[test]
fn refused_delete_lists_error_then_warnings() {
    let script = parse_script("SELECT CPU *; DELETE FILES FROM /etc").unwrap();
    let errors = validate_script(&script, &ValidationOptions::default());
    assert_eq!(
        texts(&errors),
        vec![
            "ERROR (line 2): DELETE FILES action found. Use --allow-actions to enable destructive actions",
            "WARNING (line 2): DELETE FILES without WHERE clause will delete ALL files!",
            "WARNING (line 2): DELETE FILES targeting system path: /etc",
        ]
    );
    assert_eq!(errors[0].severity, ValidationSeverity::Error);
    assert_eq!(errors[0].line, Some(2));
}

#[test]
fn kill_needs_permission() {
    let script = parse_script("KILL PROCESS WHERE name = \"node\"").unwrap();
    let errors = validate_script(&script, &ValidationOptions::default());
    assert_eq!(
        texts(&errors),
        vec!["ERROR (line 1): KILL PROCESS action found. Use --allow-actions to enable destructive actions"]
    );
    let allowed = ValidationOptions { allow_actions: true, ..Default::default() };
    assert!(validate_script(&script, &allowed).is_empty());
}

#[test]
fn action_in_life_block_is_an_error_of_its_own() {
    let script =
        parse_script("LIFE MONITOR CPU DO KILL PROCESS WHERE cpu > 90 END LIFE").unwrap();
    let allowed = ValidationOptions { allow_actions: true, ..Default::default() };
    let errors = validate_script(&script, &allowed);
    assert_eq!(
        texts(&errors),
        vec!["ERROR (line 1): LIFE blocks cannot contain destructive actions by default"]
    );
    let both = ValidationOptions {
        allow_actions: true,
        allow_life_actions: true,
        max_nesting_depth: 10,
    };
    assert!(validate_script(&script, &both).is_empty());
    let only_life = ValidationOptions {
        allow_actions: false,
        allow_life_actions: true,
        max_nesting_depth: 10,
    };
    assert!(has_errors(&validate_script(&script, &only_life)));
}

#[test]
fn action_in_container_body_warns() {
    let script = parse_script(
        "CREATE CONTAINER box DO DELETE FILES FROM /tmp WHERE size > 1KB END CONTAINER",
    )
    .unwrap();
    let allowed = ValidationOptions { allow_actions: true, ..Default::default() };
    let errors = validate_script(&script, &allowed);
    assert_eq!(
        texts(&errors),
        vec!["WARNING (line 1): DELETE FILES action in container 'box' without ALLOW ACTIONS option"]
    );
    assert!(!has_errors(&errors));
    assert!(has_warnings(&errors));
    let script2 = parse_script(
        "CREATE CONTAINER box WITH ALLOW ACTIONS DO DELETE FILES FROM /tmp WHERE size > 1KB END CONTAINER",
    )
    .unwrap();
    assert!(validate_script(&script2, &allowed).is_empty());
}

#[test]
fn nesting_beyond_the_maximum_is_an_error() {
    let script = parse_script(
        "FOR a IN SELECT FILES * DO FOR b IN SELECT FILES * DO DELETE FILES FROM /tmp END FOR END FOR",
    )
    .unwrap();
    let shallow = ValidationOptions {
        allow_actions: false,
        allow_life_actions: false,
        max_nesting_depth: 1,
    };
    let errors = validate_script(&script, &shallow);
    assert_eq!(texts(&errors), vec!["ERROR (line 1): Maximum nesting depth (1) exceeded"]);
    let deep = ValidationOptions {
        allow_actions: false,
        allow_life_actions: false,
        max_nesting_depth: 2,
    };
    assert_eq!(validate_script(&script, &deep).len(), 2);
}

#[test]
fn if_branches_are_both_validated() {
    let script = parse_script(
        "IF SELECT CPU usage > 1 THEN KILL PROCESS WHERE cpu > 1 ELSE DELETE FILES FROM /var WHERE size > 1 END IF",
    )
    .unwrap();
    let errors = validate_script(&script, &ValidationOptions::default());
    assert_eq!(errors.len(), 3);
    assert_eq!(errors[0].severity, ValidationSeverity::Error);
    assert_eq!(errors[1].severity, ValidationSeverity::Error);
    assert_eq!(errors[2].severity, ValidationSeverity::Warning);
}

#[test]
fn finding_without_line() {
    let e = ScriptValidationError {
        line: None,
        message: "m".to_string(),
        severity: ValidationSeverity::Warning,
    };
    assert_eq!(e.to_text(), "WARNING: m");
    assert!(!has_errors(&[]));
    assert!(!has_warnings(&[]));
}

#[test]
fn action_deep_in_a_life_block_is_an_error() {
    let allowed = ValidationOptions { allow_actions: true, ..Default::default() };
    let script = parse_script(
        "LIFE MONITOR CPU DO FOR p IN SELECT PROCESS * DO KILL PROCESS WHERE cpu > 90 END FOR END LIFE",
    )
    .unwrap();
    assert_eq!(
        texts(&validate_script(&script, &allowed)),
        vec!["ERROR (line 1): LIFE blocks cannot contain destructive actions by default"]
    );
    let deeper = parse_script(
        "SELECT CPU *; LIFE MONITOR CPU DO IF CPU usage > 1 THEN EXIT ELSE CREATE CONTAINER c WITH ALLOW ACTIONS DO LIFE MONITOR DISK DO DELETE FILES FROM /tmp WHERE size > 1 END LIFE END CONTAINER END IF END LIFE",
    )
    .unwrap();
    assert_eq!(
        texts(&validate_script(&deeper, &allowed)),
        vec!["ERROR (line 2): LIFE blocks cannot contain destructive actions by default"]
    );
    let both = ValidationOptions {
        allow_actions: true,
        allow_life_actions: true,
        max_nesting_depth: 10,
    };
    assert!(validate_script(&deeper, &both).is_empty());
    // an action behind the block is none of the block's
    let behind = parse_script(
        "LIFE MONITOR CPU DO EXIT END LIFE; KILL PROCESS WHERE cpu > 90",
    )
    .unwrap();
    assert!(validate_script(&behind, &allowed).is_empty());
    // what is explained does not run
    let explained = parse_script(
        "LIFE MONITOR CPU DO EXPLAIN KILL PROCESS WHERE cpu > 90 END LIFE",
    )
    .unwrap();
    assert!(validate_script(&explained, &allowed).is_empty());
}

#[test]
fn findings_on_an_action_come_in_order() {
    let script = parse_script(
        "CREATE CONTAINER box DO LIFE MONITOR CPU DO DELETE FILES FROM /etc END LIFE END CONTAINER",
    )
    .unwrap();
    assert_eq!(
        texts(&validate_script(&script, &ValidationOptions::default())),
        vec![
            "ERROR (line 1): LIFE blocks cannot contain destructive actions by default",
            "ERROR (line 1): DELETE FILES action found. Use --allow-actions to enable destructive actions",
            "WARNING (line 1): DELETE FILES without WHERE clause will delete ALL files!",
            "WARNING (line 1): DELETE FILES targeting system path: /etc",
            "WARNING (line 1): DELETE FILES action in container 'box' without ALLOW ACTIONS option",
        ]
    );
}

#[test]
fn action_deep_in_a_container_body_warns() {
    let allowed = ValidationOptions { allow_actions: true, ..Default::default() };
    let script = parse_script(
        "CREATE CONTAINER box DO FOR f IN SELECT FILES * DO KILL PROCESS WHERE pid = 1 END FOR; EXIT; DELETE FILES FROM /tmp WHERE size > 1 END CONTAINER",
    )
    .unwrap();
    assert_eq!(
        texts(&validate_script(&script, &allowed)),
        vec![
            "WARNING (line 1): KILL PROCESS action in container 'box' without ALLOW ACTIONS option",
            "WARNING (line 1): DELETE FILES action in container 'box' without ALLOW ACTIONS option",
        ]
    );
    // a container that allows actions does not silence the one around it
    let inner_allows = parse_script(
        "CREATE CONTAINER a DO CREATE CONTAINER b WITH ALLOW ACTIONS DO KILL PROCESS WHERE pid = 1 END CONTAINER END CONTAINER",
    )
    .unwrap();
    assert_eq!(
        texts(&validate_script(&inner_allows, &allowed)),
        vec!["WARNING (line 1): KILL PROCESS action in container 'a' without ALLOW ACTIONS option"]
    );
    let alone = parse_script(
        "CREATE CONTAINER b WITH ALLOW ACTIONS DO FOR f IN SELECT FILES * DO KILL PROCESS WHERE pid = 1 END FOR END CONTAINER",
    )
    .unwrap();
    assert!(validate_script(&alone, &allowed).is_empty());
    let inner_refuses = parse_script(
        "CREATE CONTAINER a WITH ALLOW ACTIONS DO CREATE CONTAINER b DO KILL PROCESS WHERE pid = 1 END CONTAINER; KILL PROCESS WHERE pid = 2 END CONTAINER",
    )
    .unwrap();
    assert_eq!(
        texts(&validate_script(&inner_refuses, &allowed)),
        vec!["WARNING (line 1): KILL PROCESS action in container 'b' without ALLOW ACTIONS option"]
    );
    let both_refuse = parse_script(
        "CREATE CONTAINER a DO CREATE CONTAINER b DO KILL PROCESS WHERE pid = 1 END CONTAINER; KILL PROCESS WHERE pid = 2 END CONTAINER",
    )
    .unwrap();
    assert_eq!(
        texts(&validate_script(&both_refuse, &allowed)),
        vec![
            "WARNING (line 1): KILL PROCESS action in container 'b' without ALLOW ACTIONS option",
            "WARNING (line 1): KILL PROCESS action in container 'a' without ALLOW ACTIONS option",
            "WARNING (line 1): KILL PROCESS action in container 'a' without ALLOW ACTIONS option",
        ]
    );
}

#[test]
fn beyond_the_greatest_depth_there_is_one_error_and_no_descent() {
    let script = parse_script(
        "LIFE MONITOR CPU DO DELETE FILES FROM /etc; KILL PROCESS WHERE pid = 1 END LIFE",
    )
    .unwrap();
    let options = ValidationOptions {
        allow_actions: false,
        allow_life_actions: false,
        max_nesting_depth: 3,
    };
    let mut errors = vec![ScriptValidationError {
        line: Some(9),
        message: "before".to_string(),
        severity: ValidationSeverity::Warning,
    }];
    validate_command(&script.statements[0], &options, &mut errors, 7, 4);
    assert_eq!(
        texts(&errors),
        vec!["WARNING (line 9): before", "ERROR (line 7): Maximum nesting depth (3) exceeded"]
    );
    validate_command(&script.statements[0], &options, &mut errors, 7, usize::MAX);
    assert_eq!(errors.len(), 3);
    assert_eq!(errors[2].line, Some(7));
    // within the depth the findings are added behind what was there
    validate_command(&script.statements[0], &options, &mut errors, 8, 3);
    assert_eq!(errors.len(), 5);
    assert_eq!(errors[0].message, "before");
    assert_eq!(
        errors[3].to_text(),
        "ERROR (line 8): Maximum nesting depth (3) exceeded"
    );
    let mut at_two = Vec::new();
    validate_command(&script.statements[0], &options, &mut at_two, 1, 2);
    assert_eq!(at_two.len(), 6);
    assert!(at_two.iter().all(|e| e.line == Some(1)));
}

#[test]
fn the_warnings_of_a_container_come_behind_the_findings_of_its_body() {
    let script = parse_script(
        "CREATE CONTAINER box DO KILL PROCESS WHERE pid = 1; DELETE FILES FROM /etc END CONTAINER",
    )
    .unwrap();
    assert_eq!(
        texts(&validate_script(&script, &ValidationOptions::default())),
        vec![
            "ERROR (line 1): KILL PROCESS action found. Use --allow-actions to enable destructive actions",
            "ERROR (line 1): DELETE FILES action found. Use --allow-actions to enable destructive actions",
            "WARNING (line 1): DELETE FILES without WHERE clause will delete ALL files!",
            "WARNING (line 1): DELETE FILES targeting system path: /etc",
            "WARNING (line 1): KILL PROCESS action in container 'box' without ALLOW ACTIONS option",
            "WARNING (line 1): DELETE FILES action in container 'box' without ALLOW ACTIONS option",
        ]
    );
    // beyond the greatest depth a container warns of nothing
    let shallow = ValidationOptions {
        allow_actions: true,
        allow_life_actions: true,
        max_nesting_depth: 1,
    };
    let deep = parse_script(
        "CREATE CONTAINER box DO KILL PROCESS WHERE pid = 1; FOR f IN SELECT FILES * DO KILL PROCESS WHERE pid = 2 END FOR END CONTAINER",
    )
    .unwrap();
    assert_eq!(
        texts(&validate_script(&deep, &shallow)),
        vec![
            "ERROR (line 1): Maximum nesting depth (1) exceeded",
            "WARNING (line 1): KILL PROCESS action in container 'box' without ALLOW ACTIONS option",
        ]
    );
}
