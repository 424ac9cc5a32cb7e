use agent_ops_room::llm::{agent_for_tool_name, tool_name};
use agent_ops_room::text::{blank, decimal};

#[test]
fn decimal_numerals() {
    assert_eq!(decimal(0), "0");
    assert_eq!(decimal(7), "7");
    assert_eq!(decimal(10), "10");
    assert_eq!(decimal(1234567890), "1234567890");
    assert_eq!(decimal(u64::MAX), "18446744073709551615");
}

#[test]
fn blank_text() {
    assert!(blank(""));
    assert!(blank("  \n\t "));
    assert!(!blank("  hi "));
}

#[test]
fn tool_names_underscore_hyphens() {
    assert_eq!(tool_name("math"), "assign_to_math");
    assert_eq!(tool_name("math-agent"), "assign_to_math_agent");
}

#[test]
fn tool_name_maps_back_to_offered_agent() {
    let agents = vec![
        ("web_search".to_string(), None),
        ("math-agent".to_string(), Some("arithmetic".to_string())),
    ];
    assert_eq!(agent_for_tool_name("assign_to_math_agent", &agents), Some("math-agent".to_string()));
    assert_eq!(agent_for_tool_name("assign_to_web_search", &agents), Some("web_search".to_string()));
    assert_eq!(agent_for_tool_name("assign_to_nobody", &agents), None);
    assert_eq!(agent_for_tool_name("math-agent", &agents), None);
}
