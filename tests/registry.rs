use agent_ops_room::agent_registry::AgentRegistry;

#[test]
fn active_within_timeout_inclusive() {
    let mut reg = AgentRegistry::new(30);
    reg.update_agent_at("math".to_string(), None, 100);
    reg.update_agent_at("web".to_string(), None, 50);
    let mut at_130 = reg.get_active_agents_at(130);
    at_130.sort();
    assert_eq!(at_130, vec!["math".to_string()]);
    let mut at_80 = reg.get_active_agents_at(80);
    at_80.sort();
    assert_eq!(at_80, vec!["math".to_string(), "web".to_string()]);
    assert!(reg.get_active_agents_at(131).is_empty());
}

#[test]
fn latest_heartbeat_counts() {
    let mut reg = AgentRegistry::new(10);
    reg.update_agent_at("math".to_string(), None, 0);
    reg.update_agent_at("math".to_string(), None, 100);
    assert_eq!(reg.get_active_agents_at(105), vec!["math".to_string()]);
    assert_eq!(reg.get_agent_info("math").unwrap().last_heartbeat, 100);
    assert!(reg.get_agent_info("web").is_none());
}

#[test]
fn description_kept_until_replaced() {
    let mut reg = AgentRegistry::new(10);
    reg.update_agent_at("math".to_string(), Some("arithmetic".to_string()), 1);
    reg.update_agent_at("math".to_string(), None, 2);
    assert_eq!(reg.get_agent_info("math").unwrap().description.as_deref(), Some("arithmetic"));
    reg.update_agent_at("math".to_string(), Some(String::new()), 3);
    assert_eq!(reg.get_agent_info("math").unwrap().description.as_deref(), Some("arithmetic"));
    reg.update_agent_at("math".to_string(), Some("algebra".to_string()), 4);
    let with = reg.get_active_agents_with_descriptions_at(4);
    assert_eq!(with, vec![("math".to_string(), Some("algebra".to_string()))]);
}

#[test]
fn clock_versions_see_fresh_heartbeat() {
    let mut reg = AgentRegistry::new(60);
    reg.update_agent("math".to_string(), None);
    assert_eq!(reg.get_active_agents(), vec!["math".to_string()]);
    assert_eq!(reg.get_active_agents_with_descriptions().len(), 1);
}
