use std::collections::HashMap;

use honeybee::node::{DeploymentConfig, Node, NodeType};

#[test]
fn default_deployment_is_an_agent_without_settings() {
    let c = DeploymentConfig::default();
    assert_eq!(c.node_type, NodeType::Agent);
    assert_eq!(c.address, "0.0.0.0");
    assert_eq!(c.port, 8080);
    assert!(c.config.is_empty());
}

#[test]
fn new_node_is_deploying() {
    let mut settings = HashMap::new();
    settings.insert("ssh_port".to_string(), "2222".to_string());
    let c = DeploymentConfig { node_type: NodeType::Full, address: "10.0.0.2".to_string(), port: 9000, config: settings };
    let n = Node::new(7, "edge".to_string(), c, 1700000000);
    let shown = format!("{:?}", n);
    assert!(shown.contains("Deploying"));
    assert!(shown.contains("edge"));
    assert!(shown.contains("ssh_port"));
    assert!(format!("{:?}", Node::default()).contains("Unknown"));
}
