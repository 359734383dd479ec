use easyhttpmock::config::{EasyHttpMockConfig, ServerAdapter};

#[derive(Debug, Clone)]
pub struct TestServerConfig {
    port: u32,
    interface: String,
}

impl Default for TestServerConfig {
    fn default() -> Self {
        Self { port: 8080, interface: "127.0.0.1".to_string() }
    }
}

impl TestServerConfig {
    pub fn port(&self) -> u32 {
        self.port
    }

    pub fn interface(&self) -> &str {
        &self.interface
    }
}

pub struct TestServer;

impl ServerAdapter for TestServer {
    type Config = TestServerConfig;
}

#[test]
fn test_server_config_builder() {
    let server_config = TestServerConfig::default();
    let mock_server = EasyHttpMockConfig::<TestServer>::builder()
        .base_url("http://test.local".into())
        .server_config(server_config)
        .build();
    assert_eq!(mock_server.base_url(), &Some("http://test.local".to_string()));
    assert_eq!(mock_server.server_config().port(), 8080);
    assert_eq!(mock_server.server_config().interface(), "127.0.0.1");
}

#[test]
fn test_server_config_default() {
    let mock_server = EasyHttpMockConfig::<TestServer>::default();
    assert_eq!(mock_server.server_config().port(), 8080);
    assert_eq!(mock_server.base_url(), &None);
}
