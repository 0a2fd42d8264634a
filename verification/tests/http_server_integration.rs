//! Requests to add a chain, served against a disk in memory.
use std::collections::BTreeMap;
use std::path::Path;
use std::path::PathBuf;

use tmkms::application::KmsApplication;
use tmkms::config::ChainConfig;
use tmkms::config::Format;
use tmkms::config::KeyType;
use tmkms::config::KmsConfig;
use tmkms::config::ProviderConfig;
use tmkms::config::SoftsignConfig;
use tmkms::config::ValidatorConfig;
use tmkms::http_server::config::HttpServerConfig;
use tmkms::http_server::config_update::UpdateAction;
use tmkms::http_server::config_update::UpdateEvent;
use tmkms::http_server::handlers::add_chain;
use tmkms::http_server::handlers::list_chains;
use tmkms::http_server::handlers::update_config_file;
use tmkms::http_server::handlers::AddChainAction;
use tmkms::http_server::handlers::AddChainEvent;
use tmkms::http_server::models::AddChainRequest;
use tmkms::http_server::models::AddChainResponse;
use tmkms::http_server::models::JsonReply;
use tmkms::http_server::models::ReplyBody;
use toml::Table;
use toml::Value;

const CONFIG_FILE_NAME: &str = "tmkms.toml";

/// A server with its files and its registry in memory.
struct TestServer {
    app: KmsApplication,
    http_server: Option<HttpServerConfig>,
    disk: BTreeMap<PathBuf, String>,
    registered: Vec<String>,
    file_operations: usize,
    failing_write: bool,
    failing_rename: bool,
}

impl TestServer {
    fn start(config_path: &Path, content: String) -> Self {
        let mut app = KmsApplication::default();
        app.set_config_file_path(config_path.to_path_buf());
        let mut disk = BTreeMap::new();
        let http_server = decode(&content).ok().and_then(|config| config.http_server);
        disk.insert(config_path.to_path_buf(), content);
        TestServer {
            app,
            http_server,
            disk,
            registered: Vec::new(),
            file_operations: 0,
            failing_write: false,
            failing_rename: false,
        }
    }

    fn perform(&mut self, action: UpdateAction) -> UpdateEvent {
        match action {
            UpdateAction::ReadFile { path } => {
                self.file_operations += 1;
                UpdateEvent::FileRead(self.disk.get(&path).cloned().ok_or("not found".to_string()))
            }
            UpdateAction::ParseConfig { text } => UpdateEvent::ConfigParsed(decode(&text)),
            UpdateAction::SerializeConfig { config } => {
                UpdateEvent::ConfigSerialized(Ok(encode(&config)))
            }
            UpdateAction::WriteFile { path, text } => {
                self.file_operations += 1;
                if self.failing_write {
                    self.disk.insert(path, text[..text.len() / 2].to_string());
                    return UpdateEvent::FileWritten(Err("disk full".to_string()));
                }
                self.disk.insert(path, text);
                UpdateEvent::FileWritten(Ok(()))
            }
            UpdateAction::RenameFile { from, to } => {
                self.file_operations += 1;
                if self.failing_rename {
                    return UpdateEvent::FileRenamed(Err("permission denied".to_string()));
                }
                let text = self.disk.remove(&from).unwrap();
                self.disk.insert(to, text);
                UpdateEvent::FileRenamed(Ok(()))
            }
            UpdateAction::ApplyUpdate { .. } => panic!("the update is applied by the library"),
            UpdateAction::Finish { .. } => panic!("the end is handled by the library"),
        }
    }

    fn serve(&mut self, request: AddChainRequest) -> JsonReply {
        let mut built: Option<String> = None;
        let (mut served, mut action) = add_chain(request, &self.http_server, &self.app);
        loop {
            let event = match action {
                AddChainAction::Update(update) => AddChainEvent::Update(self.perform(update)),
                AddChainAction::BuildChain(chain) => {
                    built = Some(chain.id);
                    AddChainEvent::ChainBuilt(Ok(()))
                }
                AddChainAction::RegisterChain => {
                    let id = built.take().unwrap();
                    if self.registered.contains(&id) {
                        AddChainEvent::ChainRegistered(Err("already registered".to_string()))
                    } else {
                        self.registered.push(id);
                        AddChainEvent::ChainRegistered(Ok(()))
                    }
                }
                AddChainAction::Reply(reply) => return reply,
                AddChainAction::Abort(path) => panic!("not a file: {:?}", path),
            };
            assert!(event.is_answer_at(&served.stage));
            action = served.advance(event);
        }
    }

    fn content(&self, path: &Path) -> String {
        self.disk[path].clone()
    }
}

fn text(value: &str) -> Value {
    Value::String(value.to_string())
}

fn path_text(path: &Path) -> Value {
    text(path.to_str().unwrap())
}

fn encode(config: &KmsConfig) -> String {
    let mut root = Table::new();
    let mut chains = Vec::new();
    for chain in &config.chain {
        let mut table = Table::new();
        table.insert("id".to_string(), text(&chain.id));
        if let Format::Bech32 { account_key_prefix, consensus_key_prefix } = &chain.key_format {
            table.insert("account_key_prefix".to_string(), text(account_key_prefix));
            table.insert("consensus_key_prefix".to_string(), text(consensus_key_prefix));
        }
        table.insert("sign_extensions".to_string(), Value::Boolean(chain.sign_extensions));
        chains.push(Value::Table(table));
    }
    root.insert("chain".to_string(), Value::Array(chains));
    let mut validators = Vec::new();
    for validator in &config.validator {
        let mut table = Table::new();
        table.insert("addr".to_string(), text(&validator.addr));
        table.insert("chain_id".to_string(), text(&validator.chain_id));
        table.insert("reconnect".to_string(), Value::Boolean(validator.reconnect));
        if let Some(timeout) = validator.timeout {
            table.insert("timeout".to_string(), Value::Integer(timeout as i64));
        }
        if let Some(secret_key) = &validator.secret_key {
            table.insert("secret_key".to_string(), path_text(secret_key));
        }
        validators.push(Value::Table(table));
    }
    root.insert("validator".to_string(), Value::Array(validators));
    let mut softsign = Vec::new();
    for provider in &config.providers.softsign {
        let mut table = Table::new();
        let ids = provider.chain_ids.iter().map(|id| text(id)).collect();
        table.insert("chain_ids".to_string(), Value::Array(ids));
        let key_type = match provider.key_type {
            KeyType::Account => "account",
            KeyType::Consensus => "consensus",
        };
        table.insert("key_type".to_string(), text(key_type));
        table.insert("path".to_string(), path_text(&provider.path));
        softsign.push(Value::Table(table));
    }
    root.insert("softsign".to_string(), Value::Array(softsign));
    if let Some(http_server) = &config.http_server {
        let mut table = Table::new();
        table.insert("bind_address".to_string(), text(&http_server.bind_address));
        table.insert("port".to_string(), Value::Integer(http_server.port as i64));
        root.insert("http_server".to_string(), Value::Table(table));
    }
    toml::to_string_pretty(&root).unwrap()
}

fn string(table: &Value, key: &str) -> String {
    table[key].as_str().unwrap().to_string()
}

fn decode(content: &str) -> Result<KmsConfig, String> {
    let root: Table = toml::from_str(content).map_err(|e| e.to_string())?;
    let mut config = KmsConfig {
        chain: Vec::new(),
        validator: Vec::new(),
        providers: ProviderConfig::default(),
        http_server: None,
    };
    for table in root["chain"].as_array().unwrap() {
        config.chain.push(ChainConfig {
            id: string(table, "id"),
            key_format: Format::Bech32 {
                account_key_prefix: string(table, "account_key_prefix"),
                consensus_key_prefix: string(table, "consensus_key_prefix"),
            },
            sign_extensions: table["sign_extensions"].as_bool().unwrap(),
            state_file: None,
            state_hook: None,
        });
    }
    for table in root["validator"].as_array().unwrap() {
        config.validator.push(ValidatorConfig {
            addr: string(table, "addr"),
            chain_id: string(table, "chain_id"),
            reconnect: table["reconnect"].as_bool().unwrap(),
            timeout: table.get("timeout").map(|t| t.as_integer().unwrap() as u16),
            secret_key: table.get("secret_key").map(|k| PathBuf::from(k.as_str().unwrap())),
            max_height: None,
            protocol_version: None,
        });
    }
    for table in root["softsign"].as_array().unwrap() {
        let ids = table["chain_ids"].as_array().unwrap();
        config.providers.softsign.push(SoftsignConfig {
            chain_ids: ids.iter().map(|id| id.as_str().unwrap().to_string()).collect(),
            key_type: match table["key_type"].as_str().unwrap() {
                "account" => KeyType::Account,
                _ => KeyType::Consensus,
            },
            key_format: None,
            path: PathBuf::from(string(table, "path")),
        });
    }
    if let Some(table) = root.get("http_server") {
        config.http_server = Some(HttpServerConfig {
            bind_address: string(table, "bind_address"),
            port: table["port"].as_integer().unwrap() as u16,
            config_file_path: None,
        });
    }
    Ok(config)
}

fn create_initial_config(dir: &Path) -> KmsConfig {
    let mut providers = ProviderConfig::default();
    providers.softsign = vec![
        SoftsignConfig {
            chain_ids: vec!["test_chain_1".to_string()],
            key_type: KeyType::Account,
            key_format: None,
            path: dir.join("test-key-1.key"),
        },
        SoftsignConfig {
            chain_ids: vec!["test_chain_2".to_string()],
            key_type: KeyType::Account,
            key_format: None,
            path: dir.join("test-key-2.key"),
        },
    ];
    KmsConfig {
        chain: vec![
            ChainConfig {
                id: "test_chain_1".to_string(),
                key_format: Format::Bech32 {
                    account_key_prefix: "testpub".to_string(),
                    consensus_key_prefix: "testvalconspub".to_string(),
                },
                sign_extensions: false,
                state_file: None,
                state_hook: None,
            },
            ChainConfig {
                id: "test_chain_2".to_string(),
                key_format: Format::Bech32 {
                    account_key_prefix: "testpub2".to_string(),
                    consensus_key_prefix: "testvalconspub2".to_string(),
                },
                sign_extensions: true,
                state_file: None,
                state_hook: None,
            },
        ],
        validator: vec![
            ValidatorConfig {
                addr: "tcp://deadbeefdeadbeefdeadbeefdeadbeefdeadbeef@localhost:26658".to_string(),
                chain_id: "test_chain_1".to_string(),
                reconnect: true,
                timeout: None,
                secret_key: Some(dir.join("secret_connection.key")),
                max_height: None,
                protocol_version: None,
            },
            ValidatorConfig {
                addr: "tcp://deadbeefdeadbeefdeadbeefdeadbeefdeadbeef@localhost:26659".to_string(),
                chain_id: "test_chain_2".to_string(),
                reconnect: false,
                timeout: Some(30),
                secret_key: Some(dir.join("secret_connection.key")),
                max_height: None,
                protocol_version: None,
            },
        ],
        providers,
        http_server: Some(HttpServerConfig {
            bind_address: "127.0.0.1".to_string(),
            port: 0,
            config_file_path: None,
        }),
    }
}

fn create_request(dir: &Path, validator_chain_id: &str) -> AddChainRequest {
    let mut provider = ProviderConfig::default();
    provider.softsign = vec![SoftsignConfig {
        chain_ids: vec!["test_chain_3".to_string()],
        key_type: KeyType::Consensus,
        key_format: None,
        path: dir.join("test-key-3.key"),
    }];
    AddChainRequest {
        chain: ChainConfig {
            id: "test_chain_3".to_string(),
            key_format: Format::Bech32 {
                account_key_prefix: "testpub3".to_string(),
                consensus_key_prefix: "testvalconspub3".to_string(),
            },
            sign_extensions: false,
            state_file: None,
            state_hook: None,
        },
        validator: ValidatorConfig {
            addr: "tcp://deadbeefdeadbeefdeadbeefdeadbeefdeadbeef@localhost:26660".to_string(),
            chain_id: validator_chain_id.to_string(),
            reconnect: true,
            timeout: None,
            secret_key: Some(dir.join("secret_connection.key")),
            max_height: None,
            protocol_version: None,
        },
        provider,
    }
}

fn create_new_chain_request(dir: &Path) -> AddChainRequest {
    create_request(dir, "test_chain_3")
}

fn create_invalid_chain_request(dir: &Path) -> AddChainRequest {
    create_request(dir, "test_chain_4")
}

/// Adding a new chain preserves existing chains in the config file.
#[test]
fn test_add_chain_preserves_existing_config() {
    let dir = PathBuf::from("/tmp/kms");
    let config_path = dir.join(CONFIG_FILE_NAME);
    let initial_config = create_initial_config(&dir);
    let mut server = TestServer::start(&config_path, encode(&initial_config));

    let loaded_config = decode(&server.content(&config_path)).unwrap();
    assert_eq!(loaded_config.chain.len(), 2, "Should have 2 initial chains");
    assert_eq!(loaded_config.validator.len(), 2, "Should have 2 initial validators");

    let reply = server.serve(create_new_chain_request(&dir));
    assert!((200..300).contains(&reply.status), "request failed: {:?}", reply);

    let updated_config = decode(&server.content(&config_path)).unwrap();
    assert_eq!(updated_config.chain.len(), 3, "Should have 3 chains after adding one");
    assert_eq!(updated_config.validator.len(), 3, "Should have 3 validators after adding one");
    for i in 0..2 {
        assert_eq!(
            updated_config.chain[i], initial_config.chain[i],
            "Original chain {} should be unchanged",
            i
        );
        assert_eq!(
            updated_config.validator[i], initial_config.validator[i],
            "Original validator {} should be unchanged",
            i
        );
    }
    assert_eq!(
        updated_config.providers.softsign.len(),
        3,
        "Should have 3 softsign providers after adding one"
    );
    for i in 0..2 {
        assert_eq!(
            updated_config.providers.softsign[i], initial_config.providers.softsign[i],
            "Original softsign provider {} should be unchanged",
            i
        );
    }
    let new_provider = &updated_config.providers.softsign[2];
    assert_eq!(new_provider.chain_ids, vec!["test_chain_3".to_string()]);
    assert_eq!(new_provider.key_type, KeyType::Consensus);

    let new_chain = &updated_config.chain[2];
    assert_eq!(new_chain.id.to_string(), "test_chain_3");
    assert_eq!(new_chain.sign_extensions, false);
    let new_validator = &updated_config.validator[2];
    assert_eq!(new_validator.chain_id.to_string(), "test_chain_3");
    assert_eq!(
        new_validator.addr.to_string(),
        "tcp://deadbeefdeadbeefdeadbeefdeadbeefdeadbeef@localhost:26660"
    );
    assert_eq!(updated_config.http_server, initial_config.http_server);
}

/// Config file updates are atomic, with no partial writes.
#[test]
fn test_atomic_config_update() {
    let dir = PathBuf::from("/tmp/kms");
    let config_path = dir.join(CONFIG_FILE_NAME);
    let mut server = TestServer::start(&config_path, encode(&create_initial_config(&dir)));

    let initial_content = server.content(&config_path);
    assert!(initial_content.contains("test_chain_1"));
    assert!(initial_content.contains("test_chain_2"));
    assert!(!initial_content.contains("test_chain_3"));

    let reply = server.serve(create_new_chain_request(&dir));
    assert!((200..300).contains(&reply.status), "request failed: {:?}", reply);

    let final_content = server.content(&config_path);
    assert!(final_content.contains("test_chain_1"));
    assert!(final_content.contains("test_chain_2"));
    assert!(final_content.contains("test_chain_3"));

    let temp_file = dir.join(format!("{}.tmp", CONFIG_FILE_NAME));
    assert!(!server.disk.contains_key(&temp_file), "Temporary config file should not exist");
}

/// Invalid requests don't corrupt the config file.
#[test]
fn test_invalid_request_preserves_config() {
    let dir = PathBuf::from("/tmp/kms");
    let config_path = dir.join(CONFIG_FILE_NAME);
    let mut server = TestServer::start(&config_path, encode(&create_initial_config(&dir)));
    let initial_content = server.content(&config_path);

    let reply = server.serve(create_invalid_chain_request(&dir));
    assert!((400..500).contains(&reply.status), "Expected client error but got {:?}", reply);
    assert_eq!(
        initial_content,
        server.content(&config_path),
        "Config file should be unchanged after invalid request"
    );
    assert_eq!(server.file_operations, 0);
    assert!(server.registered.is_empty());
    match reply.body {
        ReplyBody::Failed(response) => assert_eq!(
            response.error,
            "Chain ID mismatch: validator chain_id test_chain_4 != chain id test_chain_3"
        ),
        ReplyBody::Added(_) => panic!("the request was accepted"),
    }
}

#[test]
fn server_runs_with_its_http_configuration() {
    let dir = PathBuf::from("/tmp/kms");
    let config_path = dir.join(CONFIG_FILE_NAME);
    let initial_config = create_initial_config(&dir);
    let server = TestServer::start(&config_path, encode(&initial_config));
    assert_eq!(server.http_server, initial_config.http_server);
    assert_eq!(server.http_server.unwrap().config_file_path, None);
}

#[test]
fn listing_shows_the_added_chain() {
    let dir = PathBuf::from("/tmp/kms");
    let config_path = dir.join(CONFIG_FILE_NAME);
    let mut server = TestServer::start(&config_path, encode(&create_initial_config(&dir)));
    server.registered = vec!["test_chain_1".to_string(), "test_chain_2".to_string()];
    server.serve(create_invalid_chain_request(&dir));
    assert_eq!(list_chains(&server.registered).chains, vec!["test_chain_1", "test_chain_2"]);
    server.serve(create_new_chain_request(&dir));
    assert_eq!(
        list_chains(&server.registered).chains,
        vec!["test_chain_1", "test_chain_2", "test_chain_3"]
    );
}

#[test]
fn success_reply_names_the_chain() {
    let dir = PathBuf::from("/tmp/kms");
    let config_path = dir.join(CONFIG_FILE_NAME);
    let mut server = TestServer::start(&config_path, encode(&create_initial_config(&dir)));
    let reply = server.serve(create_new_chain_request(&dir));
    assert_eq!(reply.status, warp::http::StatusCode::CREATED.as_u16());
    assert_eq!(
        reply.body,
        ReplyBody::Added(AddChainResponse {
            message: "Successfully added chain test_chain_3".to_string(),
            chain_id: "test_chain_3".to_string(),
        })
    );
    assert_eq!(server.registered, vec!["test_chain_3".to_string()]);
}

#[test]
fn two_requests_keep_both_chains() {
    let dir = PathBuf::from("/tmp/kms");
    let config_path = dir.join(CONFIG_FILE_NAME);
    let mut server = TestServer::start(&config_path, encode(&create_initial_config(&dir)));
    server.serve(create_new_chain_request(&dir));
    let mut second = create_request(&dir, "test_chain_5");
    second.chain.id = "test_chain_5".to_string();
    let reply = server.serve(second);
    assert_eq!(reply.status, 201);
    let config = decode(&server.content(&config_path)).unwrap();
    let ids: Vec<&str> = config.chain.iter().map(|chain| chain.id.as_str()).collect();
    assert_eq!(ids, vec!["test_chain_1", "test_chain_2", "test_chain_3", "test_chain_5"]);
    assert_eq!(config.validator[3].chain_id, "test_chain_5");
    assert_eq!(config.providers.softsign.len(), 4);
    assert_eq!(server.registered, vec!["test_chain_3".to_string(), "test_chain_5".to_string()]);

    let mut joint = create_initial_config(&dir);
    update_config_file(&mut joint, &create_new_chain_request(&dir));
    let mut second = create_request(&dir, "test_chain_5");
    second.chain.id = "test_chain_5".to_string();
    update_config_file(&mut joint, &second);
    assert_eq!(server.content(&config_path), encode(&joint));
}

fn error_of(reply: JsonReply) -> (u16, String) {
    match reply.body {
        ReplyBody::Failed(response) => (reply.status, response.error),
        ReplyBody::Added(_) => panic!("the chain was added"),
    }
}

#[test]
fn failed_write_leaves_the_config_file_alone() {
    let dir = PathBuf::from("/tmp/kms");
    let config_path = dir.join(CONFIG_FILE_NAME);
    let mut server = TestServer::start(&config_path, encode(&create_initial_config(&dir)));
    let initial_content = server.content(&config_path);
    server.failing_write = true;
    let (status, error) = error_of(server.serve(create_new_chain_request(&dir)));
    assert_eq!(status, 500);
    assert_eq!(
        error,
        "Failed to update configuration: config error: failed to write temp config: disk full"
    );
    assert_eq!(server.content(&config_path), initial_content);
    assert!(server.registered.is_empty());
}

#[test]
fn failed_rename_leaves_the_config_file_alone() {
    let dir = PathBuf::from("/tmp/kms");
    let config_path = dir.join(CONFIG_FILE_NAME);
    let mut server = TestServer::start(&config_path, encode(&create_initial_config(&dir)));
    let initial_content = server.content(&config_path);
    server.failing_rename = true;
    let (status, error) = error_of(server.serve(create_new_chain_request(&dir)));
    assert_eq!(status, 500);
    assert_eq!(
        error,
        "Failed to update configuration: config error: failed to rename config file: permission denied"
    );
    assert_eq!(server.content(&config_path), initial_content);
    assert!(server.registered.is_empty());
}

#[test]
fn unreadable_and_malformed_files_are_told_apart() {
    let dir = PathBuf::from("/tmp/kms");
    let config_path = dir.join(CONFIG_FILE_NAME);
    let mut server = TestServer::start(&config_path, "[".to_string());
    let (status, error) = error_of(server.serve(create_new_chain_request(&dir)));
    assert_eq!(status, 500);
    assert!(error
        .starts_with("Failed to update configuration: config error: failed to parse config: "));
    server.disk.clear();
    let (status, error) = error_of(server.serve(create_new_chain_request(&dir)));
    assert_eq!(status, 500);
    assert_eq!(
        error,
        "Failed to update configuration: config error: failed to read config file: not found"
    );
}

#[test]
fn failed_registration_is_told_after_the_file_has_changed() {
    let dir = PathBuf::from("/tmp/kms");
    let config_path = dir.join(CONFIG_FILE_NAME);
    let mut server = TestServer::start(&config_path, encode(&create_initial_config(&dir)));
    server.registered.push("test_chain_3".to_string());
    let (status, error) = error_of(server.serve(create_new_chain_request(&dir)));
    assert_eq!(status, warp::http::StatusCode::INTERNAL_SERVER_ERROR.as_u16());
    assert_eq!(error, "Failed to register chain in memory: already registered");
    assert!(server.content(&config_path).contains("test_chain_3"));
}

#[test]
fn unknown_config_path_is_an_error() {
    let dir = PathBuf::from("/tmp/kms");
    let app = KmsApplication::default();
    let (_, action) = add_chain(create_new_chain_request(&dir), &None, &app);
    match action {
        AddChainAction::Reply(reply) => assert_eq!(
            error_of(reply),
            (
                500,
                "Failed to update configuration: config error: No config file path available"
                    .to_string()
            )
        ),
        other => panic!("unexpected action: {:?}", other),
    }
}

#[test]
fn config_path_without_a_file_name_is_given_up() {
    let dir = PathBuf::from("/tmp/kms");
    let mut app = KmsApplication::default();
    app.set_config_file_path(PathBuf::from("/"));
    let (_, action) = add_chain(create_new_chain_request(&dir), &None, &app);
    assert_eq!(action, AddChainAction::Abort(PathBuf::from("/")));
}
