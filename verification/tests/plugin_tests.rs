use lyserver::database::{
    column_kind, LYServerColumnKind, LYServerDatabase, LYServerDatabaseError, LYServerDatabasePlugin,
    LYServerPreferencesDatabase, DATABASE_PLUGIN_ID, HEALTH_CHECK_INTERVAL_SECS, MAX_CONNECTIONS,
    PREFERENCES_DATABASE_FILE, PREFERENCES_DB_SCHEMA_VERSION,
};
use lyserver::event::{LYServerMessageEvent, LYServerMessageEventTarget};
use lyserver::http::LYServerHTTPRequest;
use lyserver::lifecycle::{LYServerPluginEvent, LYServerPluginState};
use lyserver::manager::{LYServerLoadAction, LYServerLoadError, LYServerLoadProgress, LYServerPluginManager};
use lyserver::metadata::LYServerPluginMetadata;
use lyserver::plugins::{metadata, LYServerHTTPServerPlugin, LYServerHTTPServerRoute};
use lyserver::preferences::{
    LYServerJsonKind, LYServerPreference, LYServerPreferenceError, LYServerPreferenceType,
    LYServerPreferenceValue, LYServerPreferenceWrite, LYServerPreferencesInvocation,
    LYServerPreferencesPlugin,
    LYServerPreferencesRoute, DELETE_STATUS,
};
use lyserver::registry::LYServerSharedData;
use lyserver::server::{LYServer, LYServerBuiltin, LYServerCommand, LYServerEvent, LYServerStage};
use lyserver::status::{LYServerSharedDataStatus, LYServerStatusProbe};
use lyserver::string_map::LYServerStringMap;

type Registry = LYServerSharedData<u8, u8, u8>;

fn registry() -> Registry {
    LYServerSharedData::new(
        "0.0.0.0:4774".to_string(),
        "data".to_string(),
        "0.3.0".to_string(),
        1_700_000_000,
        77,
    )
}

fn probe() -> LYServerStatusProbe {
    LYServerStatusProbe {
        canonical_data_dir: Some("/srv/data".to_string()),
        elapsed_millis: Some(1234),
        used_memory: 4096,
        cpu_count: 8,
        platform: "linux".to_string(),
        os: "Linux".to_string(),
        os_version: "6".to_string(),
        os_kernel_version: "6.1".to_string(),
    }
}

fn request(method: &str, uri: &str) -> LYServerHTTPRequest {
    LYServerHTTPRequest::new(
        method.to_string(),
        uri.to_string(),
        "HTTP/1.1".to_string(),
        LYServerStringMap::new(),
        None,
    )
}

fn request_event(event_type: &str) -> LYServerMessageEvent {
    LYServerMessageEvent::new(
        "1".to_string(),
        event_type,
        LYServerMessageEventTarget::All,
        LYServerMessageEventTarget::plugin("http@lyserver.local"),
        vec![],
    )
}

fn failed_encoding() -> serde_json::Error {
    serde_json::from_str::<u8>("x").unwrap_err()
}

/// Drives the boot sequence and loads what it asks for.
fn boot(r: &mut Registry, server: &mut LYServer) {
    let mut command = server.run(LYServerEvent::Run);
    loop {
        command = match command {
            LYServerCommand::StartDispatcher => server.run(LYServerEvent::StepSucceeded),
            LYServerCommand::LoadBuiltin(builtin) => {
                r.register_plugin_messaging(builtin.id().to_string(), 0).unwrap();
                r.record_plugin(0, metadata(builtin, "0.3.0"), 0).unwrap();
                server.run(LYServerEvent::StepSucceeded)
            }
            LYServerCommand::DiscoverPlugins => server.run(LYServerEvent::StepSucceeded),
            _ => break,
        };
    }
}

#[test]
fn status_after_boot_with_empty_plugins_directory() {
    let mut r = registry();
    let mut server = LYServer::new();
    boot(&mut r, &mut server);
    assert_eq!(server.stage, LYServerStage::Serving);
    let route = LYServerHTTPServerPlugin::handle_http_request(&request("GET", "/status"));
    assert_eq!(route, Some(LYServerHTTPServerRoute::Status));
    let status = r.get_server_status(probe());
    let ids: Vec<&str> = status.loaded_plugins.iter().map(|m| m.id.as_str()).collect();
    assert_eq!(
        ids,
        vec!["database@lyserver.local", "preferences@lyserver.local", "http@lyserver.local"]
    );
    let response = LYServerHTTPServerPlugin::respond(
        &request("GET", "/status"),
        LYServerHTTPServerRoute::Status,
        Ok("{\"loaded_plugins\":[]}".to_string()),
    );
    assert_eq!(response.status_code, 200);
    assert_eq!(response.headers.get("content-type"), Some("application/json".to_string()));
}

#[test]
fn status_report() {
    let mut r = registry();
    r.register_plugin_messaging("x".to_string(), 1).unwrap();
    r.record_plugin(1, LYServerPluginMetadata::builder().id("x").build(), 1).unwrap();
    let status = r.get_server_status(probe());
    assert_eq!(status.data_dir, "/srv/data");
    assert_eq!(status.version, "0.3.0");
    assert_eq!(status.uptime, 1234);
    assert_eq!(status.start_time, 1_700_000_000);
    assert_eq!(status.loaded_plugins.len(), 1);
    assert_eq!(status.loaded_plugins[0].id, "x");
    assert_eq!(status.pid, 77);
    assert_eq!(status.used_memory, 4096);
    assert_eq!(status.cpu_count, 8);
    assert_eq!(status.platform, "linux");
    assert_eq!(status.os, "Linux");
    assert_eq!(status.os_version, "6");
    assert_eq!(status.os_kernel_version, "6.1");
    let bare = r.get_server_status(LYServerStatusProbe {
        canonical_data_dir: None,
        elapsed_millis: None,
        ..probe()
    });
    assert_eq!(bare.data_dir, "data");
    assert_eq!(bare.uptime, 0);
}

#[test]
fn init_timeout_unloads_the_plugin() {
    let mut r = registry();
    r.register_plugin_messaging("other@x".to_string(), 0).unwrap();
    r.record_plugin(7, LYServerPluginMetadata::builder().id("other@x").build(), 7).unwrap();
    let mut manager = LYServerPluginManager::new();
    manager.init_messaging_loop(&r, None);
    let mut state = LYServerPluginState::Discovered;
    assert_eq!(manager.load_plugin(&LYServerLoadProgress::Started), LYServerLoadAction::Register);
    let registration = r.register_plugin_messaging("slow@x".to_string(), 0);
    state = LYServerPluginManager::apply(&mut r, "slow@x", state, LYServerPluginEvent::MessagingRegistered).0;
    assert_eq!(
        manager.load_plugin(&LYServerLoadProgress::Registration(registration)),
        LYServerLoadAction::Construct
    );
    r.record_plugin(0, LYServerPluginMetadata::builder().id("slow@x").build(), 0).unwrap();
    state = LYServerPluginManager::apply(&mut r, "slow@x", state, LYServerPluginEvent::Constructed).0;
    assert_eq!(
        manager.load_plugin(&LYServerLoadProgress::Constructed),
        LYServerLoadAction::SuperviseAndAwaitInit(10_000)
    );
    // Ten seconds pass and no `plugin_init` event comes.
    let event = match manager.load_plugin(&LYServerLoadProgress::Handshake(None)) {
        LYServerLoadAction::TearDown(event) => event,
        other => panic!("no teardown: {:?}", other),
    };
    assert_eq!(event, LYServerPluginEvent::HandshakeTimedOut);
    let (stopping, action, record) = LYServerPluginManager::apply(&mut r, "slow@x", state, event);
    assert_eq!(stopping, LYServerPluginState::Stopping);
    assert_eq!(action, lyserver::lifecycle::LYServerPluginAction::Destroy);
    assert!(record.is_none());
    let (gone, action, record) =
        LYServerPluginManager::apply(&mut r, "slow@x", stopping, LYServerPluginEvent::DestroyFinished);
    assert_eq!(gone, LYServerPluginState::Unloaded);
    assert_eq!(action, lyserver::lifecycle::LYServerPluginAction::Unload);
    assert_eq!(record.unwrap().metadata.id, "slow@x");
    assert_eq!(
        manager.load_plugin(&LYServerLoadProgress::TornDown(event)),
        LYServerLoadAction::Failed(LYServerLoadError::InitTimeout)
    );
    let status = r.get_server_status(probe());
    let ids: Vec<&str> = status.loaded_plugins.iter().map(|m| m.id.as_str()).collect();
    assert_eq!(ids, vec!["other@x"]);
    assert!(!r.messaging_plugin_tx.contains("slow@x"));
    assert!(r.messaging_plugin_tx.contains("other@x"));
}

#[test]
fn graceful_shutdown() {
    let mut r = registry();
    let mut server = LYServer::new();
    boot(&mut r, &mut server);
    let manager = LYServerPluginManager::new();
    assert_eq!(server.run(LYServerEvent::ShutdownRequested), LYServerCommand::DestroyPlugins);
    assert_eq!(server.stage, LYServerStage::ShuttingDown);
    let to_cancel = manager.destroy(&r);
    assert_eq!(to_cancel, vec![0, 1, 2]);
    let ids: Vec<String> = to_cancel.iter().map(|place| r.loaded_plugins[*place].metadata.id.clone()).collect();
    for id in ids.iter().rev() {
        let (state, action, _) = LYServerPluginManager::apply(
            &mut r,
            id,
            LYServerPluginState::Active,
            LYServerPluginEvent::CancelSignalled,
        );
        assert_eq!(action, lyserver::lifecycle::LYServerPluginAction::Destroy);
        assert_eq!(r.loaded_plugins.len(), 3 - ids.iter().rev().position(|i| i == id).unwrap());
        let (state, action, record) =
            LYServerPluginManager::apply(&mut r, id, state, LYServerPluginEvent::DestroyFinished);
        assert_eq!(state, LYServerPluginState::Unloaded);
        assert_eq!(action, lyserver::lifecycle::LYServerPluginAction::Unload);
        assert_eq!(&record.unwrap().metadata.id, id);
    }
    assert_eq!(r.loaded_plugins.len(), 0);
    assert_eq!(r.messaging_plugin_tx.len(), 0);
    assert_eq!(server.run(LYServerEvent::StepSucceeded), LYServerCommand::JoinTasks);
    assert_eq!(server.run(LYServerEvent::StepSucceeded), LYServerCommand::Exit(0));
    assert_eq!(server.stage, LYServerStage::Stopped(0));
}

#[test]
fn shutdown_during_loading() {
    let mut server = LYServer::new();
    server.run(LYServerEvent::Run);
    assert_eq!(server.run(LYServerEvent::ShutdownRequested), LYServerCommand::Nothing);
    server.run(LYServerEvent::StepSucceeded);
    assert_eq!(server.stage, LYServerStage::LoadingBuiltin(LYServerBuiltin::Database));
    assert_eq!(server.run(LYServerEvent::ShutdownRequested), LYServerCommand::DestroyPlugins);
    assert_eq!(server.run(LYServerEvent::StepFailed), LYServerCommand::JoinTasks);
    assert_eq!(server.run(LYServerEvent::StepFailed), LYServerCommand::Exit(0));
}

#[test]
fn builtin_metadata() {
    let database = metadata(LYServerBuiltin::Database, "1.0");
    assert_eq!(database.id, "database@lyserver.local");
    assert_eq!(database.name, "LYPlayerDatabasePlugin");
    assert_eq!(database.description, "Database plugin for LYPlayer");
    assert_eq!(database.version, "1.0");
    assert_eq!(database.author, "LYPlayer");
    assert_eq!(database.wasm_entry_point, None);
    let preferences = metadata(LYServerBuiltin::Preferences, "1.0");
    assert_eq!(preferences.id, "preferences@lyserver.local");
    assert_eq!(preferences.name, "LYServerPreferencesPlugin");
    assert_eq!(preferences.description, "Preferences plugin for LYServer");
    assert_eq!(preferences.author, "LYServer");
    let http = metadata(LYServerBuiltin::Http, "2.0");
    assert_eq!(http.id, "http@lyserver.local");
    assert_eq!(http.name, "LYServerHTTPServerPlugin");
    assert_eq!(http.description, "HTTP server plugin for LYServer");
    assert_eq!(http.version, "2.0");
}

#[test]
fn http_server_plugin_routes() {
    assert!(LYServerHTTPServerPlugin::handles(&request_event("http_request")));
    assert!(!LYServerHTTPServerPlugin::handles(&request_event("plugin_init")));
    let route = LYServerHTTPServerPlugin::handle_http_request;
    assert_eq!(route(&request("GET", "/")), Some(LYServerHTTPServerRoute::Welcome));
    assert_eq!(route(&request("get", "/status")), Some(LYServerHTTPServerRoute::Status));
    assert_eq!(route(&request("GET", "/favicon.ico")), Some(LYServerHTTPServerRoute::Favicon));
    assert_eq!(route(&request("POST", "/")), None);
    assert_eq!(route(&request("GET", "/hello")), None);
    let welcome = LYServerHTTPServerPlugin::respond(
        &request("GET", "/"),
        LYServerHTTPServerRoute::Welcome,
        Err(failed_encoding()),
    );
    assert_eq!(welcome.status_code, 200);
    assert_eq!(welcome.body, b"Welcome to LYServer".to_vec());
    let failed = LYServerHTTPServerPlugin::respond(
        &request("GET", "/status"),
        LYServerHTTPServerRoute::Status,
        Err(failed_encoding()),
    );
    assert_eq!(failed.status_code, 500);
    let favicon = LYServerHTTPServerPlugin::respond(
        &request("GET", "/favicon.ico"),
        LYServerHTTPServerRoute::Favicon,
        Err(failed_encoding()),
    );
    assert_eq!(favicon.status_code, 404);
}

fn strings(items: &[&str]) -> Vec<String> {
    items.iter().map(|s| s.to_string()).collect()
}

#[test]
fn database_invocations() {
    let asked =
        LYServerDatabasePlugin::invoke("query", &strings(&["preferences", "SELECT ?", "1", "2"])).unwrap();
    assert_eq!(asked.database, "preferences");
    assert_eq!(asked.query, "SELECT ?");
    assert_eq!(asked.args, strings(&["1", "2"]));
    let bare = LYServerDatabasePlugin::invoke("query", &strings(&["preferences", "SELECT 1"])).unwrap();
    assert_eq!(bare.args, Vec::<String>::new());
    assert_eq!(
        LYServerDatabasePlugin::invoke("drop", &strings(&["preferences", "x"])),
        Err(LYServerDatabaseError::UnknownMethod)
    );
    assert_eq!(
        LYServerDatabasePlugin::invoke("query", &strings(&[])),
        Err(LYServerDatabaseError::MissingDatabase)
    );
    assert_eq!(
        LYServerDatabasePlugin::invoke("query", &strings(&["preferences"])),
        Err(LYServerDatabaseError::MissingQuery)
    );
    assert_eq!(
        LYServerDatabasePlugin::invoke("query", &strings(&["users", "SELECT 1"])),
        Err(LYServerDatabaseError::UnknownDatabase)
    );
    assert_eq!(
        LYServerDatabasePlugin::invoke("QUERY", &strings(&["preferences", "SELECT 1"])),
        Err(LYServerDatabaseError::UnknownMethod)
    );
    assert_eq!(LYServerDatabaseError::UnknownMethod.message("drop"), "Unknown method: drop");
    assert_eq!(
        LYServerDatabaseError::MissingDatabase.message(""),
        "Missing database argument for 'query' method"
    );
    assert_eq!(
        LYServerDatabaseError::MissingQuery.message(""),
        "Missing query argument for 'query' method"
    );
    assert_eq!(LYServerDatabaseError::UnknownDatabase.message("users"), "Unknown database: users");
    assert_eq!(LYServerDatabaseError::PluginNotFound.message(""), "Database plugin not found");
    assert_eq!(
        LYServerDatabaseError::NotConnected.message(""),
        "Database connection pool is not initialized."
    );
}

#[test]
fn database_columns_and_statements() {
    assert_eq!(column_kind("INTEGER"), LYServerColumnKind::Integer);
    assert_eq!(column_kind("INT"), LYServerColumnKind::Integer);
    assert_eq!(column_kind("REAL"), LYServerColumnKind::Real);
    assert_eq!(column_kind("TEXT"), LYServerColumnKind::Text);
    assert_eq!(column_kind("BOOLEAN"), LYServerColumnKind::Boolean);
    assert_eq!(column_kind("DATETIME"), LYServerColumnKind::Text);
    assert_eq!(column_kind("integer"), LYServerColumnKind::Text);
    assert_eq!(column_kind(""), LYServerColumnKind::Text);
    assert_eq!(LYServerDatabase::new("/d/preferences.db").db_connection_uri, "sqlite:///d/preferences.db");
    let connected = LYServerDatabase { db_connection_uri: "sqlite://x".to_string(), connected: true };
    assert_eq!(connected.set_schema_version(1), Ok("PRAGMA user_version = 1".to_string()));
    assert_eq!(
        connected.set_schema_version(4294967295),
        Ok("PRAGMA user_version = 4294967295".to_string())
    );
    assert_eq!(PREFERENCES_DATABASE_FILE, "preferences.db");
    assert_eq!(HEALTH_CHECK_INTERVAL_SECS, 60);
    assert_eq!(MAX_CONNECTIONS, 5);
}

#[test]
fn schema_migration() {
    let fresh = LYServerPreferencesDatabase::maybe_migrate_schema(0);
    assert_eq!(fresh.statements.len(), 5);
    assert_eq!(fresh.statements[0], "PRAGMA foreign_keys = ON");
    assert!(fresh.statements[1].starts_with("CREATE TABLE IF NOT EXISTS preference_native_type_lookup"));
    assert!(fresh.statements[2].contains("(1, 'i32')"));
    assert!(fresh.statements[3].starts_with("CREATE TABLE IF NOT EXISTS preferences ("));
    assert!(fresh.statements[4].starts_with("CREATE TRIGGER IF NOT EXISTS preferences_update_trigger"));
    assert_eq!(fresh.set_version, Some(1));
    let current = LYServerPreferencesDatabase::maybe_migrate_schema(1);
    assert_eq!(current.statements.len(), 0);
    assert_eq!(current.set_version, None);
    let newer = LYServerPreferencesDatabase::maybe_migrate_schema(7);
    assert_eq!(newer.statements.len(), 0);
    assert_eq!(newer.set_version, None);
    assert_eq!(PREFERENCES_DB_SCHEMA_VERSION, 1);
}

#[test]
fn query_needs_the_database_plugin() {
    let mut r = registry();
    assert_eq!(
        r.query("preferences".to_string(), "SELECT 1".to_string(), vec![]),
        Err(LYServerDatabaseError::PluginNotFound)
    );
    r.register_plugin_messaging(DATABASE_PLUGIN_ID.to_string(), 0).unwrap();
    r.record_plugin(0, LYServerPluginMetadata::builder().id(DATABASE_PLUGIN_ID).build(), 0).unwrap();
    assert_eq!(
        r.query("preferences".to_string(), "SELECT ?".to_string(), strings(&["a", "b"])),
        Ok(strings(&["preferences", "SELECT ?", "a", "b"]))
    );
    let params = r.query("preferences".to_string(), "SELECT 1".to_string(), vec![]).unwrap();
    assert!(LYServerDatabasePlugin::invoke("query", &params).is_ok());
}

#[test]
fn native_types() {
    let native = LYServerPreferencesPlugin::native_type;
    assert_eq!(native(LYServerJsonKind::Null), Ok(LYServerPreferenceType::Null));
    assert_eq!(native(LYServerJsonKind::Bool), Ok(LYServerPreferenceType::Boolean));
    assert_eq!(native(LYServerJsonKind::String), Ok(LYServerPreferenceType::String));
    assert_eq!(native(LYServerJsonKind::Array), Ok(LYServerPreferenceType::JSON));
    assert_eq!(native(LYServerJsonKind::Object), Ok(LYServerPreferenceType::JSON));
    assert_eq!(
        native(LYServerJsonKind::Number { is_f64: true, is_i64: false, is_u64: false }),
        Ok(LYServerPreferenceType::F32)
    );
    assert_eq!(
        native(LYServerJsonKind::Number { is_f64: false, is_i64: true, is_u64: false }),
        Ok(LYServerPreferenceType::I32)
    );
    assert_eq!(
        native(LYServerJsonKind::Number { is_f64: false, is_i64: false, is_u64: true }),
        Ok(LYServerPreferenceType::U32)
    );
    assert_eq!(
        native(LYServerJsonKind::Number { is_f64: false, is_i64: false, is_u64: false }),
        Err(LYServerPreferenceError::InvalidNumber)
    );
    let ids: Vec<u32> = [
        LYServerPreferenceType::Null,
        LYServerPreferenceType::I32,
        LYServerPreferenceType::F32,
        LYServerPreferenceType::U32,
        LYServerPreferenceType::Boolean,
        LYServerPreferenceType::String,
        LYServerPreferenceType::JSON,
    ]
    .iter()
    .map(|t| t.id())
    .collect();
    assert_eq!(ids, vec![0, 1, 2, 3, 4, 5, 6]);
    for id in 0..7 {
        assert_eq!(LYServerPreferenceType::from_id(id).unwrap().id(), id);
    }
    assert_eq!(LYServerPreferenceType::from_id(7), None);
    assert_eq!(LYServerPreferenceType::Null.name(), "null");
    assert_eq!(LYServerPreferenceType::I32.name(), "i32");
    assert_eq!(LYServerPreferenceType::F32.name(), "f32");
    assert_eq!(LYServerPreferenceType::U32.name(), "u32");
    assert_eq!(LYServerPreferenceType::Boolean.name(), "bool");
    assert_eq!(LYServerPreferenceType::String.name(), "str");
    assert_eq!(LYServerPreferenceType::JSON.name(), "json");
    assert_eq!(LYServerPreferenceType::I32.label(), "I32");
    assert_eq!(LYServerPreferenceType::Boolean.label(), "Boolean");
    assert_eq!(LYServerPreferenceType::JSON.label(), "JSON");
}

fn json_kind(value: &serde_json::Value) -> LYServerJsonKind {
    match value {
        serde_json::Value::Null => LYServerJsonKind::Null,
        serde_json::Value::Bool(_) => LYServerJsonKind::Bool,
        serde_json::Value::Number(n) => LYServerJsonKind::Number {
            is_f64: n.is_f64(),
            is_i64: n.is_i64(),
            is_u64: n.is_u64(),
        },
        serde_json::Value::String(_) => LYServerJsonKind::String,
        serde_json::Value::Array(_) => LYServerJsonKind::Array,
        serde_json::Value::Object(_) => LYServerJsonKind::Object,
    }
}

#[test]
fn preferences_round_trip() {
    // `PUT /preferences {key: "x", value: 42}` on an empty store.
    let put = request("PUT", "/preferences");
    let (route, _) =
        LYServerPreferencesPlugin::handle_message_event(&request_event("http_request"), &put).unwrap();
    assert_eq!(route, LYServerPreferencesRoute::Put);
    let value = serde_json::Value::from(42);
    let native_type = LYServerPreferencesPlugin::native_type(json_kind(&value)).unwrap();
    assert_eq!(native_type, LYServerPreferenceType::I32);
    let write = LYServerPreferencesPlugin::check_write(&None).unwrap();
    assert_eq!(write, LYServerPreferenceWrite::Created);
    assert_eq!(LYServerPreferencesPlugin::status_of_write(write), 201);
    let mut stored = LYServerPreference {
        key: "x".to_string(),
        value: Some("42".to_string()),
        native_type,
        is_locked: false,
    };
    // `GET /preferences/x`.
    let get = request("GET", "/preferences/x");
    let (route, matched) =
        LYServerPreferencesPlugin::handle_message_event(&request_event("http_request"), &get).unwrap();
    assert_eq!(route, LYServerPreferencesRoute::Get);
    assert_eq!(matched.params.get("key"), Some("x".to_string()));
    assert_eq!(stored.native_type, LYServerPreferenceType::I32);
    assert_eq!(stored.value, Some("42".to_string()));
    // A second write updates.
    let again = LYServerPreferencesPlugin::check_write(&Some(LYServerPreference {
        key: "x".to_string(),
        value: Some("42".to_string()),
        native_type,
        is_locked: false,
    }));
    assert_eq!(again, Ok(LYServerPreferenceWrite::Updated));
    assert_eq!(LYServerPreferencesPlugin::status_of_write(again.unwrap()), 200);
    // Locked, the preference refuses the next write.
    stored.is_locked = true;
    let locked = Some(stored);
    assert_eq!(LYServerPreferencesPlugin::check_write(&locked), Err(LYServerPreferenceError::Locked));
    let refusal = LYServerPreferencesPlugin::write_or_refuse(&put, &locked).unwrap_err();
    assert_eq!(refusal.status_code, 400);
    assert_eq!(
        String::from_utf8(refusal.body).unwrap(),
        "{\"code\":400,\"error\":\"Locked\",\"ok\":false}"
    );
    assert_eq!(refusal.headers.get("content-type"), Some("application/json".to_string()));
    assert_eq!(
        LYServerPreferencesPlugin::write_or_refuse(&put, &None).ok(),
        Some(LYServerPreferenceWrite::Created)
    );
    // What is stored is as it was.
    assert_eq!(locked.as_ref().unwrap().value, Some("42".to_string()));
    assert_eq!(locked.as_ref().unwrap().native_type, LYServerPreferenceType::I32);
    let shown = LYServerPreferenceValue::decode(LYServerPreferenceType::I32, Some("42"));
    assert_eq!(shown, Some(LYServerPreferenceValue::I32(42)));
    assert_eq!(LYServerPreferenceValue::I32(42).encode(), (LYServerPreferenceType::I32, Some("42".to_string())));
    assert_eq!(LYServerPreferenceType::I32.label(), "I32");
}

#[test]
fn preference_error_messages() {
    assert_eq!(LYServerPreferenceError::Locked.message(), "Locked");
    assert_eq!(
        LYServerPreferenceError::InvalidNumber.message(),
        "Invalid number type in preference value"
    );
    assert_eq!(LYServerPreferenceError::UnknownMethod.message(), "Unknown method");
    assert_eq!(
        LYServerPreferenceError::InvalidArguments.message(),
        "Invalid arguments for 'get' method"
    );
    let refused = LYServerPreferencesPlugin::refuse(
        &request("PUT", "/preferences"),
        LYServerPreferenceError::InvalidNumber,
    );
    assert_eq!(refused.status_code, 400);
}

#[test]
fn preferences_routes() {
    let take = |method: &str, uri: &str| {
        LYServerPreferencesPlugin::handle_message_event(
            &request_event("http_request"),
            &request(method, uri),
        )
        .map(|(route, _)| route)
    };
    assert_eq!(take("GET", "/preferences"), Some(LYServerPreferencesRoute::List));
    assert_eq!(take("GET", "/preferences/theme"), Some(LYServerPreferencesRoute::Get));
    assert_eq!(take("PUT", "/preferences"), Some(LYServerPreferencesRoute::Put));
    assert_eq!(take("delete", "/preferences"), Some(LYServerPreferencesRoute::Delete));
    assert_eq!(take("POST", "/preferences"), None);
    assert_eq!(take("GET", "/status"), None);
    assert!(LYServerPreferencesPlugin::handle_message_event(
        &request_event("plugin_init"),
        &request("GET", "/preferences")
    )
    .is_none());
    assert_eq!(LYServerPreferencesPlugin::router().len(), 4);
    assert_eq!(DELETE_STATUS, 204);
}

#[test]
fn preferences_invocations() {
    assert_eq!(
        LYServerPreferencesPlugin::invoke("get", &strings(&["theme"])),
        Ok(LYServerPreferencesInvocation::Get("theme".to_string()))
    );
    assert_eq!(
        LYServerPreferencesPlugin::invoke("get", &strings(&[])),
        Err(LYServerPreferenceError::InvalidArguments)
    );
    assert_eq!(
        LYServerPreferencesPlugin::invoke("get", &strings(&["a", "b"])),
        Err(LYServerPreferenceError::InvalidArguments)
    );
    assert_eq!(
        LYServerPreferencesPlugin::invoke("get_all", &strings(&["ignored"])),
        Ok(LYServerPreferencesInvocation::GetAll)
    );
    assert_eq!(
        LYServerPreferencesPlugin::invoke("set", &strings(&["a"])),
        Err(LYServerPreferenceError::UnknownMethod)
    );
}

#[test]
fn put_decides_type_then_lock_then_status() {
    let put = request("PUT", "/preferences");
    let number = LYServerJsonKind::Number { is_f64: false, is_i64: true, is_u64: true };
    assert_eq!(
        LYServerPreferencesPlugin::put(&put, number, &None).ok(),
        Some((LYServerPreferenceType::I32, LYServerPreferenceWrite::Created, 201))
    );
    let stored = |is_locked| {
        Some(LYServerPreference {
            key: "x".to_string(),
            value: Some("1".to_string()),
            native_type: LYServerPreferenceType::I32,
            is_locked,
        })
    };
    assert_eq!(
        LYServerPreferencesPlugin::put(&put, LYServerJsonKind::String, &stored(false)).ok(),
        Some((LYServerPreferenceType::String, LYServerPreferenceWrite::Updated, 200))
    );
    let locked = LYServerPreferencesPlugin::put(&put, number, &stored(true)).unwrap_err();
    assert_eq!(locked.status_code, 400);
    assert_eq!(String::from_utf8(locked.body).unwrap(), "{\"code\":400,\"error\":\"Locked\",\"ok\":false}");
    // The kind of the value is looked at before the lock.
    let no_kind = LYServerJsonKind::Number { is_f64: false, is_i64: false, is_u64: false };
    let invalid = LYServerPreferencesPlugin::put(&put, no_kind, &stored(true)).unwrap_err();
    assert_eq!(invalid.status_code, 400);
    assert_eq!(
        String::from_utf8(invalid.body).unwrap(),
        "{\"code\":400,\"error\":\"Invalid number type in preference value\",\"ok\":false}"
    );
}

#[test]
fn delete_respects_the_lock() {
    let delete = request("DELETE", "/preferences");
    let stored = |is_locked| {
        Some(LYServerPreference { key: "x".to_string(), value: None, native_type: LYServerPreferenceType::Null, is_locked })
    };
    assert_eq!(LYServerPreferencesPlugin::delete(&delete, &None).ok(), Some(204));
    assert_eq!(LYServerPreferencesPlugin::delete(&delete, &stored(false)).ok(), Some(204));
    let refusal = LYServerPreferencesPlugin::delete(&delete, &stored(true)).unwrap_err();
    assert_eq!(refusal.status_code, 400);
    assert_eq!(String::from_utf8(refusal.body).unwrap(), "{\"code\":400,\"error\":\"Locked\",\"ok\":false}");
}
