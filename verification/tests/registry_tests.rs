use lyserver::bus::{
    dispatch_event, receive_event, LYServerMessagingError, LYServerPluginSharedData, LYServerReceived,
    LYServerWait, LYServerWaitOutcome,
};
use lyserver::event::{LYServerMessageEvent, LYServerMessageEventTarget};
use lyserver::metadata::LYServerPluginMetadata;
use lyserver::registry::{LYServerRegistryError, LYServerSharedData, LYServerSubscriberTable};

type Registry = LYServerSharedData<&'static str, u32, u32>;

fn registry() -> Registry {
    LYServerSharedData::new(
        "0.0.0.0:4774".to_string(),
        "/var/opt/lyserver".to_string(),
        "0.1.0".to_string(),
        1_700_000_000,
        42,
    )
}

fn metadata(id: &str) -> LYServerPluginMetadata {
    LYServerPluginMetadata::builder().id(id).name("n").version("1").build()
}

fn event(id: &str, event_type: &str, target: LYServerMessageEventTarget) -> LYServerMessageEvent {
    LYServerMessageEvent::new(
        id.to_string(),
        event_type,
        target,
        LYServerMessageEventTarget::plugin("sender"),
        vec![],
    )
}

#[test]
fn registry_starts_empty() {
    let r = registry();
    assert_eq!(r.bind_address, "0.0.0.0:4774");
    assert_eq!(r.data_dir, "/var/opt/lyserver");
    assert_eq!(r.version, "0.1.0");
    assert_eq!(r.start_ts, 1_700_000_000);
    assert_eq!(r.pid, 42);
    assert!(!r.shutdown_flag);
    assert_eq!(r.loaded_plugins.len(), 0);
    assert_eq!(r.messaging_plugin_tx.len(), 0);
}

#[test]
fn one_entry_per_registered_id() {
    let mut table: LYServerSubscriberTable<u32> = LYServerSubscriberTable::new();
    assert_eq!(table.register("a".to_string(), 1), Ok(()));
    assert_eq!(table.register("b".to_string(), 2), Ok(()));
    assert_eq!(table.register("a".to_string(), 3), Err(LYServerRegistryError::AlreadyRegistered));
    assert_eq!(table.len(), 2);
    assert_eq!(table.position("a"), Some(0));
    assert_eq!(table.position("b"), Some(1));
    assert_eq!(table.position("c"), None);
    assert_eq!(*table.sender(0), 1);
    assert_eq!(table.id(1), "b");
    assert!(table.contains("a"));
    let entries_for_a = (0..table.len()).filter(|i| table.id(*i) == "a").count();
    assert_eq!(entries_for_a, 1);
    assert_eq!(table.unregister("a"), Some(1));
    assert!(!table.contains("a"));
    assert_eq!(table.unregister("a"), None);
    assert_eq!(table.len(), 1);
    assert_eq!(table.register("a".to_string(), 4), Ok(()));
    assert_eq!(table.position("a"), Some(1));
    assert_eq!(*table.sender(1), 4);
}

#[test]
fn registry_refuses_an_id_twice() {
    let mut r = registry();
    assert_eq!(r.register_plugin_messaging("p".to_string(), 1), Ok(()));
    assert_eq!(
        r.register_plugin_messaging("p".to_string(), 2),
        Err(LYServerRegistryError::AlreadyRegistered)
    );
    assert_eq!(r.messaging_plugin_tx.len(), 1);
    assert_eq!(*r.messaging_plugin_tx.sender(0), 1);
}

#[test]
fn recipients_follow_the_matching_rule() {
    let mut r = registry();
    for (i, id) in ["a", "b", "c"].iter().enumerate() {
        r.register_plugin_messaging(id.to_string(), i as u32).unwrap();
    }
    assert_eq!(r.recipients(&event("1", "t", LYServerMessageEventTarget::All)), vec![0, 1, 2]);
    assert_eq!(r.recipients(&event("1", "t", LYServerMessageEventTarget::plugin("b"))), vec![1]);
    assert_eq!(
        r.recipients(&event("1", "t", LYServerMessageEventTarget::plugin("z"))),
        Vec::<usize>::new()
    );
    // A plugin receives what it sent to everyone.
    assert_eq!(
        r.messaging_plugin_tx.recipients(&LYServerMessageEventTarget::plugin("c")),
        vec![2]
    );
}

#[test]
fn subscriber_registered_before_dispatch_is_a_recipient() {
    let mut r = registry();
    r.register_plugin_messaging("early".to_string(), 7).unwrap();
    let sent = event("1", "t", LYServerMessageEventTarget::All);
    let places = r.recipients(&sent);
    assert_eq!(places, vec![0]);
    assert_eq!(*r.messaging_plugin_tx.sender(places[0]), 7);
    r.register_plugin_messaging("late".to_string(), 8).unwrap();
    assert_eq!(places, vec![0]);
}

#[test]
fn plugins_are_found_by_id_in_load_order() {
    let mut r = registry();
    assert_eq!(r.record_plugin("early", metadata("x"), 0), Err(LYServerRegistryError::NotRegistered));
    r.register_plugin_messaging("x".to_string(), 1).unwrap();
    r.register_plugin_messaging("y".to_string(), 2).unwrap();
    assert_eq!(r.record_plugin("first", metadata("x"), 1), Ok(()));
    assert_eq!(r.record_plugin("second", metadata("y"), 2), Ok(()));
    assert_eq!(r.record_plugin("third", metadata("x"), 3), Err(LYServerRegistryError::AlreadyLoaded));
    assert_eq!(r.record_plugin("fourth", metadata("z"), 4), Err(LYServerRegistryError::NotRegistered));
    assert_eq!(r.loaded_plugins.len(), 2);
    assert_eq!(r.find_plugin("x"), Some(0));
    assert_eq!(r.find_plugin("y"), Some(1));
    assert_eq!(r.find_plugin("z"), None);
    assert_eq!(r.get_plugin_by_id("x"), Some(&"first"));
    assert_eq!(r.get_plugin_by_id("z"), None);
    assert_eq!(r.get_plugin_metadata_by_id("y"), Some(metadata("y")));
    assert_eq!(r.get_plugin_metadata_by_id(""), None);
    assert_eq!(r.plugin_metadata(), vec![metadata("x"), metadata("y")]);
}

#[test]
fn unload_removes_record_and_subscriber() {
    let mut r = registry();
    r.register_plugin_messaging("x".to_string(), 1).unwrap();
    r.register_plugin_messaging("y".to_string(), 2).unwrap();
    r.record_plugin("first", metadata("x"), 10).unwrap();
    r.record_plugin("second", metadata("y"), 20).unwrap();
    let record = r.unload_plugin("x").unwrap();
    assert_eq!(record.instance, "first");
    assert_eq!(record.cancel, 10);
    assert_eq!(record.metadata.id, "x");
    assert_eq!(r.loaded_plugins.len(), 1);
    assert_eq!(r.find_plugin("x"), None);
    assert!(!r.messaging_plugin_tx.contains("x"));
    assert!(r.messaging_plugin_tx.contains("y"));
    assert!(r.unload_plugin("x").is_none());
    // The id can be registered anew once the plugin is unloaded.
    assert_eq!(r.register_plugin_messaging("x".to_string(), 3), Ok(()));
}

#[test]
fn plugin_handle_needs_an_id_to_send() {
    let handle = LYServerPluginSharedData::new();
    assert_eq!(handle.plugin_id, None);
    assert_eq!(
        handle.create_event("1".to_string(), "t", LYServerMessageEventTarget::All, vec![]),
        Err(LYServerMessagingError::PluginIdNotSet)
    );
    assert_eq!(
        handle.reply_event("t", event("1", "t", LYServerMessageEventTarget::All), vec![]),
        Err(LYServerMessagingError::PluginIdNotSet)
    );
    assert_eq!(
        handle.dispatch_init_event("1".to_string()),
        Err(LYServerMessagingError::PluginIdNotSet)
    );
}

#[test]
fn plugin_handle_sends_in_its_own_name() {
    let mut r = registry();
    let mut handle = LYServerPluginSharedData::new();
    assert_eq!(handle.register_plugin_messaging(&mut r, "me".to_string(), 5), Ok(()));
    assert_eq!(handle.plugin_id, Some("me".to_string()));
    assert!(r.messaging_plugin_tx.contains("me"));
    let made = handle
        .create_event("e1".to_string(), "greeting", LYServerMessageEventTarget::plugin("you"), vec![1])
        .unwrap();
    assert_eq!(made.event_id, "e1");
    assert_eq!(made.event_type, "greeting");
    assert_eq!(made.event_sender, LYServerMessageEventTarget::plugin("me"));
    assert_eq!(made.event_target, LYServerMessageEventTarget::plugin("you"));
    assert_eq!(made.data, vec![1]);
    let question = event("e2", "question", LYServerMessageEventTarget::All);
    let reply = handle.reply_event("answer", question, vec![2]).unwrap();
    assert_eq!(reply.event_id, "e2");
    assert_eq!(reply.event_type, "answer");
    assert_eq!(reply.event_target, LYServerMessageEventTarget::plugin("sender"));
    assert_eq!(reply.event_sender, LYServerMessageEventTarget::plugin("me"));
}

#[test]
fn init_event_carries_the_null_value() {
    let mut r = registry();
    let mut handle = LYServerPluginSharedData::new();
    handle.register_plugin_messaging(&mut r, "me".to_string(), 5).unwrap();
    let init = handle.dispatch_init_event("e3".to_string()).unwrap();
    assert_eq!(init.event_id, "e3");
    assert_eq!(init.event_type, "plugin_init");
    assert_eq!(init.event_target, LYServerMessageEventTarget::All);
    assert_eq!(init.event_sender, LYServerMessageEventTarget::plugin("me"));
    assert_eq!(init.data, vec![0xf6]);
    assert_eq!(init.data, serde_cbor::to_vec(&serde_cbor::Value::Null).unwrap());
}

#[test]
fn a_refused_registration_still_takes_the_id() {
    let mut r = registry();
    r.register_plugin_messaging("me".to_string(), 1).unwrap();
    let mut handle = LYServerPluginSharedData::new();
    assert_eq!(
        handle.register_plugin_messaging(&mut r, "me".to_string(), 2),
        Err(LYServerRegistryError::AlreadyRegistered)
    );
    assert_eq!(handle.plugin_id, Some("me".to_string()));
    assert_eq!(r.messaging_plugin_tx.len(), 1);
}

#[test]
fn receive_and_dispatch_outcomes() {
    let e = event("1", "t", LYServerMessageEventTarget::All);
    assert_eq!(receive_event(LYServerReceived::Event(e.clone())), Some(e));
    assert_eq!(receive_event(LYServerReceived::Lagged(3)), None);
    assert_eq!(receive_event(LYServerReceived::Closed), None);
    assert_eq!(dispatch_event(Some(0)), Ok(()));
    assert_eq!(dispatch_event(Some(5)), Ok(()));
    assert_eq!(dispatch_event(None), Err(LYServerMessagingError::BusClosed));
}

#[test]
fn wait_returns_an_event_that_the_predicate_accepts() {
    let wait = LYServerWait::new(10_000);
    assert_eq!(wait.timeout_ms, 10_000);
    let wanted = event("1", "plugin_init", LYServerMessageEventTarget::All);
    let other = event("2", "noise", LYServerMessageEventTarget::All);
    let predicate = |e: &LYServerMessageEvent| e.event_type == "plugin_init";
    assert_eq!(
        wait.step(5, Some(LYServerReceived::Event(other.clone())), &predicate),
        LYServerWaitOutcome::Pending
    );
    assert_eq!(
        wait.step(6, Some(LYServerReceived::Event(wanted.clone())), &predicate),
        LYServerWaitOutcome::Matched(wanted.clone())
    );
    assert_eq!(wait.step(7, Some(LYServerReceived::Lagged(9)), &predicate), LYServerWaitOutcome::Pending);
    assert_eq!(wait.step(8, Some(LYServerReceived::Closed), &predicate), LYServerWaitOutcome::Pending);
    assert_eq!(wait.step(9_999, None, &predicate), LYServerWaitOutcome::Pending);
    assert_eq!(wait.step(10_000, None, &predicate), LYServerWaitOutcome::TimedOut);
    assert_eq!(
        wait.step(10_001, Some(LYServerReceived::Event(other)), &predicate),
        LYServerWaitOutcome::TimedOut
    );
    assert_eq!(
        LYServerWait::result(LYServerWaitOutcome::Matched(wanted.clone())),
        Some(wanted)
    );
    assert_eq!(LYServerWait::result(LYServerWaitOutcome::TimedOut), None);
}

#[test]
fn wait_runs_to_the_first_match_or_the_timeout() {
    let wait = LYServerWait::new(100);
    let predicate = |e: &LYServerMessageEvent| e.event_type == "wanted";
    let wanted = event("1", "wanted", LYServerMessageEventTarget::All);
    let second = event("2", "wanted", LYServerMessageEventTarget::All);
    let noise = event("3", "noise", LYServerMessageEventTarget::All);
    let steps = vec![
        (10, Some(LYServerReceived::Event(noise.clone()))),
        (20, Some(LYServerReceived::Lagged(1))),
        (30, Some(LYServerReceived::Event(wanted.clone()))),
        (40, Some(LYServerReceived::Event(second))),
    ];
    assert_eq!(wait.run(&steps, &predicate), LYServerWaitOutcome::Matched(wanted.clone()));
    let late = vec![
        (10, Some(LYServerReceived::Event(noise.clone()))),
        (100, None),
        (110, Some(LYServerReceived::Event(wanted))),
    ];
    assert_eq!(wait.run(&late, &predicate), LYServerWaitOutcome::TimedOut);
    let unfinished = vec![(10, Some(LYServerReceived::Event(noise))), (99, None)];
    assert_eq!(wait.run(&unfinished, &predicate), LYServerWaitOutcome::Pending);
    assert_eq!(wait.run(&vec![], &predicate), LYServerWaitOutcome::Pending);
}

#[test]
fn plugin_waits_on_a_recorded_stream() {
    let handle = LYServerPluginSharedData::new();
    let wanted = event("1", "plugin_init", LYServerMessageEventTarget::All);
    let steps = vec![
        (1, Some(LYServerReceived::Event(event("0", "noise", LYServerMessageEventTarget::All)))),
        (2, None),
        (3, Some(LYServerReceived::Event(wanted.clone()))),
    ];
    let predicate = |e: &LYServerMessageEvent| e.has_type("plugin_init");
    assert_eq!(
        handle.wait_until_event(&steps, &predicate, 10_000),
        LYServerWaitOutcome::Matched(wanted)
    );
    assert_eq!(handle.wait_until_event(&steps, &predicate, 2), LYServerWaitOutcome::TimedOut);
    assert_eq!(
        handle.wait_until_event(&steps, &|_: &LYServerMessageEvent| false, 10_000),
        LYServerWaitOutcome::Pending
    );
}

#[test]
fn a_load_that_is_undone_leaves_the_registry_as_it_was() {
    let mut r = registry();
    r.register_plugin_messaging("a".to_string(), 1).unwrap();
    r.register_plugin_messaging("b".to_string(), 2).unwrap();
    r.record_plugin("A", metadata("a"), 1).unwrap();
    r.record_plugin("B", metadata("b"), 2).unwrap();
    r.register_plugin_messaging("c".to_string(), 3).unwrap();
    r.record_plugin("C", metadata("c"), 3).unwrap();
    assert!(r.unload_plugin("c").is_some());
    assert_eq!(r.plugin_metadata(), vec![metadata("a"), metadata("b")]);
    assert_eq!(r.loaded_plugins[0].instance, "A");
    assert_eq!(r.loaded_plugins[1].instance, "B");
    assert_eq!(r.messaging_plugin_tx.len(), 2);
    assert_eq!(r.messaging_plugin_tx.position("a"), Some(0));
    assert_eq!(r.messaging_plugin_tx.position("b"), Some(1));
    assert_eq!(r.find_plugin("c"), None);
}
