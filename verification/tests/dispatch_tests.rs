use munin_plugin::config::Config;
use munin_plugin::dispatch::{parse_verb, Action, Dispatcher, Event, Phase, Verb};
use munin_plugin::error::PluginError;
use munin_plugin::output::OutputBuffer;
use munin_plugin::plugin::MuninPlugin;

struct MeterPlugin;
impl MuninPlugin for MeterPlugin {
    fn check_autoconf(&self) -> bool {
        false
    }
    fn config(&self, handle: &mut OutputBuffer) -> Result<(), PluginError> {
        handle.write_line("graph_title meter");
        Ok(())
    }
    fn acquire(
        &self,
        handle: &mut OutputBuffer,
        _config: &Config,
        epoch: u64,
    ) -> Result<(), PluginError> {
        handle.write_line(&format!("meter.value {}:7", epoch));
        Ok(())
    }
}

struct BrokenPlugin;
impl MuninPlugin for BrokenPlugin {
    fn check_autoconf(&self) -> bool {
        false
    }
    fn config(&self, _handle: &mut OutputBuffer) -> Result<(), PluginError> {
        Err(PluginError::Collaborator(String::from("broken config")))
    }
    fn acquire(
        &self,
        _handle: &mut OutputBuffer,
        _config: &Config,
        _epoch: u64,
    ) -> Result<(), PluginError> {
        Err(PluginError::Collaborator(String::from("broken acquire")))
    }
}

fn args(list: &[&str]) -> Vec<String> {
    list.iter().map(|s| String::from(*s)).collect()
}

#[test]
fn test_parse_verb_recognizes_all_shapes() {
    assert_eq!(parse_verb(&args(&["plugin"])), Verb::Fetch);
    assert_eq!(parse_verb(&args(&["plugin", "config"])), Verb::Config);
    assert_eq!(parse_verb(&args(&["plugin", "autoconf"])), Verb::Autoconf);
    assert_eq!(parse_verb(&args(&["plugin", "acquire"])), Verb::Acquire);
    assert_eq!(parse_verb(&args(&["plugin", "whatever"])), Verb::Ignored);
    assert_eq!(parse_verb(&args(&["plugin", "config", "more"])), Verb::Ignored);
    assert_eq!(parse_verb(&args(&[])), Verb::Ignored);
}

#[test]
fn test_ignored_verb_finishes_successfully_with_no_output() {
    let mut d = Dispatcher::new(Config::new(String::from("meter")));
    let a = d.invoke(&MeterPlugin, &args(&["plugin", "nonsense"]));
    assert!(matches!(a, Action::Finished(Ok(()))));
    assert_eq!(d.out.as_str(), "");
    assert_eq!(d.phase, Phase::Finished);
}

#[test]
fn test_autoconf_verb_emits_no() {
    let mut d = Dispatcher::new(Config::new(String::from("meter")));
    let a = d.invoke(&MeterPlugin, &args(&["plugin", "autoconf"]));
    assert!(matches!(a, Action::Finished(Ok(()))));
    assert_eq!(d.out.as_str(), "no\n");
}

#[test]
fn test_acquire_verb_hands_over_to_daemon() {
    let mut d = Dispatcher::new(Config::new_daemon(String::from("meter")));
    let a = d.invoke(&MeterPlugin, &args(&["plugin", "acquire"]));
    assert!(matches!(a, Action::Daemonize));
    assert_eq!(d.phase, Phase::Producing);
    assert_eq!(d.out.as_str(), "");
}

// Pull-mode bypass: with push mode disabled, a plain invocation emits
// exactly one direct run of the sampling collaborator, and the machine
// never asks for the lock or the cache.
#[test]
fn test_pull_mode_bypass() {
    let config = Config::new(String::from("meter"));
    assert!(!config.daemonize);
    let mut d = Dispatcher::new(config.clone());
    let a = d.invoke(&MeterPlugin, &args(&["plugin"]));
    // finished at once: no ProbeLock, no Drain
    assert!(matches!(a, Action::Finished(Ok(()))));

    // identical to invoking the sampling collaborator directly once
    let mut direct = OutputBuffer::new();
    MeterPlugin.acquire(&mut direct, &config, 0).unwrap();
    assert_eq!(d.out.as_str(), direct.as_str());
    assert_eq!(d.out.as_str(), "meter.value 0:7\n");
}

// Scenario: lock path absent, push mode enabled, no-argument
// invocation: spawn the producer, wait, drain the still-empty cache,
// finish successfully with empty sample output.
#[test]
fn test_push_mode_first_poll_spawns_and_drains_empty() {
    let mut d = Dispatcher::new(Config::new_daemon(String::from("meter")));
    let a = d.invoke(&MeterPlugin, &args(&["plugin"]));
    assert!(matches!(a, Action::ProbeLock));
    // lock path absent counts as free
    let a = d.on_event(Event::LockStatus(true));
    assert!(matches!(a, Action::Spawn));
    let a = d.on_event(Event::Spawned(true));
    assert!(matches!(a, Action::Drain));
    // the producer has not written yet
    let a = d.on_event(Event::Drained(None));
    assert!(matches!(a, Action::Finished(Ok(()))));
    assert_eq!(d.out.as_str(), "");
    assert_eq!(d.phase, Phase::Finished);
}

#[test]
fn test_push_mode_running_producer_goes_straight_to_drain() {
    let mut d = Dispatcher::new(Config::new_daemon(String::from("meter")));
    let a = d.invoke(&MeterPlugin, &args(&["plugin"]));
    assert!(matches!(a, Action::ProbeLock));
    // another process holds the lock: a producer is already running
    let a = d.on_event(Event::LockStatus(false));
    assert!(matches!(a, Action::Drain));
    let a = d.on_event(
        Event::Drained(Some(String::from("meter.value 5:7\n"))),
    );
    assert!(matches!(a, Action::Finished(Ok(()))));
    assert_eq!(d.out.as_str(), "meter.value 5:7\n");
}

// Scenario: the cache holds one sample line at drain time; the drain
// output is exactly that line, and a subsequent drain (no appends in
// between) yields empty output.
#[test]
fn test_drained_line_served_exactly_once() {
    let line = String::from("temp.value 1700000000:42\n");

    let mut d = Dispatcher::new(Config::new_daemon(String::from("temp")));
    d.invoke(&MeterPlugin, &args(&["plugin"]));
    d.on_event(Event::LockStatus(false));
    let a = d.on_event(Event::Drained(Some(line.clone())));
    assert!(matches!(a, Action::Finished(Ok(()))));
    assert_eq!(d.out.as_str(), line.as_str());

    // the next poll drains an empty (absent) cache
    let mut d2 = Dispatcher::new(Config::new_daemon(String::from("temp")));
    d2.invoke(&MeterPlugin, &args(&["plugin"]));
    d2.on_event(Event::LockStatus(false));
    let a = d2.on_event(Event::Drained(None));
    assert!(matches!(a, Action::Finished(Ok(()))));
    assert_eq!(d2.out.as_str(), "");
}

// Dirty-config composition: config output followed by exactly what the
// no-argument invocation would emit.
#[test]
fn test_dirty_config_composition_pull_mode() {
    let mut config = Config::new(String::from("meter"));
    config.dirtyconfig = true;
    let mut d = Dispatcher::new(config);
    let a = d.invoke(&MeterPlugin, &args(&["plugin", "config"]));
    assert!(matches!(a, Action::Finished(Ok(()))));
    assert_eq!(d.out.as_str(), "graph_title meter\nmeter.value 0:7\n");
}

#[test]
fn test_dirty_config_composition_push_mode() {
    let mut config = Config::new_daemon(String::from("meter"));
    config.dirtyconfig = true;
    let mut d = Dispatcher::new(config);
    let a = d.invoke(&MeterPlugin, &args(&["plugin", "config"]));
    // metadata is out; the data part asks for a drain (no lock probe:
    // only the plain poll spawns producers)
    assert!(matches!(a, Action::Drain));
    let a = d.on_event(
        Event::Drained(Some(String::from("meter.value 9:7\n"))),
    );
    assert!(matches!(a, Action::Finished(Ok(()))));
    assert_eq!(d.out.as_str(), "graph_title meter\nmeter.value 9:7\n");
}

#[test]
fn test_config_without_dirtyconfig_emits_metadata_only() {
    let mut d = Dispatcher::new(Config::new(String::from("meter")));
    let a = d.invoke(&MeterPlugin, &args(&["plugin", "config"]));
    assert!(matches!(a, Action::Finished(Ok(()))));
    assert_eq!(d.out.as_str(), "graph_title meter\n");
}

#[test]
fn test_spawn_failure_is_fatal() {
    let mut d = Dispatcher::new(Config::new_daemon(String::from("meter")));
    d.invoke(&MeterPlugin, &args(&["plugin"]));
    d.on_event(Event::LockStatus(true));
    let a = d.on_event(Event::Spawned(false));
    assert!(matches!(a, Action::Finished(Err(PluginError::SpawnFailed))));
}

#[test]
fn test_drain_failure_is_fatal() {
    let mut d = Dispatcher::new(Config::new_daemon(String::from("meter")));
    d.invoke(&MeterPlugin, &args(&["plugin"]));
    d.on_event(Event::LockStatus(false));
    let a = d.on_event(Event::DrainFailed);
    assert!(matches!(a, Action::Finished(Err(PluginError::DrainFailed))));
}

#[test]
fn test_failing_config_propagates() {
    let mut d = Dispatcher::new(Config::new(String::from("meter")));
    let a = d.invoke(&BrokenPlugin, &args(&["plugin", "config"]));
    match a {
        Action::Finished(Err(PluginError::Collaborator(msg))) => {
            assert_eq!(msg, String::from("broken config"));
        }
        other => panic!("unexpected action: {:?}", action_name(&other)),
    }
}

#[test]
fn test_failing_acquire_in_pull_fetch_propagates() {
    let mut d = Dispatcher::new(Config::new(String::from("meter")));
    let a = d.invoke(&BrokenPlugin, &args(&["plugin"]));
    match a {
        Action::Finished(Err(PluginError::Collaborator(msg))) => {
            assert_eq!(msg, String::from("broken acquire"));
        }
        other => panic!("unexpected action: {:?}", action_name(&other)),
    }
}

fn action_name(a: &Action) -> &'static str {
    match a {
        Action::ProbeLock => "ProbeLock",
        Action::Spawn => "Spawn",
        Action::Drain => "Drain",
        Action::Daemonize => "Daemonize",
        Action::Finished(Ok(())) => "Finished(Ok)",
        Action::Finished(Err(_)) => "Finished(Err)",
    }
}
