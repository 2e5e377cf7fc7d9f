//! The foreground dispatch controller.
//!
//! One collector request is one short-lived invocation.  The
//! [`Dispatcher`] interprets the invocation's arguments and decides
//! everything that does not need the operating system; each thing that
//! does — probing the producer's lock, spawning the producer, draining
//! the cache file, becoming the daemon — is handed to the caller as an
//! [`Action`], and the caller reports what happened as an [`Event`].
//! The machine's contracts pin down, for every verb and every event,
//! the next phase, the action, and exactly what text was added to the
//! output buffer.
//!
//! A complete successful run emits exactly [`invocation_output`]; the
//! composition laws over that function are proved at the end of this
//! module.

use vstd::prelude::*;
use vstd::string::StringExecFns;
use crate::config::Config;
use crate::error::PluginError;
use crate::output::OutputBuffer;
use crate::plugin::{MuninPlugin, drained_text, fetch_output};

verus! {

/// The recognized shapes of an invocation.
///
/// Anything else — an unknown argument, or more than one argument — is
/// [`Verb::Ignored`]: the collector drives this boundary, and the
/// plugin must not crash in front of it, so an unrecognized request is
/// answered successfully with no plugin data.
#[derive(Clone, Copy, Debug, PartialEq, Eq)]
pub enum Verb {
    /// No argument: serve current sample data.
    Fetch,
    /// `config`: emit graph metadata (and, with dirty-config, data).
    Config,
    /// `autoconf`: answer `yes` or `no`.
    Autoconf,
    /// `acquire`: become the continuously sampling producer.
    Acquire,
    /// Anything else: ignored, by design not an error.
    Ignored,
}

/// The verb named by an argument list (`args[0]` is the program name).
pub open spec fn verb_of(args: Seq<String>) -> Verb {
    if args.len() == 1 {
        Verb::Fetch
    } else if args.len() == 2 {
        if args[1]@ == "config"@ {
            Verb::Config
        } else if args[1]@ == "autoconf"@ {
            Verb::Autoconf
        } else if args[1]@ == "acquire"@ {
            Verb::Acquire
        } else {
            Verb::Ignored
        }
    } else {
        Verb::Ignored
    }
}

/// Classify an argument list.
pub fn parse_verb(args: &Vec<String>) -> (v: Verb)
    ensures
        v == verb_of(args@),
{
    if args.len() == 1 {
        Verb::Fetch
    } else if args.len() == 2 {
        let arg: &String = &args[1];
        if arg.eq(&String::from_str("config")) {
            Verb::Config
        } else if arg.eq(&String::from_str("autoconf")) {
            Verb::Autoconf
        } else if arg.eq(&String::from_str("acquire")) {
            Verb::Acquire
        } else {
            Verb::Ignored
        }
    } else {
        Verb::Ignored
    }
}

/// What the caller must do next on the dispatcher's behalf.
pub enum Action {
    /// Try to take a non-blocking exclusive lock on the pid file (its
    /// absence counts as free); answer with [`Event::LockStatus`].
    ProbeLock,
    /// Spawn the producer as a detached child invoked with `acquire`,
    /// then give it a short fixed interval to write a first sample;
    /// answer with [`Event::Spawned`].
    Spawn,
    /// Atomically drain the cache file: rename it aside, read it, then
    /// remove it; answer with [`Event::Drained`] or
    /// [`Event::DrainFailed`].
    Drain,
    /// Detach from the terminal and run the producer loop forever; this
    /// invocation never reports back.
    Daemonize,
    /// The invocation is complete: flush the dispatcher's output to the
    /// collector and exit (non-zero exactly on `Err`).
    Finished(Result<(), PluginError>),
}

/// What came of the action the caller performed.
pub enum Event {
    /// Outcome of [`Action::ProbeLock`]: `true` means the lock was
    /// free, so no producer is running.
    LockStatus(bool),
    /// Outcome of [`Action::Spawn`]: whether the child was launched.
    Spawned(bool),
    /// Outcome of [`Action::Drain`]: the drained text, or `None` where
    /// the cache file did not exist (no samples yet — not an error).
    Drained(Option<String>),
    /// Outcome of [`Action::Drain`]: the rename or copy failed.
    DrainFailed,
}

/// Where a dispatch run stands.
#[derive(Clone, Copy, Debug, PartialEq, Eq)]
pub enum Phase {
    /// Not yet invoked.
    Idle,
    /// Asked the caller to probe the producer lock.
    AwaitLock,
    /// Asked the caller to spawn the producer.
    AwaitSpawn,
    /// Asked the caller to drain the cache file.
    AwaitDrain,
    /// Handed the process over to the producer loop.
    Producing,
    /// Done; the output buffer holds everything to emit.
    Finished,
}

/// Which events a phase is waiting for.
pub open spec fn awaits(phase: Phase, event: Event) -> bool {
    match phase {
        Phase::AwaitLock => event is LockStatus,
        Phase::AwaitSpawn => event is Spawned,
        Phase::AwaitDrain => event is Drained || event is DrainFailed,
        _ => false,
    }
}

/// The complete text a successful invocation emits, by verb.
pub open spec fn invocation_output<P: MuninPlugin>(
    plugin: &P,
    config: &Config,
    verb: Verb,
    drained: Option<String>,
) -> Seq<char> {
    match verb {
        Verb::Fetch => fetch_output(plugin, config, drained),
        Verb::Config => if config.dirtyconfig {
            plugin.config_data() + fetch_output(plugin, config, drained)
        } else {
            plugin.config_data()
        },
        Verb::Autoconf => if plugin.autoconf_supported() {
            "yes\n"@
        } else {
            "no\n"@
        },
        Verb::Acquire => Seq::<char>::empty(),
        Verb::Ignored => Seq::<char>::empty(),
    }
}

/// The foreground decision machine for one invocation.
pub struct Dispatcher {
    /// The plugin configuration this run works under.
    pub config: Config,
    /// Where the run stands.
    pub phase: Phase,
    /// Everything emitted so far; flushed by the caller at the end.
    pub out: OutputBuffer,
}

impl Dispatcher {
    /// A dispatcher ready for one invocation.
    pub fn new(config: Config) -> (r: Self)
        ensures
            r.phase == Phase::Idle,
            r.config == config,
            r.out@ == Seq::<char>::empty(),
    {
        Dispatcher { config, phase: Phase::Idle, out: OutputBuffer::new() }
    }

    /// Begin the invocation: classify the arguments and either finish
    /// the verbs that need nothing from outside, or ask for the first
    /// external step.  In pull mode (`daemonize` false) a plain fetch
    /// finishes immediately — neither the lock nor the cache file is
    /// ever asked for.
    pub fn invoke<P: MuninPlugin>(&mut self, plugin: &P, args: &Vec<String>) -> (a: Action)
        requires
            old(self).phase == Phase::Idle,
        ensures
            final(self).config == old(self).config,
            verb_of(args@) == Verb::Ignored ==> final(self).phase == Phase::Finished && final(self).out@ == old(self).out@ && a == Action::Finished(Ok::<(), PluginError>(())),
            verb_of(args@) == Verb::Autoconf ==> final(self).phase == Phase::Finished && final(self).out@ == old(self).out@ + (if plugin.autoconf_supported() {
                "yes\n"@
            } else {
                "no\n"@
            }) && a == Action::Finished(Ok::<(), PluginError>(())),
            verb_of(args@) == Verb::Acquire ==> final(self).phase == Phase::Producing && final(self).out@ == old(self).out@ && a == Action::Daemonize,
            verb_of(args@) == Verb::Fetch && old(self).config.daemonize ==> final(self).phase
                == Phase::AwaitLock && final(self).out@ == old(self).out@ && a == Action::ProbeLock,
            verb_of(args@) == Verb::Fetch && !old(self).config.daemonize && plugin.sample_ok(0)
                ==> final(self).phase == Phase::Finished && final(self).out@ == old(self).out@
                + plugin.sample_data(0) && a == Action::Finished(Ok::<(), PluginError>(())),
            verb_of(args@) == Verb::Fetch && !old(self).config.daemonize && !plugin.sample_ok(0)
                ==> final(self).phase == Phase::Finished && (a matches Action::Finished(r) && r
                is Err) && old(self).out@.is_prefix_of(final(self).out@),
            verb_of(args@) == Verb::Config && !plugin.config_ok() ==> final(self).phase
                == Phase::Finished && (a matches Action::Finished(r) && r is Err) && old(self).out@.is_prefix_of(final(self).out@),
            verb_of(args@) == Verb::Config && plugin.config_ok() && !old(self).config.dirtyconfig
                ==> final(self).phase == Phase::Finished && final(self).out@ == old(self).out@
                + plugin.config_data() && a == Action::Finished(Ok::<(), PluginError>(())),
            verb_of(args@) == Verb::Config && plugin.config_ok() && old(self).config.dirtyconfig
                && old(self).config.daemonize ==> final(self).phase == Phase::AwaitDrain && final(self).out@ == old(self).out@ + plugin.config_data() && a == Action::Drain,
            verb_of(args@) == Verb::Config && plugin.config_ok() && old(self).config.dirtyconfig
                && !old(self).config.daemonize && plugin.sample_ok(0) ==> final(self).phase
                == Phase::Finished && final(self).out@ == old(self).out@ + plugin.config_data()
                + plugin.sample_data(0) && a == Action::Finished(Ok::<(), PluginError>(())),
            verb_of(args@) == Verb::Config && plugin.config_ok() && old(self).config.dirtyconfig
                && !old(self).config.daemonize && !plugin.sample_ok(0) ==> final(self).phase
                == Phase::Finished && (a matches Action::Finished(r) && r is Err) && old(self).out@.is_prefix_of(final(self).out@),
    {
        let verb = parse_verb(args);
        match verb {
            Verb::Ignored => {
                self.phase = Phase::Finished;
                Action::Finished(Ok(()))
            },
            Verb::Autoconf => {
                plugin.autoconf(&mut self.out);
                self.phase = Phase::Finished;
                Action::Finished(Ok(()))
            },
            Verb::Acquire => {
                self.phase = Phase::Producing;
                Action::Daemonize
            },
            Verb::Fetch => {
                if self.config.daemonize {
                    self.phase = Phase::AwaitLock;
                    Action::ProbeLock
                } else {
                    self.phase = Phase::Finished;
                    match plugin.fetch(&mut self.out, &self.config, None) {
                        Ok(()) => Action::Finished(Ok(())),
                        Err(e) => Action::Finished(Err(e)),
                    }
                }
            },
            Verb::Config => {
                match plugin.config(&mut self.out) {
                    Err(e) => {
                        self.phase = Phase::Finished;
                        Action::Finished(Err(e))
                    },
                    Ok(()) => {
                        if !self.config.dirtyconfig {
                            self.phase = Phase::Finished;
                            Action::Finished(Ok(()))
                        } else if self.config.daemonize {
                            self.phase = Phase::AwaitDrain;
                            Action::Drain
                        } else {
                            let ghost mid = self.out@;
                            let r = plugin.fetch(&mut self.out, &self.config, None);
                            proof {
                                if plugin.sample_ok(0) {
                                    assert(self.out@ =~= old(self).out@ + plugin.config_data()
                                        + plugin.sample_data(0));
                                } else {
                                    assert(old(self).out@.is_prefix_of(mid));
                                    assert(mid.is_prefix_of(self.out@));
                                    assert(old(self).out@.is_prefix_of(self.out@));
                                }
                            }
                            self.phase = Phase::Finished;
                            match r {
                                Ok(()) => Action::Finished(Ok(())),
                                Err(e) => Action::Finished(Err(e)),
                            }
                        }
                    },
                }
            },
        }
    }

    /// Take the outcome of the last action and decide the next step.
    /// Lock free means no producer is running, so one is spawned and
    /// given a moment; a held lock means a producer is already running,
    /// so the run proceeds straight to the drain.  Drained text is
    /// appended to the output as it stands — it was already formatted
    /// when the producer wrote it; an absent cache file is success with
    /// nothing to add.
    pub fn on_event(&mut self, event: Event) -> (a: Action)
        requires
            awaits(old(self).phase, event),
        ensures
            final(self).config == old(self).config,
            old(self).phase == Phase::AwaitLock && event == Event::LockStatus(true) ==> final(self).phase == Phase::AwaitSpawn && final(self).out@ == old(self).out@ && a
                == Action::Spawn,
            old(self).phase == Phase::AwaitLock && event == Event::LockStatus(false) ==> final(self).phase == Phase::AwaitDrain && final(self).out@ == old(self).out@ && a
                == Action::Drain,
            old(self).phase == Phase::AwaitSpawn && event == Event::Spawned(true) ==> final(self).phase == Phase::AwaitDrain && final(self).out@ == old(self).out@ && a
                == Action::Drain,
            old(self).phase == Phase::AwaitSpawn && event == Event::Spawned(false) ==> final(self).phase == Phase::Finished && final(self).out@ == old(self).out@ && a
                == Action::Finished(Err::<(), PluginError>(PluginError::SpawnFailed)),
            old(self).phase == Phase::AwaitDrain ==> (event matches Event::Drained(d) ==> final(self).phase == Phase::Finished && final(self).out@ == old(self).out@ + drained_text(d) && a == Action::Finished(Ok::<(), PluginError>(()))),
            old(self).phase == Phase::AwaitDrain && event == Event::DrainFailed ==> final(self).phase == Phase::Finished && final(self).out@ == old(self).out@ && a
                == Action::Finished(Err::<(), PluginError>(PluginError::DrainFailed)),
    {
        match event {
            Event::LockStatus(free) => {
                if free {
                    self.phase = Phase::AwaitSpawn;
                    Action::Spawn
                } else {
                    self.phase = Phase::AwaitDrain;
                    Action::Drain
                }
            },
            Event::Spawned(ok) => {
                if ok {
                    self.phase = Phase::AwaitDrain;
                    Action::Drain
                } else {
                    self.phase = Phase::Finished;
                    Action::Finished(Err(PluginError::SpawnFailed))
                }
            },
            Event::Drained(d) => {
                match d {
                    Some(s) => {
                        self.out.write_string(&s);
                    },
                    None => {
                        proof {
                            assert(old(self).out@ + Seq::<char>::empty() =~= old(self).out@);
                        }
                    },
                }
                self.phase = Phase::Finished;
                Action::Finished(Ok(()))
            },
            Event::DrainFailed => {
                self.phase = Phase::Finished;
                Action::Finished(Err(PluginError::DrainFailed))
            },
        }
    }
}

/// Dirty-config composition: with dirty-config enabled, the `config`
/// invocation emits exactly the metadata emission followed by what the
/// no-argument invocation would emit, in that order.
pub proof fn lemma_dirty_config_composition<P: MuninPlugin>(
    plugin: &P,
    config: &Config,
    drained: Option<String>,
)
    requires
        config.dirtyconfig,
    ensures
        invocation_output(plugin, config, Verb::Config, drained) == plugin.config_data()
            + invocation_output(plugin, config, Verb::Fetch, drained),
{
}

/// Pull-mode bypass: with push mode disabled, the no-argument
/// invocation emits exactly one direct run of the sampling collaborator
/// — whatever the cache might have held makes no difference.  (The
/// machine also never issues [`Action::ProbeLock`] or [`Action::Drain`]
/// in this mode: [`Dispatcher::invoke`] finishes the fetch at once.)
pub proof fn lemma_pull_mode_bypass<P: MuninPlugin>(
    plugin: &P,
    config: &Config,
    drained_a: Option<String>,
    drained_b: Option<String>,
)
    requires
        !config.daemonize,
    ensures
        invocation_output(plugin, config, Verb::Fetch, drained_a) == plugin.sample_data(0),
        invocation_output(plugin, config, Verb::Fetch, drained_a) == invocation_output(
            plugin,
            config,
            Verb::Fetch,
            drained_b,
        ),
{
}

} // verus!
