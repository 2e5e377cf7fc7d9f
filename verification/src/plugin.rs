//! The capability interface a plugin implements, and the behaviour
//! provided on top of it.
//!
//! A plugin supplies two things: how to emit its graph metadata
//! ([`MuninPlugin::config`]) and how to compute one batch of samples
//! ([`MuninPlugin::acquire`]).  Each carries an abstract specification
//! — *what* text it emits and *when* it succeeds — that the plugin's
//! implementation must live up to, and that everything provided here is
//! verified against: the `yes`/`no` autoconf answer, the fetch step
//! that serves either drained cache text (streaming) or a fresh sample
//! (standard), and the single producer iteration a streaming plugin's
//! background process repeats once per second.

use vstd::prelude::*;
use crate::config::Config;
use crate::error::PluginError;
use crate::output::OutputBuffer;

verus! {

/// The text a drain handed over: the drained cache contents, or
/// nothing where the cache file did not exist yet.
pub open spec fn drained_text(drained: Option<String>) -> Seq<char> {
    match drained {
        Some(s) => s@,
        None => Seq::<char>::empty(),
    }
}

/// What a successful fetch emits: for a streaming plugin the drained
/// cache text, for a standard plugin one freshly acquired sample batch
/// (with no epoch, hence epoch 0).
pub open spec fn fetch_output<P: MuninPlugin>(
    plugin: &P,
    config: &Config,
    drained: Option<String>,
) -> Seq<char> {
    if config.daemonize {
        drained_text(drained)
    } else {
        plugin.sample_data(0)
    }
}

/// A munin plugin: the two required capabilities with their abstract
/// specifications, and the provided behaviour built on them.
pub trait MuninPlugin: Sized {
    /// The metadata text this plugin's `config` emits.  A verified
    /// plugin overrides this alongside `config`.
    open spec fn config_data(&self) -> Seq<char> {
        Seq::<char>::empty()
    }

    /// Whether this plugin's `config` succeeds.
    open spec fn config_ok(&self) -> bool {
        true
    }

    /// The sample text one `acquire` at the given epoch emits.  A
    /// verified plugin overrides this alongside `acquire`.
    open spec fn sample_data(&self, epoch: u64) -> Seq<char> {
        Seq::<char>::empty()
    }

    /// Whether one `acquire` at the given epoch succeeds.
    open spec fn sample_ok(&self, epoch: u64) -> bool {
        true
    }

    /// Whether this plugin can configure itself; answered by
    /// [`MuninPlugin::check_autoconf`].
    open spec fn autoconf_supported(&self) -> bool {
        false
    }

    /// Emit the munin graph configuration to `handle`.  On success it
    /// appends exactly [`MuninPlugin::config_data`]; on failure it may
    /// leave a partial prefix of it behind.
    fn config(&self, handle: &mut OutputBuffer) -> (r: Result<(), PluginError>)
        ensures
            r is Ok <==> self.config_ok(),
            r is Ok ==> final(handle)@ == old(handle)@ + self.config_data(),
            old(handle)@.is_prefix_of(final(handle)@),
    ;

    /// Gather one batch of samples for the given epoch and append it to
    /// `handle`.  A standard plugin is called with epoch 0 and writes
    /// `field.value VALUE` lines; a streaming plugin is called once per
    /// second and writes `field.value EPOCH:VALUE` lines.
    fn acquire(&self, handle: &mut OutputBuffer, config: &Config, epoch: u64) -> (r: Result<
        (),
        PluginError,
    >)
        ensures
            r is Ok <==> self.sample_ok(epoch),
            r is Ok ==> final(handle)@ == old(handle)@ + self.sample_data(epoch),
            old(handle)@.is_prefix_of(final(handle)@),
    ;

    /// Whether the plugin can configure itself: the answer behind the
    /// `autoconf` verb, and the executable side of
    /// [`MuninPlugin::autoconf_supported`].  A plugin that cannot
    /// detect anything answers `false`.
    fn check_autoconf(&self) -> (r: bool)
        ensures
            r == self.autoconf_supported(),
    ;

    /// Answer the collector's `autoconf` question: exactly `yes` or
    /// `no`, plus a newline.
    fn autoconf(&self, handle: &mut OutputBuffer)
        ensures
            final(handle)@ == old(handle)@ + (if self.autoconf_supported() {
                "yes\n"@
            } else {
                "no\n"@
            }),
    {
        if self.check_autoconf() {
            handle.write_line("yes");
            proof {
                reveal_strlit("yes");
                reveal_strlit("\n");
                reveal_strlit("yes\n");
                assert("yes"@ + "\n"@ =~= "yes\n"@);
            }
        } else {
            handle.write_line("no");
            proof {
                reveal_strlit("no");
                reveal_strlit("\n");
                reveal_strlit("no\n");
                assert("no"@ + "\n"@ =~= "no\n"@);
            }
        }
    }

    /// Serve data to the collector.  A streaming plugin appends the
    /// text the caller drained from the cache (nothing, if the cache
    /// file did not exist); a standard plugin acquires one batch
    /// directly.  Either way `handle` grows by exactly
    /// [`fetch_output`] on success.
    fn fetch(&self, handle: &mut OutputBuffer, config: &Config, drained: Option<String>) -> (r:
        Result<(), PluginError>)
        ensures
            r is Ok <==> (config.daemonize || self.sample_ok(0)),
            r is Ok ==> final(handle)@ == old(handle)@ + (if config.daemonize {
                drained_text(drained)
            } else {
                self.sample_data(0)
            }),
            old(handle)@.is_prefix_of(final(handle)@),
    {
        if config.daemonize {
            match drained {
                Some(s) => {
                    handle.write_string(&s);
                },
                None => {
                    proof {
                        assert(old(handle)@ + Seq::<char>::empty() =~= old(handle)@);
                    }
                },
            }
            Ok(())
        } else {
            self.acquire(handle, config, 0)
        }
    }
}

/// One iteration of a streaming plugin's producer: acquire one sample
/// batch for the given epoch into a fresh buffer, and hand the caller
/// the complete text to append to the cache.  Handing the text over as
/// one closed batch is what keeps a partially written line from ever
/// becoming visible to a concurrent drain.
pub fn produce_sample<P: MuninPlugin>(plugin: &P, config: &Config, epoch: u64) -> (r: Result<
    String,
    PluginError,
>)
    ensures
        r is Ok <==> plugin.sample_ok(epoch),
        r is Ok ==> r->Ok_0@ == plugin.sample_data(epoch),
{
    let mut handle = OutputBuffer::new();
    match plugin.acquire(&mut handle, config, epoch) {
        Ok(()) => Ok(handle.into_string()),
        Err(e) => Err(e),
    }
}

} // verus!
