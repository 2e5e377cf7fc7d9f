//! Configuration of a munin plugin.
//!
//! A [`Config`] is built once at startup and read-only afterwards.  The
//! constructors derive the pid-file and cache-file paths from the
//! plugin's name and state directory; the contracts pin both paths down
//! character by character.
//!
//! Munin hands the state directory and the dirty-config capability to a
//! plugin through its environment.  Reading the environment is the
//! caller's concern: the constructors here use the documented fallback
//! directory `/tmp`, and a caller that resolved a different directory
//! builds its `Config` with [`Config::with_statedir`].

use vstd::prelude::*;
use vstd::string::StringExecFns;

verus! {

/// The buffer-size hint both `config_size` and `fetch_size` default to.
pub const DEFAULT_BUFFER_SIZE: usize = 8192;

/// A character from `a-z`, `A-Z` or `0-9`.
pub open spec fn is_alphanumeric_char(c: char) -> bool {
    ('a' <= c && c <= 'z') || ('A' <= c && c <= 'Z') || ('0' <= c && c <= '9')
}

/// Every character of `s` is alphanumeric.
pub open spec fn alphanumeric_seq(s: Seq<char>) -> bool {
    forall|i: int| 0 <= i < s.len() ==> is_alphanumeric_char(#[trigger] s[i])
}

/// The pid-file path derived from a state directory and a plugin name:
/// `<dir>/<name>.pid`.
pub open spec fn derived_pidfile(dir: Seq<char>, name: Seq<char>) -> Seq<char> {
    dir + "/"@ + name + ".pid"@
}

/// The cache-file path derived from a state directory and a plugin
/// name: `<dir>/munin.<name>.value`.
pub open spec fn derived_cache(dir: Seq<char>, name: Seq<char>) -> Seq<char> {
    dir + "/munin."@ + name + ".value"@
}

/// Plugin configuration; immutable after construction.
#[derive(Clone, Debug, PartialEq, Eq, Hash)]
pub struct Config {
    /// The name of the plugin.
    pub plugin_name: String,
    /// The directory the plugin keeps its state files in.
    pub plugin_statedir: String,
    /// Where a streaming plugin's producer appends its samples, and
    /// where the foreground invocation drains them from.
    pub plugin_cache: String,
    /// Whether the collector accepts data directly after metadata.
    pub dirtyconfig: bool,
    /// Whether this plugin runs a continuously sampling background
    /// producer (a *streaming* plugin).
    pub daemonize: bool,
    /// The advisory-lock target that marks a live producer.
    pub pidfile: String,
    /// Output buffer size hint for metadata emission.
    pub config_size: usize,
    /// Output buffer size hint for data emission.
    pub fetch_size: usize,
}

impl Config {
    /// The two managed paths are non-empty and distinct, as every
    /// constructor guarantees.
    pub open spec fn wf(self) -> bool {
        &&& self.pidfile@.len() > 0
        &&& self.plugin_cache@.len() > 0
        &&& self.pidfile@ != self.plugin_cache@
    }

    /// The state directory used when the caller resolved none: `/tmp`.
    fn default_statedir() -> (r: String)
        ensures
            r@ == "/tmp"@,
    {
        String::from_str("/tmp")
    }

    /// Build a configuration with every path derived from the given
    /// state directory and plugin name.
    pub fn with_statedir(plugin_name: String, statedir: String, daemonize: bool) -> (r: Self)
        ensures
            r.plugin_name@ == plugin_name@,
            r.plugin_statedir@ == statedir@,
            r.plugin_cache@ == derived_cache(statedir@, plugin_name@),
            r.pidfile@ == derived_pidfile(statedir@, plugin_name@),
            r.dirtyconfig == false,
            r.daemonize == daemonize,
            r.config_size == DEFAULT_BUFFER_SIZE,
            r.fetch_size == DEFAULT_BUFFER_SIZE,
            r.wf(),
    {
        let mut pidfile = statedir.clone();
        pidfile.append("/");
        pidfile.append(plugin_name.as_str());
        pidfile.append(".pid");

        let mut cache = statedir.clone();
        cache.append("/munin.");
        cache.append(plugin_name.as_str());
        cache.append(".value");

        proof {
            reveal_strlit(".pid");
            reveal_strlit(".value");
            assert(pidfile@.len() > 0);
            assert(cache@.len() > 0);
            assert(pidfile@[pidfile@.len() - 1] == 'd');
            assert(cache@[cache@.len() - 1] == 'e');
        }

        Config {
            plugin_name,
            plugin_statedir: statedir,
            plugin_cache: cache,
            dirtyconfig: false,
            daemonize,
            pidfile,
            config_size: DEFAULT_BUFFER_SIZE,
            fetch_size: DEFAULT_BUFFER_SIZE,
        }
    }

    /// Shared body of [`Config::new`] and [`Config::new_daemon`]:
    /// derive both paths in the fallback state directory.
    fn realnew(plugin_name: String, daemonize: bool) -> (r: Self)
        ensures
            r.plugin_name@ == plugin_name@,
            r.plugin_statedir@ == "/tmp"@,
            r.plugin_cache@ == derived_cache("/tmp"@, plugin_name@),
            r.pidfile@ == derived_pidfile("/tmp"@, plugin_name@),
            r.dirtyconfig == false,
            r.daemonize == daemonize,
            r.config_size == DEFAULT_BUFFER_SIZE,
            r.fetch_size == DEFAULT_BUFFER_SIZE,
            r.wf(),
    {
        Config::with_statedir(plugin_name, Config::default_statedir(), daemonize)
    }

    /// Create a configuration for a standard (one-shot) plugin with the
    /// given name; the pid file and the cache file land in the state
    /// directory under names derived from the plugin name.
    pub fn new(plugin_name: String) -> (r: Self)
        ensures
            r.plugin_name@ == plugin_name@,
            r.plugin_statedir@ == "/tmp"@,
            r.plugin_cache@ == derived_cache("/tmp"@, plugin_name@),
            r.pidfile@ == derived_pidfile("/tmp"@, plugin_name@),
            r.dirtyconfig == false,
            r.daemonize == false,
            r.config_size == DEFAULT_BUFFER_SIZE,
            r.fetch_size == DEFAULT_BUFFER_SIZE,
            r.wf(),
    {
        Config::realnew(plugin_name, false)
    }

    /// Create a configuration for a streaming (daemonizing) plugin with
    /// the given name.
    pub fn new_daemon(plugin_name: String) -> (r: Self)
        ensures
            r.plugin_name@ == plugin_name@,
            r.plugin_statedir@ == "/tmp"@,
            r.plugin_cache@ == derived_cache("/tmp"@, plugin_name@),
            r.pidfile@ == derived_pidfile("/tmp"@, plugin_name@),
            r.dirtyconfig == false,
            r.daemonize == true,
            r.config_size == DEFAULT_BUFFER_SIZE,
            r.fetch_size == DEFAULT_BUFFER_SIZE,
            r.wf(),
    {
        Config::realnew(plugin_name, true)
    }
}

/// Relies on `fastrand::alphanumeric`: a random character drawn from
/// `a-z`, `A-Z`, `0-9`.
#[verifier::external_body]
fn random_alphanumeric() -> (c: char)
    ensures
        is_alphanumeric_char(c),
{
    fastrand::alphanumeric()
}

/// A freshly drawn string of `len` random alphanumeric characters.
fn random_name_fragment(len: usize) -> (r: String)
    ensures
        r@.len() == len,
        alphanumeric_seq(r@),
{
    let mut s = String::new();
    let mut i: usize = 0;
    while i < len
        invariant
            i <= len,
            s@.len() == i,
            alphanumeric_seq(s@),
        decreases len - i,
    {
        let c = random_alphanumeric();
        push_char(&mut s, c);
        i = i + 1;
    }
    s
}

/// Relies on `String::push`: appends exactly the given character.
#[verifier::external_body]
fn push_char(s: &mut String, c: char)
    ensures
        final(s)@ == old(s)@.push(c),
{
    s.push(c);
}

impl Default for Config {
    /// The defaults a plugin gets when it names nothing itself: the
    /// fallback state directory, a generic pid-file name, and a cache
    /// file named after a fresh random ten-character string, so that
    /// unrelated anonymous plugins do not collide on one cache.
    fn default() -> (r: Self)
        ensures
            r.plugin_name@ == "Simple munin plugin in Rust"@,
            r.plugin_statedir@ == "/tmp"@,
            r.pidfile@ == "/tmp/munin-plugin.pid"@,
            r.dirtyconfig == false,
            r.daemonize == false,
            r.config_size == DEFAULT_BUFFER_SIZE,
            r.fetch_size == DEFAULT_BUFFER_SIZE,
            exists|insert: Seq<char>|
                insert.len() == 10 && #[trigger] alphanumeric_seq(insert) && r.plugin_cache@
                    == "/tmp/munin."@ + insert + ".value"@,
            r.wf(),
    {
        let insert = random_name_fragment(10);
        let mut cache = String::from_str("/tmp/munin.");
        cache.append(insert.as_str());
        cache.append(".value");

        proof {
            reveal_strlit("/tmp/munin-plugin.pid");
            reveal_strlit(".value");
            assert(cache@ == "/tmp/munin."@ + insert@ + ".value"@);
            assert(cache@.len() > 0);
            assert(cache@[cache@.len() - 1] == 'e');
            assert("/tmp/munin-plugin.pid"@["/tmp/munin-plugin.pid"@.len() - 1] == 'd');
        }

        Config {
            plugin_name: String::from_str("Simple munin plugin in Rust"),
            plugin_statedir: String::from_str("/tmp"),
            plugin_cache: cache,
            dirtyconfig: false,
            daemonize: false,
            pidfile: String::from_str("/tmp/munin-plugin.pid"),
            config_size: DEFAULT_BUFFER_SIZE,
            fetch_size: DEFAULT_BUFFER_SIZE,
        }
    }
}

} // verus!
