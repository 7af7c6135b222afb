//! The registry of matchers, tried in the order they were registered.

use vstd::prelude::*;
use vstd::string::*;
use crate::text::{first_from, lower_of, lowercase, str_eq};
use crate::plugin::{CommandResult, Plugin, proposal};
use crate::git::GitPlugin;
use crate::docker::DockerPlugin;

verus! {

/// One of the matchers this library ships.
pub enum BuiltinPlugin {
    Git(GitPlugin),
    Docker(DockerPlugin),
}

impl Plugin for BuiltinPlugin {
    open spec fn spec_name(&self) -> Seq<char> {
        match self {
            BuiltinPlugin::Git(p) => p.spec_name(),
            BuiltinPlugin::Docker(p) => p.spec_name(),
        }
    }

    open spec fn spec_description(&self) -> Seq<char> {
        match self {
            BuiltinPlugin::Git(p) => p.spec_description(),
            BuiltinPlugin::Docker(p) => p.spec_description(),
        }
    }

    open spec fn handles(&self, input: Seq<char>) -> bool {
        match self {
            BuiltinPlugin::Git(p) => p.handles(input),
            BuiltinPlugin::Docker(p) => p.handles(input),
        }
    }

    open spec fn response(&self, input: Seq<char>) -> Option<(Seq<char>, Seq<char>)> {
        match self {
            BuiltinPlugin::Git(p) => p.response(input),
            BuiltinPlugin::Docker(p) => p.response(input),
        }
    }

    fn name(&self) -> (r: &str) {
        match self {
            BuiltinPlugin::Git(p) => p.name(),
            BuiltinPlugin::Docker(p) => p.name(),
        }
    }

    fn description(&self) -> (r: &str) {
        match self {
            BuiltinPlugin::Git(p) => p.description(),
            BuiltinPlugin::Docker(p) => p.description(),
        }
    }

    fn can_handle(&self, input: &str) -> (r: bool) {
        match self {
            BuiltinPlugin::Git(p) => p.can_handle(input),
            BuiltinPlugin::Docker(p) => p.can_handle(input),
        }
    }

    fn handle(&self, input: &str) -> (r: Option<CommandResult>) {
        match self {
            BuiltinPlugin::Git(p) => p.handle(input),
            BuiltinPlugin::Docker(p) => p.handle(input),
        }
    }
}

/// Keeps the registered matchers and hands a request to the first that takes it.
pub struct PluginManager {
    plugins: Vec<BuiltinPlugin>,
}

impl Default for PluginManager {
    fn default() -> (r: Self)
        ensures
            r.spec_plugins().len() == 0,
    {
        PluginManager { plugins: Vec::new() }
    }
}

/// The first matcher, by position, that takes on `input` and proposes something.
pub open spec fn first_taker(ps: Seq<BuiltinPlugin>, input: Seq<char>) -> int {
    first_from(0, ps.len() as int, |i: int| ps[i].handles(input) && ps[i].response(input) is Some)
}

/// The first matcher, by position, whose name is `name` regardless of case.
pub open spec fn first_named(ps: Seq<BuiltinPlugin>, name: Seq<char>) -> int {
    first_from(0, ps.len() as int, |i: int| lower_of(ps[i].spec_name()) == lower_of(name))
}

impl PluginManager {
    pub closed spec fn spec_plugins(&self) -> Seq<BuiltinPlugin> {
        self.plugins@
    }

    pub fn new() -> (r: Self)
        ensures
            r.spec_plugins().len() == 0,
    {
        PluginManager { plugins: Vec::new() }
    }

    /// Adds a matcher after those already registered.
    pub fn register_plugin(&mut self, plugin: BuiltinPlugin)
        ensures
            final(self).spec_plugins() == old(self).spec_plugins().push(plugin),
    {
        self.plugins.push(plugin);
    }

    /// The proposal of the first matcher that takes on `input`, if any.
    pub fn process(&self, input: &str) -> (r: Option<CommandResult>)
        ensures
            ({
                let ps = self.spec_plugins();
                let i = first_taker(ps, input@);
                proposal(r) == if i < ps.len() {
                    ps[i].response(input@)
                } else {
                    None
                }
            }),
            r is Some ==> proposal(r) is Some,
    {
        let ghost ps = self.plugins@;
        let ghost pred = |i: int| ps[i].handles(input@) && ps[i].response(input@) is Some;
        let mut i: usize = 0;
        while i < self.plugins.len()
            invariant
                ps == self.plugins@,
                i <= ps.len(),
                pred == (|i: int| ps[i].handles(input@) && ps[i].response(input@) is Some),
                first_from(0, ps.len() as int, pred) == first_from(i as int, ps.len() as int, pred),
            decreases ps.len() - i,
        {
            let plugin = &self.plugins[i];
            if plugin.can_handle(input) {
                let result = plugin.handle(input);
                if result.is_some() {
                    assert(pred(i as int));
                    assert(first_from(i as int, ps.len() as int, pred) == i as int);
                    return result;
                }
            }
            assert(!pred(i as int));
            i = i + 1;
        }
        None
    }

    /// The first matcher whose name matches `name`, case aside.
    pub fn get_plugin(&self, name: &str) -> (r: Option<&BuiltinPlugin>)
        ensures
            ({
                let ps = self.spec_plugins();
                let i = first_named(ps, name@);
                if i < ps.len() {
                    r == Some(&ps[i])
                } else {
                    r is None
                }
            }),
    {
        let ghost ps = self.plugins@;
        let ghost pred = |i: int| lower_of(ps[i].spec_name()) == lower_of(name@);
        let wanted = lowercase(name);
        let mut i: usize = 0;
        while i < self.plugins.len()
            invariant
                ps == self.plugins@,
                wanted@ == lower_of(name@),
                i <= ps.len(),
                pred == (|i: int| lower_of(ps[i].spec_name()) == lower_of(name@)),
                first_from(0, ps.len() as int, pred) == first_from(i as int, ps.len() as int, pred),
            decreases ps.len() - i,
        {
            let plugin = &self.plugins[i];
            let own = lowercase(plugin.name());
            if str_eq(own.as_str(), wanted.as_str()) {
                assert(pred(i as int));
                assert(first_from(i as int, ps.len() as int, pred) == i as int);
                return Some(plugin);
            }
            i = i + 1;
        }
        None
    }

    /// The name and description of each matcher, in order.
    pub fn list_plugins(&self) -> (r: Vec<(&str, &str)>)
        ensures
            r@.len() == self.spec_plugins().len(),
            forall|i: int|
                0 <= i < r@.len() ==> (#[trigger] r@[i]).0@ == self.spec_plugins()[i].spec_name()
                    && r@[i].1@ == self.spec_plugins()[i].spec_description(),
    {
        let mut r: Vec<(&str, &str)> = Vec::new();
        let mut i: usize = 0;
        while i < self.plugins.len()
            invariant
                i <= self.plugins@.len(),
                r@.len() == i,
                forall|k: int|
                    0 <= k < i ==> (#[trigger] r@[k]).0@ == self.plugins@[k].spec_name() && r@[k].1@
                        == self.plugins@[k].spec_description(),
            decreases self.plugins@.len() - i,
        {
            let p = &self.plugins[i];
            r.push((p.name(), p.description()));
            i = i + 1;
        }
        r
    }

    pub fn plugin_count(&self) -> (r: usize)
        ensures
            r == self.spec_plugins().len(),
    {
        self.plugins.len()
    }
}

} // verus!
