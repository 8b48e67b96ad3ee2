//! The shell: the state that plugins work on, the header, and the registry
//! of loaded plugins.
//!
//! The registry and the header stand beside the state, not inside it. A
//! plugin is invoked with the state alone: while it runs it can neither
//! reach the registry it is borrowed from nor be unloaded.

use crate::error::ZulaError;
use crate::header::{builtin_header, seal, Header};
use crate::plug::PluginHook;
use crate::registry::Registry;
use crate::state::ShellState;
use vstd::prelude::*;

verus! {

/// A shell: its state, its header and its plugins.
pub struct Shell {
    /// What plugins and the header are given to work on.
    pub state: ShellState,
    /// Which header `get_header` shows.
    pub header: Header,
    plugins: Registry,
}

impl Shell {
    /// The state that plugins work on.
    pub closed spec fn spec_state(&self) -> ShellState {
        self.state
    }

    /// Which header the shell shows.
    pub closed spec fn spec_header(&self) -> Header {
        self.header
    }

    /// The registered plugins, each under its name.
    pub closed spec fn registry(&self) -> Map<Seq<char>, PluginHook> {
        self.plugins@
    }

    /// A shell around `state`, with the built-in header and no plugins.
    pub fn new(state: ShellState) -> (shell: Shell)
        ensures
            shell.spec_state() == state,
            shell.spec_header() is Builtin,
            shell.registry() == Map::<Seq<char>, PluginHook>::empty(),
    {
        Shell { state, header: Header::Builtin, plugins: Registry::new() }
    }

    /// Returns the header or "status bar": what the header makes of the
    /// state, and the terminal reset behind it in every case.
    pub fn get_header(&self) -> (out: String)
        ensures
            crate::header::ends_with_reset(out@),
            exists|head: Seq<char>| out@ == #[trigger] crate::header::sealed(head),
            self.spec_header() is Builtin ==> out@ == crate::header::sealed(
                crate::header::builtin_text(self.spec_state().spec_cwd()),
            ),
    {
        let head = match &self.header {
            Header::Builtin => builtin_header(&self.state),
            Header::Custom(renderer) => renderer.render(&self.state),
        };
        proof {
            crate::header::law_sealed_ends_with_reset(head@);
        }
        seal(head)
    }

    /// Takes in what the loader made of a plugin module. A hook is
    /// registered under its name; one that was registered under that name
    /// before is torn down and gone. A loader's error is handed on and
    /// changes nothing.
    pub fn load_plugin(&mut self, loaded: Result<PluginHook, libloading::Error>) -> (done: Result<
        (),
        libloading::Error,
    >)
        ensures
            final(self).spec_state() == old(self).spec_state(),
            final(self).spec_header() == old(self).spec_header(),
            (match loaded {
                Ok(hook) => done is Ok && final(self).registry() == old(self).registry().insert(
                    hook.spec_name(),
                    hook,
                ),
                Err(e) => done == Err::<(), libloading::Error>(e) && final(self).registry() == old(
                    self,
                ).registry(),
            }),
    {
        match loaded {
            Ok(hook) => {
                match self.plugins.register(hook) {
                    Some(replaced) => {
                        let _ = replaced.unload();
                    },
                    None => {},
                }
                Ok(())
            },
            Err(e) => Err(e),
        }
    }

    /// Returns a hook to the given plugin if it exists, and `InvalidPlugin`
    /// if it does not.
    pub fn plugin_lookup(&self, name: &str) -> (found: Result<&PluginHook, ZulaError>)
        ensures
            (match found {
                Ok(hook) => self.registry().contains_key(name@) && *hook == self.registry()[name@]
                    && hook.spec_name() == name@,
                Err(e) => !self.registry().contains_key(name@) && e is InvalidPlugin,
            }),
    {
        self.plugins.lookup(name)
    }

    /// Returns the names of the currently loaded plugins, each once, in no
    /// particular order.
    pub fn plugin_names(&self) -> (names: Vec<String>)
        ensures
            crate::registry::lists(names@, self.registry()),
            self.registry().dom().finite(),
            names@.len() == self.registry().len(),
    {
        self.plugins.names()
    }

    /// Invokes the plugin registered under `name` on the state. Without
    /// such a plugin this is `InvalidPlugin` and nothing changes. What the
    /// plugin reports as failed comes back as `Opaque`, as `ZulaError::from`
    /// wraps it. The registry and the header are out of the plugin's reach.
    pub fn invoke(&mut self, name: &str) -> (done: Result<(), ZulaError>)
        ensures
            final(self).registry() == old(self).registry(),
            final(self).spec_header() == old(self).spec_header(),
            !old(self).registry().contains_key(name@) ==> final(self).spec_state() == old(
                self,
            ).spec_state() && done == Err::<(), ZulaError>(ZulaError::InvalidPlugin),
            old(self).registry().contains_key(name@) ==> (done matches Err(e) ==> e is Opaque),
    {
        match self.plugins.lookup(name) {
            Ok(hook) => match hook.call(&mut self.state) {
                Ok(()) => Ok(()),
                Err(failure) => Err(ZulaError::from(failure)),
            },
            Err(e) => Err(e),
        }
    }

    /// Unloads the plugin registered under `name`: takes its hook out of the
    /// registry and tears it down, the instance before the module. Without
    /// such a plugin this is `InvalidPlugin`. The name is free afterwards
    /// whether or not the module closed cleanly; if it did not, that is
    /// reported as `LibErr`.
    pub fn unload_plugin(&mut self, name: &str) -> (done: Result<(), ZulaError>)
        ensures
            final(self).registry() == old(self).registry().remove(name@),
            final(self).spec_state() == old(self).spec_state(),
            final(self).spec_header() == old(self).spec_header(),
            !old(self).registry().contains_key(name@) ==> done == Err::<(), ZulaError>(
                ZulaError::InvalidPlugin,
            ),
            old(self).registry().contains_key(name@) ==> (done matches Err(e) ==> e is LibErr),
    {
        match self.plugins.remove(name) {
            Some(hook) => hook.unload(),
            None => Err(ZulaError::InvalidPlugin),
        }
    }
}

/// Two plugins registered under different names are both there afterwards,
/// each under its own name, and what else was registered is untouched by
/// either.
pub proof fn law_distinct_names_coexist(
    before: Map<Seq<char>, PluginHook>,
    first: PluginHook,
    second: PluginHook,
)
    requires
        first.spec_name() != second.spec_name(),
    ensures
        ({
            let after = before.insert(first.spec_name(), first).insert(
                second.spec_name(),
                second,
            );
            &&& after.contains_key(first.spec_name()) && after[first.spec_name()] == first
            &&& after.contains_key(second.spec_name()) && after[second.spec_name()] == second
            &&& forall|name: Seq<char>|
                name != first.spec_name() && name != second.spec_name() ==> (after.contains_key(
                    name,
                ) == before.contains_key(name)) && (before.contains_key(name) ==> after[name]
                    == before[name])
        }),
{
}

/// Of two plugins registered under one name, the later one is the one that
/// is found.
pub proof fn law_later_registration_wins(
    before: Map<Seq<char>, PluginHook>,
    first: PluginHook,
    second: PluginHook,
)
    requires
        first.spec_name() == second.spec_name(),
    ensures
        before.insert(first.spec_name(), first).insert(second.spec_name(), second)
            == before.insert(second.spec_name(), second),
{
    assert(before.insert(first.spec_name(), first).insert(second.spec_name(), second)
        =~= before.insert(second.spec_name(), second));
}

/// Once a plugin is unloaded nothing is found under its name, and the other
/// plugins are found as before.
pub proof fn law_unloaded_is_not_found(before: Map<Seq<char>, PluginHook>, name: Seq<char>)
    ensures
        !before.remove(name).contains_key(name),
        forall|other: Seq<char>|
            other != name ==> (before.remove(name).contains_key(other) == before.contains_key(
                other,
            )) && (before.contains_key(other) ==> before.remove(name)[other] == before[other]),
{
}

} // verus!
