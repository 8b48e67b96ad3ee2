//! Plugins: what a plugin has to offer, and the hook that keeps a loaded
//! plugin together with the module its code lives in.

use crate::error::{PluginError, ZulaError};
use crate::state::ShellState;
use vstd::prelude::*;

verus! {

/// `libloading::Library`: a loaded module, carried through as an opaque
/// value.
#[verifier::external_type_specification]
#[verifier::external_body]
pub struct ExLibrary(libloading::Library);

/// `libloading::Library::close` unloads the module and reports whether the
/// operating system accepted that. Nothing is claimed of its answer.
pub assume_specification[ libloading::Library::close ](module: libloading::Library) -> (closed:
    Result<(), libloading::Error>)
;

/// The plugin trait that defines how a plugin object acts.
pub trait Plugin {
    /// Return the display name of your plugin. The name is what the plugin is
    /// registered under: it should not be empty, and should be the same on
    /// every call.
    fn name(&self) -> &str;

    /// The "heart" of the plugin; this is called with the syntax
    /// `plugin.<name>`. The state is lent for the length of the call. A
    /// plugin that does not write its own succeeds and leaves the state
    /// alone.
    fn call(&self, state: &mut ShellState) -> (done: Result<(), PluginError>) {
        Ok(())
    }
}

/// Represents a plugin object. Not very useful outside of internal functions.
///
/// The code behind `obj` lives in `hook`, so `obj` has to go first: the
/// fields stand in the order in which they are released.
pub struct PluginHook {
    obj: Box<dyn Plugin>,
    hook: libloading::Library,
    path: String,
    name: String,
}

impl PluginHook {
    /// The plugin instance.
    pub closed spec fn instance(&self) -> &Box<dyn Plugin> {
        &self.obj
    }

    /// The module that the instance's code lives in.
    pub closed spec fn module(&self) -> libloading::Library {
        self.hook
    }

    /// Where the module was loaded from.
    pub closed spec fn spec_path(&self) -> Seq<char> {
        self.path@
    }

    /// The name that the instance reported when the hook was made.
    pub closed spec fn spec_name(&self) -> Seq<char> {
        self.name@
    }

    /// Bundles a loaded module with the instance that its entry symbol
    /// produced, and asks the instance once for its name. The caller vouches
    /// that `obj` came out of `hook`.
    pub fn new(hook: libloading::Library, obj: Box<dyn Plugin>, path: String) -> (made: PluginHook)
        ensures
            made.module() == hook,
            made.spec_path() == path@,
    {
        let name = obj.name().to_owned();
        PluginHook { obj, hook, path, name }
    }

    /// The name under which the plugin is registered: the one its instance
    /// reported when the hook was made, the same on every call.
    pub fn name(&self) -> (name: &str)
        ensures
            name@ == self.spec_name(),
    {
        self.name.as_str()
    }

    /// Where the module was loaded from.
    pub fn path(&self) -> (path: &str)
        ensures
            path@ == self.spec_path(),
    {
        self.path.as_str()
    }

    /// Invokes the plugin on `state`. What comes back, and what has become
    /// of the state, is the plugin's doing.
    pub fn call(&self, state: &mut ShellState) -> (done: Result<(), PluginError>) {
        self.obj.call(state)
    }

    /// Gives up the instance and hands back the module it lived in. This is
    /// the only way to the module, so no module is closed under a live
    /// instance.
    pub fn release(self) -> (module: libloading::Library)
        ensures
            module == self.module(),
    {
        let PluginHook { obj, hook, path: _, name: _ } = self;
        {
            let _instance = obj;
        }
        hook
    }

    /// Tears the hook down: the instance first, then the module. Whether the
    /// module closes is for the operating system to say; what it says comes
    /// back as `ZulaError::close_result` reads it, so a failure is `LibErr`.
    pub fn unload(self) -> (done: Result<(), ZulaError>)
        ensures
            done matches Err(e) ==> e is LibErr,
    {
        let module = self.release();
        ZulaError::close_result(module.close())
    }
}

/// The instance itself, for whoever wants to ask it directly.
impl std::ops::Deref for PluginHook {
    type Target = Box<dyn Plugin>;

    fn deref(&self) -> (instance: &Box<dyn Plugin>)
        ensures
            instance == self.instance(),
    {
        &self.obj
    }
}

} // verus!
