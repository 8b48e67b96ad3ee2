use std::cell::Cell;
use std::ops::Deref;
use std::rc::Rc;
use zula_core::{Plugin, PluginError, PluginHook, ShellState, ZulaError};

struct Greeter;

impl Plugin for Greeter {
    fn name(&self) -> &str {
        "greeter"
    }

    fn call(&self, state: &mut ShellState) -> Result<(), PluginError> {
        state.history.push("hello".to_string());
        Ok(())
    }
}

/// Leaves `call` as the trait has it.
struct Silent;

impl Plugin for Silent {
    fn name(&self) -> &str {
        "silent"
    }
}

/// Reports another name on every call.
struct Fickle {
    asked: Cell<usize>,
}

impl Plugin for Fickle {
    fn name(&self) -> &str {
        let asked = self.asked.get();
        self.asked.set(asked + 1);
        if asked == 0 {
            "first"
        } else {
            "later"
        }
    }
}

/// Counts in `0` how often one of its kind was dropped.
struct Counted(Rc<Cell<usize>>);

impl Plugin for Counted {
    fn name(&self) -> &str {
        "counted"
    }
}

impl Drop for Counted {
    fn drop(&mut self) {
        self.0.set(self.0.get() + 1);
    }
}

struct Broken;

impl Plugin for Broken {
    fn name(&self) -> &str {
        "broken"
    }

    fn call(&self, _state: &mut ShellState) -> Result<(), PluginError> {
        Err(PluginError::new("out of order".to_string()))
    }
}

fn this_module() -> libloading::Library {
    libloading::Library::from(libloading::os::unix::Library::this())
}

fn state_in(dir: &str) -> ShellState {
    ShellState::new(Ok(dir.to_string())).unwrap()
}

#[test]
fn drop() {
    let hook = PluginHook::new(
        this_module(),
        Box::new(Greeter),
        "/home/jamie/.config/zula/plugins/libtest_plugin.so".to_string(),
    );
    assert_eq!(hook.path(), "/home/jamie/.config/zula/plugins/libtest_plugin.so");
}

#[test]
fn hook_reports_name_and_path() {
    let hook = PluginHook::new(this_module(), Box::new(Greeter), "plugins/libgreeter.so".to_string());
    assert_eq!(hook.name(), "greeter");
    assert_eq!(hook.path(), "plugins/libgreeter.so");
}

#[test]
fn hook_keeps_empty_path() {
    let hook = PluginHook::new(this_module(), Box::new(Greeter), String::new());
    assert_eq!(hook.path(), "");
}

#[test]
fn hook_name_is_the_one_reported_at_load() {
    let hook = PluginHook::new(
        this_module(),
        Box::new(Fickle { asked: Cell::new(0) }),
        "p".to_string(),
    );
    assert_eq!(hook.name(), "first");
    assert_eq!(hook.name(), "first");
    assert_eq!(hook.deref().name(), "later");
    assert_eq!(hook.name(), "first");
}

#[test]
fn hook_derefs_to_its_instance() {
    let hook = PluginHook::new(this_module(), Box::new(Greeter), "p".to_string());
    let instance: &Box<dyn Plugin> = hook.deref();
    assert_eq!(instance.name(), "greeter");
}

#[test]
fn call_reaches_the_plugin() {
    let hook = PluginHook::new(this_module(), Box::new(Greeter), "p".to_string());
    let mut state = state_in("/");
    assert!(hook.call(&mut state).is_ok());
    assert_eq!(state.history, vec!["hello".to_string()]);
    assert!(hook.call(&mut state).is_ok());
    assert_eq!(state.history, vec!["hello".to_string(), "hello".to_string()]);
}

#[test]
fn call_does_nothing_by_default() {
    let hook = PluginHook::new(this_module(), Box::new(Silent), "p".to_string());
    let mut state = state_in("/srv");
    assert!(hook.call(&mut state).is_ok());
    assert!(state.history.is_empty());
    assert_eq!(state.get_cwd(), "/srv");
}

#[test]
fn call_hands_back_the_plugins_failure() {
    let hook = PluginHook::new(this_module(), Box::new(Broken), "p".to_string());
    let mut state = state_in("/");
    let failure = hook.call(&mut state).unwrap_err();
    assert_eq!(failure.message, "out of order");
}

#[test]
fn release_hands_back_a_usable_module() {
    let hook = PluginHook::new(this_module(), Box::new(Greeter), "p".to_string());
    let module = hook.release();
    assert!(module.close().is_ok());
}

#[test]
fn unload_reports_success() {
    let hook = PluginHook::new(this_module(), Box::new(Greeter), "here".to_string());
    assert!(matches!(hook.unload(), Ok(())));
}

#[test]
fn unload_releases_the_instance() {
    let drops = Rc::new(Cell::new(0));
    let hook = PluginHook::new(this_module(), Box::new(Counted(drops.clone())), "p".to_string());
    assert_eq!(drops.get(), 0);
    let done: Result<(), ZulaError> = hook.unload();
    assert!(done.is_ok());
    assert_eq!(drops.get(), 1);
}

#[test]
fn release_drops_the_instance_before_the_module_is_handed_back() {
    let drops = Rc::new(Cell::new(0));
    let hook = PluginHook::new(this_module(), Box::new(Counted(drops.clone())), "p".to_string());
    let module = hook.release();
    assert_eq!(drops.get(), 1);
    std::mem::drop(module);
    assert_eq!(drops.get(), 1);
}

#[test]
fn dropping_a_hook_releases_the_instance_once() {
    let drops = Rc::new(Cell::new(0));
    {
        let _hook =
            PluginHook::new(this_module(), Box::new(Counted(drops.clone())), "p".to_string());
        assert_eq!(drops.get(), 0);
    }
    assert_eq!(drops.get(), 1);
}
