//! The plugin registry: loaded hooks, found by the name under which each
//! plugin is registered.
//!
//! To its users the registry is a map from names to hooks. It keeps the hooks
//! in a vector in which no name occurs twice.

use crate::error::ZulaError;
use crate::plug::PluginHook;
use crate::state::same_text;
use vstd::prelude::*;

verus! {

/// Whether some hook in `hooks` is registered under `name`.
spec fn holds(hooks: Seq<PluginHook>, name: Seq<char>) -> bool {
    exists|i: int| 0 <= i < hooks.len() && (#[trigger] hooks[i]).spec_name() == name
}

/// Where in `hooks` the hook registered under `name` stands.
spec fn position(hooks: Seq<PluginHook>, name: Seq<char>) -> int {
    choose|i: int| 0 <= i < hooks.len() && (#[trigger] hooks[i]).spec_name() == name
}

/// No two hooks in `hooks` are registered under the same name.
spec fn distinct(hooks: Seq<PluginHook>) -> bool {
    forall|i: int, j: int|
        0 <= i < j < hooks.len() ==> (#[trigger] hooks[i]).spec_name() != (
        #[trigger] hooks[j]).spec_name()
}

/// The map that `hooks` stands for: each hook under its own name.
spec fn table(hooks: Seq<PluginHook>) -> Map<Seq<char>, PluginHook> {
    Map::new(|name: Seq<char>| holds(hooks, name), |name: Seq<char>| hooks[position(hooks, name)])
}

/// Whether `names` lists the names in `table`, each once.
pub open spec fn lists(names: Seq<String>, table: Map<Seq<char>, PluginHook>) -> bool {
    &&& forall|i: int, j: int|
        0 <= i < j < names.len() ==> (#[trigger] names[i])@ != (#[trigger] names[j])@
    &&& forall|i: int| 0 <= i < names.len() ==> table.contains_key((#[trigger] names[i])@)
    &&& forall|name: Seq<char>| #[trigger]
        table.contains_key(name) ==> exists|i: int|
            0 <= i < names.len() && (#[trigger] names[i])@ == name
}

proof fn lemma_found(hooks: Seq<PluginHook>, i: int)
    requires
        distinct(hooks),
        0 <= i < hooks.len(),
    ensures
        holds(hooks, hooks[i].spec_name()),
        position(hooks, hooks[i].spec_name()) == i,
        table(hooks).contains_key(hooks[i].spec_name()),
        table(hooks)[hooks[i].spec_name()] == hooks[i],
{
    let name = hooks[i].spec_name();
    let at = position(hooks, name);
    assert(0 <= at < hooks.len() && hooks[at].spec_name() == name);
    if at < i {
        assert(hooks[at].spec_name() != hooks[i].spec_name());
    } else if i < at {
        assert(hooks[i].spec_name() != hooks[at].spec_name());
    }
}

proof fn lemma_filed_under_own_name(hooks: Seq<PluginHook>, name: Seq<char>)
    requires
        table(hooks).contains_key(name),
    ensures
        table(hooks)[name].spec_name() == name,
        0 <= position(hooks, name) < hooks.len(),
        table(hooks)[name] == hooks[position(hooks, name)],
{
}

proof fn lemma_pushed(hooks: Seq<PluginHook>, hook: PluginHook)
    requires
        distinct(hooks),
        !holds(hooks, hook.spec_name()),
    ensures
        distinct(hooks.push(hook)),
        table(hooks.push(hook)) == table(hooks).insert(hook.spec_name(), hook),
{
    let more = hooks.push(hook);
    assert forall|i: int, j: int| 0 <= i < j < more.len() implies (#[trigger] more[i]).spec_name()
        != (#[trigger] more[j]).spec_name() by {
        if j < hooks.len() {
            assert(hooks[i].spec_name() != hooks[j].spec_name());
        } else {
            assert(hooks[i].spec_name() != hook.spec_name());
        }
    }
    assert forall|name: Seq<char>|
        table(more).contains_key(name) == table(hooks).insert(
            hook.spec_name(),
            hook,
        ).contains_key(name) by {
        if holds(hooks, name) {
            let i = position(hooks, name);
            assert(more[i].spec_name() == name);
        }
        if name == hook.spec_name() {
            assert(more[hooks.len() as int].spec_name() == name);
        }
        if holds(more, name) {
            let i = position(more, name);
            if i < hooks.len() {
                assert(hooks[i].spec_name() == name);
            }
        }
    }
    assert forall|name: Seq<char>| table(more).contains_key(name) implies table(more)[name]
        == table(hooks).insert(hook.spec_name(), hook)[name] by {
        let i = position(more, name);
        lemma_found(more, i);
        if i < hooks.len() {
            lemma_found(hooks, i);
        }
    }
    assert(table(more) =~= table(hooks).insert(hook.spec_name(), hook));
}

proof fn lemma_removed(hooks: Seq<PluginHook>, at: int)
    requires
        distinct(hooks),
        0 <= at < hooks.len(),
    ensures
        distinct(hooks.remove(at)),
        !holds(hooks.remove(at), hooks[at].spec_name()),
        table(hooks.remove(at)) == table(hooks).remove(hooks[at].spec_name()),
{
    let fewer = hooks.remove(at);
    let gone = hooks[at].spec_name();
    assert forall|i: int| 0 <= i < fewer.len() implies (#[trigger] fewer[i]).spec_name()
        != gone by {
        if i < at {
            assert(hooks[i].spec_name() != hooks[at].spec_name());
        } else {
            assert(hooks[at].spec_name() != hooks[i + 1].spec_name());
        }
    }
    assert forall|i: int, j: int| 0 <= i < j < fewer.len() implies (
    #[trigger] fewer[i]).spec_name() != (#[trigger] fewer[j]).spec_name() by {
        let from_i = if i < at { i } else { i + 1 };
        let from_j = if j < at { j } else { j + 1 };
        assert(hooks[from_i].spec_name() != hooks[from_j].spec_name());
    }
    assert forall|name: Seq<char>|
        table(fewer).contains_key(name) == table(hooks).remove(gone).contains_key(name) by {
        if holds(fewer, name) {
            let i = position(fewer, name);
            let from = if i < at { i } else { i + 1 };
            assert(hooks[from].spec_name() == name);
        }
        if holds(hooks, name) && name != gone {
            let i = position(hooks, name);
            let to = if i < at { i } else { i - 1 };
            assert(fewer[to].spec_name() == name);
        }
    }
    assert forall|name: Seq<char>| table(fewer).contains_key(name) implies table(fewer)[name]
        == table(hooks).remove(gone)[name] by {
        let i = position(fewer, name);
        lemma_found(fewer, i);
        let from = if i < at { i } else { i + 1 };
        lemma_found(hooks, from);
    }
    assert(table(fewer) =~= table(hooks).remove(gone));
}

proof fn lemma_size(hooks: Seq<PluginHook>)
    requires
        distinct(hooks),
    ensures
        table(hooks).dom().finite(),
        table(hooks).dom().len() == hooks.len(),
    decreases hooks.len(),
{
    if hooks.len() == 0 {
        assert(table(hooks).dom() =~= Set::<Seq<char>>::empty());
    } else {
        let front = hooks.drop_last();
        let last = hooks.last();
        assert forall|i: int, j: int| 0 <= i < j < front.len() implies (
        #[trigger] front[i]).spec_name() != (#[trigger] front[j]).spec_name() by {
            assert(hooks[i].spec_name() != hooks[j].spec_name());
        }
        assert forall|i: int| 0 <= i < front.len() implies (#[trigger] front[i]).spec_name()
            != last.spec_name() by {
            assert(hooks[i].spec_name() != hooks[hooks.len() - 1].spec_name());
        }
        lemma_size(front);
        lemma_pushed(front, last);
        assert(front.push(last) =~= hooks);
        assert(table(hooks).dom() =~= table(front).dom().insert(last.spec_name()));
    }
}

/// A name-keyed collection of hooks.
pub struct Registry {
    hooks: Vec<PluginHook>,
}

impl View for Registry {
    type V = Map<Seq<char>, PluginHook>;

    closed spec fn view(&self) -> Map<Seq<char>, PluginHook> {
        table(self.hooks@)
    }
}

impl Registry {
    #[verifier::type_invariant]
    spec fn names_are_distinct(self) -> bool {
        distinct(self.hooks@)
    }

    /// An empty registry.
    pub fn new() -> (registry: Registry)
        ensures
            registry@ == Map::<Seq<char>, PluginHook>::empty(),
    {
        let registry = Registry { hooks: Vec::new() };
        assert(registry@ =~= Map::<Seq<char>, PluginHook>::empty());
        registry
    }

    fn find(&self, name: &str) -> (at: Option<usize>)
        ensures
            (match at {
                Some(i) => i < self.hooks@.len() && self.hooks@[i as int].spec_name() == name@,
                None => !holds(self.hooks@, name@),
            }),
    {
        let mut i: usize = 0;
        while i < self.hooks.len()
            invariant
                i <= self.hooks@.len(),
                forall|j: int| 0 <= j < i ==> (#[trigger] self.hooks@[j]).spec_name() != name@,
            decreases self.hooks@.len() - i,
        {
            if same_text(self.hooks[i].name(), name) {
                return Some(i);
            }
            i += 1;
        }
        None
    }

    /// The number of registered plugins.
    pub fn len(&self) -> (count: usize)
        ensures
            self@.dom().finite(),
            count == self@.len(),
    {
        proof {
            use_type_invariant(self);
            lemma_size(self.hooks@);
        }
        self.hooks.len()
    }

    /// Registers `hook` under its name. A hook that was registered under the
    /// same name gives way to the new one and is handed back.
    pub fn register(&mut self, hook: PluginHook) -> (replaced: Option<PluginHook>)
        ensures
            final(self)@ == old(self)@.insert(hook.spec_name(), hook),
            (replaced == if old(self)@.contains_key(hook.spec_name()) {
                Some(old(self)@[hook.spec_name()])
            } else {
                None::<PluginHook>
            }),
    {
        proof {
            use_type_invariant(&*self);
        }
        let at = self.find(hook.name());
        let mut hooks: Vec<PluginHook> = Vec::new();
        std::mem::swap(&mut hooks, &mut self.hooks);
        let replaced = match at {
            Some(i) => {
                proof {
                    lemma_found(hooks@, i as int);
                    lemma_removed(hooks@, i as int);
                }
                Some(hooks.remove(i))
            },
            None => None,
        };
        proof {
            lemma_pushed(hooks@, hook);
            assert(old(self)@.remove(hook.spec_name()).insert(hook.spec_name(), hook)
                =~= old(self)@.insert(hook.spec_name(), hook));
        }
        hooks.push(hook);
        self.hooks = hooks;
        replaced
    }

    /// The hook registered under `name`, or `InvalidPlugin` where there is
    /// none.
    pub fn lookup(&self, name: &str) -> (found: Result<&PluginHook, ZulaError>)
        ensures
            (match found {
                Ok(hook) => self@.contains_key(name@) && *hook == self@[name@]
                    && hook.spec_name() == name@,
                Err(e) => !self@.contains_key(name@) && e is InvalidPlugin,
            }),
    {
        proof {
            use_type_invariant(self);
        }
        match self.find(name) {
            Some(i) => {
                proof {
                    lemma_found(self.hooks@, i as int);
                }
                Ok(&self.hooks[i])
            },
            None => Err(ZulaError::InvalidPlugin),
        }
    }

    /// Takes the hook registered under `name` out of the registry.
    pub fn remove(&mut self, name: &str) -> (taken: Option<PluginHook>)
        ensures
            final(self)@ == old(self)@.remove(name@),
            (taken == if old(self)@.contains_key(name@) {
                Some(old(self)@[name@])
            } else {
                None::<PluginHook>
            }),
    {
        proof {
            use_type_invariant(&*self);
        }
        match self.find(name) {
            Some(i) => {
                let mut hooks: Vec<PluginHook> = Vec::new();
                std::mem::swap(&mut hooks, &mut self.hooks);
                proof {
                    lemma_found(hooks@, i as int);
                    lemma_removed(hooks@, i as int);
                }
                let taken = hooks.remove(i);
                self.hooks = hooks;
                Some(taken)
            },
            None => {
                assert(old(self)@.remove(name@) =~= old(self)@);
                None
            },
        }
    }

    /// The names of the registered plugins, each once, in no particular
    /// order.
    pub fn names(&self) -> (names: Vec<String>)
        ensures
            lists(names@, self@),
            self@.dom().finite(),
            names@.len() == self@.len(),
    {
        proof {
            use_type_invariant(self);
            lemma_size(self.hooks@);
        }
        let mut names: Vec<String> = Vec::new();
        let mut i: usize = 0;
        while i < self.hooks.len()
            invariant
                i <= self.hooks@.len(),
                names@.len() == i,
                forall|j: int| 0 <= j < i ==> (#[trigger] names@[j])@ == self.hooks@[j].spec_name(),
            decreases self.hooks@.len() - i,
        {
            names.push(self.hooks[i].name().to_owned());
            i += 1;
        }
        proof {
            assert forall|a: int, b: int| 0 <= a < b < names@.len() implies (#[trigger] names@[a])@
                != (#[trigger] names@[b])@ by {
                assert(self.hooks@[a].spec_name() != self.hooks@[b].spec_name());
            }
            assert forall|a: int| 0 <= a < names@.len() implies self@.contains_key(
                (#[trigger] names@[a])@,
            ) by {
                lemma_found(self.hooks@, a);
            }
            assert forall|name: Seq<char>| #[trigger] self@.contains_key(name) implies exists|a: int|
                0 <= a < names@.len() && (#[trigger] names@[a])@ == name by {
                lemma_filed_under_own_name(self.hooks@, name);
                let at = position(self.hooks@, name);
                assert(names@[at]@ == name);
            }
        }
        names
    }
}

} // verus!
