//! Containers: named sessions with permissions of their own, and the
//! registry that owns them. The container named `default` always exists.

use vstd::prelude::*;
use vstd::string::StringExecFns;
use crate::ast::ContainerOptions;
use crate::bridge::{format_moment, is_moment, moment_text, Timestamp};
use crate::context::{Context, ContextView};
use crate::error::{ArtaError, ErrorView};
use crate::results::{ContainerInfo, ContainerInfoView};
use crate::text::{join3, text_eq};

verus! {

/// The name of the container that is always there.
pub const DEFAULT_CONTAINER: &'static str = "default";

/// A named session with its permissions.
#[derive(Debug)]
pub struct Container {
    pub name: String,
    pub context: Context,
    /// Whether `DELETE` and `KILL` may run in it.
    pub allow_actions: bool,
    /// Whether it refuses file modifications.
    pub readonly: bool,
    pub created_at: Timestamp,
}

/// The model of `Container`.
pub ghost struct ContainerView {
    pub name: Seq<char>,
    pub context: ContextView,
    pub allow_actions: bool,
    pub readonly: bool,
    pub created_at: Timestamp,
}

impl Container {
    pub open spec fn view(&self) -> ContainerView {
        ContainerView {
            name: self.name@,
            context: self.context@,
            allow_actions: self.allow_actions,
            readonly: self.readonly,
            created_at: self.created_at,
        }
    }

    /// A container with a fresh session in `start_folder`.
    pub fn new(name: String, options: ContainerOptions, start_folder: String, now: Timestamp) -> (r:
        Container)
        ensures
            r@ == fresh(name@, options, start_folder@, now),
            r.context.wf(),
    {
        let context = Context::new(start_folder);
        let r = Container {
            name,
            context,
            allow_actions: options.allow_actions,
            readonly: options.readonly,
            created_at: now,
        };
        assert(r@.context.variables =~= Seq::empty());
        assert(r@.context.history =~= Seq::empty());
        r
    }

    /// A container without permissions.
    pub fn new_default(name: String, start_folder: String, now: Timestamp) -> (r: Container)
        ensures
            r@ == fresh(
                name@,
                ContainerOptions { allow_actions: false, readonly: false },
                start_folder@,
                now,
            ),
            r.context.wf(),
    {
        Container::new(
            name,
            ContainerOptions { allow_actions: false, readonly: false },
            start_folder,
            now,
        )
    }

    /// A container of the same name, permissions and age, with a fresh
    /// session in `start_folder`.
    pub fn fresh_copy(&self, start_folder: String) -> (r: Container)
        ensures
            r@ == fresh(
                self.name@,
                ContainerOptions { allow_actions: self.allow_actions, readonly: self.readonly },
                start_folder@,
                self.created_at,
            ),
            r.context.wf(),
    {
        Container::new(
            self.name.clone(),
            ContainerOptions { allow_actions: self.allow_actions, readonly: self.readonly },
            start_folder,
            self.created_at,
        )
    }

    /// The session of the container.
    pub fn context(&self) -> (r: &Context)
        ensures
            *r == self.context,
    {
        &self.context
    }

    /// The session of the container, to work in.
    pub fn context_mut(&mut self) -> (r: &mut Context)
        ensures
            *r == old(self).context,
            *final(self) == (Container { context: *final(r), ..*old(self) }),
    {
        &mut self.context
    }

    /// Whether `DELETE` and `KILL` may run in the container.
    pub fn actions_allowed(&self) -> (r: bool)
        ensures
            r == self.allow_actions,
    {
        self.allow_actions
    }

    /// Whether the container refuses file modifications.
    pub fn is_readonly(&self) -> (r: bool)
        ensures
            r == self.readonly,
    {
        self.readonly
    }
}

/// A container as it is right after its creation.
pub open spec fn fresh(
    name: Seq<char>,
    options: ContainerOptions,
    start_folder: Seq<char>,
    now: Timestamp,
) -> ContainerView {
    ContainerView {
        name,
        context: ContextView {
            folders: seq![start_folder],
            file: None,
            variables: Seq::empty(),
            history: Seq::empty(),
        },
        allow_actions: options.allow_actions,
        readonly: options.readonly,
        created_at: now,
    }
}

/// The index of the container named `name`.
pub open spec fn find_container(containers: Seq<ContainerView>, name: Seq<char>) -> Option<int>
    decreases containers.len(),
{
    if containers.len() == 0 {
        None
    } else {
        match find_container(containers.drop_last(), name) {
            Some(i) => Some(i),
            None => if containers.last().name == name {
                Some(containers.len() - 1)
            } else {
                None
            },
        }
    }
}

/// What a name finds is the first container of that name; what it does not find is
/// in no container.
pub proof fn lemma_find_container(containers: Seq<ContainerView>, name: Seq<char>)
    ensures
        match find_container(containers, name) {
            Some(i) => 0 <= i < containers.len() && containers[i].name == name && forall|j: int|
                0 <= j < i ==> (#[trigger] containers[j]).name != name,
            None => forall|j: int|
                0 <= j < containers.len() ==> (#[trigger] containers[j]).name != name,
        },
    decreases containers.len(),
{
    if containers.len() > 0 {
        lemma_find_container(containers.drop_last(), name);
        assert forall|j: int| 0 <= j < containers.len() - 1 implies containers[j]
            == containers.drop_last()[j] by {}
    }
}

/// What a name finds among the first containers it finds among all of them.
pub proof fn lemma_find_container_prefix(containers: Seq<ContainerView>, n: int, name: Seq<char>)
    requires
        0 <= n <= containers.len(),
        find_container(containers.take(n), name) is Some,
    ensures
        find_container(containers, name) == find_container(containers.take(n), name),
    decreases containers.len() - n,
{
    if n == containers.len() {
        assert(containers.take(n) == containers);
    } else {
        assert(containers.take(n + 1).drop_last() == containers.take(n));
        lemma_find_container_prefix(containers, n + 1, name);
    }
}

/// The registry of containers.
#[derive(Debug)]
pub struct ContainerManager {
    containers: Vec<Container>,
    active: String,
}

/// The model of `ContainerManager`.
pub ghost struct ManagerView {
    /// The containers, in the order of their creation.
    pub containers: Seq<ContainerView>,
    /// The name of the active container.
    pub active: Seq<char>,
}

impl ManagerView {
    /// Whether a container of that name exists.
    pub open spec fn has(self, name: Seq<char>) -> bool {
        find_container(self.containers, name) is Some
    }

    /// Names are unique, `default` exists, and the active container exists.
    pub open spec fn wf(self) -> bool {
        &&& forall|a: int, b: int|
            0 <= a < b < self.containers.len() ==> (#[trigger] self.containers[a]).name
                != (#[trigger] self.containers[b]).name
        &&& forall|i: int|
            0 <= i < self.containers.len() ==> (#[trigger] self.containers[i]).context.wf()
        &&& self.has(DEFAULT_CONTAINER@)
        &&& self.has(self.active)
    }

    /// The registry after `CREATE CONTAINER`, or why it stays as it is.
    pub open spec fn create(
        self,
        name: Seq<char>,
        options: ContainerOptions,
        start_folder: Seq<char>,
        now: Timestamp,
    ) -> Result<ManagerView, ErrorView> {
        if self.has(name) {
            Err(ErrorView::ExecutionError("Container '"@ + name + "' already exists"@))
        } else {
            Ok(
                ManagerView {
                    containers: self.containers.push(fresh(name, options, start_folder, now)),
                    ..self
                },
            )
        }
    }

    /// The registry after `SWITCH CONTAINER`, or why it stays as it is.
    pub open spec fn switch(self, name: Seq<char>) -> Result<ManagerView, ErrorView> {
        if !self.has(name) {
            Err(ErrorView::ExecutionError("Container '"@ + name + "' does not exist"@))
        } else {
            Ok(ManagerView { active: name, ..self })
        }
    }

    /// The registry after `DESTROY CONTAINER`, or why it stays as it is.
    pub open spec fn destroy(self, name: Seq<char>) -> Result<ManagerView, ErrorView> {
        if name == DEFAULT_CONTAINER@ {
            Err(ErrorView::ExecutionError("Cannot destroy the default container"@))
        } else {
            match find_container(self.containers, name) {
                None => Err(
                    ErrorView::ExecutionError("Container '"@ + name + "' does not exist"@),
                ),
                Some(i) => Ok(
                    ManagerView {
                        containers: self.containers.remove(i),
                        active: if self.active == name {
                            DEFAULT_CONTAINER@
                        } else {
                            self.active
                        },
                    },
                ),
            }
        }
    }
}

/// The container named `default` cannot be destroyed, whatever the registry
/// holds.
pub proof fn lemma_default_is_never_destroyed(m: ManagerView)
    ensures
        m.destroy(DEFAULT_CONTAINER@) is Err,
{
}

/// Destroying the active container, where it is not `default`, succeeds and
/// leaves `default` active in a registry that is still well formed.
pub proof fn lemma_destroy_active_activates_default(m: ManagerView)
    requires
        m.wf(),
        m.active != DEFAULT_CONTAINER@,
    ensures
        m.destroy(m.active) is Ok,
        m.destroy(m.active)->Ok_0.active == DEFAULT_CONTAINER@,
        m.destroy(m.active)->Ok_0.wf(),
{
    lemma_destroy_keeps_wf(m, m.active);
}

/// Destroying a container keeps the registry well formed.
pub proof fn lemma_destroy_keeps_wf(m: ManagerView, name: Seq<char>)
    requires
        m.wf(),
        m.destroy(name) is Ok,
    ensures
        m.destroy(name)->Ok_0.wf(),
{
    let after = m.destroy(name)->Ok_0;
    let i = find_container(m.containers, name)->Some_0;
    lemma_find_container(m.containers, name);
    assert forall|j: int| 0 <= j < after.containers.len() implies #[trigger] after.containers[j]
        == m.containers[if j < i {
        j
    } else {
        j + 1
    }] by {}
    lemma_kept_after_remove(m, i, DEFAULT_CONTAINER@);
    if m.active != name {
        lemma_kept_after_remove(m, i, m.active);
    }
}

/// A container other than the removed one is still found after the removal.
proof fn lemma_kept_after_remove(m: ManagerView, i: int, name: Seq<char>)
    requires
        0 <= i < m.containers.len(),
        m.containers[i].name != name,
        m.has(name),
    ensures
        find_container(m.containers.remove(i), name) is Some,
{
    lemma_find_container(m.containers, name);
    let k = find_container(m.containers, name)->Some_0;
    let rest = m.containers.remove(i);
    let k2 = if k < i {
        k
    } else {
        k - 1
    };
    assert(rest[k2] == m.containers[k]);
    lemma_find_container(rest, name);
}

/// What a name finds depends on the names alone.
pub proof fn lemma_find_by_names(a: Seq<ContainerView>, b: Seq<ContainerView>, name: Seq<char>)
    requires
        a.len() == b.len(),
        forall|i: int| 0 <= i < a.len() ==> (#[trigger] a[i]).name == b[i].name,
    ensures
        find_container(a, name) == find_container(b, name),
    decreases a.len(),
{
    if a.len() > 0 {
        assert forall|i: int| 0 <= i < a.drop_last().len() implies (#[trigger] a.drop_last()[i]).name
            == b.drop_last()[i].name by {
            assert(a.drop_last()[i] == a[i]);
            assert(b.drop_last()[i] == b[i]);
        }
        lemma_find_by_names(a.drop_last(), b.drop_last(), name);
        assert(a.last() == a[a.len() - 1]);
    }
}

/// A registry stays well formed when a well-formed session takes the place
/// of the session of one of its containers.
pub proof fn lemma_with_context_wf(m: ManagerView, name: Seq<char>, c: ContextView)
    requires
        m.wf(),
        c.wf(),
    ensures
        m.with_context(name, c).wf(),
{
    let after = m.with_context(name, c);
    match find_container(m.containers, name) {
        Some(i) => {
            lemma_find_container(m.containers, name);
            assert forall|k: int| 0 <= k < m.containers.len() implies (#[trigger] m.containers[k]).name
                == after.containers[k].name by {}
            lemma_find_by_names(m.containers, after.containers, DEFAULT_CONTAINER@);
            lemma_find_by_names(m.containers, after.containers, m.active);
        },
        None => {},
    }
}

/// The script that rebuilds a container's variables and folder.
pub open spec fn export_text(c: ContainerView) -> Seq<char> {
    "-- Exported container: "@ + c.name + "\n"@ + "-- Created: "@ + created_text(c.created_at)
        + "\n"@ + "-- Allow actions: "@ + flag_text(c.allow_actions) + "\n"@ + "-- Readonly: "@
        + flag_text(c.readonly) + "\n\n"@ + let_lines(c.context, c.context.variables.len())
        + "\nENTER FOLDER \""@ + c.context.current_folder() + "\";\n"@
}

/// A permission as `true` or `false`.
pub open spec fn flag_text(flag: bool) -> Seq<char> {
    if flag {
        "true"@
    } else {
        "false"@
    }
}

/// The moment of creation as `chrono` writes it, or `-` for a moment outside
/// its range.
pub open spec fn created_text(at: Timestamp) -> Seq<char> {
    if is_moment(at.secs, at.nanos) {
        moment_text(at.secs, at.nanos)
    } else {
        "-"@
    }
}

/// The lines `LET name = value;`, one for each of the first `count` bindings.
pub open spec fn let_lines(c: ContextView, count: nat) -> Seq<char>
    decreases count,
{
    if count == 0 || count > c.variables.len() {
        Seq::empty()
    } else {
        let_lines(c, (count - 1) as nat) + "LET "@ + c.variables[count - 1].0 + " = "@
            + c.variables[count - 1].1.text() + ";\n"@
    }
}

/// The models of a list of containers, in order.
pub open spec fn containers_view(containers: Seq<Container>) -> Seq<ContainerView> {
    Seq::new(containers.len(), |i: int| containers[i]@)
}

fn flag(value: bool) -> (r: &'static str)
    ensures
        r@ == flag_text(value),
{
    if value {
        "true"
    } else {
        "false"
    }
}

impl ContainerManager {
    pub closed spec fn view(&self) -> ManagerView {
        ManagerView { containers: containers_view(self.containers@), active: self.active@ }
    }

    pub open spec fn wf(&self) -> bool {
        self@.wf()
    }

    /// A registry that holds `default` alone, active.
    pub fn new(start_folder: String, now: Timestamp) -> (r: ContainerManager)
        ensures
            r.wf(),
            r@.active == DEFAULT_CONTAINER@,
            r@.containers == seq![
                fresh(
                    DEFAULT_CONTAINER@,
                    ContainerOptions { allow_actions: false, readonly: false },
                    start_folder@,
                    now,
                ),
            ],
    {
        let mut containers: Vec<Container> = Vec::new();
        containers.push(
            Container::new_default(String::from_str(DEFAULT_CONTAINER), start_folder, now),
        );
        let r = ContainerManager { containers, active: String::from_str(DEFAULT_CONTAINER) };
        proof {
            let first = fresh(
                DEFAULT_CONTAINER@,
                ContainerOptions { allow_actions: false, readonly: false },
                start_folder@,
                now,
            );
            assert(r@.containers =~= seq![first]);
            assert(r@.containers.drop_last() =~= Seq::empty());
            assert(find_container(r@.containers.drop_last(), DEFAULT_CONTAINER@) is None);
            assert(r@.containers.last().name == DEFAULT_CONTAINER@);
            assert(find_container(r@.containers, DEFAULT_CONTAINER@) == Some(0int));
        }
        r
    }

    fn position(&self, name: &str) -> (r: Option<usize>)
        ensures
            match r {
                Some(i) => find_container(self@.containers, name@) == Some(i as int) && i
                    < self.containers.len(),
                None => find_container(self@.containers, name@) is None,
            },
    {
        let ghost model = self@.containers;
        let mut i: usize = 0;
        assert(model.take(0) =~= Seq::empty());
        while i < self.containers.len()
            invariant
                i <= self.containers.len(),
                model == self@.containers,
                find_container(model.take(i as int), name@) is None,
            decreases self.containers.len() - i,
        {
            proof {
                assert(model.take(i + 1).drop_last() =~= model.take(i as int));
                assert(model.take(i + 1).last() == model[i as int]);
            }
            if text_eq(self.containers[i].name.as_str(), name) {
                proof {
                    lemma_find_container_prefix(model, i + 1, name@);
                }
                return Some(i);
            }
            i = i + 1;
        }
        assert(model.take(self.containers.len() as int) =~= model);
        None
    }

    /// Adds a container with a fresh session in `start_folder`.
    pub fn create(
        &mut self,
        name: &str,
        options: ContainerOptions,
        start_folder: String,
        now: Timestamp,
    ) -> (r: Result<(), ArtaError>)
        requires
            old(self).wf(),
        ensures
            final(self).wf(),
            match old(self)@.create(name@, options, start_folder@, now) {
                Ok(next) => r is Ok && final(self)@ == next,
                Err(e) => r is Err && r->Err_0@ == e && final(self)@ == old(self)@,
            },
    {
        match self.position(name) {
            Some(_) => Err(
                ArtaError::ExecutionError(join3("Container '", name, "' already exists")),
            ),
            None => {
                let container = Container::new(String::from_str(name), options, start_folder, now);
                self.containers.push(container);
                proof {
                    let before = old(self)@;
                    let after = self@;
                    assert(after.containers =~= before.containers.push(
                        fresh(name@, options, start_folder@, now),
                    ));
                    lemma_find_container(before.containers, name@);
                    assert(after.containers.drop_last() =~= before.containers);
                    lemma_find_container(after.containers, DEFAULT_CONTAINER@);
                    lemma_find_container(after.containers, after.active);
                }
                Ok(())
            },
        }
    }

    /// Makes the container named `name` the active one.
    pub fn switch(&mut self, name: &str) -> (r: Result<(), ArtaError>)
        requires
            old(self).wf(),
        ensures
            final(self).wf(),
            match old(self)@.switch(name@) {
                Ok(next) => r is Ok && final(self)@ == next,
                Err(e) => r is Err && r->Err_0@ == e && final(self)@ == old(self)@,
            },
    {
        match self.position(name) {
            None => Err(
                ArtaError::ExecutionError(join3("Container '", name, "' does not exist")),
            ),
            Some(_) => {
                self.active = String::from_str(name);
                Ok(())
            },
        }
    }

    /// Removes the container named `name`. Where it was the active one,
    /// `default` becomes active.
    pub fn destroy(&mut self, name: &str) -> (r: Result<(), ArtaError>)
        requires
            old(self).wf(),
        ensures
            final(self).wf(),
            match old(self)@.destroy(name@) {
                Ok(next) => r is Ok && final(self)@ == next,
                Err(e) => r is Err && r->Err_0@ == e && final(self)@ == old(self)@,
            },
    {
        if text_eq(name, DEFAULT_CONTAINER) {
            return Err(
                ArtaError::ExecutionError(String::from_str("Cannot destroy the default container")),
            );
        }
        match self.position(name) {
            None => Err(
                ArtaError::ExecutionError(join3("Container '", name, "' does not exist")),
            ),
            Some(i) => {
                if text_eq(self.active.as_str(), name) {
                    self.active = String::from_str(DEFAULT_CONTAINER);
                }
                self.containers.remove(i);
                proof {
                    assert(self@.containers =~= old(self)@.containers.remove(i as int));
                    lemma_destroy_keeps_wf(old(self)@, name@);
                }
                Ok(())
            },
        }
    }

    /// The names of the containers, in the order of their creation.
    pub fn list(&self) -> (r: Vec<&str>)
        ensures
            r.len() == self@.containers.len(),
            forall|i: int| 0 <= i < r.len() ==> (#[trigger] r[i])@ == self@.containers[i].name,
    {
        let mut names: Vec<&str> = Vec::new();
        let mut i: usize = 0;
        while i < self.containers.len()
            invariant
                i <= self.containers.len(),
                names.len() == i,
                forall|j: int| 0 <= j < i ==> (#[trigger] names[j])@ == self@.containers[j].name,
            decreases self.containers.len() - i,
        {
            names.push(self.containers[i].name.as_str());
            i = i + 1;
        }
        names
    }

    /// One line for every container, in the order of their creation, with
    /// the active one marked.
    pub fn describe(&self) -> (r: Vec<ContainerInfo>)
        ensures
            r.len() == self@.containers.len(),
            forall|i: int| 0 <= i < r.len() ==> (#[trigger] r[i])@ == self@.line(i),
    {
        let mut lines: Vec<ContainerInfo> = Vec::new();
        let mut i: usize = 0;
        while i < self.containers.len()
            invariant
                i <= self.containers.len(),
                lines.len() == i,
                forall|k: int| 0 <= k < i ==> (#[trigger] lines[k])@ == self@.line(k),
            decreases self.containers.len() - i,
        {
            let c = &self.containers[i];
            lines.push(
                ContainerInfo {
                    name: c.name.clone(),
                    allow_actions: c.allow_actions,
                    readonly: c.readonly,
                    is_active: text_eq(c.name.as_str(), self.active.as_str()),
                },
            );
            i = i + 1;
        }
        lines
    }

    /// The active container.
    pub fn active(&self) -> (r: &Container)
        requires
            self.wf(),
        ensures
            r@.name == self@.active,
            find_container(self@.containers, self@.active) is Some,
            r@ == self@.containers[find_container(self@.containers, self@.active)->Some_0],
            r.context.wf(),
    {
        match self.position(self.active.as_str()) {
            Some(i) => {
                proof {
                    lemma_find_container(self@.containers, self@.active);
                    assert(self@.containers[i as int].context.wf());
                }
                &self.containers[i]
            },
            None => {
                proof {
                    assert(false);
                }
                &self.containers[0]
            },
        }
    }

    /// The session of the active container, to work in.
    pub fn active_mut(&mut self) -> (r: &mut Context)
        requires
            old(self).wf(),
        ensures
            find_container(old(self)@.containers, old(self)@.active) is Some,
            r@ == old(self)@.containers[find_container(
                old(self)@.containers,
                old(self)@.active,
            )->Some_0].context,
            r.wf(),
            final(self)@ == old(self)@.with_context(old(self)@.active, final(r)@),
    {
        let found = self.position(self.active.as_str());
        let i: usize = match found {
            Some(i) => i,
            None => {
                proof {
                    assert(false);
                }
                0
            },
        };
        proof {
            lemma_find_container(self@.containers, self@.active);
            assert(self@.containers[i as int].context.wf());
        }
        self.context_at(i)
    }

    fn context_at(&mut self, i: usize) -> (r: &mut Context)
        requires
            i < old(self).containers.len(),
        ensures
            r@ == old(self)@.containers[i as int].context,
            final(self)@.active == old(self)@.active,
            final(self)@.containers =~= old(self)@.containers.update(
                i as int,
                ContainerView { context: final(r)@, ..old(self)@.containers[i as int] },
            ),
    {
        &mut self.containers[i].context
    }

    /// The name of the active container.
    pub fn active_name(&self) -> (r: &str)
        ensures
            r@ == self@.active,
    {
        self.active.as_str()
    }

    /// The container named `name`.
    pub fn get(&self, name: &str) -> (r: Option<&Container>)
        ensures
            match r {
                Some(c) => find_container(self@.containers, name@) is Some && c@
                    == self@.containers[find_container(self@.containers, name@)->Some_0],
                None => !self@.has(name@),
            },
    {
        match self.position(name) {
            Some(i) => Some(&self.containers[i]),
            None => None,
        }
    }

    /// The session of the container named `name`, to work in.
    pub fn get_mut(&mut self, name: &str) -> (r: Option<&mut Context>)
        ensures
            match r {
                Some(c) => find_container(old(self)@.containers, name@) is Some && c@ == old(
                    self,
                )@.containers[find_container(old(self)@.containers, name@)->Some_0].context
                    && final(self)@ == old(self)@.with_context(name@, final(c)@),
                None => !old(self)@.has(name@) && final(self)@ == old(self)@,
            },
    {
        match self.position(name) {
            Some(i) => Some(self.context_at(i)),
            None => None,
        }
    }

    /// Whether a container named `name` exists.
    pub fn contains(&self, name: &str) -> (r: bool)
        ensures
            r == self@.has(name@),
    {
        self.position(name).is_some()
    }

    /// How many containers there are.
    pub fn count(&self) -> (r: usize)
        ensures
            r == self@.containers.len(),
    {
        self.containers.len()
    }

    /// The script that rebuilds the variables and the folder of the container
    /// named `name`.
    pub fn export(&self, name: &str) -> (r: Result<String, ArtaError>)
        requires
            self.wf(),
        ensures
            match find_container(self@.containers, name@) {
                Some(i) => r is Ok && r->Ok_0@ == export_text(self@.containers[i]),
                None => r is Err && r->Err_0@ == ErrorView::ExecutionError(
                    "Container '"@ + name@ + "' does not exist"@,
                ),
            },
    {
        let i = match self.position(name) {
            None => {
                return Err(
                    ArtaError::ExecutionError(join3("Container '", name, "' does not exist")),
                );
            },
            Some(i) => i,
        };
        let container = &self.containers[i];
        let ghost model = self@.containers[i as int];
        assert(model == container@);
        assert(container.context.wf());
        let mut script = String::from_str("-- Exported container: ");
        script.append(container.name.as_str());
        script.append("\n");
        script.append("-- Created: ");
        match format_moment(container.created_at) {
            Some(t) => script.append(t.as_str()),
            None => script.append("-"),
        }
        script.append("\n");
        script.append("-- Allow actions: ");
        script.append(flag(container.allow_actions));
        script.append("\n");
        script.append("-- Readonly: ");
        script.append(flag(container.readonly));
        script.append("\n\n");
        let ghost head = script@;
        let variables = container.context.variables();
        let mut k: usize = 0;
        assert(script@ =~= head + let_lines(model.context, 0));
        while k < variables.len()
            invariant
                k <= variables.len(),
                crate::context::bindings_view(variables@) == model.context.variables,
                script@ =~= head + let_lines(model.context, k as nat),
            decreases variables.len() - k,
        {
            script.append("LET ");
            script.append(variables[k].0.as_str());
            script.append(" = ");
            let shown = variables[k].1.to_text();
            script.append(shown.as_str());
            script.append(";\n");
            k = k + 1;
        }
        script.append("\nENTER FOLDER \"");
        script.append(container.context.current_folder());
        script.append("\";\n");
        assert(script@ =~= export_text(model));
        Ok(script)
    }
}

impl ManagerView {
    /// The line that describes the container at index `i`.
    pub open spec fn line(self, i: int) -> ContainerInfoView {
        ContainerInfoView {
            name: self.containers[i].name,
            allow_actions: self.containers[i].allow_actions,
            readonly: self.containers[i].readonly,
            is_active: self.containers[i].name == self.active,
        }
    }

    /// The registry with `context` as the session of the container named
    /// `name`.
    pub open spec fn with_context(self, name: Seq<char>, context: ContextView) -> ManagerView {
        match find_container(self.containers, name) {
            Some(i) => ManagerView {
                containers: self.containers.update(
                    i,
                    ContainerView { context, ..self.containers[i] },
                ),
                ..self
            },
            None => self,
        }
    }
}

} // verus!
