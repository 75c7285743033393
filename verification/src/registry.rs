//! The tool registry: executable capabilities looked up by name.
//!
//! Every tool satisfies one capability interface — a name, a definition
//! to advertise, and an execution on JSON input.  Registration keys by
//! the tool's name; registering a second tool under the same name
//! replaces the first.  Execution of an unregistered name fails with
//! `UnknownTool`; an executor's own failure is data, not an exception.

use crate::messages::{Tool, ToolView};
use crate::strings::str_eq;
use vstd::prelude::*;
use vstd::string::*;

verus! {

/// The capability interface every tool implements.
pub trait ToolExecutor: Sized {
    /// The tool's name, as a mathematical value.
    spec fn spec_name(&self) -> Seq<char>;

    /// The tool's advertised definition, as a mathematical value.
    spec fn spec_definition(&self) -> ToolView;

    /// The results the tool can return for a given input: `Ok` with an
    /// output it may produce, or `Err` with a failure message it may
    /// report.  A tool whose work depends on the outside world (a
    /// clock) admits every outcome of it; a deterministic tool can pin
    /// its result exactly.
    spec fn admits(&self, input: serde_json::Value, r: Result<Seq<char>, Seq<char>>) -> bool;

    /// The unique name under which the tool is registered and requested.
    fn name(&self) -> (r: String)
        ensures
            r@ == self.spec_name(),
    ;

    /// The definition advertised to the remote model; it carries the
    /// same name the tool is registered under.
    fn definition(&self) -> (r: Tool)
        ensures
            r@ == self.spec_definition(),
            r@.name == self.spec_name(),
    ;

    /// Run the tool on a JSON input: the tool's own output on success,
    /// the tool's own error message on failure — in either case an
    /// outcome the tool admits for this input.
    fn execute(&self, input: serde_json::Value) -> (r: Result<String, String>)
        ensures
            (match r {
                Ok(s) => self.admits(input, Ok(s@)),
                Err(m) => self.admits(input, Err(m@)),
            }),
    ;
}

/// Why executing a tool call failed.
pub enum ToolError {
    /// No tool is registered under the requested name.
    UnknownTool { name: String },
    /// The tool ran and reported its own failure.
    Failed { message: String },
}

/// Holds the registered tools and dispatches execution by name.
pub struct ToolRegistry<E: ToolExecutor> {
    entries: Vec<E>,
}

impl<E: ToolExecutor> ToolRegistry<E> {
    /// The registered executors, in registration order.
    pub closed spec fn entries_seq(&self) -> Seq<E> {
        self.entries@
    }

    /// Whether some executor is registered under `name`.
    pub open spec fn registered(&self, name: Seq<char>) -> bool {
        exists|i: int|
            0 <= i < self.entries_seq().len() && self.entries_seq()[i].spec_name() == name
    }

    /// Registered names are pairwise distinct.
    pub open spec fn wf(&self) -> bool {
        forall|i: int, j: int|
            0 <= i < j < self.entries_seq().len() ==> self.entries_seq()[i].spec_name()
                != self.entries_seq()[j].spec_name()
    }

    /// The executor registered under `name`.
    pub open spec fn lookup(&self, name: Seq<char>) -> E {
        self.entries_seq()[choose|i: int|
            0 <= i < self.entries_seq().len() && self.entries_seq()[i].spec_name() == name]
    }

    /// An empty registry.
    pub fn new() -> (r: ToolRegistry<E>)
        ensures
            r.wf(),
            r.entries_seq().len() == 0,
            forall|n: Seq<char>| !r.registered(n),
    {
        ToolRegistry { entries: Vec::new() }
    }

    /// The index of the executor registered under `name`, if any.
    fn find(&self, name: &str) -> (r: Option<usize>)
        ensures
            (match r {
                Some(i) => i < self.entries_seq().len() && self.entries_seq()[i as int].spec_name()
                    == name@,
                None => !self.registered(name@),
            }),
    {
        let mut i: usize = 0;
        while i < self.entries.len()
            invariant
                i <= self.entries_seq().len(),
                forall|j: int| 0 <= j < i ==> self.entries_seq()[j].spec_name() != name@,
            decreases self.entries_seq().len() - i,
        {
            let entry_name = self.entries[i].name();
            if str_eq(entry_name.as_str(), name) {
                return Some(i);
            }
            i = i + 1;
        }
        None
    }

    /// Register a tool under its own name; a prior tool of the same name
    /// is replaced, any other registration is untouched.
    pub fn register(&mut self, tool: E)
        requires
            old(self).wf(),
        ensures
            final(self).wf(),
            forall|n: Seq<char>|
                final(self).registered(n) <==> (old(self).registered(n) || n
                    == tool.spec_name()),
            final(self).lookup(tool.spec_name()) == tool,
            forall|n: Seq<char>|
                old(self).registered(n) && n != tool.spec_name() ==> final(self).lookup(n) == old(
                    self,
                ).lookup(n),
    {
        let name = tool.name();
        match self.find(name.as_str()) {
            Some(i) => {
                self.entries[i] = tool;
                proof {
                    lemma_lookup_at(self, tool.spec_name(), i as int);
                    assert forall|n: Seq<char>|
                        self.registered(n) <==> (old(self).registered(n) || n
                        == tool.spec_name()) by {
                        let prior = old(self).entries_seq();
                        if self.registered(n) {
                            let w = choose|w: int|
                                0 <= w < self.entries_seq().len()
                                    && self.entries_seq()[w].spec_name() == n;
                            if w != i {
                                assert(prior[w].spec_name() == n);
                            }
                        }
                        if old(self).registered(n) {
                            let w = choose|w: int|
                                0 <= w < prior.len() && prior[w].spec_name() == n;
                            if w != i {
                                assert(self.entries_seq()[w].spec_name() == n);
                            } else {
                                assert(n == tool.spec_name());
                            }
                        }
                        if n == tool.spec_name() {
                            assert(self.entries_seq()[i as int].spec_name() == n);
                        }
                    }
                    assert forall|n: Seq<char>|
                        old(self).registered(n) && n != tool.spec_name() implies self.lookup(n)
                        == old(self).lookup(n) by {
                        let prior = old(self).entries_seq();
                        let w = choose|w: int|
                            0 <= w < prior.len() && prior[w].spec_name() == n;
                        lemma_lookup_at(old(self), n, w);
                        lemma_lookup_at(self, n, w);
                    }
                }
            },
            None => {
                self.entries.push(tool);
                proof {
                    let last = old(self).entries_seq().len() as int;
                    lemma_lookup_at(self, tool.spec_name(), last);
                    assert forall|n: Seq<char>|
                        self.registered(n) <==> (old(self).registered(n) || n
                        == tool.spec_name()) by {
                        let prior = old(self).entries_seq();
                        if self.registered(n) {
                            let w = choose|w: int|
                                0 <= w < self.entries_seq().len()
                                    && self.entries_seq()[w].spec_name() == n;
                            if w != last {
                                assert(prior[w].spec_name() == n);
                            }
                        }
                        if old(self).registered(n) {
                            let w = choose|w: int|
                                0 <= w < prior.len() && prior[w].spec_name() == n;
                            assert(self.entries_seq()[w].spec_name() == n);
                        }
                        if n == tool.spec_name() {
                            assert(self.entries_seq()[last].spec_name() == n);
                        }
                    }
                    assert forall|n: Seq<char>|
                        old(self).registered(n) && n != tool.spec_name() implies self.lookup(n)
                        == old(self).lookup(n) by {
                        let prior = old(self).entries_seq();
                        let w = choose|w: int|
                            0 <= w < prior.len() && prior[w].spec_name() == n;
                        lemma_lookup_at(old(self), n, w);
                        lemma_lookup_at(self, n, w);
                    }
                }
            },
        }
    }

    /// A snapshot of every registered tool's definition, in registration
    /// order — stable within one call.
    pub fn definitions(&self) -> (r: Vec<Tool>)
        ensures
            r@.len() == self.entries_seq().len(),
            forall|i: int|
                0 <= i < r@.len() ==> r@[i]@ == self.entries_seq()[i].spec_definition(),
    {
        let mut r: Vec<Tool> = Vec::new();
        let mut i: usize = 0;
        while i < self.entries.len()
            invariant
                i <= self.entries_seq().len(),
                r@.len() == i,
                forall|j: int|
                    0 <= j < i ==> r@[j]@ == self.entries_seq()[j].spec_definition(),
            decreases self.entries_seq().len() - i,
        {
            r.push(self.entries[i].definition());
            i = i + 1;
        }
        r
    }

    /// Execute the tool registered under `name` on `input`.  An
    /// unregistered name fails with `UnknownTool`, exactly then.  A
    /// registered tool's own result is passed through unchanged — its
    /// output as `Ok`, its failure message as `Failed` — so the result
    /// is an outcome that tool admits for this input, of the same
    /// success-or-failure shape.
    pub fn execute(&self, name: &str, input: serde_json::Value) -> (r: Result<String, ToolError>)
        requires
            self.wf(),
        ensures
            (r matches Err(ToolError::UnknownTool { name: n }) ==> n@ == name@ && !self.registered(
                name@,
            )),
            (!self.registered(name@) ==> r matches Err(ToolError::UnknownTool { name: _ })),
            self.registered(name@) ==> (match r {
                Ok(s) => self.lookup(name@).admits(input, Ok(s@)),
                Err(ToolError::Failed { message }) => self.lookup(name@).admits(
                    input,
                    Err(message@),
                ),
                Err(ToolError::UnknownTool { .. }) => false,
            }),
    {
        match self.find(name) {
            Some(i) => {
                proof {
                    lemma_lookup_at(self, name@, i as int);
                }
                match self.entries[i].execute(input) {
                    Ok(s) => Ok(s),
                    Err(m) => Err(ToolError::Failed { message: m }),
                }
            },
            None => Err(ToolError::UnknownTool { name: String::from_str(name) }),
        }
    }

    /// Whether the registered names are pairwise distinct — the
    /// invariant every registry built through `new` and `register`
    /// keeps, checked executably for callers outside the verifier.
    pub fn names_distinct(&self) -> (b: bool)
        ensures
            b == self.wf(),
    {
        let mut i: usize = 0;
        while i < self.entries.len()
            invariant
                i <= self.entries_seq().len(),
                forall|p: int, q: int|
                    0 <= p < q < self.entries_seq().len() && p < i ==> self.entries_seq()[p].spec_name()
                        != self.entries_seq()[q].spec_name(),
            decreases self.entries_seq().len() - i,
        {
            let name_i = self.entries[i].name();
            let mut j: usize = i + 1;
            while j < self.entries.len()
                invariant
                    i < j <= self.entries_seq().len(),
                    i < self.entries_seq().len(),
                    name_i@ == self.entries_seq()[i as int].spec_name(),
                    forall|p: int, q: int|
                        0 <= p < q < self.entries_seq().len() && p < i ==> self.entries_seq()[p].spec_name()
                            != self.entries_seq()[q].spec_name(),
                    forall|q: int|
                        i < q < j ==> self.entries_seq()[i as int].spec_name()
                            != self.entries_seq()[q].spec_name(),
                decreases self.entries_seq().len() - j,
            {
                let name_j = self.entries[j].name();
                if str_eq(name_i.as_str(), name_j.as_str()) {
                    proof {
                        assert(self.entries_seq()[i as int].spec_name()
                            == self.entries_seq()[j as int].spec_name());
                        assert(!self.wf());
                    }
                    return false;
                }
                j = j + 1;
            }
            i = i + 1;
        }
        true
    }
}

impl<E: ToolExecutor> Default for ToolRegistry<E> {
    /// The default registry is empty.
    fn default() -> (r: Self)
        ensures
            r.wf(),
            r.entries_seq().len() == 0,
            forall|n: Seq<char>| !r.registered(n),
    {
        ToolRegistry::new()
    }
}

/// Where the registry is well formed and position `i` holds `name`,
/// lookup by `name` yields exactly that entry.
proof fn lemma_lookup_at<E: ToolExecutor>(r: &ToolRegistry<E>, name: Seq<char>, i: int)
    requires
        r.wf(),
        0 <= i < r.entries_seq().len(),
        r.entries_seq()[i].spec_name() == name,
    ensures
        r.lookup(name) == r.entries_seq()[i],
{
    assert(r.registered(name));
    let j = choose|j: int|
        0 <= j < r.entries_seq().len() && r.entries_seq()[j].spec_name() == name;
    assert(0 <= j < r.entries_seq().len() && r.entries_seq()[j].spec_name() == name);
    if i != j {
        assert(false);
    }
}

} // verus!
