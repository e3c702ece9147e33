//! The tool registry: an ordered list of tool descriptions with unique names.
//! Tools are registered once at build time and only read afterwards.
use vstd::prelude::*;

verus! {

use crate::json::{jeq, str_is, Json};

/// What the registry holds of one tool: its unique name, its description and
/// its declared input schema.
pub struct ToolInfo {
    pub name: String,
    pub description: String,
    pub input_schema: Json,
}

impl ToolInfo {
    /// A copy whose name and description have the same text and whose schema
    /// is deep-equal.
    pub fn duplicate(&self) -> (r: ToolInfo)
        ensures
            r.name@ == self.name@,
            r.description@ == self.description@,
            jeq(r.input_schema, self.input_schema),
    {
        ToolInfo {
            name: self.name.clone(),
            description: self.description.clone(),
            input_schema: self.input_schema.deep_clone(),
        }
    }
}

/// Why a registration was refused.
#[derive(Debug, PartialEq, Eq, Structural)]
pub enum RegistryError {
    DuplicateToolName,
}

/// Whether some tool in `ts` bears the name `n`.
pub open spec fn has_name(ts: Seq<ToolInfo>, n: Seq<char>) -> bool {
    exists|j: int| 0 <= j < ts.len() && (#[trigger] ts[j]).name@ == n
}

/// All names in `ts` are distinct.
pub open spec fn unique_names(ts: Seq<ToolInfo>) -> bool {
    forall|i: int, j: int| 0 <= i < j < ts.len() ==> (#[trigger] ts[i]).name@ != (
    #[trigger] ts[j]).name@
}

/// The ordered collection of registered tools.
pub struct ToolRegistry {
    tools: Vec<ToolInfo>,
}

impl ToolRegistry {
    /// The registered tools, in registration order.
    pub closed spec fn view(&self) -> Seq<ToolInfo> {
        self.tools@
    }

    /// The registry invariant: no two tools share a name.
    pub open spec fn wf(&self) -> bool {
        unique_names(self@)
    }

    /// An empty registry.
    pub fn new() -> (r: ToolRegistry)
        ensures
            r@ == Seq::<ToolInfo>::empty(),
            r.wf(),
    {
        ToolRegistry { tools: Vec::new() }
    }

    /// Registers a tool: appends it if its name is fresh, refuses it with
    /// `DuplicateToolName` otherwise, keeping the registry unchanged.
    pub fn register(&mut self, t: ToolInfo) -> (r: Result<(), RegistryError>)
        requires
            old(self).wf(),
        ensures
            final(self).wf(),
            !has_name(old(self)@, t.name@) ==> r is Ok && final(self)@ == old(self)@.push(t),
            has_name(old(self)@, t.name@) ==> r == Result::<(), RegistryError>::Err(
                RegistryError::DuplicateToolName,
            ) && final(self)@ == old(self)@,
    {
        if self.lookup_index(t.name.as_str()).is_some() {
            return Err(RegistryError::DuplicateToolName);
        }
        self.tools.push(t);
        Ok(())
    }

    /// The index of the tool named `name`, if one is registered.
    pub fn lookup_index(&self, name: &str) -> (r: Option<usize>)
        ensures
            match r {
                Some(i) => i < self@.len() && self@[i as int].name@ == name@,
                None => !has_name(self@, name@),
            },
    {
        let mut i: usize = 0;
        while i < self.tools.len()
            invariant
                i <= self@.len(),
                forall|j: int| 0 <= j < i ==> (#[trigger] self@[j]).name@ != name@,
            decreases self@.len() - i,
        {
            if str_is(&self.tools[i].name, name) {
                return Some(i);
            }
            i += 1;
        }
        None
    }

    /// How many tools are registered.
    pub fn len(&self) -> (r: usize)
        ensures
            r == self@.len(),
    {
        self.tools.len()
    }

    /// The tool at `i`, in registration order.
    pub fn get(&self, i: usize) -> (r: &ToolInfo)
        requires
            i < self@.len(),
        ensures
            *r == self@[i as int],
    {
        &self.tools[i]
    }

    /// The registered tools in registration order, each with name and
    /// description of the same text and a deep-equal schema.
    pub fn list(&self) -> (r: Vec<ToolInfo>)
        ensures
            r@.len() == self@.len(),
            forall|i: int| 0 <= i < r@.len() ==> (#[trigger] r@[i]).name@ == self@[i].name@
                && r@[i].description@ == self@[i].description@ && jeq(
                r@[i].input_schema,
                self@[i].input_schema,
            ),
    {
        let mut out: Vec<ToolInfo> = Vec::new();
        let mut i: usize = 0;
        while i < self.tools.len()
            invariant
                i <= self@.len(),
                out@.len() == i,
                forall|j: int| 0 <= j < i ==> (#[trigger] out@[j]).name@ == self@[j].name@
                    && out@[j].description@ == self@[j].description@ && jeq(
                    out@[j].input_schema,
                    self@[j].input_schema,
                ),
            decreases self@.len() - i,
        {
            let c = self.tools[i].duplicate();
            out.push(c);
            i += 1;
        }
        out
    }
}

/// The registry contents after registering each tool of `ts` in order into an
/// empty registry, keeping only those whose name is fresh at their turn.
pub open spec fn fold_register(ts: Seq<ToolInfo>) -> Seq<ToolInfo>
    decreases ts.len(),
{
    if ts.len() == 0 {
        Seq::empty()
    } else {
        let prev = fold_register(ts.drop_last());
        if has_name(prev, ts.last().name@) {
            prev
        } else {
            prev.push(ts.last())
        }
    }
}

/// Registering tools with pairwise distinct names, in order, leaves the
/// registry holding exactly those tools in registration order.
pub proof fn lemma_registration_preserves_order(ts: Seq<ToolInfo>)
    requires
        unique_names(ts),
    ensures
        fold_register(ts) == ts,
    decreases ts.len(),
{
    if ts.len() > 0 {
        assert(unique_names(ts.drop_last()));
        lemma_registration_preserves_order(ts.drop_last());
        assert(!has_name(ts.drop_last(), ts.last().name@));
        assert(ts.drop_last().push(ts.last()) =~= ts);
    }
}

} // verus!
