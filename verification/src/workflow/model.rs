//! The workflow definition as the version manager reads it.
use vstd::prelude::*;
use crate::strmap::StringMap;

verus! {

/// A workflow definition: identity, metadata, its steps (each held as the
/// JSON text of the step) and its variables (name to JSON text of the value).
pub struct Workflow {
    pub id: String,
    pub name: String,
    pub description: String,
    pub steps: Vec<String>,
    pub variables: StringMap,
}

/// The content of a workflow as character sequences.
pub ghost struct WorkflowView {
    pub id: Seq<char>,
    pub name: Seq<char>,
    pub description: Seq<char>,
    pub steps: Seq<Seq<char>>,
    pub variables: Seq<(Seq<char>, Seq<char>)>,
}

impl View for Workflow {
    type V = WorkflowView;

    open spec fn view(&self) -> WorkflowView {
        WorkflowView {
            id: self.id@,
            name: self.name@,
            description: self.description@,
            steps: self.steps@.map_values(|s: String| s@),
            variables: self.variables.pairs(),
        }
    }
}

impl Workflow {
    /// A workflow with the given id and name, no description, steps or variables.
    pub fn new(id: &str, name: &str) -> (w: Workflow)
        ensures
            w@.id == id@,
            w@.name == name@,
            w@.description.len() == 0,
            w@.steps.len() == 0,
            w@.variables.len() == 0,
    {
        Workflow {
            id: String::from_str(id),
            name: String::from_str(name),
            description: String::new(),
            steps: Vec::new(),
            variables: StringMap::new(),
        }
    }

    /// A copy with the same content.
    pub fn duplicate(&self) -> (w: Workflow)
        ensures
            w@ == self@,
    {
        let mut steps: Vec<String> = Vec::new();
        let mut i: usize = 0;
        while i < self.steps.len()
            invariant
                i <= self.steps@.len(),
                steps@.map_values(|s: String| s@) == self.steps@.subrange(0, i as int).map_values(|s: String| s@),
            decreases self.steps@.len() - i,
        {
            let ghost prev = steps@;
            steps.push(self.steps[i].clone());
            assert(steps@.map_values(|s: String| s@) =~= prev.map_values(|s: String| s@).push(self.steps@[i as int]@));
            assert(self.steps@.subrange(0, i + 1).map_values(|s: String| s@) =~= self.steps@.subrange(0, i as int).map_values(|s: String| s@).push(self.steps@[i as int]@));
            i = i + 1;
        }
        assert(self.steps@.subrange(0, i as int) =~= self.steps@);
        let w = Workflow {
            id: self.id.clone(),
            name: self.name.clone(),
            description: self.description.clone(),
            steps,
            variables: self.variables.duplicate(),
        };
        assert(w@.steps =~= self@.steps);
        w
    }
}

} // verus!
