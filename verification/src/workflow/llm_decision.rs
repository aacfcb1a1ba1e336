//! Workflows started by decisions that a language model proposes: which
//! decisions a trigger accepts, and how a value is read out of a decision
//! by a dotted path.
use vstd::prelude::*;
use crate::json::{same, Json};
use crate::strmap::StringMap;
use crate::table::Table;
use crate::text::{
    chars_of, owned, parse_unsigned, parse_unsigned_chars, same_text, split_chars, split_on, string_of,
};
use crate::workflow::error::WorkflowError;
use crate::workflow::templates::texts;

verus! {

/// Which proposed decisions start a workflow.
pub struct LlmDecisionTriggerConfig {
    /// The decision type to match (such as "rule", "device_control", "alert").
    pub decision_type: Option<String>,
    /// The least confidence, in percent, that a decision must have.
    pub min_confidence: Option<u32>,
    /// The least priority of a decision.
    pub min_priority: Option<String>,
    /// Action types of which a decision must propose at least one (none: any).
    pub action_types: Vec<String>,
    /// Workflow input parameters and the decision fields they are read from.
    pub parameter_mapping: StringMap,
}

/// Whether some wanted action type is among the proposed ones.
pub open spec fn shares_action(wanted: Seq<Seq<char>>, proposed: Seq<Seq<char>>) -> bool {
    exists|i: int, j: int| 0 <= i < wanted.len() && 0 <= j < proposed.len() && #[trigger] wanted[i] == #[trigger] proposed[j]
}

/// Whether a decision with these action types and this confidence (in
/// percent) passes the confidence threshold and the action-type filter.
pub open spec fn decision_matches(
    proposed: Seq<Seq<char>>,
    confidence: int,
    min_confidence: Option<u32>,
    wanted: Seq<Seq<char>>,
) -> bool {
    &&& (min_confidence matches Some(m) ==> confidence >= m)
    &&& (wanted.len() > 0 ==> shares_action(wanted, proposed))
}

/// One step of a path: a part that reads as an index picks an array item,
/// any other part picks an object member.
pub open spec fn path_step(v: Json, part: Seq<char>) -> Option<Json> {
    match parse_unsigned(part, usize::MAX as nat) {
        Some(i) => match v {
            Json::Array(a) => if i < a@.len() { Some(a@[i as int]) } else { None },
            _ => None,
        },
        None => v.member(part),
    }
}

/// The value reached from `v` by following the parts in order.
pub open spec fn follow_path(v: Json, parts: Seq<Seq<char>>) -> Option<Json>
    decreases parts.len(),
{
    if parts.len() == 0 {
        Some(v)
    } else {
        match path_step(v, parts[0]) {
            Some(n) => follow_path(n, parts.drop_first()),
            None => None,
        }
    }
}

impl LlmDecisionTriggerConfig {
    /// A configuration that accepts every decision.
    pub fn new() -> (c: Self)
        ensures
            c.decision_type is None,
            c.min_confidence is None,
            c.min_priority is None,
            c.action_types@.len() == 0,
            c.parameter_mapping@ == Map::<Seq<char>, Seq<char>>::empty(),
    {
        LlmDecisionTriggerConfig {
            decision_type: None,
            min_confidence: None,
            min_priority: None,
            action_types: Vec::new(),
            parameter_mapping: StringMap::new(),
        }
    }

    /// Sets the decision type filter.
    pub fn with_decision_type(self, decision_type: &str) -> (c: Self)
        ensures
            c.decision_type matches Some(t) && t@ == decision_type@,
            c.min_confidence == self.min_confidence,
            c.min_priority == self.min_priority,
            c.action_types == self.action_types,
            c.parameter_mapping == self.parameter_mapping,
    {
        let mut c = self;
        c.decision_type = Some(owned(decision_type));
        c
    }

    /// Sets the least confidence, in percent.
    pub fn with_min_confidence(self, min_confidence: u32) -> (c: Self)
        ensures
            c.min_confidence == Some(min_confidence),
            c.decision_type == self.decision_type,
            c.min_priority == self.min_priority,
            c.action_types == self.action_types,
            c.parameter_mapping == self.parameter_mapping,
    {
        let mut c = self;
        c.min_confidence = Some(min_confidence);
        c
    }

    /// Sets the least priority.
    pub fn with_min_priority(self, priority: &str) -> (c: Self)
        ensures
            c.min_priority matches Some(p) && p@ == priority@,
            c.decision_type == self.decision_type,
            c.min_confidence == self.min_confidence,
            c.action_types == self.action_types,
            c.parameter_mapping == self.parameter_mapping,
    {
        let mut c = self;
        c.min_priority = Some(owned(priority));
        c
    }

    /// Adds an action type to the filter.
    pub fn with_action_type(self, action_type: &str) -> (c: Self)
        ensures
            c.action_types@.len() == self.action_types@.len() + 1,
            c.action_types@.drop_last() == self.action_types@,
            c.action_types@.last()@ == action_type@,
            c.decision_type == self.decision_type,
            c.min_confidence == self.min_confidence,
            c.min_priority == self.min_priority,
            c.parameter_mapping == self.parameter_mapping,
    {
        let mut c = self;
        c.action_types.push(owned(action_type));
        c
    }

    /// Maps the workflow input parameter `key` to the decision field at path `value`.
    pub fn with_parameter_mapping(self, key: &str, value: &str) -> (c: Self)
        ensures
            c.parameter_mapping@ == self.parameter_mapping@.insert(key@, value@),
            c.decision_type == self.decision_type,
            c.min_confidence == self.min_confidence,
            c.min_priority == self.min_priority,
            c.action_types == self.action_types,
    {
        let mut c = self;
        c.parameter_mapping.insert(owned(key), owned(value));
        c
    }
}

impl Default for LlmDecisionTriggerConfig {
    fn default() -> (c: Self)
        ensures
            c.decision_type is None,
            c.min_confidence is None,
            c.min_priority is None,
            c.action_types@.len() == 0,
            c.parameter_mapping@ == Map::<Seq<char>, Seq<char>>::empty(),
    {
        Self::new()
    }
}

/// Whether some text of `wanted` equals some text of `proposed`.
fn any_shared(wanted: &Vec<String>, proposed: &[String]) -> (r: bool)
    ensures
        r == shares_action(texts(wanted@), texts(proposed@)),
{
    let ghost w = texts(wanted@);
    let ghost p = texts(proposed@);
    let mut i: usize = 0;
    while i < wanted.len()
        invariant
            i <= wanted@.len(),
            w == texts(wanted@),
            p == texts(proposed@),
            forall|a: int, b: int| 0 <= a < i && 0 <= b < p.len() ==> #[trigger] w[a] != #[trigger] p[b],
        decreases wanted@.len() - i,
    {
        let mut j: usize = 0;
        while j < proposed.len()
            invariant
                i < wanted@.len(),
                j <= proposed@.len(),
                w == texts(wanted@),
                p == texts(proposed@),
                forall|a: int, b: int| 0 <= a < i && 0 <= b < p.len() ==> #[trigger] w[a] != #[trigger] p[b],
                forall|b: int| 0 <= b < j ==> w[i as int] != #[trigger] p[b],
            decreases proposed@.len() - j,
        {
            if same_text(wanted[i].as_str(), proposed[j].as_str()) {
                assert(w[i as int] == p[j as int]);
                return true;
            }
            j = j + 1;
        }
        i = i + 1;
    }
    false
}

/// What a trigger does with a proposed decision.
pub enum DecisionStep {
    /// The trigger was stopped: stop listening.
    Stop,
    /// The decision matches: run the workflow with this id.
    Run(String),
    /// The decision does not match: wait for the next one.
    Skip,
}

/// A trigger that starts one workflow on matching proposed decisions.
pub struct LlmDecisionTrigger {
    /// The workflow to start.
    pub workflow_id: String,
    /// Which decisions start it.
    pub config: LlmDecisionTriggerConfig,
    /// Whether the trigger listens.
    pub active: bool,
}

impl LlmDecisionTrigger {
    /// A trigger for the workflow, listening.
    pub fn new(workflow_id: &str, config: LlmDecisionTriggerConfig) -> (t: Self)
        ensures
            t.workflow_id@ == workflow_id@,
            t.config == config,
            t.active,
    {
        LlmDecisionTrigger { workflow_id: owned(workflow_id), config, active: true }
    }

    /// Starts listening.
    pub fn start(&mut self) -> (r: Result<(), WorkflowError>)
        ensures
            r is Ok,
            final(self).active,
            final(self).workflow_id == old(self).workflow_id,
            final(self).config == old(self).config,
    {
        self.active = true;
        Ok(())
    }

    /// Stops listening.
    pub fn stop(&mut self)
        ensures
            !final(self).active,
            final(self).workflow_id == old(self).workflow_id,
            final(self).config == old(self).config,
    {
        self.active = false;
    }

    /// Whether a decision proposing these action types, with this confidence
    /// in percent, passes the configuration.
    pub fn matches_config(action_types: &[String], confidence_percent: u32, config: &LlmDecisionTriggerConfig) -> (b: bool)
        ensures
            b == decision_matches(
                texts(action_types@),
                confidence_percent as int,
                config.min_confidence,
                texts(config.action_types@),
            ),
    {
        match config.min_confidence {
            Some(m) => {
                if confidence_percent < m {
                    return false;
                }
            },
            None => {},
        }
        if config.action_types.len() > 0 {
            if !any_shared(&config.action_types, action_types) {
                return false;
            }
        }
        true
    }

    /// What to do with a proposed decision: stop when the trigger was
    /// stopped, run the workflow when the decision matches, else skip it.
    pub fn on_decision(&self, action_types: &[String], confidence_percent: u32) -> (s: DecisionStep)
        ensures
            !self.active ==> s is Stop,
            self.active && decision_matches(
                texts(action_types@),
                confidence_percent as int,
                self.config.min_confidence,
                texts(self.config.action_types@),
            ) ==> (s matches DecisionStep::Run(id) && id@ == self.workflow_id@),
            self.active && !decision_matches(
                texts(action_types@),
                confidence_percent as int,
                self.config.min_confidence,
                texts(self.config.action_types@),
            ) ==> s is Skip,
    {
        if !self.active {
            DecisionStep::Stop
        } else if Self::matches_config(action_types, confidence_percent, &self.config) {
            DecisionStep::Run(self.workflow_id.clone())
        } else {
            DecisionStep::Skip
        }
    }

    /// The value at a dotted path such as "decision_title" or "actions.0":
    /// a part that reads as an unsigned number indexes an array, any other
    /// part names an object member.
    pub fn extract_value(value: &Json, path: &str) -> (r: Option<Json>)
        ensures
            r is None <==> follow_path(*value, split_on(path@, '.')) is None,
            r matches Some(x) ==> (follow_path(*value, split_on(path@, '.')) matches Some(y) && same(x, y)),
    {
        let chars = chars_of(path);
        let parts = split_chars(&chars, '.');
        let ghost all = split_on(path@, '.');
        assert(all.subrange(0, all.len() as int) =~= all);
        let mut cur: &Json = value;
        let mut k: usize = 0;
        while k < parts.len()
            invariant
                k <= parts@.len(),
                all == split_on(path@, '.'),
                parts@.len() == all.len(),
                forall|i: int| 0 <= i < parts@.len() ==> #[trigger] parts@[i]@ == all[i],
                follow_path(*value, all) == follow_path(*cur, all.subrange(k as int, all.len() as int)),
            decreases parts@.len() - k,
        {
            let ghost rest = all.subrange(k as int, all.len() as int);
            assert(rest.drop_first() =~= all.subrange(k + 1, all.len() as int));
            assert(rest[0] == parts@[k as int]@);
            let part = &parts[k];
            let idx = parse_unsigned_chars(part, usize::MAX as u64);
            match idx {
                Some(i) => {
                    match cur {
                        Json::Array(a) => {
                            if (i as usize) < a.len() {
                                assert(path_step(*cur, rest[0]) == Some(a@[i as int]));
                                cur = &a[i as usize];
                            } else {
                                assert(path_step(*cur, rest[0]) is None);
                                return None;
                            }
                        },
                        _ => {
                            assert(path_step(*cur, rest[0]) is None);
                            return None;
                        },
                    }
                },
                None => {
                    let key = string_of(part.as_slice());
                    match cur.get(key.as_str()) {
                        Some(n) => {
                            assert(path_step(*cur, rest[0]) == Some(*n));
                            cur = n;
                        },
                        None => {
                            assert(path_step(*cur, rest[0]) is None);
                            return None;
                        },
                    }
                },
            }
            k = k + 1;
        }
        assert(all.subrange(k as int, all.len() as int) =~= Seq::<Seq<char>>::empty());
        Some(cur.copy())
    }
}

/// The decision triggers of all workflows, one per workflow.
pub struct LlmDecisionTriggerManager {
    triggers: Table<LlmDecisionTrigger>,
}

impl LlmDecisionTriggerManager {
    /// The triggers by workflow id.
    pub closed spec fn registered(&self) -> Map<Seq<char>, LlmDecisionTrigger> {
        self.triggers@
    }

    /// A manager without triggers.
    pub fn new() -> (m: Self)
        ensures
            m.registered() == Map::<Seq<char>, LlmDecisionTrigger>::empty(),
    {
        LlmDecisionTriggerManager { triggers: Table::new() }
    }

    /// Adds a listening trigger for the workflow, replacing an earlier one.
    pub fn add_trigger(&mut self, workflow_id: &str, config: LlmDecisionTriggerConfig) -> (r: Result<(), WorkflowError>)
        ensures
            r is Ok,
            final(self).registered().dom() == old(self).registered().dom().insert(workflow_id@),
            final(self).registered()[workflow_id@].workflow_id@ == workflow_id@,
            final(self).registered()[workflow_id@].config == config,
            final(self).registered()[workflow_id@].active,
            forall|k: Seq<char>| k != workflow_id@ && #[trigger] old(self).registered().dom().contains(k)
                ==> final(self).registered()[k] == old(self).registered()[k],
    {
        let mut trigger = LlmDecisionTrigger::new(workflow_id, config);
        let started = trigger.start();
        match started {
            Ok(()) => {},
            Err(e) => {
                return Err(e);
            },
        }
        self.triggers.insert(owned(workflow_id), trigger);
        Ok(())
    }

    /// Removes (and stops) the trigger of the workflow, if there is one.
    pub fn remove_trigger(&mut self, workflow_id: &str) -> (r: Result<(), WorkflowError>)
        ensures
            r is Ok,
            final(self).registered() == old(self).registered().remove(workflow_id@),
    {
        match self.triggers.remove(workflow_id) {
            Some(mut t) => {
                t.stop();
            },
            None => {},
        }
        Ok(())
    }

    /// The workflow ids that have a trigger.
    pub fn active_triggers(&self) -> (r: Vec<String>)
        ensures
            forall|i: int| 0 <= i < r@.len() ==> self.registered().dom().contains(#[trigger] r@[i]@),
            forall|k: Seq<char>| #[trigger] self.registered().dom().contains(k)
                ==> exists|i: int| 0 <= i < r@.len() && #[trigger] r@[i]@ == k,
            r@.len() == self.registered().dom().len(),
    {
        let r = self.triggers.keys();
        let n = self.triggers.len();
        proof {
            assert forall|i: int| 0 <= i < r@.len() implies self.registered().dom().contains(#[trigger] r@[i]@) by {
                assert(self.triggers.items()[i].0 == r@[i]@);
            }
            assert forall|k: Seq<char>| #[trigger] self.registered().dom().contains(k)
                implies exists|i: int| 0 <= i < r@.len() && #[trigger] r@[i]@ == k by {
                let j = choose|j: int| 0 <= j < self.triggers.items().len() && #[trigger] self.triggers.items()[j].0 == k;
                assert(r@[j]@ == k);
            }
        }
        r
    }

    /// Whether the workflow has a trigger.
    pub fn has_trigger(&self, workflow_id: &str) -> (b: bool)
        ensures
            b == self.registered().dom().contains(workflow_id@),
    {
        self.triggers.contains_key(workflow_id)
    }

    /// Stops and removes every trigger.
    pub fn stop_all(&mut self)
        ensures
            final(self).registered() == Map::<Seq<char>, LlmDecisionTrigger>::empty(),
    {
        self.triggers = Table::new();
    }
}

} // verus!
