//! The triggers of workflows and their bookkeeping: which workflow each
//! trigger starts, and whether event data passes a trigger's filters.
use vstd::prelude::*;
use crate::json::{member_of, same, Json};
use crate::table::Table;
use crate::text::{cat, owned};
use crate::workflow::error::WorkflowError;

verus! {

/// What starts a workflow.
pub enum Trigger {
    /// Started by hand.
    Manual { id: String },
    /// Started on a schedule.
    Cron { id: String, expression: String, timezone: Option<String> },
    /// Started by an event whose data passes the filters.
    Event { id: String, event_type: String, filters: Option<Table<Json>> },
}

/// The id of a trigger.
pub open spec fn trigger_id(t: Trigger) -> Seq<char> {
    match t {
        Trigger::Manual { id } => id@,
        Trigger::Cron { id, .. } => id@,
        Trigger::Event { id, .. } => id@,
    }
}

impl Trigger {
    /// The id of the trigger.
    pub fn id(&self) -> (s: &str)
        ensures
            s@ == trigger_id(*self),
    {
        match self {
            Trigger::Manual { id } => id.as_str(),
            Trigger::Cron { id, .. } => id.as_str(),
            Trigger::Event { id, .. } => id.as_str(),
        }
    }

    /// A copy of the trigger with the same id.
    pub fn copy(&self) -> (t: Trigger)
        ensures
            trigger_id(t) == trigger_id(*self),
    {
        match self {
            Trigger::Manual { id } => Trigger::Manual { id: owned(id.as_str()) },
            Trigger::Cron { id, expression, timezone } => Trigger::Cron {
                id: owned(id.as_str()),
                expression: owned(expression.as_str()),
                timezone: match timezone {
                    Some(z) => Some(owned(z.as_str())),
                    None => None,
                },
            },
            Trigger::Event { id, event_type, filters } => Trigger::Event {
                id: owned(id.as_str()),
                event_type: owned(event_type.as_str()),
                filters: match filters {
                    Some(f) => Some(copy_filters(f)),
                    None => None,
                },
            },
        }
    }
}

fn copy_filters(t: &Table<Json>) -> (r: Table<Json>)
    ensures
        r@.dom() == t@.dom(),
{
    let mut r: Table<Json> = Table::new();
    let n = t.len();
    let mut i: usize = 0;
    while i < n
        invariant
            i <= n,
            n == t.items().len(),
            forall|k: Seq<char>| #[trigger] r@.dom().contains(k) <==> exists|j: int| 0 <= j < i && t.items()[j].0 == k,
        decreases n - i,
    {
        let k = t.key_at(i);
        let v = t.value_at(i);
        r.insert(owned(k.as_str()), v.copy());
        proof {
            assert forall|q: Seq<char>| #[trigger] r@.dom().contains(q) <==> exists|j: int| 0 <= j < i + 1 && t.items()[j].0 == q by {
                if q == k@ {
                    assert(t.items()[i as int].0 == q);
                }
            }
        }
        i = i + 1;
    }
    proof {
        assert forall|q: Seq<char>| #[trigger] r@.dom().contains(q) <==> t@.dom().contains(q) by {
            if t@.dom().contains(q) {
                assert(crate::table::keyed_has(t.items(), q));
            }
        }
        assert(r@.dom() =~= t@.dom());
    }
    r
}

/// The parts of a schedule trigger.
pub struct CronTrigger {
    pub id: String,
    pub expression: String,
    pub timezone: Option<String>,
}

/// The parts of an event trigger.
pub struct EventTrigger {
    pub id: String,
    pub event_type: String,
    pub filters: Option<Table<Json>>,
}

/// The parts of a manual trigger.
pub struct ManualTrigger {
    pub id: String,
}

/// Which workflow a trigger starts.
pub struct TriggerCallback {
    pub workflow_id: String,
    pub trigger_id: String,
}

impl TriggerCallback {
    /// The trigger behind the callback, as a manual trigger with its id.
    pub fn get_trigger(&self) -> (t: Trigger)
        ensures
            t matches Trigger::Manual { id } && id@ == self.trigger_id@,
    {
        Trigger::Manual { id: owned(self.trigger_id.as_str()) }
    }
}

/// Whether two JSON values are the same (`same`), computed.
pub fn json_equal(a: &Json, b: &Json) -> (r: bool)
    ensures
        r == same(*a, *b),
    decreases a,
{
    match a {
        Json::Null => match b {
            Json::Null => true,
            _ => false,
        },
        Json::Bool(x) => match b {
            Json::Bool(y) => *x == *y,
            _ => false,
        },
        Json::Int(x) => match b {
            Json::Int(y) => *x == *y,
            _ => false,
        },
        Json::Real(x) => match b {
            Json::Real(y) => crate::text::same_text(x.as_str(), y.as_str()),
            _ => false,
        },
        Json::Str(x) => match b {
            Json::Str(y) => crate::text::same_text(x.as_str(), y.as_str()),
            _ => false,
        },
        Json::Array(x) => match b {
            Json::Array(y) => {
                if x.len() != y.len() {
                    return false;
                }
                let mut i: usize = 0;
                while i < x.len()
                    invariant
                        *a == Json::Array(*x),
                        *b == Json::Array(*y),
                        x@.len() == y@.len(),
                        i <= x@.len(),
                        forall|k: int| 0 <= k < i ==> same(#[trigger] x@[k], y@[k]),
                    decreases x@.len() - i,
                {
                    proof {
                        assert(a->Array_0 == *x);
                        assert(decreases_to!(*a => a->Array_0));
                        assert(decreases_to!(*x => x@));
                        assert(decreases_to!(x@ => x@[i as int]));
                    }
                    if !json_equal(&x[i], &y[i]) {
                        assert(!same(x@[i as int], y@[i as int]));
                        assert(!same(*a, *b));
                        return false;
                    }
                    i = i + 1;
                }
                assert(*a == Json::Array(*x));
                assert(*b == Json::Array(*y));

                assert(same(*a, *b));
                true
            },
            _ => false,
        },
        Json::Object(x) => match b {
            Json::Object(y) => {
                if x.len() != y.len() {
                    return false;
                }
                let mut i: usize = 0;
                while i < x.len()
                    invariant
                        *a == Json::Object(*x),
                        *b == Json::Object(*y),
                        x@.len() == y@.len(),
                        i <= x@.len(),
                        forall|k: int| 0 <= k < i ==> (#[trigger] x@[k]).0@ == y@[k].0@ && same(x@[k].1, y@[k].1),
                    decreases x@.len() - i,
                {
                    proof {
                        assert(a->Object_0 == *x);
                        assert(decreases_to!(*a => a->Object_0));
                        assert(decreases_to!(*x => x@));
                        assert(decreases_to!(x@ => x@[i as int]));
                        assert(decreases_to!(x@[i as int] => x@[i as int].1));
                    }
                    if !crate::text::same_text(x[i].0.as_str(), y[i].0.as_str()) {
                        assert(!((x@[i as int]).0@ == y@[i as int].0@));
                        return false;
                    }
                    if !json_equal(&x[i].1, &y[i].1) {
                        assert(!same(x@[i as int].1, y@[i as int].1));
                        return false;
                    }
                    i = i + 1;
                }
                true
            },
            _ => false,
        },
    }
}

/// Whether event data passes filters: it is an object that holds, under
/// each filtered key, the same value.
pub open spec fn passes(filters: Seq<(Seq<char>, Json)>, data: Json) -> bool {
    data matches Json::Object(m) && forall|i: int| 0 <= i < filters.len() ==>
        (member_of(m@, #[trigger] filters[i].0) matches Some(v) && same(v, filters[i].1))
}

/// Whether event data passes the filters of a trigger.
pub fn check_filters(filters: &Table<Json>, data: &Json) -> (b: bool)
    ensures
        b == passes(filters.items(), *data),
{
    match data {
        Json::Object(m) => {
            let n = filters.len();
            let mut i: usize = 0;
            while i < n
                invariant
                    i <= n,
                    n == filters.items().len(),
                    *data == Json::Object(*m),
                    forall|k: int| 0 <= k < i ==> (member_of(m@, #[trigger] filters.items()[k].0) matches Some(v)
                        && same(v, filters.items()[k].1)),
                decreases n - i,
            {
                let key = filters.key_at(i);
                let expected = filters.value_at(i);
                match data.get(key.as_str()) {
                    Some(actual) => {
                        if !json_equal(actual, expected) {
                            return false;
                        }
                    },
                    None => {
                        return false;
                    },
                }
                i = i + 1;
            }
            true
        },
        _ => false,
    }
}

/// The triggers of each workflow and the workflow each trigger starts.
pub struct TriggerManager {
    triggers: Table<Vec<Trigger>>,
    callbacks: Table<TriggerCallback>,
}

impl TriggerManager {
    /// The ids of the triggers registered for each workflow.
    pub closed spec fn trigger_ids(&self) -> Map<Seq<char>, Seq<Seq<char>>> {
        self.triggers@.map_values(|v: Vec<Trigger>| v@.map_values(|t: Trigger| trigger_id(t)))
    }

    /// The workflow each trigger id starts.
    pub closed spec fn starts(&self) -> Map<Seq<char>, Seq<char>> {
        self.callbacks@.map_values(|c: TriggerCallback| c.workflow_id@)
    }

    /// A manager with no triggers.
    pub fn new() -> (m: Self)
        ensures
            m.trigger_ids() == Map::<Seq<char>, Seq<Seq<char>>>::empty(),
            m.starts() == Map::<Seq<char>, Seq<char>>::empty(),
    {
        let m = TriggerManager { triggers: Table::new(), callbacks: Table::new() };
        assert(m.trigger_ids() =~= Map::<Seq<char>, Seq<Seq<char>>>::empty());
        assert(m.starts() =~= Map::<Seq<char>, Seq<char>>::empty());
        m
    }

    /// Registers a trigger for a workflow: it joins the workflow's triggers
    /// and starts that workflow.
    pub fn register(&mut self, workflow_id: &str, trigger: Trigger) -> (r: Result<(), WorkflowError>)
        ensures
            r is Ok,
            final(self).trigger_ids() == old(self).trigger_ids().insert(workflow_id@,
                (if old(self).trigger_ids().contains_key(workflow_id@) { old(self).trigger_ids()[workflow_id@] } else { Seq::empty() })
                    .push(trigger_id(trigger))),
            final(self).starts() == old(self).starts().insert(trigger_id(trigger), workflow_id@),
    {
        let tid = owned(trigger.id());
        let ghost tv = trigger_id(trigger);
        let mut list: Vec<Trigger> = match self.triggers.remove(workflow_id) {
            Some(v) => v,
            None => Vec::new(),
        };
        let ghost before = list@;
        proof {
            assert(before.map_values(|t: Trigger| trigger_id(t)) == (if old(self).trigger_ids().contains_key(workflow_id@) {
                old(self).trigger_ids()[workflow_id@]
            } else {
                Seq::<Seq<char>>::empty()
            })) by {
                if !old(self).trigger_ids().contains_key(workflow_id@) {
                    assert(before.map_values(|t: Trigger| trigger_id(t)) =~= Seq::<Seq<char>>::empty());
                }
            }
        }
        list.push(trigger);
        self.triggers.insert(owned(workflow_id), list);
        self.callbacks.insert(owned(tid.as_str()), TriggerCallback { workflow_id: owned(workflow_id), trigger_id: tid });
        proof {
            assert(list@.map_values(|t: Trigger| trigger_id(t)) =~= before.map_values(|t: Trigger| trigger_id(t)).push(tv));
            assert(self.trigger_ids() =~= old(self).trigger_ids().insert(workflow_id@,
                (if old(self).trigger_ids().contains_key(workflow_id@) { old(self).trigger_ids()[workflow_id@] } else { Seq::empty() })
                    .push(tv)));
            assert(self.starts() =~= old(self).starts().insert(tv, workflow_id@));
        }
        Ok(())
    }

    /// Removes the triggers of a workflow and what they start.
    pub fn unregister_workflow(&mut self, workflow_id: &str)
        ensures
            final(self).trigger_ids() == old(self).trigger_ids().remove(workflow_id@),
            old(self).trigger_ids().contains_key(workflow_id@) ==> final(self).starts()
                == old(self).starts().remove_keys(old(self).trigger_ids()[workflow_id@].to_set()),
            !old(self).trigger_ids().contains_key(workflow_id@) ==> final(self).starts() == old(self).starts(),
    {
        match self.triggers.remove(workflow_id) {
            Some(list) => {
                let ghost ids = list@.map_values(|t: Trigger| trigger_id(t));
                let ghost start = self.starts();
                let mut i: usize = 0;
                while i < list.len()
                    invariant
                        i <= list@.len(),
                        ids == list@.map_values(|t: Trigger| trigger_id(t)),
                        self.starts() == start.remove_keys(ids.subrange(0, i as int).to_set()),
                        self.triggers@ == old(self).triggers@.remove(workflow_id@),
                    decreases list@.len() - i,
                {
                    let ghost prev = self.starts();
                    let ghost prev_cb = self.callbacks@;
                    let _ = self.callbacks.remove(list[i].id());
                    proof {
                        assert(self.starts() =~= prev.remove(trigger_id(list@[i as int])));
                        assert(ids[i as int] == trigger_id(list@[i as int]));
                        assert(ids.subrange(0, i + 1).to_set() =~= ids.subrange(0, i as int).to_set().insert(ids[i as int])) by {
                            assert(ids.subrange(0, i + 1) =~= ids.subrange(0, i as int).push(ids[i as int]));
                            ids.subrange(0, i as int).lemma_push_to_set_commute(ids[i as int]);
                        }
                        assert(start.remove_keys(ids.subrange(0, i + 1).to_set()) =~= start.remove_keys(ids.subrange(0, i as int).to_set()).remove(ids[i as int]));
                        assert(self.starts() =~= start.remove_keys(ids.subrange(0, i + 1).to_set()));
                    }
                    i = i + 1;
                }
                proof {
                    assert(ids.subrange(0, list@.len() as int) =~= ids);
                    assert(self.trigger_ids() =~= old(self).trigger_ids().remove(workflow_id@));
                }
            },
            None => {
                proof {
                    assert(self.trigger_ids() =~= old(self).trigger_ids().remove(workflow_id@));
                }
            },
        }
    }

    /// Starts the workflow of a trigger; fails for an unknown trigger.
    pub fn trigger(&self, trigger_id: &str) -> (r: Result<(), WorkflowError>)
        ensures
            r is Ok <==> self.starts().contains_key(trigger_id@),
            r matches Err(e) ==> e matches WorkflowError::ExecutionError(m) && m@ == "Trigger not found: "@ + trigger_id@,
    {
        match self.callbacks.get(trigger_id) {
            Some(_) => Ok(()),
            None => Err(WorkflowError::ExecutionError(cat("Trigger not found: ", trigger_id))),
        }
    }

    /// The triggers of a workflow, in the order they were registered.
    pub fn get_workflow_triggers(&self, workflow_id: &str) -> (r: Vec<Trigger>)
        ensures
            r@.map_values(|t: Trigger| trigger_id(t)) == (if self.trigger_ids().contains_key(workflow_id@) {
                self.trigger_ids()[workflow_id@]
            } else {
                Seq::empty()
            }),
    {
        let mut r: Vec<Trigger> = Vec::new();
        match self.triggers.get(workflow_id) {
            Some(list) => {
                let mut i: usize = 0;
                while i < list.len()
                    invariant
                        i <= list@.len(),
                        r@.map_values(|t: Trigger| trigger_id(t)) == list@.subrange(0, i as int).map_values(|t: Trigger| trigger_id(t)),
                    decreases list@.len() - i,
                {
                    let ghost before = r@;
                    let c = list[i].copy();
                    r.push(c);
                    proof {
                        assert(r@.map_values(|t: Trigger| trigger_id(t)) =~= before.map_values(|t: Trigger| trigger_id(t)).push(trigger_id(list@[i as int])));
                        assert(list@.subrange(0, i + 1).map_values(|t: Trigger| trigger_id(t)) =~= list@.subrange(0, i as int).map_values(|t: Trigger| trigger_id(t)).push(trigger_id(list@[i as int])));
                    }
                    i = i + 1;
                }
                assert(list@.subrange(0, list@.len() as int) =~= list@);
            },
            None => {
                assert(r@.map_values(|t: Trigger| trigger_id(t)) =~= Seq::<Seq<char>>::empty());
            },
        }
        r
    }

    /// Fires an event: every callback's trigger is taken to be manual, so no
    /// event trigger fires and nothing is started.
    pub fn fire_event(&self, event_type: &str, data: Option<Json>) -> (r: Result<(), WorkflowError>)
        ensures
            r is Ok,
    {
        let n = self.callbacks.len();
        let mut i: usize = 0;
        while i < n
            invariant
                i <= n,
                n == self.callbacks.items().len(),
            decreases n - i,
        {
            let callback = self.callbacks.value_at(i);
            match callback.get_trigger() {
                Trigger::Event { event_type: et, filters, .. } => {
                    if crate::text::same_text(et.as_str(), event_type) {
                        let matched = match &filters {
                            Some(f) => match &data {
                                Some(d) => check_filters(f, d),
                                None => check_filters(f, &Json::Null),
                            },
                            None => true,
                        };
                        if matched {
                            match self.trigger(self.callbacks.key_at(i).as_str()) {
                                Ok(()) => {},
                                Err(e) => return Err(e),
                            }
                        }
                    }
                },
                _ => {},
            }
            i = i + 1;
        }
        Ok(())
    }
}

/// A manager with no triggers.
impl Default for TriggerManager {
    fn default() -> (m: Self)
        ensures
            m.trigger_ids() == Map::<Seq<char>, Seq<Seq<char>>>::empty(),
    {
        Self::new()
    }
}

} // verus!
