//! Ready-made workflow templates with `{name}` placeholders, and a rule-based
//! generator that drafts a workflow from a description.
use vstd::prelude::*;
use crate::strmap::StringMap;
use crate::text::{cat, cat3, owned, replace_text, same_text, spec_replace};
use crate::sort::{ascending, sorted_distinct};

verus! {

/// What kind of value a template parameter takes.
#[derive(Clone, Copy, Debug, PartialEq, Eq, Structural)]
pub enum TemplateParameterType {
    String,
    Number,
    Boolean,
    Device,
    Metric,
    Enum,
}

/// The lower-case name of a parameter type.
pub open spec fn parameter_type_name(t: TemplateParameterType) -> Seq<char> {
    match t {
        TemplateParameterType::String => "string"@,
        TemplateParameterType::Number => "number"@,
        TemplateParameterType::Boolean => "boolean"@,
        TemplateParameterType::Device => "device"@,
        TemplateParameterType::Metric => "metric"@,
        TemplateParameterType::Enum => "enum"@,
    }
}

impl TemplateParameterType {
    /// The lower-case name of the type.
    pub fn name(&self) -> (s: &'static str)
        ensures
            s@ == parameter_type_name(*self),
    {
        match self {
            TemplateParameterType::String => "string",
            TemplateParameterType::Number => "number",
            TemplateParameterType::Boolean => "boolean",
            TemplateParameterType::Device => "device",
            TemplateParameterType::Metric => "metric",
            TemplateParameterType::Enum => "enum",
        }
    }
}

/// A parameter is a string unless said otherwise.
impl Default for TemplateParameterType {
    fn default() -> (t: Self)
        ensures
            t == TemplateParameterType::String,
    {
        TemplateParameterType::String
    }
}

/// A placeholder of a template.
pub struct TemplateParameter {
    pub name: String,
    pub label: String,
    pub default: Option<String>,
    pub required: bool,
    pub param_type: TemplateParameterType,
    pub options: Vec<String>,
}

/// A template parameter as text.
pub struct ParameterView {
    pub name: Seq<char>,
    pub label: Seq<char>,
    pub default: Option<Seq<char>>,
    pub required: bool,
    pub param_type: TemplateParameterType,
    pub options: Seq<Seq<char>>,
}

/// The characters of each string.
pub open spec fn texts(v: Seq<String>) -> Seq<Seq<char>> {
    v.map_values(|s: String| s@)
}

/// The characters of an optional string.
pub open spec fn opt_text(o: Option<String>) -> Option<Seq<char>> {
    match o {
        Some(s) => Some(s@),
        None => None,
    }
}

/// A parameter view from its parts.
pub open spec fn pv(
    name: Seq<char>,
    label: Seq<char>,
    default: Option<Seq<char>>,
    required: bool,
    param_type: TemplateParameterType,
    options: Seq<Seq<char>>,
) -> ParameterView {
    ParameterView { name, label, default, required, param_type, options }
}

impl View for TemplateParameter {
    type V = ParameterView;

    open spec fn view(&self) -> ParameterView {
        pv(self.name@, self.label@, opt_text(self.default), self.required, self.param_type, texts(self.options@))
    }
}

fn param(
    name: &str,
    label: &str,
    default: Option<&str>,
    required: bool,
    param_type: TemplateParameterType,
    options: Vec<String>,
) -> (p: TemplateParameter)
    ensures
        p@ == pv(
            name@,
            label@,
            match default {
                Some(d) => Some(d@),
                None => None,
            },
            required,
            param_type,
            texts(options@),
        ),
{
    TemplateParameter {
        name: owned(name),
        label: owned(label),
        default: match default {
            Some(d) => Some(owned(d)),
            None => None,
        },
        required,
        param_type,
        options,
    }
}

fn no_options() -> (v: Vec<String>)
    ensures
        texts(v@) == Seq::<Seq<char>>::empty(),
{
    let v: Vec<String> = Vec::new();
    assert(texts(v@) =~= Seq::<Seq<char>>::empty());
    v
}

/// A predefined workflow: a document with `{name}` placeholders and the
/// parameters that fill them.
pub struct WorkflowTemplate {
    pub id: String,
    pub name: String,
    pub category: String,
    pub description: String,
    pub dsl_template: String,
    pub parameters: Vec<TemplateParameter>,
}

/// A template as text.
pub struct TemplateView {
    pub id: Seq<char>,
    pub name: Seq<char>,
    pub category: Seq<char>,
    pub description: Seq<char>,
    pub dsl: Seq<char>,
    pub parameters: Seq<ParameterView>,
}

impl View for WorkflowTemplate {
    type V = TemplateView;

    open spec fn view(&self) -> TemplateView {
        TemplateView {
            id: self.id@,
            name: self.name@,
            category: self.category@,
            description: self.description@,
            dsl: self.dsl_template@,
            parameters: self.parameters@.map_values(|p: TemplateParameter| p@),
        }
    }
}

/// A workflow document filled from a template.
pub struct TemplatedWorkflow {
    pub dsl: String,
    pub template_id: String,
    pub parameters: StringMap,
}

/// The placeholder for a parameter: its name in braces.
pub open spec fn placeholder(name: Seq<char>) -> Seq<char> {
    "{"@ + name + "}"@
}

/// The label of the first required parameter that `given` lacks.
pub open spec fn first_missing_required(ps: Seq<ParameterView>, given: Map<Seq<char>, Seq<char>>) -> Option<Seq<char>>
    decreases ps.len(),
{
    if ps.len() == 0 {
        None
    } else if ps[0].required && !given.contains_key(ps[0].name) {
        Some(ps[0].label)
    } else {
        first_missing_required(ps.drop_first(), given)
    }
}

/// The value used for a parameter: the given one, else its default.
pub open spec fn value_for(p: ParameterView, given: Map<Seq<char>, Seq<char>>) -> Option<Seq<char>> {
    if given.contains_key(p.name) {
        Some(given[p.name])
    } else {
        p.default
    }
}

/// Replaces the placeholders of the parameters in turn; fails with the name
/// of the first parameter that has neither a given value nor a default.
pub open spec fn fill_text(dsl: Seq<char>, ps: Seq<ParameterView>, given: Map<Seq<char>, Seq<char>>) -> Result<Seq<char>, Seq<char>>
    decreases ps.len(),
{
    if ps.len() == 0 {
        Ok(dsl)
    } else {
        match value_for(ps[0], given) {
            None => Err(ps[0].name),
            Some(v) => fill_text(spec_replace(dsl, placeholder(ps[0].name), v), ps.drop_first(), given),
        }
    }
}

/// Filling handles the parameters in turn. A parameter whose value is given
/// has its placeholder replaced by that value, whatever its default; the
/// default is used only when no value is given; a parameter with neither
/// ends the fill with its name.
pub proof fn lemma_fill_parameter(dsl: Seq<char>, ps: Seq<ParameterView>, given: Map<Seq<char>, Seq<char>>)
    requires
        ps.len() > 0,
    ensures
        given.contains_key(ps[0].name) ==> fill_text(dsl, ps, given)
            == fill_text(spec_replace(dsl, "{"@ + ps[0].name + "}"@, given[ps[0].name]), ps.drop_first(), given),
        !given.contains_key(ps[0].name) ==> (ps[0].default matches Some(d) ==> fill_text(dsl, ps, given)
            == fill_text(spec_replace(dsl, "{"@ + ps[0].name + "}"@, d), ps.drop_first(), given)),
        !given.contains_key(ps[0].name) && ps[0].default is None ==> fill_text(dsl, ps, given) == Err::<Seq<char>, Seq<char>>(ps[0].name),
{
}

/// A template of one parameter, filled with a value given for it, is its
/// text with the placeholder replaced by that value.
pub proof fn lemma_fill_given(dsl: Seq<char>, p: ParameterView, given: Map<Seq<char>, Seq<char>>)
    requires
        given.contains_key(p.name),
    ensures
        fill_text(dsl, seq![p], given) == Ok::<Seq<char>, Seq<char>>(spec_replace(dsl, "{"@ + p.name + "}"@, given[p.name])),
{
    let filled = spec_replace(dsl, "{"@ + p.name + "}"@, given[p.name]);
    assert(seq![p].drop_first() =~= Seq::<ParameterView>::empty());
    assert(fill_text(filled, Seq::<ParameterView>::empty(), given) == Ok::<Seq<char>, Seq<char>>(filled));
    lemma_fill_parameter(dsl, seq![p], given);
}

/// A fill is refused for a missing required parameter exactly when some
/// required parameter has no given value, and the label reported is that of
/// the first such parameter.
pub proof fn lemma_missing_required(ps: Seq<ParameterView>, given: Map<Seq<char>, Seq<char>>)
    ensures
        first_missing_required(ps, given) is None
            <==> forall|i: int| 0 <= i < ps.len() && #[trigger] ps[i].required ==> given.contains_key(ps[i].name),
        first_missing_required(ps, given) matches Some(l) ==> exists|i: int| {
            &&& 0 <= i < ps.len()
            &&& #[trigger] ps[i].required
            &&& !given.contains_key(ps[i].name)
            &&& ps[i].label == l
            &&& forall|j: int| 0 <= j < i ==> !(ps[j].required && !given.contains_key(ps[j].name))
        },
    decreases ps.len(),
{
    if ps.len() > 0 {
        let rest = ps.drop_first();
        lemma_missing_required(rest, given);
        assert forall|i: int| 0 <= i < rest.len() implies #[trigger] rest[i] == ps[i + 1] by {}
        if ps[0].required && !given.contains_key(ps[0].name) {
            assert(ps[0].required);
        } else {
            if first_missing_required(rest, given) is None {
                assert forall|i: int| 0 <= i < ps.len() && #[trigger] ps[i].required implies given.contains_key(ps[i].name) by {
                    if i > 0 {
                        assert(rest[i - 1] == ps[i]);
                        assert(rest[i - 1].required);
                    }
                }
            } else {
                let l = first_missing_required(rest, given)->0;
                let k = choose|k: int| {
                    &&& 0 <= k < rest.len()
                    &&& #[trigger] rest[k].required
                    &&& !given.contains_key(rest[k].name)
                    &&& rest[k].label == l
                    &&& forall|j: int| 0 <= j < k ==> !(rest[j].required && !given.contains_key(rest[j].name))
                };
                assert(rest[k] == ps[k + 1]);
                assert(ps[k + 1].required);
                assert forall|j: int| 0 <= j < k + 1 implies !(ps[j].required && !given.contains_key(ps[j].name)) by {
                    if j > 0 {
                        assert(rest[j - 1] == ps[j]);
                    }
                }
                assert(!(ps[k + 1].required ==> given.contains_key(ps[k + 1].name)));
            }
        }
    }
}

/// The names and defaults of the parameters that have a default; a later
/// parameter of the same name wins.
pub open spec fn defaults_of(ps: Seq<ParameterView>) -> Map<Seq<char>, Seq<char>>
    decreases ps.len(),
{
    if ps.len() == 0 {
        Map::empty()
    } else {
        let m = defaults_of(ps.drop_last());
        match ps.last().default {
            Some(d) => m.insert(ps.last().name, d),
            None => m,
        }
    }
}

impl WorkflowTemplate {
    /// Fills the template: every required parameter must be given; every
    /// placeholder is replaced by the given value or the default.
    pub fn fill(&self, params: &StringMap) -> (r: Result<TemplatedWorkflow, String>)
        ensures
            first_missing_required(self@.parameters, params@) matches Some(label) ==> r matches Err(e)
                && e@ == "Missing required parameter: "@ + label,
            first_missing_required(self@.parameters, params@) is None ==> match fill_text(self@.dsl, self@.parameters, params@) {
                Ok(d) => r matches Ok(t) && t.dsl@ == d && t.template_id@ == self.id@ && t.parameters@ == params@,
                Err(n) => r matches Err(e) && e@ == "Missing parameter: "@ + n,
            },
    {
        let n = self.parameters.len();
        let ghost ps = self@.parameters;
        let mut i: usize = 0;
        assert(ps.subrange(0, n as int) =~= ps);
        while i < n
            invariant
                n == self.parameters@.len(),
                ps == self@.parameters,
                i <= n,
                first_missing_required(ps, params@) == first_missing_required(ps.subrange(i as int, n as int), params@),
            decreases n - i,
        {
            let p = &self.parameters[i];
            proof {
                assert(ps.subrange(i as int, n as int).drop_first() =~= ps.subrange(i + 1, n as int));
                assert(ps.subrange(i as int, n as int)[0] == p@);
            }
            if p.required && !params.contains_key(p.name.as_str()) {
                return Err(cat("Missing required parameter: ", p.label.as_str()));
            }
            i = i + 1;
        }
        proof {
            assert(ps.subrange(n as int, n as int) =~= Seq::<ParameterView>::empty());
            assert(ps.subrange(0, n as int) =~= ps);
        }
        let mut dsl = owned(self.dsl_template.as_str());
        let mut j: usize = 0;
        while j < n
            invariant
                n == self.parameters@.len(),
                ps == self@.parameters,
                j <= n,
                first_missing_required(ps, params@) is None,
                fill_text(self@.dsl, ps, params@) == fill_text(dsl@, ps.subrange(j as int, n as int), params@),
            decreases n - j,
        {
            let p = &self.parameters[j];
            proof {
                assert(ps.subrange(j as int, n as int).drop_first() =~= ps.subrange(j + 1, n as int));
                assert(ps.subrange(j as int, n as int)[0] == p@);
            }
            let value: &str = match params.get(p.name.as_str()) {
                Some(v) => v.as_str(),
                None => match &p.default {
                    Some(d) => d.as_str(),
                    None => {
                        return Err(cat("Missing parameter: ", p.name.as_str()));
                    },
                },
            };
            let pat = cat3("{", p.name.as_str(), "}");
            proof {
                reveal_strlit("{");
                reveal_strlit("}");
            }
            dsl = replace_text(dsl.as_str(), pat.as_str(), value);
            j = j + 1;
        }
        proof {
            assert(ps.subrange(n as int, n as int) =~= Seq::<ParameterView>::empty());
        }
        Ok(TemplatedWorkflow { dsl, template_id: owned(self.id.as_str()), parameters: params.duplicate() })
    }

    /// The defaults of the parameters that have one, by parameter name.
    pub fn get_default_parameters(&self) -> (m: StringMap)
        ensures
            m@ == defaults_of(self@.parameters),
    {
        let n = self.parameters.len();
        let ghost ps = self@.parameters;
        let mut m = StringMap::new();
        let mut i: usize = 0;
        while i < n
            invariant
                n == self.parameters@.len(),
                ps == self@.parameters,
                i <= n,
                m@ == defaults_of(ps.subrange(0, i as int)),
            decreases n - i,
        {
            let p = &self.parameters[i];
            proof {
                assert(ps.subrange(0, i + 1).drop_last() =~= ps.subrange(0, i as int));
                assert(ps.subrange(0, i + 1).last() == p@);
            }
            match &p.default {
                Some(d) => m.insert(owned(p.name.as_str()), owned(d.as_str())),
                None => {},
            }
            i = i + 1;
        }
        proof {
            assert(ps.subrange(0, n as int) =~= ps);
        }
        m
    }
}

/// The predefined templates, in order.
pub open spec fn catalogue() -> Seq<TemplateView> {
    seq![
        device_alert_view(),
        multi_device_control_view(),
        scheduled_action_view(),
        data_collection_view(),
        conditional_delay_view(),
    ]
}

/// The templates of a category, in order.
pub open spec fn of_category(ts: Seq<TemplateView>, category: Seq<char>) -> Seq<TemplateView>
    decreases ts.len(),
{
    if ts.len() == 0 {
        Seq::empty()
    } else {
        let rest = of_category(ts.drop_last(), category);
        if ts.last().category == category {
            rest.push(ts.last())
        } else {
            rest
        }
    }
}

/// The predefined workflow templates.
pub struct WorkflowTemplates;

impl WorkflowTemplates {
    /// All predefined templates.
    pub fn all() -> (r: Vec<WorkflowTemplate>)
        ensures
            r@.map_values(|t: WorkflowTemplate| t@) == catalogue(),
    {
        let mut r: Vec<WorkflowTemplate> = Vec::new();
        r.push(device_alert());
        r.push(multi_device_control());
        r.push(scheduled_action());
        r.push(data_collection());
        r.push(conditional_delay());
        assert(r@.map_values(|t: WorkflowTemplate| t@) =~= catalogue());
        r
    }

    /// The template with the given id.
    pub fn get(id: &str) -> (r: Option<WorkflowTemplate>)
        ensures
            r matches Some(t) ==> t@.id == id@ && catalogue().contains(t@),
            r is None ==> forall|i: int| 0 <= i < catalogue().len() ==> catalogue()[i].id != id@,
    {
        let mut all = Self::all();
        let ghost whole = catalogue();
        let n = all.len();
        let mut i: usize = 0;
        while i < n
            invariant
                n == all@.len(),
                all@.map_values(|t: WorkflowTemplate| t@) == whole,
                whole == catalogue(),
                i <= n,
                forall|k: int| 0 <= k < i ==> whole[k].id != id@,
            decreases n - i,
        {
            assert(all@.map_values(|t: WorkflowTemplate| t@)[i as int] == all@[i as int]@);
            if same_text(all[i].id.as_str(), id) {
                let t = all.remove(i);
                assert(whole[i as int] == t@);
                return Some(t);
            }
            i = i + 1;
        }
        None
    }

    /// The templates of a category, in order.
    pub fn by_category(category: &str) -> (r: Vec<WorkflowTemplate>)
        ensures
            r@.map_values(|t: WorkflowTemplate| t@) == of_category(catalogue(), category@),
    {
        let mut all = Self::all();
        let ghost whole = catalogue();
        let mut r: Vec<WorkflowTemplate> = Vec::new();
        let mut i: usize = 0;
        proof {
            assert(whole.subrange(0, whole.len() as int) =~= whole);
            assert(whole.subrange(0, 0) =~= Seq::<TemplateView>::empty());
        }
        assert(whole.len() == 5);
        while all.len() > 0
            invariant
                whole.len() == 5,
                i + all@.len() == whole.len(),
                all@.map_values(|t: WorkflowTemplate| t@) == whole.subrange(i as int, whole.len() as int),
                r@.map_values(|t: WorkflowTemplate| t@) == of_category(whole.subrange(0, i as int), category@),
            decreases all@.len(),
        {
            let ghost before = all@;
            let t = all.remove(0);
            proof {
                assert(before.map_values(|t: WorkflowTemplate| t@)[0] == t@);
                assert forall|k: int| 0 <= k < all@.len() implies #[trigger] all@[k]@ == whole.subrange(i + 1, whole.len() as int)[k] by {
                    assert(all@[k] == before[k + 1]);
                    assert(before.map_values(|t: WorkflowTemplate| t@)[k + 1] == before[k + 1]@);
                }
                assert(all@.map_values(|t: WorkflowTemplate| t@) =~= whole.subrange(i + 1, whole.len() as int));
                assert(whole.subrange(0, i + 1).drop_last() =~= whole.subrange(0, i as int));
                assert(whole.subrange(0, i + 1).last() == t@);
            }
            if same_text(t.category.as_str(), category) {
                let ghost rb = r@;
                r.push(t);
                assert(r@.map_values(|t: WorkflowTemplate| t@) =~= rb.map_values(|t: WorkflowTemplate| t@).push(t@));
            }
            i = i + 1;
        }
        proof {
            assert(whole.subrange(0, i as int) =~= whole);
        }
        r
    }

    /// The distinct categories of the templates, in ascending order.
    pub fn categories() -> (r: Vec<String>)
        ensures
            ascending(texts(r@)),
            texts(r@).to_set() == catalogue().map_values(|t: TemplateView| t.category).to_set(),
    {
        let all = Self::all();
        let mut cats: Vec<String> = Vec::new();
        let n = all.len();
        let mut i: usize = 0;
        while i < n
            invariant
                n == all@.len(),
                all@.map_values(|t: WorkflowTemplate| t@) == catalogue(),
                i <= n,
                texts(cats@) == catalogue().subrange(0, i as int).map_values(|t: TemplateView| t.category),
            decreases n - i,
        {
            let ghost cb = cats@;
            assert(all@.map_values(|t: WorkflowTemplate| t@)[i as int] == all@[i as int]@);
            cats.push(owned(all[i].category.as_str()));
            assert(texts(cats@) =~= texts(cb).push(catalogue()[i as int].category));
            assert(catalogue().subrange(0, i + 1).map_values(|t: TemplateView| t.category)
                =~= catalogue().subrange(0, i as int).map_values(|t: TemplateView| t.category).push(catalogue()[i as int].category));
            i = i + 1;
        }
        assert(catalogue().subrange(0, n as int) =~= catalogue());
        sorted_distinct(cats)
    }
}

/// The workflow document of the `device_alert` template, with placeholders.
pub const DEVICE_ALERT_DSL: &'static str = "\x7b\n  \"name\": \"\x7bworkflow_name\x7d\",\n  \"description\": \"监控\x7bdevice_name\x7d并在\x7bcondition\x7d时发送通知\",\n  \"steps\": [\n    \x7b\n      \"type\": \"device_query\",\n      \"id\": \"read_\x7bdevice_id\x7d\",\n      \"device_id\": \"\x7bdevice_id\x7d\",\n      \"metric\": \"\x7bmetric\x7d\"\n    \x7d,\n    \x7b\n      \"type\": \"condition\",\n      \"id\": \"check_condition\",\n      \"condition\": \"$\x7b\x7bdevice_id\x7d_\x7bmetric\x7d\x7d \x7boperator\x7d \x7bthreshold\x7d\",\n      \"then_steps\": [\n        \x7b\n          \"type\": \"send_alert\",\n          \"id\": \"send_alert\",\n          \"severity\": \"\x7bseverity\x7d\",\n          \"title\": \"\x7balert_title\x7d\",\n          \"message\": \"\x7bdevice_name\x7d \x7bmetric\x7d 为 $\x7b\x7b\x7bdevice_id\x7d_\x7bmetric\x7d\x7d\x7d，\x7bcondition_description\x7d\"\n        \x7d\n      ]\n    \x7d\n  ],\n  \"triggers\": [\n    \x7b\n      \"type\": \"cron\",\n      \"id\": \"trigger_1\",\n      \"expression\": \"\x7bcron_expression\x7d\"\n    \x7d\n  ]\n\x7d";

/// The workflow document of the `multi_device_control` template, with placeholders.
pub const MULTI_DEVICE_CONTROL_DSL: &'static str = "\x7b\n  \"name\": \"\x7bworkflow_name\x7d\",\n  \"description\": \"当\x7btrigger_device_name\x7d的\x7btrigger_metric\x7d满足条件时，控制多个设备\",\n  \"steps\": [\n    \x7b\n      \"type\": \"device_query\",\n      \"id\": \"read_trigger_device\",\n      \"device_id\": \"\x7btrigger_device_id\x7d\",\n      \"metric\": \"\x7btrigger_metric\x7d\"\n    \x7d,\n    \x7b\n      \"type\": \"condition\",\n      \"id\": \"check_condition\",\n      \"condition\": \"$\x7btrigger_device_id\x7d_\x7btrigger_metric\x7d \x7boperator\x7d \x7bthreshold\x7d\",\n      \"then_steps\": [\n        \x7b\n          \"type\": \"parallel\",\n          \"id\": \"control_devices\",\n          \"steps\": \x7bcontrol_steps\x7d\n        \x7d\n      ]\n    \x7d\n  ],\n  \"triggers\": [\n    \x7b\n      \"type\": \"device\",\n      \"id\": \"device_trigger\",\n      \"device_id\": \"\x7btrigger_device_id\x7d\",\n      \"metric\": \"\x7btrigger_metric\x7d\",\n      \"condition\": \"\x7boperator\x7d \x7bthreshold\x7d\"\n    \x7d\n  ]\n\x7d";

/// The workflow document of the `scheduled_action` template, with placeholders.
pub const SCHEDULED_ACTION_DSL: &'static str = "\x7b\n  \"name\": \"\x7bworkflow_name\x7d\",\n  \"description\": \"每天\x7btime\x7d执行\x7baction\x7d\",\n  \"steps\": \x7baction_steps\x7d,\n  \"triggers\": [\n    \x7b\n      \"type\": \"cron\",\n      \"id\": \"schedule_trigger\",\n      \"expression\": \"\x7bcron_expression\x7d\",\n      \"timezone\": \"\x7btimezone\x7d\"\n    \x7d\n  ]\n\x7d";

/// The workflow document of the `data_collection` template, with placeholders.
pub const DATA_COLLECTION_DSL: &'static str = "\x7b\n  \"name\": \"\x7bworkflow_name\x7d\",\n  \"description\": \"采集\x7bdevices\x7d数据并发送到\x7bendpoint\x7d\",\n  \"steps\": [\n    \x7b\n      \"type\": \"parallel\",\n      \"id\": \"collect_data\",\n      \"steps\": \x7bquery_steps\x7d\n    \x7d,\n    \x7b\n      \"type\": \"delay\",\n      \"id\": \"wait_for_collection\",\n      \"duration_seconds\": 2\n    \x7d,\n    \x7b\n      \"type\": \"http_request\",\n      \"id\": \"send_report\",\n      \"url\": \"\x7bendpoint\x7d\",\n      \"method\": \"POST\",\n      \"headers\": \x7b\"Content-Type\": \"application/json\"\x7d,\n      \"body\": \"\x7b\\\"timestamp\\\": \\\"$\x7btimestamp\x7d\\\", \\\"data\\\": $\x7bcollected_data\x7d\x7d\"\n    \x7d\n  ],\n  \"triggers\": [\n    \x7b\n      \"type\": \"cron\",\n      \"id\": \"schedule_trigger\",\n      \"expression\": \"\x7bcron_expression\x7d\"\n    \x7d\n  ]\n\x7d";

/// The workflow document of the `conditional_delay` template, with placeholders.
pub const CONDITIONAL_DELAY_DSL: &'static str = "\x7b\n  \"name\": \"\x7bworkflow_name\x7d\",\n  \"description\": \"当\x7bcondition\x7d时，等待\x7bdelay\x7d秒后执行\x7baction\x7d\",\n  \"steps\": [\n    \x7b\n      \"type\": \"device_query\",\n      \"id\": \"check_condition\",\n      \"device_id\": \"\x7bdevice_id\x7d\",\n      \"metric\": \"\x7bmetric\x7d\"\n    \x7d,\n    \x7b\n      \"type\": \"condition\",\n      \"id\": \"evaluate_condition\",\n      \"condition\": \"$\x7bdevice_id\x7d_\x7bmetric\x7d \x7boperator\x7d \x7bthreshold\x7d\",\n      \"then_steps\": [\n        \x7b\n          \"type\": \"delay\",\n          \"id\": \"wait_delay\",\n          \"duration_seconds\": \x7bdelay\x7d\n        \x7d,\n        \x7b\n          \"type\": \"send_command\",\n          \"id\": \"execute_action\",\n          \"device_id\": \"\x7btarget_device_id\x7d\",\n          \"command\": \"\x7bcommand\x7d\"\n        \x7d\n      ],\n      \"else_steps\": [\n        \x7b\n          \"type\": \"log\",\n          \"id\": \"log_not_met\",\n          \"message\": \"条件未满足，跳过执行\",\n          \"level\": \"info\"\n        \x7d\n      ]\n    \x7d\n  ],\n  \"triggers\": [\n    \x7b\n      \"type\": \"cron\",\n      \"id\": \"cron_trigger\",\n      \"expression\": \"\x7bcron_expression\x7d\"\n    \x7d\n  ]\n\x7d";

/// The `device_alert` template.
pub open spec fn device_alert_view() -> TemplateView {
    TemplateView {
        id: "device_alert"@,
        name: "设备告警通知"@,
        category: "alert"@,
        description: "当设备状态异常时发送告警通知"@,
        dsl: DEVICE_ALERT_DSL@,
        parameters: seq![
            pv("workflow_name"@, "工作流名称"@, Some("设备告警"@), false, TemplateParameterType::String, Seq::empty()),
            pv("device_id"@, "设备ID"@, None, true, TemplateParameterType::Device, Seq::empty()),
            pv("device_name"@, "设备名称"@, Some("设备"@), false, TemplateParameterType::String, Seq::empty()),
            pv("metric"@, "指标"@, Some("temperature"@), true, TemplateParameterType::Metric, Seq::empty()),
            pv("operator"@, "操作符"@, Some(">"@), true, TemplateParameterType::Enum, seq![">"@, "<"@, ">="@, "<="@]),
            pv("threshold"@, "阈值"@, Some("80"@), true, TemplateParameterType::Number, Seq::empty()),
            pv("severity"@, "严重程度"@, Some("warning"@), false, TemplateParameterType::Enum, seq!["info"@, "warning"@, "critical"@]),
            pv("alert_title"@, "告警标题"@, Some("设备异常告警"@), false, TemplateParameterType::String, Seq::empty()),
            pv("condition_description"@, "条件描述"@, Some("超过阈值"@), false, TemplateParameterType::String, Seq::empty()),
            pv("cron_expression"@, "Cron表达式"@, Some("\x2a/5 \x2a \x2a \x2a \x2a"@), true, TemplateParameterType::String, Seq::empty()),
        ],
    }
}

fn device_alert() -> (t: WorkflowTemplate)
    ensures
        t@ == device_alert_view(),
{
    let mut ps: Vec<TemplateParameter> = Vec::new();
    ps.push(param("workflow_name", "工作流名称", Some("设备告警"), false, TemplateParameterType::String, no_options()));
    ps.push(param("device_id", "设备ID", None, true, TemplateParameterType::Device, no_options()));
    ps.push(param("device_name", "设备名称", Some("设备"), false, TemplateParameterType::String, no_options()));
    ps.push(param("metric", "指标", Some("temperature"), true, TemplateParameterType::Metric, no_options()));
    let mut options: Vec<String> = Vec::new();
    options.push(owned(">"));
    options.push(owned("<"));
    options.push(owned(">="));
    options.push(owned("<="));
    assert(texts(options@) =~= seq![">"@, "<"@, ">="@, "<="@]);
    ps.push(param("operator", "操作符", Some(">"), true, TemplateParameterType::Enum, options));
    ps.push(param("threshold", "阈值", Some("80"), true, TemplateParameterType::Number, no_options()));
    let mut options: Vec<String> = Vec::new();
    options.push(owned("info"));
    options.push(owned("warning"));
    options.push(owned("critical"));
    assert(texts(options@) =~= seq!["info"@, "warning"@, "critical"@]);
    ps.push(param("severity", "严重程度", Some("warning"), false, TemplateParameterType::Enum, options));
    ps.push(param("alert_title", "告警标题", Some("设备异常告警"), false, TemplateParameterType::String, no_options()));
    ps.push(param("condition_description", "条件描述", Some("超过阈值"), false, TemplateParameterType::String, no_options()));
    ps.push(param("cron_expression", "Cron表达式", Some("\x2a/5 \x2a \x2a \x2a \x2a"), true, TemplateParameterType::String, no_options()));
    let t = WorkflowTemplate {
        id: owned("device_alert"),
        name: owned("设备告警通知"),
        category: owned("alert"),
        description: owned("当设备状态异常时发送告警通知"),
        dsl_template: owned(DEVICE_ALERT_DSL),
        parameters: ps,
    };
    assert(t@.parameters =~= device_alert_view().parameters);
    t
}

/// The `multi_device_control` template.
pub open spec fn multi_device_control_view() -> TemplateView {
    TemplateView {
        id: "multi_device_control"@,
        name: "多设备联动控制"@,
        category: "automation"@,
        description: "根据一个设备的状态控制多个其他设备"@,
        dsl: MULTI_DEVICE_CONTROL_DSL@,
        parameters: seq![
            pv("workflow_name"@, "工作流名称"@, Some("多设备联动"@), false, TemplateParameterType::String, Seq::empty()),
            pv("trigger_device_id"@, "触发设备ID"@, None, true, TemplateParameterType::Device, Seq::empty()),
            pv("trigger_device_name"@, "触发设备名称"@, Some("触发设备"@), false, TemplateParameterType::String, Seq::empty()),
            pv("trigger_metric"@, "触发指标"@, Some("value"@), true, TemplateParameterType::Metric, Seq::empty()),
            pv("operator"@, "操作符"@, Some(">"@), true, TemplateParameterType::Enum, seq![">"@, "<"@]),
            pv("threshold"@, "阈值"@, Some("50"@), true, TemplateParameterType::Number, Seq::empty()),
            pv("control_steps"@, "控制步骤 (JSON)"@, Some("[\n  \x7b\"type\": \"send_command\", \"id\": \"cmd1\", \"device_id\": \"device1\", \"command\": \"on\"\x7d,\n  \x7b\"type\": \"send_command\", \"id\": \"cmd2\", \"device_id\": \"device2\", \"command\": \"off\"\x7d\n]"@), true, TemplateParameterType::String, Seq::empty()),
        ],
    }
}

fn multi_device_control() -> (t: WorkflowTemplate)
    ensures
        t@ == multi_device_control_view(),
{
    let mut ps: Vec<TemplateParameter> = Vec::new();
    ps.push(param("workflow_name", "工作流名称", Some("多设备联动"), false, TemplateParameterType::String, no_options()));
    ps.push(param("trigger_device_id", "触发设备ID", None, true, TemplateParameterType::Device, no_options()));
    ps.push(param("trigger_device_name", "触发设备名称", Some("触发设备"), false, TemplateParameterType::String, no_options()));
    ps.push(param("trigger_metric", "触发指标", Some("value"), true, TemplateParameterType::Metric, no_options()));
    let mut options: Vec<String> = Vec::new();
    options.push(owned(">"));
    options.push(owned("<"));
    assert(texts(options@) =~= seq![">"@, "<"@]);
    ps.push(param("operator", "操作符", Some(">"), true, TemplateParameterType::Enum, options));
    ps.push(param("threshold", "阈值", Some("50"), true, TemplateParameterType::Number, no_options()));
    ps.push(param("control_steps", "控制步骤 (JSON)", Some("[\n  \x7b\"type\": \"send_command\", \"id\": \"cmd1\", \"device_id\": \"device1\", \"command\": \"on\"\x7d,\n  \x7b\"type\": \"send_command\", \"id\": \"cmd2\", \"device_id\": \"device2\", \"command\": \"off\"\x7d\n]"), true, TemplateParameterType::String, no_options()));
    let t = WorkflowTemplate {
        id: owned("multi_device_control"),
        name: owned("多设备联动控制"),
        category: owned("automation"),
        description: owned("根据一个设备的状态控制多个其他设备"),
        dsl_template: owned(MULTI_DEVICE_CONTROL_DSL),
        parameters: ps,
    };
    assert(t@.parameters =~= multi_device_control_view().parameters);
    t
}

/// The `scheduled_action` template.
pub open spec fn scheduled_action_view() -> TemplateView {
    TemplateView {
        id: "scheduled_action"@,
        name: "定时设备操作"@,
        category: "schedule"@,
        description: "按计划自动执行设备操作"@,
        dsl: SCHEDULED_ACTION_DSL@,
        parameters: seq![
            pv("workflow_name"@, "工作流名称"@, Some("定时操作"@), false, TemplateParameterType::String, Seq::empty()),
            pv("cron_expression"@, "Cron表达式"@, Some("0 8 \x2a \x2a \x2a"@), true, TemplateParameterType::String, Seq::empty()),
            pv("timezone"@, "时区"@, Some("Asia/Shanghai"@), false, TemplateParameterType::String, Seq::empty()),
            pv("action_steps"@, "操作步骤 (JSON)"@, Some("[\x7b\"type\": \"send_command\", \"id\": \"cmd1\", \"device_id\": \"device1\", \"command\": \"on\"\x7d]"@), true, TemplateParameterType::String, Seq::empty()),
        ],
    }
}

fn scheduled_action() -> (t: WorkflowTemplate)
    ensures
        t@ == scheduled_action_view(),
{
    let mut ps: Vec<TemplateParameter> = Vec::new();
    ps.push(param("workflow_name", "工作流名称", Some("定时操作"), false, TemplateParameterType::String, no_options()));
    ps.push(param("cron_expression", "Cron表达式", Some("0 8 \x2a \x2a \x2a"), true, TemplateParameterType::String, no_options()));
    ps.push(param("timezone", "时区", Some("Asia/Shanghai"), false, TemplateParameterType::String, no_options()));
    ps.push(param("action_steps", "操作步骤 (JSON)", Some("[\x7b\"type\": \"send_command\", \"id\": \"cmd1\", \"device_id\": \"device1\", \"command\": \"on\"\x7d]"), true, TemplateParameterType::String, no_options()));
    let t = WorkflowTemplate {
        id: owned("scheduled_action"),
        name: owned("定时设备操作"),
        category: owned("schedule"),
        description: owned("按计划自动执行设备操作"),
        dsl_template: owned(SCHEDULED_ACTION_DSL),
        parameters: ps,
    };
    assert(t@.parameters =~= scheduled_action_view().parameters);
    t
}

/// The `data_collection` template.
pub open spec fn data_collection_view() -> TemplateView {
    TemplateView {
        id: "data_collection"@,
        name: "数据采集与上报"@,
        category: "data"@,
        description: "定时采集多个设备数据并发送报告"@,
        dsl: DATA_COLLECTION_DSL@,
        parameters: seq![
            pv("workflow_name"@, "工作流名称"@, Some("数据采集"@), false, TemplateParameterType::String, Seq::empty()),
            pv("query_steps"@, "查询步骤 (JSON)"@, Some("[\n  \x7b\"type\": \"device_query\", \"id\": \"query1\", \"device_id\": \"sensor1\", \"metric\": \"temperature\"\x7d,\n  \x7b\"type\": \"device_query\", \"id\": \"query2\", \"device_id\": \"sensor2\", \"metric\": \"humidity\"\x7d\n]"@), true, TemplateParameterType::String, Seq::empty()),
            pv("endpoint"@, "上报端点"@, Some("http://example.com/api/report"@), true, TemplateParameterType::String, Seq::empty()),
            pv("cron_expression"@, "Cron表达式"@, Some("0 \x2a \x2a \x2a \x2a"@), true, TemplateParameterType::String, Seq::empty()),
        ],
    }
}

fn data_collection() -> (t: WorkflowTemplate)
    ensures
        t@ == data_collection_view(),
{
    let mut ps: Vec<TemplateParameter> = Vec::new();
    ps.push(param("workflow_name", "工作流名称", Some("数据采集"), false, TemplateParameterType::String, no_options()));
    ps.push(param("query_steps", "查询步骤 (JSON)", Some("[\n  \x7b\"type\": \"device_query\", \"id\": \"query1\", \"device_id\": \"sensor1\", \"metric\": \"temperature\"\x7d,\n  \x7b\"type\": \"device_query\", \"id\": \"query2\", \"device_id\": \"sensor2\", \"metric\": \"humidity\"\x7d\n]"), true, TemplateParameterType::String, no_options()));
    ps.push(param("endpoint", "上报端点", Some("http://example.com/api/report"), true, TemplateParameterType::String, no_options()));
    ps.push(param("cron_expression", "Cron表达式", Some("0 \x2a \x2a \x2a \x2a"), true, TemplateParameterType::String, no_options()));
    let t = WorkflowTemplate {
        id: owned("data_collection"),
        name: owned("数据采集与上报"),
        category: owned("data"),
        description: owned("定时采集多个设备数据并发送报告"),
        dsl_template: owned(DATA_COLLECTION_DSL),
        parameters: ps,
    };
    assert(t@.parameters =~= data_collection_view().parameters);
    t
}

/// The `conditional_delay` template.
pub open spec fn conditional_delay_view() -> TemplateView {
    TemplateView {
        id: "conditional_delay"@,
        name: "条件判断与延迟执行"@,
        category: "logic"@,
        description: "检查条件，满足则延迟一段时间后执行操作"@,
        dsl: CONDITIONAL_DELAY_DSL@,
        parameters: seq![
            pv("workflow_name"@, "工作流名称"@, Some("条件延迟执行"@), false, TemplateParameterType::String, Seq::empty()),
            pv("device_id"@, "检查设备ID"@, None, true, TemplateParameterType::Device, Seq::empty()),
            pv("metric"@, "指标"@, Some("value"@), true, TemplateParameterType::Metric, Seq::empty()),
            pv("operator"@, "操作符"@, Some(">"@), true, TemplateParameterType::Enum, seq![">"@, "<"@, "=="@]),
            pv("threshold"@, "阈值"@, Some("50"@), true, TemplateParameterType::Number, Seq::empty()),
            pv("delay"@, "延迟(秒)"@, Some("30"@), true, TemplateParameterType::Number, Seq::empty()),
            pv("target_device_id"@, "目标设备ID"@, None, true, TemplateParameterType::Device, Seq::empty()),
            pv("command"@, "命令"@, Some("on"@), true, TemplateParameterType::Enum, seq!["on"@, "off"@, "toggle"@]),
            pv("cron_expression"@, "Cron表达式"@, Some("\x2a/10 \x2a \x2a \x2a \x2a"@), true, TemplateParameterType::String, Seq::empty()),
        ],
    }
}

fn conditional_delay() -> (t: WorkflowTemplate)
    ensures
        t@ == conditional_delay_view(),
{
    let mut ps: Vec<TemplateParameter> = Vec::new();
    ps.push(param("workflow_name", "工作流名称", Some("条件延迟执行"), false, TemplateParameterType::String, no_options()));
    ps.push(param("device_id", "检查设备ID", None, true, TemplateParameterType::Device, no_options()));
    ps.push(param("metric", "指标", Some("value"), true, TemplateParameterType::Metric, no_options()));
    let mut options: Vec<String> = Vec::new();
    options.push(owned(">"));
    options.push(owned("<"));
    options.push(owned("=="));
    assert(texts(options@) =~= seq![">"@, "<"@, "=="@]);
    ps.push(param("operator", "操作符", Some(">"), true, TemplateParameterType::Enum, options));
    ps.push(param("threshold", "阈值", Some("50"), true, TemplateParameterType::Number, no_options()));
    ps.push(param("delay", "延迟(秒)", Some("30"), true, TemplateParameterType::Number, no_options()));
    ps.push(param("target_device_id", "目标设备ID", None, true, TemplateParameterType::Device, no_options()));
    let mut options: Vec<String> = Vec::new();
    options.push(owned("on"));
    options.push(owned("off"));
    options.push(owned("toggle"));
    assert(texts(options@) =~= seq!["on"@, "off"@, "toggle"@]);
    ps.push(param("command", "命令", Some("on"), true, TemplateParameterType::Enum, options));
    ps.push(param("cron_expression", "Cron表达式", Some("\x2a/10 \x2a \x2a \x2a \x2a"), true, TemplateParameterType::String, no_options()));
    let t = WorkflowTemplate {
        id: owned("conditional_delay"),
        name: owned("条件判断与延迟执行"),
        category: owned("logic"),
        description: owned("检查条件，满足则延迟一段时间后执行操作"),
        dsl_template: owned(CONDITIONAL_DELAY_DSL),
        parameters: ps,
    };
    assert(t@.parameters =~= conditional_delay_view().parameters);
    t
}

} // verus!
