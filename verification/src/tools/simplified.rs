//! Tool descriptions shaped for a language model: natural-language names and
//! aliases, few required parameters with defaults for the rest, examples, and
//! friendly error messages.
use vstd::prelude::*;
use crate::json::{quoted, same, spec_quoted, Json, Scalar};
use crate::table::Table;
use crate::text::{cat, cat3, i64_text, join, join_texts, owned, signed_decimal};
use crate::tools::tool::ToolOutput;
use crate::workflow::templates::texts;

verus! {

/// An error told in plain words, with things the user may try.
pub struct FriendlyError {
    pub message: String,
    pub suggestions: Vec<String>,
    pub is_warning: bool,
}

impl FriendlyError {
    /// An error with a message and no suggestions.
    pub fn new(message: &str) -> (e: FriendlyError)
        ensures
            e.message@ == message@,
            e.suggestions@.len() == 0,
            !e.is_warning,
    {
        FriendlyError { message: owned(message), suggestions: Vec::new(), is_warning: false }
    }

    /// The same error with one more suggestion at the end.
    pub fn with_suggestion(self, suggestion: &str) -> (e: FriendlyError)
        ensures
            e.message == self.message,
            texts(e.suggestions@) == texts(self.suggestions@).push(suggestion@),
            e.is_warning == self.is_warning,
    {
        let mut e = self;
        let ghost before = e.suggestions@;
        e.suggestions.push(owned(suggestion));
        assert(texts(e.suggestions@) =~= texts(before).push(suggestion@));
        e
    }

    /// The same error, as a warning.
    pub fn as_warning(self) -> (e: FriendlyError)
        ensures
            e.message == self.message,
            e.suggestions == self.suggestions,
            e.is_warning,
    {
        FriendlyError { is_warning: true, ..self }
    }

    /// The tool output for the error: a warning is a success, an error a
    /// failure; both carry the message and, as metadata and data,
    /// `{"suggestions": [..], "type": "friendly_warning" | "friendly_error"}`.
    pub fn to_output(&self) -> (o: ToolOutput)
        ensures
            o.success == self.is_warning,
            o.error matches Some(m) && m@ == self.message@,
            o.metadata matches Some(meta) && same(o.data, meta) && (meta matches Json::Object(m) && m@.len() == 2
                && m@[0].0@ == "suggestions"@
                && (m@[0].1 matches Json::Array(v) && v@.len() == self.suggestions@.len()
                    && forall|i: int| 0 <= i < v@.len() ==> #[trigger] v@[i].text() == Some(self.suggestions@[i]@))
                && m@[1].0@ == "type"@
                && m@[1].1.text() == Some(if self.is_warning { "friendly_warning"@ } else { "friendly_error"@ })),
    {
        let mut list: Vec<Json> = Vec::new();
        let mut i: usize = 0;
        while i < self.suggestions.len()
            invariant
                i <= self.suggestions@.len(),
                list@.len() == i,
                forall|k: int| 0 <= k < i ==> #[trigger] list@[k].text() == Some(self.suggestions@[k]@),
            decreases self.suggestions@.len() - i,
        {
            list.push(Json::Str(self.suggestions[i].clone()));
            i = i + 1;
        }
        let mut m: Vec<(String, Json)> = Vec::new();
        m.push((owned("suggestions"), Json::Array(list)));
        let kind = if self.is_warning { "friendly_warning" } else { "friendly_error" };
        m.push((owned("type"), Json::Str(owned(kind))));
        let meta = Json::Object(m);
        if self.is_warning {
            ToolOutput::warning_with_metadata(self.message.as_str(), meta)
        } else {
            ToolOutput::error_with_metadata(self.message.as_str(), meta)
        }
    }
}

/// Ready-made friendly errors.
pub struct ErrorMessages;

impl ErrorMessages {
    /// A device that does not exist.
    pub fn device_not_found(device_id: &str) -> (e: FriendlyError)
        ensures
            e.message@ == "找不到设备 '"@ + device_id@ + "'"@,
            texts(e.suggestions@) == seq![
                "使用 'list_devices' 查看所有可用设备"@,
                "检查设备ID是否正确"@,
                "可能是设备 '"@ + device_id@ + "' 尚未添加到系统"@,
            ],
            !e.is_warning,
    {
        let m = cat3("找不到设备 '", device_id, "'");
        let last = cat3("可能是设备 '", device_id, "' 尚未添加到系统");
        let e = FriendlyError::new(m.as_str())
            .with_suggestion("使用 'list_devices' 查看所有可用设备")
            .with_suggestion("检查设备ID是否正确")
            .with_suggestion(last.as_str());
        assert(texts(e.suggestions@) =~= seq![
            "使用 'list_devices' 查看所有可用设备"@,
            "检查设备ID是否正确"@,
            "可能是设备 '"@ + device_id@ + "' 尚未添加到系统"@,
        ]);
        e
    }

    /// A parameter that is missing, with how to use it.
    pub fn parameter_missing(param_name: &str, usage_hint: &str) -> (e: FriendlyError)
        ensures
            e.message@ == "缺少必要参数: "@ + param_name@,
            texts(e.suggestions@) == seq!["用法: "@ + usage_hint@],
            !e.is_warning,
    {
        let m = cat("缺少必要参数: ", param_name);
        let u = cat("用法: ", usage_hint);
        let e = FriendlyError::new(m.as_str()).with_suggestion(u.as_str());
        assert(texts(e.suggestions@) =~= seq!["用法: "@ + usage_hint@]);
        e
    }

    /// A device without data yet: a warning.
    pub fn no_data_available(device_id: &str) -> (e: FriendlyError)
        ensures
            e.message@ == "设备 '"@ + device_id@ + "' 暂无数据"@,
            texts(e.suggestions@) == seq!["设备可能刚添加，需要等待数据采集"@, "检查设备是否在线"@],
            e.is_warning,
    {
        let m = cat3("设备 '", device_id, "' 暂无数据");
        let e = FriendlyError::new(m.as_str())
            .with_suggestion("设备可能刚添加，需要等待数据采集")
            .with_suggestion("检查设备是否在线")
            .as_warning();
        assert(texts(e.suggestions@) =~= seq!["设备可能刚添加，需要等待数据采集"@, "检查设备是否在线"@]);
        e
    }

    /// A device that is offline.
    pub fn device_offline(device_id: &str) -> (e: FriendlyError)
        ensures
            e.message@ == "设备 '"@ + device_id@ + "' 当前离线"@,
            texts(e.suggestions@) == seq!["检查设备电源连接"@, "查看网络连接状态"@],
            !e.is_warning,
    {
        let m = cat3("设备 '", device_id, "' 当前离线");
        let e = FriendlyError::new(m.as_str()).with_suggestion("检查设备电源连接").with_suggestion("查看网络连接状态");
        assert(texts(e.suggestions@) =~= seq!["检查设备电源连接"@, "查看网络连接状态"@]);
        e
    }

    /// A rule that does not exist.
    pub fn rule_not_found(rule_name: &str) -> (e: FriendlyError)
        ensures
            e.message@ == "找不到规则 '"@ + rule_name@ + "'"@,
            texts(e.suggestions@) == seq!["使用 'list_rules' 查看所有可用规则"@, "规则名称可能输入错误"@],
            !e.is_warning,
    {
        let m = cat3("找不到规则 '", rule_name, "'");
        let e = FriendlyError::new(m.as_str())
            .with_suggestion("使用 'list_rules' 查看所有可用规则")
            .with_suggestion("规则名称可能输入错误");
        assert(texts(e.suggestions@) =~= seq!["使用 'list_rules' 查看所有可用规则"@, "规则名称可能输入错误"@]);
        e
    }

    /// A command the device does not support, with those it does.
    pub fn invalid_command(device_id: &str, valid_commands: &Vec<String>) -> (e: FriendlyError)
        ensures
            e.message@ == "设备 '"@ + device_id@ + "' 不支持此命令"@,
            texts(e.suggestions@) == seq!["支持的命令: "@ + join(texts(valid_commands@), ", "@)],
            !e.is_warning,
    {
        let m = cat3("设备 '", device_id, "' 不支持此命令");
        let list = join_texts(valid_commands, ", ");
        let s = cat("支持的命令: ", list.as_str());
        let e = FriendlyError::new(m.as_str()).with_suggestion(s.as_str());
        assert(texts(e.suggestions@) =~= seq!["支持的命令: "@ + join(texts(valid_commands@), ", "@)]);
        e
    }

    /// A resource the user may not access.
    pub fn permission_denied(resource: &str) -> (e: FriendlyError)
        ensures
            e.message@ == "没有权限访问: "@ + resource@,
            texts(e.suggestions@) == seq!["请联系管理员获取权限"@],
            !e.is_warning,
    {
        let m = cat("没有权限访问: ", resource);
        let e = FriendlyError::new(m.as_str()).with_suggestion("请联系管理员获取权限");
        assert(texts(e.suggestions@) =~= seq!["请联系管理员获取权限"@]);
        e
    }

    /// Any other error, with its context.
    pub fn general(context: &str, details: &str) -> (e: FriendlyError)
        ensures
            e.message@ == context@ + ": "@ + details@,
            texts(e.suggestions@) == seq!["请稍后重试"@, "如果问题持续，请联系技术支持"@],
            !e.is_warning,
    {
        let m = cat3(context, ": ", details);
        let e = FriendlyError::new(m.as_str()).with_suggestion("请稍后重试").with_suggestion("如果问题持续，请联系技术支持");
        assert(texts(e.suggestions@) =~= seq!["请稍后重试"@, "如果问题持续，请联系技术支持"@]);
        e
    }
}

/// How a tool is simplified for a language model.
pub struct SimplifiedConfig {
    pub name: String,
    pub description: String,
    pub aliases: Vec<String>,
    pub required_params: Vec<String>,
    pub optional_params: Table<Json>,
    pub examples: Vec<String>,
}

impl SimplifiedConfig {
    /// A configuration with only a name.
    pub fn new(name: &str) -> (c: SimplifiedConfig)
        ensures
            c.name@ == name@,
            c.description@.len() == 0,
            c.aliases@.len() == 0,
            c.required_params@.len() == 0,
            c.optional_params@ == Map::<Seq<char>, Json>::empty(),
            c.examples@.len() == 0,
    {
        SimplifiedConfig {
            name: owned(name),
            description: String::new(),
            aliases: Vec::new(),
            required_params: Vec::new(),
            optional_params: Table::new(),
            examples: Vec::new(),
        }
    }

    /// The same configuration with a description.
    pub fn with_description(self, desc: &str) -> (c: SimplifiedConfig)
        ensures
            c.description@ == desc@,
            c.name == self.name,
            c.aliases == self.aliases,
            c.required_params == self.required_params,
            c.optional_params == self.optional_params,
            c.examples == self.examples,
    {
        SimplifiedConfig { description: owned(desc), ..self }
    }

    /// The same configuration with one more alias.
    pub fn with_alias(self, alias: &str) -> (c: SimplifiedConfig)
        ensures
            texts(c.aliases@) == texts(self.aliases@).push(alias@),
            c.name == self.name,
            c.description == self.description,
            c.required_params == self.required_params,
            c.optional_params == self.optional_params,
            c.examples == self.examples,
    {
        let mut c = self;
        let ghost before = c.aliases@;
        c.aliases.push(owned(alias));
        assert(texts(c.aliases@) =~= texts(before).push(alias@));
        c
    }

    /// The same configuration with one more required parameter.
    pub fn with_required_param(self, param: &str) -> (c: SimplifiedConfig)
        ensures
            texts(c.required_params@) == texts(self.required_params@).push(param@),
            c.name == self.name,
            c.description == self.description,
            c.aliases == self.aliases,
            c.optional_params == self.optional_params,
            c.examples == self.examples,
    {
        let mut c = self;
        let ghost before = c.required_params@;
        c.required_params.push(owned(param));
        assert(texts(c.required_params@) =~= texts(before).push(param@));
        c
    }

    /// The same configuration with an optional parameter and its default.
    pub fn with_optional_param(self, param: &str, default: Json) -> (c: SimplifiedConfig)
        ensures
            c.optional_params@ == self.optional_params@.insert(param@, default),
            c.name == self.name,
            c.description == self.description,
            c.aliases == self.aliases,
            c.required_params == self.required_params,
            c.examples == self.examples,
    {
        let mut c = self;
        c.optional_params.insert(owned(param), default);
        c
    }

    /// The same configuration with one more example.
    pub fn with_example(self, example: &str) -> (c: SimplifiedConfig)
        ensures
            texts(c.examples@) == texts(self.examples@).push(example@),
            c.name == self.name,
            c.description == self.description,
            c.aliases == self.aliases,
            c.required_params == self.required_params,
            c.optional_params == self.optional_params,
    {
        let mut c = self;
        let ghost before = c.examples@;
        c.examples.push(owned(example));
        assert(texts(c.examples@) =~= texts(before).push(example@));
        c
    }
}

/// An optional parameter as the model sees it.
pub struct ParameterInfo {
    pub description: String,
    pub default: Json,
    pub examples: Vec<String>,
}

/// An optional parameter as text.
pub struct ParameterInfoView {
    pub description: Seq<char>,
    pub default: Scalar,
    pub examples: Seq<Seq<char>>,
}

impl View for ParameterInfo {
    type V = ParameterInfoView;

    open spec fn view(&self) -> ParameterInfoView {
        ParameterInfoView { description: self.description@, default: self.default.scalar(), examples: texts(self.examples@) }
    }
}

/// A question a user might ask and the call that answers it.
pub struct Example {
    pub user_query: String,
    pub tool_call: String,
    pub explanation: String,
}

/// An example as text.
pub struct ExampleView {
    pub user_query: Seq<char>,
    pub tool_call: Seq<char>,
    pub explanation: Seq<char>,
}

impl View for Example {
    type V = ExampleView;

    open spec fn view(&self) -> ExampleView {
        ExampleView { user_query: self.user_query@, tool_call: self.tool_call@, explanation: self.explanation@ }
    }
}

/// A tool described for a language model.
pub struct LlmToolDefinition {
    pub name: String,
    pub description: String,
    pub aliases: Vec<String>,
    pub required: Vec<String>,
    pub optional: Table<ParameterInfo>,
    pub examples: Vec<Example>,
    pub use_when: Vec<String>,
}

/// A tool description as text; the optional parameters in the order the
/// table holds them.
pub struct LlmToolView {
    pub name: Seq<char>,
    pub description: Seq<char>,
    pub aliases: Seq<Seq<char>>,
    pub required: Seq<Seq<char>>,
    pub optional: Seq<(Seq<char>, ParameterInfoView)>,
    pub examples: Seq<ExampleView>,
    pub use_when: Seq<Seq<char>>,
}

impl View for LlmToolDefinition {
    type V = LlmToolView;

    open spec fn view(&self) -> LlmToolView {
        LlmToolView {
            name: self.name@,
            description: self.description@,
            aliases: texts(self.aliases@),
            required: texts(self.required@),
            optional: self.optional.items().map_values(|e: (Seq<char>, ParameterInfo)| (e.0, e.1@)),
            examples: self.examples@.map_values(|e: Example| e@),
            use_when: texts(self.use_when@),
        }
    }
}

/// A parameter view from its parts.
pub open spec fn piv(description: Seq<char>, default: Scalar, examples: Seq<Seq<char>>) -> ParameterInfoView {
    ParameterInfoView { description, default, examples }
}

/// An example view from its parts.
pub open spec fn exv(user_query: Seq<char>, tool_call: Seq<char>, explanation: Seq<char>) -> ExampleView {
    ExampleView { user_query, tool_call, explanation }
}

fn info(description: &str, default: Json, examples: Vec<String>) -> (p: ParameterInfo)
    ensures
        p@ == piv(description@, default.scalar(), texts(examples@)),
{
    ParameterInfo { description: owned(description), default, examples }
}

fn example(user_query: &str, tool_call: &str, explanation: &str) -> (e: Example)
    ensures
        e@ == exv(user_query@, tool_call@, explanation@),
{
    Example { user_query: owned(user_query), tool_call: owned(tool_call), explanation: owned(explanation) }
}

/// The simplified tools, in order.
pub open spec fn simplified_catalogue() -> Seq<LlmToolView> {
    seq![
        discover_tool_view(),
        query_tool_view(),
        control_tool_view(),
        create_rule_tool_view(),
        list_rules_tool_view(),
        disable_rule_tool_view(),
        enable_rule_tool_view(),
        analyze_tool_view(),
        rule_from_context_tool_view(),
    ]
}

/// The simplified descriptions of the common tools.
pub fn get_simplified_tools() -> (r: Vec<LlmToolDefinition>)
    ensures
        r@.map_values(|t: LlmToolDefinition| t@) == simplified_catalogue(),
{
    let mut r: Vec<LlmToolDefinition> = Vec::new();
    r.push(discover_tool());
    r.push(query_tool());
    r.push(control_tool());
    r.push(create_rule_tool());
    r.push(list_rules_tool());
    r.push(disable_rule_tool());
    r.push(enable_rule_tool());
    r.push(analyze_tool());
    r.push(rule_from_context_tool());
    assert(r@.map_values(|t: LlmToolDefinition| t@) =~= simplified_catalogue());
    r
}

/// The simplified `device.discover` tool.
pub open spec fn discover_tool_view() -> LlmToolView {
    LlmToolView {
        name: "device.discover"@,
        description: "发现系统中的所有设备。支持按位置、类型、状态过滤和分组。这是探索系统设备能力的入口工具。"@,
        aliases: seq!["发现设备"@, "设备列表"@, "查看设备"@, "所有设备"@, "有什么设备"@, "有哪些设备"@, "设备有哪些"@, "list_devices"@, "devices"@, "discover"@],
        required: Seq::<Seq<char>>::empty(),
        optional: seq![
            ("location"@, piv("位置过滤，如 '客厅' '卧室' '厨房'"@, Scalar::Null, seq!["客厅"@, "卧室"@, "厨房"@])),
            ("type"@, piv("设备类型，如 'sensor' 传感器, 'actuator' 执行器"@, Scalar::Null, seq!["sensor"@, "actuator"@, "light"@])),
            ("status"@, piv("状态筛选，如 'online' 在线, 'offline' 离线"@, Scalar::Null, seq!["online"@, "offline"@])),
            ("group_by"@, piv("分组方式：'type'按类型、'location'按位置、'status'按状态"@, Scalar::Text("none"@), seq!["type"@, "location"@, "status"@])),
        ],
        examples: seq![
            exv("系统有哪些设备？"@, "device.discover()"@, "显示所有设备列表和摘要"@),
            exv("客厅有哪些设备？"@, "device.discover(filter=\x7blocation:'客厅'\x7d, group_by='type')"@, "显示客厅的设备，按类型分组"@),
            exv("哪些设备离线了？"@, "device.discover(filter=\x7bstatus:'offline'\x7d)"@, "只显示离线设备"@),
        ],
        use_when: seq!["用户询问设备"@, "用户问有哪些"@, "用户想查看设备列表"@, "用户询问特定位置的设备"@],
    }
}

fn discover_tool() -> (t: LlmToolDefinition)
    ensures
        t@ == discover_tool_view(),
{
    let mut aliases: Vec<String> = Vec::new();
    aliases.push(owned("发现设备"));
    aliases.push(owned("设备列表"));
    aliases.push(owned("查看设备"));
    aliases.push(owned("所有设备"));
    aliases.push(owned("有什么设备"));
    aliases.push(owned("有哪些设备"));
    aliases.push(owned("设备有哪些"));
    aliases.push(owned("list_devices"));
    aliases.push(owned("devices"));
    aliases.push(owned("discover"));
    assert(texts(aliases@) =~= seq!["发现设备"@, "设备列表"@, "查看设备"@, "所有设备"@, "有什么设备"@, "有哪些设备"@, "设备有哪些"@, "list_devices"@, "devices"@, "discover"@]);
    let mut required: Vec<String> = Vec::new();
    assert(texts(required@) =~= Seq::<Seq<char>>::empty());
    let mut use_when: Vec<String> = Vec::new();
    use_when.push(owned("用户询问设备"));
    use_when.push(owned("用户问有哪些"));
    use_when.push(owned("用户想查看设备列表"));
    use_when.push(owned("用户询问特定位置的设备"));
    assert(texts(use_when@) =~= seq!["用户询问设备"@, "用户问有哪些"@, "用户想查看设备列表"@, "用户询问特定位置的设备"@]);
    let mut optional: Table<ParameterInfo> = Table::new();
    let mut ex0: Vec<String> = Vec::new();
    ex0.push(owned("客厅"));
    ex0.push(owned("卧室"));
    ex0.push(owned("厨房"));
    assert(texts(ex0@) =~= seq!["客厅"@, "卧室"@, "厨房"@]);
    optional.insert(owned("location"), info("位置过滤，如 '客厅' '卧室' '厨房'", Json::Null, ex0));
    assert(optional.items().len() == 1);
    let mut ex1: Vec<String> = Vec::new();
    ex1.push(owned("sensor"));
    ex1.push(owned("actuator"));
    ex1.push(owned("light"));
    assert(texts(ex1@) =~= seq!["sensor"@, "actuator"@, "light"@]);
    assert("location"@.len() == 8 && "type"@.len() == 4) by { reveal_strlit("location"); reveal_strlit("type"); }
    optional.insert(owned("type"), info("设备类型，如 'sensor' 传感器, 'actuator' 执行器", Json::Null, ex1));
    assert(optional.items().len() == 2);
    let mut ex2: Vec<String> = Vec::new();
    ex2.push(owned("online"));
    ex2.push(owned("offline"));
    assert(texts(ex2@) =~= seq!["online"@, "offline"@]);
    assert("location"@.len() == 8 && "status"@.len() == 6) by { reveal_strlit("location"); reveal_strlit("status"); }
    assert("type"@.len() == 4 && "status"@.len() == 6) by { reveal_strlit("type"); reveal_strlit("status"); }
    optional.insert(owned("status"), info("状态筛选，如 'online' 在线, 'offline' 离线", Json::Null, ex2));
    assert(optional.items().len() == 3);
    let mut ex3: Vec<String> = Vec::new();
    ex3.push(owned("type"));
    ex3.push(owned("location"));
    ex3.push(owned("status"));
    assert(texts(ex3@) =~= seq!["type"@, "location"@, "status"@]);
    assert("location"@[0] == 'l' && "group_by"@[0] == 'g') by { reveal_strlit("location"); reveal_strlit("group_by"); }
    assert("type"@.len() == 4 && "group_by"@.len() == 8) by { reveal_strlit("type"); reveal_strlit("group_by"); }
    assert("status"@.len() == 6 && "group_by"@.len() == 8) by { reveal_strlit("status"); reveal_strlit("group_by"); }
    optional.insert(owned("group_by"), info("分组方式：'type'按类型、'location'按位置、'status'按状态", Json::Str(owned("none")), ex3));
    assert(optional.items().len() == 4);
    let mut examples: Vec<Example> = Vec::new();
    examples.push(example("系统有哪些设备？", "device.discover()", "显示所有设备列表和摘要"));
    examples.push(example("客厅有哪些设备？", "device.discover(filter=\x7blocation:'客厅'\x7d, group_by='type')", "显示客厅的设备，按类型分组"));
    examples.push(example("哪些设备离线了？", "device.discover(filter=\x7bstatus:'offline'\x7d)", "只显示离线设备"));
    let t = LlmToolDefinition {
        name: owned("device.discover"),
        description: owned("发现系统中的所有设备。支持按位置、类型、状态过滤和分组。这是探索系统设备能力的入口工具。"),
        aliases,
        required,
        optional,
        examples,
        use_when,
    };
    assert(t@.optional =~= discover_tool_view().optional);
    assert(t@.examples =~= discover_tool_view().examples);
    t
}

/// The simplified `device.query` tool.
pub open spec fn query_tool_view() -> LlmToolView {
    LlmToolView {
        name: "device.query"@,
        description: "查询设备的实时或历史数据。支持查询单个或多个指标，可指定时间范围和聚合方式。"@,
        aliases: seq!["查询数据"@, "获取数据"@, "设备数据"@, "数据"@, "温度"@, "湿度"@, "温度多少"@, "当前温度"@, "query_data"@, "data"@, "query"@],
        required: seq!["device_id"@],
        optional: seq![
            ("metrics"@, piv("要查询的指标列表，如 ['temperature', 'humidity']。不指定则返回所有指标"@, Scalar::Null, seq!["['temperature']"@, "['temperature', 'humidity']"@])),
            ("limit"@, piv("返回数据点数量限制，默认24个点"@, Scalar::Int(24), seq!["10"@, "24"@, "100"@])),
        ],
        examples: seq![
            exv("客厅温度多少？"@, "device.query(device_id='sensor_temp_living', metrics=['temperature'])"@, "查询客厅温度传感器的当前温度"@),
            exv("过去24小时的温度数据"@, "device.query(device_id='sensor_temp_living', metrics=['temperature'], limit=24)"@, "查询24小时的历史温度数据"@),
            exv("传感器有哪些数据？"@, "device.query(device_id='sensor_temp_living')"@, "查询传感器的所有指标"@),
        ],
        use_when: seq!["用户询问温度/湿度/数据"@, "用户问现在多少度"@, "用户想查看读数"@, "用户询问历史数据"@, "用户询问趋势"@],
    }
}

fn query_tool() -> (t: LlmToolDefinition)
    ensures
        t@ == query_tool_view(),
{
    let mut aliases: Vec<String> = Vec::new();
    aliases.push(owned("查询数据"));
    aliases.push(owned("获取数据"));
    aliases.push(owned("设备数据"));
    aliases.push(owned("数据"));
    aliases.push(owned("温度"));
    aliases.push(owned("湿度"));
    aliases.push(owned("温度多少"));
    aliases.push(owned("当前温度"));
    aliases.push(owned("query_data"));
    aliases.push(owned("data"));
    aliases.push(owned("query"));
    assert(texts(aliases@) =~= seq!["查询数据"@, "获取数据"@, "设备数据"@, "数据"@, "温度"@, "湿度"@, "温度多少"@, "当前温度"@, "query_data"@, "data"@, "query"@]);
    let mut required: Vec<String> = Vec::new();
    required.push(owned("device_id"));
    assert(texts(required@) =~= seq!["device_id"@]);
    let mut use_when: Vec<String> = Vec::new();
    use_when.push(owned("用户询问温度/湿度/数据"));
    use_when.push(owned("用户问现在多少度"));
    use_when.push(owned("用户想查看读数"));
    use_when.push(owned("用户询问历史数据"));
    use_when.push(owned("用户询问趋势"));
    assert(texts(use_when@) =~= seq!["用户询问温度/湿度/数据"@, "用户问现在多少度"@, "用户想查看读数"@, "用户询问历史数据"@, "用户询问趋势"@]);
    let mut optional: Table<ParameterInfo> = Table::new();
    let mut ex0: Vec<String> = Vec::new();
    ex0.push(owned("['temperature']"));
    ex0.push(owned("['temperature', 'humidity']"));
    assert(texts(ex0@) =~= seq!["['temperature']"@, "['temperature', 'humidity']"@]);
    optional.insert(owned("metrics"), info("要查询的指标列表，如 ['temperature', 'humidity']。不指定则返回所有指标", Json::Null, ex0));
    assert(optional.items().len() == 1);
    let mut ex1: Vec<String> = Vec::new();
    ex1.push(owned("10"));
    ex1.push(owned("24"));
    ex1.push(owned("100"));
    assert(texts(ex1@) =~= seq!["10"@, "24"@, "100"@]);
    assert("metrics"@.len() == 7 && "limit"@.len() == 5) by { reveal_strlit("metrics"); reveal_strlit("limit"); }
    optional.insert(owned("limit"), info("返回数据点数量限制，默认24个点", Json::Int(24), ex1));
    assert(optional.items().len() == 2);
    let mut examples: Vec<Example> = Vec::new();
    examples.push(example("客厅温度多少？", "device.query(device_id='sensor_temp_living', metrics=['temperature'])", "查询客厅温度传感器的当前温度"));
    examples.push(example("过去24小时的温度数据", "device.query(device_id='sensor_temp_living', metrics=['temperature'], limit=24)", "查询24小时的历史温度数据"));
    examples.push(example("传感器有哪些数据？", "device.query(device_id='sensor_temp_living')", "查询传感器的所有指标"));
    let t = LlmToolDefinition {
        name: owned("device.query"),
        description: owned("查询设备的实时或历史数据。支持查询单个或多个指标，可指定时间范围和聚合方式。"),
        aliases,
        required,
        optional,
        examples,
        use_when,
    };
    assert(t@.optional =~= query_tool_view().optional);
    assert(t@.examples =~= query_tool_view().examples);
    t
}

/// The simplified `device.control` tool.
pub open spec fn control_tool_view() -> LlmToolView {
    LlmToolView {
        name: "device.control"@,
        description: "控制单个或多个设备。支持打开、关闭、设置值等操作。"@,
        aliases: seq!["控制设备"@, "打开"@, "关闭"@, "开启"@, "调节"@, "设置"@, "turn_on"@, "turn_off"@, "open"@, "close"@, "control"@],
        required: seq!["command"@],
        optional: seq![
            ("device_id"@, piv("单个设备ID，支持模糊匹配"@, Scalar::Null, seq!["light_living"@, "sensor_temp"@])),
            ("value"@, piv("命令值，如温度26、亮度50"@, Scalar::Null, seq!["26"@, "50"@, "100"@])),
        ],
        examples: seq![
            exv("打开客厅的灯"@, "device.control(device_id='light_living_main', command='turn_on')"@, "打开指定设备"@),
            exv("关闭空调"@, "device.control(device_id='ac', command='turn_off')"@, "关闭指定设备"@),
            exv("把空调设为26度"@, "device.control(device_id='ac_bedroom', command='set_temperature', value=\x7btemperature:26\x7d)"@, "设置空调温度"@),
            exv("打开所有灯"@, "device.control(device_id='light', command='turn_on')"@, "批量控制所有匹配的设备"@),
        ],
        use_when: seq!["用户要打开/关闭设备"@, "用户要调节设备"@, "用户说太亮/太暗"@, "用户要设置温度"@],
    }
}

fn control_tool() -> (t: LlmToolDefinition)
    ensures
        t@ == control_tool_view(),
{
    let mut aliases: Vec<String> = Vec::new();
    aliases.push(owned("控制设备"));
    aliases.push(owned("打开"));
    aliases.push(owned("关闭"));
    aliases.push(owned("开启"));
    aliases.push(owned("调节"));
    aliases.push(owned("设置"));
    aliases.push(owned("turn_on"));
    aliases.push(owned("turn_off"));
    aliases.push(owned("open"));
    aliases.push(owned("close"));
    aliases.push(owned("control"));
    assert(texts(aliases@) =~= seq!["控制设备"@, "打开"@, "关闭"@, "开启"@, "调节"@, "设置"@, "turn_on"@, "turn_off"@, "open"@, "close"@, "control"@]);
    let mut required: Vec<String> = Vec::new();
    required.push(owned("command"));
    assert(texts(required@) =~= seq!["command"@]);
    let mut use_when: Vec<String> = Vec::new();
    use_when.push(owned("用户要打开/关闭设备"));
    use_when.push(owned("用户要调节设备"));
    use_when.push(owned("用户说太亮/太暗"));
    use_when.push(owned("用户要设置温度"));
    assert(texts(use_when@) =~= seq!["用户要打开/关闭设备"@, "用户要调节设备"@, "用户说太亮/太暗"@, "用户要设置温度"@]);
    let mut optional: Table<ParameterInfo> = Table::new();
    let mut ex0: Vec<String> = Vec::new();
    ex0.push(owned("light_living"));
    ex0.push(owned("sensor_temp"));
    assert(texts(ex0@) =~= seq!["light_living"@, "sensor_temp"@]);
    optional.insert(owned("device_id"), info("单个设备ID，支持模糊匹配", Json::Null, ex0));
    assert(optional.items().len() == 1);
    let mut ex1: Vec<String> = Vec::new();
    ex1.push(owned("26"));
    ex1.push(owned("50"));
    ex1.push(owned("100"));
    assert(texts(ex1@) =~= seq!["26"@, "50"@, "100"@]);
    assert("device_id"@.len() == 9 && "value"@.len() == 5) by { reveal_strlit("device_id"); reveal_strlit("value"); }
    optional.insert(owned("value"), info("命令值，如温度26、亮度50", Json::Null, ex1));
    assert(optional.items().len() == 2);
    let mut examples: Vec<Example> = Vec::new();
    examples.push(example("打开客厅的灯", "device.control(device_id='light_living_main', command='turn_on')", "打开指定设备"));
    examples.push(example("关闭空调", "device.control(device_id='ac', command='turn_off')", "关闭指定设备"));
    examples.push(example("把空调设为26度", "device.control(device_id='ac_bedroom', command='set_temperature', value=\x7btemperature:26\x7d)", "设置空调温度"));
    examples.push(example("打开所有灯", "device.control(device_id='light', command='turn_on')", "批量控制所有匹配的设备"));
    let t = LlmToolDefinition {
        name: owned("device.control"),
        description: owned("控制单个或多个设备。支持打开、关闭、设置值等操作。"),
        aliases,
        required,
        optional,
        examples,
        use_when,
    };
    assert(t@.optional =~= control_tool_view().optional);
    assert(t@.examples =~= control_tool_view().examples);
    t
}

/// The simplified `create_rule` tool.
pub open spec fn create_rule_tool_view() -> LlmToolView {
    LlmToolView {
        name: "create_rule"@,
        description: "创建自动化规则。当满足条件时自动执行操作。"@,
        aliases: seq!["创建规则"@, "新建规则"@, "添加规则"@, "自动化"@, "告警"@],
        required: seq!["name"@, "condition"@, "action"@],
        optional: Seq::empty(),
        examples: seq![
            exv("创建高温告警规则"@, "create_rule(name='高温告警', condition='温度>50', action='通知我')"@, "温度超过50度时发送通知"@),
            exv("温度超过30度时开风扇"@, "create_rule(name='自动降温', condition='温度>30', action='打开风扇')"@, "高温自动开启风扇"@),
        ],
        use_when: seq!["用户要创建规则"@, "用户要设置自动化"@, "用户要添加告警"@],
    }
}

fn create_rule_tool() -> (t: LlmToolDefinition)
    ensures
        t@ == create_rule_tool_view(),
{
    let mut aliases: Vec<String> = Vec::new();
    aliases.push(owned("创建规则"));
    aliases.push(owned("新建规则"));
    aliases.push(owned("添加规则"));
    aliases.push(owned("自动化"));
    aliases.push(owned("告警"));
    assert(texts(aliases@) =~= seq!["创建规则"@, "新建规则"@, "添加规则"@, "自动化"@, "告警"@]);
    let mut required: Vec<String> = Vec::new();
    required.push(owned("name"));
    required.push(owned("condition"));
    required.push(owned("action"));
    assert(texts(required@) =~= seq!["name"@, "condition"@, "action"@]);
    let mut use_when: Vec<String> = Vec::new();
    use_when.push(owned("用户要创建规则"));
    use_when.push(owned("用户要设置自动化"));
    use_when.push(owned("用户要添加告警"));
    assert(texts(use_when@) =~= seq!["用户要创建规则"@, "用户要设置自动化"@, "用户要添加告警"@]);
    let mut optional: Table<ParameterInfo> = Table::new();
    let mut examples: Vec<Example> = Vec::new();
    examples.push(example("创建高温告警规则", "create_rule(name='高温告警', condition='温度>50', action='通知我')", "温度超过50度时发送通知"));
    examples.push(example("温度超过30度时开风扇", "create_rule(name='自动降温', condition='温度>30', action='打开风扇')", "高温自动开启风扇"));
    let t = LlmToolDefinition {
        name: owned("create_rule"),
        description: owned("创建自动化规则。当满足条件时自动执行操作。"),
        aliases,
        required,
        optional,
        examples,
        use_when,
    };
    assert(t@.optional =~= create_rule_tool_view().optional);
    assert(t@.examples =~= create_rule_tool_view().examples);
    t
}

/// The simplified `list_rules` tool.
pub open spec fn list_rules_tool_view() -> LlmToolView {
    LlmToolView {
        name: "list_rules"@,
        description: "列出所有规则。查看已创建的自动化规则。"@,
        aliases: seq!["规则列表"@, "显示规则"@, "所有规则"@, "查看规则"@],
        required: Seq::<Seq<char>>::empty(),
        optional: Seq::empty(),
        examples: seq![
            exv("显示所有规则"@, "list_rules()"@, "列出所有自动化规则"@),
        ],
        use_when: seq!["用户询问规则"@, "用户想查看已创建的自动化"@],
    }
}

fn list_rules_tool() -> (t: LlmToolDefinition)
    ensures
        t@ == list_rules_tool_view(),
{
    let mut aliases: Vec<String> = Vec::new();
    aliases.push(owned("规则列表"));
    aliases.push(owned("显示规则"));
    aliases.push(owned("所有规则"));
    aliases.push(owned("查看规则"));
    assert(texts(aliases@) =~= seq!["规则列表"@, "显示规则"@, "所有规则"@, "查看规则"@]);
    let mut required: Vec<String> = Vec::new();
    assert(texts(required@) =~= Seq::<Seq<char>>::empty());
    let mut use_when: Vec<String> = Vec::new();
    use_when.push(owned("用户询问规则"));
    use_when.push(owned("用户想查看已创建的自动化"));
    assert(texts(use_when@) =~= seq!["用户询问规则"@, "用户想查看已创建的自动化"@]);
    let mut optional: Table<ParameterInfo> = Table::new();
    let mut examples: Vec<Example> = Vec::new();
    examples.push(example("显示所有规则", "list_rules()", "列出所有自动化规则"));
    let t = LlmToolDefinition {
        name: owned("list_rules"),
        description: owned("列出所有规则。查看已创建的自动化规则。"),
        aliases,
        required,
        optional,
        examples,
        use_when,
    };
    assert(t@.optional =~= list_rules_tool_view().optional);
    assert(t@.examples =~= list_rules_tool_view().examples);
    t
}

/// The simplified `disable_rule` tool.
pub open spec fn disable_rule_tool_view() -> LlmToolView {
    LlmToolView {
        name: "disable_rule"@,
        description: "禁用规则。暂停指定的自动化规则。"@,
        aliases: seq!["禁用规则"@, "停用规则"@, "暂停规则"@, "关闭规则"@],
        required: seq!["rule"@],
        optional: Seq::empty(),
        examples: seq![
            exv("禁用高温告警规则"@, "disable_rule(rule='高温告警')"@, "暂停指定的自动化规则"@),
        ],
        use_when: seq!["用户要禁用/停用规则"@, "用户要暂停自动化"@],
    }
}

fn disable_rule_tool() -> (t: LlmToolDefinition)
    ensures
        t@ == disable_rule_tool_view(),
{
    let mut aliases: Vec<String> = Vec::new();
    aliases.push(owned("禁用规则"));
    aliases.push(owned("停用规则"));
    aliases.push(owned("暂停规则"));
    aliases.push(owned("关闭规则"));
    assert(texts(aliases@) =~= seq!["禁用规则"@, "停用规则"@, "暂停规则"@, "关闭规则"@]);
    let mut required: Vec<String> = Vec::new();
    required.push(owned("rule"));
    assert(texts(required@) =~= seq!["rule"@]);
    let mut use_when: Vec<String> = Vec::new();
    use_when.push(owned("用户要禁用/停用规则"));
    use_when.push(owned("用户要暂停自动化"));
    assert(texts(use_when@) =~= seq!["用户要禁用/停用规则"@, "用户要暂停自动化"@]);
    let mut optional: Table<ParameterInfo> = Table::new();
    let mut examples: Vec<Example> = Vec::new();
    examples.push(example("禁用高温告警规则", "disable_rule(rule='高温告警')", "暂停指定的自动化规则"));
    let t = LlmToolDefinition {
        name: owned("disable_rule"),
        description: owned("禁用规则。暂停指定的自动化规则。"),
        aliases,
        required,
        optional,
        examples,
        use_when,
    };
    assert(t@.optional =~= disable_rule_tool_view().optional);
    assert(t@.examples =~= disable_rule_tool_view().examples);
    t
}

/// The simplified `enable_rule` tool.
pub open spec fn enable_rule_tool_view() -> LlmToolView {
    LlmToolView {
        name: "enable_rule"@,
        description: "启用规则。恢复已禁用的自动化规则。"@,
        aliases: seq!["启用规则"@, "激活规则"@, "开启规则"@, "恢复规则"@],
        required: seq!["rule"@],
        optional: Seq::empty(),
        examples: seq![
            exv("启用刚才的规则"@, "enable_rule(rule='高温告警')"@, "恢复指定的自动化规则"@),
        ],
        use_when: seq!["用户要启用/激活规则"@, "用户要恢复自动化"@],
    }
}

fn enable_rule_tool() -> (t: LlmToolDefinition)
    ensures
        t@ == enable_rule_tool_view(),
{
    let mut aliases: Vec<String> = Vec::new();
    aliases.push(owned("启用规则"));
    aliases.push(owned("激活规则"));
    aliases.push(owned("开启规则"));
    aliases.push(owned("恢复规则"));
    assert(texts(aliases@) =~= seq!["启用规则"@, "激活规则"@, "开启规则"@, "恢复规则"@]);
    let mut required: Vec<String> = Vec::new();
    required.push(owned("rule"));
    assert(texts(required@) =~= seq!["rule"@]);
    let mut use_when: Vec<String> = Vec::new();
    use_when.push(owned("用户要启用/激活规则"));
    use_when.push(owned("用户要恢复自动化"));
    assert(texts(use_when@) =~= seq!["用户要启用/激活规则"@, "用户要恢复自动化"@]);
    let mut optional: Table<ParameterInfo> = Table::new();
    let mut examples: Vec<Example> = Vec::new();
    examples.push(example("启用刚才的规则", "enable_rule(rule='高温告警')", "恢复指定的自动化规则"));
    let t = LlmToolDefinition {
        name: owned("enable_rule"),
        description: owned("启用规则。恢复已禁用的自动化规则。"),
        aliases,
        required,
        optional,
        examples,
        use_when,
    };
    assert(t@.optional =~= enable_rule_tool_view().optional);
    assert(t@.examples =~= enable_rule_tool_view().examples);
    t
}

/// The simplified `device.analyze` tool.
pub open spec fn analyze_tool_view() -> LlmToolView {
    LlmToolView {
        name: "device.analyze"@,
        description: "使用LLM分析设备数据，发现趋势、异常和模式。支持趋势分析、异常检测、数据摘要等多种分析类型。"@,
        aliases: seq!["分析数据"@, "数据分析"@, "趋势分析"@, "异常检测"@, "数据异常"@, "analyze"@, "analysis"@, "trend"@],
        required: seq!["device_id"@],
        optional: seq![
            ("metric"@, piv("要分析的指标名称，如 'temperature'。不指定则分析所有指标"@, Scalar::Null, seq!["temperature"@, "humidity"@])),
            ("analysis_type"@, piv("分析类型：'trend' 趋势、'anomaly' 异常、'summary' 摘要"@, Scalar::Text("summary"@), seq!["trend"@, "anomaly"@, "summary"@])),
            ("limit"@, piv("要分析的数据点数量，默认24"@, Scalar::Int(24), seq!["24"@, "48"@, "100"@])),
        ],
        examples: seq![
            exv("分析温度趋势"@, "device.analyze(device_id='sensor_temp_living', metric='temperature', analysis_type='trend')"@, "分析温度变化趋势，判断是否上升/下降/稳定"@),
            exv("检测数据异常"@, "device.analyze(device_id='sensor_temp_living', analysis_type='anomaly')"@, "使用统计方法检测数据中的异常点"@),
            exv("数据摘要"@, "device.analyze(device_id='sensor_temp_living')"@, "生成统计摘要，包括最大值、最小值、平均值等"@),
        ],
        use_when: seq!["用户要求分析数据"@, "用户询问趋势"@, "用户检测异常"@, "用户要数据摘要"@],
    }
}

fn analyze_tool() -> (t: LlmToolDefinition)
    ensures
        t@ == analyze_tool_view(),
{
    let mut aliases: Vec<String> = Vec::new();
    aliases.push(owned("分析数据"));
    aliases.push(owned("数据分析"));
    aliases.push(owned("趋势分析"));
    aliases.push(owned("异常检测"));
    aliases.push(owned("数据异常"));
    aliases.push(owned("analyze"));
    aliases.push(owned("analysis"));
    aliases.push(owned("trend"));
    assert(texts(aliases@) =~= seq!["分析数据"@, "数据分析"@, "趋势分析"@, "异常检测"@, "数据异常"@, "analyze"@, "analysis"@, "trend"@]);
    let mut required: Vec<String> = Vec::new();
    required.push(owned("device_id"));
    assert(texts(required@) =~= seq!["device_id"@]);
    let mut use_when: Vec<String> = Vec::new();
    use_when.push(owned("用户要求分析数据"));
    use_when.push(owned("用户询问趋势"));
    use_when.push(owned("用户检测异常"));
    use_when.push(owned("用户要数据摘要"));
    assert(texts(use_when@) =~= seq!["用户要求分析数据"@, "用户询问趋势"@, "用户检测异常"@, "用户要数据摘要"@]);
    let mut optional: Table<ParameterInfo> = Table::new();
    let mut ex0: Vec<String> = Vec::new();
    ex0.push(owned("temperature"));
    ex0.push(owned("humidity"));
    assert(texts(ex0@) =~= seq!["temperature"@, "humidity"@]);
    optional.insert(owned("metric"), info("要分析的指标名称，如 'temperature'。不指定则分析所有指标", Json::Null, ex0));
    assert(optional.items().len() == 1);
    let mut ex1: Vec<String> = Vec::new();
    ex1.push(owned("trend"));
    ex1.push(owned("anomaly"));
    ex1.push(owned("summary"));
    assert(texts(ex1@) =~= seq!["trend"@, "anomaly"@, "summary"@]);
    assert("metric"@.len() == 6 && "analysis_type"@.len() == 13) by { reveal_strlit("metric"); reveal_strlit("analysis_type"); }
    optional.insert(owned("analysis_type"), info("分析类型：'trend' 趋势、'anomaly' 异常、'summary' 摘要", Json::Str(owned("summary")), ex1));
    assert(optional.items().len() == 2);
    let mut ex2: Vec<String> = Vec::new();
    ex2.push(owned("24"));
    ex2.push(owned("48"));
    ex2.push(owned("100"));
    assert(texts(ex2@) =~= seq!["24"@, "48"@, "100"@]);
    assert("metric"@.len() == 6 && "limit"@.len() == 5) by { reveal_strlit("metric"); reveal_strlit("limit"); }
    assert("analysis_type"@.len() == 13 && "limit"@.len() == 5) by { reveal_strlit("analysis_type"); reveal_strlit("limit"); }
    optional.insert(owned("limit"), info("要分析的数据点数量，默认24", Json::Int(24), ex2));
    assert(optional.items().len() == 3);
    let mut examples: Vec<Example> = Vec::new();
    examples.push(example("分析温度趋势", "device.analyze(device_id='sensor_temp_living', metric='temperature', analysis_type='trend')", "分析温度变化趋势，判断是否上升/下降/稳定"));
    examples.push(example("检测数据异常", "device.analyze(device_id='sensor_temp_living', analysis_type='anomaly')", "使用统计方法检测数据中的异常点"));
    examples.push(example("数据摘要", "device.analyze(device_id='sensor_temp_living')", "生成统计摘要，包括最大值、最小值、平均值等"));
    let t = LlmToolDefinition {
        name: owned("device.analyze"),
        description: owned("使用LLM分析设备数据，发现趋势、异常和模式。支持趋势分析、异常检测、数据摘要等多种分析类型。"),
        aliases,
        required,
        optional,
        examples,
        use_when,
    };
    assert(t@.optional =~= analyze_tool_view().optional);
    assert(t@.examples =~= analyze_tool_view().examples);
    t
}

/// The simplified `rule.from_context` tool.
pub open spec fn rule_from_context_tool_view() -> LlmToolView {
    LlmToolView {
        name: "rule.from_context"@,
        description: "从自然语言描述中提取规则信息，生成结构化的规则定义和DSL。支持理解用户的自然语言描述并生成规则代码。"@,
        aliases: seq!["创建规则"@, "新建规则"@, "添加规则"@, "生成规则"@, "规则定义"@, "自动化规则"@, "create_rule"@, "new_rule"@, "add_rule"@],
        required: seq!["description"@],
        optional: seq![
            ("context_devices"@, piv("可选：上下文中的设备ID列表，用于验证"@, Scalar::Null, seq!["['sensor_temp_living', 'sensor_humidity_living']"@])),
            ("confirm"@, piv("是否确认创建规则，默认false仅预览"@, Scalar::Bool(false), seq!["true"@, "false"@])),
        ],
        examples: seq![
            exv("温度超过50度时告警"@, "rule.from_context(description='温度超过50度时告警')"@, "生成高温告警规则的定义和DSL"@),
            exv("温度持续5分钟超过30度时开风扇"@, "rule.from_context(description='温度持续5分钟超过30度时开风扇')"@, "生成带持续时间和动作的规则"@),
            exv("湿度低于30%时告警并开启加湿器"@, "rule.from_context(description='湿度低于30%时告警并开启加湿器')"@, "生成多动作规则"@),
        ],
        use_when: seq!["用户要创建规则"@, "用户描述自动化场景"@, "用户设置阈值告警"@, "用户要条件触发动作"@],
    }
}

fn rule_from_context_tool() -> (t: LlmToolDefinition)
    ensures
        t@ == rule_from_context_tool_view(),
{
    let mut aliases: Vec<String> = Vec::new();
    aliases.push(owned("创建规则"));
    aliases.push(owned("新建规则"));
    aliases.push(owned("添加规则"));
    aliases.push(owned("生成规则"));
    aliases.push(owned("规则定义"));
    aliases.push(owned("自动化规则"));
    aliases.push(owned("create_rule"));
    aliases.push(owned("new_rule"));
    aliases.push(owned("add_rule"));
    assert(texts(aliases@) =~= seq!["创建规则"@, "新建规则"@, "添加规则"@, "生成规则"@, "规则定义"@, "自动化规则"@, "create_rule"@, "new_rule"@, "add_rule"@]);
    let mut required: Vec<String> = Vec::new();
    required.push(owned("description"));
    assert(texts(required@) =~= seq!["description"@]);
    let mut use_when: Vec<String> = Vec::new();
    use_when.push(owned("用户要创建规则"));
    use_when.push(owned("用户描述自动化场景"));
    use_when.push(owned("用户设置阈值告警"));
    use_when.push(owned("用户要条件触发动作"));
    assert(texts(use_when@) =~= seq!["用户要创建规则"@, "用户描述自动化场景"@, "用户设置阈值告警"@, "用户要条件触发动作"@]);
    let mut optional: Table<ParameterInfo> = Table::new();
    let mut ex0: Vec<String> = Vec::new();
    ex0.push(owned("['sensor_temp_living', 'sensor_humidity_living']"));
    assert(texts(ex0@) =~= seq!["['sensor_temp_living', 'sensor_humidity_living']"@]);
    optional.insert(owned("context_devices"), info("可选：上下文中的设备ID列表，用于验证", Json::Null, ex0));
    assert(optional.items().len() == 1);
    let mut ex1: Vec<String> = Vec::new();
    ex1.push(owned("true"));
    ex1.push(owned("false"));
    assert(texts(ex1@) =~= seq!["true"@, "false"@]);
    assert("context_devices"@.len() == 15 && "confirm"@.len() == 7) by { reveal_strlit("context_devices"); reveal_strlit("confirm"); }
    optional.insert(owned("confirm"), info("是否确认创建规则，默认false仅预览", Json::Bool(false), ex1));
    assert(optional.items().len() == 2);
    let mut examples: Vec<Example> = Vec::new();
    examples.push(example("温度超过50度时告警", "rule.from_context(description='温度超过50度时告警')", "生成高温告警规则的定义和DSL"));
    examples.push(example("温度持续5分钟超过30度时开风扇", "rule.from_context(description='温度持续5分钟超过30度时开风扇')", "生成带持续时间和动作的规则"));
    examples.push(example("湿度低于30%时告警并开启加湿器", "rule.from_context(description='湿度低于30%时告警并开启加湿器')", "生成多动作规则"));
    let t = LlmToolDefinition {
        name: owned("rule.from_context"),
        description: owned("从自然语言描述中提取规则信息，生成结构化的规则定义和DSL。支持理解用户的自然语言描述并生成规则代码。"),
        aliases,
        required,
        optional,
        examples,
        use_when,
    };
    assert(t@.optional =~= rule_from_context_tool_view().optional);
    assert(t@.examples =~= rule_from_context_tool_view().examples);
    t
}


// ---------------------------------------------------------------- the prompt

/// The text of a scalar default as JSON writes it.
pub open spec fn scalar_text(v: Scalar) -> Seq<char> {
    match v {
        Scalar::Null => "null"@,
        Scalar::Bool(b) => if b { "true"@ } else { "false"@ },
        Scalar::Int(i) => signed_decimal(i),
        Scalar::Text(t) => spec_quoted(t),
        Scalar::Other => Seq::empty(),
    }
}

/// The lines listing required parameters.
pub open spec fn required_lines(ps: Seq<Seq<char>>) -> Seq<char>
    decreases ps.len(),
{
    if ps.len() == 0 {
        Seq::empty()
    } else {
        required_lines(ps.drop_last()) + "  - **"@ + ps.last() + "** (必需)\n"@
    }
}

/// The line of an optional parameter.
pub open spec fn optional_line(k: Seq<char>, p: ParameterInfoView) -> Seq<char> {
    "  - **"@ + k + "** (可选，默认: "@ + scalar_text(p.default) + ") - "@ + p.description + "\n"@
}

/// The lines listing optional parameters.
pub open spec fn optional_lines(ps: Seq<(Seq<char>, ParameterInfoView)>) -> Seq<char>
    decreases ps.len(),
{
    if ps.len() == 0 {
        Seq::empty()
    } else {
        optional_lines(ps.drop_last()) + optional_line(ps.last().0, ps.last().1)
    }
}

/// The two lines of an example: the question and the call.
pub open spec fn example_line(e: ExampleView) -> Seq<char> {
    "  - 用户: \""@ + e.user_query + "\"\n"@ + "    → `"@ + e.tool_call + "`\n"@
}

/// The lines of the examples.
pub open spec fn example_lines(es: Seq<ExampleView>) -> Seq<char>
    decreases es.len(),
{
    if es.len() == 0 {
        Seq::empty()
    } else {
        example_lines(es.drop_last()) + example_line(es.last())
    }
}

/// The section of the prompt that describes one tool.
pub open spec fn tool_section(t: LlmToolView) -> Seq<char> {
    "### "@ + t.name + " ("@ + t.description + ")\n"@
        + (if t.aliases.len() > 0 { "**别名**: "@ + join(t.aliases, ", "@) + "\n"@ } else { Seq::empty() })
        + "**参数**:\n"@
        + (if t.required.len() == 0 && t.optional.len() == 0 {
            "  无需参数\n"@
        } else {
            required_lines(t.required) + optional_lines(t.optional)
        })
        + (if t.examples.len() > 0 { "\n**示例**:\n"@ + example_lines(t.examples) } else { Seq::empty() })
        + (if t.use_when.len() > 0 { "\n**使用场景**: "@ + join(t.use_when, "、"@) + "\n"@ } else { Seq::empty() })
        + "\n"@
}

/// The sections of the tools, in order.
pub open spec fn tool_sections(ts: Seq<LlmToolView>) -> Seq<char>
    decreases ts.len(),
{
    if ts.len() == 0 {
        Seq::empty()
    } else {
        tool_sections(ts.drop_last()) + tool_section(ts.last())
    }
}

/// The opening of the prompt: a title and the format of tool calls.
pub open spec fn prompt_head() -> Seq<char> {
    PROMPT_TITLE@ + PROMPT_CALLS@ + PROMPT_FORMAT@
}

/// The title of the prompt.
pub const PROMPT_TITLE: &'static str = "## 可用工具\n\n";

/// The sentence that introduces the call format.
pub const PROMPT_CALLS: &'static str = "你可以调用以下工具来完成任务。工具调用格式：\n";

/// The call format.
pub const PROMPT_FORMAT: &'static str = "```\n[\x7b\"name\":\"工具名\",\"arguments\":\x7b\"参数\":\"值\"\x7d\x7d]\n```\n\n";

/// Whether every optional parameter has a scalar default.
pub open spec fn scalar_defaults(t: LlmToolView) -> bool {
    forall|i: int| 0 <= i < t.optional.len() ==> !(#[trigger] t.optional[i].1.default is Other)
}

/// The text of a scalar default value.
fn default_text(v: &Json) -> (r: String)
    requires
        !(v.scalar() is Other),
    ensures
        r@ == scalar_text(v.scalar()),
{
    match v {
        Json::Null => owned("null"),
        Json::Bool(b) => if *b { owned("true") } else { owned("false") },
        Json::Int(i) => i64_text(*i),
        Json::Str(s) => quoted(s.as_str()),
        _ => String::new(),
    }
}

fn head_text(t: &LlmToolDefinition) -> (r: String)
    ensures
        r@ == "### "@ + t@.name + " ("@ + t@.description + ")\n"@
            + (if t@.aliases.len() > 0 { "**别名**: "@ + join(t@.aliases, ", "@) + "\n"@ } else { Seq::empty() }),
{
    let mut r = cat3("### ", t.name.as_str(), " (");
    r.append(t.description.as_str());
    r.append(")\n");
    if t.aliases.len() > 0 {
        let a = join_texts(&t.aliases, ", ");
        r.append("**别名**: ");
        r.append(a.as_str());
        r.append("\n");
    }
    r
}

fn required_text(t: &LlmToolDefinition) -> (r: String)
    ensures
        r@ == required_lines(t@.required),
{
    let ghost v = t@;
    let mut r = String::new();
    let mut i: usize = 0;
    while i < t.required.len()
        invariant
            i <= t.required@.len(),
            v == t@,
            r@ == required_lines(v.required.subrange(0, i as int)),
        decreases t.required@.len() - i,
    {
        proof {
            assert(v.required.subrange(0, i + 1).drop_last() =~= v.required.subrange(0, i as int));
            assert(v.required.subrange(0, i + 1).last() == t.required@[i as int]@);
        }
        r.append("  - **");
        r.append(t.required[i].as_str());
        r.append("** (必需)\n");
        i = i + 1;
    }
    assert(v.required.subrange(0, v.required.len() as int) =~= v.required);
    r
}

fn optional_text(t: &LlmToolDefinition) -> (r: String)
    requires
        scalar_defaults(t@),
    ensures
        r@ == optional_lines(t@.optional),
{
    let ghost v = t@;
    let mut r = String::new();
    let n = t.optional.len();
    let mut j: usize = 0;
    while j < n
        invariant
            j <= n,
            n == t.optional.items().len(),
            v == t@,
            scalar_defaults(v),
            r@ == optional_lines(v.optional.subrange(0, j as int)),
        decreases n - j,
    {
        let k = t.optional.key_at(j);
        let p = t.optional.value_at(j);
        proof {
            assert(v.optional.subrange(0, j + 1).drop_last() =~= v.optional.subrange(0, j as int));
            assert(v.optional.subrange(0, j + 1).last() == v.optional[j as int]);
            assert(v.optional[j as int] == (k@, p@));
            assert(!(v.optional[j as int].1.default is Other));
        }
        let d = default_text(&p.default);
        let mut line = cat3("  - **", k.as_str(), "** (可选，默认: ");
        line.append(d.as_str());
        line.append(") - ");
        line.append(p.description.as_str());
        line.append("\n");
        r.append(line.as_str());
        j = j + 1;
    }
    assert(v.optional.subrange(0, n as int) =~= v.optional);
    r
}

fn examples_text(t: &LlmToolDefinition) -> (r: String)
    ensures
        r@ == example_lines(t@.examples),
{
    let ghost v = t@;
    let mut r = String::new();
    let mut i: usize = 0;
    while i < t.examples.len()
        invariant
            i <= t.examples@.len(),
            v == t@,
            r@ == example_lines(v.examples.subrange(0, i as int)),
        decreases t.examples@.len() - i,
    {
        let e = &t.examples[i];
        proof {
            assert(v.examples.subrange(0, i + 1).drop_last() =~= v.examples.subrange(0, i as int));
            assert(v.examples.subrange(0, i + 1).last() == e@);
        }
        let mut line = cat3("  - 用户: \"", e.user_query.as_str(), "\"\n");
        line.append("    → `");
        line.append(e.tool_call.as_str());
        line.append("`\n");
        r.append(line.as_str());
        i = i + 1;
    }
    assert(v.examples.subrange(0, v.examples.len() as int) =~= v.examples);
    r
}

/// The section of the prompt for one tool.
fn section_text(t: &LlmToolDefinition) -> (r: String)
    requires
        scalar_defaults(t@),
    ensures
        r@ == tool_section(t@),
{
    let mut r = head_text(t);
    r.append("**参数**:\n");
    if t.required.len() == 0 && t.optional.len() == 0 {
        r.append("  无需参数\n");
    } else {
        let a = required_text(t);
        let b = optional_text(t);
        r.append(a.as_str());
        r.append(b.as_str());
    }
    if t.examples.len() > 0 {
        let e = examples_text(t);
        r.append("\n**示例**:\n");
        r.append(e.as_str());
    }
    if t.use_when.len() > 0 {
        let u = join_texts(&t.use_when, "、");
        r.append("\n**使用场景**: ");
        r.append(u.as_str());
        r.append("\n");
    }
    r.append("\n");
    r
}

/// Every simplified tool has scalar defaults.
proof fn lemma_catalogue_scalar_defaults()
    ensures
        forall|i: int| 0 <= i < simplified_catalogue().len() ==> scalar_defaults(#[trigger] simplified_catalogue()[i]),
{
    assert(scalar_defaults(discover_tool_view()));
    assert(scalar_defaults(query_tool_view()));
    assert(scalar_defaults(control_tool_view()));
    assert(scalar_defaults(create_rule_tool_view()));
    assert(scalar_defaults(list_rules_tool_view()));
    assert(scalar_defaults(disable_rule_tool_view()));
    assert(scalar_defaults(enable_rule_tool_view()));
    assert(scalar_defaults(analyze_tool_view()));
    assert(scalar_defaults(rule_from_context_tool_view()));
}

/// The prompt that presents the simplified tools to a language model:
/// for each tool its name, description, aliases, parameters (the optional
/// ones with their defaults), examples and when to use it.
pub fn format_tools_for_llm() -> (r: String)
    ensures
        r@ == prompt_head() + tool_sections(simplified_catalogue()),
{
    let tools = get_simplified_tools();
    let ghost cat_v = simplified_catalogue();
    let mut r = cat3(PROMPT_TITLE, PROMPT_CALLS, PROMPT_FORMAT);
    let mut i: usize = 0;
    while i < tools.len()
        invariant
            i <= tools@.len(),
            tools@.map_values(|t: LlmToolDefinition| t@) == cat_v,
            cat_v == simplified_catalogue(),
            r@ == prompt_head() + tool_sections(cat_v.subrange(0, i as int)),
        decreases tools@.len() - i,
    {
        proof {
            assert(cat_v.subrange(0, i + 1).drop_last() =~= cat_v.subrange(0, i as int));
            assert(cat_v[i as int] == tools@[i as int]@);
            lemma_catalogue_scalar_defaults();
            assert(scalar_defaults(cat_v[i as int]));
        }
        let s = section_text(&tools[i]);
        r.append(s.as_str());
        i = i + 1;
    }
    assert(cat_v.subrange(0, tools@.len() as int) =~= cat_v);
    r
}


// ---------------------------------------------------------------- function-calling schemas

/// Whether `j` describes the required parameter `p`:
/// `{"type": "string", "description": "<p> (必需)"}`.
pub open spec fn is_required_property(j: Json, p: Seq<char>) -> bool {
    j matches Json::Object(m) && m@.len() == 2
        && m@[0].0@ == "type"@ && m@[0].1.text() == Some("string"@)
        && m@[1].0@ == "description"@ && m@[1].1.text() == Some(p + " (必需)"@)
}

/// Whether `j` describes an optional parameter:
/// `{"type": "string", "description": .., "default": ..}`.
pub open spec fn is_optional_property(j: Json, p: ParameterInfoView) -> bool {
    j matches Json::Object(m) && m@.len() == 3
        && m@[0].0@ == "type"@ && m@[0].1.text() == Some("string"@)
        && m@[1].0@ == "description"@ && m@[1].1.text() == Some(p.description)
        && m@[2].0@ == "default"@ && m@[2].1.scalar() == p.default
}

/// Whether `props` lists the required parameters, then the optional ones, of `t`.
pub open spec fn are_properties(props: Seq<(String, Json)>, t: LlmToolView) -> bool {
    let r = t.required.len();
    &&& props.len() == r + t.optional.len()
    &&& forall|i: int| 0 <= i < r ==> (#[trigger] props[i]).0@ == t.required[i] && is_required_property(props[i].1, t.required[i])
    &&& forall|i: int| 0 <= i < t.optional.len() ==> (#[trigger] props[r + i]).0@ == t.optional[i].0
        && is_optional_property(props[r + i].1, t.optional[i].1)
}

/// Whether `j` is the function-calling schema of `t`:
/// `{"name", "description", "parameters": {"type": "object", "properties", "required"}}`.
pub open spec fn is_tool_schema(j: Json, t: LlmToolView) -> bool {
    j matches Json::Object(m) && m@.len() == 3
        && m@[0].0@ == "name"@ && m@[0].1.text() == Some(t.name)
        && m@[1].0@ == "description"@ && m@[1].1.text() == Some(t.description)
        && m@[2].0@ == "parameters"@ && (m@[2].1 matches Json::Object(ps) && ps@.len() == 3
            && ps@[0].0@ == "type"@ && ps@[0].1.text() == Some("object"@)
            && ps@[1].0@ == "properties"@ && (ps@[1].1 matches Json::Object(props) && are_properties(props@, t))
            && ps@[2].0@ == "required"@ && (ps@[2].1 matches Json::Array(req) && req@.len() == t.required.len()
                && forall|i: int| 0 <= i < t.required.len() ==> #[trigger] req@[i].text() == Some(t.required[i])))
}

fn tool_schema(t: &LlmToolDefinition) -> (j: Json)
    ensures
        is_tool_schema(j, t@),
{
    let ghost v = t@;
    let mut props: Vec<(String, Json)> = Vec::new();
    let mut i: usize = 0;
    while i < t.required.len()
        invariant
            i <= t.required@.len(),
            v == t@,
            props@.len() == i,
            forall|k: int| 0 <= k < i ==> (#[trigger] props@[k]).0@ == v.required[k] && is_required_property(props@[k].1, v.required[k]),
        decreases t.required@.len() - i,
    {
        let p = t.required[i].as_str();
        let mut m: Vec<(String, Json)> = Vec::new();
        m.push((owned("type"), Json::Str(owned("string"))));
        m.push((owned("description"), Json::Str(cat(p, " (必需)"))));
        props.push((owned(p), Json::Object(m)));
        i = i + 1;
    }
    let r = t.required.len();
    let n = t.optional.len();
    let mut j: usize = 0;
    while j < n
        invariant
            j <= n,
            n == t.optional.items().len(),
            r == v.required.len(),
            v == t@,
            props@.len() == r + j,
            forall|k: int| 0 <= k < r ==> (#[trigger] props@[k]).0@ == v.required[k] && is_required_property(props@[k].1, v.required[k]),
            forall|k: int| 0 <= k < j ==> (#[trigger] props@[r + k]).0@ == v.optional[k].0
                && is_optional_property(props@[r + k].1, v.optional[k].1),
        decreases n - j,
    {
        let k = t.optional.key_at(j);
        let p = t.optional.value_at(j);
        proof {
            assert(v.optional[j as int] == (k@, p@));
        }
        let mut m: Vec<(String, Json)> = Vec::new();
        m.push((owned("type"), Json::Str(owned("string"))));
        m.push((owned("description"), Json::Str(owned(p.description.as_str()))));
        m.push((owned("default"), p.default.copy()));
        props.push((owned(k.as_str()), Json::Object(m)));
        j = j + 1;
    }
    let mut req: Vec<Json> = Vec::new();
    let mut q: usize = 0;
    while q < t.required.len()
        invariant
            q <= t.required@.len(),
            v == t@,
            req@.len() == q,
            forall|k: int| 0 <= k < q ==> #[trigger] req@[k].text() == Some(v.required[k]),
        decreases t.required@.len() - q,
    {
        req.push(Json::Str(owned(t.required[q].as_str())));
        q = q + 1;
    }
    let mut params: Vec<(String, Json)> = Vec::new();
    params.push((owned("type"), Json::Str(owned("object"))));
    params.push((owned("properties"), Json::Object(props)));
    params.push((owned("required"), Json::Array(req)));
    let mut m: Vec<(String, Json)> = Vec::new();
    m.push((owned("name"), Json::Str(owned(t.name.as_str()))));
    m.push((owned("description"), Json::Str(owned(t.description.as_str()))));
    m.push((owned("parameters"), Json::Object(params)));
    Json::Object(m)
}

/// The function-calling schemas of the simplified tools, in order.
pub fn format_tools_as_json() -> (r: Vec<Json>)
    ensures
        r@.len() == simplified_catalogue().len(),
        forall|i: int| 0 <= i < r@.len() ==> is_tool_schema(#[trigger] r@[i], simplified_catalogue()[i]),
{
    let tools = get_simplified_tools();
    let ghost cat_v = simplified_catalogue();
    let mut r: Vec<Json> = Vec::new();
    let mut i: usize = 0;
    while i < tools.len()
        invariant
            i <= tools@.len(),
            tools@.map_values(|t: LlmToolDefinition| t@) == cat_v,
            cat_v == simplified_catalogue(),
            r@.len() == i,
            forall|k: int| 0 <= k < i ==> is_tool_schema(#[trigger] r@[k], cat_v[k]),
        decreases tools@.len() - i,
    {
        assert(cat_v[i as int] == tools@[i as int]@);
        r.push(tool_schema(&tools[i]));
        i = i + 1;
    }
    r
}

} // verus!
