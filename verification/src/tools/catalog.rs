//! Full tool definitions (category, usage scenarios, relations to other
//! tools, parameter schema) and the listing of them that is handed to a
//! language model.
use vstd::prelude::*;
use crate::json::{member_keys, Json};
use crate::sort::{is_text_order, text_order};
use crate::text::{cat3, decimal, join, join_texts, owned, same_text, u64_text};
use crate::tools::tool::ToolExample;
use crate::workflow::templates::texts;

verus! {

/// What a tool is about.
#[derive(Clone, Copy, Debug, PartialEq, Eq, Structural)]
pub enum ToolCategory {
    Device,
    Data,
    Analysis,
    Rule,
    Workflow,
    Alert,
    Config,
    System,
    Agent,
}

/// The lower-case name of a category.
pub open spec fn category_name(c: ToolCategory) -> Seq<char> {
    match c {
        ToolCategory::Device => "device"@,
        ToolCategory::Data => "data"@,
        ToolCategory::Analysis => "analysis"@,
        ToolCategory::Rule => "rule"@,
        ToolCategory::Workflow => "workflow"@,
        ToolCategory::Alert => "alert"@,
        ToolCategory::Config => "config"@,
        ToolCategory::System => "system"@,
        ToolCategory::Agent => "agent"@,
    }
}

impl ToolCategory {
    /// The lower-case name of the category.
    pub fn as_str(&self) -> (s: &'static str)
        ensures
            s@ == category_name(*self),
    {
        match self {
            ToolCategory::Device => "device",
            ToolCategory::Data => "data",
            ToolCategory::Analysis => "analysis",
            ToolCategory::Rule => "rule",
            ToolCategory::Workflow => "workflow",
            ToolCategory::Alert => "alert",
            ToolCategory::Config => "config",
            ToolCategory::System => "system",
            ToolCategory::Agent => "agent",
        }
    }
}

/// A situation in which a tool helps, with a question that shows it.
pub struct UsageScenario {
    pub description: String,
    pub example_query: String,
    pub suggested_call: Option<String>,
}

/// How a tool relates to others: what to call before it, what its output
/// feeds, what it excludes.
pub struct ToolRelationships {
    pub call_after: Vec<String>,
    pub output_to: Vec<String>,
    pub exclusive_with: Vec<String>,
}

/// No relations.
impl Default for ToolRelationships {
    fn default() -> (r: Self)
        ensures
            r.call_after@.len() == 0,
            r.output_to@.len() == 0,
            r.exclusive_with@.len() == 0,
    {
        ToolRelationships { call_after: Vec::new(), output_to: Vec::new(), exclusive_with: Vec::new() }
    }
}

/// Everything that describes a tool to a model.
pub struct ToolDefinition {
    pub name: String,
    pub description: String,
    pub parameters: Json,
    pub example: Option<ToolExample>,
    pub examples: Vec<ToolExample>,
    pub response_format: Option<String>,
    pub namespace: Option<String>,
    pub category: ToolCategory,
    pub scenarios: Vec<UsageScenario>,
    pub relationships: ToolRelationships,
    pub deprecated: bool,
    pub replaced_by: Option<String>,
    pub version: String,
}

// ---------------------------------------------------------------- one tool

/// The numbered lines of the usage scenarios.
pub open spec fn scenario_lines(s: Seq<UsageScenario>) -> Seq<char>
    decreases s.len(),
{
    if s.len() == 0 {
        Seq::empty()
    } else {
        scenario_lines(s.drop_last()) + "  "@ + decimal(s.len()) + ". "@ + s.last().description@ + " - 示例: \""@
            + s.last().example_query@ + "\"\n"@
    }
}

/// The scenarios part of a tool's block.
pub open spec fn scenario_part(s: Seq<UsageScenario>) -> Seq<char> {
    if s.len() > 0 { "**使用场景**:\n"@ + scenario_lines(s) } else { Seq::empty() }
}

/// The relations part of a tool's block.
pub open spec fn relation_part(r: ToolRelationships) -> Seq<char> {
    if r.call_after@.len() > 0 || r.output_to@.len() > 0 {
        "**工具关系**:\n"@
            + (if r.call_after@.len() > 0 { "  → 建议先调用: "@ + join(texts(r.call_after@), ", "@) + "\n"@ } else { Seq::empty() })
            + (if r.output_to@.len() > 0 { "  → 输出可用于: "@ + join(texts(r.output_to@), ", "@) + "\n"@ } else { Seq::empty() })
    } else {
        Seq::empty()
    }
}

/// The text of an optional string, or a fallback.
pub open spec fn text_or(o: Option<Seq<char>>, fallback: Seq<char>) -> Seq<char> {
    match o {
        Some(t) => t,
        None => fallback,
    }
}

/// The members of the schema's `properties` object, if it is one.
pub open spec fn schema_properties(params: Json) -> Seq<(String, Json)> {
    match params.member("properties"@) {
        Some(Json::Object(m)) => m@,
        _ => Seq::empty(),
    }
}

/// The names of the schema's properties.
pub open spec fn property_keys(params: Json) -> Seq<Seq<char>> {
    member_keys(schema_properties(params))
}

/// Whether the schema lists `name` among its required names.
pub open spec fn listed_required(params: Json, name: Seq<char>) -> bool {
    params.member("required"@) matches Some(Json::Array(a)) && exists|i: int| 0 <= i < a@.len() && #[trigger] a@[i].text() == Some(name)
}

/// The line of one property.
pub open spec fn property_line(params: Json, name: Seq<char>, prop: Json) -> Seq<char> {
    "  - `"@ + name + "`: "@ + text_or(prop.text_at("description"@), "无描述"@) + " ("@ + text_or(prop.text_at("type"@), "unknown"@) + ")"@
        + (if listed_required(params, name) { " **[必需]**"@ } else { Seq::empty() }) + "\n"@
}

/// The lines of the properties taken in the given order of positions.
pub open spec fn property_lines(params: Json, m: Seq<(String, Json)>, order: Seq<usize>) -> Seq<char>
    decreases order.len(),
{
    if order.len() == 0 {
        Seq::empty()
    } else {
        property_lines(params, m, order.drop_last()) + property_line(params, m[order.last() as int].0@, m[order.last() as int].1)
    }
}

/// The string items of an array, in order.
pub open spec fn string_items(a: Seq<Json>) -> Seq<Seq<char>>
    decreases a.len(),
{
    if a.len() == 0 {
        Seq::empty()
    } else {
        match a.last().text() {
            Some(t) => string_items(a.drop_last()).push(t),
            None => string_items(a.drop_last()),
        }
    }
}

/// The line that lists the required parameters, when the schema has any.
pub open spec fn required_part(params: Json) -> Seq<char> {
    match params.member("required"@) {
        Some(Json::Array(a)) => if a@.len() > 0 { "**必需参数**: "@ + join(string_items(a@), ", "@) + "\n"@ } else { Seq::empty() },
        _ => Seq::empty(),
    }
}

/// The block of the listing that describes one tool, its properties taken
/// in the given order.
pub open spec fn tool_block(d: ToolDefinition, order: Seq<usize>) -> Seq<char> {
    "**工具**: `"@ + d.name@ + "`\n"@ + "**描述**: "@ + d.description@ + "\n"@
        + scenario_part(d.scenarios@)
        + relation_part(d.relationships)
        + "**参数**:\n"@
        + property_lines(d.parameters, schema_properties(d.parameters), order)
        + required_part(d.parameters)
        + "\n"@
}

/// Whether `t` is the block of `d`, its properties in ascending order of name.
pub open spec fn is_block(d: ToolDefinition, t: Seq<char>) -> bool {
    exists|o: Seq<usize>| is_text_order(property_keys(d.parameters), o) && t == #[trigger] tool_block(d, o)
}

fn scenario_text(s: &Vec<UsageScenario>) -> (r: String)
    ensures
        r@ == scenario_part(s@),
{
    if s.len() == 0 {
        return String::new();
    }
    let mut r = owned("**使用场景**:\n");
    let ghost start = r@;
    let mut i: usize = 0;
    assert(s@.subrange(0, 0) =~= Seq::<UsageScenario>::empty());
    while i < s.len()
        invariant
            i <= s@.len(),
            r@ == start + scenario_lines(s@.subrange(0, i as int)),
        decreases s@.len() - i,
    {
        proof {
            assert(s@.subrange(0, i + 1).drop_last() =~= s@.subrange(0, i as int));
            assert(s@.subrange(0, i + 1).last() == s@[i as int]);
        }
        let number = u64_text((i + 1) as u64);
        let mut line = cat3("  ", number.as_str(), ". ");
        line.append(s[i].description.as_str());
        line.append(" - 示例: \"");
        line.append(s[i].example_query.as_str());
        line.append("\"\n");
        r.append(line.as_str());
        i = i + 1;
    }
    assert(s@.subrange(0, s@.len() as int) =~= s@);
    r
}

fn relation_text(rel: &ToolRelationships) -> (r: String)
    ensures
        r@ == relation_part(*rel),
{
    if rel.call_after.len() == 0 && rel.output_to.len() == 0 {
        return String::new();
    }
    let mut r = owned("**工具关系**:\n");
    if rel.call_after.len() > 0 {
        let j = join_texts(&rel.call_after, ", ");
        r.append("  → 建议先调用: ");
        r.append(j.as_str());
        r.append("\n");
    }
    if rel.output_to.len() > 0 {
        let j = join_texts(&rel.output_to, ", ");
        r.append("  → 输出可用于: ");
        r.append(j.as_str());
        r.append("\n");
    }
    r
}

fn required_listed(params: &Json, name: &str) -> (b: bool)
    ensures
        b == listed_required(*params, name@),
{
    match params.get("required") {
        Some(Json::Array(a)) => {
            let mut i: usize = 0;
            while i < a.len()
                invariant
                    i <= a@.len(),
                    params.member("required"@) == Some(Json::Array(*a)),
                    forall|k: int| 0 <= k < i ==> #[trigger] a@[k].text() != Some(name@),
                decreases a@.len() - i,
            {
                match a[i].as_text() {
                    Some(t) => {
                        if same_text(t.as_str(), name) {
                            return true;
                        }
                    },
                    None => {},
                }
                i = i + 1;
            }
            false
        },
        _ => false,
    }
}

fn property_text(params: &Json, name: &str, prop: &Json) -> (r: String)
    ensures
        r@ == property_line(*params, name@, *prop),
{
    let desc: &str = match prop.str_at("description") {
        Some(d) => d.as_str(),
        None => "无描述",
    };
    let ty: &str = match prop.str_at("type") {
        Some(t) => t.as_str(),
        None => "unknown",
    };
    let mut r = cat3("  - `", name, "`: ");
    r.append(desc);
    r.append(" (");
    r.append(ty);
    r.append(")");
    if required_listed(params, name) {
        r.append(" **[必需]**");
    }
    r.append("\n");
    r
}

fn properties_text(params: &Json) -> (r: String)
    ensures
        exists|o: Seq<usize>| is_text_order(property_keys(*params), o)
            && r@ == property_lines(*params, schema_properties(*params), o),
{
    match params.get("properties") {
        Some(Json::Object(m)) => {
            let mut keys: Vec<String> = Vec::new();
            let mut i: usize = 0;
            while i < m.len()
                invariant
                    i <= m@.len(),
                    keys@.len() == i,
                    forall|k: int| 0 <= k < i ==> #[trigger] keys@[k]@ == m@[k].0@,
                decreases m@.len() - i,
            {
                keys.push(owned(m[i].0.as_str()));
                i = i + 1;
            }
            assert(keys@.map_values(|s: String| s@) =~= property_keys(*params));
            let order = text_order(&keys);
            let mut r = String::new();
            let mut j: usize = 0;
            while j < order.len()
                invariant
                    j <= order@.len(),
                    is_text_order(property_keys(*params), order@),
                    schema_properties(*params) == m@,
                    r@ == property_lines(*params, m@, order@.subrange(0, j as int)),
                decreases order@.len() - j,
            {
                let q = order[j];
                proof {
                    assert(order@.subrange(0, j + 1).drop_last() =~= order@.subrange(0, j as int));
                    assert(order@.subrange(0, j + 1).last() == q);
                }
                let line = property_text(params, m[q].0.as_str(), &m[q].1);
                r.append(line.as_str());
                j = j + 1;
            }
            assert(order@.subrange(0, order@.len() as int) =~= order@);
            r
        },
        _ => {
            let ghost o = Seq::<usize>::empty();
            assert(is_text_order(property_keys(*params), o));
            assert(property_lines(*params, schema_properties(*params), o) =~= Seq::<char>::empty());
            String::new()
        },
    }
}

fn required_text(params: &Json) -> (r: String)
    ensures
        r@ == required_part(*params),
{
    match params.get("required") {
        Some(Json::Array(a)) => {
            if a.len() == 0 {
                return String::new();
            }
            let mut names: Vec<String> = Vec::new();
            let mut i: usize = 0;
            while i < a.len()
                invariant
                    i <= a@.len(),
                    texts(names@) == string_items(a@.subrange(0, i as int)),
                decreases a@.len() - i,
            {
                proof {
                    assert(a@.subrange(0, i + 1).drop_last() =~= a@.subrange(0, i as int));
                    assert(a@.subrange(0, i + 1).last() == a@[i as int]);
                }
                match a[i].as_text() {
                    Some(t) => {
                        let ghost before = names@;
                        names.push(owned(t.as_str()));
                        assert(texts(names@) =~= texts(before).push(t@));
                    },
                    None => {},
                }
                i = i + 1;
            }
            assert(a@.subrange(0, a@.len() as int) =~= a@);
            let j = join_texts(&names, ", ");
            cat3("**必需参数**: ", j.as_str(), "\n")
        },
        _ => String::new(),
    }
}

/// The block of the listing that describes one tool.
pub fn block_text(d: &ToolDefinition) -> (r: String)
    ensures
        is_block(*d, r@),
{
    let mut r = cat3("**工具**: `", d.name.as_str(), "`\n");
    r.append("**描述**: ");
    r.append(d.description.as_str());
    r.append("\n");
    let s = scenario_text(&d.scenarios);
    r.append(s.as_str());
    let rel = relation_text(&d.relationships);
    r.append(rel.as_str());
    r.append("**参数**:\n");
    let p = properties_text(&d.parameters);
    r.append(p.as_str());
    let q = required_text(&d.parameters);
    r.append(q.as_str());
    r.append("\n");
    proof {
        let o = choose|o: Seq<usize>| is_text_order(property_keys(d.parameters), o)
            && p@ == property_lines(d.parameters, schema_properties(d.parameters), o);
        assert(r@ =~= tool_block(*d, o));
    }
    r
}

// ---------------------------------------------------------------- the listing

/// The order in which categories are listed; agents are not listed.
pub open spec fn category_order() -> Seq<ToolCategory> {
    seq![
        ToolCategory::Device,
        ToolCategory::Data,
        ToolCategory::Analysis,
        ToolCategory::Rule,
        ToolCategory::Workflow,
        ToolCategory::Alert,
        ToolCategory::Config,
        ToolCategory::System,
    ]
}

/// The heading of a category in the listing.
pub open spec fn heading(c: ToolCategory) -> Seq<char> {
    match c {
        ToolCategory::Device => "📟 设备管理 (Device)"@,
        ToolCategory::Data => "📊 数据查询 (Data)"@,
        ToolCategory::Analysis => "📈 数据分析 (Analysis)"@,
        ToolCategory::Rule => "⚙️ 规则管理 (Rule)"@,
        ToolCategory::Workflow => "🔄 工作流 (Workflow)"@,
        ToolCategory::Alert => "🚨 告警管理 (Alert)"@,
        ToolCategory::Config => "🔧 配置管理 (Config)"@,
        ToolCategory::System => "⚙️ 系统工具 (System)"@,
        ToolCategory::Agent => "agent"@,
    }
}

fn heading_text(c: ToolCategory) -> (s: &'static str)
    ensures
        s@ == heading(c),
{
    match c {
        ToolCategory::Device => "📟 设备管理 (Device)",
        ToolCategory::Data => "📊 数据查询 (Data)",
        ToolCategory::Analysis => "📈 数据分析 (Analysis)",
        ToolCategory::Rule => "⚙️ 规则管理 (Rule)",
        ToolCategory::Workflow => "🔄 工作流 (Workflow)",
        ToolCategory::Alert => "🚨 告警管理 (Alert)",
        ToolCategory::Config => "🔧 配置管理 (Config)",
        ToolCategory::System => "⚙️ 系统工具 (System)",
        ToolCategory::Agent => "agent",
    }
}

fn category_at(k: usize) -> (c: ToolCategory)
    requires
        k < 8,
    ensures
        c == category_order()[k as int],
{
    if k == 0 {
        ToolCategory::Device
    } else if k == 1 {
        ToolCategory::Data
    } else if k == 2 {
        ToolCategory::Analysis
    } else if k == 3 {
        ToolCategory::Rule
    } else if k == 4 {
        ToolCategory::Workflow
    } else if k == 5 {
        ToolCategory::Alert
    } else if k == 6 {
        ToolCategory::Config
    } else {
        ToolCategory::System
    }
}

/// Whether a tool is listed under a category: it is of that category and
/// not deprecated.
pub open spec fn listed_in(d: ToolDefinition, c: ToolCategory) -> bool {
    !d.deprecated && d.category == c
}

/// Whether some tool is listed under a category.
pub open spec fn has_listed(defs: Seq<ToolDefinition>, c: ToolCategory) -> bool {
    exists|i: int| 0 <= i < defs.len() && listed_in(#[trigger] defs[i], c)
}

/// The blocks of the first `n` tools that are listed under a category.
pub open spec fn blocks_of(defs: Seq<ToolDefinition>, blocks: Seq<Seq<char>>, c: ToolCategory, n: int) -> Seq<char>
    decreases n,
{
    if n <= 0 {
        Seq::empty()
    } else {
        blocks_of(defs, blocks, c, n - 1) + (if listed_in(defs[n - 1], c) { blocks[n - 1] } else { Seq::empty() })
    }
}

/// The section of a category: its heading and the blocks of its tools, if it has any.
pub open spec fn category_section(defs: Seq<ToolDefinition>, blocks: Seq<Seq<char>>, c: ToolCategory) -> Seq<char> {
    if has_listed(defs, c) {
        "### "@ + heading(c) + "\n\n"@ + blocks_of(defs, blocks, c, defs.len() as int)
    } else {
        Seq::empty()
    }
}

/// The sections of the first `k` categories of the order.
pub open spec fn sections(defs: Seq<ToolDefinition>, blocks: Seq<Seq<char>>, k: int) -> Seq<char>
    decreases k,
{
    if k <= 0 {
        Seq::empty()
    } else {
        sections(defs, blocks, k - 1) + category_section(defs, blocks, category_order()[k - 1])
    }
}

/// The listing of tools: a title, one section per category in the fixed
/// order, and a guide.
pub open spec fn listing(defs: Seq<ToolDefinition>, blocks: Seq<Seq<char>>) -> Seq<char> {
    LISTING_HEAD@ + sections(defs, blocks, 8) + LISTING_GUIDE@
}

/// The listing of tools for a language model: the tools that are not
/// deprecated, grouped by category in a fixed order (agent tools are left
/// out), each with its description, usage scenarios, relations and
/// parameters (by ascending name), then a guide to calling tools.
pub fn format_for_llm(definitions: &[ToolDefinition]) -> (r: String)
    ensures
        exists|blocks: Seq<Seq<char>>| {
            &&& blocks.len() == definitions@.len()
            &&& forall|i: int| 0 <= i < blocks.len() ==> is_block(definitions@[i], #[trigger] blocks[i])
            &&& r@ == listing(definitions@, blocks)
        },
{
    let n = definitions.len();
    let mut blocks: Vec<String> = Vec::new();
    let mut i: usize = 0;
    while i < n
        invariant
            n == definitions@.len(),
            i <= n,
            blocks@.len() == i,
            forall|k: int| 0 <= k < i ==> is_block(definitions@[k], #[trigger] blocks@[k]@),
        decreases n - i,
    {
        let b = block_text(&definitions[i]);
        blocks.push(b);
        i = i + 1;
    }
    let ghost bv = texts(blocks@);
    let ghost defs = definitions@;
    let mut r = owned(LISTING_HEAD);
    let mut k: usize = 0;
    while k < 8
        invariant
            k <= 8,
            n == defs.len(),
            defs == definitions@,
            bv == texts(blocks@),
            blocks@.len() == n,
            r@ == LISTING_HEAD@ + sections(defs, bv, k as int),
        decreases 8 - k,
    {
        let c = category_at(k);
        let mut found = false;
        let mut j: usize = 0;
        while j < n && !found
            invariant
                j <= n,
                n == defs.len(),
                defs == definitions@,
                found ==> has_listed(defs, c),
                !found ==> forall|q: int| 0 <= q < j ==> !listed_in(#[trigger] defs[q], c),
            decreases n - j,
        {
            if !definitions[j].deprecated && definitions[j].category == c {
                found = true;
            }
            j = j + 1;
        }
        if found {
            r.append("### ");
            r.append(heading_text(c));
            r.append("\n\n");
            let ghost start = r@;
            let mut q: usize = 0;
            while q < n
                invariant
                    q <= n,
                    n == defs.len(),
                    defs == definitions@,
                    bv == texts(blocks@),
                    blocks@.len() == n,
                    r@ == start + blocks_of(defs, bv, c, q as int),
                decreases n - q,
            {
                if !definitions[q].deprecated && definitions[q].category == c {
                    r.append(blocks[q].as_str());
                }
                q = q + 1;
            }
        }
        k = k + 1;
    }
    r.append(LISTING_GUIDE);
    proof {
        assert(forall|q: int| 0 <= q < bv.len() ==> is_block(definitions@[q], #[trigger] bv[q]));
        assert(r@ == listing(definitions@, bv));
        assert(bv.len() == definitions@.len());
    }
    r
}

/// The opening of the tool listing: a title and a heavy rule.
pub const LISTING_HEAD: &'static str = "可用工具列表\n════════════════════════════════════════════════════════════════════════════════\n\n";

/// The closing of the tool listing: a light rule and a guide to calling tools.
pub const LISTING_GUIDE: &'static str = "────────────────────────────────────────\n\x2a\x2a工具调用指南\x2a\x2a\n\n1. \x2a\x2a了解设备\x2a\x2a → 先用 `list_devices` 查看设备列表\n2. \x2a\x2a查看能力\x2a\x2a → 用 `get_device_metrics` 了解设备有什么指标\n3. \x2a\x2a查询数据\x2a\x2a → 用 `query_data` 获取具体数据\n4. \x2a\x2a分析数据\x2a\x2a → 用 `analyze_trends` 或 `detect_anomalies` 分析\n\n\x2a\x2a常见流程\x2a\x2a:\n- 查询设备数据: list_devices → get_device_metrics → query_data\n- 创建规则: list_devices → create_rule\n- 设备控制: list_devices → query_device_status → control_device\n";

} // verus!
