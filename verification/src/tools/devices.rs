//! Devices as the discovery tools see them: their capabilities, filters over
//! them, a summary of a set of devices, time ranges and kinds of analysis.
use vstd::prelude::*;
use crate::json::{same, Json};
use crate::table::Table;
use crate::text::{cat, contains_text, i64_text, owned, same_text, signed_decimal, spec_contains};
use crate::workflow::templates::{opt_text, texts};

verus! {

/// A metric a device offers.
pub struct MetricInfo {
    pub name: String,
    pub display_name: String,
    pub unit: String,
    pub data_type: String,
}

/// A parameter of a device command.
pub struct ParameterInfo {
    pub name: String,
    pub display_name: String,
    pub data_type: String,
    pub default_value: Option<Json>,
}

/// A command a device accepts.
pub struct CommandInfo {
    pub name: String,
    pub display_name: String,
    pub parameters: Vec<ParameterInfo>,
}

/// What a device measures and what it can be told.
pub struct DeviceCapabilities {
    pub metrics: Vec<MetricInfo>,
    pub commands: Vec<CommandInfo>,
}

/// A device in the registry; its latest readings are in thousandths.
pub struct DeviceInfo {
    pub id: String,
    pub name: String,
    pub device_type: String,
    pub location: Option<String>,
    pub status: String,
    pub tags: Vec<String>,
    pub capabilities: DeviceCapabilities,
    pub latest_data: Option<Table<i64>>,
}

/// Devices gathered under a name.
pub struct DeviceGroup {
    pub name: String,
    pub count: usize,
    pub devices: Vec<DeviceInfo>,
}

/// Counts over a set of devices.
pub struct DiscoverySummary {
    pub total: usize,
    pub online: usize,
    pub offline: usize,
    pub by_type: Table<usize>,
    pub by_location: Table<usize>,
}

/// Conditions a device must meet; an absent condition always holds.
pub struct DeviceFilter {
    pub device_type: Option<String>,
    pub location: Option<String>,
    pub status: Option<String>,
    pub tags: Option<Vec<String>>,
    pub name_contains: Option<String>,
}

/// A metric as its four texts.
pub open spec fn metric_view(m: MetricInfo) -> (Seq<char>, Seq<char>, Seq<char>, Seq<char>) {
    (m.name@, m.display_name@, m.unit@, m.data_type@)
}

/// Whether two optional JSON values hold the same JSON.
pub open spec fn same_opt(a: Option<Json>, b: Option<Json>) -> bool {
    match a {
        Some(x) => b matches Some(y) && same(x, y),
        None => b is None,
    }
}

/// Whether two command parameters agree.
pub open spec fn same_param(a: ParameterInfo, b: ParameterInfo) -> bool {
    &&& a.name@ == b.name@
    &&& a.display_name@ == b.display_name@
    &&& a.data_type@ == b.data_type@
    &&& same_opt(a.default_value, b.default_value)
}

/// Whether two commands agree, parameter by parameter.
pub open spec fn same_command(a: CommandInfo, b: CommandInfo) -> bool {
    &&& a.name@ == b.name@
    &&& a.display_name@ == b.display_name@
    &&& a.parameters@.len() == b.parameters@.len()
    &&& forall|i: int| 0 <= i < a.parameters@.len() ==> same_param(#[trigger] a.parameters@[i], b.parameters@[i])
}

/// Whether two sets of capabilities agree.
pub open spec fn same_caps(a: DeviceCapabilities, b: DeviceCapabilities) -> bool {
    &&& a.metrics@.map_values(|m: MetricInfo| metric_view(m)) == b.metrics@.map_values(|m: MetricInfo| metric_view(m))
    &&& a.commands@.len() == b.commands@.len()
    &&& forall|i: int| 0 <= i < a.commands@.len() ==> same_command(#[trigger] a.commands@[i], b.commands@[i])
}

/// The latest readings as entries, when there are any.
pub open spec fn readings(o: Option<Table<i64>>) -> Option<Seq<(Seq<char>, i64)>> {
    match o {
        Some(t) => Some(t.items()),
        None => None,
    }
}

/// Whether two devices agree in every field.
pub open spec fn same_device(a: DeviceInfo, b: DeviceInfo) -> bool {
    &&& a.id@ == b.id@
    &&& a.name@ == b.name@
    &&& a.device_type@ == b.device_type@
    &&& opt_text(a.location) == opt_text(b.location)
    &&& a.status@ == b.status@
    &&& texts(a.tags@) == texts(b.tags@)
    &&& same_caps(a.capabilities, b.capabilities)
    &&& readings(a.latest_data) == readings(b.latest_data)
}

/// Whether two lists of devices agree item by item.
pub open spec fn same_devices(a: Seq<DeviceInfo>, b: Seq<DeviceInfo>) -> bool {
    a.len() == b.len() && forall|i: int| 0 <= i < a.len() ==> same_device(#[trigger] a[i], b[i])
}

/// A copy of a list of texts.
pub fn copy_texts(v: &Vec<String>) -> (r: Vec<String>)
    ensures
        texts(r@) == texts(v@),
{
    let mut r: Vec<String> = Vec::new();
    let mut i: usize = 0;
    while i < v.len()
        invariant
            i <= v@.len(),
            texts(r@) == texts(v@.subrange(0, i as int)),
        decreases v@.len() - i,
    {
        let ghost prev = r@;
        r.push(v[i].clone());
        assert(texts(r@) =~= texts(prev).push(v@[i as int]@));
        assert(texts(v@.subrange(0, i + 1)) =~= texts(v@.subrange(0, i as int)).push(v@[i as int]@));
        i = i + 1;
    }
    assert(v@.subrange(0, i as int) =~= v@);
    r
}

fn copy_opt_text(o: &Option<String>) -> (r: Option<String>)
    ensures
        opt_text(r) == opt_text(*o),
{
    match o {
        Some(s) => Some(s.clone()),
        None => None,
    }
}

impl MetricInfo {
    /// A copy of the metric.
    pub fn copy(&self) -> (r: Self)
        ensures
            metric_view(r) == metric_view(*self),
    {
        MetricInfo {
            name: self.name.clone(),
            display_name: self.display_name.clone(),
            unit: self.unit.clone(),
            data_type: self.data_type.clone(),
        }
    }
}

impl ParameterInfo {
    /// A copy of the parameter.
    pub fn copy(&self) -> (r: Self)
        ensures
            same_param(r, *self),
    {
        let default_value = match &self.default_value {
            Some(j) => Some(j.copy()),
            None => None,
        };
        ParameterInfo {
            name: self.name.clone(),
            display_name: self.display_name.clone(),
            data_type: self.data_type.clone(),
            default_value,
        }
    }
}

impl CommandInfo {
    /// A copy of the command.
    pub fn copy(&self) -> (r: Self)
        ensures
            same_command(r, *self),
    {
        let mut ps: Vec<ParameterInfo> = Vec::new();
        let mut i: usize = 0;
        while i < self.parameters.len()
            invariant
                i <= self.parameters@.len(),
                ps@.len() == i,
                forall|k: int| 0 <= k < i ==> same_param(#[trigger] ps@[k], self.parameters@[k]),
            decreases self.parameters@.len() - i,
        {
            ps.push(self.parameters[i].copy());
            i = i + 1;
        }
        CommandInfo { name: self.name.clone(), display_name: self.display_name.clone(), parameters: ps }
    }
}

impl DeviceCapabilities {
    /// A copy of the capabilities.
    pub fn copy(&self) -> (r: Self)
        ensures
            same_caps(r, *self),
    {
        let mut ms: Vec<MetricInfo> = Vec::new();
        let mut i: usize = 0;
        while i < self.metrics.len()
            invariant
                i <= self.metrics@.len(),
                ms@.len() == i,
                forall|k: int| 0 <= k < i ==> metric_view(#[trigger] ms@[k]) == metric_view(self.metrics@[k]),
            decreases self.metrics@.len() - i,
        {
            ms.push(self.metrics[i].copy());
            i = i + 1;
        }
        let mut cs: Vec<CommandInfo> = Vec::new();
        let mut j: usize = 0;
        while j < self.commands.len()
            invariant
                j <= self.commands@.len(),
                cs@.len() == j,
                forall|k: int| 0 <= k < j ==> same_command(#[trigger] cs@[k], self.commands@[k]),
            decreases self.commands@.len() - j,
        {
            cs.push(self.commands[j].copy());
            j = j + 1;
        }
        let r = DeviceCapabilities { metrics: ms, commands: cs };
        assert(r.metrics@.map_values(|m: MetricInfo| metric_view(m)) =~= self.metrics@.map_values(|m: MetricInfo| metric_view(m)));
        r
    }

    /// Capabilities with no metrics and no commands.
    pub fn none() -> (r: Self)
        ensures
            r.metrics@.len() == 0,
            r.commands@.len() == 0,
    {
        DeviceCapabilities { metrics: Vec::new(), commands: Vec::new() }
    }
}

impl DeviceInfo {
    /// A copy of the device.
    pub fn copy(&self) -> (r: Self)
        ensures
            same_device(r, *self),
    {
        let latest_data = match &self.latest_data {
            Some(t) => Some(t.duplicate()),
            None => None,
        };
        DeviceInfo {
            id: self.id.clone(),
            name: self.name.clone(),
            device_type: self.device_type.clone(),
            location: copy_opt_text(&self.location),
            status: self.status.clone(),
            tags: copy_texts(&self.tags),
            capabilities: self.capabilities.copy(),
            latest_data,
        }
    }
}

/// Whether every text of `want` is among `have`.
pub open spec fn has_all(have: Seq<Seq<char>>, want: Seq<Seq<char>>) -> bool {
    forall|i: int| 0 <= i < want.len() ==> have.contains(#[trigger] want[i])
}

/// Whether a device meets a filter: same type, location and status, every
/// tag of the filter, and a name or id that contains the given text.
pub open spec fn spec_matches(f: DeviceFilter, d: DeviceInfo) -> bool {
    &&& (f.device_type matches Some(t) ==> d.device_type@ == t@)
    &&& (f.location matches Some(l) ==> opt_text(d.location) == Some(l@))
    &&& (f.status matches Some(s) ==> d.status@ == s@)
    &&& (f.tags matches Some(ts) ==> has_all(texts(d.tags@), texts(ts@)))
    &&& (f.name_contains matches Some(n) ==> spec_contains(d.name@, n@) || spec_contains(d.id@, n@))
}

fn has_tag(tags: &Vec<String>, t: &str) -> (b: bool)
    ensures
        b == texts(tags@).contains(t@),
{
    let mut i: usize = 0;
    while i < tags.len()
        invariant
            i <= tags@.len(),
            forall|k: int| 0 <= k < i ==> #[trigger] tags@[k]@ != t@,
        decreases tags@.len() - i,
    {
        if same_text(tags[i].as_str(), t) {
            assert(texts(tags@)[i as int] == t@);
            return true;
        }
        i = i + 1;
    }
    proof {
        if texts(tags@).contains(t@) {
            let k = choose|k: int| 0 <= k < texts(tags@).len() && texts(tags@)[k] == t@;
            assert(tags@[k]@ == t@);
        }
    }
    false
}

impl DeviceFilter {
    /// A filter that every device meets.
    pub fn new() -> (f: Self)
        ensures
            f.device_type is None,
            f.location is None,
            f.status is None,
            f.tags is None,
            f.name_contains is None,
    {
        DeviceFilter { device_type: None, location: None, status: None, tags: None, name_contains: None }
    }

    /// Whether a device meets the filter.
    pub fn matches(&self, device: &DeviceInfo) -> (b: bool)
        ensures
            b == spec_matches(*self, *device),
    {
        match &self.device_type {
            Some(t) => {
                if !same_text(device.device_type.as_str(), t.as_str()) {
                    return false;
                }
            },
            None => {},
        }
        match &self.location {
            Some(l) => {
                let ok = match &device.location {
                    Some(dl) => same_text(dl.as_str(), l.as_str()),
                    None => false,
                };
                if !ok {
                    return false;
                }
            },
            None => {},
        }
        match &self.status {
            Some(s) => {
                if !same_text(device.status.as_str(), s.as_str()) {
                    return false;
                }
            },
            None => {},
        }
        match &self.tags {
            Some(ts) => {
                let mut i: usize = 0;
                while i < ts.len()
                    invariant
                        i <= ts@.len(),
                        self.tags == Some(*ts),
                        forall|k: int| 0 <= k < i ==> texts(device.tags@).contains(#[trigger] texts(ts@)[k]),
                    decreases ts@.len() - i,
                {
                    assert(texts(ts@)[i as int] == ts@[i as int]@);
                    if !has_tag(&device.tags, ts[i].as_str()) {
                        assert(!texts(device.tags@).contains(texts(ts@)[i as int]));
                        return false;
                    }
                    i = i + 1;
                }
            },
            None => {},
        }
        match &self.name_contains {
            Some(n) => {
                if !contains_text(device.name.as_str(), n.as_str()) && !contains_text(device.id.as_str(), n.as_str()) {
                    return false;
                }
            },
            None => {},
        }
        true
    }
}

/// The number of devices that are online.
pub open spec fn online_count(ds: Seq<DeviceInfo>) -> nat
    decreases ds.len(),
{
    if ds.len() == 0 {
        0
    } else {
        online_count(ds.drop_last()) + (if ds.last().status@ == "online"@ { 1nat } else { 0nat })
    }
}

/// How many times each key occurs in `keys`.
pub open spec fn tally(keys: Seq<Seq<char>>) -> Map<Seq<char>, nat>
    decreases keys.len(),
{
    if keys.len() == 0 {
        Map::empty()
    } else {
        let m = tally(keys.drop_last());
        let k = keys.last();
        m.insert(k, if m.contains_key(k) { m[k] + 1 } else { 1 })
    }
}

/// The types of the devices, in order.
pub open spec fn types_of(ds: Seq<DeviceInfo>) -> Seq<Seq<char>> {
    ds.map_values(|d: DeviceInfo| d.device_type@)
}

/// The locations of the devices that have one, in order.
pub open spec fn locations_of(ds: Seq<DeviceInfo>) -> Seq<Seq<char>>
    decreases ds.len(),
{
    if ds.len() == 0 {
        Seq::empty()
    } else {
        match ds.last().location {
            Some(l) => locations_of(ds.drop_last()).push(l@),
            None => locations_of(ds.drop_last()),
        }
    }
}

/// Whether a table of counts holds exactly the tally.
pub open spec fn holds_tally(t: Table<usize>, m: Map<Seq<char>, nat>) -> bool {
    t@.dom() == m.dom() && forall|k: Seq<char>| #[trigger] m.contains_key(k) ==> t@[k] as nat == m[k]
}

proof fn lemma_tally_bound(keys: Seq<Seq<char>>, k: Seq<char>)
    ensures
        tally(keys).contains_key(k) ==> tally(keys)[k] <= keys.len(),
    decreases keys.len(),
{
    if keys.len() > 0 {
        lemma_tally_bound(keys.drop_last(), k);
    }
}

fn bump(t: &mut Table<usize>, key: &str, keys: Ghost<Seq<Seq<char>>>)
    requires
        holds_tally(*old(t), tally(keys@)),
        keys@.len() < usize::MAX,
    ensures
        holds_tally(*final(t), tally(keys@.push(key@))),
{
    proof {
        lemma_tally_bound(keys@, key@);
        assert(keys@.push(key@).drop_last() =~= keys@);
    }
    let next: usize = match t.get(key) {
        Some(c) => *c + 1,
        None => 1,
    };
    t.insert(owned(key), next);
    proof {
        let m = tally(keys@.push(key@));
        assert(t@.dom() =~= m.dom());
    }
}

/// Counts over the devices: how many there are, online and not, and how
/// many of each type and of each location.
pub fn calculate_summary(devices: &[DeviceInfo]) -> (s: DiscoverySummary)
    ensures
        s.total == devices@.len(),
        s.online == online_count(devices@),
        s.offline == devices@.len() - online_count(devices@),
        holds_tally(s.by_type, tally(types_of(devices@))),
        holds_tally(s.by_location, tally(locations_of(devices@))),
{
    let n = devices.len();
    let mut online: usize = 0;
    let mut by_type: Table<usize> = Table::new();
    let mut by_location: Table<usize> = Table::new();
    let mut i: usize = 0;
    proof {
        assert(devices@.subrange(0, 0) =~= Seq::<DeviceInfo>::empty());
        assert(types_of(devices@.subrange(0, 0)) =~= Seq::<Seq<char>>::empty());
        assert(by_type@ =~= Map::<Seq<char>, usize>::empty());
    }
    while i < n
        invariant
            n == devices@.len(),
            i <= n,
            online == online_count(devices@.subrange(0, i as int)),
            online <= i,
            holds_tally(by_type, tally(types_of(devices@.subrange(0, i as int)))),
            holds_tally(by_location, tally(locations_of(devices@.subrange(0, i as int)))),
            locations_of(devices@.subrange(0, i as int)).len() <= i,
        decreases n - i,
    {
        let d = &devices[i];
        let ghost pre = devices@.subrange(0, i as int);
        proof {
            assert(devices@.subrange(0, i + 1).drop_last() =~= pre);
            assert(devices@.subrange(0, i + 1).last() == *d);
            assert(types_of(devices@.subrange(0, i + 1)) =~= types_of(pre).push(d.device_type@));
        }
        if same_text(d.status.as_str(), "online") {
            online = online + 1;
        }
        bump(&mut by_type, d.device_type.as_str(), Ghost(types_of(pre)));
        match &d.location {
            Some(l) => {
                bump(&mut by_location, l.as_str(), Ghost(locations_of(pre)));
            },
            None => {},
        }
        i = i + 1;
    }
    assert(devices@.subrange(0, n as int) =~= devices@);
    DiscoverySummary { total: n, online, offline: n - online, by_type, by_location }
}

/// A span of time for a query: a start and an end, as text.
pub struct TimeRange {
    pub start: Option<String>,
    pub end: Option<String>,
}

impl TimeRange {
    /// From the given number of hours ago until now.
    pub fn relative(hours_ago: i64) -> (r: Self)
        ensures
            opt_text(r.start) == Some(signed_decimal(hours_ago as int) + "小时前"@),
            r.end is None,
    {
        let h = i64_text(hours_ago);
        TimeRange { start: Some(cat(h.as_str(), "小时前")), end: None }
    }

    /// Between two timestamps.
    pub fn absolute(start: i64, end: i64) -> (r: Self)
        ensures
            opt_text(r.start) == Some(signed_decimal(start as int)),
            opt_text(r.end) == Some(signed_decimal(end as int)),
    {
        TimeRange { start: Some(i64_text(start)), end: Some(i64_text(end)) }
    }
}

/// A kind of analysis of a device's data.
pub struct AnalysisType {
    pub analysis_type: String,
    pub display_name: String,
    pub description: String,
}

fn analysis(analysis_type: &str, display_name: &str, description: &str) -> (a: AnalysisType)
    ensures
        a.analysis_type@ == analysis_type@,
        a.display_name@ == display_name@,
        a.description@ == description@,
{
    AnalysisType {
        analysis_type: owned(analysis_type),
        display_name: owned(display_name),
        description: owned(description),
    }
}

impl AnalysisType {
    /// Rising, falling or steady.
    pub fn trend() -> (a: Self)
        ensures
            a.analysis_type@ == "trend"@,
            a.display_name@ == "趋势分析"@,
            a.description@ == "分析数据变化趋势，识别上升、下降或稳定模式"@,
    {
        analysis("trend", "趋势分析", "分析数据变化趋势，识别上升、下降或稳定模式")
    }

    /// Points that stand out.
    pub fn anomaly() -> (a: Self)
        ensures
            a.analysis_type@ == "anomaly"@,
            a.display_name@ == "异常检测"@,
            a.description@ == "检测数据中的异常点和离群值"@,
    {
        analysis("anomaly", "异常检测", "检测数据中的异常点和离群值")
    }

    /// Where the data is heading.
    pub fn prediction() -> (a: Self)
        ensures
            a.analysis_type@ == "prediction"@,
            a.display_name@ == "趋势预测"@,
            a.description@ == "基于历史数据预测未来走势"@,
    {
        analysis("prediction", "趋势预测", "基于历史数据预测未来走势")
    }

    /// Against the same period before.
    pub fn comparison() -> (a: Self)
        ensures
            a.analysis_type@ == "comparison"@,
            a.display_name@ == "对比分析"@,
            a.description@ == "与历史同期数据进行对比"@,
    {
        analysis("comparison", "对比分析", "与历史同期数据进行对比")
    }

    /// Statistics and key points.
    pub fn summary() -> (a: Self)
        ensures
            a.analysis_type@ == "summary"@,
            a.display_name@ == "数据摘要"@,
            a.description@ == "生成数据的统计摘要和关键洞察"@,
    {
        analysis("summary", "数据摘要", "生成数据的统计摘要和关键洞察")
    }
}

} // verus!
