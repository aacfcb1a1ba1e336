//! The system configuration tool: a JSON document read and written by
//! dotted key paths such as "llm.model".
use vstd::prelude::*;
use crate::json::{has_text, member_of, same, Json};
use crate::text::{cat3, chars_of, owned, same_text, split_chars, split_on, string_of};
use crate::tools::error::ToolError;
use crate::tools::tool::ToolOutput;

verus! {

/// The value found by following object members named by the parts.
pub open spec fn value_at(v: Json, parts: Seq<Seq<char>>) -> Option<Json>
    decreases parts.len(),
{
    if parts.len() == 0 {
        Some(v)
    } else {
        match v.member(parts[0]) {
            Some(c) => value_at(c, parts.drop_first()),
            None => None,
        }
    }
}

/// Whether a value can be set along the path without reaching through a
/// value that is not an object before the last part; `None` stands for a
/// fresh empty object.
pub open spec fn settable(v: Option<Json>, parts: Seq<Seq<char>>) -> bool
    decreases parts.len(),
{
    if parts.len() <= 1 {
        true
    } else {
        match v {
            None => settable(None, parts.drop_first()),
            Some(x) => match x {
                Json::Object(o) => forall|i: int| 0 <= i < o@.len() && (#[trigger] o@[i]).0@ == parts[0]
                    ==> settable(Some(o@[i].1), parts.drop_first()),
                _ => false,
            },
        }
    }
}

/// Whether `r` is `v` with `new` set at the path; `None` stands for a fresh
/// empty object. A value that is not an object takes no member.
pub open spec fn set_result(r: Json, v: Option<Json>, parts: Seq<Seq<char>>, new: Json) -> bool
    decreases parts.len(), 2int,
{
    if parts.len() == 0 {
        same(r, new)
    } else {
        match v {
            None => r matches Json::Object(ro) && ro@.len() == 1 && ro@[0].0@ == parts[0]
                && set_member(ro@[0].1, None, parts.drop_first(), new),
            Some(x) => match x {
                Json::Object(vo) => r matches Json::Object(ro) && object_set(ro@, vo@, parts, new),
                _ => if parts.len() == 1 { same(r, x) } else { false },
            },
        }
    }
}

/// Whether a member value is the old one with `new` set at the rest of the path.
pub open spec fn set_member(r: Json, old: Option<Json>, rest: Seq<Seq<char>>, new: Json) -> bool
    decreases rest.len(), 3int,
{
    if rest.len() == 0 {
        same(r, new)
    } else {
        set_result(r, old, rest, new)
    }
}

/// Whether the members `ro` are `vo` with `new` set at the path under the
/// first part: members under that key are updated, others kept, and a new
/// member is added when there was none.
pub open spec fn object_set(ro: Seq<(String, Json)>, vo: Seq<(String, Json)>, parts: Seq<Seq<char>>, new: Json) -> bool
    decreases parts.len(), 1int,
{
    let k = parts[0];
    let has = exists|i: int| 0 <= i < vo.len() && #[trigger] vo[i].0@ == k;
    &&& parts.len() > 0
    &&& ro.len() == vo.len() + (if has { 0int } else { 1int })
    &&& forall|i: int| 0 <= i < vo.len() ==> (#[trigger] ro[i]).0@ == vo[i].0@ && (if vo[i].0@ == k {
            set_member(ro[i].1, Some(vo[i].1), parts.drop_first(), new)
        } else {
            same(ro[i].1, vo[i].1)
        })
    &&& (!has) ==> ro[ro.len() - 1].0@ == k && set_member(ro[ro.len() - 1].1, None, parts.drop_first(), new)
}

/// The parts of a dotted key.
fn key_parts(key: &str) -> (r: Vec<Vec<char>>)
    ensures
        r@.len() == split_on(key@, '.').len(),
        forall|i: int| 0 <= i < r@.len() ==> #[trigger] r@[i]@ == split_on(key@, '.')[i],
{
    let v = chars_of(key);
    split_chars(&v, '.')
}

/// The value at a dotted key, `null` when there is none.
pub fn get_nested_value(value: &Json, key: &str) -> (r: Json)
    ensures
        match value_at(*value, split_on(key@, '.')) {
            Some(x) => same(r, x),
            None => r == Json::Null,
        },
{
    let parts = key_parts(key);
    let ghost all = split_on(key@, '.');
    let mut cur: &Json = value;
    let mut k: usize = 0;
    assert(all.subrange(0, all.len() as int) =~= all);
    while k < parts.len()
        invariant
            k <= parts@.len(),
            all == split_on(key@, '.'),
            parts@.len() == all.len(),
            forall|i: int| 0 <= i < parts@.len() ==> #[trigger] parts@[i]@ == all[i],
            value_at(*value, all) == value_at(*cur, all.subrange(k as int, all.len() as int)),
        decreases parts@.len() - k,
    {
        let ghost rest = all.subrange(k as int, all.len() as int);
        assert(rest.drop_first() =~= all.subrange(k + 1, all.len() as int));
        assert(rest[0] == parts@[k as int]@);
        let name = string_of(parts[k].as_slice());
        match cur.get(name.as_str()) {
            Some(c) => {
                cur = c;
            },
            None => {
                return Json::Null;
            },
        }
        k = k + 1;
    }
    assert(all.subrange(k as int, all.len() as int) =~= Seq::<Seq<char>>::empty());
    cur.copy()
}

fn empty_object() -> (j: Json)
    ensures
        j matches Json::Object(o) && o@.len() == 0,
{
    Json::Object(Vec::new())
}

/// A fresh empty object takes a value at any path.
proof fn lemma_settable_none(p: Seq<Seq<char>>)
    ensures
        settable(None, p),
    decreases p.len(),
{
    if p.len() > 1 {
        lemma_settable_none(p.drop_first());
    }
}

/// Sets `new` at the parts from `start` on, in a value or (when `v` is
/// `None`) in a fresh empty object.
fn set_from(v: Option<Json>, parts: &Vec<Vec<char>>, start: usize, new: &Json) -> (r: Json)
    requires
        start < parts@.len(),
        settable(v, parts@.subrange(start as int, parts@.len() as int).map_values(|p: Vec<char>| p@)),
    ensures
        set_result(r, v, parts@.subrange(start as int, parts@.len() as int).map_values(|p: Vec<char>| p@), *new),
    decreases parts@.len() - start,
{
    let n = parts.len();
    let ghost vg = v;
    let ghost ps = parts@.subrange(start as int, parts@.len() as int).map_values(|p: Vec<char>| p@);
    let ghost rest = parts@.subrange(start + 1, parts@.len() as int).map_values(|p: Vec<char>| p@);
    assert(ps.drop_first() =~= rest);
    assert(ps[0] == parts@[start as int]@);
    let key = string_of(parts[start].as_slice());
    let last = start + 1 == n;
    proof {
        if last {
            assert(rest =~= Seq::<Seq<char>>::empty());
        }
        lemma_settable_none(rest);
    }
    match v {
        None => {
            let child = if last { new.copy() } else { set_from(None, parts, start + 1, new) };
            assert(set_member(child, None, rest, *new));
            let mut o: Vec<(String, Json)> = Vec::new();
            o.push((key, child));
            let r = Json::Object(o);
            assert(set_result(r, None, ps, *new));
            r
        },
        Some(x) => match x {
            Json::Object(vo) => {
                let ghost vv = vo@;
                let m = vo.len();
                let mut ro: Vec<(String, Json)> = Vec::new();
                let mut found = false;
                let mut i: usize = 0;
                let mut rest_members = vo;
                while rest_members.len() > 0
                    invariant
                        vv.len() == m,
                        i + rest_members@.len() == m,
                        rest_members@ == vv.subrange(i as int, vv.len() as int),
                        ro@.len() == i,
                        ps.len() == n - start,
                        start < n,
                        n == parts@.len(),
                        ps.len() >= 1,
                        found == exists|j: int| 0 <= j < i && #[trigger] vv[j].0@ == ps[0],
                        ps[0] == key@,
                        ps.drop_first() == rest,
                        rest == parts@.subrange(start + 1, parts@.len() as int).map_values(|p: Vec<char>| p@),
                        last == (start + 1 == n),
                        last ==> rest.len() == 0,
                        settable(None, rest),
                        ps.len() > 1 ==> forall|j: int| 0 <= j < vv.len() && (#[trigger] vv[j]).0@ == ps[0]
                            ==> settable(Some(vv[j].1), ps.drop_first()),
                        forall|j: int| 0 <= j < i ==> (#[trigger] ro@[j]).0@ == vv[j].0@ && (if vv[j].0@ == ps[0] {
                            set_member(ro@[j].1, Some(vv[j].1), rest, *new)
                        } else {
                            same(ro@[j].1, vv[j].1)
                        }),
                    decreases rest_members@.len(),
                {
                    let (k, val) = rest_members.remove(0);
                    assert(vv[i as int] == (k, val));
                    let ghost prev = ro@;
                    if same_text(k.as_str(), key.as_str()) {
                        let updated = if last { new.copy() } else { set_from(Some(val), parts, start + 1, new) };
                        ro.push((k, updated));
                        found = true;
                    } else {
                        let kept = val.copy();
                        ro.push((k, kept));
                    }
                    assert(forall|j: int| 0 <= j < i ==> ro@[j] == prev[j]);
                    i = i + 1;
                    assert(rest_members@ =~= vv.subrange(i as int, vv.len() as int));
                }
                if !found {
                    let child = if last { new.copy() } else { set_from(None, parts, start + 1, new) };
                    ro.push((key, child));
                }
                let r = Json::Object(ro);
                assert(object_set(ro@, vv, ps, *new));
                assert(set_result(r, vg, ps, *new));
                r
            },
            other => {
                proof {
                    crate::json::lemma_same_refl(other);
                }
                other
            },
        },
    }
}

/// Sets `new` at a dotted key in `value`.
pub fn set_nested_value(value: Json, key: &str, new: Json) -> (r: Json)
    requires
        settable(Some(value), split_on(key@, '.')),
    ensures
        set_result(r, Some(value), split_on(key@, '.'), new),
{
    let parts = key_parts(key);
    proof {
        crate::text::lemma_split_nonempty(key@, '.');
        assert(parts@.subrange(0, parts@.len() as int).map_values(|p: Vec<char>| p@) =~= split_on(key@, '.'));
    }
    set_from(Some(value), &parts, 0, &new)
}

/// The tool `system_config`, over its configuration document.
pub struct SystemConfigTool {
    pub config: Json,
}

impl SystemConfigTool {
    /// A tool with an empty configuration.
    pub fn new() -> (t: Self)
        ensures
            t.config matches Json::Object(o) && o@.len() == 0,
    {
        SystemConfigTool { config: empty_object() }
    }

    /// A tool with the given configuration.
    pub fn with_config(config: Json) -> (t: Self)
        ensures
            t.config == config,
    {
        SystemConfigTool { config }
    }

    /// A copy of the configuration.
    pub fn get_config(&self) -> (r: Json)
        ensures
            same(r, self.config),
    {
        self.config.copy()
    }

    /// The name under which the model calls the tool.
    pub fn name(&self) -> (s: &'static str)
        ensures
            s@ == "system_config"@,
    {
        "system_config"
    }

    /// Whether a value can be set at the key.
    pub fn can_set(&self, key: &str) -> (b: bool)
        ensures
            b == settable(Some(self.config), split_on(key@, '.')),
    {
        let parts = key_parts(key);
        proof {
            assert(parts@.subrange(0, parts@.len() as int).map_values(|p: Vec<char>| p@) =~= split_on(key@, '.'));
        }
        settable_from(&self.config, &parts, 0)
    }
}

proof fn lemma_not_settable(x: Json, o: Vec<(String, Json)>, ps: Seq<Seq<char>>, i: int)
    requires
        x == Json::Object(o),
        ps.len() > 1,
        0 <= i < o@.len(),
        o@[i].0@ == ps[0],
        !settable(Some(o@[i].1), ps.drop_first()),
    ensures
        !settable(Some(x), ps),
{
    if settable(Some(x), ps) {
        assert(x->Object_0 == o);
        assert(forall|j: int| 0 <= j < o@.len() && (#[trigger] o@[j]).0@ == ps[0] ==> settable(Some(o@[j].1), ps.drop_first()));
        assert(settable(Some(o@[i].1), ps.drop_first()));
    }
}

/// Whether every object along the path exists or can be made, so that a
/// value set there can be read back: the last container is an object (or
/// fresh), and so is every value passed through.
pub open spec fn writable(v: Option<Json>, parts: Seq<Seq<char>>) -> bool
    decreases parts.len(),
{
    match v {
        None => true,
        Some(x) => match x {
            Json::Object(o) => parts.len() <= 1 || forall|i: int| 0 <= i < o@.len() && (#[trigger] o@[i]).0@ == parts[0]
                ==> writable(Some(o@[i].1), parts.drop_first()),
            _ => false,
        },
    }
}

/// A writable path can be set without fault.
pub proof fn lemma_writable_settable(v: Option<Json>, parts: Seq<Seq<char>>)
    requires
        writable(v, parts),
    ensures
        settable(v, parts),
    decreases parts.len(),
{
    if parts.len() > 1 {
        match v {
            None => {
                lemma_writable_settable(None, parts.drop_first());
            },
            Some(x) => {
                let o = x->Object_0;
                assert forall|i: int| 0 <= i < o@.len() && (#[trigger] o@[i]).0@ == parts[0]
                    implies settable(Some(o@[i].1), parts.drop_first()) by {
                    lemma_writable_settable(Some(o@[i].1), parts.drop_first());
                }
            },
        }
    }
}

/// The value of the first member under `k` is the value at the first
/// position holding `k`.
pub(crate) proof fn lemma_member_first(s: Seq<(String, Json)>, k: Seq<char>, j: int)
    requires
        0 <= j < s.len(),
        s[j].0@ == k,
        forall|i: int| 0 <= i < j ==> (#[trigger] s[i]).0@ != k,
    ensures
        member_of(s, k) == Some(s[j].1),
    decreases j,
{
    if j > 0 {
        let t = s.drop_first();
        assert forall|i: int| 0 <= i < j - 1 implies (#[trigger] t[i]).0@ != k by {
            assert(t[i] == s[i + 1]);
        }
        lemma_member_first(t, k, j - 1);
    }
}

pub(crate) proof fn lemma_first_key(s: Seq<(String, Json)>, k: Seq<char>, n: int) -> (j: int)
    requires
        0 <= n <= s.len(),
        exists|i: int| 0 <= i < n && #[trigger] s[i].0@ == k,
    ensures
        0 <= j < n,
        s[j].0@ == k,
        forall|i: int| 0 <= i < j ==> (#[trigger] s[i]).0@ != k,
    decreases n,
{
    if exists|i: int| 0 <= i < n - 1 && #[trigger] s[i].0@ == k {
        lemma_first_key(s, k, n - 1)
    } else {
        n - 1
    }
}

/// What is set at a path is read back there: after a `set` of `new` at the
/// parts of a key, the value at those parts holds the same JSON as `new`,
/// whenever the path is writable.
pub proof fn lemma_get_after_set(r: Json, v: Option<Json>, parts: Seq<Seq<char>>, new: Json)
    requires
        parts.len() >= 1,
        writable(v, parts),
        set_result(r, v, parts, new),
    ensures
        value_at(r, parts) matches Some(x) && same(x, new),
    decreases parts.len(),
{
    let k = parts[0];
    let rest = parts.drop_first();
    let ro = r->Object_0;
    match v {
        None => {
            lemma_member_first(ro@, k, 0);
            if rest.len() > 0 {
                lemma_get_after_set(ro@[0].1, None, rest, new);
            }
        },
        Some(x) => {
            let vo = x->Object_0;
            assert(object_set(ro@, vo@, parts, new));
            if exists|i: int| 0 <= i < vo@.len() && #[trigger] vo@[i].0@ == k {
                let j = lemma_first_key(vo@, k, vo@.len() as int);
                assert forall|i: int| 0 <= i < j implies (#[trigger] ro@[i]).0@ != k by {
                    assert(ro@[i].0@ == vo@[i].0@);
                }
                assert(ro@[j].0@ == k);
                lemma_member_first(ro@, k, j);
                if rest.len() > 0 {
                    assert(writable(Some(vo@[j].1), rest));
                    lemma_get_after_set(ro@[j].1, Some(vo@[j].1), rest, new);
                }
            } else {
                let last = ro@.len() - 1;
                assert forall|i: int| 0 <= i < last implies (#[trigger] ro@[i]).0@ != k by {
                    assert(ro@[i].0@ == vo@[i].0@);
                }
                lemma_member_first(ro@, k, last);
                if rest.len() > 0 {
                    lemma_get_after_set(ro@[last].1, None, rest, new);
                }
            }
        },
    }
}

/// What the value argument of a `set` is: `null` when there is none.
pub open spec fn value_arg(args: Json) -> Json {
    match args.member("value"@) {
        Some(v) => v,
        None => Json::Null,
    }
}

impl SystemConfigTool {
    /// Reads ("get"), writes ("set"), shows ("list") or empties ("reset")
    /// the configuration, as the "operation" of the arguments asks.
    pub fn execute(&mut self, args: &Json) -> (r: Result<ToolOutput, ToolError>)
        requires
            args.text_at("operation"@) == Some("set"@) && args.text_at("key"@) is Some
                ==> settable(Some(old(self).config), split_on(args.text_at("key"@)->Some_0, '.')),
        ensures
            match args.text_at("operation"@) {
                None => r matches Err(ToolError::InvalidArguments(m)) && m@ == "operation is required"@
                    && final(self).config == old(self).config,
                Some(op) => if op == "get"@ {
                    final(self).config == old(self).config && match args.text_at("key"@) {
                        None => r matches Err(ToolError::InvalidArguments(m)) && m@ == "key is required for get"@,
                        Some(k) => r matches Ok(o) && o.success && o.error is None && o.metadata is None
                            && (o.data matches Json::Object(d) && d@.len() == 2 && has_text(d@, 0, "key"@, k)
                                && d@[1].0@ == "value"@ && match value_at(old(self).config, split_on(k, '.')) {
                                    Some(x) => same(d@[1].1, x),
                                    None => d@[1].1 == Json::Null,
                                }),
                    }
                } else if op == "set"@ {
                    match args.text_at("key"@) {
                        None => r matches Err(ToolError::InvalidArguments(m)) && m@ == "key is required for set"@
                            && final(self).config == old(self).config,
                        Some(k) => set_result(final(self).config, Some(old(self).config), split_on(k, '.'), value_arg(*args))
                            && (r matches Ok(o) && o.success && o.error is None && o.metadata is None
                                && (o.data matches Json::Object(d) && d@.len() == 3 && has_text(d@, 0, "status"@, "success"@)
                                    && has_text(d@, 1, "key"@, k)
                                    && has_text(d@, 2, "message"@, "Configuration '"@ + k + "' updated successfully"@))),
                    }
                } else if op == "list"@ {
                    final(self).config == old(self).config && (r matches Ok(o) && o.success && o.error is None
                        && o.metadata is None && (o.data matches Json::Object(d) && d@.len() == 1
                            && d@[0].0@ == "config"@ && same(d@[0].1, old(self).config)))
                } else if op == "reset"@ {
                    (final(self).config matches Json::Object(c) && c@.len() == 0)
                        && (r matches Ok(o) && o.success && o.error is None && o.metadata is None
                            && (o.data matches Json::Object(d) && d@.len() == 2 && has_text(d@, 0, "status"@, "success"@)
                                && has_text(d@, 1, "message"@, "Configuration reset to defaults"@)))
                } else {
                    final(self).config == old(self).config && (r matches Err(ToolError::InvalidArguments(m))
                        && m@ == "Unknown operation: "@ + op + ". Must be get, set, list, or reset"@)
                },
            },
    {
        let op = match args.str_at("operation") {
            Some(o) => o,
            None => {
                return Err(ToolError::InvalidArguments(owned("operation is required")));
            },
        };
        if same_text(op.as_str(), "get") {
            let key = match args.str_at("key") {
                Some(k) => k,
                None => {
                    return Err(ToolError::InvalidArguments(owned("key is required for get")));
                },
            };
            let value = get_nested_value(&self.config, key.as_str());
            let mut d: Vec<(String, Json)> = Vec::new();
            d.push((owned("key"), Json::Str(key.clone())));
            d.push((owned("value"), value));
            Ok(ToolOutput::success(Json::Object(d)))
        } else if same_text(op.as_str(), "set") {
            let key = match args.str_at("key") {
                Some(k) => k,
                None => {
                    return Err(ToolError::InvalidArguments(owned("key is required for set")));
                },
            };
            let null = Json::Null;
            let value: &Json = match args.get("value") {
                Some(v) => v,
                None => &null,
            };
            let mut current = Json::Null;
            std::mem::swap(&mut current, &mut self.config);
            let parts = key_parts(key.as_str());
            proof {
                crate::text::lemma_split_nonempty(key@, '.');
                assert(parts@.subrange(0, parts@.len() as int).map_values(|p: Vec<char>| p@) =~= split_on(key@, '.'));
            }
            self.config = set_from(Some(current), &parts, 0, value);
            let mut d: Vec<(String, Json)> = Vec::new();
            d.push((owned("status"), Json::Str(owned("success"))));
            d.push((owned("key"), Json::Str(key.clone())));
            d.push((owned("message"), Json::Str(cat3("Configuration '", key.as_str(), "' updated successfully"))));
            Ok(ToolOutput::success(Json::Object(d)))
        } else if same_text(op.as_str(), "list") {
            let mut d: Vec<(String, Json)> = Vec::new();
            d.push((owned("config"), self.config.copy()));
            Ok(ToolOutput::success(Json::Object(d)))
        } else if same_text(op.as_str(), "reset") {
            self.config = empty_object();
            let mut d: Vec<(String, Json)> = Vec::new();
            d.push((owned("status"), Json::Str(owned("success"))));
            d.push((owned("message"), Json::Str(owned("Configuration reset to defaults"))));
            Ok(ToolOutput::success(Json::Object(d)))
        } else {
            Err(ToolError::InvalidArguments(cat3("Unknown operation: ", op.as_str(), ". Must be get, set, list, or reset")))
        }
    }
}

fn settable_from(v: &Json, parts: &Vec<Vec<char>>, start: usize) -> (b: bool)
    requires
        start <= parts@.len(),
    ensures
        b == settable(Some(*v), parts@.subrange(start as int, parts@.len() as int).map_values(|p: Vec<char>| p@)),
    decreases parts@.len() - start,
{
    let n = parts.len();
    let ghost ps = parts@.subrange(start as int, parts@.len() as int).map_values(|p: Vec<char>| p@);
    if n - start <= 1 {
        return true;
    }
    let ghost rest = parts@.subrange(start + 1, parts@.len() as int).map_values(|p: Vec<char>| p@);
    assert(ps.drop_first() =~= rest);
    assert(ps[0] == parts@[start as int]@);
    assert(ps.len() > 1);
    match v {
        Json::Object(o) => {
            let key = string_of(parts[start].as_slice());
            let mut i: usize = 0;
            while i < o.len()
                invariant
                    i <= o@.len(),
                    *v == Json::Object(*o),
                    ps == parts@.subrange(start as int, parts@.len() as int).map_values(|p: Vec<char>| p@),
                    ps.len() > 1,
                    ps[0] == key@,
                    ps.drop_first() == rest,
                    rest == parts@.subrange(start + 1, parts@.len() as int).map_values(|p: Vec<char>| p@),
                    start + 1 < n,
                    n == parts@.len(),
                    forall|j: int| 0 <= j < i && (#[trigger] o@[j]).0@ == ps[0] ==> settable(Some(o@[j].1), rest),
                decreases o@.len() - i,
            {
                if same_text(o[i].0.as_str(), key.as_str()) {
                    if !settable_from(&o[i].1, parts, start + 1) {
                        assert(o@[i as int].0@ == ps[0] && !settable(Some(o@[i as int].1), rest));
                        proof {
                            lemma_not_settable(*v, *o, ps, i as int);
                        }
                        return false;
                    }
                }
                i = i + 1;
            }
            true
        },
        _ => false,
    }
}

impl Default for SystemConfigTool {
    fn default() -> (t: Self)
        ensures
            t.config matches Json::Object(o) && o@.len() == 0,
    {
        Self::new()
    }
}

} // verus!
