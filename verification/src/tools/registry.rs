//! The registry of tools by name: registering and removing tools, finding
//! them by keyword and category, the categories their names suggest, and
//! the calls a model makes.
use vstd::prelude::*;
use crate::json::Json;
use crate::sort::{ascending, sorted_distinct};
use crate::table::Table;
use crate::text::{
    chars_of, contains_text, owned, spec_contains, spec_lowercase, split_chars, split_on, starts_with_text, string_of,
    to_lowercase,
};
use crate::tools::error::ToolError;
use crate::tools::tool::ToolOutput;
use crate::workflow::templates::texts;

verus! {

/// A registered tool with its description.
pub struct ToolSlot<T> {
    pub description: String,
    pub tool: T,
}

/// Whether a tool's name or description contains the keyword, ignoring case.
pub open spec fn keyword_matches(name: Seq<char>, description: Seq<char>, keyword: Seq<char>) -> bool {
    spec_contains(spec_lowercase(name), spec_lowercase(keyword))
        || spec_contains(spec_lowercase(description), spec_lowercase(keyword))
}

/// Whether a name starts with the prefix, ignoring case; no prefix always holds.
pub open spec fn prefix_matches(name: Seq<char>, prefix: Option<Seq<char>>) -> bool {
    match prefix {
        Some(p) => {
            let n = spec_lowercase(name);
            let q = spec_lowercase(p);
            q.len() <= n.len() && n.subrange(0, q.len() as int) == q
        },
        None => true,
    }
}

/// The number of bytes a character takes in UTF-8.
pub open spec fn utf8_width(c: char) -> nat {
    if (c as u32) < 0x80 {
        1
    } else if (c as u32) < 0x800 {
        2
    } else if (c as u32) < 0x10000 {
        3
    } else {
        4
    }
}

/// The number of bytes a text takes in UTF-8.
pub open spec fn utf8_len(s: Seq<char>) -> nat
    decreases s.len(),
{
    if s.len() == 0 {
        0
    } else {
        utf8_len(s.drop_last()) + utf8_width(s.last())
    }
}

/// A word of a tool name as a category: a word after the first (the noun
/// the tool acts on) is taken without one plural ending `s`.
pub open spec fn category_word(w: Seq<char>, first: bool) -> Seq<char> {
    if !first && w.len() > 0 && w.last() == 's' { w.drop_last() } else { w }
}

/// The category that word `i` of a name gives.
pub open spec fn word_category(name: Seq<char>, i: int) -> Seq<char> {
    category_word(split_on(name, '_')[i], i == 0)
}

/// Whether `p` is a category of the name: one of its words (the parts
/// between underscores), the first as it stands and later ones in the
/// singular, at least three bytes long. "list_devices" gives "list" and
/// "device"; "get_device" gives "get" and "device".
pub open spec fn is_category_of(name: Seq<char>, p: Seq<char>) -> bool {
    exists|i: int| 0 <= i < split_on(name, '_').len() && #[trigger] word_category(name, i) == p && utf8_len(p) >= 3
}

/// The tools in the order in which they were first registered, as the
/// registry's entries.
pub open spec fn slots<T>(items: Seq<(Seq<char>, ToolSlot<T>)>, keyword: Seq<char>, prefix: Option<Seq<char>>) -> Seq<(Seq<char>, ToolSlot<T>)> {
    items.filter(|e: (Seq<char>, ToolSlot<T>)| keyword_matches(e.0, e.1.description@, keyword) && prefix_matches(e.0, prefix))
}

/// Tools by name.
pub struct ToolRegistry<T> {
    tools: Table<ToolSlot<T>>,
}

impl<T> ToolRegistry<T> {
    /// The registered tools by name.
    pub closed spec fn tools(&self) -> Map<Seq<char>, ToolSlot<T>> {
        self.tools@
    }

    /// The registered tools, in the order of their first registration.
    pub closed spec fn entries(&self) -> Seq<(Seq<char>, ToolSlot<T>)> {
        self.tools.items()
    }

    /// An empty registry.
    pub fn new() -> (r: Self)
        ensures
            r.tools() == Map::<Seq<char>, ToolSlot<T>>::empty(),
            r.entries().len() == 0,
    {
        ToolRegistry { tools: Table::new() }
    }

    /// Registers a tool under its name, replacing one of the same name.
    pub fn register(&mut self, name: &str, description: &str, tool: T)
        ensures
            final(self).tools().dom() == old(self).tools().dom().insert(name@),
            final(self).tools()[name@].description@ == description@,
            final(self).tools()[name@].tool == tool,
            forall|k: Seq<char>| k != name@ && #[trigger] old(self).tools().dom().contains(k)
                ==> final(self).tools()[k] == old(self).tools()[k],
    {
        self.tools.insert(owned(name), ToolSlot { description: owned(description), tool });
    }

    /// Removes the tool with the name; whether there was one.
    pub fn unregister(&mut self, name: &str) -> (b: bool)
        ensures
            b == old(self).tools().dom().contains(name@),
            final(self).tools() == old(self).tools().remove(name@),
    {
        self.tools.remove(name).is_some()
    }

    /// The tool with the name.
    pub fn get(&self, name: &str) -> (r: Option<&T>)
        ensures
            r matches Some(t) ==> self.tools().dom().contains(name@) && *t == self.tools()[name@].tool,
            r is None ==> !self.tools().dom().contains(name@),
    {
        match self.tools.get(name) {
            Some(slot) => Some(&slot.tool),
            None => None,
        }
    }

    /// Whether a tool has the name.
    pub fn has(&self, name: &str) -> (b: bool)
        ensures
            b == self.tools().dom().contains(name@),
    {
        self.tools.contains_key(name)
    }

    /// The names of the tools.
    pub fn list(&self) -> (r: Vec<String>)
        ensures
            r@.len() == self.entries().len(),
            forall|i: int| 0 <= i < r@.len() ==> #[trigger] r@[i]@ == self.entries()[i].0,
    {
        self.tools.keys()
    }

    /// The number of tools.
    pub fn len(&self) -> (n: usize)
        ensures
            n == self.tools().dom().len(),
            n == self.entries().len(),
    {
        self.tools.len()
    }

    /// Whether there is no tool.
    pub fn is_empty(&self) -> (b: bool)
        ensures
            b == (self.tools().dom().len() == 0),
    {
        self.tools.len() == 0
    }

    /// The tools whose name or description contains the keyword, ignoring case.
    pub fn search(&self, keyword: &str) -> (r: Vec<&T>)
        ensures
            r@.len() == slots(self.entries(), keyword@, None).len(),
            forall|i: int| 0 <= i < r@.len() ==> *(#[trigger] r@[i]) == slots(self.entries(), keyword@, None)[i].1.tool,
    {
        self.search_with_category(keyword, None)
    }

    /// The tools whose name or description contains the keyword and whose
    /// name starts with the category prefix, both ignoring case.
    pub fn search_with_category(&self, keyword: &str, category_prefix: Option<&str>) -> (r: Vec<&T>)
        ensures
            r@.len() == slots(self.entries(), keyword@, match category_prefix { Some(p) => Some(p@), None => None }).len(),
            forall|i: int| 0 <= i < r@.len() ==> *(#[trigger] r@[i])
                == slots(self.entries(), keyword@, match category_prefix { Some(p) => Some(p@), None => None })[i].1.tool,
    {
        let ghost prefix = match category_prefix {
            Some(p) => Some(p@),
            None => None,
        };
        let ghost items = self.entries();
        let ghost pred = |e: (Seq<char>, ToolSlot<T>)| keyword_matches(e.0, e.1.description@, keyword@) && prefix_matches(e.0, prefix);
        let kw = to_lowercase(keyword);
        let pre = match category_prefix {
            Some(p) => Some(to_lowercase(p)),
            None => None,
        };
        let n = self.tools.len();
        let mut r: Vec<&T> = Vec::new();
        let mut i: usize = 0;
        proof {
            reveal(Seq::filter);
            assert(items.subrange(0, 0) =~= Seq::<(Seq<char>, ToolSlot<T>)>::empty());
        }
        while i < n
            invariant
                n == items.len(),
                items == self.entries(),
                i <= n,
                kw@ == spec_lowercase(keyword@),
                pre matches Some(q) ==> prefix matches Some(p) && q@ == spec_lowercase(p),
                pre is None ==> prefix is None,
                pred == (|e: (Seq<char>, ToolSlot<T>)| keyword_matches(e.0, e.1.description@, keyword@) && prefix_matches(e.0, prefix)),
                r@.len() == items.subrange(0, i as int).filter(pred).len(),
                forall|k: int| 0 <= k < r@.len() ==> *(#[trigger] r@[k]) == items.subrange(0, i as int).filter(pred)[k].1.tool,
            decreases n - i,
        {
            proof {
                crate::tools::discovery::lemma_filter_step(items, pred, i as int);
            }
            let name = self.tools.key_at(i);
            let slot = self.tools.value_at(i);
            let lname = to_lowercase(name.as_str());
            let ldesc = to_lowercase(slot.description.as_str());
            let hit = contains_text(lname.as_str(), kw.as_str()) || contains_text(ldesc.as_str(), kw.as_str());
            let in_category = match &pre {
                Some(q) => starts_with_text(lname.as_str(), q.as_str()),
                None => true,
            };
            if hit && in_category {
                r.push(&slot.tool);
            }
            i = i + 1;
        }
        assert(items.subrange(0, n as int) =~= items);
        r
    }

    /// The categories that the tool names suggest: the words of each name
    /// (the verb first, later words in the singular) at least three bytes
    /// long, each once, in ascending order. "list_devices" and
    /// "get_device" give "device", "get" and "list".
    pub fn categories(&self) -> (r: Vec<String>)
        ensures
            ascending(texts(r@)),
            forall|p: Seq<char>| #[trigger] texts(r@).contains(p) <==>
                exists|i: int| 0 <= i < self.entries().len() && #[trigger] is_category_of(self.entries()[i].0, p),
    {
        let n = self.tools.len();
        let ghost items = self.entries();
        let mut found: Vec<String> = Vec::new();
        let mut i: usize = 0;
        while i < n
            invariant
                n == items.len(),
                items == self.entries(),
                i <= n,
                forall|p: Seq<char>| #[trigger] texts(found@).contains(p) <==>
                    exists|k: int| 0 <= k < i && #[trigger] is_category_of(items[k].0, p),
            decreases n - i,
        {
            let name = self.tools.key_at(i);
            let ghost before = texts(found@);
            let mut more = prefixes_of(name.as_str());
            let ghost added = texts(more@);
            found.append(&mut more);
            proof {
                let now = texts(found@);
                assert(now =~= before + added);
                assert forall|p: Seq<char>| #[trigger] now.contains(p) <==>
                    exists|k: int| 0 <= k < i + 1 && #[trigger] is_category_of(items[k].0, p) by {
                    if now.contains(p) {
                        let j = choose|j: int| 0 <= j < now.len() && now[j] == p;
                        if j >= before.len() {
                            assert(added[j - before.len()] == p);
                            assert(added.contains(p));
                            assert(is_category_of(items[i as int].0, p));
                        } else {
                            assert(before[j] == p);
                            assert(before.contains(p));
                        }
                    }
                    if exists|k: int| 0 <= k < i + 1 && #[trigger] is_category_of(items[k].0, p) {
                        let k = choose|k: int| 0 <= k < i + 1 && #[trigger] is_category_of(items[k].0, p);
                        if k == i {
                            assert(added.contains(p));
                            let j = choose|j: int| 0 <= j < added.len() && added[j] == p;
                            assert(now[before.len() + j] == p);
                        } else {
                            assert(before.contains(p));
                            let j = choose|j: int| 0 <= j < before.len() && before[j] == p;
                            assert(now[j] == p);
                        }
                    }
                }
            }
            i = i + 1;
        }
        let r = sorted_distinct(found);
        proof {
            let fv = texts(found@);
            let rv = texts(r@);
            assert forall|p: Seq<char>| #[trigger] rv.contains(p) <==> fv.contains(p) by {
                if rv.contains(p) {
                    assert(rv.to_set().contains(p));
                    assert(fv.to_set().contains(p));
                }
                if fv.contains(p) {
                    assert(fv.to_set().contains(p));
                    assert(rv.to_set().contains(p));
                }
            }
        }
        r
    }
}

fn utf8_width_of(c: char) -> (n: u64)
    ensures
        n == utf8_width(c),
{
    if (c as u32) < 0x80 {
        1
    } else if (c as u32) < 0x800 {
        2
    } else if (c as u32) < 0x10000 {
        3
    } else {
        4
    }
}

fn prefix_text(v: &Vec<char>, n: usize) -> (s: String)
    requires
        n <= v@.len(),
    ensures
        s@ == v@.subrange(0, n as int),
{
    let mut out: Vec<char> = Vec::new();
    let mut k: usize = 0;
    while k < n
        invariant
            k <= n <= v@.len(),
            out@ == v@.subrange(0, k as int),
        decreases n - k,
    {
        out.push(v[k]);
        k = k + 1;
        assert(out@ =~= v@.subrange(0, k as int));
    }
    string_of(out.as_slice())
}

/// Whether the first `n` characters take at least three bytes in UTF-8.
fn at_least_three_bytes(v: &Vec<char>, n: usize) -> (b: bool)
    requires
        n <= v@.len(),
    ensures
        b == (utf8_len(v@.subrange(0, n as int)) >= 3),
{
    let mut bytes: u64 = 0;
    let mut i: usize = 0;
    while i < n
        invariant
            i <= n <= v@.len(),
            bytes == (if utf8_len(v@.subrange(0, i as int)) >= 3 { 3 } else { utf8_len(v@.subrange(0, i as int)) }),
        decreases n - i,
    {
        assert(v@.subrange(0, i + 1).drop_last() =~= v@.subrange(0, i as int));
        let w = utf8_width_of(v[i]);
        bytes = if bytes + w >= 3 { 3 } else { bytes + w };
        i = i + 1;
    }
    bytes >= 3
}

/// The categories of one tool name, in the order of its words.
fn prefixes_of(name: &str) -> (r: Vec<String>)
    ensures
        forall|p: Seq<char>| #[trigger] texts(r@).contains(p) <==> is_category_of(name@, p),
{
    let v = chars_of(name);
    let words = split_chars(&v, '_');
    let ghost ws = split_on(name@, '_');
    let mut r: Vec<String> = Vec::new();
    let mut i: usize = 0;
    while i < words.len()
        invariant
            v@ == name@,
            ws == split_on(name@, '_'),
            words@.len() == ws.len(),
            forall|k: int| 0 <= k < words@.len() ==> #[trigger] words@[k]@ == ws[k],
            i <= words@.len(),
            forall|p: Seq<char>| #[trigger] texts(r@).contains(p) <==>
                exists|j: int| 0 <= j < i && #[trigger] word_category(name@, j) == p && utf8_len(p) >= 3,
        decreases words@.len() - i,
    {
        let ghost before = texts(r@);
        let w = &words[i];
        let n = if i > 0 && w.len() > 0 && w[w.len() - 1] == 's' { w.len() - 1 } else { w.len() };
        let ghost cat = word_category(name@, i as int);
        assert(w@.subrange(0, n as int) =~= cat);
        let long = at_least_three_bytes(w, n);
        if long {
            let p = prefix_text(w, n);
            r.push(p);
        }
        proof {
            let now = texts(r@);
            assert forall|p: Seq<char>| #[trigger] now.contains(p) <==>
                exists|j: int| 0 <= j < i + 1 && #[trigger] word_category(name@, j) == p && utf8_len(p) >= 3 by {
                if now.contains(p) {
                    let k = choose|k: int| 0 <= k < now.len() && now[k] == p;
                    if k < before.len() {
                        assert(before[k] == p);
                        assert(before.contains(p));
                    } else {
                        assert(word_category(name@, i as int) == p);
                    }
                }
                if exists|j: int| 0 <= j < i + 1 && #[trigger] word_category(name@, j) == p && utf8_len(p) >= 3 {
                    let j = choose|j: int| 0 <= j < i + 1 && #[trigger] word_category(name@, j) == p && utf8_len(p) >= 3;
                    if j == i {
                        assert(now[now.len() - 1] == p);
                    } else {
                        assert(before.contains(p));
                        let k = choose|k: int| 0 <= k < before.len() && before[k] == p;
                        assert(now[k] == p);
                    }
                }
            }
        }
        i = i + 1;
    }
    r
}

impl<T> Default for ToolRegistry<T> {
    fn default() -> (r: Self)
        ensures
            r.tools() == Map::<Seq<char>, ToolSlot<T>>::empty(),
    {
        Self::new()
    }
}

/// A call of a tool by a model.
pub struct ToolCall {
    pub name: String,
    pub args: Json,
    pub id: Option<String>,
}

impl ToolCall {
    /// A call of the named tool with the arguments and no id.
    pub fn new(name: &str, args: Json) -> (c: Self)
        ensures
            c.name@ == name@,
            c.args == args,
            c.id is None,
    {
        ToolCall { name: owned(name), args, id: None }
    }

    /// The call with the given id.
    pub fn with_id(self, id: &str) -> (c: Self)
        ensures
            c.name == self.name,
            c.args == self.args,
            c.id matches Some(i) && i@ == id@,
    {
        let mut c = self;
        c.id = Some(owned(id));
        c
    }
}

/// What running a called tool gave.
pub struct ToolResult {
    pub name: String,
    pub result: Result<ToolOutput, ToolError>,
}

/// What a call gives when no tool has its name.
pub fn missing_tool(name: &str) -> (r: ToolResult)
    ensures
        r.name@ == name@,
        r.result matches Err(ToolError::NotFound(m)) && m@ == name@,
{
    ToolResult { name: owned(name), result: Err(ToolError::NotFound(owned(name))) }
}

} // verus!
