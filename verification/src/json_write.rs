//! JSON text: the compact form (no whitespace) and the pretty form (one
//! element or member per line, indented by two spaces per level).
use vstd::prelude::*;
use crate::json::{quoted, spec_quoted, Json};
use crate::text::{cat, i64_text, signed_decimal};

verus! {

/// The compact text of a value.
pub open spec fn json_text(j: Json) -> Seq<char>
    decreases j, 0nat,
{
    match j {
        Json::Null => "null"@,
        Json::Bool(b) => if b { "true"@ } else { "false"@ },
        Json::Int(i) => signed_decimal(i as int),
        Json::Real(t) => t@,
        Json::Str(s) => spec_quoted(s@),
        Json::Array(xs) => {
            proof {
                assert(decreases_to!(j => xs));
                assert(decreases_to!(xs => xs@));
            }
            "["@ + elems_text(xs@, xs@.len()) + "]"@
        },
        Json::Object(ms) => {
            proof {
                assert(decreases_to!(j => ms));
                assert(decreases_to!(ms => ms@));
            }
            "{"@ + members_text(ms@, ms@.len()) + "}"@
        },
    }
}

/// The first `n` elements, each in compact text, separated by commas.
pub open spec fn elems_text(xs: Seq<Json>, n: nat) -> Seq<char>
    decreases xs, n,
{
    if n == 0 || n > xs.len() {
        Seq::empty()
    } else {
        let head = if n == 1 { Seq::empty() } else { elems_text(xs, (n - 1) as nat) + ","@ };
        proof {
            assert(decreases_to!(xs => xs[n - 1]));
        }
        head + json_text(xs[n - 1])
    }
}

/// The first `n` members, each as its quoted key, a colon and the compact
/// text of its value, separated by commas.
pub open spec fn members_text(ms: Seq<(String, Json)>, n: nat) -> Seq<char>
    decreases ms, n,
{
    if n == 0 || n > ms.len() {
        Seq::empty()
    } else {
        let head = if n == 1 { Seq::empty() } else { members_text(ms, (n - 1) as nat) + ","@ };
        proof {
            assert(decreases_to!(ms => ms[n - 1]));
            assert(decreases_to!(ms[n - 1] => ms[n - 1].1));
        }
        head + spec_quoted(ms[n - 1].0@) + ":"@ + json_text(ms[n - 1].1)
    }
}

/// The pretty text of a value whose line starts at the indentation `ind`:
/// an empty array or object stays on one line; otherwise each element or
/// member stands on a line of its own, indented two spaces further, and the
/// closing bracket on a line at `ind`.
pub open spec fn pretty_text(j: Json, ind: Seq<char>) -> Seq<char>
    decreases j, 0nat,
{
    match j {
        Json::Array(xs) => {
            proof {
                assert(decreases_to!(j => xs));
                assert(decreases_to!(xs => xs@));
            }
            if xs@.len() == 0 {
                "[]"@
            } else {
                "["@ + pretty_elems(xs@, xs@.len(), ind + "  "@) + "\n"@ + ind + "]"@
            }
        },
        Json::Object(ms) => {
            proof {
                assert(decreases_to!(j => ms));
                assert(decreases_to!(ms => ms@));
            }
            if ms@.len() == 0 {
                "{}"@
            } else {
                "{"@ + pretty_members(ms@, ms@.len(), ind + "  "@) + "\n"@ + ind + "}"@
            }
        },
        _ => json_text(j),
    }
}

/// The first `n` elements, each on a new line at the indentation `ind`.
pub open spec fn pretty_elems(xs: Seq<Json>, n: nat, ind: Seq<char>) -> Seq<char>
    decreases xs, n,
{
    if n == 0 || n > xs.len() {
        Seq::empty()
    } else {
        let head = if n == 1 { "\n"@ } else { pretty_elems(xs, (n - 1) as nat, ind) + ",\n"@ };
        proof {
            assert(decreases_to!(xs => xs[n - 1]));
        }
        head + ind + pretty_text(xs[n - 1], ind)
    }
}

/// The first `n` members, each on a new line at the indentation `ind`, as
/// its quoted key, a colon, a space and the pretty text of its value.
pub open spec fn pretty_members(ms: Seq<(String, Json)>, n: nat, ind: Seq<char>) -> Seq<char>
    decreases ms, n,
{
    if n == 0 || n > ms.len() {
        Seq::empty()
    } else {
        let head = if n == 1 { "\n"@ } else { pretty_members(ms, (n - 1) as nat, ind) + ",\n"@ };
        proof {
            assert(decreases_to!(ms => ms[n - 1]));
            assert(decreases_to!(ms[n - 1] => ms[n - 1].1));
        }
        head + ind + spec_quoted(ms[n - 1].0@) + ": "@ + pretty_text(ms[n - 1].1, ind)
    }
}

/// Appends the compact text of a value.
pub fn write_compact(j: &Json, out: &mut String)
    ensures
        final(out)@ == old(out)@ + json_text(*j),
    decreases j,
{
    match j {
        Json::Null => out.append("null"),
        Json::Bool(b) => {
            if *b {
                out.append("true");
            } else {
                out.append("false");
            }
        },
        Json::Int(i) => {
            let t = i64_text(*i);
            out.append(t.as_str());
        },
        Json::Real(t) => out.append(t.as_str()),
        Json::Str(s) => {
            let q = quoted(s.as_str());
            out.append(q.as_str());
        },
        Json::Array(xs) => {
            let ghost start = out@;
            out.append("[");
            let mut i: usize = 0;
            while i < xs.len()
                invariant
                    i <= xs@.len(),
                    decreases_to!(*j => *xs),
                    out@ == start + "["@ + elems_text(xs@, i as nat),
                decreases xs@.len() - i,
            {
                if i > 0 {
                    out.append(",");
                }
                proof {
                    assert(decreases_to!(*xs => xs@));
                    assert(decreases_to!(xs@ => xs@[i as int]));
                }
                write_compact(&xs[i], out);
                i = i + 1;
                assert(out@ =~= start + "["@ + elems_text(xs@, i as nat));
            }
            out.append("]");
        },
        Json::Object(ms) => {
            let ghost start = out@;
            out.append("{");
            let mut i: usize = 0;
            while i < ms.len()
                invariant
                    i <= ms@.len(),
                    decreases_to!(*j => *ms),
                    out@ == start + "{"@ + members_text(ms@, i as nat),
                decreases ms@.len() - i,
            {
                if i > 0 {
                    out.append(",");
                }
                let q = quoted(ms[i].0.as_str());
                out.append(q.as_str());
                out.append(":");
                proof {
                    assert(decreases_to!(*ms => ms@));
                    assert(decreases_to!(ms@ => ms@[i as int]));
                    assert(decreases_to!(ms@[i as int] => ms@[i as int].1));
                }
                write_compact(&ms[i].1, out);
                i = i + 1;
                assert(out@ =~= start + "{"@ + members_text(ms@, i as nat));
            }
            out.append("}");
        },
    }
}

/// Appends the pretty text of a value whose line starts at `ind`.
pub fn write_pretty(j: &Json, ind: &str, out: &mut String)
    ensures
        final(out)@ == old(out)@ + pretty_text(*j, ind@),
    decreases j,
{
    match j {
        Json::Array(xs) => {
            if xs.len() == 0 {
                out.append("[]");
            } else {
                let inner = cat(ind, "  ");
                let ghost start = out@;
                out.append("[");
                let mut i: usize = 0;
                while i < xs.len()
                    invariant
                        i <= xs@.len(),
                        decreases_to!(*j => *xs),
                        out@ == start + "["@ + pretty_elems(xs@, i as nat, inner@),
                    decreases xs@.len() - i,
                {
                    if i > 0 {
                        out.append(",\n");
                    } else {
                        out.append("\n");
                    }
                    out.append(inner.as_str());
                    proof {
                        assert(decreases_to!(*xs => xs@));
                        assert(decreases_to!(xs@ => xs@[i as int]));
                    }
                    write_pretty(&xs[i], inner.as_str(), out);
                    i = i + 1;
                    assert(out@ =~= start + "["@ + pretty_elems(xs@, i as nat, inner@));
                }
                out.append("\n");
                out.append(ind);
                out.append("]");
            }
        },
        Json::Object(ms) => {
            if ms.len() == 0 {
                out.append("{}");
            } else {
                let inner = cat(ind, "  ");
                let ghost start = out@;
                out.append("{");
                let mut i: usize = 0;
                while i < ms.len()
                    invariant
                        i <= ms@.len(),
                        decreases_to!(*j => *ms),
                        out@ == start + "{"@ + pretty_members(ms@, i as nat, inner@),
                    decreases ms@.len() - i,
                {
                    if i > 0 {
                        out.append(",\n");
                    } else {
                        out.append("\n");
                    }
                    out.append(inner.as_str());
                    let q = quoted(ms[i].0.as_str());
                    out.append(q.as_str());
                    out.append(": ");
                    proof {
                        assert(decreases_to!(*ms => ms@));
                        assert(decreases_to!(ms@ => ms@[i as int]));
                        assert(decreases_to!(ms@[i as int] => ms@[i as int].1));
                    }
                    write_pretty(&ms[i].1, inner.as_str(), out);
                    i = i + 1;
                    assert(out@ =~= start + "{"@ + pretty_members(ms@, i as nat, inner@));
                }
                out.append("\n");
                out.append(ind);
                out.append("}");
            }
        },
        _ => write_compact(j, out),
    }
}

/// The compact text of a value (`serde_json::Value::to_string`).
pub fn to_json_text(j: &Json) -> (s: String)
    ensures
        s@ == json_text(*j),
{
    let mut s = String::new();
    write_compact(j, &mut s);
    assert(s@ =~= json_text(*j));
    s
}

/// The pretty text of a value (`serde_json::to_string_pretty`).
pub fn to_pretty_text(j: &Json) -> (s: String)
    ensures
        s@ == pretty_text(*j, Seq::empty()),
{
    let mut s = String::new();
    write_pretty(j, "", &mut s);
    proof {
        reveal_strlit("");
    }
    assert(s@ =~= pretty_text(*j, Seq::empty()));
    s
}

} // verus!
