//! What a tool returns, how its parameters are described, and the JSON
//! schemas of its arguments.
use vstd::prelude::*;
use crate::json::{member_of, same, Json};
use crate::text::{cat, owned};
use crate::tools::error::ToolError;

verus! {

/// The result of running a tool.
pub struct ToolOutput {
    pub success: bool,
    pub data: Json,
    pub error: Option<String>,
    pub metadata: Option<Json>,
}

/// The characters of an optional message.
pub open spec fn opt_chars(o: Option<String>) -> Option<Seq<char>> {
    match o {
        Some(s) => Some(s@),
        None => None,
    }
}

impl ToolOutput {
    /// A successful output carrying `data`.
    pub fn success(data: Json) -> (o: ToolOutput)
        ensures
            o.success,
            o.data == data,
            o.error is None,
            o.metadata is None,
    {
        ToolOutput { success: true, data, error: None, metadata: None }
    }

    /// A successful output carrying `data` and `metadata`.
    pub fn success_with_metadata(data: Json, metadata: Json) -> (o: ToolOutput)
        ensures
            o.success,
            o.data == data,
            o.error is None,
            o.metadata == Some(metadata),
    {
        ToolOutput { success: true, data, error: None, metadata: Some(metadata) }
    }

    /// A failed output with a message and no data.
    pub fn error(error: &str) -> (o: ToolOutput)
        ensures
            !o.success,
            o.data == Json::Null,
            opt_chars(o.error) == Some(error@),
            o.metadata is None,
    {
        ToolOutput { success: false, data: Json::Null, error: Some(owned(error)), metadata: None }
    }

    /// A failed output with a message and data.
    pub fn error_with_data(error: &str, data: Json) -> (o: ToolOutput)
        ensures
            !o.success,
            o.data == data,
            opt_chars(o.error) == Some(error@),
            o.metadata is None,
    {
        ToolOutput { success: false, data, error: Some(owned(error)), metadata: None }
    }

    /// A failed output with a message, carrying `metadata` both as data and
    /// as metadata.
    pub fn error_with_metadata(error: &str, metadata: Json) -> (o: ToolOutput)
        ensures
            !o.success,
            same(o.data, metadata),
            opt_chars(o.error) == Some(error@),
            o.metadata == Some(metadata),
    {
        ToolOutput { success: false, data: metadata.copy(), error: Some(owned(error)), metadata: Some(metadata) }
    }

    /// A successful output that carries a warning, with `metadata` both as
    /// data and as metadata.
    pub fn warning_with_metadata(warning: &str, metadata: Json) -> (o: ToolOutput)
        ensures
            o.success,
            same(o.data, metadata),
            opt_chars(o.error) == Some(warning@),
            o.metadata == Some(metadata),
    {
        ToolOutput { success: true, data: metadata.copy(), error: Some(owned(warning)), metadata: Some(metadata) }
    }
}

/// A parameter of a tool.
pub struct Parameter {
    pub name: String,
    pub param_type: String,
    pub description: String,
    pub required: bool,
    pub default: Option<Json>,
    pub enum_values: Option<Vec<Json>>,
}

impl Parameter {
    /// An optional parameter without default or allowed values.
    pub fn new(name: &str, param_type: &str, description: &str) -> (p: Parameter)
        ensures
            p.name@ == name@,
            p.param_type@ == param_type@,
            p.description@ == description@,
            !p.required,
            p.default is None,
            p.enum_values is None,
    {
        Parameter {
            name: owned(name),
            param_type: owned(param_type),
            description: owned(description),
            required: false,
            default: None,
            enum_values: None,
        }
    }

    /// The same parameter, required.
    pub fn required(self) -> (p: Parameter)
        ensures
            p == (Parameter { required: true, ..self }),
    {
        Parameter { required: true, ..self }
    }

    /// The same parameter with a default value.
    pub fn with_default(self, default: Json) -> (p: Parameter)
        ensures
            p == (Parameter { default: Some(default), ..self }),
    {
        Parameter { default: Some(default), ..self }
    }

    /// The same parameter restricted to the given values.
    pub fn with_enum(self, values: Vec<Json>) -> (p: Parameter)
        ensures
            p == (Parameter { enum_values: Some(values), ..self }),
    {
        Parameter { enum_values: Some(values), ..self }
    }
}

/// An example call of a tool.
pub struct ToolExample {
    pub arguments: Json,
    pub result: Json,
    pub description: String,
}

/// How much a tool says in its output.
#[derive(Clone, Copy, Debug, PartialEq, Eq, Structural)]
pub enum ResponseFormat {
    /// The essential data only.
    Concise,
    /// The data with explanations and context.
    Detailed,
}

/// Tools answer concisely unless asked otherwise.
impl Default for ResponseFormat {
    fn default() -> (f: Self)
        ensures
            f == ResponseFormat::Concise,
    {
        ResponseFormat::Concise
    }
}

/// Whether `j` is a string holding `t`.
pub open spec fn is_text(j: Json, t: Seq<char>) -> bool {
    j.text() == Some(t)
}

/// Whether `j` is an array of the strings `ts`, in order.
pub open spec fn is_text_array(j: Json, ts: Seq<Seq<char>>) -> bool {
    j matches Json::Array(v) && v@.len() == ts.len() && forall|i: int| 0 <= i < ts.len() ==> #[trigger] v@[i].text() == Some(ts[i])
}

/// Whether `j` is the schema of an object with the given properties and
/// required names: `{"type": "object", "properties": .., "required": [..]}`.
pub open spec fn is_object_schema(j: Json, properties: Json, required: Seq<Seq<char>>) -> bool {
    j matches Json::Object(m) && m@.len() == 3
        && m@[0].0@ == "type"@ && is_text(m@[0].1, "object"@)
        && m@[1].0@ == "properties"@ && m@[1].1 == properties
        && m@[2].0@ == "required"@ && is_text_array(m@[2].1, required)
}

/// Whether `j` is a property of the given type and description:
/// `{"type": .., "description": ..}`.
pub open spec fn is_property(j: Json, prop_type: Seq<char>, description: Seq<char>) -> bool {
    j matches Json::Object(m) && m@.len() == 2
        && m@[0].0@ == "type"@ && is_text(m@[0].1, prop_type)
        && m@[1].0@ == "description"@ && is_text(m@[1].1, description)
}

/// Whether the schema lists exactly the given required names.
pub open spec fn requires_names(schema: Json, names: Seq<Seq<char>>) -> bool {
    required_list(schema) matches Some(r) && r.len() == names.len()
        && forall|i: int| 0 <= i < names.len() ==> #[trigger] r[i].text() == Some(names[i])
}

/// The schema of an object with the given properties and required names.
pub fn object_schema(properties: Json, required: Vec<String>) -> (j: Json)
    ensures
        is_object_schema(j, properties, required@.map_values(|s: String| s@)),
        requires_names(j, required@.map_values(|s: String| s@)),
{
    let mut names: Vec<Json> = Vec::new();
    let mut i: usize = 0;
    while i < required.len()
        invariant
            i <= required@.len(),
            names@.len() == i,
            forall|k: int| 0 <= k < i ==> #[trigger] names@[k].text() == Some(required@[k]@),
        decreases required@.len() - i,
    {
        names.push(Json::Str(required[i].clone()));
        i = i + 1;
    }
    let mut m: Vec<(String, Json)> = Vec::new();
    m.push((owned("type"), Json::Str(owned("object"))));
    m.push((owned("properties"), properties));
    m.push((owned("required"), Json::Array(names)));
    let j = Json::Object(m);
    proof {
        assert("required"@.len() == 8 && "type"@.len() == 4) by {
            reveal_strlit("required");
            reveal_strlit("type");
        }
        assert("required"@[0] == 'r' && "properties"@[0] == 'p') by {
            reveal_strlit("required");
            reveal_strlit("properties");
        }
        assert(m@.drop_first().drop_first().drop_first() =~= Seq::<(String, Json)>::empty());
        assert(m@.drop_first()[0].0@ == "properties"@);
        assert(m@.drop_first().drop_first()[0].0@ == "required"@);
        let m1 = m@.drop_first();
        let m2 = m1.drop_first();
        assert(m@[0].0@ == "type"@ && m1[0].0@ == "properties"@ && m2[0].0@ == "required"@);
        assert(m2[0].1 == m@[2].1);
        assert(member_of(m2, "required"@) == Some(m@[2].1));
        assert(member_of(m1, "required"@) == member_of(m2, "required"@));
        assert(member_of(m@, "required"@) == member_of(m1, "required"@));
        assert(j.member("required"@) == Some(m@[2].1));
    }
    j
}

/// A property of the given type and description.
pub fn property(prop_type: &str, description: &str) -> (j: Json)
    ensures
        is_property(j, prop_type@, description@),
{
    let mut m: Vec<(String, Json)> = Vec::new();
    m.push((owned("type"), Json::Str(owned(prop_type))));
    m.push((owned("description"), Json::Str(owned(description))));
    Json::Object(m)
}

/// A string property.
pub fn string_property(description: &str) -> (j: Json)
    ensures
        is_property(j, "string"@, description@),
{
    property("string", description)
}

/// A number property.
pub fn number_property(description: &str) -> (j: Json)
    ensures
        is_property(j, "number"@, description@),
{
    property("number", description)
}

/// A boolean property.
pub fn boolean_property(description: &str) -> (j: Json)
    ensures
        is_property(j, "boolean"@, description@),
{
    property("boolean", description)
}

/// An array property whose items have the given type:
/// `{"type": "array", "items": {"type": ..}, "description": ..}`.
pub fn array_property(item_type: &str, description: &str) -> (j: Json)
    ensures
        j matches Json::Object(m) && m@.len() == 3
            && m@[0].0@ == "type"@ && is_text(m@[0].1, "array"@)
            && m@[1].0@ == "items"@ && (m@[1].1 matches Json::Object(i) && i@.len() == 1
                && i@[0].0@ == "type"@ && is_text(i@[0].1, item_type@))
            && m@[2].0@ == "description"@ && is_text(m@[2].1, description@),
{
    let mut items: Vec<(String, Json)> = Vec::new();
    items.push((owned("type"), Json::Str(owned(item_type))));
    let mut m: Vec<(String, Json)> = Vec::new();
    m.push((owned("type"), Json::Str(owned("array"))));
    m.push((owned("items"), Json::Object(items)));
    m.push((owned("description"), Json::Str(owned(description))));
    Json::Object(m)
}

/// The first name in `required` that is a string and not a key of the
/// argument object `args`.
pub open spec fn first_missing(required: Seq<Json>, args: Seq<(String, Json)>) -> Option<Seq<char>>
    decreases required.len(),
{
    if required.len() == 0 {
        None
    } else {
        match required[0].text() {
            Some(name) if member_of(args, name) is None => Some(name),
            _ => first_missing(required.drop_first(), args),
        }
    }
}

/// The first of `names` that is not a key of the argument members.
pub open spec fn missing_name(names: Seq<Seq<char>>, args: Seq<(String, Json)>) -> Option<Seq<char>>
    decreases names.len(),
{
    if names.len() == 0 {
        None
    } else if member_of(args, names[0]) is None {
        Some(names[0])
    } else {
        missing_name(names.drop_first(), args)
    }
}

/// What is wrong with arguments that must be an object holding the given
/// names, if anything.
pub open spec fn args_error(names: Seq<Seq<char>>, args: Json) -> Option<Seq<char>> {
    match args {
        Json::Object(a) => match missing_name(names, a@) {
            Some(n) => Some("Missing required parameter: "@ + n),
            None => None,
        },
        _ => Some("Expected object"@),
    }
}

/// With required names that are all strings, the check of a schema is the
/// check of its names.
pub proof fn lemma_first_missing_names(req: Seq<Json>, names: Seq<Seq<char>>, args: Seq<(String, Json)>)
    requires
        req.len() == names.len(),
        forall|i: int| 0 <= i < names.len() ==> #[trigger] req[i].text() == Some(names[i]),
    ensures
        first_missing(req, args) == missing_name(names, args),
    decreases names.len(),
{
    if names.len() > 0 {
        assert(req[0].text() == Some(names[0]));
        lemma_first_missing_names(req.drop_first(), names.drop_first(), args);
    }
}

/// Checks arguments against the required names of a tool: they must be an
/// object holding each name.
pub(crate) fn check_required(schema: &Json, names: Ghost<Seq<Seq<char>>>, args: &Json) -> (r: Result<(), ToolError>)
    requires
        requires_names(*schema, names@),
    ensures
        match args_error(names@, *args) {
            Some(m) => r matches Err(ToolError::InvalidArguments(x)) && x@ == m,
            None => r is Ok,
        },
{
    proof {
        let req = required_list(*schema)->0;
        if args is Object {
            lemma_first_missing_names(req, names@, args->Object_0@);
        }
    }
    validate_args(schema, args)
}

/// The required names of a parameter schema, when it is an object that
/// lists them in an array under `required`.
pub open spec fn required_list(schema: Json) -> Option<Seq<Json>> {
    match schema.member("required"@) {
        Some(Json::Array(v)) => Some(v@),
        _ => None,
    }
}

/// Checks arguments against a parameter schema: when the schema lists
/// required names, the arguments must be an object holding each of them
/// (names that are not strings are passed over).
pub fn validate_args(schema: &Json, args: &Json) -> (r: Result<(), ToolError>)
    ensures
        match required_list(*schema) {
            None => r is Ok,
            Some(req) => match *args {
                Json::Object(a) => match first_missing(req, a@) {
                    Some(name) => r matches Err(ToolError::InvalidArguments(m)) && m@ == "Missing required parameter: "@ + name,
                    None => r is Ok,
                },
                _ => r matches Err(ToolError::InvalidArguments(m)) && m@ == "Expected object"@,
            },
        },
{
    let required = match schema.get("required") {
        Some(Json::Array(v)) => v,
        _ => return Ok(()),
    };
    let a = match args {
        Json::Object(a) => a,
        _ => return Err(ToolError::InvalidArguments(owned("Expected object"))),
    };
    let args_json = args;
    assert(required_list(*schema) == Some(required@));
    let n = required.len();
    let mut i: usize = 0;
    assert(required@.subrange(0, n as int) =~= required@);
    while i < n
        invariant
            n == required@.len(),
            i <= n,
            *args_json == Json::Object(*a),
            *args_json == *args,
            required_list(*schema) == Some(required@),
            first_missing(required@, a@) == first_missing(required@.subrange(i as int, n as int), a@),
        decreases n - i,
    {
        let ghost rest = required@.subrange(i as int, n as int);
        assert(rest.drop_first() =~= required@.subrange(i + 1, n as int));
        assert(rest[0] == required@[i as int]);
        match &required[i] {
            Json::Str(name) => {
                if args_json.get(name.as_str()).is_none() {
                    assert(rest[0].text() == Some(name@));
                    return Err(ToolError::InvalidArguments(cat("Missing required parameter: ", name.as_str())));
                }
            },
            _ => {},
        }
        i = i + 1;
    }
    assert(required@.subrange(n as int, n as int) =~= Seq::<Json>::empty());
    Ok(())
}

} // verus!
