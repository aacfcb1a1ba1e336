//! Compiling source code to WebAssembly: which languages are known, how a
//! compilation is dispatched, and what its result reports.
use vstd::prelude::*;
use base64::Engine;
use crate::text::{cat, owned, spec_lowercase, to_lowercase, same_text};
use crate::workflow::error::WorkflowError;

verus! {

/// Languages that can be compiled to WebAssembly.
#[derive(Clone, Copy, Debug, PartialEq, Eq, Structural, Hash)]
pub enum SourceLanguage {
    Rust,
    JavaScript,
    TypeScript,
    /// WebAssembly Text Format.
    Wat,
    Python,
}

/// The file extension of a language.
pub open spec fn spec_extension(l: SourceLanguage) -> Seq<char> {
    match l {
        SourceLanguage::Rust => "rs"@,
        SourceLanguage::JavaScript => "js"@,
        SourceLanguage::TypeScript => "ts"@,
        SourceLanguage::Wat => "wat"@,
        SourceLanguage::Python => "py"@,
    }
}

/// The language a lower-case name or extension stands for.
pub open spec fn language_named(s: Seq<char>) -> Option<SourceLanguage> {
    if s == "rust"@ || s == "rs"@ {
        Some(SourceLanguage::Rust)
    } else if s == "javascript"@ || s == "js"@ {
        Some(SourceLanguage::JavaScript)
    } else if s == "typescript"@ || s == "ts"@ {
        Some(SourceLanguage::TypeScript)
    } else if s == "wat"@ || s == "wast"@ {
        Some(SourceLanguage::Wat)
    } else if s == "python"@ || s == "py"@ {
        Some(SourceLanguage::Python)
    } else {
        None
    }
}

/// The name that `Debug` writes for a language.
pub open spec fn debug_name(l: SourceLanguage) -> Seq<char> {
    match l {
        SourceLanguage::Rust => "Rust"@,
        SourceLanguage::JavaScript => "JavaScript"@,
        SourceLanguage::TypeScript => "TypeScript"@,
        SourceLanguage::Wat => "Wat"@,
        SourceLanguage::Python => "Python"@,
    }
}

/// The lower-case name of a language.
pub open spec fn lower_name(l: SourceLanguage) -> Seq<char> {
    match l {
        SourceLanguage::Rust => "rust"@,
        SourceLanguage::JavaScript => "javascript"@,
        SourceLanguage::TypeScript => "typescript"@,
        SourceLanguage::Wat => "wat"@,
        SourceLanguage::Python => "python"@,
    }
}

impl SourceLanguage {
    /// The file extension of the language.
    pub fn extension(&self) -> (e: &'static str)
        ensures
            e@ == spec_extension(*self),
    {
        match self {
            SourceLanguage::Rust => "rs",
            SourceLanguage::JavaScript => "js",
            SourceLanguage::TypeScript => "ts",
            SourceLanguage::Wat => "wat",
            SourceLanguage::Python => "py",
        }
    }

    /// The language named by `s`, compared without case: a language name or
    /// its extension (`wast` also names Wat).
    pub fn from_str(s: &str) -> (r: Option<Self>)
        ensures
            r == language_named(spec_lowercase(s@)),
    {
        let lower = to_lowercase(s);
        let l = lower.as_str();
        if same_text(l, "rust") || same_text(l, "rs") {
            Some(SourceLanguage::Rust)
        } else if same_text(l, "javascript") || same_text(l, "js") {
            Some(SourceLanguage::JavaScript)
        } else if same_text(l, "typescript") || same_text(l, "ts") {
            Some(SourceLanguage::TypeScript)
        } else if same_text(l, "wat") || same_text(l, "wast") {
            Some(SourceLanguage::Wat)
        } else if same_text(l, "python") || same_text(l, "py") {
            Some(SourceLanguage::Python)
        } else {
            None
        }
    }

    /// The name that `Debug` writes.
    pub fn debug_name(&self) -> (n: &'static str)
        ensures
            n@ == debug_name(*self),
    {
        match self {
            SourceLanguage::Rust => "Rust",
            SourceLanguage::JavaScript => "JavaScript",
            SourceLanguage::TypeScript => "TypeScript",
            SourceLanguage::Wat => "Wat",
            SourceLanguage::Python => "Python",
        }
    }

    /// The lower-case name (the `Debug` name lower-cased).
    pub fn lower_name(&self) -> (n: &'static str)
        ensures
            n@ == lower_name(*self),
    {
        match self {
            SourceLanguage::Rust => "rust",
            SourceLanguage::JavaScript => "javascript",
            SourceLanguage::TypeScript => "typescript",
            SourceLanguage::Wat => "wat",
            SourceLanguage::Python => "python",
        }
    }
}

/// The digit of standard Base64 for a value below 64.
pub open spec fn base64_digit(v: int) -> char {
    if v < 26 {
        ('A' as int + v) as char
    } else if v < 52 {
        ('a' as int + (v - 26)) as char
    } else if v < 62 {
        ('0' as int + (v - 52)) as char
    } else if v == 62 {
        '+'
    } else {
        '/'
    }
}

/// Standard Base64 (RFC 4648 alphabet, `=` padding) of a byte sequence.
pub open spec fn base64_standard(b: Seq<u8>) -> Seq<char>
    decreases b.len(),
{
    let x = if b.len() > 0 { b[0] as int } else { 0 };
    let y = if b.len() > 1 { b[1] as int } else { 0 };
    let z = if b.len() > 2 { b[2] as int } else { 0 };
    if b.len() == 0 {
        Seq::<char>::empty()
    } else if b.len() == 1 {
        seq![base64_digit(x / 4), base64_digit((x % 4) * 16), '=', '=']
    } else if b.len() == 2 {
        seq![base64_digit(x / 4), base64_digit((x % 4) * 16 + y / 16), base64_digit((y % 16) * 4), '=']
    } else {
        seq![base64_digit(x / 4), base64_digit((x % 4) * 16 + y / 16),
            base64_digit((y % 16) * 4 + z / 64), base64_digit(z % 64)]
            + base64_standard(b.subrange(3, b.len() as int))
    }
}

/// Encodes bytes as standard Base64 with padding
/// (`base64::engine::general_purpose::STANDARD.encode`).
#[verifier::external_body]
fn encode_base64(bytes: &[u8]) -> (s: String)
    ensures
        s@ == base64_standard(bytes@),
{
    base64::engine::general_purpose::STANDARD.encode(bytes)
}

/// What `wat::parse_str` yields for a text: the module's bytes, or the
/// message its error displays.
pub uninterp spec fn spec_wat_parse(source: Seq<char>) -> Result<Seq<u8>, Seq<char>>;

/// A parse result as plain values.
pub open spec fn wat_result_view(r: Result<Vec<u8>, String>) -> Result<Seq<u8>, Seq<char>> {
    match r {
        Ok(b) => Ok(b@),
        Err(m) => Err(m@),
    }
}

/// Translates WebAssembly text to binary (`wat::parse_str`); on failure the
/// error's message.
#[verifier::external_body]
fn parse_wat(source: &str) -> (r: Result<Vec<u8>, String>)
    ensures
        wat_result_view(r) == spec_wat_parse(source@),
{
    match wat::parse_str(source) {
        Ok(b) => Ok(b),
        Err(e) => Err(format!("{}", e)),
    }
}

/// A moment of the monotonic clock (`std::time::Instant`).
#[verifier::external_type_specification]
#[verifier::external_body]
pub struct ExInstant(std::time::Instant);

/// The current moment (`Instant::now`); nothing is stated of it.
#[verifier::external_body]
fn instant_now() -> (t: std::time::Instant) {
    std::time::Instant::now()
}

/// Milliseconds elapsed since a moment (`Instant::elapsed().as_millis()`); nothing is stated of it.
#[verifier::external_body]
fn millis_since(t: &std::time::Instant) -> (ms: u64) {
    t.elapsed().as_millis() as u64
}

/// The outcome of one compilation.
pub struct CompilationResult {
    /// The module's bytes when compilation succeeded.
    pub wasm_bytes: Option<Vec<u8>>,
    /// The module's bytes in Base64.
    pub wasm_base64: Option<String>,
    pub warnings: Vec<String>,
    pub success: bool,
    pub error: Option<String>,
    pub language: SourceLanguage,
    /// Time taken, in milliseconds.
    pub compilation_time_ms: u64,
}

/// A compilation result as plain values (all but the time taken).
pub ghost struct CompilationView {
    pub wasm_bytes: Option<Seq<u8>>,
    pub wasm_base64: Option<Seq<char>>,
    pub warnings: Seq<Seq<char>>,
    pub success: bool,
    pub error: Option<Seq<char>>,
    pub language: SourceLanguage,
}

/// The characters of an optional text.
pub open spec fn text_opt(o: Option<String>) -> Option<Seq<char>> {
    match o {
        Some(s) => Some(s@),
        None => None,
    }
}

impl View for CompilationResult {
    type V = CompilationView;

    open spec fn view(&self) -> CompilationView {
        CompilationView {
            wasm_bytes: match self.wasm_bytes { Some(b) => Some(b@), None => None },
            wasm_base64: text_opt(self.wasm_base64),
            warnings: self.warnings@.map_values(|w: String| w@),
            success: self.success,
            error: text_opt(self.error),
            language: self.language,
        }
    }
}

/// A failed compilation with the given warnings and error.
pub open spec fn failed_view(language: SourceLanguage, warnings: Seq<Seq<char>>, error: Seq<char>) -> CompilationView {
    CompilationView { wasm_bytes: None, wasm_base64: None, warnings, success: false, error: Some(error), language }
}

/// What compiling WebAssembly text gives.
pub open spec fn wat_outcome(source: Seq<char>) -> CompilationView {
    match spec_wat_parse(source) {
        Ok(b) => CompilationView {
            wasm_bytes: Some(b),
            wasm_base64: Some(base64_standard(b)),
            warnings: Seq::<Seq<char>>::empty(),
            success: true,
            error: None,
            language: SourceLanguage::Wat,
        },
        Err(m) => failed_view(SourceLanguage::Wat, Seq::<Seq<char>>::empty(),
            "Compilation error: "@ + ("Wat compilation error: "@ + m)),
    }
}

/// What compiling a source gives, with or without external compilers.
pub open spec fn compile_outcome(source: Seq<char>, language: SourceLanguage, external: bool) -> CompilationView {
    match language {
        SourceLanguage::Wat => wat_outcome(source),
        SourceLanguage::Rust => if external {
            failed_view(language, seq!["Rust compilation requires wasm-pack to be installed"@],
                "Rust → WASM compilation not yet implemented. Please use pre-compiled WASM modules."@)
        } else {
            failed_view(language, Seq::<Seq<char>>::empty(), unsupported_message(language))
        },
        SourceLanguage::JavaScript | SourceLanguage::TypeScript => if external {
            failed_view(language, seq![debug_name(language) + " compilation requires AssemblyScript compiler (asc)"@],
                "AssemblyScript → WASM compilation not yet implemented. Please use pre-compiled WASM modules."@)
        } else {
            failed_view(language, Seq::<Seq<char>>::empty(), unsupported_message(language))
        },
        SourceLanguage::Python => if external {
            failed_view(language, seq!["Python → WASM has limited support"@],
                "Python → WASM compilation not yet implemented. Consider using the Python runtime in WASM via Pyodide instead."@)
        } else {
            failed_view(language, Seq::<Seq<char>>::empty(), unsupported_message(language))
        },
    }
}

/// The error for a language that needs external compilers when they are off.
pub open spec fn unsupported_message(language: SourceLanguage) -> Seq<char> {
    "Language "@ + debug_name(language) + " requires external compilers (enable with use_external_compilers)"@
}

fn one_warning(w: &str) -> (v: Vec<String>)
    ensures
        v@.map_values(|x: String| x@) == seq![w@],
{
    let mut v: Vec<String> = Vec::new();
    v.push(owned(w));
    assert(v@.map_values(|x: String| x@) =~= seq![w@]);
    v
}

fn failure(language: SourceLanguage, warnings: Vec<String>, error: String) -> (r: CompilationResult)
    ensures
        r@ == failed_view(language, warnings@.map_values(|x: String| x@), error@),
{
    CompilationResult {
        wasm_bytes: None,
        wasm_base64: None,
        warnings,
        success: false,
        error: Some(error),
        language,
        compilation_time_ms: 0,
    }
}

/// Compiles source code in several languages to WebAssembly.
pub struct MultiLanguageCompiler {
    use_external_compilers: bool,
}

impl MultiLanguageCompiler {
    /// Whether external compilers (wasm-pack, asc, ...) may be used.
    pub closed spec fn external(&self) -> bool {
        self.use_external_compilers
    }

    /// A compiler that may use external compilers.
    pub fn new() -> (r: Result<Self, WorkflowError>)
        ensures
            r matches Ok(c) && c.external(),
    {
        Ok(MultiLanguageCompiler { use_external_compilers: true })
    }

    /// A compiler that only compiles WebAssembly text.
    pub fn new_internal_only() -> (r: Result<Self, WorkflowError>)
        ensures
            r matches Ok(c) && !c.external(),
    {
        Ok(MultiLanguageCompiler { use_external_compilers: false })
    }

    /// Sets whether external compilers may be used.
    pub fn with_external_compilers(self, use_external: bool) -> (c: Self)
        ensures
            c.external() == use_external,
    {
        MultiLanguageCompiler { use_external_compilers: use_external }
    }

    /// Whether external compilers may be used.
    pub fn uses_external_compilers(&self) -> (b: bool)
        ensures
            b == self.external(),
    {
        self.use_external_compilers
    }

    /// Compiles WebAssembly text.
    fn compile_wat(&self, source: &str) -> (r: CompilationResult)
        ensures
            r@ == wat_outcome(source@),
    {
        match parse_wat(source) {
            Ok(bytes) => {
                let b64 = encode_base64(bytes.as_slice());
                let r = CompilationResult {
                    wasm_bytes: Some(bytes),
                    wasm_base64: Some(b64),
                    warnings: Vec::new(),
                    success: true,
                    error: None,
                    language: SourceLanguage::Wat,
                    compilation_time_ms: 0,
                };
                assert(r@.warnings =~= Seq::<Seq<char>>::empty());
                r
            },
            Err(m) => {
                let detail = cat("Wat compilation error: ", m.as_str());
                let e = WorkflowError::CompilationError(detail);
                let ws: Vec<String> = Vec::new();
                assert(ws@.map_values(|x: String| x@) =~= Seq::<Seq<char>>::empty());
                failure(SourceLanguage::Wat, ws, e.message())
            },
        }
    }

    /// Compiles source code; the result says whether it succeeded and why not.
    pub fn compile(&self, source_code: &str, language: SourceLanguage) -> (r: Result<CompilationResult, WorkflowError>)
        ensures
            r matches Ok(c) && c@ == compile_outcome(source_code@, language, self.external()),
    {
        let start = instant_now();
        let mut result = if language == SourceLanguage::Wat {
            self.compile_wat(source_code)
        } else if !self.use_external_compilers {
            let mut e = cat("Language ", language.debug_name());
            e.append(" requires external compilers (enable with use_external_compilers)");
            let ws: Vec<String> = Vec::new();
            assert(ws@.map_values(|x: String| x@) =~= Seq::<Seq<char>>::empty());
            failure(language, ws, e)
        } else {
            match language {
                SourceLanguage::Rust => failure(language,
                    one_warning("Rust compilation requires wasm-pack to be installed"),
                    owned("Rust → WASM compilation not yet implemented. Please use pre-compiled WASM modules.")),
                SourceLanguage::Python => failure(language,
                    one_warning("Python → WASM has limited support"),
                    owned("Python → WASM compilation not yet implemented. Consider using the Python runtime in WASM via Pyodide instead.")),
                _ => {
                    let w = cat(language.debug_name(), " compilation requires AssemblyScript compiler (asc)");
                    let mut ws: Vec<String> = Vec::new();
                    ws.push(w);
                    assert(ws@.map_values(|x: String| x@) =~= seq![debug_name(language) + " compilation requires AssemblyScript compiler (asc)"@]);
                    failure(language, ws,
                        owned("AssemblyScript → WASM compilation not yet implemented. Please use pre-compiled WASM modules."))
                },
            }
        };
        result.compilation_time_ms = millis_since(&start);
        Ok(result)
    }
}

} // verus!
