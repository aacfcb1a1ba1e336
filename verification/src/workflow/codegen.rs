//! Generating WebAssembly step code from natural-language descriptions:
//! prompts for a language model, template code, extraction of code from a
//! model's answer, and compilation of the result.
use vstd::prelude::*;
use crate::text::{cat, cat3, chars_of, find_from, first_occurrence_from, owned, spec_trim, trim_chars};
use crate::workflow::compiler::{compile_outcome, lower_name, MultiLanguageCompiler, SourceLanguage};
use crate::workflow::error::WorkflowError;

verus! {

/// The opening text of the prompt for WebAssembly text.
pub open spec fn wat_prompt_head() -> Seq<char> { WAT_HEAD@ }

/// The closing text of the prompt for WebAssembly text.
pub open spec fn wat_prompt_tail() -> Seq<char> { WAT_TAIL@ }

/// The opening text of the prompt for Rust.
pub open spec fn rust_prompt_head() -> Seq<char> { RUST_HEAD@ }

/// The closing text of the prompt for Rust.
pub open spec fn rust_prompt_tail() -> Seq<char> { RUST_TAIL@ }

/// The opening text of the prompt for JavaScript and TypeScript.
pub open spec fn js_prompt_head() -> Seq<char> { JS_HEAD@ }

/// The closing text of the prompt for JavaScript and TypeScript.
pub open spec fn js_prompt_tail() -> Seq<char> { JS_TAIL@ }

/// The opening text of the prompt for Python.
pub open spec fn python_prompt_head() -> Seq<char> { PY_HEAD@ }

/// The closing text of the prompt for Python.
pub open spec fn python_prompt_tail() -> Seq<char> { PY_TAIL@ }

/// The prompt asking for code in a language that does what `d` describes.
pub open spec fn spec_prompt(d: Seq<char>, language: SourceLanguage) -> Seq<char> {
    match language {
        SourceLanguage::Wat => wat_prompt_head() + d + wat_prompt_tail(),
        SourceLanguage::Rust => rust_prompt_head() + d + rust_prompt_tail(),
        SourceLanguage::JavaScript | SourceLanguage::TypeScript => js_prompt_head() + d + js_prompt_tail(),
        SourceLanguage::Python => python_prompt_head() + d + python_prompt_tail(),
    }
}

/// The template code generated for a description in a language.
pub open spec fn spec_template(d: Seq<char>, language: SourceLanguage) -> Seq<char> {
    match language {
        SourceLanguage::Wat => TW0@ + d + TW1@ + d + TW2@,
        SourceLanguage::Rust => TR0@ + d + TR1@ + d + TR2@,
        SourceLanguage::JavaScript => TJ0@ + d + TJ1@ + "AssemblyScript (JavaScript)"@ + TJ2@ + d + TJ3@,
        SourceLanguage::TypeScript => TJ0@ + d + TJ1@ + "AssemblyScript"@ + TJ2@ + d + TJ3@,
        SourceLanguage::Python => TP0@ + d + TP1@ + d + TP2@,
    }
}

/// What the code generator produced.
pub struct GeneratedWasmCode {
    pub source_code: String,
    pub wasm_bytes: Option<Vec<u8>>,
    pub wasm_base64: Option<String>,
    pub language: SourceLanguage,
    pub explanation: String,
    pub warnings: Vec<String>,
    pub compilation_success: bool,
    pub compilation_error: Option<String>,
}

/// Settings of the code generator.
pub struct GeneratorConfig {
    pub default_language: SourceLanguage,
    pub max_attempts: u32,
    pub validate_code: bool,
    pub timeout_seconds: u64,
}

/// Wat by default, three attempts, validation on, 30 s timeout.
impl Default for GeneratorConfig {
    fn default() -> (c: Self)
        ensures
            c.default_language == SourceLanguage::Wat,
            c.max_attempts == 3,
            c.validate_code,
            c.timeout_seconds == 30,
    {
        GeneratorConfig { default_language: SourceLanguage::Wat, max_attempts: 3, validate_code: true, timeout_seconds: 30 }
    }
}

/// The code between the first fence that opens with `pat` and the next
/// closing fence, if both are there.
pub open spec fn fenced(s: Seq<char>, open: Seq<char>) -> Option<Seq<char>> {
    match first_occurrence_from(s, open, 0) {
        Some(start) => {
            let code_start = start + open.len();
            match first_occurrence_from(s, "```"@, code_start) {
                Some(end) => Some(s.subrange(code_start, end)),
                None => None,
            }
        },
        None => None,
    }
}

/// The code extracted from a model's answer: the first block fenced with the
/// language's marker, else the first fenced block, else the whole answer;
/// trimmed of white space.
pub open spec fn spec_extract(response: Seq<char>, language: SourceLanguage) -> Seq<char> {
    match fenced(response, "```"@ + lower_name(language)) {
        Some(c) => spec_trim(c),
        None => match fenced(response, "```"@) {
            Some(c) => spec_trim(c),
            None => spec_trim(response),
        },
    }
}

fn copy_range(v: &Vec<char>, a: usize, b: usize) -> (r: Vec<char>)
    requires
        a <= b <= v@.len(),
    ensures
        r@ == v@.subrange(a as int, b as int),
{
    let mut r: Vec<char> = Vec::new();
    let mut i = a;
    while i < b
        invariant
            a <= i <= b <= v@.len(),
            r@ == v@.subrange(a as int, i as int),
        decreases b - i,
    {
        r.push(v[i]);
        i = i + 1;
        assert(r@ =~= v@.subrange(a as int, i as int));
    }
    r
}

fn fenced_code(v: &Vec<char>, open: &Vec<char>) -> (r: Option<Vec<char>>)
    ensures
        r matches Some(c) ==> fenced(v@, open@) == Some(c@),
        r is None ==> fenced(v@, open@) is None,
{
    let fence = chars_of("```");
    let total = v.len();
    let found = find_from(v, open, 0);
    match found {
        Some(start) => {
            proof {
                crate::text::lemma_first_occurrence_from(v@, open@, 0);
                assert(first_occurrence_from(v@, open@, 0) == Some(start as int));
                assert(start + open@.len() <= v@.len());
            }
            let code_start = start + open.len();
            match find_from(v, &fence, code_start) {
                Some(end) => {
                    proof {
                        crate::text::lemma_first_occurrence_from(v@, fence@, code_start as int);
                    }
                    Some(copy_range(v, code_start, end))
                },
                None => None,
            }
        },
        None => None,
    }
}

/// Generates WebAssembly code with a language model and compiles it.
pub struct WasmCodeGenerator {
    config: GeneratorConfig,
    compiler: MultiLanguageCompiler,
}

impl WasmCodeGenerator {
    /// The language used when none is asked for.
    pub closed spec fn default_language(&self) -> SourceLanguage {
        self.config.default_language
    }

    /// Whether the compiler may use external compilers.
    pub closed spec fn external(&self) -> bool {
        self.compiler.external()
    }

    /// A generator with the default settings and a compiler of WebAssembly text only.
    pub fn new() -> (r: Result<Self, WorkflowError>)
        ensures
            r matches Ok(g) && g.default_language() == SourceLanguage::Wat && !g.external(),
    {
        Self::with_config(GeneratorConfig::default())
    }

    /// A generator with the given settings and a compiler of WebAssembly text only.
    pub fn with_config(config: GeneratorConfig) -> (r: Result<Self, WorkflowError>)
        ensures
            r matches Ok(g) && g.default_language() == config.default_language && !g.external(),
    {
        match MultiLanguageCompiler::new_internal_only() {
            Ok(compiler) => Ok(WasmCodeGenerator { config, compiler }),
            Err(e) => Err(e),
        }
    }

    /// The prompt for the language model.
    pub fn build_prompt(&self, description: &str, language: &SourceLanguage) -> (p: String)
        ensures
            p@ == spec_prompt(description@, *language),
    {
        match language {
            SourceLanguage::Wat => self.build_wat_prompt(description),
            SourceLanguage::Rust => self.build_rust_prompt(description),
            SourceLanguage::JavaScript => self.build_javascript_prompt(description),
            SourceLanguage::TypeScript => self.build_typescript_prompt(description),
            SourceLanguage::Python => self.build_python_prompt(description),
        }
    }

    /// The prompt for WebAssembly text.
    pub fn build_wat_prompt(&self, description: &str) -> (p: String)
        ensures
            p@ == wat_prompt_head() + description@ + wat_prompt_tail(),
    {
        cat3(WAT_HEAD, description, WAT_TAIL)
    }

    /// The prompt for Rust.
    pub fn build_rust_prompt(&self, description: &str) -> (p: String)
        ensures
            p@ == rust_prompt_head() + description@ + rust_prompt_tail(),
    {
        cat3(RUST_HEAD, description, RUST_TAIL)
    }

    /// The prompt for JavaScript (AssemblyScript).
    pub fn build_javascript_prompt(&self, description: &str) -> (p: String)
        ensures
            p@ == js_prompt_head() + description@ + js_prompt_tail(),
    {
        cat3(JS_HEAD, description, JS_TAIL)
    }

    /// The prompt for TypeScript, the same as for JavaScript.
    pub fn build_typescript_prompt(&self, description: &str) -> (p: String)
        ensures
            p@ == js_prompt_head() + description@ + js_prompt_tail(),
    {
        self.build_javascript_prompt(description)
    }

    /// The prompt for Python.
    pub fn build_python_prompt(&self, description: &str) -> (p: String)
        ensures
            p@ == python_prompt_head() + description@ + python_prompt_tail(),
    {
        cat3(PY_HEAD, description, PY_TAIL)
    }

    /// Template code standing in for a model's answer.
    pub fn generate_template_code(&self, description: &str, language: &SourceLanguage) -> (c: String)
        ensures
            c@ == spec_template(description@, *language),
    {
        match language {
            SourceLanguage::Wat => {
                let mut c = cat3(TW0, description, TW1);
                c.append(description);
                c.append(TW2);
                c
            },
            SourceLanguage::Rust => {
                let mut c = cat3(TR0, description, TR1);
                c.append(description);
                c.append(TR2);
                c
            },
            SourceLanguage::JavaScript => {
                let mut c = cat3(TJ0, description, TJ1);
                c.append("AssemblyScript (JavaScript)");
                c.append(TJ2);
                c.append(description);
                c.append(TJ3);
                c
            },
            SourceLanguage::TypeScript => {
                let mut c = cat3(TJ0, description, TJ1);
                c.append("AssemblyScript");
                c.append(TJ2);
                c.append(description);
                c.append(TJ3);
                c
            },
            SourceLanguage::Python => {
                let mut c = cat3(TP0, description, TP1);
                c.append(description);
                c.append(TP2);
                c
            },
        }
    }

    /// The code in a model's answer.
    pub fn extract_code(&self, response: &str, language: &SourceLanguage) -> (r: Result<String, WorkflowError>)
        ensures
            r matches Ok(c) && c@ == spec_extract(response@, *language),
    {
        let v = chars_of(response);
        let open = chars_of(cat("```", language.lower_name()).as_str());
        match fenced_code(&v, &open) {
            Some(c) => return Ok(trim_chars(&c)),
            None => {},
        }
        let generic = chars_of("```");
        match fenced_code(&v, &generic) {
            Some(c) => Ok(trim_chars(&c)),
            None => Ok(trim_chars(&v)),
        }
    }

    /// Generates code for a description (template code standing in for the
    /// model's answer) and compiles it.
    pub fn generate_from_description(&self, description: &str, preferred_language: Option<SourceLanguage>)
        -> (r: Result<GeneratedWasmCode, WorkflowError>)
        ensures
            r matches Ok(g) && ({
                let language = match preferred_language { Some(l) => l, None => self.default_language() };
                let outcome = compile_outcome(spec_template(description@, language), language, self.external());
                &&& g.language == language
                &&& g.source_code@ == spec_template(description@, language)
                &&& g.explanation@ == "Generated "@ + lower_name(language) + " code based on: "@ + description@
                &&& g.compilation_success == outcome.success
                &&& g.warnings@.map_values(|w: String| w@) == outcome.warnings
                &&& crate::workflow::compiler::text_opt(g.compilation_error) == outcome.error
                &&& crate::workflow::compiler::text_opt(g.wasm_base64) == outcome.wasm_base64
                &&& (match g.wasm_bytes { Some(b) => Some(b@), None => None }) == outcome.wasm_bytes
            }),
    {
        let language = match preferred_language {
            Some(l) => l,
            None => self.config.default_language,
        };
        let source_code = self.generate_template_code(description, &language);
        let compiled = match self.compiler.compile(source_code.as_str(), language) {
            Ok(c) => c,
            Err(e) => return Err(e),
        };
        let mut explanation = cat3("Generated ", language.lower_name(), " code based on: ");
        explanation.append(description);
        Ok(GeneratedWasmCode {
            source_code,
            wasm_bytes: compiled.wasm_bytes,
            wasm_base64: compiled.wasm_base64,
            language,
            explanation,
            warnings: compiled.warnings,
            compilation_success: compiled.success,
            compilation_error: compiled.error,
        })
    }

    /// Compiles code given directly, without a model.
    pub fn generate_from_source(&self, source_code: &str, language: SourceLanguage, description: Option<String>)
        -> (r: Result<GeneratedWasmCode, WorkflowError>)
        ensures
            r matches Ok(g) && ({
                let outcome = compile_outcome(source_code@, language, self.external());
                &&& g.language == language
                &&& g.source_code@ == source_code@
                &&& g.explanation@ == (match description { Some(d) => d@, None => "Compiled from provided source code"@ })
                &&& g.compilation_success == outcome.success
                &&& g.warnings@.map_values(|w: String| w@) == outcome.warnings
                &&& crate::workflow::compiler::text_opt(g.compilation_error) == outcome.error
                &&& crate::workflow::compiler::text_opt(g.wasm_base64) == outcome.wasm_base64
                &&& (match g.wasm_bytes { Some(b) => Some(b@), None => None }) == outcome.wasm_bytes
            }),
    {
        let compiled = match self.compiler.compile(source_code, language) {
            Ok(c) => c,
            Err(e) => return Err(e),
        };
        let explanation = match description {
            Some(d) => d,
            None => owned("Compiled from provided source code"),
        };
        Ok(GeneratedWasmCode {
            source_code: owned(source_code),
            wasm_bytes: compiled.wasm_bytes,
            wasm_base64: compiled.wasm_base64,
            language,
            explanation,
            warnings: compiled.warnings,
            compilation_success: compiled.success,
            compilation_error: compiled.error,
        })
    }
}


pub const WAT_HEAD: &'static str = "You are a WebAssembly expert. Generate WebAssembly Text Format (Wat) code based on the user's request.\n\nAvailable Host APIs (for NeoTalk platform):\n- neotalk.log(message: string) - Log a message\n- neotalk.get_metric(device_id: string, metric: string) -> f\x364 - Get a device metric value\n- neotalk.send_command(device_id: string, command: string, params: object) - Send a command to a device\n- neotalk.send_alert(severity: string, title: string, message: string) - Send an alert\n\nExample Wat code:\n```wat\n(module\n  (import \"neotalk\" \"log\" (func $log (param i32 i32)))\n  (memory (export \"memory\") 1)\n  (func (export \"main\")\n    ;; Your code here\n  )\n)\n```\n\nUser request: ";

pub const WAT_TAIL: &'static str = "\n\nPlease generate complete Wat code that fulfills the user's request. The code should be valid WebAssembly Text Format.";

pub const RUST_HEAD: &'static str = "You are a Rust and WebAssembly expert. Generate Rust code that will be compiled to WASM.\n\nAvailable Host APIs (via wasm-bindgen):\n- neotalk::log(message: &str)\n- neotalk::get_metric(device_id: &str, metric: &str) -> f\x364\n- neotalk::send_command(device_id: &str, command: &str, params: &JsValue)\n- neotalk::send_alert(severity: &str, title: &str, message: &str)\n\nExample Rust code:\n```rust\nuse wasm_bindgen::prelude::\x2a;\n\n\x23[wasm_bindgen]\npub fn main() \x7b\n    let temp = neotalk::get_metric(\"sensor_1\", \"temperature\");\n    neotalk::log(&format\x21(\"Temperature: \x7b\x7d\", temp));\n\x7d\n```\n\nUser request: ";

pub const RUST_TAIL: &'static str = "\n\nPlease generate complete Rust code with necessary imports and \x23[wasm_bindgen] attributes.";

pub const JS_HEAD: &'static str = "You are a JavaScript and WebAssembly expert. Generate AssemblyScript code that will be compiled to WASM.\n\nAvailable Host APIs:\n- neotalk.log(message: string): void\n- neotalk.getMetric(deviceId: string, metric: string): f\x364\n- neotalk.sendCommand(deviceId: string, command: string, params: object): void\n- neotalk.sendAlert(severity: string, title: string, message: string): void\n\nExample AssemblyScript code:\n```assemblyscript\nexport function main(): void \x7b\n    let temp = neotalk.getMetric(\"sensor_1\", \"temperature\");\n    neotalk.log(\"Temperature: \" + temp.toString());\n\x7d\n```\n\nUser request: ";

pub const JS_TAIL: &'static str = "\n\nPlease generate complete AssemblyScript code.";

pub const PY_HEAD: &'static str = "You are a Python expert. Generate Python code conceptually (note: Python → WASM has limited support).\n\nUser request: ";

pub const PY_TAIL: &'static str = "\n\nPlease generate Python code. Note that full Python to WASM compilation is experimental; this is primarily for documentation and future integration purposes.";

pub const TW0: &'static str = "(module\n  ;; Auto-generated from: ";

pub const TW1: &'static str = "\n  (import \"neotalk\" \"log\" (func $log (param i32 i32)))\n  (memory (export \"memory\") 1)\n  (func (export \"main\")\n    ;; TODO: Implement logic for: ";

pub const TW2: &'static str = "\n  )\n)\n";

pub const TR0: &'static str = "// Auto-generated from: ";

pub const TR1: &'static str = "\nuse wasm_bindgen::prelude::\x2a;\n\n\x23[wasm_bindgen]\npub fn main() \x7b\n    // TODO: Implement logic for: ";

pub const TR2: &'static str = "\n\x7d\n";

pub const TJ0: &'static str = "// Auto-generated from: ";

pub const TJ1: &'static str = "\n// ";

pub const TJ2: &'static str = "\nexport function main(): void \x7b\n    // TODO: Implement logic for: ";

pub const TJ3: &'static str = "\n\x7d\n";

pub const TP0: &'static str = "\x23 Auto-generated from: ";

pub const TP1: &'static str = "\n\x23 TODO: Implement logic for: ";

pub const TP2: &'static str = "\ndef main():\n    pass\n";


} // verus!
