use vstd::prelude::*;
use vstd::string::StringExecFns;
use vstd::string::StringSliceAdditionalSpecFns;

use crate::rules::RuleEngine;

verus! {

#[verifier::external_type_specification]
#[verifier::external_body]
pub struct ExCompiler(yara::Compiler);

#[verifier::external_type_specification]
#[verifier::external_body]
pub struct ExRules(yara::Rules);

#[verifier::external_type_specification]
#[verifier::external_body]
pub struct ExYaraError(yara::YaraError);

#[verifier::external_type_specification]
#[verifier::external_body]
pub struct ExError(yara::Error);

/// Where a lexical scan of rule text stands before the next byte.
#[derive(Clone, Copy)]
pub enum Lex {
    /// Rule code. `after` is 1 right after a `$identifier`, 2 after a
    /// `$identifier =`, and 0 otherwise.
    Code { after: u8 },
    /// Just after a `/` in code: a comment or a regular expression follows.
    Slash,
    /// In a `//` comment.
    LineComment,
    /// In a `/* */` comment; `star` when the last byte was `*`.
    BlockComment { star: bool },
    /// In a regular expression; `escaped` right after a backslash.
    Regex { escaped: bool },
    /// In a double-quoted literal. `pattern` when it is the text of a string
    /// definition (`$a = "..."`); `esc` is 1 right after a backslash, 2 right
    /// after `\x`, and 0 otherwise.
    Text { pattern: bool, esc: u8 },
}

pub open spec fn is_space(b: u8) -> bool {
    b == 32u8 || b == 9u8 || b == 10u8 || b == 13u8
}

pub open spec fn is_ident_byte(b: u8) -> bool {
    (48u8 <= b && b <= 57u8) || (65u8 <= b && b <= 90u8) || (97u8 <= b && b <= 122u8) || b == 95u8
}

/// A hex digit from 8 to f, in either case: the first digit of a byte of
/// 0x80 or more.
pub open spec fn is_high_hex_digit(b: u8) -> bool {
    (56u8 <= b && b <= 57u8) || (97u8 <= b && b <= 102u8) || (65u8 <= b && b <= 70u8)
}

/// The lexical state after byte `b` in state `st`. A backslash is YARA's
/// division operator, so `/` in code always opens a comment or a regular
/// expression.
pub open spec fn lex_step(st: Lex, b: u8) -> Lex {
    match st {
        Lex::Code { after } => if b == 34u8 {
            Lex::Text { pattern: after == 2, esc: 0 }
        } else if b == 47u8 {
            Lex::Slash
        } else if b == 36u8 {
            Lex::Code { after: 1 }
        } else if is_space(b) {
            Lex::Code { after }
        } else if is_ident_byte(b) && after == 1 {
            Lex::Code { after: 1 }
        } else if b == 61u8 && after == 1 {
            Lex::Code { after: 2 }
        } else {
            Lex::Code { after: 0 }
        },
        Lex::Slash => if b == 47u8 {
            Lex::LineComment
        } else if b == 42u8 {
            Lex::BlockComment { star: false }
        } else {
            Lex::Regex { escaped: b == 92u8 }
        },
        Lex::LineComment => if b == 10u8 {
            Lex::Code { after: 0 }
        } else {
            Lex::LineComment
        },
        Lex::BlockComment { star } => if star && b == 47u8 {
            Lex::Code { after: 0 }
        } else {
            Lex::BlockComment { star: b == 42u8 }
        },
        Lex::Regex { escaped } => if escaped {
            Lex::Regex { escaped: false }
        } else if b == 47u8 {
            Lex::Code { after: 0 }
        } else {
            Lex::Regex { escaped: b == 92u8 }
        },
        Lex::Text { pattern, esc } => if esc == 1 {
            Lex::Text { pattern, esc: if b == 120u8 { 2u8 } else { 0u8 } }
        } else if esc == 2 {
            Lex::Text { pattern, esc: 0 }
        } else if b == 92u8 {
            Lex::Text { pattern, esc: 1 }
        } else if b == 34u8 {
            Lex::Code { after: 0 }
        } else {
            Lex::Text { pattern, esc: 0 }
        },
    }
}

/// Whether byte `b` is admitted in state `st`: no zero byte anywhere; in code
/// and in literals other than string definitions (metadata values, module
/// names, ...) only ASCII bytes, and no `\x` escape for a byte of 0x80 or
/// more. Comments, regular expressions and string definitions are free.
pub open spec fn byte_ok(st: Lex, b: u8) -> bool {
    &&& b != 0u8
    &&& match st {
        Lex::Code { .. } => b < 128u8,
        Lex::Text { pattern, esc } => pattern || (b < 128u8 && !(esc == 2 && is_high_hex_digit(b))),
        _ => true,
    }
}

/// The lexical state after the first `n` bytes of `s`.
pub open spec fn lex_state(s: Seq<u8>, n: nat) -> Lex
    decreases n,
{
    if n == 0 || n > s.len() {
        Lex::Code { after: 0 }
    } else {
        lex_step(lex_state(s, (n - 1) as nat), s[n - 1])
    }
}

/// Rule text that YARA can take and whose every string YARA keeps or
/// reports (metadata values, module names in messages) stays UTF-8.
pub open spec fn rule_text_ok(s: Seq<u8>) -> bool {
    forall|i: int| 0 <= i < s.len() ==> #[trigger] byte_ok(lex_state(s, i as nat), s[i])
}

fn lex_step_exec(st: Lex, b: u8) -> (r: Lex)
    ensures
        r == lex_step(st, b),
{
    let space = b == 32u8 || b == 9u8 || b == 10u8 || b == 13u8;
    let ident = (48u8 <= b && b <= 57u8) || (65u8 <= b && b <= 90u8) || (97u8 <= b && b <= 122u8) || b == 95u8;
    match st {
        Lex::Code { after } => if b == 34u8 {
            Lex::Text { pattern: after == 2, esc: 0 }
        } else if b == 47u8 {
            Lex::Slash
        } else if b == 36u8 {
            Lex::Code { after: 1 }
        } else if space {
            Lex::Code { after }
        } else if ident && after == 1 {
            Lex::Code { after: 1 }
        } else if b == 61u8 && after == 1 {
            Lex::Code { after: 2 }
        } else {
            Lex::Code { after: 0 }
        },
        Lex::Slash => if b == 47u8 {
            Lex::LineComment
        } else if b == 42u8 {
            Lex::BlockComment { star: false }
        } else {
            Lex::Regex { escaped: b == 92u8 }
        },
        Lex::LineComment => if b == 10u8 {
            Lex::Code { after: 0 }
        } else {
            Lex::LineComment
        },
        Lex::BlockComment { star } => if star && b == 47u8 {
            Lex::Code { after: 0 }
        } else {
            Lex::BlockComment { star: b == 42u8 }
        },
        Lex::Regex { escaped } => if escaped {
            Lex::Regex { escaped: false }
        } else if b == 47u8 {
            Lex::Code { after: 0 }
        } else {
            Lex::Regex { escaped: b == 92u8 }
        },
        Lex::Text { pattern, esc } => if esc == 1 {
            Lex::Text { pattern, esc: if b == 120u8 { 2u8 } else { 0u8 } }
        } else if esc == 2 {
            Lex::Text { pattern, esc: 0 }
        } else if b == 92u8 {
            Lex::Text { pattern, esc: 1 }
        } else if b == 34u8 {
            Lex::Code { after: 0 }
        } else {
            Lex::Text { pattern, esc: 0 }
        },
    }
}

fn byte_ok_exec(st: Lex, b: u8) -> (r: bool)
    ensures
        r == byte_ok(st, b),
{
    if b == 0u8 {
        return false;
    }
    match st {
        Lex::Code { .. } => b < 128u8,
        Lex::Text { pattern, esc } => {
            let high = (56u8 <= b && b <= 57u8) || (97u8 <= b && b <= 102u8) || (65u8 <= b && b <= 70u8);
            pattern || (b < 128u8 && !(esc == 2 && high))
        },
        _ => true,
    }
}

/// Whether `text` is rule text that YARA can be handed (see `rule_text_ok`).
pub fn check_rule_text(text: &[u8]) -> (r: bool)
    ensures
        r == rule_text_ok(text@),
{
    let mut st = Lex::Code { after: 0 };
    let mut i: usize = 0;
    while i < text.len()
        invariant
            i <= text@.len(),
            st == lex_state(text@, i as nat),
            forall|j: int| 0 <= j < i ==> #[trigger] byte_ok(lex_state(text@, j as nat), text@[j]),
        decreases text@.len() - i,
    {
        if !byte_ok_exec(st, text[i]) {
            assert(!byte_ok(lex_state(text@, i as nat), text@[i as int]));
            return false;
        }
        st = lex_step_exec(st, text[i]);
        assert(lex_state(text@, (i + 1) as nat) == lex_step(lex_state(text@, i as nat), text@[i as int]));
        i = i + 1;
    }
    true
}

/// Relies on yara::Compiler::new, which creates an empty rule compiler.
#[verifier::external_body]
fn new_compiler() -> (r: Result<yara::Compiler, yara::YaraError>) {
    yara::Compiler::new()
}

/// Relies on yara::Compiler::disable_include_directive: later rule text
/// cannot pull in files, an `include` is a compile error.
#[verifier::external_body]
fn disable_includes(compiler: &mut yara::Compiler) {
    compiler.disable_include_directive()
}

/// Relies on yara::Compiler::add_rules_str, which parses rule source into the
/// compiler and fails on invalid syntax. It panics on a zero byte and on a
/// compiler message that is not UTF-8; `requires` keeps both out, since the
/// messages quote only ASCII or parts of literals that `rule_text_ok` keeps
/// ASCII.
#[verifier::external_body]
fn add_rules_str(compiler: yara::Compiler, text: &str) -> (r: Result<yara::Compiler, yara::Error>)
    requires
        rule_text_ok(text.spec_bytes()),
{
    compiler.add_rules_str(text)
}

/// Relies on yara::Compiler::compile_rules, which turns the compiler's rules
/// into a rule set ready for scanning.
#[verifier::external_body]
fn compile_rules(compiler: yara::Compiler) -> (r: Result<yara::Rules, yara::YaraError>) {
    compiler.compile_rules()
}

/// Relies on yara::Rules::scan_mem, taking the identifier of each matching
/// rule; `timeout` is in seconds. It reads each matching rule's metadata
/// strings as UTF-8 and panics otherwise: `requires` admits only rule sets
/// compiled, with includes off, from text whose metadata literals stay ASCII.
#[verifier::external_body]
fn scan_mem(rules: &YaraRules, data: &[u8], timeout: i32) -> (r: Result<Vec<String>, yara::YaraError>)
    requires
        rule_text_ok(rules.source@),
{
    rules.rules.scan_mem(data, timeout).map(|found| found.iter().map(|m| m.identifier.to_string()).collect())
}

/// Relies on the Display impl of yara::Error for a readable detail.
#[verifier::external_body]
fn error_text(e: &yara::Error) -> (r: String) {
    e.to_string()
}

/// Relies on the Display impl of yara::YaraError for a readable detail.
#[verifier::external_body]
fn status_text(e: &yara::YaraError) -> (r: String) {
    e.to_string()
}

/// A compiled YARA rule set, with the bytes of the text it was compiled from
/// (includes off).
pub struct YaraRules {
    rules: yara::Rules,
    source: Ghost<Seq<u8>>,
    text: Ghost<Seq<char>>,
}

impl YaraRules {
    #[verifier::type_invariant]
    spec fn inv(self) -> bool {
        rule_text_ok(self.source@)
    }
}

/// The YARA engine, scanning with the given timeout in seconds.
pub struct YaraEngine {
    pub scan_timeout: i32,
}

impl RuleEngine for YaraEngine {
    type Rules = YaraRules;

    open spec fn refuses(&self, text: Seq<u8>) -> bool {
        !rule_text_ok(text)
    }

    closed spec fn source_of(rules: &YaraRules) -> Seq<char> {
        rules.text@
    }

    /// Refuses text that `rule_text_ok` does not admit before YARA sees it,
    /// and compiles the rest with includes off.
    fn compile(&self, text: &str) -> (r: Result<YaraRules, String>) {
        if !check_rule_text(text.as_bytes()) {
            return Err(String::from_str("rule text holds a zero byte, or a byte of 0x80 or more outside string definitions, regular expressions and comments"));
        }
        match new_compiler() {
            Err(e) => Err(status_text(&e)),
            Ok(compiler) => {
                let mut compiler = compiler;
                disable_includes(&mut compiler);
                match add_rules_str(compiler, text) {
                    Err(e) => Err(error_text(&e)),
                    Ok(compiler) => match compile_rules(compiler) {
                        Err(e) => Err(status_text(&e)),
                        Ok(rules) => Ok(YaraRules { rules, source: Ghost(text.spec_bytes()), text: Ghost(text@) }),
                    },
                }
            },
        }
    }

    fn scan(&self, rules: &YaraRules, data: &[u8]) -> (r: Result<Vec<String>, String>) {
        proof {
            use_type_invariant(rules);
        }
        match scan_mem(rules, data, self.scan_timeout) {
            Ok(names) => Ok(names),
            Err(e) => Err(status_text(&e)),
        }
    }
}

} // verus!
