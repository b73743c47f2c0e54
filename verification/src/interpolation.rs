//! A dead simple interpolation format: `this is an {interpolated} string`.
//!
//! Variable names may hold `-`, `_`, `0-9`, `a-z` and `A-Z`; any other character
//! in a variable name is an error. `\{` writes a literal `{` and `\\` a literal `\`.
use vstd::prelude::*;
use vstd::hash_map::StringHashMap;
use crate::text::{
    push_char, push_str, string_with_capacity, shrink_string, chars_of, push_decimal,
    push_char_debug, decimal, char_debug,
};

verus! {

// ---------------------------------------------------------------------------
// Model
// ---------------------------------------------------------------------------

/// The meaning of a template: each part is a run of literal text followed by the
/// name of a variable; `end` is the literal text after the last variable.
pub struct Template {
    pub parts: Seq<(Seq<char>, Seq<char>)>,
    pub end: Seq<char>,
}

/// Characters allowed in a variable name.
pub open spec fn is_ident_char(c: char) -> bool {
    ('A' <= c && c <= 'Z') || ('a' <= c && c <= 'z') || ('0' <= c && c <= '9') || c == '_'
        || c == '-'
}

/// Where the parser stands between two characters.
pub enum ParseState {
    /// Reading literal text.
    Text,
    /// Just read a `\`.
    Escaped,
    /// Inside `{...}`: the name began at `start` and holds `name` so far.
    Ident { start: int, name: Seq<char> },
}

/// The result of parsing `chars` from position `i` on, having already produced
/// `parts`, with `next` as the literal text read since the last variable.
pub open spec fn parse_from(
    chars: Seq<char>,
    i: int,
    parts: Seq<(Seq<char>, Seq<char>)>,
    next: Seq<char>,
    state: ParseState,
) -> Result<Template, ParseError>
    decreases chars.len() - i,
{
    if i < 0 || i >= chars.len() {
        match state {
            ParseState::Ident { start, name } => Err(ParseError::UnclosedIdentifier(start as usize)),
            ParseState::Escaped => Err(ParseError::UnfinishedEscape((chars.len() - 1) as usize)),
            ParseState::Text => Ok(Template { parts, end: next }),
        }
    } else {
        let c = chars[i];
        match state {
            ParseState::Escaped => {
                if c == '{' || c == '\\' {
                    parse_from(chars, i + 1, parts, next.push(c), ParseState::Text)
                } else {
                    Err(ParseError::InvalidEscape(c, i as usize))
                }
            },
            ParseState::Text => {
                if c == '\\' {
                    parse_from(chars, i + 1, parts, next, ParseState::Escaped)
                } else if c == '{' {
                    parse_from(
                        chars,
                        i + 1,
                        parts,
                        next,
                        ParseState::Ident { start: i + 1, name: Seq::empty() },
                    )
                } else {
                    parse_from(chars, i + 1, parts, next.push(c), ParseState::Text)
                }
            },
            ParseState::Ident { start, name } => {
                if c == '}' {
                    parse_from(chars, i + 1, parts.push((next, name)), Seq::empty(), ParseState::Text)
                } else if is_ident_char(c) {
                    parse_from(chars, i + 1, parts, next, ParseState::Ident { start, name: name.push(c) })
                } else {
                    Err(ParseError::InvalidCharInIdentifier(c, i as usize))
                }
            },
        }
    }
}

/// What parsing the template source `s` yields.
pub open spec fn spec_compile(s: Seq<char>) -> Result<Template, ParseError> {
    parse_from(s, 0, Seq::empty(), Seq::empty(), ParseState::Text)
}

/// The text of each argument.
pub open spec fn text_args(args: Map<Seq<char>, String>) -> Map<Seq<char>, Seq<char>> {
    args.map_values(|v: String| v@)
}

/// The value a variable renders as: its argument, or nothing when it has none.
pub open spec fn lookup(args: Map<Seq<char>, Seq<char>>, key: Seq<char>) -> Seq<char> {
    if args.contains_key(key) {
        args[key]
    } else {
        Seq::empty()
    }
}

/// The parts rendered with `args`, without the trailing text.
pub open spec fn render_parts(
    parts: Seq<(Seq<char>, Seq<char>)>,
    args: Map<Seq<char>, Seq<char>>,
) -> Seq<char>
    decreases parts.len(),
{
    if parts.len() == 0 {
        Seq::empty()
    } else {
        render_parts(parts.drop_last(), args) + parts.last().0 + lookup(args, parts.last().1)
    }
}

/// A template rendered with `args`.
pub open spec fn spec_render(t: Template, args: Map<Seq<char>, Seq<char>>) -> Seq<char> {
    render_parts(t.parts, args) + t.end
}

/// Whether every variable of `parts` has an argument.
pub open spec fn all_known<V>(parts: Seq<(Seq<char>, Seq<char>)>, args: Map<Seq<char>, V>) -> bool {
    forall|i: int| 0 <= i < parts.len() ==> args.contains_key(#[trigger] parts[i].1)
}

/// The variables of `parts` without an argument, in order of use.
pub open spec fn unknown_keys<V>(
    parts: Seq<(Seq<char>, Seq<char>)>,
    args: Map<Seq<char>, V>,
) -> Seq<Seq<char>>
    decreases parts.len(),
{
    if parts.len() == 0 {
        Seq::empty()
    } else if args.contains_key(parts.last().1) {
        unknown_keys(parts.drop_last(), args)
    } else {
        unknown_keys(parts.drop_last(), args).push(parts.last().1)
    }
}

/// Literal text written so that it reads back as itself: `{` and `\` get a `\`.
pub open spec fn escape(text: Seq<char>) -> Seq<char>
    decreases text.len(),
{
    if text.len() == 0 {
        Seq::empty()
    } else {
        let c = text.last();
        escape(text.drop_last()) + if c == '{' || c == '\\' {
            seq!['\\', c]
        } else {
            seq![c]
        }
    }
}

/// The parts written back as template source.
pub open spec fn print_parts(parts: Seq<(Seq<char>, Seq<char>)>) -> Seq<char>
    decreases parts.len(),
{
    if parts.len() == 0 {
        Seq::empty()
    } else {
        print_parts(parts.drop_last()) + escape(parts.last().0) + seq!['{'] + parts.last().1 + seq![
            '}',
        ]
    }
}

/// A template written back as source.
pub open spec fn spec_print(t: Template) -> Seq<char> {
    print_parts(t.parts) + escape(t.end)
}

/// The variables used, in order.
pub open spec fn keys_of(parts: Seq<(Seq<char>, Seq<char>)>) -> Seq<Seq<char>> {
    parts.map_values(|p: (Seq<char>, Seq<char>)| p.1)
}

// ---------------------------------------------------------------------------
// Types
// ---------------------------------------------------------------------------

/// A template that can be supplied variables to render.
/// Created with [`Interpolation::new`].
#[derive(Clone, Debug, Hash, Eq, PartialEq)]
pub struct Interpolation {
    /// The first value is the raw text appended to the output; the second is the
    /// name of the variable rendered after it.
    parts: Vec<(String, String)>,
    /// The text placed after the otherwise rendered interpolation.
    end: String,
}

pub open spec fn view_parts(parts: Seq<(String, String)>) -> Seq<(Seq<char>, Seq<char>)> {
    parts.map_values(|p: (String, String)| (p.0@, p.1@))
}

impl View for Interpolation {
    type V = Template;

    closed spec fn view(&self) -> Template {
        Template { parts: view_parts(self.parts@), end: self.end@ }
    }
}

/// Error returned in the parsing stage.
#[derive(Debug, PartialEq, Eq)]
pub enum ParseError {
    /// Unclosed identifier found at a specific spot.
    UnclosedIdentifier(usize),
    /// Invalid char (.0) in identifier, located at .1
    InvalidCharInIdentifier(char, usize),
    /// Invalid value (.0) escaped at usize (.1)
    InvalidEscape(char, usize),
    /// The source ends in a `\` at usize (.0), which escapes nothing.
    UnfinishedEscape(usize),
}

/// Errors returned by [`Interpolation::try_render`].
#[derive(Debug, PartialEq, Eq)]
pub enum RenderError<'a> {
    /// Unknown variables used in the interpolation, in order of use.
    UnknownVariables(Vec<&'a str>),
}

/// Bytes reserved per part when rendering, on top of the part's literal text.
const REASONABLE_INTERPOLATION_PREALLOC_BYTES: usize = 128;

proof fn lemma_view_parts_index(parts: Seq<(String, String)>, i: int)
    requires
        0 <= i < parts.len(),
    ensures
        view_parts(parts)[i] == (parts[i].0@, parts[i].1@),
        view_parts(parts).len() == parts.len(),
{
}

proof fn lemma_render_parts_step(
    parts: Seq<(Seq<char>, Seq<char>)>,
    args: Map<Seq<char>, Seq<char>>,
    i: int,
)
    requires
        0 <= i < parts.len(),
    ensures
        render_parts(parts.take(i + 1), args) == render_parts(parts.take(i), args) + parts[i].0
            + lookup(args, parts[i].1),
{
    assert(parts.take(i + 1).drop_last() == parts.take(i));
}

proof fn lemma_unknown_keys_step<V>(
    parts: Seq<(Seq<char>, Seq<char>)>,
    args: Map<Seq<char>, V>,
    i: int,
)
    requires
        0 <= i < parts.len(),
    ensures
        unknown_keys(parts.take(i + 1), args) == if args.contains_key(parts[i].1) {
            unknown_keys(parts.take(i), args)
        } else {
            unknown_keys(parts.take(i), args).push(parts[i].1)
        },
{
    assert(parts.take(i + 1).drop_last() == parts.take(i));
}

proof fn lemma_escape_step(text: Seq<char>, i: int)
    requires
        0 <= i < text.len(),
    ensures
        escape(text.take(i + 1)) == escape(text.take(i)) + if text[i] == '{' || text[i] == '\\' {
            seq!['\\', text[i]]
        } else {
            seq![text[i]]
        },
{
    assert(text.take(i + 1).drop_last() == text.take(i));
}

proof fn lemma_print_parts_step(parts: Seq<(Seq<char>, Seq<char>)>, i: int)
    requires
        0 <= i < parts.len(),
    ensures
        print_parts(parts.take(i + 1)) == print_parts(parts.take(i)) + escape(parts[i].0) + seq![
            '{',
        ] + parts[i].1 + seq!['}'],
{
    assert(parts.take(i + 1).drop_last() == parts.take(i));
}

/// Appends `txt` with `{` and `\` escaped.
fn push_escape(s: &mut String, txt: &str)
    ensures
        final(s)@ == old(s)@ + escape(txt@),
{
    let chars = chars_of(txt);
    let mut i: usize = 0;
    while i < chars.len()
        invariant
            chars@ == txt@,
            i <= chars.len(),
            s@ == old(s)@ + escape(txt@.take(i as int)),
        decreases chars.len() - i,
    {
        let next = chars[i];
        proof {
            lemma_escape_step(txt@, i as int);
        }
        if next == '{' || next == '\\' {
            push_char(s, '\\');
        }
        push_char(s, next);
        i = i + 1;
    }
    assert(txt@.take(chars.len() as int) == txt@);
}

impl Interpolation {
    /// Creates a new [`Interpolation`] from its source text.
    /// # Errors
    /// On a syntax error: an unclosed identifier, a character that may not stand in
    /// an identifier, or an escape of anything but `{` and `\`.
    pub fn new(input: &str) -> (r: Result<Self, ParseError>)
        ensures
            match r {
                Ok(t) => spec_compile(input@) == Ok::<Template, ParseError>(t@),
                Err(e) => spec_compile(input@) == Err::<Template, ParseError>(e),
            },
    {
        InterpolationCompiler::compile(input)
    }

    /// A new string with capacity to be reasonably rendered into.
    fn output_string(&self) -> (s: String)
        ensures
            s@ == Seq::<char>::empty(),
    {
        let mut capacity: usize = 0;
        let mut i: usize = 0;
        while i < self.parts.len()
            decreases self.parts.len() - i,
        {
            capacity = capacity.saturating_add(self.parts[i].0.as_str().len());
            capacity = capacity.saturating_add(REASONABLE_INTERPOLATION_PREALLOC_BYTES);
            i = i + 1;
        }
        string_with_capacity(capacity)
    }

    /// Renders this template, taking variable values from `args`.
    /// A variable without a value is replaced with an empty string.
    pub fn render(&self, args: &StringHashMap<String>) -> (out: String)
        ensures
            out@ == spec_render(self@, text_args(args@)),
    {
        let mut output = self.output_string();
        let ghost parts = view_parts(self.parts@);
        let mut i: usize = 0;
        while i < self.parts.len()
            invariant
                parts == view_parts(self.parts@),
                i <= self.parts.len(),
                output@ == render_parts(parts.take(i as int), text_args(args@)),
            decreases self.parts.len() - i,
        {
            proof {
                lemma_view_parts_index(self.parts@, i as int);
                lemma_render_parts_step(parts, text_args(args@), i as int);
            }
            let (raw, interpolation_key) = &self.parts[i];
            push_str(&mut output, raw.as_str());
            match args.get(interpolation_key.as_str()) {
                Some(value) => push_str(&mut output, value.as_str()),
                None => {},
            }
            i = i + 1;
        }
        assert(parts.take(self.parts.len() as int) == parts);
        push_str(&mut output, self.end.as_str());
        output
    }

    /// Renders this template, taking variable values from `args`.
    /// # Errors
    /// When some variable has no value: the error lists every such variable,
    /// in order of use.
    pub fn try_render<'a>(&'a self, args: &StringHashMap<String>) -> (r: Result<
        String,
        RenderError<'a>,
    >)
        ensures
            match r {
                Ok(out) => all_known(self@.parts, args@) && out@ == spec_render(self@, text_args(args@)),
                Err(RenderError::UnknownVariables(vars)) => !all_known(self@.parts, args@)
                    && vars@.map_values(|v: &str| v@) == unknown_keys(self@.parts, args@),
            },
    {
        let mut output = self.output_string();
        let ghost parts = view_parts(self.parts@);
        let mut i: usize = 0;
        while i < self.parts.len()
            invariant
                parts == view_parts(self.parts@),
                i <= self.parts.len(),
                output@ == render_parts(parts.take(i as int), text_args(args@)),
                forall|j: int| 0 <= j < i ==> args@.contains_key(#[trigger] parts[j].1),
            decreases self.parts.len() - i,
        {
            proof {
                lemma_view_parts_index(self.parts@, i as int);
                lemma_render_parts_step(parts, text_args(args@), i as int);
            }
            let (raw, interpolation_key) = &self.parts[i];
            push_str(&mut output, raw.as_str());
            match args.get(interpolation_key.as_str()) {
                Some(value) => push_str(&mut output, value.as_str()),
                None => {
                    return Err(RenderError::UnknownVariables(self.listify_unknown_args(args)));
                },
            }
            i = i + 1;
        }
        assert(parts.take(self.parts.len() as int) == parts);
        push_str(&mut output, self.end.as_str());
        Ok(output)
    }

    /// The variables without a value in `args`, in order of use.
    fn listify_unknown_args<'a, T>(&'a self, args: &StringHashMap<T>) -> (out: Vec<&'a str>)
        ensures
            out@.map_values(|v: &str| v@) == unknown_keys(self@.parts, args@),
    {
        let mut output: Vec<&'a str> = Vec::with_capacity(args.len());
        let ghost parts = view_parts(self.parts@);
        let mut i: usize = 0;
        while i < self.parts.len()
            invariant
                parts == view_parts(self.parts@),
                i <= self.parts.len(),
                output@.map_values(|v: &str| v@) == unknown_keys(parts.take(i as int), args@),
            decreases self.parts.len() - i,
        {
            proof {
                lemma_view_parts_index(self.parts@, i as int);
                lemma_unknown_keys_step(parts, args@, i as int);
            }
            let key = &self.parts[i].1;
            if !args.contains_key(key.as_str()) {
                let ghost before = output@;
                output.push(key.as_str());
                assert(output@.map_values(|v: &str| v@) == before.map_values(|v: &str| v@).push(
                    key@,
                ));
            }
            i = i + 1;
        }
        assert(parts.take(self.parts.len() as int) == parts);
        output
    }

    /// All variables used in this interpolation, in order of use.
    pub fn variables_used(&self) -> (vars: Vec<&str>)
        ensures
            vars@.map_values(|v: &str| v@) == keys_of(self@.parts),
    {
        let mut out: Vec<&str> = Vec::with_capacity(self.parts.len());
        let ghost parts = view_parts(self.parts@);
        let mut i: usize = 0;
        while i < self.parts.len()
            invariant
                parts == view_parts(self.parts@),
                i <= self.parts.len(),
                out@.map_values(|v: &str| v@) == keys_of(parts.take(i as int)),
            decreases self.parts.len() - i,
        {
            proof {
                lemma_view_parts_index(self.parts@, i as int);
            }
            let ghost before = out@;
            out.push(self.parts[i].1.as_str());
            assert(out@.map_values(|v: &str| v@) == before.map_values(|v: &str| v@).push(
                parts[i as int].1,
            ));
            assert(keys_of(parts.take(i + 1)) == keys_of(parts.take(i as int)).push(
                parts[i as int].1,
            ));
            i = i + 1;
        }
        assert(parts.take(self.parts.len() as int) == parts);
        out
    }

    /// Rebuilds source text for this interpolation, escaping `{` and `\` in its
    /// literal text.
    pub fn input_value(&self) -> (s: String)
        ensures
            s@ == spec_print(self@),
    {
        let mut output = self.output_string();
        let ghost parts = view_parts(self.parts@);
        let mut i: usize = 0;
        while i < self.parts.len()
            invariant
                parts == view_parts(self.parts@),
                i <= self.parts.len(),
                output@ == print_parts(parts.take(i as int)),
            decreases self.parts.len() - i,
        {
            proof {
                lemma_view_parts_index(self.parts@, i as int);
                lemma_print_parts_step(parts, i as int);
            }
            let (text, key) = &self.parts[i];
            push_escape(&mut output, text.as_str());
            push_char(&mut output, '{');
            push_str(&mut output, key.as_str());
            push_char(&mut output, '}');
            proof {
                assert(output@ == print_parts(parts.take(i as int)) + escape(parts[i as int].0)
                    + seq!['{'] + parts[i as int].1 + seq!['}']);
            }
            i = i + 1;
        }
        assert(parts.take(self.parts.len() as int) == parts);
        push_escape(&mut output, self.end.as_str());
        output
    }
}

impl ParseError {
    /// The 1-based position that the message names.
    pub open spec fn position(&self) -> usize {
        match self {
            ParseError::UnclosedIdentifier(at) => *at,
            ParseError::InvalidCharInIdentifier(_, at) => *at,
            ParseError::InvalidEscape(_, at) => *at,
            ParseError::UnfinishedEscape(at) => *at,
        }
    }

    /// The message shown for this error.
    pub open spec fn spec_message(&self) -> Seq<char> {
        match self {
            ParseError::UnclosedIdentifier(at) => "Unclosed identifier (mismatched pair at "@
                + decimal(*at as nat + 1) + ")"@,
            ParseError::InvalidCharInIdentifier(c, at) => "Invalid character `"@ + char_debug(*c)
                + "` in identifier at "@ + decimal(*at as nat + 1),
            ParseError::InvalidEscape(c, at) => "`"@ + char_debug(*c) + "` at position "@
                + decimal(*at as nat + 1) + " cannot be escaped, only `{` and `\\` can"@,
            ParseError::UnfinishedEscape(at) => "`\\` at position "@ + decimal(*at as nat + 1)
                + " escapes nothing, only `{` and `\\` can be escaped"@,
        }
    }

    /// The message shown for this error, with a 1-based position.
    pub fn to_string(&self) -> (s: String)
        requires
            self.position() < u64::MAX,
        ensures
            s@ == self.spec_message(),
    {
        let mut s = String::new();
        match self {
            ParseError::UnclosedIdentifier(at) => {
                push_str(&mut s, "Unclosed identifier (mismatched pair at ");
                push_decimal(&mut s, *at as u64 + 1);
                push_str(&mut s, ")");
            },
            ParseError::InvalidCharInIdentifier(c, at) => {
                push_str(&mut s, "Invalid character `");
                push_char_debug(&mut s, *c);
                push_str(&mut s, "` in identifier at ");
                push_decimal(&mut s, *at as u64 + 1);
            },
            ParseError::InvalidEscape(c, at) => {
                push_str(&mut s, "`");
                push_char_debug(&mut s, *c);
                push_str(&mut s, "` at position ");
                push_decimal(&mut s, *at as u64 + 1);
                push_str(&mut s, " cannot be escaped, only `{` and `\\` can");
            },
            ParseError::UnfinishedEscape(at) => {
                push_str(&mut s, "`\\` at position ");
                push_decimal(&mut s, *at as u64 + 1);
                push_str(&mut s, " escapes nothing, only `{` and `\\` can be escaped");
            },
        }
        s
    }
}

/// The list of unknown variables, separated by `, `.
pub open spec fn join_names(names: Seq<Seq<char>>) -> Seq<char>
    decreases names.len(),
{
    if names.len() == 0 {
        Seq::empty()
    } else if names.len() == 1 {
        names[0]
    } else {
        join_names(names.drop_last()) + ", "@ + names.last()
    }
}

impl<'a> RenderError<'a> {
    /// The message shown for this error.
    pub open spec fn spec_message(&self) -> Seq<char> {
        match self {
            RenderError::UnknownVariables(vars) => "Unknown variables used: "@ + join_names(
                vars@.map_values(|v: &str| v@),
            ),
        }
    }

    /// The message shown for this error.
    pub fn to_string(&self) -> (s: String)
        ensures
            s@ == self.spec_message(),
    {
        let mut s = String::new();
        match self {
            RenderError::UnknownVariables(vars) => {
                push_str(&mut s, "Unknown variables used: ");
                let ghost prefix = s@;
                let ghost names = vars@.map_values(|v: &str| v@);
                let mut idx: usize = 0;
                while idx < vars.len()
                    invariant
                        names == vars@.map_values(|v: &str| v@),
                        idx <= vars.len(),
                        s@ == prefix + join_names(names.take(idx as int)),
                    decreases vars.len() - idx,
                {
                    let item = vars[idx];
                    proof {
                        assert(names.take(idx + 1).drop_last() == names.take(idx as int));
                        if idx == 0 {
                            assert(names.take(0) == Seq::<Seq<char>>::empty());
                        }
                    }
                    if idx > 0 {
                        push_str(&mut s, ", ");
                    }
                    push_str(&mut s, item);
                    proof {
                        if idx == 0 {
                            assert(join_names(names.take(1)) == names[0]);
                        }
                        assert(s@ == prefix + join_names(names.take(idx + 1)));
                    }
                    idx = idx + 1;
                }
                assert(names.take(vars.len() as int) == names);
            },
        }
        s
    }
}

// ---------------------------------------------------------------------------
// Compiler
// ---------------------------------------------------------------------------

struct InterpolationCompiler {
    chars: Vec<char>,
    parts: Vec<(String, String)>,
    index: usize,
    next: String,
    escaped: bool,
}

impl InterpolationCompiler {
    spec fn state(&self) -> ParseState {
        if self.escaped {
            ParseState::Escaped
        } else {
            ParseState::Text
        }
    }

    /// What parsing from the compiler's current position yields.
    spec fn rest(&self) -> Result<Template, ParseError> {
        parse_from(self.chars@, self.index as int, view_parts(self.parts@), self.next@, self.state())
    }

    fn compile(input: &str) -> (r: Result<Interpolation, ParseError>)
        ensures
            match r {
                Ok(t) => spec_compile(input@) == Ok::<Template, ParseError>(t@),
                Err(e) => spec_compile(input@) == Err::<Template, ParseError>(e),
            },
    {
        let mut compiler = InterpolationCompiler {
            chars: chars_of(input),
            parts: Vec::new(),
            index: 0,
            next: String::new(),
            escaped: false,
        };
        assert(view_parts(compiler.parts@) == Seq::<(Seq<char>, Seq<char>)>::empty());
        while compiler.index < compiler.chars.len()
            invariant
                compiler.chars@ == input@,
                compiler.index <= compiler.chars.len(),
                compiler.rest() == spec_compile(input@),
                compiler.escaped ==> compiler.index > 0,
            decreases compiler.chars.len() - compiler.index,
        {
            let character = compiler.chars[compiler.index];
            let step = compiler.handle_char(character);
            match step {
                Ok(()) => {},
                Err(e) => {
                    return Err(e);
                },
            }
        }
        if compiler.escaped {
            return Err(ParseError::UnfinishedEscape(compiler.index - 1));
        }
        compiler.shrink();
        proof {
            assert(compiler.rest() == Ok::<Template, ParseError>(
                Template { parts: view_parts(compiler.parts@), end: compiler.next@ },
            ));
        }
        Ok(Interpolation { parts: compiler.parts, end: compiler.next })
    }

    fn handle_char(&mut self, ch: char) -> (r: Result<(), ParseError>)
        requires
            old(self).index < old(self).chars.len(),
            ch == old(self).chars@[old(self).index as int],
        ensures
            final(self).chars@ == old(self).chars@,
            match r {
                Ok(()) => final(self).rest() == old(self).rest() && final(self).index
                    > old(self).index && final(self).index <= final(self).chars.len(),
                Err(e) => old(self).rest() == Err::<Template, ParseError>(e),
            },
    {
        if self.escaped && ch != '{' && ch != '\\' {
            return Err(ParseError::InvalidEscape(ch, self.index));
        } else if self.escaped {
            push_char(&mut self.next, ch);
            self.escaped = false;
        } else if ch == '\\' {
            self.escaped = true;
        } else if ch == '{' {
            self.index = self.index + 1;
            let mut ident = match self.make_identifier() {
                Ok(ident) => ident,
                Err(e) => {
                    return Err(e);
                },
            };
            let mut to_push = String::new();
            std::mem::swap(&mut to_push, &mut self.next);
            shrink_string(&mut ident);
            shrink_string(&mut to_push);
            let ghost old_parts = self.parts@;
            self.parts.push((to_push, ident));
            proof {
                assert(view_parts(self.parts@) == view_parts(old_parts).push((to_push@, ident@)));
            }
        } else {
            push_char(&mut self.next, ch);
        }
        self.index = self.index + 1;
        Ok(())
    }

    #[inline]
    fn valid_ident_char(ch: char) -> (r: bool)
        ensures
            r == is_ident_char(ch),
    {
        ('A' <= ch && ch <= 'Z') || ('a' <= ch && ch <= 'z') || ('0' <= ch && ch <= '9') || ch
            == '_' || ch == '-'
    }

    /// Reads a variable name up to (not past) its closing `}`.
    fn make_identifier(&mut self) -> (r: Result<String, ParseError>)
        requires
            !old(self).escaped,
            old(self).index >= 1,
            old(self).index <= old(self).chars.len(),
        ensures
            final(self).chars@ == old(self).chars@,
            final(self).parts@ == old(self).parts@,
            final(self).next@ == old(self).next@,
            final(self).escaped == old(self).escaped,
            match r {
                Ok(ident) => {
                    &&& final(self).index < final(self).chars.len()
                    &&& final(self).index >= old(self).index
                    &&& final(self).chars@[final(self).index as int] == '}'
                    &&& parse_from(
                        old(self).chars@,
                        old(self).index as int,
                        view_parts(old(self).parts@),
                        old(self).next@,
                        ParseState::Ident { start: old(self).index as int, name: Seq::empty() },
                    ) == parse_from(
                        old(self).chars@,
                        final(self).index + 1,
                        view_parts(old(self).parts@).push((old(self).next@, ident@)),
                        Seq::empty(),
                        ParseState::Text,
                    )
                },
                Err(e) => parse_from(
                    old(self).chars@,
                    old(self).index as int,
                    view_parts(old(self).parts@),
                    old(self).next@,
                    ParseState::Ident { start: old(self).index as int, name: Seq::empty() },
                ) == Err::<Template, ParseError>(e),
            },
    {
        let mut identifier = String::new();
        let start = self.index;
        let ghost parts = view_parts(self.parts@);
        let ghost next = self.next@;
        let ghost whole = parse_from(
            self.chars@,
            start as int,
            parts,
            next,
            ParseState::Ident { start: start as int, name: Seq::empty() },
        );
        assert(identifier@ == Seq::<char>::empty());
        loop
            invariant
                whole == parse_from(
                    old(self).chars@,
                    old(self).index as int,
                    view_parts(old(self).parts@),
                    old(self).next@,
                    ParseState::Ident { start: old(self).index as int, name: Seq::empty() },
                ),
                self.chars@ == old(self).chars@,
                self.parts@ == old(self).parts@,
                self.next@ == old(self).next@,
                self.escaped == old(self).escaped,
                start == old(self).index,
                start <= self.index <= self.chars.len(),
                parts == view_parts(self.parts@),
                next == self.next@,
                whole == parse_from(
                    self.chars@,
                    self.index as int,
                    parts,
                    next,
                    ParseState::Ident { start: start as int, name: identifier@ },
                ),
            decreases self.chars.len() - self.index,
        {
            if self.index >= self.chars.len() {
                return Err(ParseError::UnclosedIdentifier(start));
            }
            let identifier_part = self.chars[self.index];
            if identifier_part == '}' {
                return Ok(identifier);
            }
            if !Self::valid_ident_char(identifier_part) {
                return Err(ParseError::InvalidCharInIdentifier(identifier_part, self.index));
            }
            push_char(&mut identifier, identifier_part);
            self.index = self.index + 1;
        }
    }

    fn shrink(&mut self)
        ensures
            final(self).chars@ == old(self).chars@,
            final(self).index == old(self).index,
            final(self).escaped == old(self).escaped,
            final(self).next@ == old(self).next@,
            view_parts(final(self).parts@) == view_parts(old(self).parts@),
    {
        let mut i: usize = 0;
        while i < self.parts.len()
            invariant
                self.chars@ == old(self).chars@,
                self.index == old(self).index,
                self.escaped == old(self).escaped,
                self.next@ == old(self).next@,
                i <= self.parts.len(),
                view_parts(self.parts@) == view_parts(old(self).parts@),
            decreases self.parts.len() - i,
        {
            let ghost before = self.parts@;
            let mut a = String::new();
            let mut b = String::new();
            std::mem::swap(&mut a, &mut self.parts[i].0);
            std::mem::swap(&mut b, &mut self.parts[i].1);
            shrink_string(&mut a);
            shrink_string(&mut b);
            self.parts.set(i, (a, b));
            proof {
                assert(view_parts(self.parts@) == view_parts(before));
            }
            i = i + 1;
        }
        shrink_string(&mut self.next);
    }
}

} // verus!
