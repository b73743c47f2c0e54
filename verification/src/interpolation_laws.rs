//! Laws of the interpolation format: source text and templates convert back and
//! forth without loss.
use vstd::prelude::*;
use crate::interpolation::{
    ParseState, Template, parse_from, spec_compile, escape, print_parts, spec_print,
    is_ident_char, ParseError, all_known, unknown_keys, keys_of, lookup, render_parts, spec_render,
};

verus! {

/// A variable name made only of allowed characters.
pub open spec fn valid_key(k: Seq<char>) -> bool {
    forall|j: int| 0 <= j < k.len() ==> is_ident_char(#[trigger] k[j])
}

/// Every variable name of the template is made of allowed characters.
pub open spec fn well_formed(t: Template) -> bool {
    forall|i: int| 0 <= i < t.parts.len() ==> valid_key(#[trigger] t.parts[i].1)
}

spec fn escape_piece(c: char) -> Seq<char> {
    if c == '{' || c == '\\' {
        seq!['\\', c]
    } else {
        seq![c]
    }
}

/// What the source read so far looks like, given the parser's state.
spec fn printed_prefix(
    parts: Seq<(Seq<char>, Seq<char>)>,
    next: Seq<char>,
    state: ParseState,
) -> Seq<char> {
    print_parts(parts) + escape(next) + match state {
        ParseState::Text => Seq::empty(),
        ParseState::Escaped => seq!['\\'],
        ParseState::Ident { start, name } => seq!['{'] + name,
    }
}

spec fn state_ok(parts: Seq<(Seq<char>, Seq<char>)>, state: ParseState) -> bool {
    &&& forall|k: int| 0 <= k < parts.len() ==> valid_key(#[trigger] parts[k].1)
    &&& match state {
        ParseState::Ident { start, name } => valid_key(name),
        _ => true,
    }
}

proof fn lemma_escape_push(next: Seq<char>, c: char)
    ensures
        escape(next.push(c)) == escape(next) + escape_piece(c),
{
    assert(next.push(c).drop_last() == next);
}

proof fn lemma_print_parts_push(parts: Seq<(Seq<char>, Seq<char>)>, p: (Seq<char>, Seq<char>))
    ensures
        print_parts(parts.push(p)) == print_parts(parts) + escape(p.0) + seq!['{'] + p.1 + seq![
            '}',
        ],
{
    assert(parts.push(p).drop_last() == parts);
}

proof fn lemma_parse_prints_back(
    chars: Seq<char>,
    i: int,
    parts: Seq<(Seq<char>, Seq<char>)>,
    next: Seq<char>,
    state: ParseState,
)
    requires
        0 <= i <= chars.len(),
        chars.take(i) == printed_prefix(parts, next, state),
        state_ok(parts, state),
        parse_from(chars, i, parts, next, state) is Ok,
    ensures
        ({
            let t = parse_from(chars, i, parts, next, state)->Ok_0;
            &&& chars == spec_print(t)
            &&& well_formed(t)
        }),
    decreases chars.len() - i,
{
    if i == chars.len() {
        assert(chars.take(i) == chars);
    } else {
        let c = chars[i];
        assert(chars.take(i + 1) == chars.take(i).push(c));
        match state {
            ParseState::Escaped => {
                lemma_escape_push(next, c);
                assert(escape_piece(c) == seq!['\\', c]);
                assert(chars.take(i + 1) =~= printed_prefix(parts, next.push(c), ParseState::Text));
                lemma_parse_prints_back(chars, i + 1, parts, next.push(c), ParseState::Text);
            },
            ParseState::Text => {
                if c == '\\' {
                    lemma_parse_prints_back(chars, i + 1, parts, next, ParseState::Escaped);
                } else if c == '{' {
                    assert(seq!['{'] + Seq::<char>::empty() == seq!['{']);
                    lemma_parse_prints_back(
                        chars,
                        i + 1,
                        parts,
                        next,
                        ParseState::Ident { start: i + 1, name: Seq::empty() },
                    );
                } else {
                    lemma_escape_push(next, c);
                    assert(escape_piece(c) == seq![c]);
                    assert(chars.take(i + 1) =~= printed_prefix(parts, next.push(c), ParseState::Text));
                    lemma_parse_prints_back(chars, i + 1, parts, next.push(c), ParseState::Text);
                }
            },
            ParseState::Ident { start, name } => {
                if c == '}' {
                    lemma_print_parts_push(parts, (next, name));
                    assert(escape(Seq::<char>::empty()) == Seq::<char>::empty());
                    let np = parts.push((next, name));
                    assert forall|k: int| 0 <= k < np.len() implies valid_key(#[trigger] np[k].1) by {
                        if k < parts.len() {
                            assert(np[k] == parts[k]);
                        }
                    }
                    assert(chars.take(i + 1) =~= printed_prefix(np, Seq::empty(), ParseState::Text));
                    lemma_parse_prints_back(chars, i + 1, np, Seq::empty(), ParseState::Text);
                } else {
                    let nn = name.push(c);
                    assert(valid_key(nn)) by {
                        assert forall|j: int| 0 <= j < nn.len() implies is_ident_char(
                            #[trigger] nn[j],
                        ) by {
                            if j < name.len() {
                                assert(nn[j] == name[j]);
                            }
                        }
                    }
                    lemma_parse_prints_back(
                        chars,
                        i + 1,
                        parts,
                        next,
                        ParseState::Ident { start, name: nn },
                    );
                }
            },
        }
    }
}

/// Every template that parses has well-formed variable names, and writing it back
/// reproduces its source exactly.
pub proof fn law_print_after_parse(s: Seq<char>)
    requires
        spec_compile(s) is Ok,
    ensures
        well_formed(spec_compile(s)->Ok_0),
        s == spec_print(spec_compile(s)->Ok_0),
{
    assert(s.take(0) == Seq::<char>::empty());
    assert(print_parts(Seq::empty()) == Seq::<char>::empty());
    assert(escape(Seq::<char>::empty()) == Seq::<char>::empty());
    lemma_parse_prints_back(s, 0, Seq::empty(), Seq::empty(), ParseState::Text);
}

proof fn lemma_parse_escaped_text(
    chars: Seq<char>,
    p: int,
    parts: Seq<(Seq<char>, Seq<char>)>,
    next: Seq<char>,
    t: Seq<char>,
)
    requires
        0 <= p,
        p + escape(t).len() <= chars.len(),
        chars.subrange(p, p + escape(t).len()) == escape(t),
    ensures
        parse_from(chars, p, parts, next, ParseState::Text) == parse_from(
            chars,
            p + escape(t).len(),
            parts,
            next + t,
            ParseState::Text,
        ),
    decreases t.len(),
{
    if t.len() == 0 {
        assert(next + t == next);
    } else {
        let u = t.drop_last();
        let c = t.last();
        assert(t == u.push(c));
        lemma_escape_push(u, c);
        let eu = escape(u);
        let q = p + eu.len();
        assert(chars.subrange(p, q) == chars.subrange(p, p + escape(t).len()).subrange(0, eu.len() as int));
        assert(escape(t).subrange(0, eu.len() as int) == eu);
        lemma_parse_escaped_text(chars, p, parts, next, u);
        let piece = escape_piece(c);
        assert(escape(t) == eu + piece);
        assert(chars[q] == chars.subrange(p, p + escape(t).len())[eu.len() as int]);
        assert(chars[q] == piece[0]);
        assert((next + u).push(c) == next + t);
        if c == '{' || c == '\\' {
            assert(chars[q + 1] == chars.subrange(p, p + escape(t).len())[eu.len() as int + 1]);
            assert(chars[q + 1] == piece[1]);
            assert(parse_from(chars, q, parts, next + u, ParseState::Text) == parse_from(
                chars,
                q + 1,
                parts,
                next + u,
                ParseState::Escaped,
            ));
            assert(parse_from(chars, q + 1, parts, next + u, ParseState::Escaped) == parse_from(
                chars,
                q + 2,
                parts,
                (next + u).push(c),
                ParseState::Text,
            ));
        } else {
            assert(parse_from(chars, q, parts, next + u, ParseState::Text) == parse_from(
                chars,
                q + 1,
                parts,
                (next + u).push(c),
                ParseState::Text,
            ));
        }
    }
}

proof fn lemma_parse_key(
    chars: Seq<char>,
    p: int,
    parts: Seq<(Seq<char>, Seq<char>)>,
    next: Seq<char>,
    start: int,
    name: Seq<char>,
    k: Seq<char>,
)
    requires
        0 <= p,
        p + k.len() < chars.len(),
        chars.subrange(p, p + k.len()) == k,
        chars[p + k.len()] == '}',
        valid_key(k),
    ensures
        parse_from(chars, p, parts, next, ParseState::Ident { start, name }) == parse_from(
            chars,
            p + k.len() + 1,
            parts.push((next, name + k)),
            Seq::empty(),
            ParseState::Text,
        ),
    decreases k.len(),
{
    if k.len() == 0 {
        assert(name + k == name);
    } else {
        let k0 = k[0];
        let rest = k.drop_first();
        assert(chars[p] == chars.subrange(p, p + k.len())[0]);
        assert(is_ident_char(k[0]));
        assert(chars.subrange(p + 1, p + 1 + rest.len()) == rest);
        assert(valid_key(rest)) by {
            assert forall|j: int| 0 <= j < rest.len() implies is_ident_char(#[trigger] rest[j]) by {
                assert(rest[j] == k[j + 1]);
            }
        }
        lemma_parse_key(chars, p + 1, parts, next, start, name.push(k0), rest);
        assert(name.push(k0) + rest == name + k);
    }
}

proof fn lemma_parse_printed_parts(chars: Seq<char>, parts: Seq<(Seq<char>, Seq<char>)>)
    requires
        print_parts(parts).len() <= chars.len(),
        chars.subrange(0, print_parts(parts).len() as int) == print_parts(parts),
        forall|i: int| 0 <= i < parts.len() ==> valid_key(#[trigger] parts[i].1),
    ensures
        parse_from(chars, 0, Seq::empty(), Seq::empty(), ParseState::Text) == parse_from(
            chars,
            print_parts(parts).len() as int,
            parts,
            Seq::empty(),
            ParseState::Text,
        ),
    decreases parts.len(),
{
    if parts.len() > 0 {
        let init = parts.drop_last();
        let last = parts.last();
        assert(parts == init.push(last));
        lemma_print_parts_push(init, last);
        let pi = print_parts(init);
        let el = escape(last.0);
        assert(chars.subrange(0, pi.len() as int) == print_parts(parts).subrange(0, pi.len() as int));
        assert(print_parts(parts).subrange(0, pi.len() as int) =~= pi);
        assert forall|i: int| 0 <= i < init.len() implies valid_key(#[trigger] init[i].1) by {
            assert(init[i] == parts[i]);
        }
        lemma_parse_printed_parts(chars, init);
        let q = pi.len() as int;
        let pp = print_parts(parts);
        let k = last.1;
        assert(pp == pi + el + seq!['{'] + k + seq!['}']);
        assert(chars.subrange(q, q + el.len()) == pp.subrange(q, q + el.len()));
        assert(pp.subrange(q, q + el.len()) =~= el);
        lemma_parse_escaped_text(chars, q, init, Seq::empty(), last.0);
        assert(Seq::<char>::empty() + last.0 == last.0);
        let r = q + el.len();
        assert(chars[r] == print_parts(parts)[r]);
        assert(chars[r] == '{');
        assert(chars.subrange(r + 1, r + 1 + k.len()) == print_parts(parts).subrange(
            r + 1,
            r + 1 + k.len(),
        ));
        assert(pp.subrange(r + 1, r + 1 + k.len()) =~= k);
        assert(chars[r + 1 + k.len()] == print_parts(parts)[r + 1 + k.len()]);
        assert(valid_key(k));
        assert(parse_from(chars, r, init, last.0, ParseState::Text) == parse_from(
            chars,
            r + 1,
            init,
            last.0,
            ParseState::Ident { start: r + 1, name: Seq::empty() },
        ));
        lemma_parse_key(chars, r + 1, init, last.0, r + 1, Seq::empty(), k);
        assert(Seq::<char>::empty() + k == k);
        assert((last.0, k) == last);
        assert(init.push((last.0, k)) == parts);
        assert(r + 1 + k.len() + 1 == pp.len());
    } else {
        assert(parts == Seq::<(Seq<char>, Seq<char>)>::empty());
    }
}

/// Parsing the written form of a well-formed template gives back the template.
pub proof fn law_parse_after_print(t: Template)
    requires
        well_formed(t),
    ensures
        spec_compile(spec_print(t)) == Ok::<Template, ParseError>(t),
{
    let s = spec_print(t);
    let pp = print_parts(t.parts);
    assert(s.subrange(0, pp.len() as int) == pp);
    lemma_parse_printed_parts(s, t.parts);
    assert(s.subrange(pp.len() as int, pp.len() as int + escape(t.end).len() as int) == escape(t.end));
    lemma_parse_escaped_text(s, pp.len() as int, t.parts, Seq::empty(), t.end);
    assert(Seq::<char>::empty() + t.end == t.end);
}

/// Every variable has a value exactly when no variable is left unknown.
pub proof fn law_unknown_keys_empty<V>(parts: Seq<(Seq<char>, Seq<char>)>, args: Map<Seq<char>, V>)
    ensures
        all_known(parts, args) <==> unknown_keys(parts, args).len() == 0,
    decreases parts.len(),
{
    if parts.len() > 0 {
        let init = parts.drop_last();
        law_unknown_keys_empty(init, args);
        if all_known(parts, args) {
            assert forall|i: int| 0 <= i < init.len() implies args.contains_key(
                #[trigger] init[i].1,
            ) by {
                assert(init[i] == parts[i]);
            }
            assert(args.contains_key(parts[parts.len() - 1].1));
        } else if unknown_keys(parts, args).len() == 0 {
            assert(args.contains_key(parts.last().1));
            assert forall|i: int| 0 <= i < parts.len() implies args.contains_key(
                #[trigger] parts[i].1,
            ) by {
                if i < init.len() {
                    assert(init[i] == parts[i]);
                }
            }
        }
    }
}


/// `args` with an empty value for each of `keys` that has none.
pub open spec fn with_empty_for_missing(
    args: Map<Seq<char>, Seq<char>>,
    keys: Seq<Seq<char>>,
) -> Map<Seq<char>, Seq<char>> {
    Map::new(
        |k: Seq<char>| args.contains_key(k) || keys.contains(k),
        |k: Seq<char>|
            if args.contains_key(k) {
                args[k]
            } else {
                Seq::empty()
            },
    )
}

/// Holds of the keys that have no value in `args`.
pub open spec fn missing_from<V>(args: Map<Seq<char>, V>) -> spec_fn(Seq<char>) -> bool {
    |k: Seq<char>| !args.contains_key(k)
}

proof fn lemma_keys_of_drop_last(parts: Seq<(Seq<char>, Seq<char>)>)
    requires
        parts.len() > 0,
    ensures
        keys_of(parts).drop_last() == keys_of(parts.drop_last()),
        keys_of(parts).last() == parts.last().1,
        keys_of(parts).len() == parts.len(),
{
    assert(keys_of(parts).drop_last() =~= keys_of(parts.drop_last()));
}

/// Rendering reads only the variables a template uses: two argument maps that
/// give each used variable the same value (no value counting as empty) render
/// the same text.
pub proof fn law_render_reads_used_keys(
    t: Template,
    a: Map<Seq<char>, Seq<char>>,
    b: Map<Seq<char>, Seq<char>>,
)
    requires
        forall|i: int| 0 <= i < t.parts.len() ==> lookup(a, #[trigger] t.parts[i].1) == lookup(
            b,
            t.parts[i].1,
        ),
    ensures
        spec_render(t, a) == spec_render(t, b),
{
    lemma_render_parts_same(t.parts, a, b);
}

proof fn lemma_render_parts_same(
    parts: Seq<(Seq<char>, Seq<char>)>,
    a: Map<Seq<char>, Seq<char>>,
    b: Map<Seq<char>, Seq<char>>,
)
    requires
        forall|i: int| 0 <= i < parts.len() ==> lookup(a, #[trigger] parts[i].1) == lookup(
            b,
            parts[i].1,
        ),
    ensures
        render_parts(parts, a) == render_parts(parts, b),
    decreases parts.len(),
{
    if parts.len() > 0 {
        let init = parts.drop_last();
        assert forall|i: int| 0 <= i < init.len() implies lookup(a, #[trigger] init[i].1) == lookup(
            b,
            init[i].1,
        ) by {
            assert(init[i] == parts[i]);
        }
        lemma_render_parts_same(init, a, b);
        assert(parts.last() == parts[parts.len() - 1]);
    }
}

/// Rendering with missing variables is rendering with an empty value supplied
/// for each of them: with those values every variable is known, and the text
/// is the same.
pub proof fn law_render_fills_missing(t: Template, args: Map<Seq<char>, Seq<char>>)
    ensures
        all_known(t.parts, with_empty_for_missing(args, keys_of(t.parts))),
        spec_render(t, with_empty_for_missing(args, keys_of(t.parts))) == spec_render(t, args),
{
    let full = with_empty_for_missing(args, keys_of(t.parts));
    assert forall|i: int| 0 <= i < t.parts.len() implies full.contains_key(#[trigger] t.parts[i].1)
        by {
        assert(keys_of(t.parts)[i] == t.parts[i].1);
        assert(keys_of(t.parts).contains(t.parts[i].1));
    }
    law_render_reads_used_keys(t, full, args);
}

/// The unknown variables are the used ones without a value, in order of use,
/// repeats kept.
pub proof fn law_unknown_keys_are_missing_used<V>(
    parts: Seq<(Seq<char>, Seq<char>)>,
    args: Map<Seq<char>, V>,
)
    ensures
        unknown_keys(parts, args) == keys_of(parts).filter(missing_from(args)),
    decreases parts.len(),
{
    if parts.len() == 0 {
        assert(keys_of(parts) =~= Seq::<Seq<char>>::empty());
        assert(keys_of(parts).filter(missing_from(args)) =~= Seq::<Seq<char>>::empty()) by {
            reveal(Seq::filter);
        }
    } else {
        law_unknown_keys_are_missing_used(parts.drop_last(), args);
        lemma_keys_of_drop_last(parts);
        reveal(Seq::filter);
    }
}

} // verus!
