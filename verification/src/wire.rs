//! The request side of the wire protocol: one line of tokens joined by the
//! unit separator, terminated by a newline.
//!
//! The unit separator (ASCII 0x1F) is chosen because directory and module
//! paths may contain spaces or other printable delimiters but never this
//! control character, so splitting the encoded line on it recovers the
//! original token list exactly.

use vstd::prelude::*;
use vstd::string::StringExecFns;
use crate::paths::{join_of, join_path};

verus! {

/// The unit separator character (ASCII 0x1F) that joins request tokens.
pub open spec fn unit_separator() -> char {
    '\u{1f}'
}

/// Holds when no character of `s` is the unit separator.
pub open spec fn us_free(s: Seq<char>) -> bool {
    forall|i: int| 0 <= i < s.len() ==> s[i] != unit_separator()
}

/// The index of the first unit separator in `s`, or -1 when there is none.
pub open spec fn first_us(s: Seq<char>) -> int
    decreases s.len(),
{
    if s.len() == 0 {
        -1
    } else if s[0] == unit_separator() {
        0
    } else if first_us(s.drop_first()) < 0 {
        -1
    } else {
        1 + first_us(s.drop_first())
    }
}

proof fn lemma_first_us_bounds(s: Seq<char>)
    ensures
        -1 <= first_us(s) < s.len(),
        first_us(s) >= 0 ==> s[first_us(s)] == unit_separator(),
        forall|i: int| 0 <= i < first_us(s) ==> s[i] != unit_separator(),
        first_us(s) == -1 ==> us_free(s),
    decreases s.len(),
{
    if s.len() == 0 {
    } else if s[0] == unit_separator() {
    } else {
        lemma_first_us_bounds(s.drop_first());
        let rest = s.drop_first();
        if first_us(rest) < 0 {
            assert forall|i: int| 0 <= i < s.len() implies s[i] != unit_separator() by {
                if i > 0 {
                    assert(s[i] == rest[i - 1]);
                }
            }
        } else {
            assert forall|i: int| 0 <= i < first_us(s) implies s[i] != unit_separator() by {
                if i > 0 {
                    assert(s[i] == rest[i - 1]);
                }
            }
        }
    }
}

/// A unit-separator-free sequence has no first separator.
proof fn lemma_us_free_no_first(s: Seq<char>)
    requires
        us_free(s),
    ensures
        first_us(s) == -1,
{
    lemma_first_us_bounds(s);
    if first_us(s) >= 0 {
        assert(s[first_us(s)] == unit_separator());
        assert(false);
    }
}

/// The token list joined by the unit separator: the tokens in order, one
/// separator between each neighbouring pair.
pub open spec fn join_us(tokens: Seq<Seq<char>>) -> Seq<char>
    decreases tokens.len(),
{
    if tokens.len() == 0 {
        Seq::empty()
    } else if tokens.len() == 1 {
        tokens[0]
    } else {
        tokens[0] + seq![unit_separator()] + join_us(tokens.drop_first())
    }
}

/// `s` split on the unit separator: the maximal separator-free pieces, in
/// order, one more piece than there are separators.
pub open spec fn split_us(s: Seq<char>) -> Seq<Seq<char>>
    decreases s.len(),
    via split_us_decreases
{
    if first_us(s) < 0 {
        seq![s]
    } else {
        seq![s.take(first_us(s))] + split_us(s.skip(first_us(s) + 1))
    }
}

#[via_fn]
proof fn split_us_decreases(s: Seq<char>) {
    lemma_first_us_bounds(s);
}

/// Appending one token to a joined list appends one separator and the token.
proof fn lemma_join_us_push(tokens: Seq<Seq<char>>, t: Seq<char>)
    ensures
        tokens.len() == 0 ==> join_us(tokens.push(t)) == t,
        tokens.len() > 0 ==> join_us(tokens.push(t)) == join_us(tokens) + seq![unit_separator()]
            + t,
    decreases tokens.len(),
{
    let p = tokens.push(t);
    if tokens.len() == 0 {
        assert(p.len() == 1);
        assert(p[0] == t);
    } else if tokens.len() == 1 {
        assert(p.len() == 2);
        assert(p[0] == tokens[0]);
        assert(p.drop_first() =~= seq![t]);
        assert(join_us(p.drop_first()) == t);
    } else {
        lemma_join_us_push(tokens.drop_first(), t);
        assert(p.drop_first() =~= tokens.drop_first().push(t));
        assert(p[0] == tokens[0]);
        assert(join_us(p) == tokens[0] + seq![unit_separator()] + join_us(
            tokens.drop_first().push(t),
        ));
        assert(join_us(tokens) + seq![unit_separator()] + t =~= tokens[0] + seq![
            unit_separator(),
        ] + (join_us(tokens.drop_first()) + seq![unit_separator()] + t));
    }
}

/// The first separator of `a + [separator] + b` is right after `a`, when
/// `a` itself is separator-free.
proof fn lemma_first_us_at_seam(a: Seq<char>, b: Seq<char>)
    requires
        us_free(a),
    ensures
        first_us(a + seq![unit_separator()] + b) == a.len(),
    decreases a.len(),
{
    let s = a + seq![unit_separator()] + b;
    if a.len() == 0 {
        assert(s[0] == unit_separator());
    } else {
        assert(s[0] == a[0]);
        assert(s[0] != unit_separator());
        assert(s.drop_first() =~= a.drop_first() + seq![unit_separator()] + b);
        assert(us_free(a.drop_first())) by {
            assert forall|i: int| 0 <= i < a.drop_first().len() implies a.drop_first()[i]
                != unit_separator() by {
                assert(a.drop_first()[i] == a[i + 1]);
            }
        }
        lemma_first_us_at_seam(a.drop_first(), b);
    }
}

/// Round-trip law: joining any non-empty list of separator-free tokens with
/// the unit separator and splitting the result on it recovers the original
/// ordered token list exactly.
pub proof fn lemma_split_recovers_join(tokens: Seq<Seq<char>>)
    requires
        tokens.len() > 0,
        forall|i: int| 0 <= i < tokens.len() ==> us_free(#[trigger] tokens[i]),
    ensures
        split_us(join_us(tokens)) == tokens,
    decreases tokens.len(),
{
    if tokens.len() == 1 {
        lemma_us_free_no_first(tokens[0]);
        assert(split_us(join_us(tokens)) =~= tokens);
    } else {
        let rest = join_us(tokens.drop_first());
        let s = tokens[0] + seq![unit_separator()] + rest;
        lemma_first_us_at_seam(tokens[0], rest);
        assert(s.take(tokens[0].len() as int) =~= tokens[0]);
        assert(s.skip(tokens[0].len() as int + 1) =~= rest);
        assert forall|i: int|
            0 <= i < tokens.drop_first().len() implies us_free(
            #[trigger] tokens.drop_first()[i],
        ) by {
            assert(tokens.drop_first()[i] == tokens[i + 1]);
        }
        lemma_split_recovers_join(tokens.drop_first());
        assert(split_us(s) =~= seq![tokens[0]] + tokens.drop_first());
        assert(seq![tokens[0]] + tokens.drop_first() =~= tokens);
    }
}

/// Joins the tokens with the unit separator.
pub fn join_tokens(tokens: &Vec<String>) -> (r: String)
    ensures
        r@ == join_us(tokens.deep_view()),
{
    let ghost all = tokens.deep_view();
    let mut r = String::new();
    let mut i: usize = 0;
    while i < tokens.len()
        invariant
            i <= tokens.len(),
            all == tokens.deep_view(),
            all.len() == tokens.len(),
            r@ == join_us(all.take(i as int)),
        decreases tokens.len() - i,
    {
        proof {
            reveal_strlit("\u{1f}");
            assert(all[i as int] == tokens@[i as int]@);
            assert(all.take(i as int).push(all[i as int]) =~= all.take(i as int + 1));
            lemma_join_us_push(all.take(i as int), all[i as int]);
            assert("\u{1f}"@ =~= seq![unit_separator()]);
        }
        if i > 0 {
            r.append("\u{1f}");
        }
        r.append(tokens[i].as_str());
        i += 1;
    }
    proof {
        assert(all.take(i as int) =~= all);
    }
    r
}

/// The ordered token list of one compile request: `--lib`, the library
/// directory, `--out`, the `ebin` directory under the output directory, and
/// then one artifact path per module, each resolved inside the artifact
/// directory under the output directory.
pub open spec fn request_tokens(
    out: Seq<char>,
    lib: Seq<char>,
    artefact_dir: Seq<char>,
    modules: Seq<Seq<char>>,
) -> Seq<Seq<char>> {
    seq!["--lib"@, lib, "--out"@, join_of(out, "ebin"@)] + modules.map_values(
        |m: Seq<char>| join_of(join_of(out, artefact_dir), m),
    )
}

/// Encodes one compile request as the unit-separator-joined token list.
///
/// Module artifact paths are taken in the order given, so the encoding is
/// deterministic for one argument list. When no input contains the unit
/// separator, splitting the encoding on it recovers the token list exactly.
pub fn encode_request(
    out: &str,
    lib: &str,
    artefact_dir: &str,
    modules: &Vec<String>,
) -> (r: String)
    ensures
        r@ == join_us(request_tokens(out@, lib@, artefact_dir@, modules.deep_view())),
        us_free(out@) && us_free(lib@) && us_free(artefact_dir@) && (forall|i: int|
            0 <= i < modules.len() ==> us_free(#[trigger] modules.deep_view()[i])) ==> split_us(
            r@,
        ) == request_tokens(out@, lib@, artefact_dir@, modules.deep_view()),
{
    let ghost rt = request_tokens(out@, lib@, artefact_dir@, modules.deep_view());
    let ghost inputs_free = us_free(out@) && us_free(lib@) && us_free(artefact_dir@) && (forall|
        j: int,
    |
        0 <= j < modules.len() ==> us_free(#[trigger] modules.deep_view()[j]));
    let mut tokens: Vec<String> = Vec::new();
    tokens.push(String::from_str("--lib"));
    tokens.push(String::from_str(lib));
    tokens.push(String::from_str("--out"));
    let ebin = join_path(out, "ebin");
    proof {
        reveal_strlit("--lib");
        reveal_strlit("--out");
        reveal_strlit("ebin");
        assert(us_free("--lib"@));
        assert(us_free("--out"@));
        assert(us_free("ebin"@));
        assert(inputs_free ==> us_free(ebin@));
    }
    tokens.push(ebin);
    let base = join_path(out, artefact_dir);
    let mut i: usize = 0;
    proof {
        assert(tokens.deep_view() =~= rt.take(4 + i as int));
    }
    while i < modules.len()
        invariant
            i <= modules.len(),
            rt == request_tokens(out@, lib@, artefact_dir@, modules.deep_view()),
            rt.len() == 4 + modules.len(),
            inputs_free == (us_free(out@) && us_free(lib@) && us_free(artefact_dir@) && (forall|
                j: int,
            |
                0 <= j < modules.len() ==> us_free(#[trigger] modules.deep_view()[j]))),
            base@ == join_of(out@, artefact_dir@),
            us_free(out@) && us_free(artefact_dir@) ==> us_free(base@),
            tokens.deep_view() == rt.take(4 + i as int),
            inputs_free ==> (forall|j: int|
                0 <= j < 4 + i ==> us_free(#[trigger] rt.take(4 + i as int)[j])),
        decreases modules.len() - i,
    {
        proof {
            assert(modules.deep_view()[i as int] == modules@[i as int]@);
        }
        let entry = join_path(base.as_str(), modules[i].as_str());
        proof {
            assert(entry@ == rt[4 + i as int]);
            assert(tokens.deep_view().push(entry@) =~= rt.take(4 + i as int + 1));
        }
        let ghost before = tokens.deep_view();
        tokens.push(entry);
        proof {
            assert(tokens.deep_view() =~= before.push(entry@));
            if inputs_free {
                assert(us_free(modules.deep_view()[i as int]));
                assert(us_free(entry@));
                assert forall|j: int| 0 <= j < 4 + i + 1 implies us_free(
                    #[trigger] rt.take(4 + i as int + 1)[j],
                ) by {
                    if j < 4 + i {
                        assert(rt.take(4 + i as int + 1)[j] == rt.take(4 + i as int)[j]);
                    } else {
                        assert(rt.take(4 + i as int + 1)[j] == entry@);
                    }
                }
            }
        }
        i += 1;
    }
    proof {
        assert(tokens.deep_view() =~= rt);
    }
    let r = join_tokens(&tokens);
    proof {
        if inputs_free {
            assert(rt.take(4 + i as int) =~= rt);
            assert forall|j: int| 0 <= j < rt.len() implies us_free(#[trigger] rt[j]) by {
                assert(rt[j] == rt.take(4 + i as int)[j]);
            }
            lemma_split_recovers_join(rt);
        }
    }
    r
}

/// Encodes one compile request and terminates it with the newline that ends
/// a request line on the wire.
pub fn request_line(out: &str, lib: &str, artefact_dir: &str, modules: &Vec<String>) -> (r: String)
    ensures
        r@ == join_us(request_tokens(out@, lib@, artefact_dir@, modules.deep_view())) + "\n"@,
{
    let mut r = encode_request(out, lib, artefact_dir, modules);
    r.append("\n");
    r
}

} // verus!
