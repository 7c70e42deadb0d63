//! The textual tool-call protocol: a model reply embeds JSON objects between
//! `<tool_call>` and `</tool_call>` markers, interleaved with free text.
use vstd::prelude::*;
use vstd::string::StringSliceAdditionalSpecFns;
use vstd::utf8::encode_utf8;
use crate::json::{field_of, json_doc_of, parse_json, str_of, string_field, JsonDoc};
use crate::text::{
    chars_of, find_at_or_after, find_from, join_lines, lemma_find_from_bounds, occurs_at,
    push_line, substring, trim, trim_end, trim_range, trim_start,
};

verus! {

/// `<tool_call>`
pub open spec fn start_marker() -> Seq<char> {
    seq!['<', 't', 'o', 'o', 'l', '_', 'c', 'a', 'l', 'l', '>']
}

/// `</tool_call>`
pub open spec fn end_marker() -> Seq<char> {
    seq!['<', '/', 't', 'o', 'o', 'l', '_', 'c', 'a', 'l', 'l', '>']
}

/// What a scan of a reply finds: the pieces of free text (trimmed, empty ones
/// left out) and the text between each pair of markers, in order.
pub struct ScanModel {
    pub parts: Seq<Seq<char>>,
    pub blocks: Seq<Seq<char>>,
}

/// A piece of free text, trimmed, or nothing if only whitespace is left.
pub open spec fn kept(piece: Seq<char>) -> Seq<Seq<char>> {
    if trim(piece).len() > 0 {
        seq![trim(piece)]
    } else {
        Seq::empty()
    }
}

/// The scan of `s` from index `pos` on. An unterminated start marker ends the
/// scan: what follows it, marker included, is the trailing free text.
pub open spec fn scan(s: Seq<char>, pos: int) -> ScanModel
    decreases s.len() - pos,
{
    if pos < 0 || pos > s.len() {
        ScanModel { parts: Seq::empty(), blocks: Seq::empty() }
    } else {
        match find_from(s, start_marker(), pos) {
            None => ScanModel { parts: kept(s.subrange(pos, s.len() as int)), blocks: Seq::empty() },
            Some(st) => match find_from(s, end_marker(), st + 11) {
                None => ScanModel {
                    parts: kept(s.subrange(pos, st)) + kept(s.subrange(st, s.len() as int)),
                    blocks: Seq::empty(),
                },
                Some(en) => {
                    proof {
                        lemma_find_from_bounds(s, start_marker(), pos);
                        lemma_find_from_bounds(s, end_marker(), st + 11);
                    }
                    let rest = scan(s, en + 12);
                    ScanModel {
                        parts: kept(s.subrange(pos, st)) + rest.parts,
                        blocks: seq![s.subrange(st + 11, en)] + rest.blocks,
                    }
                },
            },
        }
    }
}

/// The trimmed blocks that serde_json accepts, in order: those become calls.
pub open spec fn accepted(blocks: Seq<Seq<char>>) -> Seq<Seq<char>>
    decreases blocks.len(),
{
    if blocks.len() == 0 {
        Seq::empty()
    } else if json_valid(trim(blocks.last())) {
        accepted(blocks.drop_last()).push(trim(blocks.last()))
    } else {
        accepted(blocks.drop_last())
    }
}

/// Whether a text (as UTF-8) parses as one JSON document.
pub open spec fn json_valid(t: Seq<char>) -> bool {
    json_doc_of(encode_utf8(t)) is Some
}

/// A tool invocation found in a reply.
#[derive(Debug)]
pub struct ParsedToolCall {
    /// The `name` field, or empty when the object has no string `name`.
    pub name: String,
    /// The `arguments` field, or an empty object when absent.
    pub arguments: JsonDoc,
    /// The JSON text between the markers, trimmed.
    pub raw: String,
}

/// The call that a parsed document describes: its string `name` (or empty)
/// and its `arguments` (or an empty object).
pub open spec fn call_fields(d: JsonDoc, name: Seq<char>, arguments: JsonDoc) -> bool {
    &&& name == (match str_of(field_of(Some(d), "name"@)) {
        Some(n) => n,
        None => Seq::<char>::empty(),
    })
    &&& match field_of(Some(d), "arguments"@) {
        Some(a) => arguments == a,
        None => arguments matches JsonDoc::Object(es) && es@.len() == 0,
    }
}

/// Reads one call from the (trimmed) text between a pair of markers; malformed
/// JSON gives none.
pub fn decode_tool_call(raw: &str) -> (r: Option<ParsedToolCall>)
    ensures
        r is Some <==> json_valid(raw@),
        (match r {
            Some(c) => c.raw@ == raw@ && call_fields(
                json_doc_of(raw.spec_bytes())->0,
                c.name@,
                c.arguments,
            ),
            None => true,
        }),
{
    match parse_json(raw.as_bytes()) {
        None => None,
        Some(v) => {
            let name = match string_field(Some(&v), "name") {
                Some(s) => s,
                None => String::new(),
            };
            let ghost d = v;
            let arguments = match v.take("arguments") {
                Some(a) => a,
                None => JsonDoc::Object(Vec::new()),
            };
            Some(ParsedToolCall { name, arguments, raw: String::from_str(raw) })
        },
    }
}

fn marker(closing: bool) -> (r: Vec<char>)
    ensures
        r@ == (if closing { end_marker() } else { start_marker() }),
{
    let mut v: Vec<char> = Vec::new();
    v.push('<');
    if closing {
        v.push('/');
    }
    v.push('t');
    v.push('o');
    v.push('o');
    v.push('l');
    v.push('_');
    v.push('c');
    v.push('a');
    v.push('l');
    v.push('l');
    v.push('>');
    proof {
        if closing {
            assert(v@ =~= end_marker());
        } else {
            assert(v@ =~= start_marker());
        }
    }
    v
}

/// Appends the trimmed piece `s[from..to]` as the next line of `text`, unless
/// only whitespace is left of it.
fn keep_piece(
    text: &mut String,
    started: &mut bool,
    s: &str,
    chars: &Vec<char>,
    from: usize,
    to: usize,
    Ghost(parts): Ghost<Seq<Seq<char>>>,
) -> (r: Ghost<Seq<Seq<char>>>)
    requires
        chars@ == s@,
        from <= to <= chars@.len(),
        old(text)@ == join_lines(parts),
        *old(started) == (parts.len() > 0),
    ensures
        r@ == parts + kept(s@.subrange(from as int, to as int)),
        final(text)@ == join_lines(r@),
        *final(started) == (r@.len() > 0),
{
    let (a, b) = trim_range(chars, from, to);
    if a < b {
        let piece = substring(s, a, b);
        push_line(text, *started, piece.as_str(), Ghost(parts));
        *started = true;
        assert(parts + kept(s@.subrange(from as int, to as int)) =~= parts.push(piece@));
        Ghost(parts.push(piece@))
    } else {
        assert(parts + kept(s@.subrange(from as int, to as int)) =~= parts);
        Ghost(parts)
    }
}

/// Splits a reply into its narrative text (the trimmed pieces of free text
/// joined by newlines) and the calls in the order they stand.
pub fn parse_tool_calls(response: &str) -> (r: (String, Vec<ParsedToolCall>))
    ensures
        r.0@ == join_lines(scan(response@, 0).parts),
        r.1@.map_values(|c: ParsedToolCall| c.raw@) == accepted(scan(response@, 0).blocks),
{
    let chars = chars_of(response);
    let open_m = marker(false);
    let close_m = marker(true);
    let mut text = String::new();
    let mut started: bool = false;
    let mut calls: Vec<ParsedToolCall> = Vec::new();
    let ghost mut parts: Seq<Seq<char>> = Seq::empty();
    let ghost mut blocks: Seq<Seq<char>> = Seq::empty();
    let ghost s = response@;
    let mut pos: usize = 0;
    assert(join_lines(parts) =~= text@);
    loop
        invariant_except_break
            scan(s, 0).parts == parts + scan(s, pos as int).parts,
            scan(s, 0).blocks == blocks + scan(s, pos as int).blocks,
        invariant
            chars@ == s,
            s == response@,
            open_m@ == start_marker(),
            close_m@ == end_marker(),
            pos <= s.len(),
            text@ == join_lines(parts),
            started == (parts.len() > 0),
            calls@.map_values(|c: ParsedToolCall| c.raw@) == accepted(blocks),
        ensures
            scan(s, 0).parts == parts,
            scan(s, 0).blocks == blocks,
            text@ == join_lines(parts),
            calls@.map_values(|c: ParsedToolCall| c.raw@) == accepted(blocks),
        decreases s.len() - pos,
    {
        let n = chars.len();
        proof {
            lemma_find_from_bounds(s, start_marker(), pos as int);
        }
        match find_at_or_after(&chars, &open_m, pos) {
            None => {
                let ghost p = parts;
                let Ghost(np) = keep_piece(&mut text, &mut started, response, &chars, pos, n, Ghost(p));
                proof {
                    parts = np;
                    assert(parts =~= p + scan(s, pos as int).parts);
                    assert(scan(s, 0).parts =~= parts);
                    assert(scan(s, 0).blocks =~= blocks);
                }
                break ;
            },
            Some(st) => {
                let ghost p = parts;
                let Ghost(np) = keep_piece(&mut text, &mut started, response, &chars, pos, st, Ghost(p));
                proof {
                    parts = np;
                    lemma_find_from_bounds(s, end_marker(), st + 11);
                }
                match find_at_or_after(&chars, &close_m, st + 11) {
                    None => {
                        let ghost parts_before = parts;
                        let Ghost(np2) = keep_piece(
                            &mut text,
                            &mut started,
                            response,
                            &chars,
                            st,
                            n,
                            Ghost(parts_before),
                        );
                        proof {
                            parts = np2;
                            assert(scan(s, 0).parts =~= parts);
                            assert(scan(s, 0).blocks =~= blocks);
                        }
                        break ;
                    },
                    Some(en) => {
                        let ghost block = s.subrange(st + 11, en as int);
                        let (a, b) = trim_range(&chars, st + 11, en);
                        let inner = substring(response, a, b);
                        let decoded = decode_tool_call(inner.as_str());
                        let ghost before_calls = calls@.map_values(|c: ParsedToolCall| c.raw@);
                        match decoded {
                            Some(c) => {
                                calls.push(c);
                                assert(calls@.map_values(|c: ParsedToolCall| c.raw@) =~= before_calls.push(inner@));
                            },
                            None => {},
                        }
                        proof {
                            let nb = blocks.push(block);
                            assert(nb.drop_last() =~= blocks);
                            assert(scan(s, pos as int).blocks =~= seq![block] + scan(s, en + 12).blocks);
                            assert(scan(s, 0).blocks =~= nb + scan(s, en + 12).blocks);
                            assert(scan(s, 0).parts =~= parts + scan(s, en + 12).parts);
                            blocks = nb;
                        }
                        pos = en + 12;
                    },
                }
            },
        }
    }
    (text, calls)
}

proof fn lemma_first_at(s: Seq<char>, pat: Seq<char>, i: int, k: int)
    requires
        0 <= i <= k,
        occurs_at(s, pat, k),
        forall|j: int| i <= j < k ==> !occurs_at(s, pat, j),
    ensures
        find_from(s, pat, i) == Some(k),
    decreases k - i,
{
    if i < k {
        lemma_first_at(s, pat, i + 1, k);
    }
}

proof fn lemma_end_marker_opens_once(t: int)
    requires
        1 <= t < 12,
    ensures
        end_marker()[t] != '<',
{
    assert(t == 1 || t == 2 || t == 3 || t == 4 || t == 5 || t == 6 || t == 7 || t == 8 || t == 9
        || t == 10 || t == 11);
}

/// With `c` at `s[i..]` and an end marker right after it, the first end
/// marker at or after `i` is that one, when `c` holds none.
proof fn lemma_end_after(s: Seq<char>, i: int, c: Seq<char>)
    requires
        0 <= i,
        i + c.len() <= s.len(),
        s.subrange(i, i + c.len()) == c,
        occurs_at(s, end_marker(), i + c.len()),
        forall|k: int| !occurs_at(c, end_marker(), k),
    ensures
        find_from(s, end_marker(), i) == Some(i + c.len()),
{
    let e = i + c.len();
    assert forall|j: int| i <= j < e implies !occurs_at(s, end_marker(), j) by {
        if occurs_at(s, end_marker(), j) {
            if j + 12 <= e {
                assert(c.subrange(j - i, j - i + 12) =~= s.subrange(j, j + 12));
                assert(occurs_at(c, end_marker(), j - i));
            } else {
                let t = e - j;
                assert(s.subrange(e, e + 12)[0] == s[e]);
                assert(s[e] == '<');
                assert(s.subrange(j, j + 12)[t] == s[e]);
                lemma_end_marker_opens_once(t);
            }
        }
    }
    lemma_first_at(s, end_marker(), i, e);
}

proof fn lemma_trim_empty()
    ensures
        trim(Seq::<char>::empty()) == Seq::<char>::empty(),
        kept(Seq::<char>::empty()) == Seq::<Seq<char>>::empty(),
{
    assert(trim_start(Seq::<char>::empty()) == Seq::<char>::empty());
    assert(trim_end(Seq::<char>::empty()) == Seq::<char>::empty());
}

/// A reply made of nothing but two well-formed tool-call blocks (each holds
/// JSON that parses and no end marker) has no narrative text and gives
/// exactly two calls, the first block's before the second's.
pub proof fn lemma_two_blocks_round_trip(a: Seq<char>, b: Seq<char>)
    requires
        json_valid(trim(a)),
        json_valid(trim(b)),
        forall|k: int| !occurs_at(a, end_marker(), k),
        forall|k: int| !occurs_at(b, end_marker(), k),
    ensures
        join_lines(
            scan(start_marker() + a + end_marker() + start_marker() + b + end_marker(), 0).parts,
        ).len() == 0,
        accepted(
            scan(start_marker() + a + end_marker() + start_marker() + b + end_marker(), 0).blocks,
        ) == seq![trim(a), trim(b)],
{
    let s = start_marker() + a + end_marker() + start_marker() + b + end_marker();
    let la = a.len() as int;
    let second_at: int = 23 + la;
    let second_end: int = second_at + 11 + b.len();
    let n = s.len() as int;
    assert(n == second_end + 12);
    lemma_trim_empty();
    // first block
    assert(s.subrange(0, 11) =~= start_marker());
    lemma_first_at(s, start_marker(), 0, 0);
    assert(s.subrange(11, 11 + la) =~= a);
    assert(s.subrange(11 + la, second_at) =~= end_marker());
    lemma_end_after(s, 11, a);
    assert(s.subrange(0, 0) =~= Seq::<char>::empty());
    // second block
    assert(s.subrange(second_at, second_at + 11) =~= start_marker());
    lemma_first_at(s, start_marker(), second_at, second_at);
    assert(s.subrange(second_at + 11, second_end) =~= b);
    assert(s.subrange(second_end, n) =~= end_marker());
    lemma_end_after(s, second_at + 11, b);
    assert(s.subrange(second_at, second_at) =~= Seq::<char>::empty());
    // nothing after
    assert(find_from(s, start_marker(), n) is None);
    assert(s.subrange(n, n) =~= Seq::<char>::empty());
    let last = scan(s, n);
    assert(last.parts =~= Seq::<Seq<char>>::empty());
    assert(last.blocks =~= Seq::<Seq<char>>::empty());
    let second = scan(s, second_at);
    assert(second.parts =~= Seq::<Seq<char>>::empty());
    assert(second.blocks =~= seq![b]);
    let first = scan(s, 0);
    assert(first.parts =~= Seq::<Seq<char>>::empty());
    assert(first.blocks =~= seq![a, b]);
    assert(seq![a, b].drop_last() =~= seq![a]);
    assert(seq![a].drop_last() =~= Seq::<Seq<char>>::empty());
    assert(seq![a, b].last() == b);
    assert(seq![a].last() == a);
    assert(accepted(Seq::<Seq<char>>::empty()) =~= Seq::<Seq<char>>::empty());
    assert(accepted(seq![a]) =~= seq![trim(a)]);
    assert(accepted(seq![a, b]) =~= seq![trim(a), trim(b)]);
}

} // verus!
