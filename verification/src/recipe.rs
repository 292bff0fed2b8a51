//! The recipe document and its line-scoped mutation.
//!
//! A recipe is a text file of `key=value` assignment lines. The pipeline
//! rewrites exactly the lines whose (whitespace-trimmed) content starts with a
//! given key, replacing each such line wholesale, and leaves every other line
//! byte-identical. Joining the lines back never appends a trailing newline
//! that the input did not have.

use crate::text::copy_bytes;
use crate::text::push_bytes;
use vstd::prelude::*;

verus! {

pub const NEWLINE: u8 = 10;

/// ASCII whitespace, as `u8::is_ascii_whitespace` has it.
pub open spec fn is_blank(b: u8) -> bool {
    b == 32 || b == 9 || b == 10 || b == 12 || b == 13
}

pub open spec fn trim_start(s: Seq<u8>) -> Seq<u8>
    decreases s.len(),
{
    if s.len() > 0 && is_blank(s[0]) {
        trim_start(s.drop_first())
    } else {
        s
    }
}

pub open spec fn trim_end(s: Seq<u8>) -> Seq<u8>
    decreases s.len(),
{
    if s.len() > 0 && is_blank(s.last()) {
        trim_end(s.drop_last())
    } else {
        s
    }
}

/// The line's content with leading and trailing whitespace removed.
pub open spec fn trimmed(s: Seq<u8>) -> Seq<u8> {
    trim_end(trim_start(s))
}

pub open spec fn starts_with(s: Seq<u8>, p: Seq<u8>) -> bool {
    p.len() <= s.len() && forall|i: int| 0 <= i < p.len() ==> s[i] == p[i]
}

/// Whether a mutation keyed on `key` replaces this line.
pub open spec fn line_targets(line: Seq<u8>, key: Seq<u8>) -> bool {
    starts_with(trimmed(line), key)
}

pub open spec fn newline_free(s: Seq<u8>) -> bool {
    forall|i: int| 0 <= i < s.len() ==> s[i] != NEWLINE
}

/// The decomposition of a document into lines at newline bytes. A document
/// with no newline is a single line; each newline byte separates two lines,
/// so a document ending in a newline ends with an empty last line.
pub open spec fn spec_split_lines(s: Seq<u8>) -> Seq<Seq<u8>>
    decreases s.len(),
{
    if s.len() == 0 {
        seq![Seq::<u8>::empty()]
    } else if s[0] == NEWLINE {
        seq![Seq::<u8>::empty()] + spec_split_lines(s.drop_first())
    } else {
        let r = spec_split_lines(s.drop_first());
        r.update(0, seq![s[0]] + r[0])
    }
}

/// The inverse of [`spec_split_lines`]: lines joined with a single newline
/// between neighbours and nothing after the last.
pub open spec fn spec_join_lines(ls: Seq<Seq<u8>>) -> Seq<u8>
    decreases ls.len(),
{
    if ls.len() == 0 {
        Seq::<u8>::empty()
    } else if ls.len() == 1 {
        ls[0]
    } else {
        ls[0] + seq![NEWLINE] + spec_join_lines(ls.drop_first())
    }
}

/// Replaces every line that targets `key` with `new_line`; copies the rest.
pub open spec fn spec_set_assignment(lines: Seq<Seq<u8>>, key: Seq<u8>, new_line: Seq<u8>) -> Seq<
    Seq<u8>,
> {
    Seq::new(
        lines.len(),
        |i: int|
            if line_targets(lines[i], key) {
                new_line
            } else {
                lines[i]
            },
    )
}

/// The whole-document mutation: split, replace the targeted lines, join.
pub open spec fn spec_rewrite(content: Seq<u8>, key: Seq<u8>, new_line: Seq<u8>) -> Seq<u8> {
    spec_join_lines(spec_set_assignment(spec_split_lines(content), key, new_line))
}

pub proof fn lemma_split_len(s: Seq<u8>)
    ensures
        spec_split_lines(s).len() >= 1,
    decreases s.len(),
{
    if s.len() == 0 {
    } else if s[0] == NEWLINE {
        lemma_split_len(s.drop_first());
    } else {
        lemma_split_len(s.drop_first());
    }
}

/// Splitting a document into lines and joining them again gives the document
/// back byte for byte: internal blank lines survive, and no trailing newline
/// is added at the end.
pub proof fn lemma_document_round_trip(s: Seq<u8>)
    ensures
        spec_join_lines(spec_split_lines(s)) == s,
    decreases s.len(),
{
    lemma_split_len(s);
    if s.len() == 0 {
        assert(spec_join_lines(spec_split_lines(s)) =~= s);
    } else if s[0] == NEWLINE {
        lemma_document_round_trip(s.drop_first());
        lemma_split_len(s.drop_first());
        let tail = spec_split_lines(s.drop_first());
        let whole = seq![Seq::<u8>::empty()] + tail;
        assert(whole.len() >= 2);
        assert(whole[0] == Seq::<u8>::empty());
        assert(whole.drop_first() =~= tail);
        assert(spec_join_lines(whole) == whole[0] + seq![NEWLINE] + spec_join_lines(tail));
        assert(spec_join_lines(whole) =~= s);
    } else {
        lemma_document_round_trip(s.drop_first());
        lemma_split_len(s.drop_first());
        let r = spec_split_lines(s.drop_first());
        let whole = r.update(0, seq![s[0]] + r[0]);
        if r.len() == 1 {
            assert(whole.len() == 1);
            assert(spec_join_lines(whole) == whole[0]);
            assert(spec_join_lines(r) == r[0]);
            assert(spec_join_lines(whole) =~= s);
        } else {
            assert(whole.len() >= 2);
            assert(whole.drop_first() =~= r.drop_first());
            assert(spec_join_lines(whole) == (seq![s[0]] + r[0]) + seq![NEWLINE]
                + spec_join_lines(r.drop_first()));
            assert(spec_join_lines(r) == r[0] + seq![NEWLINE] + spec_join_lines(r.drop_first()));
            assert(spec_join_lines(whole) =~= seq![s[0]] + spec_join_lines(r));
            assert(seq![s[0]] + s.drop_first() =~= s);
        }
    }
}

/// A document with no newline splits into itself as its only line.
pub proof fn lemma_split_newline_free(s: Seq<u8>)
    requires
        newline_free(s),
    ensures
        spec_split_lines(s) == seq![s],
    decreases s.len(),
{
    if s.len() == 0 {
        assert(spec_split_lines(s) =~~= seq![s]);
    } else {
        assert(newline_free(s.drop_first()));
        lemma_split_newline_free(s.drop_first());
        let r = spec_split_lines(s.drop_first());
        assert(r == seq![s.drop_first()]);
        assert(seq![s[0]] + s.drop_first() =~= s);
        assert(spec_split_lines(s) =~~= seq![s]);
    }
}

/// Splitting around one newline: the newline-free prefix becomes the first
/// line, the rest splits on its own.
pub proof fn lemma_split_concat(x: Seq<u8>, y: Seq<u8>)
    requires
        newline_free(x),
    ensures
        spec_split_lines(x + seq![NEWLINE] + y) == seq![x] + spec_split_lines(y),
    decreases x.len(),
{
    let s = x + seq![NEWLINE] + y;
    if x.len() == 0 {
        assert(s[0] == NEWLINE);
        assert(s.drop_first() =~= y);
        assert(x =~= Seq::<u8>::empty());
        assert(seq![Seq::<u8>::empty()] + spec_split_lines(y) =~~= seq![x] + spec_split_lines(y));
    } else {
        assert(s[0] == x[0]);
        assert(s[0] != NEWLINE);
        assert(newline_free(x.drop_first()));
        lemma_split_concat(x.drop_first(), y);
        assert(s.drop_first() =~= x.drop_first() + seq![NEWLINE] + y);
        let r = spec_split_lines(s.drop_first());
        assert(r == seq![x.drop_first()] + spec_split_lines(y));
        lemma_split_len(y);
        assert(r[0] == x.drop_first());
        assert(seq![s[0]] + x.drop_first() =~= x);
        assert(r.update(0, seq![s[0]] + r[0]) =~= seq![x] + spec_split_lines(y));
    }
}

/// Any newline-free line sequence that joins to a document is that
/// document's line decomposition: splitting is the inverse of joining.
pub proof fn lemma_split_unique(ls: Seq<Seq<u8>>, s: Seq<u8>)
    requires
        ls.len() >= 1,
        forall|i: int| 0 <= i < ls.len() ==> newline_free(#[trigger] ls[i]),
        spec_join_lines(ls) == s,
    ensures
        spec_split_lines(s) == ls,
    decreases ls.len(),
{
    if ls.len() == 1 {
        assert(s == ls[0]);
        lemma_split_newline_free(s);
        assert(seq![s] =~= ls);
    } else {
        let tail = ls.drop_first();
        assert(forall|i: int| 0 <= i < tail.len() ==> newline_free(#[trigger] tail[i]));
        lemma_split_unique(tail, spec_join_lines(tail));
        lemma_split_concat(ls[0], spec_join_lines(tail));
        assert(ls[0] + seq![NEWLINE] + spec_join_lines(tail) == s);
        assert(seq![ls[0]] + spec_split_lines(spec_join_lines(tail)) =~= ls);
    }
}

/// The `Seq<u8>` views of a sequence of byte vectors.
pub open spec fn views_of(lines: Seq<Vec<u8>>) -> Seq<Seq<u8>> {
    Seq::new(lines.len(), |i: int| lines[i]@)
}

/// Whether this line's trimmed content starts with `key`.
pub fn line_matches_key(line: &Vec<u8>, key: &Vec<u8>) -> (r: bool)
    ensures
        r == line_targets(line@, key@),
{
    let n = line.len();
    let mut i: usize = 0;
    proof {
        assert(line@.skip(0) =~= line@);
    }
    while i < n && (line[i] == 32 || line[i] == 9 || line[i] == 10 || line[i] == 12 || line[i]
        == 13)
        invariant
            i <= n,
            n == line@.len(),
            trim_start(line@) == trim_start(line@.skip(i as int)),
        decreases n - i,
    {
        proof {
            assert(line@.skip(i as int)[0] == line@[i as int]);
            assert(line@.skip(i as int).drop_first() =~= line@.skip(i as int + 1));
        }
        i = i + 1;
    }
    proof {
        if i == n {
            assert(line@.skip(i as int) =~= Seq::<u8>::empty());
        }
        assert(trim_start(line@) == line@.skip(i as int));
    }
    let mut j: usize = n;
    while j > i && (line[j - 1] == 32 || line[j - 1] == 9 || line[j - 1] == 10 || line[j - 1] == 12
        || line[j - 1] == 13)
        invariant
            i <= j <= n,
            n == line@.len(),
            trim_start(line@) == line@.skip(i as int),
            trim_end(line@.skip(i as int)) == trim_end(line@.subrange(i as int, j as int)),
        decreases j,
    {
        proof {
            assert(line@.subrange(i as int, j as int).last() == line@[j - 1]);
            assert(line@.subrange(i as int, j as int).drop_last() =~= line@.subrange(
                i as int,
                j as int - 1,
            ));
        }
        j = j - 1;
    }
    proof {
        if j == i {
            assert(line@.subrange(i as int, j as int) =~= Seq::<u8>::empty());
        }
        assert(trimmed(line@) == line@.subrange(i as int, j as int));
    }
    let klen = key.len();
    if klen > j - i {
        proof {
            assert(trimmed(line@).len() < key@.len());
        }
        return false;
    }
    let mut k: usize = 0;
    while k < klen
        invariant
            k <= klen,
            klen == key@.len(),
            i <= j <= n,
            n == line@.len(),
            klen <= j - i,
            trimmed(line@) == line@.subrange(i as int, j as int),
            forall|m: int| 0 <= m < k ==> line@[i + m] == key@[m],
        decreases klen - k,
    {
        if line[i + k] != key[k] {
            proof {
                assert(trimmed(line@)[k as int] == line@[i + k]);
                assert(!starts_with(trimmed(line@), key@));
            }
            return false;
        }
        k = k + 1;
    }
    proof {
        assert forall|m: int| 0 <= m < key@.len() implies trimmed(line@)[m] == key@[m] by {
            assert(trimmed(line@)[m] == line@[i + m]);
        }
    }
    true
}

/// Splits a document into its lines at newline bytes.
pub fn split_lines(content: &Vec<u8>) -> (r: Vec<Vec<u8>>)
    ensures
        views_of(r@) == spec_split_lines(content@),
{
    let n = content.len();
    let mut out: Vec<Vec<u8>> = Vec::new();
    let mut cur: Vec<u8> = Vec::new();
    let mut i: usize = 0;
    proof {
        assert(views_of(out@).push(cur@) =~= seq![Seq::<u8>::empty()]);
        assert(spec_join_lines(views_of(out@).push(cur@)) =~= content@.subrange(0, 0));
    }
    while i < n
        invariant
            i <= n,
            n == content@.len(),
            newline_free(cur@),
            forall|k: int| 0 <= k < out@.len() ==> newline_free(#[trigger] out@[k]@),
            spec_join_lines(views_of(out@).push(cur@)) == content@.subrange(0, i as int),
        decreases n - i,
    {
        let ghost pre_out = out@;
        let ghost pre_cur = cur@;
        let b = content[i];
        if b == NEWLINE {
            out.push(cur);
            cur = Vec::new();
            proof {
                assert(content@.subrange(0, i as int + 1) =~= content@.subrange(0, i as int).push(
                    content@[i as int],
                ));
                assert(views_of(out@) =~= views_of(pre_out).push(pre_cur));
                lemma_join_push(views_of(pre_out).push(pre_cur), Seq::<u8>::empty());
                assert(spec_join_lines(views_of(out@).push(cur@)) =~= content@.subrange(
                    0,
                    i as int + 1,
                ));
            }
        } else {
            cur.push(b);
            proof {
                assert(content@.subrange(0, i as int + 1) =~= content@.subrange(0, i as int).push(
                    content@[i as int],
                ));
                lemma_join_push(views_of(out@), pre_cur);
                lemma_join_push(views_of(out@), cur@);
                assert(cur@ =~= pre_cur.push(b));
                assert(spec_join_lines(views_of(out@).push(cur@)) =~= content@.subrange(
                    0,
                    i as int + 1,
                ));
            }
        }
        i = i + 1;
    }
    let ghost pre_out = out@;
    let ghost pre_cur = cur@;
    out.push(cur);
    proof {
        assert(views_of(out@) =~= views_of(pre_out).push(pre_cur));
        assert(content@.subrange(0, n as int) =~= content@);
        lemma_split_unique(views_of(out@), content@);
    }
    out
}

/// Replaces every line whose trimmed content starts with `key` by a copy of
/// `new_line`; copies every other line unchanged, in order.
pub fn set_assignment(lines: &Vec<Vec<u8>>, key: &Vec<u8>, new_line: &Vec<u8>) -> (r: Vec<Vec<u8>>)
    ensures
        views_of(r@) == spec_set_assignment(views_of(lines@), key@, new_line@),
{
    let n = lines.len();
    let mut out: Vec<Vec<u8>> = Vec::new();
    let mut i: usize = 0;
    while i < n
        invariant
            i <= n,
            n == lines@.len(),
            out@.len() == i,
            forall|k: int|
                0 <= k < i ==> #[trigger] out@[k]@ == spec_set_assignment(
                    views_of(lines@),
                    key@,
                    new_line@,
                )[k],
        decreases n - i,
    {
        if line_matches_key(&lines[i], key) {
            out.push(copy_bytes(new_line));
        } else {
            out.push(copy_bytes(&lines[i]));
        }
        i = i + 1;
    }
    proof {
        assert(views_of(out@) =~= spec_set_assignment(views_of(lines@), key@, new_line@));
    }
    out
}

/// Joins lines with single newlines; adds no trailing newline.
pub fn join_lines(lines: &Vec<Vec<u8>>) -> (r: Vec<u8>)
    ensures
        r@ == spec_join_lines(views_of(lines@)),
{
    let n = lines.len();
    if n == 0 {
        let empty: Vec<u8> = Vec::new();
        proof {
            assert(views_of(lines@) =~= Seq::<Seq<u8>>::empty());
        }
        return empty;
    }
    let mut acc = copy_bytes(&lines[0]);
    let mut i: usize = 1;
    proof {
        assert(views_of(lines@).subrange(0, 1) =~= seq![lines@[0]@]);
    }
    while i < n
        invariant
            1 <= i <= n,
            n == lines@.len(),
            acc@ == spec_join_lines(views_of(lines@).subrange(0, i as int)),
        decreases n - i,
    {
        acc.push(NEWLINE);
        push_bytes(&mut acc, &lines[i]);
        proof {
            assert(views_of(lines@).subrange(0, i as int + 1) =~= views_of(lines@).subrange(
                0,
                i as int,
            ).push(lines@[i as int]@));
            lemma_join_push(views_of(lines@).subrange(0, i as int), lines@[i as int]@);
            assert(acc@ =~= spec_join_lines(views_of(lines@).subrange(0, i as int + 1)));
        }
        i = i + 1;
    }
    proof {
        assert(views_of(lines@).subrange(0, n as int) =~= views_of(lines@));
    }
    acc
}

/// The text-preserving mutation of one assignment: every line targeting
/// `key` is replaced wholesale by `new_line`; all other lines, including
/// internal blank ones, are kept byte-identical, and the document keeps its
/// newline discipline.
pub fn rewrite_assignment(content: &Vec<u8>, key: &Vec<u8>, new_line: &Vec<u8>) -> (r: Vec<u8>)
    ensures
        r@ == spec_rewrite(content@, key@, new_line@),
{
    let lines = split_lines(content);
    let updated = set_assignment(&lines, key, new_line);
    join_lines(&updated)
}

/// Law: replacing a targeted key's line is line-scoped. Every line that does
/// not target the key stays byte-identical and in place; every line that
/// does is replaced wholesale by the new line; the line count is unchanged.
pub proof fn lemma_mutation_fidelity(lines: Seq<Seq<u8>>, key: Seq<u8>, new_line: Seq<u8>)
    ensures
        spec_set_assignment(lines, key, new_line).len() == lines.len(),
        forall|i: int|
            0 <= i < lines.len() && !line_targets(lines[i], key) ==> spec_set_assignment(
                lines,
                key,
                new_line,
            )[i] == lines[i],
        forall|i: int|
            0 <= i < lines.len() && line_targets(lines[i], key) ==> spec_set_assignment(
                lines,
                key,
                new_line,
            )[i] == new_line,
{
}

/// The summed byte length of a line sequence, separators not counted.
pub open spec fn total_line_len(ls: Seq<Seq<u8>>) -> int
    decreases ls.len(),
{
    if ls.len() == 0 {
        0
    } else {
        ls[0].len() + total_line_len(ls.drop_first())
    }
}

pub proof fn lemma_join_len(ls: Seq<Seq<u8>>)
    ensures
        ls.len() >= 1 ==> spec_join_lines(ls).len() == total_line_len(ls) + ls.len() - 1,
        ls.len() == 0 ==> spec_join_lines(ls).len() == 0,
    decreases ls.len(),
{
    if ls.len() == 0 {
    } else if ls.len() == 1 {
        assert(ls.drop_first().len() == 0);
        assert(total_line_len(ls.drop_first()) == 0);
    } else {
        lemma_join_len(ls.drop_first());
    }
}

proof fn lemma_total_len_update(ls: Seq<Seq<u8>>, t: int, x: Seq<u8>)
    requires
        0 <= t < ls.len(),
    ensures
        total_line_len(ls.update(t, x)) == total_line_len(ls) - ls[t].len() + x.len(),
    decreases ls.len(),
{
    let u = ls.update(t, x);
    if t == 0 {
        assert(u.drop_first() =~= ls.drop_first());
        assert(u[0] == x);
    } else {
        lemma_total_len_update(ls.drop_first(), t - 1, x);
        assert(u.drop_first() =~= ls.drop_first().update(t - 1, x));
        assert(u[0] == ls[0]);
    }
}

/// Law: a rewrite that targets exactly one line changes the document's byte
/// length by exactly the difference between the new line and the line it
/// replaced, and by nothing else.
pub proof fn lemma_rewrite_length(content: Seq<u8>, key: Seq<u8>, new_line: Seq<u8>, t: int)
    requires
        0 <= t < spec_split_lines(content).len(),
        line_targets(spec_split_lines(content)[t], key),
        forall|i: int|
            0 <= i < spec_split_lines(content).len() && i != t ==> !line_targets(
                #[trigger] spec_split_lines(content)[i],
                key,
            ),
    ensures
        spec_rewrite(content, key, new_line).len() == content.len() - spec_split_lines(
            content,
        )[t].len() + new_line.len(),
{
    let ls = spec_split_lines(content);
    lemma_split_len(content);
    assert(spec_set_assignment(ls, key, new_line) =~~= ls.update(t, new_line));
    lemma_total_len_update(ls, t, new_line);
    lemma_join_len(ls.update(t, new_line));
    lemma_join_len(ls);
    lemma_document_round_trip(content);
}

/// Law: a rewrite whose key targets no line of the document returns the
/// document byte-identical.
pub proof fn lemma_rewrite_no_target(content: Seq<u8>, key: Seq<u8>, new_line: Seq<u8>)
    requires
        forall|i: int|
            0 <= i < spec_split_lines(content).len() ==> !line_targets(
                #[trigger] spec_split_lines(content)[i],
                key,
            ),
    ensures
        spec_rewrite(content, key, new_line) == content,
{
    assert(spec_set_assignment(spec_split_lines(content), key, new_line) =~= spec_split_lines(
        content,
    ));
    lemma_document_round_trip(content);
}

/// Appending one more line to a join adds one separator and the line.
pub proof fn lemma_join_push(ls: Seq<Seq<u8>>, x: Seq<u8>)
    ensures
        ls.len() == 0 ==> spec_join_lines(ls.push(x)) == x,
        ls.len() >= 1 ==> spec_join_lines(ls.push(x)) == spec_join_lines(ls) + seq![NEWLINE] + x,
    decreases ls.len(),
{
    let p = ls.push(x);
    if ls.len() == 0 {
        assert(p.len() == 1);
        assert(p[0] == x);
    } else if ls.len() == 1 {
        assert(p.len() == 2);
        assert(p.drop_first() =~= seq![x]);
        assert(spec_join_lines(p) == p[0] + seq![NEWLINE] + spec_join_lines(p.drop_first()));
        assert(spec_join_lines(p.drop_first()) == x);
        assert(p[0] == ls[0]);
        assert(spec_join_lines(ls) == ls[0]);
    } else {
        lemma_join_push(ls.drop_first(), x);
        assert(p.drop_first() =~= ls.drop_first().push(x));
        assert(spec_join_lines(p) == p[0] + seq![NEWLINE] + spec_join_lines(p.drop_first()));
        assert(spec_join_lines(p) =~= spec_join_lines(ls) + seq![NEWLINE] + x);
    }
}

} // verus!
