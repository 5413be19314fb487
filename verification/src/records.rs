//! The persisted key record: one `KEY=value` line per secret in a small text
//! file. Rewriting the record replaces every prior line that carries the
//! agent key under a single fresh line, and leaves all other lines in place
//! and in order; the surrounding code writes the bytes with a
//! write-then-atomic-rename so a crash never leaves a mixed file.

use vstd::prelude::*;
use vstd::string::StringSliceAdditionalSpecFns;

use crate::action::sbytes;

verus! {

broadcast use vstd::string::group_string_axioms;

/// The key name that agent secrets are stored under, with its separator.
pub open spec fn key_prefix() -> Seq<u8> {
    sbytes("HYPERLIQUID_AGENT_PRIVATE_KEY="@)
}

/// Whether a byte is ASCII whitespace.
pub open spec fn is_ws(b: u8) -> bool {
    b == 32 || (9 <= b <= 13)
}

/// A line with its leading whitespace removed.
pub open spec fn trim_start(l: Seq<u8>) -> Seq<u8>
    decreases l.len(),
{
    if l.len() > 0 && is_ws(l[0]) {
        trim_start(l.drop_first())
    } else {
        l
    }
}

/// Whether `l` begins with `p`.
pub open spec fn starts_with(l: Seq<u8>, p: Seq<u8>) -> bool {
    l.len() >= p.len() && l.take(p.len() as int) == p
}

/// Whether a line carries the agent key: after leading whitespace it starts
/// with the key name and its separator.
pub open spec fn is_key_line(l: Seq<u8>) -> bool {
    starts_with(trim_start(l), key_prefix())
}

/// The index of the first newline byte, or the length if there is none.
pub open spec fn find_nl(s: Seq<u8>) -> nat
    decreases s.len(),
{
    if s.len() == 0 {
        0
    } else if s[0] == 10 {
        0
    } else {
        1 + find_nl(s.drop_first())
    }
}

/// `find_nl` points at the first newline: everything before it is not one.
pub proof fn lemma_find_nl(s: Seq<u8>)
    ensures
        find_nl(s) <= s.len(),
        find_nl(s) < s.len() ==> s[find_nl(s) as int] == 10,
        forall|k: int| 0 <= k < find_nl(s) ==> s[k] != 10,
    decreases s.len(),
{
    if s.len() > 0 && s[0] != 10 {
        lemma_find_nl(s.drop_first());
        assert forall|k: int| 0 <= k < find_nl(s) implies s[k] != 10 by {
            if k > 0 {
                assert(s.drop_first()[k - 1] == s[k]);
                assert(s.drop_first()[k - 1] != 10);
            }
        }
    }
}

/// The first newline's position determines `find_nl` exactly.
pub proof fn lemma_find_nl_eq(s: Seq<u8>, i: int)
    requires
        0 <= i <= s.len(),
        i < s.len() ==> s[i] == 10,
        forall|k: int| 0 <= k < i ==> s[k] != 10,
    ensures
        find_nl(s) == i,
    decreases s.len(),
{
    if i == 0 {
    } else {
        assert(s[0] != 10);
        assert(forall|k: int| 0 <= k < s.drop_first().len() ==> s.drop_first()[k] == s[k + 1]);
        lemma_find_nl_eq(s.drop_first(), i - 1);
    }
}

/// A byte string split into lines at newline bytes; the newlines themselves
/// are not part of any line. Splitting an empty string gives one empty line.
pub open spec fn split_nl(s: Seq<u8>) -> Seq<Seq<u8>>
    decreases s.len(),
{
    let i = find_nl(s);
    if i >= s.len() {
        seq![s]
    } else {
        seq![s.take(i as int)] + split_nl(s.skip(i as int + 1))
    }
}

/// Splitting at the first newline peels off the first line.
pub proof fn lemma_split_at_first(s: Seq<u8>, i: int)
    requires
        0 <= i < s.len(),
        s[i] == 10,
        forall|k: int| 0 <= k < i ==> s[k] != 10,
    ensures
        split_nl(s) == seq![s.take(i)] + split_nl(s.skip(i + 1)),
{
    lemma_find_nl_eq(s, i);
}

/// A string without newlines is a single line.
pub proof fn lemma_split_no_nl(s: Seq<u8>)
    requires
        forall|k: int| 0 <= k < s.len() ==> s[k] != 10,
    ensures
        split_nl(s) == seq![s],
{
    lemma_find_nl_eq(s, s.len() as int);
}

/// No line produced by splitting contains a newline.
pub proof fn lemma_lines_nl_free(s: Seq<u8>)
    ensures
        forall|i: int, k: int|
            #![trigger split_nl(s)[i][k]]
            0 <= i < split_nl(s).len() && 0 <= k < split_nl(s)[i].len() ==> split_nl(s)[i][k] != 10,
    decreases s.len(),
{
    lemma_find_nl(s);
    let j = find_nl(s);
    if j < s.len() {
        lemma_lines_nl_free(s.skip(j as int + 1));
        let tail = split_nl(s.skip(j as int + 1));
        assert(split_nl(s) == seq![s.take(j as int)] + tail);
        assert forall|i: int, k: int|
            0 <= i < split_nl(s).len() && 0 <= k < split_nl(s)[i].len() implies #[trigger] split_nl(
            s,
        )[i][k] != 10 by {
            if i == 0 {
                assert(split_nl(s)[0] == s.take(j as int));
                assert(s.take(j as int)[k] == s[k]);
            } else {
                assert(split_nl(s)[i] == tail[i - 1]);
                assert(tail[i - 1][k] != 10);
            }
        }
    } else {
        assert(forall|k: int| 0 <= k < s.len() ==> s[k] != 10);
        assert(split_nl(s) == seq![s]);
    }
}

/// The lines of a stored file: split at newlines, with the trailing newline
/// that a well-formed record ends in not producing an extra empty line. An
/// empty file has no lines.
pub open spec fn content_lines(s: Seq<u8>) -> Seq<Seq<u8>> {
    if s.len() == 0 {
        Seq::<Seq<u8>>::empty()
    } else if s.last() == 10 {
        split_nl(s.drop_last())
    } else {
        split_nl(s)
    }
}

/// The lines kept by a rewrite: every line except those carrying the agent
/// key, in their original order.
pub open spec fn kept(ls: Seq<Seq<u8>>) -> Seq<Seq<u8>>
    decreases ls.len(),
{
    if ls.len() == 0 {
        Seq::<Seq<u8>>::empty()
    } else {
        kept(ls.drop_last()) + if is_key_line(ls.last()) {
            Seq::<Seq<u8>>::empty()
        } else {
            seq![ls.last()]
        }
    }
}

/// No kept line carries the agent key.
pub proof fn lemma_kept_no_key(ls: Seq<Seq<u8>>)
    ensures
        forall|i: int| 0 <= i < kept(ls).len() ==> !is_key_line(#[trigger] kept(ls)[i]),
    decreases ls.len(),
{
    if ls.len() > 0 {
        lemma_kept_no_key(ls.drop_last());
        let kd = kept(ls.drop_last());
        assert forall|i: int| 0 <= i < kept(ls).len() implies !is_key_line(
            #[trigger] kept(ls)[i],
        ) by {
            if i < kd.len() {
                assert(kept(ls)[i] == kd[i]);
            } else {
                assert(!is_key_line(ls.last()));
                assert(kept(ls)[i] == ls.last());
            }
        }
    }
}

/// Every kept line is one of the original lines.
pub proof fn lemma_kept_subset(ls: Seq<Seq<u8>>)
    ensures
        forall|i: int|
            0 <= i < kept(ls).len() ==> exists|j: int|
                0 <= j < ls.len() && ls[j] == #[trigger] kept(ls)[i],
    decreases ls.len(),
{
    if ls.len() > 0 {
        let dl = ls.drop_last();
        let kd = kept(dl);
        lemma_kept_subset(dl);
        assert forall|i: int|
            0 <= i < kept(ls).len() implies exists|j: int|
            0 <= j < ls.len() && ls[j] == #[trigger] kept(ls)[i] by {
            if i < kd.len() {
                assert(kept(ls)[i] == kd[i]);
                let j = choose|j: int| 0 <= j < dl.len() && dl[j] == kd[i];
                assert(dl[j] == ls[j]);
                assert(ls[j] == kept(ls)[i]);
            } else {
                assert(kept(ls)[i] == ls.last());
                assert(ls[ls.len() - 1] == kept(ls)[i]);
            }
        }
    }
}

/// Lines rendered back into file bytes: every line followed by one newline.
pub open spec fn joined(ls: Seq<Seq<u8>>) -> Seq<u8>
    decreases ls.len(),
{
    if ls.len() == 0 {
        Seq::<u8>::empty()
    } else {
        joined(ls.drop_last()) + ls.last() + seq![10u8]
    }
}

/// Rendering a single line.
pub proof fn lemma_joined_single(l: Seq<u8>)
    ensures
        joined(seq![l]) == l + seq![10u8],
{
    let single = seq![l];
    assert(single.drop_last().len() == 0);
    assert(joined(single.drop_last()) =~= Seq::<u8>::empty());
    assert(joined(single) == joined(single.drop_last()) + single.last() + seq![10u8]);
    assert(joined(single) =~= l + seq![10u8]);
}

/// Rendering distributes over concatenation of line lists.
pub proof fn lemma_joined_concat(a: Seq<Seq<u8>>, b: Seq<Seq<u8>>)
    ensures
        joined(a + b) == joined(a) + joined(b),
    decreases b.len(),
{
    if b.len() == 0 {
        assert(a + b =~= a);
        assert(joined(a) + joined(b) =~= joined(a));
    } else {
        assert((a + b).drop_last() =~= a + b.drop_last());
        assert((a + b).last() == b.last());
        lemma_joined_concat(a, b.drop_last());
        assert(joined(a + b) =~= joined(a) + joined(b));
    }
}

/// Rendering one line and peeling it off again.
pub proof fn lemma_joined_head(ls: Seq<Seq<u8>>)
    requires
        ls.len() > 0,
    ensures
        joined(ls) == ls[0] + seq![10u8] + joined(ls.drop_first()),
        joined(ls).len() > 0,
        joined(ls).last() == 10,
    decreases ls.len(),
{
    let single = seq![ls[0]];
    assert(ls =~= single + ls.drop_first());
    lemma_joined_concat(single, ls.drop_first());
    lemma_joined_single(ls[0]);
    assert(joined(ls) =~= ls[0] + seq![10u8] + joined(ls.drop_first()));
    if ls.len() == 1 {
        assert(joined(ls.drop_first()) =~= Seq::<u8>::empty());
        assert(joined(ls).last() == 10);
    } else {
        lemma_joined_head(ls.drop_first());
    }
}

/// Splitting a rendering recovers the lines, as long as no line holds a
/// newline of its own.
pub proof fn lemma_split_joined(ls: Seq<Seq<u8>>)
    requires
        ls.len() > 0,
        forall|i: int, k: int|
            #![trigger ls[i][k]]
            0 <= i < ls.len() && 0 <= k < ls[i].len() ==> ls[i][k] != 10,
    ensures
        joined(ls).len() > 0,
        joined(ls).last() == 10,
        split_nl(joined(ls).drop_last()) == ls,
    decreases ls.len(),
{
    lemma_joined_head(ls);
    let l0 = ls[0];
    let rest = ls.drop_first();
    if rest.len() == 0 {
        assert(joined(ls).drop_last() =~= l0);
        assert(forall|k: int| 0 <= k < l0.len() ==> l0[k] != 10);
        lemma_split_no_nl(l0);
        assert(split_nl(joined(ls).drop_last()) =~= ls);
    } else {
        assert(forall|i: int, k: int|
            #![trigger rest[i][k]]
            0 <= i < rest.len() && 0 <= k < rest[i].len() ==> rest[i][k] != 10) by {
            assert(forall|i: int| 0 <= i < rest.len() ==> rest[i] == ls[i + 1]);
        }
        lemma_split_joined(rest);
        let body = joined(ls).drop_last();
        assert(body =~= l0 + seq![10u8] + joined(rest).drop_last());
        assert(body[l0.len() as int] == 10);
        assert(forall|k: int| 0 <= k < l0.len() ==> body[k] == l0[k] && l0[k] != 10);
        lemma_split_at_first(body, l0.len() as int);
        assert(body.take(l0.len() as int) =~= l0);
        assert(body.skip(l0.len() as int + 1) =~= joined(rest).drop_last());
        assert(split_nl(body) =~= ls);
    }
}

/// The fresh record line for a key: the key name, the `0x` prefix, and the
/// key's hex digits.
pub open spec fn key_line(key: Seq<char>) -> Seq<u8> {
    key_prefix() + sbytes("0x"@) + sbytes(key)
}

/// The rewritten record: the fresh key line first, then every prior line that
/// does not carry the agent key, in order, each line ending in a newline.
pub open spec fn env_record(existing: Seq<u8>, key: Seq<char>) -> Seq<u8> {
    key_line(key) + seq![10u8] + joined(kept(content_lines(existing)))
}

/// Whether a line carries the agent key.
#[verifier::loop_isolation(false)]
fn is_key_line_bytes(line: &[u8]) -> (r: bool)
    ensures
        r == is_key_line(line@),
{
    broadcast use vstd::string::group_string_axioms;

    proof {
        assert(line@.skip(0) =~= line@);
    }
    let mut i: usize = 0;
    while i < line.len() && (line[i] == 32 || (line[i] >= 9 && line[i] <= 13))
        invariant
            i <= line@.len(),
            trim_start(line@) == trim_start(line@.skip(i as int)),
        decreases line@.len() - i,
    {
        proof {
            assert(line@.skip(i as int).drop_first() =~= line@.skip(i as int + 1));
        }
        i = i + 1;
    }
    proof {
        lemma_key_prefix_bytes();
        assert(trim_start(line@.skip(i as int)) == line@.skip(i as int));
    }
    let rest_len = line.len() - i;
    let p = "HYPERLIQUID_AGENT_PRIVATE_KEY=";
    let pb = p.as_bytes();
    proof {
        reveal_strlit("HYPERLIQUID_AGENT_PRIVATE_KEY=");
        assert(vstd::utf8::is_ascii_chars(p@));
        vstd::utf8::is_ascii_chars_encode_utf8(p@);
        assert(pb@ =~= key_prefix());
    }
    if rest_len < pb.len() {
        return false;
    }
    let mut j: usize = 0;
    while j < pb.len()
        invariant
            j <= pb@.len(),
            pb@ == key_prefix(),
            pb@.len() <= line@.len() - i,
            i <= line@.len(),
            trim_start(line@) == line@.skip(i as int),
            forall|k: int| 0 <= k < j ==> line@.skip(i as int)[k] == key_prefix()[k],
        decreases pb@.len() - j,
    {
        if line[i + j] != pb[j] {
            proof {
                assert(line@.skip(i as int)[j as int] != key_prefix()[j as int]);
                assert(trim_start(line@).take(key_prefix().len() as int) != key_prefix()) by {
                    if trim_start(line@).take(key_prefix().len() as int) == key_prefix() {
                        assert(trim_start(line@).take(key_prefix().len() as int)[j as int]
                            == key_prefix()[j as int]);
                    }
                }
            }
            return false;
        }
        j = j + 1;
    }
    proof {
        assert(line@.skip(i as int).take(key_prefix().len() as int) =~= key_prefix());
    }
    true
}

/// Rewrite the stored record around a fresh agent key: the new key line goes
/// first, every prior line that carried the key is dropped, and every other
/// line is kept unchanged and in order, each line ending in one newline.
#[verifier::loop_isolation(false)]
pub fn agent_env_record(existing: &[u8], key_hex: &str) -> (r: Vec<u8>)
    ensures
        r@ == env_record(existing@, key_hex@),
{
    broadcast use vstd::string::group_string_axioms;

    let mut out: Vec<u8> = Vec::new();
    let prefix = "HYPERLIQUID_AGENT_PRIVATE_KEY=";
    out.extend_from_slice(prefix.as_bytes());
    out.extend_from_slice("0x".as_bytes());
    out.extend_from_slice(key_hex.as_bytes());
    out.push(10);
    proof {
        assert(out@ =~= key_line(key_hex@) + seq![10u8]);
    }
    if existing.len() == 0 {
        proof {
            assert(kept(content_lines(existing@)) =~= Seq::<Seq<u8>>::empty());
            assert(out@ =~= env_record(existing@, key_hex@));
        }
        return out;
    }
    let n: usize = if existing[existing.len() - 1] == 10 {
        existing.len() - 1
    } else {
        existing.len()
    };
    let ghost s = existing@.take(n as int);
    proof {
        if existing@.last() == 10 {
            assert(s =~= existing@.drop_last());
        } else {
            assert(s =~= existing@);
        }
        assert(content_lines(existing@) == split_nl(s));
        assert(s.skip(0) =~= s);
        assert(s.subrange(0, 0) =~= Seq::<u8>::empty());
    }
    let mut cur: Vec<u8> = Vec::new();
    let ghost mut done: Seq<Seq<u8>> = Seq::empty();
    let ghost mut seg_start: int = 0;
    let mut i: usize = 0;
    while i < n
        invariant
            0 <= seg_start <= i <= n <= existing@.len(),
            s == existing@.take(n as int),
            n == s.len(),
            cur@ == s.subrange(seg_start, i as int),
            forall|k: int| seg_start <= k < i ==> s[k] != 10,
            split_nl(s) == done + split_nl(s.skip(seg_start)),
            out@ == key_line(key_hex@) + seq![10u8] + joined(kept(done)),
        decreases n - i,
    {
        let b = existing[i];
        if b == 10 {
            proof {
                let tail = s.skip(seg_start);
                assert(tail[i - seg_start] == s[i as int] == 10);
                assert(forall|k: int| 0 <= k < i - seg_start ==> tail[k] == s[seg_start + k]);
                lemma_split_at_first(tail, i - seg_start);
                assert(tail.take(i - seg_start) =~= cur@);
                assert(tail.skip(i - seg_start + 1) =~= s.skip(i as int + 1));
                assert(split_nl(s) =~= (done + seq![cur@]) + split_nl(s.skip(i as int + 1)));
            }
            let ghost line = cur@;
            if !is_key_line_bytes(cur.as_slice()) {
                out.extend_from_slice(cur.as_slice());
                out.push(10);
            }
            proof {
                assert((done + seq![line]).drop_last() =~= done);
                assert((done + seq![line]).last() == line);
                assert(kept(done + seq![line]) == kept(done) + if is_key_line(line) {
                    Seq::<Seq<u8>>::empty()
                } else {
                    seq![line]
                });
                if is_key_line(line) {
                    assert(kept(done + seq![line]) =~= kept(done));
                } else {
                    lemma_joined_concat(kept(done), seq![line]);
                    lemma_joined_single(line);
                    assert(out@ =~= key_line(key_hex@) + seq![10u8] + joined(
                        kept(done + seq![line]),
                    ));
                }
                done = done + seq![line];
                seg_start = i + 1;
            }
            cur.clear();
            proof {
                assert(cur@ =~= s.subrange(seg_start, i as int + 1));
            }
        } else {
            cur.push(b);
            proof {
                assert(cur@ =~= s.subrange(seg_start, i as int + 1));
            }
        }
        i = i + 1;
    }
    proof {
        let tail = s.skip(seg_start);
        assert(tail =~= cur@);
        lemma_split_no_nl(tail);
        assert(split_nl(s) == done + seq![cur@]);
    }
    let ghost line = cur@;
    if !is_key_line_bytes(cur.as_slice()) {
        out.extend_from_slice(cur.as_slice());
        out.push(10);
    }
    proof {
        assert((done + seq![line]).drop_last() =~= done);
        assert((done + seq![line]).last() == line);
        if is_key_line(line) {
            assert(kept(done + seq![line]) =~= kept(done));
        } else {
            lemma_joined_concat(kept(done), seq![line]);
            lemma_joined_single(line);
        }
        assert(out@ =~= key_line(key_hex@) + seq![10u8] + joined(kept(done + seq![line])));
        assert(out@ =~= env_record(existing@, key_hex@));
    }
    out
}

/// The rewritten record holds exactly one line carrying the agent key — the
/// fresh one, first — and every other prior line unchanged, in order: nothing
/// else is removed or duplicated.
pub proof fn lemma_env_record_single_key(existing: Seq<u8>, key: Seq<char>)
    requires
        vstd::utf8::is_ascii_chars(key),
        forall|i: int| 0 <= i < key.len() ==> key[i] != '\n',
    ensures
        content_lines(env_record(existing, key)) == seq![key_line(key)] + kept(
            content_lines(existing),
        ),
        is_key_line(key_line(key)),
        forall|i: int|
            0 <= i < kept(content_lines(existing)).len() ==> !is_key_line(
                #[trigger] kept(content_lines(existing))[i],
            ),
{
    lemma_key_prefix_bytes();
    let kl = key_line(key);
    let ls = content_lines(existing);
    let all = seq![kl] + kept(ls);

    // the fresh line carries the key: no leading whitespace, then the prefix
    assert(!is_ws(kl[0]));
    assert(trim_start(kl) == kl);
    assert(kl.take(key_prefix().len() as int) =~= key_prefix());
    assert(is_key_line(kl));

    lemma_kept_no_key(ls);

    // no line of the rendering holds a newline
    vstd::utf8::is_ascii_chars_encode_utf8(key);
    reveal_strlit("0x");
    assert(vstd::utf8::is_ascii_chars("0x"@));
    vstd::utf8::is_ascii_chars_encode_utf8("0x"@);
    assert(forall|k: int| 0 <= k < kl.len() ==> kl[k] != 10) by {
        assert(forall|k: int|
            0 <= k < crate::action::sbytes("0x"@).len() ==> crate::action::sbytes("0x"@)[k]
                == "0x"@[k] as u8);
        assert(forall|k: int|
            0 <= k < crate::action::sbytes(key).len() ==> crate::action::sbytes(key)[k] == key[k]
                as u8);
    }
    if existing.len() == 0 {
        assert(kept(ls) =~= Seq::<Seq<u8>>::empty());
    } else if existing.last() == 10 {
        lemma_lines_nl_free(existing.drop_last());
    } else {
        lemma_lines_nl_free(existing);
    }
    lemma_kept_subset(ls);
    assert forall|i: int, k: int|
        #![trigger all[i][k]]
        0 <= i < all.len() && 0 <= k < all[i].len() implies all[i][k] != 10 by {
        if i == 0 {
            assert(all[0] == kl);
        } else {
            assert(all[i] == kept(ls)[i - 1]);
            let j = choose|j: int| 0 <= j < ls.len() && ls[j] == kept(ls)[i - 1];
            assert(ls[j][k] != 10);
        }
    }

    // the record is the rendering of the fresh line and the kept lines
    lemma_joined_concat(seq![kl], kept(ls));
    lemma_joined_single(kl);
    assert(env_record(existing, key) =~= joined(all));

    lemma_split_joined(all);
    assert(content_lines(env_record(existing, key)) == split_nl(joined(all).drop_last()));
}

/// The key name's bytes, spelled out.
proof fn lemma_key_prefix_bytes()
    ensures
        key_prefix().len() == 30,
        key_prefix()[0] == 72,
        forall|k: int| 0 <= k < 30 ==> key_prefix()[k] != 10,
        forall|k: int| 0 <= k < 30 ==> !is_ws(#[trigger] key_prefix()[k]),
{
    reveal_strlit("HYPERLIQUID_AGENT_PRIVATE_KEY=");
    let s = "HYPERLIQUID_AGENT_PRIVATE_KEY="@;
    assert(vstd::utf8::is_ascii_chars(s));
    vstd::utf8::is_ascii_chars_encode_utf8(s);
    assert(forall|k: int| 0 <= k < 30 ==> key_prefix()[k] == s[k] as u8);
}

} // verus!
