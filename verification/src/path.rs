//! The part of a request path that comes before its query string.

use vstd::prelude::*;
use vstd::utf8::*;
use vstd::string::*;

verus! {

/// The position of the first `'?'` in `s`, or `s.len()` when `s` holds none.
pub open spec fn query_start(s: Seq<char>) -> int
    decreases s.len(),
{
    if s.len() == 0 {
        0
    } else if s[0] == '?' {
        0
    } else {
        1 + query_start(s.drop_first())
    }
}

/// `s` up to, and without, its first `'?'`; all of `s` when it holds none.
pub open spec fn strip_query(s: Seq<char>) -> Seq<char> {
    s.take(query_start(s))
}

/// What characterises `query_start`: no `'?'` stands before it, and a `'?'`
/// stands at it unless it is the end of `s`.
pub proof fn lemma_query_start(s: Seq<char>)
    ensures
        0 <= query_start(s) <= s.len(),
        forall|j: int| 0 <= j < query_start(s) ==> s[j] != '?',
        query_start(s) < s.len() ==> s[query_start(s)] == '?',
    decreases s.len(),
{
    if s.len() > 0 && s[0] != '?' {
        lemma_query_start(s.drop_first());
        assert forall|j: int| 0 <= j < query_start(s) implies s[j] != '?' by {
            if j > 0 {
                assert(s[j] == s.drop_first()[j - 1]);
            }
        }
    }
}

/// `query_start` is the only position with those properties.
pub proof fn lemma_query_start_unique(s: Seq<char>, k: int)
    requires
        0 <= k <= s.len(),
        forall|j: int| 0 <= j < k ==> s[j] != '?',
        k < s.len() ==> s[k] == '?',
    ensures
        query_start(s) == k,
{
    lemma_query_start(s);
}

/// The path without its query string holds no `'?'`.
pub proof fn lemma_strip_query_has_no_question_mark(s: Seq<char>)
    ensures
        forall|k: int| 0 <= k < strip_query(s).len() ==> strip_query(s)[k] != '?',
{
    lemma_query_start(s);
}

/// The path without its query string is a prefix of the path, and what
/// follows it, if anything does, starts with `'?'`.
pub proof fn lemma_strip_query_is_prefix(s: Seq<char>)
    ensures
        strip_query(s).len() <= s.len(),
        strip_query(s) == s.take(strip_query(s).len() as int),
        strip_query(s).len() < s.len() ==> s[strip_query(s).len() as int] == '?',
{
    lemma_query_start(s);
}

/// A path that holds no `'?'` is left as it is.
pub proof fn lemma_strip_query_without_query(s: Seq<char>)
    requires
        forall|k: int| 0 <= k < s.len() ==> s[k] != '?',
    ensures
        strip_query(s) == s,
{
    lemma_query_start_unique(s, s.len() as int);
    assert(s.take(s.len() as int) =~= s);
}

/// Cutting the query string off twice cuts no more than doing it once.
pub proof fn lemma_strip_query_idempotent(s: Seq<char>)
    ensures
        strip_query(strip_query(s)) == strip_query(s),
{
    lemma_strip_query_has_no_question_mark(s);
    lemma_strip_query_without_query(strip_query(s));
}

/// Of a path `p` that holds no `'?'`, followed by `'?'` and any query `q`,
/// what is left is `p`.
pub proof fn lemma_strip_query_of_path_and_query(p: Seq<char>, q: Seq<char>)
    requires
        forall|k: int| 0 <= k < p.len() ==> p[k] != '?',
    ensures
        strip_query(p + seq!['?'] + q) == p,
{
    let s = p + seq!['?'] + q;
    assert forall|j: int| 0 <= j < p.len() implies s[j] != '?' by {
        assert(s[j] == p[j]);
    }
    assert(s[p.len() as int] == '?');
    lemma_query_start_unique(s, p.len() as int);
    assert(s.take(p.len() as int) =~= p);
}

/// When the UTF-8 encoding of `cs` holds no byte of `'?'`, neither does `cs`.
proof fn lemma_no_question_mark_byte(cs: Seq<char>)
    requires
        forall|j: int| 0 <= j < encode_utf8(cs).len() ==> encode_utf8(cs)[j] != 0x3Fu8,
    ensures
        forall|k: int| 0 <= k < cs.len() ==> cs[k] != '?',
    decreases cs.len(),
{
    if cs.len() > 0 {
        let head = encode_scalar(cs[0] as u32);
        let rest = encode_utf8(cs.drop_first());
        assert(encode_utf8(cs) == head + rest);
        if cs[0] == '?' {
            assert((0x3Fu32 & 0x7Fu32) as u8 == 0x3Fu8) by (bit_vector);
            assert(head =~= seq![0x3Fu8]);
            assert(encode_utf8(cs)[0] == 0x3Fu8);
        }
        assert forall|j: int| 0 <= j < rest.len() implies rest[j] != 0x3Fu8 by {
            assert(rest[j] == encode_utf8(cs)[head.len() + j]);
        }
        lemma_no_question_mark_byte(cs.drop_first());
        assert forall|k: int| 0 <= k < cs.len() implies cs[k] != '?' by {
            if k > 0 {
                assert(cs[k] == cs.drop_first()[k - 1]);
            }
        }
    }
}

/// A valid UTF-8 sequence whose first byte is that of `'?'` decodes to
/// characters of which the first is `'?'`.
proof fn lemma_decode_starts_with_question_mark(bytes: Seq<u8>)
    requires
        valid_utf8(bytes),
        bytes.len() > 0,
        bytes[0] == 0x3Fu8,
    ensures
        decode_utf8(bytes).len() > 0,
        decode_utf8(bytes)[0] == '?',
{
    assert((0x3Fu8 & 0x7Fu8) as u32 == 0x3Fu32) by (bit_vector);
    assert(decode_first_scalar(bytes) == 0x3Fu32);
    assert(decode_utf8(bytes) == seq![decode_first_scalar(bytes) as char] + decode_utf8(
        pop_first_scalar(bytes),
    ));
}

/// The part of `path` that comes before its query string: everything up to
/// the first `'?'`, or all of `path` when it holds none.
pub fn strip_query_str(path: &str) -> (r: &str)
    ensures
        r@ == strip_query(path@),
{
    broadcast use group_utf8_lib;

    let bytes = path.as_bytes();
    let n = bytes.len();
    let mut i: usize = 0;
    while i < n && bytes[i] != 0x3Fu8
        invariant
            n == bytes@.len(),
            bytes@ == path.spec_bytes(),
            i <= n,
            forall|j: int| 0 <= j < i ==> bytes@[j] != 0x3Fu8,
        decreases n - i,
    {
        i = i + 1;
    }
    proof {
        assert(path.spec_bytes() == encode_utf8(path@));
        assert(valid_utf8(bytes@));
    }
    if i == n {
        proof {
            lemma_no_question_mark_byte(path@);
            lemma_query_start_unique(path@, path@.len() as int);
            assert(strip_query(path@) =~= path@);
        }
        path
    } else {
        proof {
            is_char_boundary_iff_not_is_continuation_byte(bytes@, i as int);
            assert(is_char_boundary(bytes@, i as int));
        }
        let (prefix, _) = path.split_at(i);
        proof {
            let front = bytes@.subrange(0, i as int);
            let back = bytes@.subrange(i as int, n as int);
            assert(prefix.spec_bytes() == front);
            assert(decode_utf8(encode_utf8(prefix@)) == prefix@);
            assert(prefix@ == decode_utf8(front));
            assert(decode_utf8(bytes@) == path@);
            assert(path@ =~= decode_utf8(front) + decode_utf8(back));
            assert forall|j: int| 0 <= j < encode_utf8(prefix@).len() implies encode_utf8(
                prefix@,
            )[j] != 0x3Fu8 by {
                assert(encode_utf8(prefix@)[j] == bytes@[j]);
            }
            lemma_no_question_mark_byte(prefix@);
            assert(valid_utf8(back));
            lemma_decode_starts_with_question_mark(back);
            let k = prefix@.len() as int;
            assert(path@[k] == decode_utf8(back)[0]);
            assert forall|j: int| 0 <= j < k implies path@[j] != '?' by {
                assert(path@[j] == prefix@[j]);
            }
            lemma_query_start_unique(path@, k);
            assert(strip_query(path@) =~= prefix@);
        }
        prefix
    }
}

} // verus!
