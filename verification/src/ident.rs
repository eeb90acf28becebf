//! Session identifiers: generation, canonical text form, and the
//! shareable rendezvous link built from one.
//!
//! An identifier is an opaque 128-bit value drawn at random, so that
//! distinct sessions never collide and an identifier is infeasible to
//! guess.  Its text form is the canonical hyphenated lowercase hex
//! spelling (8-4-4-4-12 digits).

use vstd::prelude::*;
use vstd::string::StringExecFns;

verus! {

/// Relies on `uuid::Uuid::new_v4` (and `Uuid::as_u128`): a fresh
/// identifier drawn from the platform's randomness.  Nothing can be
/// promised of a random value; callers test what came back.
#[verifier::external_body]
pub(crate) fn random_id() -> u128 {
    uuid::Uuid::new_v4().as_u128()
}

/// Relies on `String::push`: appends exactly the one character.
#[verifier::external_body]
fn push_char(s: &mut String, c: char)
    ensures
        final(s)@ == old(s)@.push(c),
{
    s.push(c);
}

/// The hex digit spelling a nibble, lowercase.
pub open spec fn hex_char(n: u128) -> char {
    if n == 0 {
        '0'
    } else if n == 1 {
        '1'
    } else if n == 2 {
        '2'
    } else if n == 3 {
        '3'
    } else if n == 4 {
        '4'
    } else if n == 5 {
        '5'
    } else if n == 6 {
        '6'
    } else if n == 7 {
        '7'
    } else if n == 8 {
        '8'
    } else if n == 9 {
        '9'
    } else if n == 10 {
        'a'
    } else if n == 11 {
        'b'
    } else if n == 12 {
        'c'
    } else if n == 13 {
        'd'
    } else if n == 14 {
        'e'
    } else {
        'f'
    }
}

/// The `k`-th nibble of `id`, most significant first (`k` in 0..32).
pub open spec fn nibble(id: u128, k: int) -> u128 {
    (id >> (((31 - k) * 4) as u128)) & 0xf
}

/// How many hyphens stand before position `i` of the hyphenated
/// spelling (hyphens sit at positions 8, 13, 18 and 23).
pub open spec fn hyphens_before(i: int) -> int {
    if i <= 8 {
        0
    } else if i <= 13 {
        1
    } else if i <= 18 {
        2
    } else if i <= 23 {
        3
    } else {
        4
    }
}

/// Whether position `i` of the spelling holds a hyphen.
pub open spec fn is_hyphen_pos(i: int) -> bool {
    i == 8 || i == 13 || i == 18 || i == 23
}

/// The character at position `i` of the hyphenated spelling of `id`.
pub open spec fn id_char_at(id: u128, i: int) -> char {
    if is_hyphen_pos(i) {
        '-'
    } else {
        hex_char(nibble(id, i - hyphens_before(i)))
    }
}

/// The canonical hyphenated lowercase hex spelling of `id`:
/// 36 characters, 8-4-4-4-12 hex digits.
pub open spec fn id_str(id: u128) -> Seq<char> {
    Seq::new(36, |i: int| id_char_at(id, i))
}

/// Spells `id` in its canonical hyphenated lowercase hex form.
pub fn id_to_string(id: u128) -> (s: String)
    ensures
        s@ == id_str(id),
{
    let mut s = String::new();
    let mut i: usize = 0;
    while i < 36
        invariant
            i <= 36,
            s@ =~= id_str(id).subrange(0, i as int),
        decreases 36 - i,
    {
        if i == 8 || i == 13 || i == 18 || i == 23 {
            push_char(&mut s, '-');
        } else {
            let h: usize = if i <= 8 {
                0
            } else if i <= 13 {
                1
            } else if i <= 18 {
                2
            } else if i <= 23 {
                3
            } else {
                4
            };
            let k: usize = i - h;
            let shift: u128 = ((31 - k) as u128) * 4;
            let n: u128 = (id >> shift) & 0xf;
            assert(n == nibble(id, k as int)) by (bit_vector)
                requires
                    n == (id >> shift) & 0xf,
                    shift == (31 - k as int) * 4,
                    k < 32,
            ;
            assert(n < 16) by (bit_vector)
                requires
                    n == (id >> shift) & 0xf,
            ;
            let c: char = if n < 10 {
                if n < 5 {
                    if n == 0 {
                        '0'
                    } else if n == 1 {
                        '1'
                    } else if n == 2 {
                        '2'
                    } else if n == 3 {
                        '3'
                    } else {
                        '4'
                    }
                } else {
                    if n == 5 {
                        '5'
                    } else if n == 6 {
                        '6'
                    } else if n == 7 {
                        '7'
                    } else if n == 8 {
                        '8'
                    } else {
                        '9'
                    }
                }
            } else {
                if n == 10 {
                    'a'
                } else if n == 11 {
                    'b'
                } else if n == 12 {
                    'c'
                } else if n == 13 {
                    'd'
                } else if n == 14 {
                    'e'
                } else {
                    'f'
                }
            };
            assert(c == hex_char(nibble(id, k as int)));
            push_char(&mut s, c);
        }
        i = i + 1;
        proof {
            assert(s@ =~= id_str(id).subrange(0, i as int));
        }
    }
    proof {
        assert(s@ =~= id_str(id));
    }
    s
}

proof fn lemma_nibble_bound(x: u128, k: int)
    requires
        0 <= k < 32,
    ensures
        nibble(x, k) < 16,
{
    let s = (((31 - k) * 4) as u128);
    assert((x >> s) & 0xf < 16) by (bit_vector);
}

proof fn lemma_hex_char_inj(m: u128, n: u128)
    requires
        m < 16,
        n < 16,
        hex_char(m) == hex_char(n),
    ensures
        m == n,
{
}

/// The position at which the `k`-th hex digit stands in the
/// hyphenated spelling.
pub open spec fn digit_pos(k: int) -> int {
    if k < 8 {
        k
    } else if k < 12 {
        k + 1
    } else if k < 16 {
        k + 2
    } else if k < 20 {
        k + 3
    } else {
        k + 4
    }
}

/// Distinct identifiers are spelled distinctly: the hyphenated hex
/// form loses nothing.
pub proof fn lemma_id_str_injective(a: u128, b: u128)
    requires
        a != b,
    ensures
        id_str(a) != id_str(b),
{
    if id_str(a) == id_str(b) {
        assert forall|k: int| 0 <= k < 32 implies nibble(a, k) == nibble(b, k) by {
            let i = digit_pos(k);
            assert(id_str(a)[i] == id_str(b)[i]);
            assert(i - hyphens_before(i) == k);
            lemma_nibble_bound(a, k);
            lemma_nibble_bound(b, k);
            lemma_hex_char_inj(nibble(a, k), nibble(b, k));
        }
        assert(nibble(a, 0) == nibble(b, 0));
        assert(nibble(a, 1) == nibble(b, 1));
        assert(nibble(a, 2) == nibble(b, 2));
        assert(nibble(a, 3) == nibble(b, 3));
        assert(nibble(a, 4) == nibble(b, 4));
        assert(nibble(a, 5) == nibble(b, 5));
        assert(nibble(a, 6) == nibble(b, 6));
        assert(nibble(a, 7) == nibble(b, 7));
        assert(nibble(a, 8) == nibble(b, 8));
        assert(nibble(a, 9) == nibble(b, 9));
        assert(nibble(a, 10) == nibble(b, 10));
        assert(nibble(a, 11) == nibble(b, 11));
        assert(nibble(a, 12) == nibble(b, 12));
        assert(nibble(a, 13) == nibble(b, 13));
        assert(nibble(a, 14) == nibble(b, 14));
        assert(nibble(a, 15) == nibble(b, 15));
        assert(nibble(a, 16) == nibble(b, 16));
        assert(nibble(a, 17) == nibble(b, 17));
        assert(nibble(a, 18) == nibble(b, 18));
        assert(nibble(a, 19) == nibble(b, 19));
        assert(nibble(a, 20) == nibble(b, 20));
        assert(nibble(a, 21) == nibble(b, 21));
        assert(nibble(a, 22) == nibble(b, 22));
        assert(nibble(a, 23) == nibble(b, 23));
        assert(nibble(a, 24) == nibble(b, 24));
        assert(nibble(a, 25) == nibble(b, 25));
        assert(nibble(a, 26) == nibble(b, 26));
        assert(nibble(a, 27) == nibble(b, 27));
        assert(nibble(a, 28) == nibble(b, 28));
        assert(nibble(a, 29) == nibble(b, 29));
        assert(nibble(a, 30) == nibble(b, 30));
        assert(nibble(a, 31) == nibble(b, 31));
        assert(a == b) by (bit_vector)
            requires
                (a >> 124u128) & 0xf == (b >> 124u128) & 0xf,
                (a >> 120u128) & 0xf == (b >> 120u128) & 0xf,
                (a >> 116u128) & 0xf == (b >> 116u128) & 0xf,
                (a >> 112u128) & 0xf == (b >> 112u128) & 0xf,
                (a >> 108u128) & 0xf == (b >> 108u128) & 0xf,
                (a >> 104u128) & 0xf == (b >> 104u128) & 0xf,
                (a >> 100u128) & 0xf == (b >> 100u128) & 0xf,
                (a >> 96u128) & 0xf == (b >> 96u128) & 0xf,
                (a >> 92u128) & 0xf == (b >> 92u128) & 0xf,
                (a >> 88u128) & 0xf == (b >> 88u128) & 0xf,
                (a >> 84u128) & 0xf == (b >> 84u128) & 0xf,
                (a >> 80u128) & 0xf == (b >> 80u128) & 0xf,
                (a >> 76u128) & 0xf == (b >> 76u128) & 0xf,
                (a >> 72u128) & 0xf == (b >> 72u128) & 0xf,
                (a >> 68u128) & 0xf == (b >> 68u128) & 0xf,
                (a >> 64u128) & 0xf == (b >> 64u128) & 0xf,
                (a >> 60u128) & 0xf == (b >> 60u128) & 0xf,
                (a >> 56u128) & 0xf == (b >> 56u128) & 0xf,
                (a >> 52u128) & 0xf == (b >> 52u128) & 0xf,
                (a >> 48u128) & 0xf == (b >> 48u128) & 0xf,
                (a >> 44u128) & 0xf == (b >> 44u128) & 0xf,
                (a >> 40u128) & 0xf == (b >> 40u128) & 0xf,
                (a >> 36u128) & 0xf == (b >> 36u128) & 0xf,
                (a >> 32u128) & 0xf == (b >> 32u128) & 0xf,
                (a >> 28u128) & 0xf == (b >> 28u128) & 0xf,
                (a >> 24u128) & 0xf == (b >> 24u128) & 0xf,
                (a >> 20u128) & 0xf == (b >> 20u128) & 0xf,
                (a >> 16u128) & 0xf == (b >> 16u128) & 0xf,
                (a >> 12u128) & 0xf == (b >> 12u128) & 0xf,
                (a >> 8u128) & 0xf == (b >> 8u128) & 0xf,
                (a >> 4u128) & 0xf == (b >> 4u128) & 0xf,
                (a >> 0u128) & 0xf == (b >> 0u128) & 0xf,
        ;
        assert(false);
    }
}

/// The shareable rendezvous link for session `id`.
pub open spec fn share_url_str(id: u128) -> Seq<char> {
    "https://filesend.rs/send/"@ + id_str(id)
}

/// Builds the link a peer shares out of band: the send page with the
/// session identifier as its path segment.
pub fn share_url(id: u128) -> (s: String)
    ensures
        s@ == share_url_str(id),
{
    let mut s = String::from_str("https://filesend.rs/send/");
    let tail = id_to_string(id);
    s.append(tail.as_str());
    s
}

/// Distinct sessions never share a spelling nor a rendezvous link.
pub proof fn lemma_share_urls_distinct(a: u128, b: u128)
    requires
        a != b,
    ensures
        id_str(a) != id_str(b),
        share_url_str(a) != share_url_str(b),
{
    lemma_id_str_injective(a, b);
    if share_url_str(a) == share_url_str(b) {
        let p = "https://filesend.rs/send/"@;
        assert((p + id_str(a)).subrange(p.len() as int, (p + id_str(a)).len() as int) =~= id_str(
            a,
        ));
        assert((p + id_str(b)).subrange(p.len() as int, (p + id_str(b)).len() as int) =~= id_str(
            b,
        ));
        assert(false);
    }
}

} // verus!
