//! Choosing the id of a new session: the drawn UUID, or, when the store
//! already holds it, a variant of it that the store does not hold.
use vstd::prelude::*;
use vstd::set_lib::lemma_len_subset;

use crate::crypto_manager::{is_lower_hex, is_uuid_v4};
use crate::session_manager::{check_session, session_count, SessionStore};

verus! {

/// The lowercase hexadecimal digit of `v` (below 16).
pub open spec fn hex_char(v: u64) -> char {
    if v < 10 {
        (48 + v) as char
    } else {
        (87 + v) as char
    }
}

/// The `i`-th hexadecimal digit of `k`, counted from the least significant.
pub open spec fn nibble(k: u64, i: int) -> u64 {
    (k >> ((4 * i) as u64)) & 15u64
}

/// Which digit of a counter the character at position `p` of a variant
/// id carries (positions 0-7, 9-12 and 24-27), or -1 when it keeps the
/// character of the drawn id.
pub open spec fn slot_of(p: int) -> int {
    if 0 <= p < 8 {
        p
    } else if 9 <= p < 13 {
        p - 1
    } else if 24 <= p < 28 {
        p - 12
    } else {
        -1
    }
}

/// The position that carries digit `i` (below 16) of the counter.
pub open spec fn position_of_slot(i: int) -> int {
    if i < 8 {
        i
    } else if i < 12 {
        i + 1
    } else {
        i + 12
    }
}

/// The `k`-th variant of the drawn id `drawn`: the 16 hexadecimal digits
/// of `k` written over positions 0-7, 9-12 and 24-27, the rest kept.
pub open spec fn variant_id(drawn: Seq<char>, k: u64) -> Seq<char> {
    Seq::new(
        36,
        |p: int|
            if slot_of(p) >= 0 {
                hex_char(nibble(k, slot_of(p)))
            } else {
                drawn[p]
            },
    )
}

proof fn lemma_hex_char(v: u64)
    requires
        v < 16,
    ensures
        is_lower_hex(hex_char(v)),
        forall|w: u64| w < 16 && #[trigger] hex_char(w) == hex_char(v) ==> w == v,
{
}

proof fn lemma_nibbles_determine(a: u64, b: u64)
    by (bit_vector)
    requires
        (a >> 0u64) & 15u64 == (b >> 0u64) & 15u64,
        (a >> 4u64) & 15u64 == (b >> 4u64) & 15u64,
        (a >> 8u64) & 15u64 == (b >> 8u64) & 15u64,
        (a >> 12u64) & 15u64 == (b >> 12u64) & 15u64,
        (a >> 16u64) & 15u64 == (b >> 16u64) & 15u64,
        (a >> 20u64) & 15u64 == (b >> 20u64) & 15u64,
        (a >> 24u64) & 15u64 == (b >> 24u64) & 15u64,
        (a >> 28u64) & 15u64 == (b >> 28u64) & 15u64,
        (a >> 32u64) & 15u64 == (b >> 32u64) & 15u64,
        (a >> 36u64) & 15u64 == (b >> 36u64) & 15u64,
        (a >> 40u64) & 15u64 == (b >> 40u64) & 15u64,
        (a >> 44u64) & 15u64 == (b >> 44u64) & 15u64,
        (a >> 48u64) & 15u64 == (b >> 48u64) & 15u64,
        (a >> 52u64) & 15u64 == (b >> 52u64) & 15u64,
        (a >> 56u64) & 15u64 == (b >> 56u64) & 15u64,
        (a >> 60u64) & 15u64 == (b >> 60u64) & 15u64,
    ensures
        a == b,
{
}

proof fn lemma_nibble_small(k: u64, i: int)
    ensures
        nibble(k, i) < 16,
{
    let s = (4 * i) as u64;
    assert((k >> s) & 15u64 < 16) by (bit_vector);
}

/// Distinct counters give distinct variants.
proof fn lemma_variant_injective(drawn: Seq<char>, a: u64, b: u64)
    requires
        variant_id(drawn, a) == variant_id(drawn, b),
    ensures
        a == b,
{
    assert forall|i: int| 0 <= i < 16 implies nibble(a, i) == nibble(b, i) by {
        let p = position_of_slot(i);
        assert(0 <= p < 36 && slot_of(p) == i);
        assert(variant_id(drawn, a)[p] == hex_char(nibble(a, i)));
        assert(variant_id(drawn, b)[p] == hex_char(nibble(b, i)));
        lemma_nibble_small(a, i);
        lemma_nibble_small(b, i);
        lemma_hex_char(nibble(a, i));
        assert(hex_char(nibble(b, i)) == hex_char(nibble(a, i)));
    }
    assert(nibble(a, 0) == nibble(b, 0));
    assert(nibble(a, 1) == nibble(b, 1));
    assert(nibble(a, 2) == nibble(b, 2));
    assert(nibble(a, 3) == nibble(b, 3));
    assert(nibble(a, 4) == nibble(b, 4));
    assert(nibble(a, 5) == nibble(b, 5));
    assert(nibble(a, 6) == nibble(b, 6));
    assert(nibble(a, 7) == nibble(b, 7));
    assert(nibble(a, 8) == nibble(b, 8));
    assert(nibble(a, 9) == nibble(b, 9));
    assert(nibble(a, 10) == nibble(b, 10));
    assert(nibble(a, 11) == nibble(b, 11));
    assert(nibble(a, 12) == nibble(b, 12));
    assert(nibble(a, 13) == nibble(b, 13));
    assert(nibble(a, 14) == nibble(b, 14));
    assert(nibble(a, 15) == nibble(b, 15));
    lemma_nibbles_determine(a, b);
}

/// A variant of a UUID v4 is a UUID v4.
proof fn lemma_variant_is_uuid_v4(drawn: Seq<char>, k: u64)
    requires
        is_uuid_v4(drawn),
    ensures
        is_uuid_v4(variant_id(drawn, k)),
{
    let v = variant_id(drawn, k);
    assert forall|i: int| 0 <= i < 36 implies if i == 8 || i == 13 || i == 18 || i == 23 {
        #[trigger] v[i] == '-'
    } else {
        is_lower_hex(v[i])
    } by {
        if slot_of(i) >= 0 {
            lemma_nibble_small(k, slot_of(i));
            lemma_hex_char(nibble(k, slot_of(i)));
        } else {
            assert(v[i] == drawn[i]);
        }
    }
}

/// When the variants 0 to `k` are all ids of the finite set `ids`, it holds
/// more than `k` ids.
proof fn lemma_variants_exceed(ids: Set<Seq<char>>, drawn: Seq<char>, k: u64)
    requires
        ids.finite(),
        forall|j: u64| j <= k ==> ids.contains(#[trigger] variant_id(drawn, j)),
    ensures
        k < ids.len(),
{
    let vs = Seq::new((k + 1) as nat, |i: int| variant_id(drawn, i as u64));
    assert(vs.no_duplicates()) by {
        assert forall|i: int, j: int| 0 <= i < vs.len() && 0 <= j < vs.len() && i != j implies vs[i]
            != vs[j] by {
            if vs[i] == vs[j] {
                lemma_variant_injective(drawn, i as u64, j as u64);
            }
        }
    }
    vs.unique_seq_to_set();
    assert(vs.to_set().subset_of(ids)) by {
        assert forall|x: Seq<char>| vs.to_set().contains(x) implies ids.contains(x) by {
            let i = choose|i: int| 0 <= i < vs.len() && vs[i] == x;
            assert(ids.contains(variant_id(drawn, i as u64)));
        }
    }
    lemma_len_subset(vs.to_set(), ids);
}

/// The `k`-th variant of the drawn id.
fn variant_of(drawn: &str, k: u64) -> (res: String)
    requires
        drawn@.len() == 36,
    ensures
        res@ == variant_id(drawn@, k),
{
    let digits = "0123456789abcdef";
    proof {
        reveal_strlit("0123456789abcdef");
    }
    assert forall|d: u64| d < 16 implies #[trigger] digits@[d as int] == hex_char(d) by {
        if d == 0 {
        } else if d == 1 {
        } else if d == 2 {
        } else if d == 3 {
        } else if d == 4 {
        } else if d == 5 {
        } else if d == 6 {
        } else if d == 7 {
        } else if d == 8 {
        } else if d == 9 {
        } else if d == 10 {
        } else if d == 11 {
        } else if d == 12 {
        } else if d == 13 {
        } else if d == 14 {
        } else {
        }
    }
    let ghost target = variant_id(drawn@, k);
    let mut out = String::new();
    let mut p: usize = 0;
    while p < 36
        invariant
            drawn@.len() == 36,
            digits@.len() == 16,
            target == variant_id(drawn@, k),
            forall|d: u64| d < 16 ==> #[trigger] digits@[d as int] == hex_char(d),
            p <= 36,
            out@ == target.take(p as int),
        decreases 36 - p,
    {
        let piece = if p < 8 || (9 <= p && p < 13) || (24 <= p && p < 28) {
            let slot: u64 = if p < 8 {
                p as u64
            } else if p < 13 {
                (p - 1) as u64
            } else {
                (p - 12) as u64
            };
            let d: u64 = (k >> (4 * slot)) & 15;
            proof {
                lemma_nibble_small(k, slot as int);
            }
            let di = d as usize;
            let piece = digits.substring_char(di, di + 1);
            assert(piece@ =~= seq![hex_char(d)]);
            piece
        } else {
            let piece = drawn.substring_char(p, p + 1);
            assert(piece@ =~= seq![drawn@[p as int]]);
            piece
        };
        assert(piece@ =~= seq![target[p as int]]);
        out.append(piece);
        assert(out@ =~= target.take(p + 1));
        p = p + 1;
    }
    assert(target.take(36) =~= target);
    out
}

/// The id of a new session: `drawn` when the store does not hold it,
/// otherwise the first of its variants that the store does not hold.
pub fn fresh_session_id(store: &SessionStore, drawn: String) -> (res: String)
    requires
        is_uuid_v4(drawn@),
    ensures
        is_uuid_v4(res@),
        !store@.contains_key(res@),
        !store@.contains_key(drawn@) ==> res@ == drawn@,
{
    if check_session(store, drawn.as_str()).is_none() {
        return drawn;
    }
    let n = session_count(store);
    let mut k: u64 = 0;
    loop
        invariant
            is_uuid_v4(drawn@),
            store@.contains_key(drawn@),
            store@.dom().finite(),
            n == store@.len(),
            k <= n,
            forall|j: u64| j < k ==> store@.dom().contains(#[trigger] variant_id(drawn@, j)),
        decreases n - k,
    {
        let candidate = variant_of(drawn.as_str(), k);
        if check_session(store, candidate.as_str()).is_none() {
            proof {
                lemma_variant_is_uuid_v4(drawn@, k);
            }
            return candidate;
        }
        proof {
            lemma_variants_exceed(store@.dom(), drawn@, k);
        }
        k = k + 1;
    }
}

} // verus!
