//! The clipboard numeric extractor: clipboard text is a player identifier
//! only when it is exactly nine ASCII digits; everything else maps to the
//! "absent" sentinel 0. The extractor classifies, it never fails.
//!
//! Known ambiguity, kept on purpose: the text `"000000000"` is nine valid
//! digits and denotes 0, which is indistinguishable from the sentinel.

use vstd::prelude::*;
use vstd::string::StrSliceExecFns;
use crate::digits::digits_value;
use crate::digits::is_digit_char;
use crate::digits::lemma_digits_value_bound;
use crate::digits::lemma_pow10_mono;
use crate::digits::pow10;

verus! {

/// The number of digits a player identifier has.
pub open spec fn player_id_len() -> int {
    9
}

/// Whether `s` is the text of a player identifier: exactly nine characters,
/// all ASCII digits. Any nine digits fit a 32-bit signed integer, so no
/// separate overflow condition is needed.
pub open spec fn is_player_id_text(s: Seq<char>) -> bool {
    &&& s.len() == player_id_len()
    &&& forall|i: int| 0 <= i < s.len() ==> is_digit_char(s[i])
}

/// Extract a player identifier from clipboard text: its numeric value when
/// the text is exactly nine ASCII digits, and the sentinel 0 otherwise.
pub fn get_player_id(text: String) -> (r: i32)
    ensures
        is_player_id_text(text@) ==> r == digits_value(text@),
        !is_player_id_text(text@) ==> r == 0,
        0 <= r,
{
    let st: &str = text.as_str();
    if st.unicode_len() != 9 {
        return 0;
    }
    let mut v: i32 = 0;
    let mut i: usize = 0;
    proof {
        assert(pow10(0) == 1);
        assert(pow10(1) == 10);
        assert(pow10(2) == 100);
        assert(pow10(3) == 1000);
        assert(pow10(4) == 10000);
        assert(pow10(5) == 100000);
        assert(pow10(6) == 1000000);
        assert(pow10(7) == 10000000);
        assert(pow10(8) == 100000000);
    }
    while i < 9
        invariant
            st@ == text@,
            st@.len() == 9,
            i <= 9,
            forall|j: int| 0 <= j < i ==> is_digit_char(st@[j]),
            0 <= v < pow10(i as nat),
            v == digits_value(st@.subrange(0, i as int)),
            pow10(8) == 100000000,
        decreases 9 - i,
    {
        let c = st.get_char(i);
        if c < '0' || '9' < c {
            proof {
                assert(!is_digit_char(text@[i as int]));
            }
            return 0;
        }
        let d: u32 = c as u32 - '0' as u32;
        proof {
            let ghost pre = st@.subrange(0, i as int);
            let ghost cur = st@.subrange(0, i as int + 1);
            assert(cur.drop_last() =~= pre);
            assert(cur.last() == st@[i as int]);
            assert(forall|j: int| 0 <= j < i ==> is_digit_char(#[trigger] pre[j]));
            lemma_digits_value_bound(pre);
            assert(pow10((i + 1) as nat) == 10 * pow10(i as nat));
            lemma_pow10_mono(i as nat, 8);
            assert(v < 100000000);
        }
        v = v * 10 + (d as i32);
        i = i + 1;
    }
    proof {
        assert(st@.subrange(0, 9) =~= st@);
        assert(is_player_id_text(text@));
    }
    v
}

} // verus!
