//! Identifiers: UUIDs and the ids of chat completions.
use vstd::arithmetic::power::pow;
use vstd::prelude::*;

verus! {

/// The hexadecimal digit of `bits` at place `k`, the most significant one at
/// place 0 and the least significant one at place 31.
pub open spec fn nibble(bits: u128, k: int) -> int {
    (bits as int / pow(16, (31 - k) as nat)) % 16
}

/// The lower-case character of a hexadecimal digit.
pub open spec fn hex_char(d: int) -> char {
    if d < 10 {
        (48 + d) as char
    } else {
        (87 + d) as char
    }
}

/// The places of the hyphens in the text of a UUID.
pub open spec fn is_hyphen_place(i: int) -> bool {
    i == 8 || i == 13 || i == 18 || i == 23
}

/// The place of the hexadecimal digit that stands at place `i` of the text.
pub open spec fn digit_place(i: int) -> int {
    if i < 8 {
        i
    } else if i < 13 {
        i - 1
    } else if i < 18 {
        i - 2
    } else if i < 23 {
        i - 3
    } else {
        i - 4
    }
}

/// The text of a UUID: 32 hexadecimal digits in groups of 8, 4, 4, 4 and 12.
pub open spec fn hyphenated(bits: u128) -> Seq<char> {
    Seq::new(
        36,
        |i: int|
            if is_hyphen_place(i) {
                '-'
            } else {
                hex_char(nibble(bits, digit_place(i)))
            },
    )
}

/// A UUID of version 4 and of the variant that goes with it.
pub open spec fn is_version_4(bits: u128) -> bool {
    nibble(bits, 12) == 4 && 8 <= nibble(bits, 16) < 12
}

/// `uuid::Uuid::new_v4`: a random UUID of version 4, as an integer. Which one
/// it is rests on chance, so nothing more is claimed of it. It panics where the
/// operating system has no random bytes to give.
#[verifier::external_body]
pub(crate) fn new_v4() -> (r: u128)
    ensures
        is_version_4(r),
{
    uuid::Uuid::new_v4().as_u128()
}

/// `uuid::Uuid::nil`: the UUID whose bits are all zero, as an integer.
#[verifier::external_body]
fn nil() -> (r: u128)
    ensures
        r == 0,
{
    uuid::Uuid::nil().as_u128()
}

/// `Display` of `uuid::Uuid`: the lower-case hexadecimal digits with hyphens.
#[verifier::external_body]
fn uuid_text(bits: u128) -> (r: String)
    ensures
        r@ == hyphenated(bits),
{
    uuid::Uuid::from_u128(bits).to_string()
}

/// The id of a bot that was looked up: the nil UUID where it was not found.
pub fn bot_id_or_nil(found: Option<u128>) -> (r: u128)
    ensures
        r == (match found {
            Some(id) => id,
            None => 0,
        }),
{
    match found {
        Some(id) => id,
        None => nil(),
    }
}

/// The id of the completion that has this UUID.
pub open spec fn completion_id_model(uuid: u128) -> Seq<char> {
    "chatcmpl-"@ + hyphenated(uuid)
}

/// The id of the completion that has this UUID.
pub fn completion_id(uuid: u128) -> (r: String)
    ensures
        r@ == completion_id_model(uuid),
        r@ == "chatcmpl-"@ + hyphenated(uuid),
{
    "chatcmpl-".to_string().concat(uuid_text(uuid).as_str())
}

proof fn lemma_digits_determine(a: int, b: int, places: nat)
    requires
        0 <= a < pow(16, places),
        0 <= b < pow(16, places),
        forall|j: nat| j < places ==> (a / #[trigger] pow(16, j)) % 16 == (b / pow(16, j)) % 16,
    ensures
        a == b,
    decreases places,
{
    vstd::arithmetic::power::lemma_pow0(16);
    if places > 0 {
        let rest = (places - 1) as nat;
        assert(a / pow(16, 0) == a && b / pow(16, 0) == b);
        assert(a % 16 == b % 16);
        assert(pow(16, places) == 16 * pow(16, rest)) by {
            vstd::arithmetic::power::lemma_pow_adds(16, 1, rest);
            vstd::arithmetic::power::lemma_pow1(16);
        }
        assert forall|j: nat| j < rest implies ((a / 16) / #[trigger] pow(16, j)) % 16 == ((b / 16)
            / pow(16, j)) % 16 by {
            let next = (j + 1) as nat;
            vstd::arithmetic::power::lemma_pow_positive(16, j);
            vstd::arithmetic::power::lemma_pow_adds(16, 1, j);
            vstd::arithmetic::power::lemma_pow1(16);
            vstd::arithmetic::div_mod::lemma_div_denominator(a, 16, pow(16, j));
            vstd::arithmetic::div_mod::lemma_div_denominator(b, 16, pow(16, j));
            assert((a / pow(16, next)) % 16 == (b / pow(16, next)) % 16);
        }
        lemma_digits_determine(a / 16, b / 16, rest);
    }
}

/// Different UUIDs give different completion ids.
pub proof fn lemma_completion_id_injective(a: u128, b: u128)
    requires
        completion_id_model(a) == completion_id_model(b),
    ensures
        a == b,
{
    let prefix = "chatcmpl-"@;
    assert(hyphenated(a) =~= completion_id_model(a).skip(prefix.len() as int));
    assert(hyphenated(b) =~= completion_id_model(b).skip(prefix.len() as int));
    assert forall|j: nat| j < 32 implies (a as int / #[trigger] pow(16, j)) % 16 == (b as int / pow(
        16,
        j,
    )) % 16 by {
        let k = 31 - j;
        let i = if k < 8 {
            k
        } else if k < 12 {
            k + 1
        } else if k < 16 {
            k + 2
        } else if k < 20 {
            k + 3
        } else {
            k + 4
        };
        assert(digit_place(i) == k);
        assert(hyphenated(a)[i] == hex_char(nibble(a, k)));
        assert(hyphenated(b)[i] == hex_char(nibble(b, k)));
        assert(hex_char(nibble(a, k)) == hex_char(nibble(b, k)));
    }
    assert(u128::MAX < pow(16, 32)) by {
        reveal_with_fuel(pow, 33);
    }
    lemma_digits_determine(a as int, b as int, 32);
}

/// A completion id is `chatcmpl-`, then the text of the UUID: 36 characters, with
/// hyphens after the 8th, 12th, 16th and 20th hexadecimal digit, the digits from the
/// most significant to the least, in lower case.
pub proof fn lemma_completion_id_text(uuid: u128, i: int)
    requires
        0 <= i < 36,
    ensures
        completion_id_model(uuid).len() == 45,
        completion_id_model(uuid).take(9) == "chatcmpl-"@,
        ({
            let c = completion_id_model(uuid)[9 + i];
            let hyphens = if i < 8 {
                0int
            } else if i < 13 {
                1
            } else if i < 18 {
                2
            } else if i < 23 {
                3
            } else {
                4
            };
            if i == 8 || i == 13 || i == 18 || i == 23 {
                c == '-'
            } else {
                c == "0123456789abcdef"@[(uuid as int / pow(16, (31 + hyphens - i) as nat)) % 16]
            }
        }),
{
    reveal_strlit("chatcmpl-");
    reveal_strlit("0123456789abcdef");
    assert(completion_id_model(uuid).take(9) =~= "chatcmpl-"@);
    assert(completion_id_model(uuid)[9 + i] == hyphenated(uuid)[i]);
    if !is_hyphen_place(i) {
        let d = nibble(uuid, digit_place(i));
        assert(0 <= d < 16);
        assert(hex_char(d) == "0123456789abcdef"@[d]);
    }
}

} // verus!
