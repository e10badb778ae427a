//! Properties that relate the decoders, the dispatcher and the token store.
use crate::claim::{
    claim_kind_spec, detailed, extract_spec, plain, resolve_spec, ClaimKind, ClaimView, TimeRange,
    FUNCTION, INPUTS, INVALID_METHOD, INVALID_TIME_RANGE, TOKEN_NOT_FOUND,
};
use crate::decode::{
    digits_value, has_hex_prefix, hex_digit_value, hex_number, lemma_non_digit_spoils, scalar_byte,
    scalar_char, scalar_u64, scalars_text,
};
use crate::json::{get_spec, JsonValue};
use vstd::prelude::*;
use vstd::utf8::*;

verus! {

/// The lower-case ASCII hexadecimal digit for `d < 16`.
pub open spec fn hex_digit_byte(d: nat) -> u8 {
    if d < 10 {
        (0x30 + d) as u8
    } else {
        (0x61 + d - 10) as u8
    }
}

/// The lower-case base-16 digits of `n`, with no leading zeros.
pub open spec fn hex_rendering(n: nat) -> Seq<u8>
    decreases n,
{
    if n < 16 {
        seq![hex_digit_byte(n)]
    } else {
        hex_rendering(n / 16).push(hex_digit_byte(n % 16))
    }
}

/// `key` spells `id` one wire scalar per character: `0x` and the
/// character's code in base 16.
pub open spec fn renders_text(key: Seq<JsonValue>, id: Seq<char>) -> bool {
    &&& key.len() == id.len()
    &&& forall|i: int|
        0 <= i < key.len() ==> {
            &&& #[trigger] key[i] is Str
            &&& encode_utf8(key[i]->Str_0@) == seq![0x30u8, 0x78u8] + hex_rendering(
                id[i] as u32 as nat,
            )
        }
}

/// The token that a claim call carries.
pub open spec fn claim_token(c: ClaimView) -> Seq<char> {
    match c {
        ClaimView::TopTracks { token, .. } => token,
        ClaimView::TopArtists { token, .. } => token,
        ClaimView::RecentlyPlayedTrack { token, .. } => token,
    }
}

/// A wire scalar `0xNN`, with `NN` the two hexadecimal digits of a byte `n`,
/// decodes to `n`.
pub proof fn byte_decode_recovers_value(v: JsonValue, n: u8)
    requires
        v is Str,
        encode_utf8(v->Str_0@) == seq![
            0x30u8,
            0x78u8,
            hex_digit_byte(n as nat / 16),
            hex_digit_byte(n as nat % 16),
        ],
    ensures
        scalar_byte(v) == n,
{
    let b = encode_utf8(v->Str_0@);
    let hi = hex_digit_byte(n as nat / 16);
    let lo = hex_digit_byte(n as nat % 16);
    let t = b.skip(2);
    assert(t =~= seq![hi, lo]);
    assert(t.drop_last() =~= seq![hi]);
    assert(t.drop_last().drop_last() =~= Seq::<u8>::empty());
    assert(hex_digit_value(hi) == Some(n as nat / 16));
    assert(hex_digit_value(lo) == Some(n as nat % 16));
    let s1 = t.drop_last();
    assert(s1.last() == hi);
    assert(digits_value(s1.drop_last()) == Some(0nat));
    assert(digits_value(s1) == Some(n as nat / 16));
    assert(t.last() == lo);
    assert(digits_value(t) == Some(n as nat));
    assert(hex_number(t) == Some(n as nat));
}

/// A wire scalar `0x` followed by text holding a byte that is no
/// hexadecimal digit decodes to 0, as a byte and as a 64-bit integer.
pub proof fn non_hex_scalar_decodes_to_zero(v: JsonValue, j: int)
    requires
        v is Str,
        has_hex_prefix(encode_utf8(v->Str_0@)),
        2 <= j < encode_utf8(v->Str_0@).len(),
        hex_digit_value(encode_utf8(v->Str_0@)[j]) is None,
    ensures
        scalar_byte(v) == 0,
        scalar_u64(v) == 0,
{
    let b = encode_utf8(v->Str_0@);
    let t = b.skip(2);
    assert(t[j - 2] == b[j]);
    lemma_non_digit_spoils(t, j - 2);
    assert(hex_number(t) is None);
}

proof fn lemma_rendering_value(n: nat)
    ensures
        hex_rendering(n).len() > 0,
        digits_value(hex_rendering(n)) == Some(n),
    decreases n,
{
    if n < 16 {
        let r = hex_rendering(n);
        assert(r.drop_last() =~= Seq::<u8>::empty());
        assert(digits_value(r.drop_last()) == Some(0nat));
    } else {
        lemma_rendering_value(n / 16);
        let r = hex_rendering(n);
        assert(r.drop_last() =~= hex_rendering(n / 16));
    }
}

/// A wire scalar `0x` followed by the base-16 digits of a character's code
/// decodes to that character.
pub proof fn char_decode_recovers_character(v: JsonValue, c: char)
    requires
        v is Str,
        encode_utf8(v->Str_0@) == seq![0x30u8, 0x78u8] + hex_rendering(c as u32 as nat),
    ensures
        scalar_char(v) == c,
{
    let b = encode_utf8(v->Str_0@);
    let u = c as u32;
    lemma_rendering_value(u as nat);
    assert(b.skip(2) =~= hex_rendering(u as nat));
    assert(hex_number(b.skip(2)) == Some(u as nat));
    char_is_scalar(c);
    char_u32_cast(c, u);
}

/// Wire scalars that render a text one character each decode to that text.
pub proof fn rendered_text_decodes(key: Seq<JsonValue>, id: Seq<char>)
    requires
        renders_text(key, id),
    ensures
        scalars_text(key) == id,
{
    assert forall|i: int| 0 <= i < key.len() implies #[trigger] scalars_text(key)[i] == id[i] by {
        char_decode_recovers_character(key[i], id[i]);
    }
    assert(scalars_text(key) =~= id);
}

/// Decoding a sequence of wire scalars gives one character per scalar, the
/// null character standing in for a malformed one.
pub proof fn decoded_text_has_one_char_per_scalar(items: Seq<JsonValue>)
    ensures
        scalars_text(items).len() == items.len(),
        forall|i: int|
            0 <= i < items.len() ==> #[trigger] scalars_text(items)[i] == scalar_char(items[i]),
{
}

/// A foreign call whose `inputs` is an array of other than four elements
/// fails, whatever its `function`.
pub proof fn wrong_input_count_fails(params: JsonValue, tokens: Map<Seq<char>, Seq<char>>)
    requires
        params is Array,
        params->Array_0@.len() == 1,
        params->Array_0@[0] is Object,
        get_spec(params->Array_0@[0], INPUTS@) matches Some(JsonValue::Array(inputs)),
        get_spec(params->Array_0@[0], INPUTS@)->Some_0->Array_0@.len() != 4,
    ensures
        resolve_spec(params, tokens) is Err,
{
    assert(extract_spec(params->Array_0@[0]) is Err);
}

/// A foreign call whose `function` names none of the claims fails with
/// "Invalid method".
pub proof fn unknown_function_fails(params: JsonValue, tokens: Map<Seq<char>, Seq<char>>)
    requires
        params is Array,
        params->Array_0@.len() == 1,
        params->Array_0@[0] is Object,
        get_spec(params->Array_0@[0], FUNCTION@) is Some,
        claim_kind_spec(get_spec(params->Array_0@[0], FUNCTION@)->Some_0) is None,
    ensures
        resolve_spec(params, tokens) == Err::<ClaimView, _>(plain(INVALID_METHOD@)),
{
}

/// A top-tracks or top-artists call whose first time-range byte names no
/// window fails with the enumeration's message, so no evaluator call is made.
pub proof fn unknown_time_range_fails(params: JsonValue, tokens: Map<Seq<char>, Seq<char>>)
    requires
        params is Array,
        params->Array_0@.len() == 1,
        params->Array_0@[0] is Object,
        get_spec(params->Array_0@[0], FUNCTION@) is Some,
        claim_kind_spec(get_spec(params->Array_0@[0], FUNCTION@)->Some_0) == Some(
            ClaimKind::TopTracks,
        ) || claim_kind_spec(get_spec(params->Array_0@[0], FUNCTION@)->Some_0) == Some(
            ClaimKind::TopArtists,
        ),
        extract_spec(params->Array_0@[0]) is Ok,
        extract_spec(params->Array_0@[0])->Ok_0.2.len() > 0,
        extract_spec(params->Array_0@[0])->Ok_0.3.len() > 0,
        TimeRange::from_number_spec(scalar_byte(extract_spec(params->Array_0@[0])->Ok_0.2[0]))
            is None,
    ensures
        resolve_spec(params, tokens) == Err::<ClaimView, _>(detailed(INVALID_TIME_RANGE@)),
{
}

/// After `store_key(id, token)`, a claim whose key decodes to `id` finds a
/// token, and the call it leads to carries `token`.
pub proof fn stored_token_is_found(
    params: JsonValue,
    tokens: Map<Seq<char>, Seq<char>>,
    id: Seq<char>,
    token: Seq<char>,
)
    requires
        params is Array,
        params->Array_0@.len() == 1,
        extract_spec(params->Array_0@[0]) is Ok,
        scalars_text(extract_spec(params->Array_0@[0])->Ok_0.0) == id,
    ensures
        resolve_spec(params, tokens.insert(id, token)) != Err::<ClaimView, _>(
            detailed(TOKEN_NOT_FOUND@),
        ),
        resolve_spec(params, tokens.insert(id, token)) is Ok ==> claim_token(
            resolve_spec(params, tokens.insert(id, token))->Ok_0,
        ) == token,
{
    let m = tokens.insert(id, token);
    assert(m.contains_key(id) && m[id] == token);
    if resolve_spec(params, m) == Err::<ClaimView, _>(detailed(TOKEN_NOT_FOUND@)) {
        let e = resolve_spec(params, m)->Err_0;
        assert(e.message == TOKEN_NOT_FOUND@);
        reveal_strlit("No token stored for this key");
        reveal_strlit("Invalid time range");
        assert(TOKEN_NOT_FOUND@ != INVALID_TIME_RANGE@) by {
            assert(TOKEN_NOT_FOUND@[0] != INVALID_TIME_RANGE@[0]);
        }
    }
}

/// After `store_key(id, token)`, a claim whose key is the hexadecimal
/// rendering of `id`, one wire scalar per character, finds a token, and the
/// call it leads to carries `token`.
pub proof fn stored_token_is_found_by_rendered_key(
    params: JsonValue,
    tokens: Map<Seq<char>, Seq<char>>,
    id: Seq<char>,
    token: Seq<char>,
)
    requires
        params is Array,
        params->Array_0@.len() == 1,
        extract_spec(params->Array_0@[0]) is Ok,
        renders_text(extract_spec(params->Array_0@[0])->Ok_0.0, id),
    ensures
        resolve_spec(params, tokens.insert(id, token)) != Err::<ClaimView, _>(
            detailed(TOKEN_NOT_FOUND@),
        ),
        resolve_spec(params, tokens.insert(id, token)) is Ok ==> claim_token(
            resolve_spec(params, tokens.insert(id, token))->Ok_0,
        ) == token,
{
    rendered_text_decodes(extract_spec(params->Array_0@[0])->Ok_0.0, id);
    stored_token_is_found(params, tokens, id, token);
}

/// Deleting an identifier that holds no token leaves the tokens as they were.
pub proof fn deleting_absent_key_changes_nothing(tokens: Map<Seq<char>, Seq<char>>, id: Seq<char>)
    requires
        !tokens.contains_key(id),
    ensures
        tokens.remove(id) == tokens,
{
    assert(tokens.remove(id) =~= tokens);
}

} // verus!
