//! Claim requests: validation of the `inputs` shape, decoding of the four
//! positional arrays, dispatch on the `function` name, and the call that the
//! claim evaluator is then to make.
use crate::decode::{
    hex_to_bytes, hex_to_string, hex_to_u64s, scalar_byte, scalar_u64, scalars_text,
};
use crate::json::{get_spec, JsonValue};
use crate::store::TokenStore;
use vstd::prelude::*;
use vstd::string::*;

verus! {

/// The `function` name of a top-tracks claim.
pub const CAN_CLAIM_TOP_TRACKS: &'static str = "can_claim_top_tracks";

/// The `function` name of a top-artists claim.
pub const CAN_CLAIM_TOP_ARTISTS: &'static str = "can_claim_top_artists";

/// The `function` name of a recently-played-track claim.
pub const CAN_CLAIM_RECENTLY_PLAYED_TRACK: &'static str = "can_claim_recently_played_track";

pub const INPUTS: &'static str = "inputs";

pub const FUNCTION: &'static str = "function";

pub const VALUES: &'static str = "values";

pub const MISSING_INPUTS: &'static str = "Missing or invalid 'inputs'";

pub const REQUIRES_FOUR_INPUTS: &'static str = "Invalid input; requires 4 distinct inputs";

pub const FIRST_NOT_ARRAY: &'static str = "First input must be an array";

pub const SECOND_NOT_ARRAY: &'static str = "Second input must be an array";

pub const THIRD_NOT_ARRAY: &'static str = "Third input must be an array";

pub const FOURTH_NOT_ARRAY: &'static str = "Fourth input must be an array";

pub const EMPTY_RANGE: &'static str = "Time range or list range is empty";

pub const INVALID_TIME_RANGE: &'static str = "Invalid time range";

pub const TOKEN_NOT_FOUND: &'static str = "No token stored for this key";

pub const EXPECTED_OBJECT: &'static str = "Invalid params; expected an object";

pub const EXPECTED_SINGLE_ITEM: &'static str = "Invalid params; expected a single-item array";

pub const MISSING_FUNCTION: &'static str = "Missing 'function' field";

pub const INVALID_METHOD: &'static str = "Invalid method";

pub const EMPTY_ID_OR_TOKEN: &'static str = "ID or token cannot be empty";

/// An invalid-parameters error. `detailed` errors come from a collaborator
/// (the time-range enumeration, the token store, the claim evaluator) and
/// are reported with details attached.
#[derive(Debug)]
pub struct ParamsError {
    pub message: String,
    pub detailed: bool,
}

/// What an error says.
pub struct ErrorView {
    pub message: Seq<char>,
    pub detailed: bool,
}

impl View for ParamsError {
    type V = ErrorView;

    open spec fn view(&self) -> ErrorView {
        ErrorView { message: self.message@, detailed: self.detailed }
    }
}

pub open spec fn plain(message: Seq<char>) -> ErrorView {
    ErrorView { message, detailed: false }
}

pub open spec fn detailed(message: Seq<char>) -> ErrorView {
    ErrorView { message, detailed: true }
}

fn plain_error(message: &str) -> (r: ParamsError)
    ensures
        r@ == plain(message@),
{
    ParamsError { message: String::from_str(message), detailed: false }
}

fn detailed_error(message: &str) -> (r: ParamsError)
    ensures
        r@ == detailed(message@),
{
    ParamsError { message: String::from_str(message), detailed: true }
}

/// The historical window of a top-N claim.
#[derive(Clone, Copy, Debug, PartialEq, Eq, Structural)]
pub enum TimeRange {
    ShortTerm,
    MediumTerm,
    LongTerm,
}

impl TimeRange {
    pub open spec fn from_number_spec(n: u8) -> Option<TimeRange> {
        if n == 0 {
            Some(TimeRange::ShortTerm)
        } else if n == 1 {
            Some(TimeRange::MediumTerm)
        } else if n == 2 {
            Some(TimeRange::LongTerm)
        } else {
            None
        }
    }

    /// The window numbered `n`; an error message for any other byte.
    pub fn from_number(n: u8) -> (r: Result<TimeRange, String>)
        ensures
            match TimeRange::from_number_spec(n) {
                Some(t) => r == Ok::<TimeRange, String>(t),
                None => r is Err && r->Err_0@ == INVALID_TIME_RANGE@,
            },
    {
        if n == 0 {
            Ok(TimeRange::ShortTerm)
        } else if n == 1 {
            Ok(TimeRange::MediumTerm)
        } else if n == 2 {
            Ok(TimeRange::LongTerm)
        } else {
            Err(String::from_str(INVALID_TIME_RANGE))
        }
    }
}

/// The claims that the oracle resolves.
#[derive(Clone, Copy, Debug, PartialEq, Eq, Structural)]
pub enum ClaimKind {
    TopTracks,
    TopArtists,
    RecentlyPlayedTrack,
}

/// The claim that a `function` value names, if any.
pub open spec fn claim_kind_spec(f: JsonValue) -> Option<ClaimKind> {
    match f {
        JsonValue::Str(s) => if s@ == CAN_CLAIM_TOP_TRACKS@ {
            Some(ClaimKind::TopTracks)
        } else if s@ == CAN_CLAIM_TOP_ARTISTS@ {
            Some(ClaimKind::TopArtists)
        } else if s@ == CAN_CLAIM_RECENTLY_PLAYED_TRACK@ {
            Some(ClaimKind::RecentlyPlayedTrack)
        } else {
            None
        },
        _ => None,
    }
}

impl ClaimKind {
    /// The claim that a `function` value names: an exact match of its text.
    pub fn from_function(f: &JsonValue) -> (r: Option<ClaimKind>)
        ensures
            r == claim_kind_spec(*f),
    {
        match f.as_str() {
            Some(s) => if *s == String::from_str(CAN_CLAIM_TOP_TRACKS) {
                Some(ClaimKind::TopTracks)
            } else if *s == String::from_str(CAN_CLAIM_TOP_ARTISTS) {
                Some(ClaimKind::TopArtists)
            } else if *s == String::from_str(CAN_CLAIM_RECENTLY_PLAYED_TRACK) {
                Some(ClaimKind::RecentlyPlayedTrack)
            } else {
                None
            },
            None => None,
        }
    }
}

/// The evaluator call that a valid claim request asks for.
#[derive(Debug)]
pub enum ClaimCall {
    TopTracks { token: String, track: String, time_range: TimeRange, list_range: u8 },
    TopArtists { token: String, track: String, time_range: TimeRange, list_range: u8 },
    RecentlyPlayedTrack { token: String, track: String, after: u64, played_time: u8 },
}

/// What a claim call holds.
pub enum ClaimView {
    TopTracks { token: Seq<char>, track: Seq<char>, time_range: TimeRange, list_range: u8 },
    TopArtists { token: Seq<char>, track: Seq<char>, time_range: TimeRange, list_range: u8 },
    RecentlyPlayedTrack { token: Seq<char>, track: Seq<char>, after: u64, played_time: u8 },
}

impl View for ClaimCall {
    type V = ClaimView;

    open spec fn view(&self) -> ClaimView {
        match *self {
            ClaimCall::TopTracks { token, track, time_range, list_range } => ClaimView::TopTracks {
                token: token@,
                track: track@,
                time_range,
                list_range,
            },
            ClaimCall::TopArtists { token, track, time_range, list_range } => ClaimView::TopArtists {
                token: token@,
                track: track@,
                time_range,
                list_range,
            },
            ClaimCall::RecentlyPlayedTrack { token, track, after, played_time } =>
                ClaimView::RecentlyPlayedTrack { token: token@, track: track@, after, played_time },
        }
    }
}

pub open spec fn outcome_view(r: Result<ClaimCall, ParamsError>) -> Result<ClaimView, ErrorView> {
    match r {
        Ok(c) => Ok(c@),
        Err(e) => Err(e@),
    }
}

/// The four positional arrays of a request's `inputs`: key, track, and the
/// two range arrays; or the error for the first shape rule that fails.
pub open spec fn extract_spec(params: JsonValue) -> Result<
    (Seq<JsonValue>, Seq<JsonValue>, Seq<JsonValue>, Seq<JsonValue>),
    ErrorView,
> {
    match get_spec(params, INPUTS@) {
        Some(JsonValue::Array(inputs)) => {
            let a = inputs@;
            if a.len() != 4 {
                Err(plain(REQUIRES_FOUR_INPUTS@))
            } else if !(a[0] is Array) {
                Err(plain(FIRST_NOT_ARRAY@))
            } else if !(a[1] is Array) {
                Err(plain(SECOND_NOT_ARRAY@))
            } else if !(a[2] is Array) {
                Err(plain(THIRD_NOT_ARRAY@))
            } else if !(a[3] is Array) {
                Err(plain(FOURTH_NOT_ARRAY@))
            } else {
                Ok((a[0]->Array_0@, a[1]->Array_0@, a[2]->Array_0@, a[3]->Array_0@))
            }
        },
        _ => Err(plain(MISSING_INPUTS@)),
    }
}

/// Checks that `params` holds `inputs`, an array of exactly four arrays, and
/// returns them in order.
pub fn validate_and_extract_inputs(params: &JsonValue) -> (r: Result<
    (&Vec<JsonValue>, &Vec<JsonValue>, &Vec<JsonValue>, &Vec<JsonValue>),
    ParamsError,
>)
    ensures
        match extract_spec(*params) {
            Ok((k, t, a, b)) => r is Ok && r->Ok_0.0@ == k && r->Ok_0.1@ == t && r->Ok_0.2@ == a
                && r->Ok_0.3@ == b,
            Err(e) => r is Err && r->Err_0@ == e,
        },
{
    let inputs = match params.get(&String::from_str(INPUTS)) {
        Some(v) => match v.as_array() {
            Some(a) => a,
            None => return Err(plain_error(MISSING_INPUTS)),
        },
        None => return Err(plain_error(MISSING_INPUTS)),
    };
    if inputs.len() != 4 {
        return Err(plain_error(REQUIRES_FOUR_INPUTS));
    }
    let key = match inputs[0].as_array() {
        Some(a) => a,
        None => return Err(plain_error(FIRST_NOT_ARRAY)),
    };
    let track = match inputs[1].as_array() {
        Some(a) => a,
        None => return Err(plain_error(SECOND_NOT_ARRAY)),
    };
    let time_range = match inputs[2].as_array() {
        Some(a) => a,
        None => return Err(plain_error(THIRD_NOT_ARRAY)),
    };
    let list_range = match inputs[3].as_array() {
        Some(a) => a,
        None => return Err(plain_error(FOURTH_NOT_ARRAY)),
    };
    Ok((key, track, time_range, list_range))
}

/// The outcome of a top-tracks (`artists == false`) or top-artists claim
/// against the tokens `tokens`.
pub open spec fn top_claim_spec(
    params: JsonValue,
    tokens: Map<Seq<char>, Seq<char>>,
    artists: bool,
) -> Result<ClaimView, ErrorView> {
    match extract_spec(params) {
        Err(e) => Err(e),
        Ok((key, track, time_range, list_range)) => {
            if time_range.len() == 0 || list_range.len() == 0 {
                Err(plain(EMPTY_RANGE@))
            } else {
                match TimeRange::from_number_spec(scalar_byte(time_range[0])) {
                    None => Err(detailed(INVALID_TIME_RANGE@)),
                    Some(t) => {
                        let id = scalars_text(key);
                        if !tokens.contains_key(id) {
                            Err(detailed(TOKEN_NOT_FOUND@))
                        } else if artists {
                            Ok(
                                ClaimView::TopArtists {
                                    token: tokens[id],
                                    track: scalars_text(track),
                                    time_range: t,
                                    list_range: scalar_byte(list_range[0]),
                                },
                            )
                        } else {
                            Ok(
                                ClaimView::TopTracks {
                                    token: tokens[id],
                                    track: scalars_text(track),
                                    time_range: t,
                                    list_range: scalar_byte(list_range[0]),
                                },
                            )
                        }
                    },
                }
            }
        },
    }
}

/// The outcome of a recently-played-track claim against the tokens `tokens`.
pub open spec fn recent_claim_spec(
    params: JsonValue,
    tokens: Map<Seq<char>, Seq<char>>,
) -> Result<ClaimView, ErrorView> {
    match extract_spec(params) {
        Err(e) => Err(e),
        Ok((key, track, after, played_time)) => {
            if after.len() == 0 || played_time.len() == 0 {
                Err(plain(EMPTY_RANGE@))
            } else {
                let id = scalars_text(key);
                if !tokens.contains_key(id) {
                    Err(detailed(TOKEN_NOT_FOUND@))
                } else {
                    Ok(
                        ClaimView::RecentlyPlayedTrack {
                            token: tokens[id],
                            track: scalars_text(track),
                            after: scalar_u64(after[0]),
                            played_time: scalar_byte(played_time[0]),
                        },
                    )
                }
            }
        },
    }
}

/// The outcome of a `resolve_foreign_call` with the positional parameters
/// `params`: a one-element array holding the request object.
pub open spec fn resolve_spec(params: JsonValue, tokens: Map<Seq<char>, Seq<char>>) -> Result<
    ClaimView,
    ErrorView,
> {
    match params {
        JsonValue::Array(items) => if items@.len() != 1 {
            Err(plain(EXPECTED_SINGLE_ITEM@))
        } else if !(items@[0] is Object) {
            Err(plain(EXPECTED_OBJECT@))
        } else {
            let request = items@[0];
            match get_spec(request, FUNCTION@) {
                None => Err(plain(MISSING_FUNCTION@)),
                Some(f) => match claim_kind_spec(f) {
                    Some(ClaimKind::TopTracks) => top_claim_spec(request, tokens, false),
                    Some(ClaimKind::TopArtists) => top_claim_spec(request, tokens, true),
                    Some(ClaimKind::RecentlyPlayedTrack) => recent_claim_spec(request, tokens),
                    None => Err(plain(INVALID_METHOD@)),
                },
            }
        },
        _ => Err(plain(EXPECTED_SINGLE_ITEM@)),
    }
}

fn top_claim(params: &JsonValue, store: &TokenStore, artists: bool) -> (r: Result<
    ClaimCall,
    ParamsError,
>)
    requires
        store.wf(),
    ensures
        outcome_view(r) == top_claim_spec(*params, store@, artists),
{
    let (key, track, time_range, list_range) = match validate_and_extract_inputs(params) {
        Ok(x) => x,
        Err(e) => return Err(e),
    };
    let key_data = hex_to_string(key);
    let track_data = hex_to_string(track);
    let time_range_data = hex_to_bytes(time_range);
    let list_range_data = hex_to_bytes(list_range);
    if time_range_data.len() == 0 || list_range_data.len() == 0 {
        return Err(plain_error(EMPTY_RANGE));
    }
    let time_range_type = match TimeRange::from_number(time_range_data[0]) {
        Ok(t) => t,
        Err(message) => return Err(ParamsError { message, detailed: true }),
    };
    let auth_data = match store.get_token(&key_data) {
        Some(t) => t,
        None => return Err(detailed_error(TOKEN_NOT_FOUND)),
    };
    if artists {
        Ok(
            ClaimCall::TopArtists {
                token: auth_data,
                track: track_data,
                time_range: time_range_type,
                list_range: list_range_data[0],
            },
        )
    } else {
        Ok(
            ClaimCall::TopTracks {
                token: auth_data,
                track: track_data,
                time_range: time_range_type,
                list_range: list_range_data[0],
            },
        )
    }
}

/// Validates and decodes a top-tracks claim and looks up its token: the
/// evaluator call to make, or why there is none.
pub fn handle_can_claim_top_tracks(params: &JsonValue, store: &TokenStore) -> (r: Result<
    ClaimCall,
    ParamsError,
>)
    requires
        store.wf(),
    ensures
        outcome_view(r) == top_claim_spec(*params, store@, false),
{
    top_claim(params, store, false)
}

/// Validates and decodes a top-artists claim and looks up its token: the
/// evaluator call to make, or why there is none.
pub fn handle_can_claim_top_artist(params: &JsonValue, store: &TokenStore) -> (r: Result<
    ClaimCall,
    ParamsError,
>)
    requires
        store.wf(),
    ensures
        outcome_view(r) == top_claim_spec(*params, store@, true),
{
    top_claim(params, store, true)
}

/// Validates and decodes a recently-played-track claim and looks up its
/// token: the evaluator call to make, or why there is none.
pub fn handle_can_claim_recently_played_track(params: &JsonValue, store: &TokenStore) -> (r:
    Result<ClaimCall, ParamsError>)
    requires
        store.wf(),
    ensures
        outcome_view(r) == recent_claim_spec(*params, store@),
{
    let (key, track, after_range, play_time_range) = match validate_and_extract_inputs(params) {
        Ok(x) => x,
        Err(e) => return Err(e),
    };
    let key_data = hex_to_string(key);
    let track_data = hex_to_string(track);
    let after_data = hex_to_u64s(after_range);
    let played_time_data = hex_to_bytes(play_time_range);
    if after_data.len() == 0 || played_time_data.len() == 0 {
        return Err(plain_error(EMPTY_RANGE));
    }
    let auth_data = match store.get_token(&key_data) {
        Some(t) => t,
        None => return Err(detailed_error(TOKEN_NOT_FOUND)),
    };
    Ok(
        ClaimCall::RecentlyPlayedTrack {
            token: auth_data,
            track: track_data,
            after: after_data[0],
            played_time: played_time_data[0],
        },
    )
}

/// Routes a foreign call: `params` must be a one-element array holding an
/// object whose `function` names one of the three claims.
pub fn resolve_foreign_call(params: &JsonValue, store: &TokenStore) -> (r: Result<
    ClaimCall,
    ParamsError,
>)
    requires
        store.wf(),
    ensures
        outcome_view(r) == resolve_spec(*params, store@),
{
    match params {
        JsonValue::Array(items) => {
            if items.len() != 1 {
                return Err(plain_error(EXPECTED_SINGLE_ITEM));
            }
            let request = &items[0];
            if !request.is_object() {
                return Err(plain_error(EXPECTED_OBJECT));
            }
            match request.get(&String::from_str(FUNCTION)) {
                None => Err(plain_error(MISSING_FUNCTION)),
                Some(f) => match ClaimKind::from_function(f) {
                    Some(ClaimKind::TopTracks) => handle_can_claim_top_tracks(request, store),
                    Some(ClaimKind::TopArtists) => handle_can_claim_top_artist(request, store),
                    Some(ClaimKind::RecentlyPlayedTrack) => handle_can_claim_recently_played_track(
                        request,
                        store,
                    ),
                    None => Err(plain_error(INVALID_METHOD)),
                },
            }
        },
        _ => Err(plain_error(EXPECTED_SINGLE_ITEM)),
    }
}

/// Whether `v` is the object `{"values": [verdict]}`.
pub open spec fn is_verdict_response(v: JsonValue, verdict: bool) -> bool {
    match v {
        JsonValue::Object(fields) => fields@.len() == 1 && fields@[0].0@ == VALUES@ && match fields@[0].1 {
            JsonValue::Array(items) => items@ == seq![JsonValue::Bool(verdict)],
            _ => false,
        },
        _ => false,
    }
}

/// The response to a claim whose evaluator returned `outcome`: the verdict
/// as `{"values": [verdict]}`, or the evaluator's message as an error.
pub fn claim_response(outcome: Result<bool, String>) -> (r: Result<JsonValue, ParamsError>)
    ensures
        match outcome {
            Ok(verdict) => r is Ok && is_verdict_response(r->Ok_0, verdict),
            Err(message) => r is Err && r->Err_0@ == detailed(message@),
        },
{
    match outcome {
        Ok(verdict) => {
            let mut items: Vec<JsonValue> = Vec::new();
            items.push(JsonValue::Bool(verdict));
            assert(items@ =~= seq![JsonValue::Bool(verdict)]);
            let mut fields: Vec<(String, JsonValue)> = Vec::new();
            fields.push((String::from_str(VALUES), JsonValue::Array(items)));
            Ok(JsonValue::Object(fields))
        },
        Err(message) => Err(ParamsError { message, detailed: true }),
    }
}

/// Stores `token` for the identifier `id` and echoes `id`; both must be
/// non-empty.
pub fn store_key(store: &mut TokenStore, id: String, token: String) -> (r: Result<
    String,
    ParamsError,
>)
    requires
        old(store).wf(),
    ensures
        final(store).wf(),
        match r {
            Ok(echo) => id@.len() > 0 && token@.len() > 0 && echo@ == id@ && final(store)@ == old(
                store,
            )@.insert(id@, token@),
            Err(e) => !(id@.len() > 0 && token@.len() > 0) && e@ == plain(EMPTY_ID_OR_TOKEN@)
                && final(store)@ == old(store)@,
        },
{
    if id.as_str().is_empty() || token.as_str().is_empty() {
        return Err(plain_error(EMPTY_ID_OR_TOKEN));
    }
    let echo = id.clone();
    store.store_key_and_token(id, token);
    Ok(echo)
}

/// Removes the token stored for the identifier `id`, if any, and echoes `id`;
/// `id` must be non-empty.
pub fn delete_key(store: &mut TokenStore, id: String) -> (r: Result<String, ParamsError>)
    requires
        old(store).wf(),
    ensures
        final(store).wf(),
        match r {
            Ok(echo) => id@.len() > 0 && echo@ == id@ && final(store)@ == old(store)@.remove(id@),
            Err(e) => id@.len() == 0 && e@ == plain(EMPTY_ID_OR_TOKEN@) && final(store)@ == old(
                store,
            )@,
        },
{
    if id.as_str().is_empty() {
        return Err(plain_error(EMPTY_ID_OR_TOKEN));
    }
    store.delete_token(&id);
    Ok(id)
}

} // verus!
