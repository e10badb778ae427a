use claim_oracle::claim::{
    claim_response, delete_key, handle_can_claim_recently_played_track,
    handle_can_claim_top_artist, handle_can_claim_top_tracks, resolve_foreign_call, store_key,
    validate_and_extract_inputs, ClaimCall, ClaimKind, ParamsError, TimeRange,
    CAN_CLAIM_RECENTLY_PLAYED_TRACK, CAN_CLAIM_TOP_ARTISTS, CAN_CLAIM_TOP_TRACKS,
    EMPTY_ID_OR_TOKEN, EMPTY_RANGE, EXPECTED_OBJECT, EXPECTED_SINGLE_ITEM, FIRST_NOT_ARRAY,
    FOURTH_NOT_ARRAY, INVALID_METHOD, INVALID_TIME_RANGE, MISSING_FUNCTION, MISSING_INPUTS,
    REQUIRES_FOUR_INPUTS, SECOND_NOT_ARRAY, THIRD_NOT_ARRAY, TOKEN_NOT_FOUND,
};
use claim_oracle::json::JsonValue;
use claim_oracle::store::TokenStore;

fn text(s: &str) -> JsonValue {
    JsonValue::Str(s.to_string())
}

fn scalars(items: &[&str]) -> JsonValue {
    JsonValue::Array(items.iter().map(|s| text(s)).collect())
}

fn request(function: &str, inputs: Vec<JsonValue>) -> JsonValue {
    JsonValue::Object(vec![
        ("function".to_string(), text(function)),
        ("inputs".to_string(), JsonValue::Array(inputs)),
    ])
}

fn call(function: &str, inputs: Vec<JsonValue>) -> JsonValue {
    JsonValue::Array(vec![request(function, inputs)])
}

fn abc_inputs(time: &str, list: &str) -> Vec<JsonValue> {
    vec![scalars(&["0x41"]), scalars(&["0x42"]), scalars(&[time]), scalars(&[list])]
}

fn store_with_a() -> TokenStore {
    let mut store = TokenStore::new();
    store_key(&mut store, "A".to_string(), "tok123".to_string()).unwrap();
    store
}

fn expect_err(r: Result<ClaimCall, ParamsError>, message: &str, detailed: bool) {
    match r {
        Err(e) => {
            assert_eq!(e.message, message);
            assert_eq!(e.detailed, detailed);
        }
        Ok(c) => panic!("expected an error, got {:?}", c),
    }
}

#[test]
fn top_tracks_scenario_decodes_and_finds_token() {
    let store = store_with_a();
    let r = resolve_foreign_call(&call(CAN_CLAIM_TOP_TRACKS, abc_inputs("0x00", "0x05")), &store);
    match r {
        Ok(ClaimCall::TopTracks { token, track, time_range, list_range }) => {
            assert_eq!(token, "tok123");
            assert_eq!(track, "B");
            assert_eq!(time_range, TimeRange::ShortTerm);
            assert_eq!(list_range, 5);
        }
        other => panic!("unexpected {:?}", other),
    }
}

#[test]
fn top_artists_routes_to_artist_claim() {
    let store = store_with_a();
    let r = resolve_foreign_call(&call(CAN_CLAIM_TOP_ARTISTS, abc_inputs("0x02", "0x0a")), &store);
    match r {
        Ok(ClaimCall::TopArtists { token, track, time_range, list_range }) => {
            assert_eq!(token, "tok123");
            assert_eq!(track, "B");
            assert_eq!(time_range, TimeRange::LongTerm);
            assert_eq!(list_range, 10);
        }
        other => panic!("unexpected {:?}", other),
    }
}

#[test]
fn recently_played_takes_raw_timestamp() {
    let store = store_with_a();
    let inputs = abc_inputs("0x65f1a2b3", "0x03");
    let r = resolve_foreign_call(&call(CAN_CLAIM_RECENTLY_PLAYED_TRACK, inputs), &store);
    match r {
        Ok(ClaimCall::RecentlyPlayedTrack { token, track, after, played_time }) => {
            assert_eq!(token, "tok123");
            assert_eq!(track, "B");
            assert_eq!(after, 0x65f1a2b3);
            assert_eq!(played_time, 3);
        }
        other => panic!("unexpected {:?}", other),
    }
}

#[test]
fn recently_played_accepts_any_window_byte() {
    let store = store_with_a();
    let r = handle_can_claim_recently_played_track(&request("x", abc_inputs("0x09", "0x09")), &store);
    assert!(matches!(r, Ok(ClaimCall::RecentlyPlayedTrack { after: 9, played_time: 9, .. })));
}

#[test]
fn wrong_input_count_fails_for_any_function() {
    let store = store_with_a();
    for f in [CAN_CLAIM_TOP_TRACKS, CAN_CLAIM_TOP_ARTISTS, CAN_CLAIM_RECENTLY_PLAYED_TRACK] {
        let three = vec![scalars(&["0x41"]), scalars(&["0x42"]), scalars(&["0x00"])];
        expect_err(resolve_foreign_call(&call(f, three), &store), REQUIRES_FOUR_INPUTS, false);
    }
    let mut five = abc_inputs("0x00", "0x05");
    five.push(scalars(&["0x00"]));
    expect_err(resolve_foreign_call(&call(CAN_CLAIM_TOP_TRACKS, five), &store), REQUIRES_FOUR_INPUTS, false);
    assert!(resolve_foreign_call(&call("nope", vec![]), &store).is_err());
}

#[test]
fn unknown_function_is_invalid_method() {
    let store = store_with_a();
    expect_err(resolve_foreign_call(&call("can_claim_everything", abc_inputs("0x00", "0x05")), &store), INVALID_METHOD, false);
    let numeric = JsonValue::Array(vec![JsonValue::Object(vec![(
        "function".to_string(),
        JsonValue::Number("1".to_string()),
    )])]);
    expect_err(resolve_foreign_call(&numeric, &store), INVALID_METHOD, false);
}

#[test]
fn unknown_time_range_fails_before_evaluation() {
    let store = store_with_a();
    expect_err(resolve_foreign_call(&call(CAN_CLAIM_TOP_TRACKS, abc_inputs("0x07", "0x05")), &store), INVALID_TIME_RANGE, true);
    expect_err(resolve_foreign_call(&call(CAN_CLAIM_TOP_ARTISTS, abc_inputs("0x03", "0x05")), &store), INVALID_TIME_RANGE, true);
    // a malformed byte decodes to 0, which is a window
    assert!(resolve_foreign_call(&call(CAN_CLAIM_TOP_TRACKS, abc_inputs("0xZZ", "0x05")), &store).is_ok());
}

#[test]
fn stored_key_is_found_by_claim() {
    let mut store = TokenStore::new();
    assert_eq!(store_key(&mut store, "AB".to_string(), "secret".to_string()).unwrap(), "AB");
    let inputs = vec![scalars(&["0x41", "0x42"]), scalars(&["0x74"]), scalars(&["0x01"]), scalars(&["0x05"])];
    match resolve_foreign_call(&call(CAN_CLAIM_TOP_TRACKS, inputs), &store) {
        Ok(ClaimCall::TopTracks { token, time_range, .. }) => {
            assert_eq!(token, "secret");
            assert_eq!(time_range, TimeRange::MediumTerm);
        }
        other => panic!("unexpected {:?}", other),
    }
}

#[test]
fn store_key_replaces_earlier_token() {
    let mut store = store_with_a();
    store_key(&mut store, "A".to_string(), "newer".to_string()).unwrap();
    assert_eq!(store.get_token(&"A".to_string()), Some("newer".to_string()));
}

#[test]
fn delete_key_of_absent_id_succeeds() {
    let mut store = store_with_a();
    assert_eq!(delete_key(&mut store, "never".to_string()).unwrap(), "never");
    assert_eq!(store.get_token(&"A".to_string()), Some("tok123".to_string()));
}

#[test]
fn delete_key_removes_token() {
    let mut store = store_with_a();
    assert_eq!(delete_key(&mut store, "A".to_string()).unwrap(), "A");
    assert_eq!(store.get_token(&"A".to_string()), None);
    expect_err(resolve_foreign_call(&call(CAN_CLAIM_TOP_TRACKS, abc_inputs("0x00", "0x05")), &store), TOKEN_NOT_FOUND, true);
}

#[test]
fn empty_identifier_or_token_is_rejected() {
    let mut store = TokenStore::new();
    let e = store_key(&mut store, "".to_string(), "t".to_string()).unwrap_err();
    assert_eq!(e.message, EMPTY_ID_OR_TOKEN);
    let e = store_key(&mut store, "id".to_string(), "".to_string()).unwrap_err();
    assert_eq!(e.message, EMPTY_ID_OR_TOKEN);
    assert!(!e.detailed);
    let e = delete_key(&mut store, "".to_string()).unwrap_err();
    assert_eq!(e.message, EMPTY_ID_OR_TOKEN);
    assert_eq!(store.get_token(&"id".to_string()), None);
}

#[test]
fn missing_token_is_reported() {
    let store = TokenStore::new();
    expect_err(handle_can_claim_top_tracks(&request("x", abc_inputs("0x00", "0x05")), &store), TOKEN_NOT_FOUND, true);
}

#[test]
fn empty_range_arrays_are_rejected() {
    let store = store_with_a();
    let inputs = vec![scalars(&["0x41"]), scalars(&["0x42"]), scalars(&[]), scalars(&["0x05"])];
    expect_err(handle_can_claim_top_artist(&request("x", inputs), &store), EMPTY_RANGE, false);
    let inputs = vec![scalars(&["0x41"]), scalars(&["0x42"]), scalars(&["0x05"]), scalars(&[])];
    expect_err(handle_can_claim_recently_played_track(&request("x", inputs), &store), EMPTY_RANGE, false);
}

#[test]
fn non_array_slots_are_named() {
    let slots = [FIRST_NOT_ARRAY, SECOND_NOT_ARRAY, THIRD_NOT_ARRAY, FOURTH_NOT_ARRAY];
    for (i, message) in slots.iter().enumerate() {
        let mut inputs = abc_inputs("0x00", "0x05");
        inputs[i] = text("0x41");
        let req = request("x", inputs);
        let r = validate_and_extract_inputs(&req);
        assert_eq!(r.unwrap_err().message, *message);
    }
}

#[test]
fn missing_inputs_are_rejected() {
    let store = store_with_a();
    let no_inputs = JsonValue::Array(vec![JsonValue::Object(vec![(
        "function".to_string(),
        text(CAN_CLAIM_TOP_TRACKS),
    )])]);
    expect_err(resolve_foreign_call(&no_inputs, &store), MISSING_INPUTS, false);
    let not_array = JsonValue::Object(vec![("inputs".to_string(), text("0x41"))]);
    assert_eq!(validate_and_extract_inputs(&not_array).unwrap_err().message, MISSING_INPUTS);
}

#[test]
fn outer_shape_is_checked_first() {
    let store = store_with_a();
    expect_err(resolve_foreign_call(&JsonValue::Array(vec![]), &store), EXPECTED_SINGLE_ITEM, false);
    let two = JsonValue::Array(vec![
        request(CAN_CLAIM_TOP_TRACKS, abc_inputs("0x00", "0x05")),
        request(CAN_CLAIM_TOP_TRACKS, abc_inputs("0x00", "0x05")),
    ]);
    expect_err(resolve_foreign_call(&two, &store), EXPECTED_SINGLE_ITEM, false);
    expect_err(resolve_foreign_call(&request(CAN_CLAIM_TOP_TRACKS, vec![]), &store), EXPECTED_SINGLE_ITEM, false);
    expect_err(resolve_foreign_call(&JsonValue::Array(vec![text("x")]), &store), EXPECTED_OBJECT, false);
    let no_function = JsonValue::Array(vec![JsonValue::Object(vec![])]);
    expect_err(resolve_foreign_call(&no_function, &store), MISSING_FUNCTION, false);
}

#[test]
fn function_names_map_to_claim_kinds() {
    assert_eq!(ClaimKind::from_function(&text(CAN_CLAIM_TOP_TRACKS)), Some(ClaimKind::TopTracks));
    assert_eq!(ClaimKind::from_function(&text(CAN_CLAIM_TOP_ARTISTS)), Some(ClaimKind::TopArtists));
    assert_eq!(
        ClaimKind::from_function(&text(CAN_CLAIM_RECENTLY_PLAYED_TRACK)),
        Some(ClaimKind::RecentlyPlayedTrack)
    );
    assert_eq!(ClaimKind::from_function(&JsonValue::Null), None);
}

#[test]
fn time_range_numbers() {
    assert_eq!(TimeRange::from_number(0), Ok(TimeRange::ShortTerm));
    assert_eq!(TimeRange::from_number(1), Ok(TimeRange::MediumTerm));
    assert_eq!(TimeRange::from_number(2), Ok(TimeRange::LongTerm));
    assert_eq!(TimeRange::from_number(3), Err(INVALID_TIME_RANGE.to_string()));
}

#[test]
fn verdict_is_wrapped_in_values() {
    match claim_response(Ok(true)) {
        Ok(JsonValue::Object(fields)) => {
            assert_eq!(fields.len(), 1);
            assert_eq!(fields[0].0, "values");
            assert!(matches!(&fields[0].1, JsonValue::Array(items) if items.len() == 1 && matches!(items[0], JsonValue::Bool(true))));
        }
        other => panic!("unexpected {:?}", other),
    }
    let e = claim_response(Err("rate limited".to_string())).unwrap_err();
    assert_eq!(e.message, "rate limited");
    assert!(e.detailed);
}

#[test]
fn stored_key_is_found_through_its_hex_rendering() {
    let mut store = TokenStore::new();
    let id = "user-\u{e9}\u{1f600}";
    store_key(&mut store, id.to_string(), "tok".to_string()).unwrap();
    let key = JsonValue::Array(id.chars().map(|c| text(&format!("0x{:x}", c as u32))).collect());
    let inputs = vec![key, scalars(&["0x42"]), scalars(&["0x00"]), scalars(&["0x05"])];
    match resolve_foreign_call(&call(CAN_CLAIM_TOP_ARTISTS, inputs), &store) {
        Ok(ClaimCall::TopArtists { token, track, list_range, .. }) => {
            assert_eq!(token, "tok");
            assert_eq!(track, "B");
            assert_eq!(list_range, 5);
        }
        other => panic!("unexpected {:?}", other),
    }
}
