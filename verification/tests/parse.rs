use trello_export::error::{Entity, Expected, Found, ParseError};
use trello_export::model::Board;
use trello_export::parse_json;
use trello_export::parse_str;
use trello_export::value::Json;

const LABEL_KEYS: [&str; 30] = [
    "green",
    "yellow",
    "orange",
    "red",
    "purple",
    "blue",
    "sky",
    "lime",
    "pink",
    "black",
    "green_dark",
    "yellow_dark",
    "orange_dark",
    "red_dark",
    "purple_dark",
    "blue_dark",
    "sky_dark",
    "lime_dark",
    "pink_dark",
    "black_dark",
    "green_light",
    "yellow_light",
    "orange_light",
    "red_light",
    "purple_light",
    "blue_light",
    "sky_light",
    "lime_light",
    "pink_light",
    "black_light",
];

fn labels_json() -> String {
    let mut s = String::from("{");
    for (i, k) in LABEL_KEYS.iter().enumerate() {
        if i > 0 {
            s.push(',');
        }
        s.push_str(&format!("\"{}\":\"\"", k));
    }
    s.push('}');
    s
}

fn badges_json() -> String {
    String::from(
        "{\"attachmentsByType\":{\"trello\":{\"board\":0,\"card\":0}},\"location\":false,\
         \"votes\":0,\"viewingMemberVoted\":false,\"subscribed\":false,\"checkItems\":0,\
         \"checkItemsChecked\":0,\"checkItemsEarliestDue\":null,\"comments\":0,\
         \"attachments\":0,\"description\":false,\"due\":null,\"dueComplete\":false,\
         \"start\":null}",
    )
}

fn cover_json() -> String {
    String::from(
        "{\"idAttachment\":null,\"color\":null,\"idUploadedBackground\":null,\
         \"size\":\"normal\",\"brightness\":\"light\",\"scaled\":null,\"edgeColor\":null,\
         \"idPlugin\":null}",
    )
}

fn attachment_json(id: &str) -> String {
    format!(
        "{{\"id\":\"{}\",\"bytes\":10,\"date\":\"2023-08-24T14:23:42.411Z\",\
         \"edgeColor\":\"\",\"idMember\":\"m\",\"isUpload\":true,\"mimeType\":\"image/png\",\
         \"name\":\"a\",\"previews\":[],\"url\":\"https://example.test/a\",\"pos\":2,\
         \"fileName\":\"f.png\"}}",
        id
    )
}

fn card_json(id: &str, due_reminder: &str, attachments: &[String]) -> String {
    format!(
        "{{\"id\":\"{}\",\"badges\":{},\"closed\":false,\"dueComplete\":false,\
         \"dateLastActivity\":\"2023-08-24T14:23:42.411Z\",\"desc\":\"\",\
         \"dueReminder\":{},\"email\":\"\",\"idBoard\":\"b\",\"idChecklists\":[],\
         \"idLabels\":[],\"idList\":\"l\",\"idMembers\":[],\"idMembersVoted\":[],\
         \"idOrganization\":\"o\",\"idShort\":1,\"idAttachmentCover\":null,\"labels\":[],\
         \"locationName\":null,\"manualCoverAttachment\":false,\"name\":\"c\",\
         \"nodeId\":\"n\",\"pos\":1,\"shortLink\":\"sl\",\"shortUrl\":\"su\",\
         \"staticMapUrl\":null,\"subscribed\":false,\"url\":\"u\",\"cover\":{},\
         \"isTemplate\":false,\"attachments\":[{}]}}",
        id,
        badges_json(),
        due_reminder,
        cover_json(),
        attachments.join(",")
    )
}

fn board_json_with(cards: &[String]) -> String {
    format!(
        "{{\"id\":\"5f7ce5f392f71087a56b5f0e\",\
         \"nodeId\":\"ari:cloud:trello::board/x/5f7ce5f392f71087a56b5f0e\",\"name\":\"Demo\",\
         \"desc\":\"\",\"closed\":false,\"dateClosed\":null,\"idOrganization\":null,\
         \"idEnterprise\":null,\"pinned\":false,\"starred\":true,\
         \"url\":\"https://example.test/b\",\"shortLink\":\"abc123\",\"subscribed\":false,\
         \"labelNames\":{},\"dateLastActivity\":\"2023-08-24T14:23:42.411Z\",\
         \"dateLastView\":\"2023-08-24T14:23:42.411Z\",\"shortUrl\":\"https://example.test/s\",\
         \"idTags\":[],\"datePluginDisable\":null,\"ixUpdate\":\"63\",\
         \"enterpriseOwned\":false,\"idBoardSource\":null,\"premiumFeatures\":[\"pf\"],\
         \"idMemberCreator\":\"5f7ce5f392f71087a56b5f0f\",\"cards\":[{}]}}",
        labels_json(),
        cards.join(",")
    )
}

fn minimal_board_json() -> String {
    board_json_with(&[])
}

fn parse_ok(text: &str) -> Board {
    match parse_str(text) {
        Ok(b) => b,
        Err(e) => panic!("expected success, got {:?}", e),
    }
}

fn schema_err(text: &str) -> trello_export::error::SchemaError {
    match parse_str(text) {
        Err(ParseError::Schema(e)) => e,
        other => panic!("expected a schema error, got {:?}", other),
    }
}

#[test]
fn minimal_board_parses_with_no_cards() {
    let b = parse_ok(&minimal_board_json());
    assert_eq!(b.cards.len(), 0);
    assert_eq!(b.id, "5f7ce5f392f71087a56b5f0e");
    assert_eq!(b.name, "Demo");
    assert!(!b.closed);
    assert_eq!(b.date_closed, None);
    assert_eq!(b.ix_update, "63");
    assert_eq!(b.premium_features, vec![String::from("pf")]);
    assert_eq!(b.label_names.pink, "");
}

#[test]
fn closed_as_string_is_a_schema_error() {
    let text = minimal_board_json().replace("\"closed\":false", "\"closed\":\"false\"");
    let e = schema_err(&text);
    assert_eq!(e.at, Entity::Board);
    assert_eq!(e.field, "closed");
    assert_eq!(e.expected, Expected::BoolShape);
    assert_eq!(e.found, Found::StrKind);
}

#[test]
fn missing_short_link_is_a_schema_error() {
    let text = minimal_board_json().replace("\"shortLink\":\"abc123\",", "");
    let e = schema_err(&text);
    assert_eq!(e.at, Entity::Board);
    assert_eq!(e.field, "shortLink");
    assert_eq!(e.found, Found::Absent);
}

#[test]
fn missing_name_is_a_schema_error() {
    let text = minimal_board_json().replace("\"name\":\"Demo\",", "");
    let e = schema_err(&text);
    assert_eq!(e.field, "name");
    assert_eq!(e.found, Found::Absent);
}

#[test]
fn unknown_fields_are_accepted_and_dropped() {
    let with_unknown = minimal_board_json().replace(
        "\"name\":\"Demo\",",
        "\"name\":\"Demo\",\"descData\":{\"emoji\":{}},\"cardRole\":[1,null,\"x\"],",
    );
    let a = parse_ok(&with_unknown);
    let b = parse_ok(&minimal_board_json());
    assert_eq!(a, b);
}

#[test]
fn card_and_attachment_order_is_preserved() {
    let atts = [attachment_json("a1"), attachment_json("a2")];
    let cards = [
        card_json("c1", "-1", &atts),
        card_json("c2", "0", &[]),
        card_json("c3", "5", &[]),
    ];
    let b = parse_ok(&board_json_with(&cards));
    assert_eq!(b.cards.len(), 3);
    assert_eq!(b.cards[0].id, "c1");
    assert_eq!(b.cards[1].id, "c2");
    assert_eq!(b.cards[2].id, "c3");
    assert_eq!(b.cards[0].attachments.len(), 2);
    assert_eq!(b.cards[0].attachments[0].id, "a1");
    assert_eq!(b.cards[0].attachments[1].id, "a2");
    assert_eq!(b.cards[0].attachments[0].pos, "2");
    assert_eq!(b.cards[0].pos, "1");
}

#[test]
fn due_reminder_sentinel_is_kept_verbatim() {
    let cards = [card_json("c1", "-1", &[]), card_json("c2", "42", &[])];
    let b = parse_ok(&board_json_with(&cards));
    assert_eq!(b.cards[0].due_reminder, -1);
    assert_eq!(b.cards[1].due_reminder, 42);
}

#[test]
fn missing_label_key_is_a_schema_error() {
    let text = minimal_board_json().replace("\"pink\":\"\",", "");
    let e = schema_err(&text);
    assert_eq!(e.at, Entity::Labels);
    assert_eq!(e.field, "pink");
    assert_eq!(e.found, Found::Absent);
}

#[test]
fn extra_label_key_is_a_schema_error() {
    let text = minimal_board_json().replace("\"pink\":\"\",", "\"pink\":\"\",\"magenta\":\"x\",");
    let e = schema_err(&text);
    assert_eq!(e.at, Entity::Labels);
    assert_eq!(e.field, "magenta");
    assert_eq!(e.expected, Expected::NoSuchKey);
    assert_eq!(e.found, Found::Present);
}

#[test]
fn parsing_twice_gives_equal_models() {
    let text = board_json_with(&[card_json("c1", "-1", &[attachment_json("a1")])]);
    let a = parse_ok(&text);
    let b = parse_ok(&text);
    assert_eq!(a, b);
}

#[test]
fn malformed_json_is_a_syntax_error() {
    match parse_str("{\"id\":") {
        Err(ParseError::Syntax(_)) => {},
        other => panic!("expected a syntax error, got {:?}", other),
    }
    match parse_str("") {
        Err(ParseError::Syntax(_)) => {},
        other => panic!("expected a syntax error, got {:?}", other),
    }
}

#[test]
fn trailing_content_is_a_syntax_error() {
    let text = format!("{} x", minimal_board_json());
    match parse_str(&text) {
        Err(ParseError::Syntax(_)) => {},
        other => panic!("expected a syntax error, got {:?}", other),
    }
}

#[test]
fn invalid_utf8_is_an_encoding_error() {
    match parse_json(&[0xff, 0xfe, 0x20]) {
        Err(ParseError::Encoding) => {},
        other => panic!("expected an encoding error, got {:?}", other),
    }
}

#[test]
fn bytes_entry_point_matches_text_entry_point() {
    let text = minimal_board_json();
    let a = parse_json(text.as_bytes()).unwrap();
    let b = parse_str(&text).unwrap();
    assert_eq!(a, b);
}

#[test]
fn fractional_position_parses_verbatim() {
    let cards = [card_json("c1", "-1", &[]).replace("\"pos\":1", "\"pos\":1.5")];
    let b = parse_ok(&board_json_with(&cards));
    assert_eq!(b.cards[0].pos, "1.5");
}

#[test]
fn exponent_position_parses_verbatim() {
    let cards = [card_json("c1", "-1", &[]).replace("\"pos\":1", "\"pos\":2.5e3")];
    let b = parse_ok(&board_json_with(&cards));
    assert_eq!(b.cards[0].pos, "2.5e3");
}

#[test]
fn non_numeric_position_is_a_schema_error() {
    let cards = [card_json("c1", "-1", &[]).replace("\"pos\":1", "\"pos\":\"top\"")];
    let e = schema_err(&board_json_with(&cards));
    assert_eq!(e.at, Entity::Card(0));
    assert_eq!(e.field, "pos");
    assert_eq!(e.expected, Expected::NumShape);
    assert_eq!(e.found, Found::StrKind);
}

#[test]
fn duplicate_schema_key_uses_first_entry() {
    let text = minimal_board_json().replace(
        "\"name\":\"Demo\",",
        "\"name\":\"Demo\",\"name\":\"Other\",",
    );
    let b = parse_ok(&text);
    assert_eq!(b.name, "Demo");
}

#[test]
fn out_of_range_integer_is_a_schema_error() {
    let cards = [card_json("c1", "9223372036854775808", &[])];
    let e = schema_err(&board_json_with(&cards));
    assert_eq!(e.at, Entity::Card(0));
    assert_eq!(e.field, "dueReminder");
    assert_eq!(e.found, Found::OutOfRange);
}

#[test]
fn extreme_i64_values_parse() {
    let cards = [
        card_json("c1", "9223372036854775807", &[]),
        card_json("c2", "-9223372036854775808", &[]),
    ];
    let b = parse_ok(&board_json_with(&cards));
    assert_eq!(b.cards[0].due_reminder, i64::MAX);
    assert_eq!(b.cards[1].due_reminder, i64::MIN);
}

#[test]
fn string_escapes_are_decoded() {
    let text = minimal_board_json().replace(
        "\"name\":\"Demo\"",
        "\"name\":\"a\\n\\t\\\"\\\\\\u0041\\uD83D\\uDE00b\"",
    );
    let b = parse_ok(&text);
    assert_eq!(b.name, "a\n\t\"\\A\u{1F600}b");
}

#[test]
fn lone_surrogate_is_a_syntax_error() {
    let text = minimal_board_json().replace("\"name\":\"Demo\"", "\"name\":\"\\uD83Dx\"");
    match parse_str(&text) {
        Err(ParseError::Syntax(_)) => {},
        other => panic!("expected a syntax error, got {:?}", other),
    }
}

#[test]
fn optional_date_present_and_absent() {
    let present = minimal_board_json().replace(
        "\"dateClosed\":null",
        "\"dateClosed\":\"2023-08-24T14:23:42.411Z\"",
    );
    let b = parse_ok(&present);
    assert_eq!(
        b.date_closed,
        Some(String::from("2023-08-24T14:23:42.411Z"))
    );
    let absent = minimal_board_json().replace("\"dateClosed\":null,", "");
    let b2 = parse_ok(&absent);
    assert_eq!(b2.date_closed, None);
}

#[test]
fn attachments_by_type_is_kept_verbatim() {
    let badges = badges_json().replace(
        "{\"trello\":{\"board\":0,\"card\":0}}",
        "{\"zip\":3}",
    );
    let card = card_json("c1", "-1", &[]).replace(&badges_json(), &badges);
    let b = parse_ok(&board_json_with(&[card]));
    let abt = &b.cards[0].badges.attachments_by_type;
    assert_eq!(abt.len(), 1);
    assert_eq!(abt[0].0, "zip");
    assert_eq!(abt[0].1, Json::Num(vec!['3']));
}

#[test]
fn top_level_array_is_a_schema_error() {
    let e = schema_err("[1,2]");
    assert_eq!(e.at, Entity::Board);
    assert_eq!(e.field, "");
    assert_eq!(e.expected, Expected::ObjShape);
    assert_eq!(e.found, Found::ArrKind);
}

#[test]
fn unknown_card_fields_are_ignored() {
    let base = card_json("c1", "-1", &[]);
    let noisy = base.replace(
        "\"closed\":false,",
        "\"closed\":false,\"pluginData\":[\"x\"],\"customFieldItems\":[],\"address\":null,",
    );
    let a = parse_ok(&board_json_with(&[noisy]));
    let b = parse_ok(&board_json_with(&[base]));
    assert_eq!(a, b);
}

#[test]
fn non_string_array_element_is_a_schema_error() {
    let text = minimal_board_json().replace("\"idTags\":[]", "\"idTags\":[\"t\",7]");
    let e = schema_err(&text);
    assert_eq!(e.at, Entity::Board);
    assert_eq!(e.field, "idTags");
    assert_eq!(e.expected, Expected::StrArray);
    assert_eq!(e.found, Found::NumberKind);
}

#[test]
fn non_string_label_value_is_a_schema_error() {
    let text = minimal_board_json().replace("\"pink\":\"\"", "\"pink\":3");
    let e = schema_err(&text);
    assert_eq!(e.at, Entity::Labels);
    assert_eq!(e.field, "pink");
    assert_eq!(e.expected, Expected::StrShape);
    assert_eq!(e.found, Found::NumberKind);
}
