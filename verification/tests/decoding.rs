use threads_api::decode::{field, list, list_field, optional_field, Decode, Key, ShapeError};
use threads_api::json::{Json, Kind, Number};
use threads_api::types::internal::{Caption, Post, PostMeta, Response, ThreadItem as WireItem};
use threads_api::types::{Card, Link, Media, ProfileDetail};
use threads_api::{interpret, DecodeError, Error};

fn text(s: &str) -> Json {
    Json::String(s.to_string())
}

fn number(n: u64) -> Json {
    Json::Number(Number::Unsigned(n))
}

fn object(members: Vec<(&str, Json)>) -> Json {
    Json::Object(members.into_iter().map(|(k, v)| (k.to_string(), v)).collect())
}

fn media(url: &str, width: u64, height: u64) -> Json {
    object(vec![("url", text(url)), ("width", number(width)), ("height", number(height))])
}

#[test]
fn parsing_keeps_what_the_text_holds() {
    let json = Json::from_slice(br#"{"b":[1,-2,1.5,"x",null,true],"a":{"c":false}}"#).unwrap();
    let list = json.member("b").unwrap();
    assert_eq!(
        *list,
        Json::Array(vec![
            number(1),
            Json::Number(Number::Negative(-2)),
            Json::Number(Number::Fraction),
            text("x"),
            Json::Null,
            Json::Bool(true),
        ])
    );
    assert_eq!(*json.member("a").unwrap(), object(vec![("c", Json::Bool(false))]));
    assert_eq!(json.member("c"), None);
    assert_eq!(json.kind(), Kind::Object);
}

#[test]
fn parsing_reads_the_whole_range_of_numbers() {
    assert_eq!(Json::from_slice(b"18446744073709551615"), Ok(number(u64::MAX)));
    assert_eq!(Json::from_slice(b"0"), Ok(number(0)));
    assert_eq!(
        Json::from_slice(b"-9223372036854775808"),
        Ok(Json::Number(Number::Negative(i64::MIN)))
    );
    assert_eq!(Json::from_slice(b"18446744073709551616"), Ok(Json::Number(Number::Fraction)));
    assert_eq!(Json::from_slice(b"1e2"), Ok(Json::Number(Number::Fraction)));
}

#[test]
fn parsing_refuses_what_is_no_json() {
    assert!(Json::from_slice(b"").is_err());
    assert!(Json::from_slice(b"{").is_err());
    assert!(Json::from_slice(b"[1,]").is_err());
    assert!(Json::from_slice(b"1 2").is_err());
    assert_eq!(
        Json::from_slice(b"[1,]"),
        Err("trailing comma at line 1 column 4".to_string())
    );
}

#[test]
fn member_is_the_first_of_its_name() {
    let json = object(vec![("a", number(1)), ("b", number(2)), ("a", number(3))]);
    assert_eq!(json.member("a"), Some(&number(1)));
    assert_eq!(json.member("b"), Some(&number(2)));
    assert_eq!(json.member("A"), None);
    assert_eq!(json.member(""), None);
    assert_eq!(number(1).member("a"), None);
    assert_eq!(Json::Array(vec![]).member("a"), None);
    assert_eq!(object(vec![]).member("a"), None);
}

#[test]
fn kinds_are_told_apart() {
    assert_eq!(Json::Null.kind(), Kind::Null);
    assert_eq!(Json::Bool(false).kind(), Kind::Bool);
    assert_eq!(number(1).kind(), Kind::Number);
    assert_eq!(Json::Number(Number::Fraction).kind(), Kind::Number);
    assert_eq!(text("").kind(), Kind::String);
    assert_eq!(Json::Array(vec![]).kind(), Kind::Array);
    assert_eq!(object(vec![]).kind(), Kind::Object);
}

#[test]
fn keys_carry_the_names_of_the_wire() {
    assert_eq!(Key::Data.name(), "data");
    assert_eq!(Key::UserData.name(), "userData");
    assert_eq!(Key::MediaData.name(), "mediaData");
    assert_eq!(Key::ContainingThread.name(), "containing_thread");
    assert_eq!(Key::ReplyThreads.name(), "reply_threads");
    assert_eq!(Key::ThreadItems.name(), "thread_items");
    assert_eq!(Key::ImageVersions2.name(), "image_versions2");
    assert_eq!(Key::Candidates.name(), "candidates");
    assert_eq!(Key::TextPostAppInfo.name(), "text_post_app_info");
    assert_eq!(Key::DirectReplyCount.name(), "direct_reply_count");
    assert_eq!(Key::LinkPreviewAttachment.name(), "link_preview_attachment");
    assert_eq!(Key::Pk.name(), "pk");
    assert_eq!(Key::HdProfilePicVersions.name(), "hd_profile_pic_versions");
    assert_eq!(Key::FaviconUrl.name(), "favicon_url");
}

#[test]
fn scalars_decode_from_their_kind_only() {
    assert_eq!(bool::decode(&Json::Bool(true)), Ok(true));
    assert_eq!(
        bool::decode(&number(1)),
        Err(ShapeError::Mismatch { expected: Kind::Bool, found: Kind::Number })
    );
    assert_eq!(String::decode(&text("abc")), Ok("abc".to_string()));
    assert_eq!(
        String::decode(&Json::Null),
        Err(ShapeError::Mismatch { expected: Kind::String, found: Kind::Null })
    );
    assert_eq!(u64::decode(&number(u64::MAX)), Ok(u64::MAX));
    assert_eq!(
        u64::decode(&text("1")),
        Err(ShapeError::Mismatch { expected: Kind::Number, found: Kind::String })
    );
    assert_eq!(u64::decode(&Json::Number(Number::Negative(-1))), Err(ShapeError::OutOfRange));
    assert_eq!(u64::decode(&Json::Number(Number::Fraction)), Err(ShapeError::OutOfRange));
}

#[test]
fn u32_is_bounded() {
    assert_eq!(u32::decode(&number(0)), Ok(0));
    assert_eq!(u32::decode(&number(4294967295)), Ok(u32::MAX));
    assert_eq!(u32::decode(&number(4294967296)), Err(ShapeError::OutOfRange));
    assert_eq!(u32::decode(&number(u64::MAX)), Err(ShapeError::OutOfRange));
    assert_eq!(u32::decode(&Json::Number(Number::Negative(-5))), Err(ShapeError::OutOfRange));
    assert_eq!(
        u32::decode(&Json::Array(vec![])),
        Err(ShapeError::Mismatch { expected: Kind::Number, found: Kind::Array })
    );
}

#[test]
fn required_member_must_be_there() {
    let json = object(vec![("url", text("u"))]);
    assert_eq!(field::<String>(&json, Key::Url), Ok("u".to_string()));
    assert_eq!(field::<String>(&json, Key::Title), Err(ShapeError::Missing(Key::Title)));
    assert_eq!(
        field::<u32>(&json, Key::Url),
        Err(ShapeError::Mismatch { expected: Kind::Number, found: Kind::String })
    );
    assert_eq!(
        field::<String>(&text("u"), Key::Url),
        Err(ShapeError::Mismatch { expected: Kind::Object, found: Kind::String })
    );
    let null = object(vec![("url", Json::Null)]);
    assert_eq!(
        field::<String>(&null, Key::Url),
        Err(ShapeError::Mismatch { expected: Kind::String, found: Kind::Null })
    );
}

#[test]
fn optional_member_may_be_absent_or_null() {
    let absent = object(vec![]);
    let null = object(vec![("favicon_url", Json::Null)]);
    let there = object(vec![("favicon_url", text("f"))]);
    let wrong = object(vec![("favicon_url", number(1))]);
    assert_eq!(optional_field::<String>(&absent, Key::FaviconUrl), Ok(None));
    assert_eq!(optional_field::<String>(&null, Key::FaviconUrl), Ok(None));
    assert_eq!(optional_field::<String>(&there, Key::FaviconUrl), Ok(Some("f".to_string())));
    assert_eq!(
        optional_field::<String>(&wrong, Key::FaviconUrl),
        Err(ShapeError::Mismatch { expected: Kind::String, found: Kind::Number })
    );
    assert_eq!(
        optional_field::<String>(&Json::Null, Key::FaviconUrl),
        Err(ShapeError::Mismatch { expected: Kind::Object, found: Kind::Null })
    );
}

#[test]
fn list_decodes_in_order_or_fails_at_the_first_misfit() {
    let good = Json::Array(vec![media("a", 1, 2), media("b", 3, 4), media("c", 5, 6)]);
    let items = list::<Media>(&good).unwrap();
    assert_eq!(
        items,
        vec![
            Media { url: "a".to_string(), width: 1, height: 2 },
            Media { url: "b".to_string(), width: 3, height: 4 },
            Media { url: "c".to_string(), width: 5, height: 6 },
        ]
    );
    assert_eq!(list::<Media>(&Json::Array(vec![])), Ok(vec![]));
    let bad = Json::Array(vec![
        media("a", 1, 2),
        object(vec![("url", text("b")), ("width", number(3))]),
        object(vec![("width", number(3))]),
    ]);
    assert_eq!(list::<Media>(&bad), Err(ShapeError::Missing(Key::Height)));
    assert_eq!(
        list::<Media>(&object(vec![])),
        Err(ShapeError::Mismatch { expected: Kind::Array, found: Kind::Object })
    );
    let holder = object(vec![("candidates", good)]);
    assert_eq!(list_field::<Media>(&holder, Key::Candidates).unwrap().len(), 3);
    assert_eq!(
        list_field::<Media>(&holder, Key::Users),
        Err(ShapeError::Missing(Key::Users))
    );
    assert_eq!(
        list_field::<Media>(&Json::Bool(true), Key::Users),
        Err(ShapeError::Mismatch { expected: Kind::Object, found: Kind::Bool })
    );
}

#[test]
fn records_read_their_members_by_wire_name() {
    let detail = object(vec![
        ("pk", text("1")),
        ("username", text("u")),
        ("is_verified", Json::Bool(false)),
        ("profile_pic_url", text("p")),
        ("id", text("not this")),
    ]);
    assert_eq!(
        ProfileDetail::decode(&detail),
        Ok(ProfileDetail {
            profile_pic_url: "p".to_string(),
            username: "u".to_string(),
            is_verified: false,
            id: "1".to_string(),
        })
    );
    assert_eq!(Link::decode(&object(vec![("url", text("l"))])), Ok(Link { url: "l".to_string() }));
    assert_eq!(Caption::decode(&object(vec![("text", text("t"))])).unwrap().text, "t");
    let card = object(vec![
        ("url", text("a")),
        ("title", text("b")),
        ("image_url", text("c")),
        ("display_url", text("d")),
    ]);
    assert_eq!(
        Card::decode(&card),
        Ok(Card {
            url: "a".to_string(),
            title: "b".to_string(),
            image_url: "c".to_string(),
            display_url: "d".to_string(),
            favicon_url: None,
        })
    );
}

#[test]
fn record_reports_its_first_misfit_in_field_order() {
    let detail = object(vec![("pk", number(1)), ("is_verified", text("yes"))]);
    assert_eq!(ProfileDetail::decode(&detail), Err(ShapeError::Missing(Key::ProfilePicUrl)));
    let detail = object(vec![
        ("profile_pic_url", text("p")),
        ("username", text("u")),
        ("pk", number(1)),
        ("is_verified", text("yes")),
    ]);
    assert_eq!(
        ProfileDetail::decode(&detail),
        Err(ShapeError::Mismatch { expected: Kind::Bool, found: Kind::String })
    );
}

#[test]
fn post_meta_tolerates_absence() {
    let meta = PostMeta::decode(&object(vec![])).unwrap();
    assert_eq!(meta.direct_reply_count, None);
    assert_eq!(meta.link_preview_attachment, None);
    let meta = PostMeta::decode(&object(vec![("direct_reply_count", number(4))])).unwrap();
    assert_eq!(meta.direct_reply_count, Some(4));
    assert_eq!(meta.link_preview_attachment, None);
    let broken = object(vec![("link_preview_attachment", object(vec![]))]);
    assert_eq!(PostMeta::decode(&broken).unwrap_err(), ShapeError::Missing(Key::Url));
}

#[test]
fn post_needs_its_original_size() {
    let user = object(vec![
        ("profile_pic_url", text("p")),
        ("username", text("u")),
        ("is_verified", Json::Bool(true)),
        ("pk", text("1")),
    ]);
    let head = vec![
        ("user", user),
        ("image_versions2", object(vec![("candidates", Json::Array(vec![]))])),
        ("original_width", number(1)),
        ("caption", object(vec![("text", text("t"))])),
        ("taken_at", number(5000000000)),
        ("like_count", number(3)),
        ("text_post_app_info", object(vec![])),
    ];
    let lacking = object(head);
    assert_eq!(Post::decode(&lacking).unwrap_err(), ShapeError::Missing(Key::OriginalHeight));
    let Json::Object(mut members) = lacking else { unreachable!() };
    members.push(("original_height".to_string(), number(2)));
    let post = Post::decode(&Json::Object(members)).unwrap();
    assert_eq!(post.original_width, 1);
    assert_eq!(post.original_height, 2);
    assert_eq!(post.taken_at, 5000000000);
    assert_eq!(post.like_count, 3);
    assert!(post.images.candidates.is_empty());
    let wrapped = WireItem::decode(&object(vec![])).unwrap_err();
    assert_eq!(wrapped, ShapeError::Missing(Key::Post));
}

#[test]
fn envelope_nests() {
    let inner = object(vec![("data", object(vec![("text", text("deep"))]))]);
    let outer = object(vec![("data", inner)]);
    let twice = Response::<Response<Caption>>::decode(&outer).unwrap();
    assert_eq!(twice.data.data.text, "deep");
    assert_eq!(
        Response::<Response<Response<Caption>>>::decode(&outer).unwrap_err(),
        ShapeError::Missing(Key::Data)
    );
}

#[test]
fn interpret_tells_syntax_from_shape() {
    let read = Ok(object(vec![("text", text("t"))]));
    assert_eq!(interpret::<Caption>(read).unwrap().text, "t");
    let read = Ok(object(vec![]));
    assert_eq!(
        interpret::<Caption>(read).unwrap_err(),
        Error::Decode(DecodeError::Shape(ShapeError::Missing(Key::Text)))
    );
    let read = Err("EOF while parsing a value at line 1 column 0".to_string());
    assert_eq!(
        interpret::<Caption>(read).unwrap_err(),
        Error::Decode(DecodeError::Syntax(
            "EOF while parsing a value at line 1 column 0".to_string()
        ))
    );
    assert_eq!(
        interpret::<Caption>(Json::from_slice(b"")).unwrap_err(),
        Error::Decode(DecodeError::Syntax(
            "EOF while parsing a value at line 1 column 0".to_string()
        ))
    );
}

#[test]
fn parsing_agrees_with_serde_json() {
    let source = br#"{"n":[0,7,-7,0.5],"s":"a\u00e9\n","o":{"k":null,"t":true},"e":[]}"#;
    let value: serde_json::Value = serde_json::from_slice(source).unwrap();
    let json = Json::from_slice(source).unwrap();
    let numbers = json.member("n").unwrap();
    assert_eq!(
        *numbers,
        Json::Array(vec![
            number(value["n"][0].as_u64().unwrap()),
            number(value["n"][1].as_u64().unwrap()),
            Json::Number(Number::Negative(value["n"][2].as_i64().unwrap())),
            Json::Number(Number::Fraction),
        ])
    );
    assert_eq!(*json.member("s").unwrap(), text(value["s"].as_str().unwrap()));
    assert_eq!(*json.member("s").unwrap(), text("a\u{e9}\n"));
    let inner = json.member("o").unwrap();
    assert_eq!(inner.member("k"), Some(&Json::Null));
    assert_eq!(inner.member("t"), Some(&Json::Bool(value["o"]["t"].as_bool().unwrap())));
    assert_eq!(json.member("e"), Some(&Json::Array(Vec::new())));
    let Json::Object(members) = &json else { unreachable!() };
    assert_eq!(members.len(), value.as_object().unwrap().len());
}
