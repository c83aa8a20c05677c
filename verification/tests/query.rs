//! Query strings and the client that travels in them.

use moonlight_common::http::client_info::{ClientInfo, Request, Uuid, DEFAULT_UNIQUE_ID};
use moonlight_common::http::percent::{decode_query_component, encode_component};
use moonlight_common::http::query::{
    push_query_param, FromQueryError, QueryBuilder, QueryBuilderError, QueryMap, QueryParam,
};
use std::borrow::Cow;

#[test]
fn builder_percent_encodes_and_map_decodes() {
    let mut query = String::new();
    query
        .append(QueryParam {
            key: "devicename",
            value: "LeCafe Desktop/1",
        })
        .unwrap();
    query
        .append(QueryParam {
            key: "salt",
            value: "0A-b_c.d~",
        })
        .unwrap();
    assert_eq!(query, "devicename=LeCafe%20Desktop%2F1&salt=0A-b_c.d~");

    let map: &str = &query;
    assert_eq!(
        QueryMap::get(&map, "devicename").unwrap(),
        "LeCafe Desktop/1"
    );
    assert_eq!(QueryMap::get(&map, "salt").unwrap(), "0A-b_c.d~");
    assert!(QueryMap::has(&map, "salt"));
}

#[test]
fn map_accepts_plus_as_space() {
    let map: &str = "devicename=LeCafe+Desktop";
    assert_eq!(QueryMap::get(&map, "devicename").unwrap(), "LeCafe Desktop");
}

#[test]
fn unreserved_characters_stay_and_everything_else_is_escaped() {
    let unreserved = "ABCXYZabcxyz0189-_.~";
    assert_eq!(encode_component(unreserved), unreserved);
    assert_eq!(encode_component(" "), "%20");
    assert_eq!(encode_component("+"), "%2B");
    assert_eq!(encode_component("%&="), "%25%26%3D");
    assert_eq!(encode_component("-\u{e4}-"), "-%C3%A4-");
    assert_eq!(encode_component("\u{1f600}"), "%F0%9F%98%80");
    assert_eq!(encode_component("\0\u{7f}"), "%00%7F");
    assert_eq!(encode_component("!*'();:@$,/?#[]"), "%21%2A%27%28%29%3B%3A%40%24%2C%2F%3F%23%5B%5D");
    assert_eq!(encode_component(""), "");
}

#[test]
fn every_component_decodes_to_what_was_encoded() {
    let texts = [
        "",
        "plain",
        "a b",
        "100%",
        "%41",
        "a+b",
        "k=v&w",
        "\u{e4}\u{f6}\u{fc}",
        "\u{20ac}",
        "\u{1f600}!",
        "-_.~",
    ];
    for text in texts {
        let encoded = encode_component(text);
        assert_eq!(decode_query_component(&encoded), text);
    }
}

#[test]
fn components_without_escapes_are_borrowed() {
    assert!(matches!(decode_query_component("abc"), Cow::Borrowed("abc")));
    assert!(matches!(decode_query_component(""), Cow::Borrowed("")));
    assert!(matches!(decode_query_component("a+b"), Cow::Owned(_)));
    assert!(matches!(decode_query_component("a%20b"), Cow::Owned(_)));
}

#[test]
fn incomplete_escapes_stand_for_themselves() {
    assert_eq!(decode_query_component("%"), "%");
    assert_eq!(decode_query_component("%4"), "%4");
    assert_eq!(decode_query_component("%zz"), "%zz");
    assert_eq!(decode_query_component("%%41"), "%A");
    assert_eq!(decode_query_component("%4a%4A"), "JJ");
}

#[test]
fn bytes_that_are_not_utf8_are_replaced() {
    assert_eq!(decode_query_component("a%FFb"), "a\u{fffd}b");
    assert_eq!(decode_query_component("%C3"), "\u{fffd}");
}

#[test]
fn parameters_are_pushed_behind_the_text() {
    let mut buffer = String::from("x");
    push_query_param(
        &mut buffer,
        &QueryParam {
            key: "a b",
            value: "c&d",
        },
    );
    assert_eq!(buffer, "xa%20b=c%26d");
}

#[test]
fn the_first_of_equal_keys_counts() {
    let map: &str = "a=1&b=2&a=3";
    assert_eq!(QueryMap::get(&map, "a").unwrap(), "1");
    assert_eq!(QueryMap::get(&map, "b").unwrap(), "2");
}

#[test]
fn only_the_first_equals_sign_separates() {
    let map: &str = "a=1=2&b&=x&c=";
    assert_eq!(QueryMap::get(&map, "a").unwrap(), "1=2");
    assert_eq!(QueryMap::get(&map, "b").unwrap(), "");
    assert_eq!(QueryMap::get(&map, "").unwrap(), "x");
    assert_eq!(QueryMap::get(&map, "c").unwrap(), "");
}

#[test]
fn keys_are_decoded_before_they_are_compared() {
    let map: &str = "dev%69ce+name=x";
    assert!(QueryMap::has(&map, "device name"));
    assert_eq!(QueryMap::get(&map, "device name").unwrap(), "x");
    assert!(!QueryMap::has(&map, "dev%69ce+name"));
}

#[test]
fn a_missing_parameter_is_named() {
    let map: &str = "a=1";
    assert!(!QueryMap::has(&map, "b"));
    match QueryMap::get(&map, "b") {
        Err(FromQueryError::QueryParamNotFound(param)) => assert_eq!(param, "b"),
        _ => panic!("the parameter is not there"),
    }
}

#[test]
fn the_empty_query_holds_the_empty_key() {
    let map: &str = "";
    assert!(QueryMap::has(&map, ""));
    assert_eq!(QueryMap::get(&map, "").unwrap(), "");
    assert!(!QueryMap::has(&map, "a"));
}

fn client() -> ClientInfo {
    ClientInfo {
        unique_id: String::from("my client/1"),
        uuid: Uuid {
            bytes: [
                0x00, 0x11, 0x22, 0x33, 0x44, 0x55, 0x66, 0x77, 0x88, 0x99, 0xaa, 0xbb, 0xcc,
                0xdd, 0xee, 0xff,
            ],
        },
    }
}

#[test]
fn a_client_is_written_with_its_hyphenated_uuid() {
    let mut query = String::new();
    client().append_query_params(&mut query).unwrap();
    assert_eq!(
        query,
        "uniqueid=my%20client%2F1&uuid=00112233-4455-6677-8899-aabbccddeeff"
    );
}

#[test]
fn a_client_reads_back_what_it_wrote() {
    let mut query = String::from("before=1");
    client().append_query_params(&mut query).unwrap();
    let map: &str = &query;
    assert_eq!(ClientInfo::from_query_params(&map).unwrap(), client());
}

#[test]
fn a_client_is_found_between_other_parameters() {
    let mut query = String::from("before=1");
    client().append_query_params(&mut query).unwrap();
    query
        .append(QueryParam {
            key: "uuid",
            value: "other",
        })
        .unwrap();
    let map: &str = &query;
    assert_eq!(ClientInfo::from_query_params(&map).unwrap(), client());
}

#[test]
fn a_uuid_is_read_in_each_of_its_forms() {
    let forms = [
        "00112233445566778899aabbccddeeff",
        "00112233445566778899AABBCCDDEEFF",
        "00112233-4455-6677-8899-aabbccddeeff",
        "{00112233-4455-6677-8899-aabbccddeeff}",
        "urn:uuid:00112233-4455-6677-8899-aabbccddeeff",
        "URN:UUID:00112233-4455-6677-8899-aabbccddeeff",
    ];
    for form in forms {
        let mut query = String::new();
        query
            .append(QueryParam {
                key: "uniqueid",
                value: "my client/1",
            })
            .unwrap();
        query
            .append(QueryParam {
                key: "uuid",
                value: form,
            })
            .unwrap();
        let map: &str = &query;
        assert_eq!(ClientInfo::from_query_params(&map).unwrap(), client());
    }
}

#[test]
fn a_text_that_is_no_uuid_is_refused() {
    let texts = [
        "",
        "uniqueid",
        "00112233-4455-6677-8899-aabbccddeefg",
        "001122334-455-6677-8899-aabbccddeeff",
        "00112233445566778899aabbccddeef",
        "(00112233-4455-6677-8899-aabbccddeeff)",
        "urn:guid:00112233-4455-6677-8899-aabbccddeeff",
    ];
    for text in texts {
        let mut query = String::from("uniqueid=1");
        query
            .append(QueryParam {
                key: "uuid",
                value: text,
            })
            .unwrap();
        let map: &str = &query;
        match ClientInfo::from_query_params(&map) {
            Err(FromQueryError::Uuid(error)) => {
                assert_eq!(Some(error), uuid::Uuid::parse_str(text).err());
            }
            _ => panic!("the text is no identifier"),
        }
    }
}

#[test]
fn the_unique_id_is_looked_at_first() {
    let map: &str = "";
    assert!(matches!(
        ClientInfo::from_query_params(&map),
        Err(FromQueryError::QueryParamNotFound(param)) if param == "uniqueid"
    ));
    let map: &str = "uniqueid=1";
    assert!(matches!(
        ClientInfo::from_query_params(&map),
        Err(FromQueryError::QueryParamNotFound(param)) if param == "uuid"
    ));
}

#[test]
fn the_default_client_has_the_shared_id_and_a_random_uuid() {
    let one = ClientInfo::default();
    let other = ClientInfo::default();
    assert_eq!(one.unique_id, "0123456789ABCDEF");
    assert_eq!(one.unique_id, DEFAULT_UNIQUE_ID);
    assert_ne!(one.uuid, other.uuid);
    assert_eq!(one.uuid.bytes[6] >> 4, 4);
    assert_eq!(one.uuid.bytes[8] >> 6, 2);
}

#[test]
fn a_client_can_be_given_its_uuid() {
    let uuid = client().uuid;
    let given = ClientInfo::with_uuid(uuid);
    assert_eq!(given.unique_id, DEFAULT_UNIQUE_ID);
    assert_eq!(given.uuid, uuid);
}

struct Limited {
    keys: Vec<String>,
    limit: usize,
}

impl QueryBuilder for Limited {
    fn append(&mut self, param: QueryParam) -> Result<(), QueryBuilderError> {
        if self.keys.len() < self.limit {
            self.keys.push(param.key.to_string());
            Ok(())
        } else {
            Err(QueryBuilderError::BufferFull)
        }
    }
}

#[test]
fn a_client_reports_a_full_builder() {
    for limit in 0..4 {
        let mut builder = Limited {
            keys: Vec::new(),
            limit,
        };
        let written = client().append_query_params(&mut builder);
        if limit < 2 {
            assert_eq!(written, Err(QueryBuilderError::BufferFull));
            assert_eq!(builder.keys.len(), limit);
        } else {
            assert_eq!(written, Ok(()));
            assert_eq!(builder.keys, ["uniqueid", "uuid"]);
        }
    }
    assert_eq!(
        QueryBuilderError::BufferFull.message(),
        "the query builder buffer is full"
    );
}
