//! Who the client is, and how a request carries that.

use crate::http::percent;
use crate::http::query;
use crate::http::query::{
    FromQueryError, QueryBuilder, QueryBuilderError, QueryMap, QueryParam,
};
use std::borrow::Cow;
use std::str::FromStr;
use vstd::prelude::*;
use vstd::utf8::*;

verus! {

/// It's recommended to use the same (default) UID for all Moonlight clients so we can quit
/// games started by other Moonlight clients.
pub const DEFAULT_UNIQUE_ID: &'static str = "0123456789ABCDEF";

/// A universally unique identifier: its sixteen bytes, the most significant first.
#[derive(Debug, Clone, Copy, PartialEq, Eq)]
pub struct Uuid {
    pub bytes: [u8; 16],
}

impl View for Uuid {
    type V = Seq<u8>;

    open spec fn view(&self) -> Seq<u8> {
        self.bytes@
    }
}

/// The lower case hexadecimal digit of a number below sixteen.
pub open spec fn hex_lower(n: u8) -> char {
    if n < 10 {
        (0x30 + n) as char
    } else {
        (0x61 + n - 10) as char
    }
}

/// The `k`-th half byte.
pub open spec fn nibble(bytes: Seq<u8>, k: int) -> u8 {
    if k % 2 == 0 {
        bytes[k / 2] / 16
    } else {
        bytes[k / 2] % 16
    }
}

/// Where the hyphens of a hyphenated identifier stand.
pub open spec fn is_hyphen_place(i: int) -> bool {
    i == 8 || i == 13 || i == 18 || i == 23
}

/// Where the `k`-th hexadecimal digit of a hyphenated identifier stands: the groups have 8,
/// 4, 4, 4 and 12 digits.
pub open spec fn digit_place(k: int) -> int {
    if k < 8 {
        k
    } else if k < 12 {
        k + 1
    } else if k < 16 {
        k + 2
    } else if k < 20 {
        k + 3
    } else {
        k + 4
    }
}

/// Which hexadecimal digit stands at a place of a hyphenated identifier.
pub open spec fn digit_at(i: int) -> int {
    if i < 8 {
        i
    } else if i < 13 {
        i - 1
    } else if i < 18 {
        i - 2
    } else if i < 23 {
        i - 3
    } else {
        i - 4
    }
}

/// An identifier in its hyphenated lower case form.
pub open spec fn hyphenated(bytes: Seq<u8>) -> Seq<char> {
    Seq::new(
        36,
        |i: int|
            if is_hyphen_place(i) {
                '-'
            } else {
                hex_lower(nibble(bytes, digit_at(i)))
            },
    )
}

/// The sixteen bytes that thirty-two hexadecimal digits stand for.
pub open spec fn bytes_of_digits(digits: Seq<u8>) -> Option<Seq<u8>> {
    if forall|k: int| 0 <= k < 32 ==> percent::is_hex_digit(#[trigger] digits[k]) {
        Some(
            Seq::new(
                16,
                |j: int|
                    (16 * percent::hex_value(digits[2 * j]) + percent::hex_value(
                        digits[2 * j + 1],
                    )) as u8,
            ),
        )
    } else {
        None
    }
}

/// The bytes that thirty-six characters in hyphenated form stand for.
pub open spec fn bytes_of_hyphenated(s: Seq<u8>) -> Option<Seq<u8>> {
    if s[8] == 0x2d && s[13] == 0x2d && s[18] == 0x2d && s[23] == 0x2d {
        bytes_of_digits(Seq::new(32, |k: int| s[digit_place(k)]))
    } else {
        None
    }
}

/// Whether the first nine bytes read `urn:uuid:`, in any mix of cases.
pub open spec fn has_urn_prefix(s: Seq<u8>) -> bool {
    &&& s[0] == 0x75 || s[0] == 0x55
    &&& s[1] == 0x72 || s[1] == 0x52
    &&& s[2] == 0x6e || s[2] == 0x4e
    &&& s[3] == 0x3a
    &&& s[4] == 0x75 || s[4] == 0x55
    &&& s[5] == 0x75 || s[5] == 0x55
    &&& s[6] == 0x69 || s[6] == 0x49
    &&& s[7] == 0x64 || s[7] == 0x44
    &&& s[8] == 0x3a
}

/// The identifier that a text stands for: thirty-two digits, the hyphenated form, that form
/// in braces, or that form behind `urn:uuid:`. The text is taken in its UTF-8 form.
pub open spec fn uuid_of_text(s: Seq<u8>) -> Option<Seq<u8>> {
    if s.len() == 32 {
        bytes_of_digits(s)
    } else if s.len() == 36 {
        bytes_of_hyphenated(s)
    } else if s.len() == 38 && s[0] == 0x7b && s[37] == 0x7d {
        bytes_of_hyphenated(s.subrange(1, 37))
    } else if s.len() == 45 && has_urn_prefix(s) {
        bytes_of_hyphenated(s.skip(9))
    } else {
        None
    }
}

/// The error for a text that is no identifier.
pub uninterp spec fn uuid_error_of(text: Seq<char>) -> uuid::Error;

/// `uuid::Uuid::from_str`: reads the simple, hyphenated, braced and URN forms, with
/// hexadecimal digits of either case, and fails on every other text. The error follows from
/// the text; what it says of it has only a name here.
#[verifier::external_body]
fn parse_uuid(text: &str) -> (r: Result<Uuid, uuid::Error>)
    ensures
        match uuid_of_text(encode_utf8(text@)) {
            Some(bytes) => r matches Ok(uuid) && uuid@ == bytes,
            None => r matches Err(error) && error == uuid_error_of(text@),
        },
{
    match uuid::Uuid::from_str(text) {
        Ok(uuid) => Ok(Uuid { bytes: uuid.into_bytes() }),
        Err(error) => Err(error),
    }
}

/// `uuid::fmt::Hyphenated::encode_lower`: the hyphenated lower case form of an identifier.
#[verifier::external_body]
fn hyphenated_lower(uuid: &Uuid) -> (r: String)
    ensures
        r@ == hyphenated(uuid@),
{
    let mut buffer = [0; uuid::fmt::Hyphenated::LENGTH];
    uuid::Uuid::from_bytes(uuid.bytes).as_hyphenated().encode_lower(&mut buffer).to_string()
}

/// `uuid::Uuid::new_v4`: a random identifier. Only what marks it as random is certain: the
/// version number 4 and the variant bits.
#[verifier::external_body]
fn random_uuid() -> (r: Uuid)
    ensures
        r@[6] / 16 == 4,
        0x80 <= r@[8] <= 0xbf,
{
    Uuid { bytes: uuid::Uuid::new_v4().into_bytes() }
}

/// Whether the identifier came out of a random draw.
pub closed spec fn is_drawn(uuid: Uuid) -> bool {
    call_ensures(random_uuid, (), uuid)
}

/// What a request is made of, as far as it travels in the query.
///
/// An implementation outside the verified code leaves open what the spec functions say of it.
pub trait Request: Sized {
    /// The parameters that carry the request.
    open spec fn query_params(&self) -> Seq<(Seq<char>, Seq<char>)> {
        arbitrary()
    }

    /// Whether a builder that has room for such parameters takes the whole request.
    open spec fn fits(&self, room: spec_fn(Seq<(Seq<char>, Seq<char>)>) -> bool) -> bool {
        arbitrary()
    }

    /// Serialize the parameters in this request into the query builder.
    fn append_query_params<B: QueryBuilder>(&self, query_builder: &mut B) -> (r: Result<
        (),
        QueryBuilderError,
    >)
        ensures
            r is Ok <==> self.fits(
                |more: Seq<(Seq<char>, Seq<char>)>| old(query_builder).room(more),
            ),
            r is Ok ==> final(query_builder).params() == old(query_builder).params()
                + self.query_params(),
    ;

    /// Parse the query parameters into this request type.
    fn from_query_params<Q: QueryMap>(query_map: &Q) -> (r: Result<Self, FromQueryError>);
}

/// The identifier of a client.
/// Every client request should use this, even when unauthenticated.
#[derive(Debug, Clone, PartialEq)]
pub struct ClientInfo {
    /// It's recommended to use the same (default) UID for all Moonlight clients so we can
    /// quit games started by other Moonlight clients.
    pub unique_id: String,
    pub uuid: Uuid,
}

impl View for ClientInfo {
    type V = (Seq<char>, Seq<u8>);

    open spec fn view(&self) -> (Seq<char>, Seq<u8>) {
        (self.unique_id@, self.uuid@)
    }
}

impl ClientInfo {
    /// The client with the default unique identifier and that UUID.
    pub fn with_uuid(uuid: Uuid) -> (r: Self)
        ensures
            r.unique_id@ == DEFAULT_UNIQUE_ID@,
            r.uuid == uuid,
    {
        ClientInfo { unique_id: DEFAULT_UNIQUE_ID.to_owned(), uuid }
    }
}

impl Default for ClientInfo {
    /// The client with the default unique identifier and a UUID that is drawn for it.
    fn default() -> (r: Self)
        ensures
            r.unique_id@ == DEFAULT_UNIQUE_ID@,
            is_drawn(r.uuid),
            r.uuid@[6] / 16 == 4,
            0x80 <= r.uuid@[8] <= 0xbf,
    {
        ClientInfo::with_uuid(random_uuid())
    }
}

fn owned(text: Cow<str>) -> (r: String)
    ensures
        r@ == text@,
{
    match text {
        Cow::Borrowed(s) => s.to_owned(),
        Cow::Owned(s) => s,
    }
}

/// The client that the two parameters describe, or what is wrong with them: the unique
/// identifier is looked at first.
pub open spec fn client_of_params(
    unique_id: Result<Seq<char>, query::QueryFailure>,
    uuid: Result<Seq<char>, query::QueryFailure>,
) -> Result<(Seq<char>, Seq<u8>), query::QueryFailure> {
    match unique_id {
        Err(failure) => Err(failure),
        Ok(id) => match uuid {
            Err(failure) => Err(failure),
            Ok(text) => match uuid_of_text(encode_utf8(text)) {
                Some(bytes) => Ok((id, bytes)),
                None => Err(query::QueryFailure::Uuid(uuid_error_of(text))),
            },
        },
    }
}

impl Request for ClientInfo {
    open spec fn query_params(&self) -> Seq<(Seq<char>, Seq<char>)> {
        seq![("uniqueid"@, self.unique_id@), ("uuid"@, hyphenated(self.uuid@))]
    }

    open spec fn fits(&self, room: spec_fn(Seq<(Seq<char>, Seq<char>)>) -> bool) -> bool {
        room(self.query_params().take(1)) && room(self.query_params())
    }

    fn append_query_params<B: QueryBuilder>(&self, query_builder: &mut B) -> (r: Result<
        (),
        QueryBuilderError,
    >) {
        let ghost first = ("uniqueid"@, self.unique_id@);
        let ghost second = ("uuid"@, hyphenated(self.uuid@));
        assert(self.query_params().take(1) =~= seq![first]);
        assert(self.query_params() =~= seq![first] + seq![second]);
        query_builder.append(
            QueryParam { key: "uniqueid", value: self.unique_id.as_str() },
        )?;
        let uuid = hyphenated_lower(&self.uuid);
        query_builder.append(QueryParam { key: "uuid", value: uuid.as_str() })?;
        assert(query_builder.params() =~= old(query_builder).params() + self.query_params());
        Ok(())
    }

    fn from_query_params<Q: QueryMap>(query_map: &Q) -> (r: Result<Self, FromQueryError>)
        ensures
            match client_of_params(
                query_map.lookup("uniqueid"@),
                query_map.lookup("uuid"@),
            ) {
                Ok(info) => r matches Ok(client) && client@ == info,
                Err(failure) => r matches Err(error) && error@ == failure,
            },
    {
        let unique_id = match query_map.get("uniqueid") {
            Ok(value) => owned(value),
            Err(error) => {
                return Err(error);
            },
        };
        let text = match query_map.get("uuid") {
            Ok(value) => owned(value),
            Err(error) => {
                return Err(error);
            },
        };
        match parse_uuid(text.as_str()) {
            Ok(uuid) => Ok(ClientInfo { unique_id, uuid }),
            Err(error) => Err(FromQueryError::Uuid(error)),
        }
    }
}

/// Reading an identifier gives back what was written in hyphenated form.
pub proof fn lemma_uuid_text_round_trip(bytes: Seq<u8>)
    requires
        bytes.len() == 16,
    ensures
        uuid_of_text(encode_utf8(hyphenated(bytes))) == Some(bytes),
{
    let text = hyphenated(bytes);
    assert forall|i: int| 0 <= i < 36 implies '\0' <= #[trigger] text[i] <= '\u{7f}' by {
        if !is_hyphen_place(i) {
            lemma_hex_lower(nibble(bytes, digit_at(i)));
        }
    }
    is_ascii_chars_encode_utf8(text);
    let s = encode_utf8(text);
    assert(s.len() == 36);
    assert(text[8] == '-' && text[13] == '-' && text[18] == '-' && text[23] == '-');
    assert(s[8] == 0x2d && s[13] == 0x2d && s[18] == 0x2d && s[23] == 0x2d);
    let digits = Seq::new(32, |k: int| s[digit_place(k)]);
    assert forall|k: int| 0 <= k < 32 implies percent::is_hex_digit(#[trigger] digits[k])
        && percent::hex_value(digits[k]) == nibble(bytes, k) by {
        lemma_hex_lower(nibble(bytes, k));
        assert(digit_at(digit_place(k)) == k);
        assert(text[digit_place(k)] == hex_lower(nibble(bytes, k)));
    }
    let read = bytes_of_digits(digits)->0;
    assert forall|j: int| 0 <= j < 16 implies #[trigger] read[j] == bytes[j] by {
        assert(percent::hex_value(digits[2 * j]) == nibble(bytes, 2 * j));
        assert(percent::hex_value(digits[2 * j + 1]) == nibble(bytes, 2 * j + 1));
    }
    assert(read =~= bytes);
}

proof fn lemma_hex_lower(n: u8)
    requires
        n < 16,
    ensures
        '\0' <= hex_lower(n) <= '\u{7f}',
        percent::is_hex_digit(hex_lower(n) as u8),
        percent::hex_value(hex_lower(n) as u8) == n,
{
}

/// Reading a query gives back the client that was written into it, whatever was written
/// before and after, as long as nothing before has one of the two keys.
pub proof fn lemma_client_info_round_trip(
    before: Seq<(Seq<char>, Seq<char>)>,
    client: ClientInfo,
    after: Seq<(Seq<char>, Seq<char>)>,
    built: String,
    query: &str,
)
    requires
        query::first_value(before, "uniqueid"@) is None,
        query::first_value(before, "uuid"@) is None,
        built.params() == before + client.query_params() + after,
        query@ == built@,
    ensures
        client_of_params(query.lookup("uniqueid"@), query.lookup("uuid"@)) == Ok::<
            (Seq<char>, Seq<u8>),
            query::QueryFailure,
        >(client@),
{
    let written = client.query_params();
    reveal_strlit("uniqueid");
    reveal_strlit("uuid");
    assert("uniqueid"@.len() != "uuid"@.len());
    assert(built.params().len() >= 2);
    query::lemma_first_value_concat(before + written, after, "uniqueid"@);
    query::lemma_first_value_concat(before + written, after, "uuid"@);
    query::lemma_first_value_concat(before, written, "uniqueid"@);
    query::lemma_first_value_concat(before, written, "uuid"@);
    reveal_with_fuel(query::first_value, 3);
    assert(written.skip(1)[0] == written[1]);
    lemma_uuid_text_round_trip(client.uuid@);
}

/// What a client is written as: its unique identifier as it is under `uniqueid`, then its UUID
/// under `uuid`, in thirty-six characters with hyphens in four places and lower case digits in
/// the others.
pub proof fn lemma_client_params(client: ClientInfo, i: int)
    requires
        0 <= i < 36,
    ensures
        client.query_params().len() == 2,
        client.query_params()[0] == ("uniqueid"@, client.unique_id@),
        client.query_params()[1].0 == "uuid"@,
        client.query_params()[1].1.len() == 36,
        i == 8 || i == 13 || i == 18 || i == 23 ==> client.query_params()[1].1[i] == '-',
        i != 8 && i != 13 && i != 18 && i != 23 ==> '0' <= client.query_params()[1].1[i] <= '9'
            || 'a' <= client.query_params()[1].1[i] <= 'f',
{
    if i != 8 && i != 13 && i != 18 && i != 23 {
        assert(nibble(client.uuid@, digit_at(i)) < 16);
    }
}

/// The first two digits of a UUID are its first byte, and so on, two for each of the sixteen
/// bytes in their order.
pub proof fn lemma_hyphenated_digits(bytes: Seq<u8>, j: int)
    requires
        bytes.len() == 16,
        0 <= j < 16,
    ensures
        ({
            let at = 2 * j + (if j < 4 {
                0int
            } else if j < 6 {
                1
            } else if j < 8 {
                2
            } else if j < 10 {
                3
            } else {
                4
            });
            let text = hyphenated(bytes);
            &&& text[at] as u32 == (if bytes[j] / 16 < 10 {
                48 + bytes[j] / 16
            } else {
                87 + bytes[j] / 16
            })
            &&& text[at + 1] as u32 == (if bytes[j] % 16 < 10 {
                48 + bytes[j] % 16
            } else {
                87 + bytes[j] % 16
            })
        }),
{
    assert(bytes[j] / 16 < 16 && bytes[j] % 16 < 16);
}

/// Braces around the hyphenated form and `urn:uuid:` in front of it change nothing, and so do
/// no hyphens at all.
pub proof fn lemma_uuid_forms(form: Seq<u8>)
    requires
        form.len() == 36,
        form[8] == 45 && form[13] == 45 && form[18] == 45 && form[23] == 45,
    ensures
        uuid_of_text(seq![123u8] + form + seq![125u8]) == uuid_of_text(form),
        uuid_of_text(seq![117u8, 114, 110, 58, 117, 117, 105, 100, 58] + form) == uuid_of_text(form),
        uuid_of_text(
            form.subrange(0, 8) + form.subrange(9, 13) + form.subrange(14, 18) + form.subrange(
                19,
                23,
            ) + form.subrange(24, 36),
        ) == uuid_of_text(form),
{
    assert((seq![123u8] + form + seq![125u8]).subrange(1, 37) =~= form);
    let urn = seq![117u8, 114, 110, 58, 117, 117, 105, 100, 58];
    assert((urn + form).skip(9) =~= form);
    let simple = form.subrange(0, 8) + form.subrange(9, 13) + form.subrange(14, 18) + form.subrange(
        19,
        23,
    ) + form.subrange(24, 36);
    assert(simple =~= Seq::new(32, |k: int| form[digit_place(k)]));
}

/// The client is described exactly where both parameters are there and the second is a UUID.
/// Otherwise the first thing that is missing or wrong is told, as it came.
pub proof fn lemma_client_of_params(
    id: Seq<char>,
    text: Seq<char>,
    missing: query::QueryFailure,
    other: Result<Seq<char>, query::QueryFailure>,
)
    ensures
        client_of_params(Err(missing), other) == Err::<(Seq<char>, Seq<u8>), query::QueryFailure>(
            missing,
        ),
        client_of_params(Ok(id), Err(missing)) == Err::<
            (Seq<char>, Seq<u8>),
            query::QueryFailure,
        >(missing),
        uuid_of_text(encode_utf8(text)) is None ==> client_of_params(Ok(id), Ok(text)) == Err::<
            (Seq<char>, Seq<u8>),
            query::QueryFailure,
        >(query::QueryFailure::Uuid(uuid_error_of(text))),
        uuid_of_text(encode_utf8(text)) matches Some(bytes) ==> client_of_params(Ok(id), Ok(text))
            == Ok::<(Seq<char>, Seq<u8>), query::QueryFailure>((id, bytes)),
{
}

/// A client fits where both of its parameters have room one after the other, and not where the
/// first has none or the two have none.
pub proof fn lemma_client_fits(
    client: ClientInfo,
    room: spec_fn(Seq<(Seq<char>, Seq<char>)>) -> bool,
)
    ensures
        ({
            let id = ("uniqueid"@, client.unique_id@);
            let uuid = ("uuid"@, hyphenated(client.uuid@));
            client.fits(room) <==> room(seq![id]) && room(seq![id, uuid])
        }),
{
    let id = ("uniqueid"@, client.unique_id@);
    assert(client.query_params().take(1) =~= seq![id]);
}

/// What contracts see of a client: its unique identifier, and the bytes of its UUID.
pub proof fn lemma_client_view(client: ClientInfo)
    ensures
        client@ == (client.unique_id@, client.uuid.bytes@),
{
}

} // verus!
