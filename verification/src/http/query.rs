//! Query strings: building one out of parameters, and looking parameters up in one.

use crate::http::percent;
use crate::http::percent::{decode_query_component, encode_component};
use std::borrow::Cow;
use vstd::prelude::*;
use vstd::utf8::*;

verus! {

/// A parameter of a query, neither key nor value encoded.
#[derive(Debug)]
pub struct QueryParam<'a> {
    pub key: &'a str,
    pub value: &'a str,
}

impl<'a> View for QueryParam<'a> {
    type V = (Seq<char>, Seq<char>);

    open spec fn view(&self) -> (Seq<char>, Seq<char>) {
        (self.key@, self.value@)
    }
}

/// Why a parameter could not be appended.
#[derive(Debug, Clone, Copy, PartialEq, Eq, Structural)]
pub enum QueryBuilderError {
    BufferFull,
}

impl QueryBuilderError {
    /// The error in words.
    pub fn message(&self) -> (r: &'static str)
        ensures
            r@ == "the query builder buffer is full"@,
    {
        "the query builder buffer is full"
    }
}

/// What query parameters are appended to.
///
/// An implementation outside the verified code leaves open what the spec functions say of it.
pub trait QueryBuilder {
    /// The parameters that the builder holds, in the order in which they came.
    open spec fn params(&self) -> Seq<(Seq<char>, Seq<char>)> {
        arbitrary()
    }

    /// Whether the builder has room for these further parameters, one after the other.
    open spec fn room(&self, more: Seq<(Seq<char>, Seq<char>)>) -> bool {
        arbitrary()
    }

    /// Appends one parameter behind those that are there.
    fn append(&mut self, param: QueryParam) -> (r: Result<(), QueryBuilderError>)
        ensures
            r is Ok <==> old(self).room(seq![param@]),
            r is Ok ==> final(self).params() == old(self).params().push(param@),
            r is Ok ==> forall|more: Seq<(Seq<char>, Seq<char>)>| #[trigger]
                final(self).room(more) == old(self).room(seq![param@] + more),
    ;
}

/// The position of the first `c`, or the length where there is none.
pub open spec fn first_index(s: Seq<char>, c: char) -> int
    decreases s.len(),
{
    if s.len() == 0 || s[0] == c {
        0
    } else {
        1 + first_index(s.skip(1), c)
    }
}

/// The parameter that one `key=value` stretch of a query stands for. Without a `=` the
/// whole stretch is the key and the value is empty.
pub open spec fn pair_of(stretch: Seq<char>) -> (Seq<char>, Seq<char>) {
    let i = first_index(stretch, '=');
    (
        percent::decoded(stretch.take(i)),
        if i < stretch.len() {
            percent::decoded(stretch.skip(i + 1))
        } else {
            Seq::empty()
        },
    )
}

/// The parameters of a query string: one for each stretch between two `&`.
pub open spec fn query_pairs(query: Seq<char>) -> Seq<(Seq<char>, Seq<char>)>
    decreases query.len(),
{
    let i = first_index(query, '&');
    if 0 <= i < query.len() {
        seq![pair_of(query.take(i))] + query_pairs(query.skip(i + 1))
    } else {
        seq![pair_of(query)]
    }
}

/// The value of the first parameter with that key.
pub open spec fn first_value(
    pairs: Seq<(Seq<char>, Seq<char>)>,
    key: Seq<char>,
) -> Option<Seq<char>>
    decreases pairs.len(),
{
    if pairs.len() == 0 {
        None
    } else if pairs[0].0 == key {
        Some(pairs[0].1)
    } else {
        first_value(pairs.skip(1), key)
    }
}

/// A parameter in its encoded form.
pub open spec fn encoded_param(param: (Seq<char>, Seq<char>)) -> Seq<char> {
    percent::encoded(param.0) + seq!['='] + percent::encoded(param.1)
}

/// A query string with one more parameter at its end.
pub open spec fn appended(query: Seq<char>, param: (Seq<char>, Seq<char>)) -> Seq<char> {
    if query.len() == 0 {
        encoded_param(param)
    } else {
        query + seq!['&'] + encoded_param(param)
    }
}

/// Appends `key=value`, both percent-encoded, to a query string.
pub fn push_query_param(buffer: &mut String, param: &QueryParam)
    ensures
        final(buffer)@ == old(buffer)@ + encoded_param(param@),
{
    let key = encode_component(param.key);
    let value = encode_component(param.value);
    vstd::string::StringExecFns::append(buffer, key.as_str());
    buffer.push('=');
    vstd::string::StringExecFns::append(buffer, value.as_str());
    assert(buffer@ =~= old(buffer)@ + encoded_param(param@));
}

/// The outside error type of `uuid`.
#[verifier::external_type_specification]
#[verifier::external_body]
pub struct ExUuidError(uuid::Error);

/// The outside error type of `hex`.
#[verifier::external_type_specification]
#[verifier::external_body]
pub struct ExFromHexError(hex::FromHexError);

/// The outside error type of `pem`.
#[verifier::external_type_specification]
#[verifier::external_body]
pub struct ExPemError(pem::PemError);

/// The error of the integer parsers of std.
#[verifier::external_type_specification]
#[verifier::external_body]
pub struct ExParseIntError(std::num::ParseIntError);

/// The error of the UTF-8 check of std.
#[verifier::external_type_specification]
#[verifier::external_body]
pub struct ExUtf8Error(std::str::Utf8Error);

/// Why a request could not be read from a query.
#[derive(Debug)]
pub enum FromQueryError {
    QueryParamNotFound(String),
    Int(std::num::ParseIntError),
    Uuid(uuid::Error),
    Hex(hex::FromHexError),
    Pem(pem::PemError),
    Utf8(std::str::Utf8Error),
    Other(String),
}

/// What contracts say of a [`FromQueryError`]: its kind, and the texts or errors it carries.
pub enum QueryFailure {
    ParamNotFound(Seq<char>),
    Int(std::num::ParseIntError),
    Uuid(uuid::Error),
    Hex(hex::FromHexError),
    Pem(pem::PemError),
    Utf8(std::str::Utf8Error),
    Other(Seq<char>),
}

impl View for FromQueryError {
    type V = QueryFailure;

    open spec fn view(&self) -> QueryFailure {
        match self {
            FromQueryError::QueryParamNotFound(param) => QueryFailure::ParamNotFound(param@),
            FromQueryError::Int(error) => QueryFailure::Int(*error),
            FromQueryError::Uuid(error) => QueryFailure::Uuid(*error),
            FromQueryError::Hex(error) => QueryFailure::Hex(*error),
            FromQueryError::Pem(error) => QueryFailure::Pem(*error),
            FromQueryError::Utf8(error) => QueryFailure::Utf8(*error),
            FromQueryError::Other(text) => QueryFailure::Other(text@),
        }
    }
}

/// What query parameters are looked up in.
///
/// An implementation outside the verified code leaves open what the spec functions say of it.
pub trait QueryMap {
    /// What [`QueryMap::get`] answers for a parameter.
    open spec fn lookup(&self, param: Seq<char>) -> Result<Seq<char>, QueryFailure> {
        arbitrary()
    }

    /// What [`QueryMap::has`] answers for a parameter.
    open spec fn holds(&self, param: Seq<char>) -> bool {
        arbitrary()
    }

    /// Whether the parameter is there.
    fn has(&self, param: &str) -> (r: bool)
        ensures
            r == self.holds(param@),
    ;

    /// The value of the parameter.
    fn get<'a>(&'a self, param: &str) -> (r: Result<Cow<'a, str>, FromQueryError>)
        ensures
            r matches Ok(value) ==> self.lookup(param@) == Ok::<Seq<char>, QueryFailure>(value@),
            r matches Err(error) ==> self.lookup(param@) == Err::<Seq<char>, QueryFailure>(error@),
    ;
}

proof fn lemma_first_index(s: Seq<char>, c: char, i: int)
    requires
        0 <= i <= s.len(),
        forall|j: int| 0 <= j < i ==> #[trigger] s[j] != c,
        i == s.len() || s[i] == c,
    ensures
        first_index(s, c) == i,
    decreases s.len(),
{
    if i > 0 {
        assert(s[0] != c);
        let rest = s.skip(1);
        assert forall|j: int| 0 <= j < i - 1 implies #[trigger] rest[j] != c by {
            assert(rest[j] == s[j + 1]);
        }
        assert(i < s.len() ==> rest[i - 1] == s[i]);
        lemma_first_index(rest, c, i - 1);
    }
}

proof fn lemma_first_index_bounds(s: Seq<char>, c: char)
    ensures
        0 <= first_index(s, c) <= s.len(),
        forall|j: int| 0 <= j < first_index(s, c) ==> #[trigger] s[j] != c,
        first_index(s, c) < s.len() ==> s[first_index(s, c)] == c,
    decreases s.len(),
{
    if s.len() > 0 && s[0] != c {
        let rest = s.skip(1);
        lemma_first_index_bounds(rest, c);
        assert forall|j: int| 0 <= j < first_index(s, c) implies #[trigger] s[j] != c by {
            if j > 0 {
                assert(rest[j - 1] == s[j]);
            }
        }
    }
}

/// Cuts a text at the first `c`, which belongs to neither part.
fn cut_at<'a>(s: &'a str, c: char) -> (r: Option<(&'a str, &'a str)>)
    ensures
        0 <= first_index(s@, c) <= s@.len(),
        match r {
            Some((head, tail)) => {
                &&& first_index(s@, c) < s@.len()
                &&& head@ == s@.take(first_index(s@, c))
                &&& tail@ == s@.skip(first_index(s@, c) + 1)
            },
            None => first_index(s@, c) == s@.len(),
        },
{
    let len: usize = s.unicode_len();
    let mut at: usize = 0;
    for x in it: s.chars()
        invariant
            it.seq() == s@,
            at == it.index(),
            len == s@.len(),
            forall|j: int| 0 <= j < at ==> #[trigger] s@[j] != c,
    {
        assert(s@[it.index() as int] == x);
        if x == c {
            proof {
                lemma_first_index(s@, c, at as int);
            }
            let head = s.substring_char(0, at);
            let tail = s.substring_char(at + 1, len);
            assert(head@ =~= s@.take(at as int));
            assert(tail@ =~= s@.skip(at + 1));
            return Some((head, tail));
        }
        at = at + 1;
    }
    proof {
        lemma_first_index(s@, c, len as int);
    }
    None
}

/// Whether two texts are the same.
fn same_text(a: &str, b: &str) -> (r: bool)
    ensures
        r == (a@ == b@),
{
    let x = a.as_bytes();
    let y = b.as_bytes();
    proof {
        encode_utf8_decode_utf8(a@);
        encode_utf8_decode_utf8(b@);
    }
    if x.len() != y.len() {
        return false;
    }
    let mut i: usize = 0;
    while i < x.len()
        invariant
            i <= x@.len(),
            x@.len() == y@.len(),
            x@ == encode_utf8(a@),
            y@ == encode_utf8(b@),
            forall|j: int| 0 <= j < i ==> #[trigger] x@[j] == y@[j],
        decreases x@.len() - i,
    {
        if x[i] != y[i] {
            return false;
        }
        i = i + 1;
    }
    assert(x@ =~= y@);
    true
}

/// Whether a decoded component is that text.
fn component_is(component: &Cow<str>, text: &str) -> (r: bool)
    ensures
        r == (component@ == text@),
{
    match component {
        Cow::Borrowed(s) => same_text(s, text),
        Cow::Owned(s) => same_text(s.as_str(), text),
    }
}

/// The key and the value of one stretch of a query, still encoded.
fn key_and_value<'a>(stretch: &'a str) -> (r: (&'a str, &'a str))
    ensures
        pair_of(stretch@) == (percent::decoded(r.0@), percent::decoded(r.1@)),
{
    match cut_at(stretch, '=') {
        Some((key, value)) => (key, value),
        None => {
            proof {
                reveal_strlit("");
                assert(stretch@.take(stretch@.len() as int) =~= stretch@);
                percent::lemma_decoded_plain(""@);
                assert(""@ =~= Seq::<char>::empty());
            }
            (stretch, "")
        },
    }
}

/// The first stretch of a query, as it stands, and what comes behind its `&`.
fn first_stretch<'a>(query: &'a str) -> (r: (&'a str, Option<&'a str>))
    ensures
        match r.1 {
            Some(rest) => {
                &&& query_pairs(query@) == seq![pair_of(r.0@)] + query_pairs(rest@)
                &&& rest@.len() < query@.len()
            },
            None => query_pairs(query@) == seq![pair_of(r.0@)],
        },
{
    match cut_at(query, '&') {
        Some((stretch, rest)) => (stretch, Some(rest)),
        None => (query, None),
    }
}

proof fn lemma_first_value_step(
    pair: (Seq<char>, Seq<char>),
    rest: Seq<(Seq<char>, Seq<char>)>,
    key: Seq<char>,
)
    ensures
        first_value(seq![pair] + rest, key) == (if pair.0 == key {
            Some(pair.1)
        } else {
            first_value(rest, key)
        }),
{
    assert((seq![pair] + rest).skip(1) =~= rest);
}

/// A string slice is searched stretch by stretch; the first parameter with the key counts.
impl QueryMap for &str {
    open spec fn lookup(&self, param: Seq<char>) -> Result<Seq<char>, QueryFailure> {
        match first_value(query_pairs(self@), param) {
            Some(value) => Ok(value),
            None => Err(QueryFailure::ParamNotFound(param)),
        }
    }

    open spec fn holds(&self, param: Seq<char>) -> bool {
        first_value(query_pairs(self@), param) is Some
    }

    fn has(&self, param: &str) -> (r: bool) {
        let mut query: &str = *self;
        loop
            invariant
                first_value(query_pairs(self@), param@) == first_value(
                    query_pairs(query@),
                    param@,
                ),
            decreases query@.len(),
        {
            let (stretch, rest) = first_stretch(query);
            let (key, value) = key_and_value(stretch);
            if component_is(&decode_query_component(key), param) {
                return true;
            }
            match rest {
                Some(tail) => {
                    proof {
                        lemma_first_value_step(
                            pair_of(stretch@),
                            query_pairs(tail@),
                            param@,
                        );
                    }
                    query = tail;
                },
                None => {
                    proof {
                        lemma_first_value_step(pair_of(stretch@), Seq::empty(), param@);
                        assert(seq![pair_of(stretch@)] + Seq::<(Seq<char>, Seq<char>)>::empty()
                            =~= seq![pair_of(stretch@)]);
                    }
                    return false;
                },
            }
        }
    }

    fn get<'a>(&'a self, param: &str) -> (r: Result<Cow<'a, str>, FromQueryError>) {
        let mut query: &str = *self;
        loop
            invariant
                first_value(query_pairs(self@), param@) == first_value(
                    query_pairs(query@),
                    param@,
                ),
            decreases query@.len(),
        {
            let (stretch, rest) = first_stretch(query);
            let (key, value) = key_and_value(stretch);
            if component_is(&decode_query_component(key), param) {
                return Ok(decode_query_component(value));
            }
            match rest {
                Some(tail) => {
                    proof {
                        lemma_first_value_step(
                            pair_of(stretch@),
                            query_pairs(tail@),
                            param@,
                        );
                    }
                    query = tail;
                },
                None => {
                    proof {
                        lemma_first_value_step(pair_of(stretch@), Seq::empty(), param@);
                        assert(seq![pair_of(stretch@)] + Seq::<(Seq<char>, Seq<char>)>::empty()
                            =~= seq![pair_of(stretch@)]);
                    }
                    return Err(FromQueryError::QueryParamNotFound(param.to_owned()));
                },
            }
        }
    }
}

/// A parameter in its encoded form is one stretch that stands for that parameter.
proof fn lemma_pair_of_encoded(param: (Seq<char>, Seq<char>))
    ensures
        pair_of(encoded_param(param)) == param,
        !encoded_param(param).contains('&'),
{
    let key = percent::encoded(param.0);
    let value = percent::encoded(param.1);
    let stretch = encoded_param(param);
    percent::lemma_encoded_chars(param.0);
    percent::lemma_encoded_chars(param.1);
    percent::lemma_decoded_encoded(param.0);
    percent::lemma_decoded_encoded(param.1);
    assert forall|j: int| 0 <= j < key.len() implies #[trigger] stretch[j] != '=' by {
        assert(stretch[j] == key[j]);
        assert(key.contains(key[j]));
    }
    lemma_first_index(stretch, '=', key.len() as int);
    assert(stretch.take(key.len() as int) =~= key);
    assert(stretch.skip(key.len() as int + 1) =~= value);
    assert forall|j: int| 0 <= j < stretch.len() implies #[trigger] stretch[j] != '&' by {
        if j < key.len() {
            assert(stretch[j] == key[j]);
            assert(key.contains(key[j]));
        } else if j > key.len() {
            assert(stretch[j] == value[j - key.len() - 1]);
            assert(value.contains(value[j - key.len() - 1]));
        }
    }
}

/// A query without a `&` holds one parameter.
proof fn lemma_query_pairs_single(query: Seq<char>)
    requires
        !query.contains('&'),
    ensures
        query_pairs(query) == seq![pair_of(query)],
{
    assert forall|j: int| 0 <= j < query.len() implies #[trigger] query[j] != '&' by {
        assert(query.contains(query[j]));
    }
    lemma_first_index(query, '&', query.len() as int);
}

/// A stretch behind a `&` adds one parameter at the end.
proof fn lemma_query_pairs_extended(query: Seq<char>, stretch: Seq<char>)
    requires
        !stretch.contains('&'),
    ensures
        query_pairs(query + seq!['&'] + stretch) == query_pairs(query).push(pair_of(stretch)),
    decreases query.len(),
{
    let whole = query + seq!['&'] + stretch;
    let i = first_index(query, '&');
    lemma_first_index_bounds(query, '&');
    assert forall|j: int| 0 <= j < i implies #[trigger] whole[j] != '&' by {
        assert(whole[j] == query[j]);
    }
    assert(whole[i] == '&');
    lemma_first_index(whole, '&', i);
    assert(whole.take(i) =~= query.take(i));
    if i < query.len() {
        lemma_query_pairs_extended(query.skip(i + 1), stretch);
        assert(whole.skip(i + 1) =~= query.skip(i + 1) + seq!['&'] + stretch);
        assert(query_pairs(whole) =~= query_pairs(query).push(pair_of(stretch)));
    } else {
        lemma_query_pairs_single(stretch);
        assert(whole.skip(i + 1) =~= stretch);
        assert(query.take(i) =~= query);
        assert(query_pairs(whole) =~= query_pairs(query).push(pair_of(stretch)));
    }
}

/// Reading back what was written: the parameters of a query string to which one was appended
/// are those that it held before, and the new one at the end. An empty string holds none.
pub proof fn lemma_query_pairs_appended(query: Seq<char>, param: (Seq<char>, Seq<char>))
    ensures
        query_pairs(appended(query, param)) == (if query.len() == 0 {
            seq![param]
        } else {
            query_pairs(query).push(param)
        }),
{
    lemma_pair_of_encoded(param);
    if query.len() == 0 {
        lemma_query_pairs_single(encoded_param(param));
    } else {
        lemma_query_pairs_extended(query, encoded_param(param));
    }
}

proof fn lemma_first_value_push(
    pairs: Seq<(Seq<char>, Seq<char>)>,
    param: (Seq<char>, Seq<char>),
    key: Seq<char>,
)
    ensures
        first_value(pairs.push(param), key) == (match first_value(pairs, key) {
            Some(value) => Some(value),
            None => if param.0 == key {
                Some(param.1)
            } else {
                None
            },
        }),
    decreases pairs.len(),
{
    if pairs.len() == 0 {
        reveal_with_fuel(first_value, 2);
        assert(pairs.push(param).skip(1) =~= Seq::empty());
    } else {
        lemma_first_value_push(pairs.skip(1), param, key);
        assert(pairs.push(param).skip(1) =~= pairs.skip(1).push(param));
    }
}

/// The first parameter with a key is looked for in the one list, then in the other.
pub proof fn lemma_first_value_concat(
    front: Seq<(Seq<char>, Seq<char>)>,
    back: Seq<(Seq<char>, Seq<char>)>,
    key: Seq<char>,
)
    ensures
        first_value(front + back, key) == (match first_value(front, key) {
            Some(value) => Some(value),
            None => first_value(back, key),
        }),
    decreases front.len(),
{
    if front.len() == 0 {
        assert(front + back =~= back);
    } else {
        lemma_first_value_concat(front.skip(1), back, key);
        assert((front + back).skip(1) =~= front.skip(1) + back);
    }
}

/// A parameter that was appended to a query is found under its key, with its value, unless
/// an earlier parameter has the same key.
pub proof fn lemma_appended_is_found(query: Seq<char>, param: (Seq<char>, Seq<char>))
    requires
        query.len() == 0 || first_value(query_pairs(query), param.0) is None,
    ensures
        first_value(query_pairs(appended(query, param)), param.0) == Some(param.1),
{
    lemma_query_pairs_appended(query, param);
    if query.len() == 0 {
        assert(seq![param] =~= Seq::<(Seq<char>, Seq<char>)>::empty().push(param));
        lemma_first_value_push(Seq::empty(), param, param.0);
    } else {
        lemma_first_value_push(query_pairs(query), param, param.0);
    }
}

/// Appending a parameter to a query changes no answer about another key, nor about a key
/// that was there before.
pub proof fn lemma_appended_keeps_others(
    query: Seq<char>,
    param: (Seq<char>, Seq<char>),
    key: Seq<char>,
)
    requires
        query.len() > 0,
        key != param.0 || first_value(query_pairs(query), key) is Some,
    ensures
        first_value(query_pairs(appended(query, param)), key) == first_value(
            query_pairs(query),
            key,
        ),
{
    lemma_query_pairs_appended(query, param);
    lemma_first_value_push(query_pairs(query), param, key);
}

/// A parameter is there exactly where its value can be had.
pub proof fn lemma_has_iff_get(query: &str, key: Seq<char>)
    ensures
        query.holds(key) <==> query.lookup(key) is Ok,
{
}

/// A `+` in an encoded component reads as a space does.
pub proof fn lemma_plus_reads_as_space(s: Seq<char>)
    ensures
        percent::decoded(percent::plus_as_space(s)) == percent::decoded(s),
{
    assert(percent::plus_as_space(percent::plus_as_space(s)) =~= percent::plus_as_space(s));
}

/// The position that is given as the first of a character is one: the character stands there,
/// unless it is the end, and nowhere before.
pub proof fn lemma_first_index_is_first(s: Seq<char>, c: char)
    ensures
        0 <= first_index(s, c) <= s.len(),
        first_index(s, c) < s.len() ==> s[first_index(s, c)] == c,
        forall|j: int| 0 <= j < first_index(s, c) ==> #[trigger] s[j] != c,
        first_index(s, c) == s.len() <==> !s.contains(c),
{
    lemma_first_index_bounds(s, c);
    if first_index(s, c) < s.len() {
        assert(s.contains(s[first_index(s, c)]));
    }
}

/// A stretch is split at its first `=`: the key before it and the value behind it, whatever the
/// value holds, each decoded. A stretch without one is a key with an empty value.
pub proof fn lemma_stretch_parts(key: Seq<char>, value: Seq<char>)
    requires
        !key.contains('='),
    ensures
        pair_of(key + seq!['='] + value) == (percent::decoded(key), percent::decoded(value)),
        pair_of(key) == (percent::decoded(key), Seq::<char>::empty()),
{
    let stretch = key + seq!['='] + value;
    assert forall|j: int| 0 <= j < key.len() implies #[trigger] stretch[j] != '=' by {
        assert(stretch[j] == key[j]);
        assert(key.contains(key[j]));
    }
    lemma_first_index(stretch, '=', key.len() as int);
    assert(stretch.take(key.len() as int) =~= key);
    assert(stretch.skip(key.len() as int + 1) =~= value);
    assert forall|j: int| 0 <= j < key.len() implies #[trigger] key[j] != '=' by {
        assert(key.contains(key[j]));
    }
    lemma_first_index(key, '=', key.len() as int);
    assert(key.take(key.len() as int) =~= key);
}

/// A query without a `&` holds one parameter, and a `&` between two queries makes one query
/// that holds the parameters of the first and then those of the second.
pub proof fn lemma_queries_join(one: Seq<char>, other: Seq<char>)
    ensures
        query_pairs(one + seq!['&'] + other) == query_pairs(one) + query_pairs(other),
        !one.contains('&') ==> query_pairs(one) == seq![pair_of(one)],
    decreases one.len(),
{
    let whole = one + seq!['&'] + other;
    let i = first_index(one, '&');
    lemma_first_index_bounds(one, '&');
    assert forall|j: int| 0 <= j < i implies #[trigger] whole[j] != '&' by {
        assert(whole[j] == one[j]);
    }
    assert(whole[i] == '&');
    lemma_first_index(whole, '&', i);
    assert(whole.take(i) =~= one.take(i));
    if i < one.len() {
        lemma_queries_join(one.skip(i + 1), other);
        assert(whole.skip(i + 1) =~= one.skip(i + 1) + seq!['&'] + other);
        assert(query_pairs(whole) =~= query_pairs(one) + query_pairs(other));
        assert(one.contains(one[i]));
    } else {
        assert(whole.skip(i + 1) =~= other);
        assert(one.take(i) =~= one);
        assert(query_pairs(whole) =~= query_pairs(one) + query_pairs(other));
    }
}

/// The value that is found under a key is that of a parameter with the key, and no earlier one
/// has it. None is found exactly where no parameter has the key.
pub proof fn lemma_first_value_is_first(
    pairs: Seq<(Seq<char>, Seq<char>)>,
    key: Seq<char>,
    i: int,
)
    ensures
        0 <= i < pairs.len() && pairs[i].0 == key && (forall|j: int|
            0 <= j < i ==> (#[trigger] pairs[j]).0 != key) ==> first_value(pairs, key) == Some(
            pairs[i].1,
        ),
        first_value(pairs, key) is None <==> forall|j: int|
            0 <= j < pairs.len() ==> (#[trigger] pairs[j]).0 != key,
    decreases pairs.len(),
{
    if pairs.len() > 0 {
        let rest = pairs.skip(1);
        lemma_first_value_is_first(rest, key, i - 1);
        assert forall|j: int| 0 <= j < rest.len() implies #[trigger] rest[j] == pairs[j + 1] by {}
        if pairs[0].0 != key {
            if i > 0 && i < pairs.len() && pairs[i].0 == key && (forall|j: int|
                0 <= j < i ==> (#[trigger] pairs[j]).0 != key) {
                assert forall|j: int| 0 <= j < i - 1 implies (#[trigger] rest[j]).0 != key by {
                    assert(pairs[j + 1].0 != key);
                }
                assert(rest[i - 1] == pairs[i]);
            }
            if first_value(rest, key) is None {
                assert forall|j: int| 0 <= j < pairs.len() implies (#[trigger] pairs[j]).0 != key by {
                    if j > 0 {
                        assert(rest[j - 1].0 != key);
                    }
                }
            } else if forall|j: int| 0 <= j < pairs.len() ==> (#[trigger] pairs[j]).0 != key {
                assert forall|j: int| 0 <= j < rest.len() implies (#[trigger] rest[j]).0 != key by {
                    assert(pairs[j + 1].0 != key);
                }
            }
        }
    }
}

/// A lookup gives the decoded value of the first stretch whose decoded key is the one asked
/// for, whatever stands before and behind it, and the parameter is said to be there. Where no
/// stretch has the key, the error names the key and the parameter is said not to be there.
pub proof fn lemma_lookup_in_text(
    query: &str,
    before: Seq<char>,
    key: Seq<char>,
    value: Seq<char>,
    after: Seq<char>,
    param: Seq<char>,
)
    requires
        !key.contains('='),
        !key.contains('&'),
        !value.contains('&'),
        query@ == before + seq!['&'] + (key + seq!['='] + value) + seq!['&'] + after,
        forall|j: int|
            0 <= j < query_pairs(before).len() ==> (#[trigger] query_pairs(before)[j]).0 != param,
    ensures
        percent::decoded(key) == param ==> query.lookup(param) == Ok::<Seq<char>, QueryFailure>(
            percent::decoded(value),
        ) && query.holds(param),
        percent::decoded(key) != param && (forall|j: int|
            0 <= j < query_pairs(after).len() ==> (#[trigger] query_pairs(after)[j]).0 != param)
            ==> query.lookup(param) == Err::<Seq<char>, QueryFailure>(
            QueryFailure::ParamNotFound(param),
        ) && !query.holds(param),
{
    let stretch = key + seq!['='] + value;
    lemma_stretch_parts(key, value);
    assert forall|j: int| 0 <= j < stretch.len() implies #[trigger] stretch[j] != '&' by {
        if j < key.len() {
            assert(stretch[j] == key[j]);
            assert(key.contains(key[j]));
        } else if j > key.len() {
            assert(stretch[j] == value[j - key.len() - 1]);
            assert(value.contains(value[j - key.len() - 1]));
        }
    }
    assert(!stretch.contains('&'));
    lemma_queries_join(before + seq!['&'] + stretch, after);
    lemma_queries_join(before, stretch);
    lemma_queries_join(stretch, after);
    let pairs = query_pairs(query@);
    let n = query_pairs(before).len() as int;
    assert(pairs =~= query_pairs(before) + seq![pair_of(stretch)] + query_pairs(after));
    assert(pairs[n] == pair_of(stretch));
    assert forall|j: int| 0 <= j < n implies (#[trigger] pairs[j]).0 != param by {
        assert(pairs[j] == query_pairs(before)[j]);
    }
    lemma_first_value_is_first(pairs, param, n);
    if percent::decoded(key) != param && (forall|j: int|
        0 <= j < query_pairs(after).len() ==> (#[trigger] query_pairs(after)[j]).0 != param) {
        assert forall|j: int| 0 <= j < pairs.len() implies (#[trigger] pairs[j]).0 != param by {
            if j > n {
                assert(pairs[j] == query_pairs(after)[j - n - 1]);
            }
        }
    }
}

/// The same in the words of the whole query: the answer is the value of the first parameter
/// with the key, or the error with the key where there is none.
pub proof fn lemma_lookup_is_the_first(query: &str, param: Seq<char>, i: int)
    requires
        0 <= i < query_pairs(query@).len(),
        forall|j: int| 0 <= j < i ==> (#[trigger] query_pairs(query@)[j]).0 != param,
    ensures
        query_pairs(query@)[i].0 == param ==> query.lookup(param) == Ok::<Seq<char>, QueryFailure>(
            query_pairs(query@)[i].1,
        ) && query.holds(param),
        i == query_pairs(query@).len() - 1 && query_pairs(query@)[i].0 != param ==> query.lookup(
            param,
        ) == Err::<Seq<char>, QueryFailure>(QueryFailure::ParamNotFound(param)) && !query.holds(
            param,
        ),
{
    lemma_first_value_is_first(query_pairs(query@), param, i);
}

/// What a query looks like behind another parameter: what was there, a `&` unless nothing was
/// there, and the encoded key and value with a `=` between them.
pub proof fn lemma_appended_text(query: Seq<char>, key: Seq<char>, value: Seq<char>)
    ensures
        ({
            let piece = percent::encoded(key) + seq!['='] + percent::encoded(value);
            &&& encoded_param((key, value)) == piece
            &&& appended(Seq::empty(), (key, value)) == piece
            &&& query.len() > 0 ==> appended(query, (key, value)) == query + seq!['&'] + piece
        }),
{
}

/// What contracts see of a parameter and of an error: the key and the value as they are, and
/// each error with what it carries.
pub proof fn lemma_views(
    param: QueryParam,
    name: String,
    number: std::num::ParseIntError,
    uuid: uuid::Error,
    hex: hex::FromHexError,
    pem: pem::PemError,
    utf8: std::str::Utf8Error,
)
    ensures
        param@.0 == param.key@,
        param@.1 == param.value@,
        FromQueryError::QueryParamNotFound(name)@ == QueryFailure::ParamNotFound(name@),
        FromQueryError::Int(number)@ == QueryFailure::Int(number),
        FromQueryError::Uuid(uuid)@ == QueryFailure::Uuid(uuid),
        FromQueryError::Hex(hex)@ == QueryFailure::Hex(hex),
        FromQueryError::Pem(pem)@ == QueryFailure::Pem(pem),
        FromQueryError::Utf8(utf8)@ == QueryFailure::Utf8(utf8),
        FromQueryError::Other(name)@ == QueryFailure::Other(name@),
{
}

/// The parameters of a string are those of the query that it is, and none where it is empty. It
/// always has room.
pub proof fn lemma_string_params(built: String, more: Seq<(Seq<char>, Seq<char>)>)
    ensures
        built@.len() == 0 ==> built.params().len() == 0,
        built@.len() > 0 ==> built.params() == query_pairs(built@),
        built.room(more),
{
}

} // verus!
