//! Replies: the shapes that a reply can have, and how the bytes that a
//! device sent are read as one.

use vstd::prelude::*;
use vstd::utf8::decode_utf8;
use vstd::utf8::valid_utf8;
use serde_json::Value;
use crate::connection::BulbErrorResponse;
use crate::connection::CronResponse;
use crate::connection::CronResult;
use crate::connection::ErrorResponse;
use crate::connection::Failure;
use crate::connection::MethodCallError;
use crate::connection::MethodCallResponse;
use crate::connection::StringVecResponse;
use crate::json::documents;
use crate::json::elements;
use crate::json::integer;
use crate::json::json_document;
use crate::json::json_of;
use crate::json::member;
use crate::json::member_of;
use crate::json::parse_document;
use crate::json::text;
use crate::json::Json;
use crate::text::chars_of;
use crate::text::payload;
use crate::text::payload_len;
use crate::text::text_of;
use crate::text::utf8_text;

verus! {

/// The integer between `min` and `max` that a document holds under `name`.
pub open spec fn number_member(doc: Json, name: Seq<char>, min: int, max: int) -> Option<int> {
    match member_of(doc, name) {
        Some(Json::Integer(i)) => if min <= i <= max {
            Some(i as int)
        } else {
            None
        },
        _ => None,
    }
}

/// The text that a document holds under `name`.
pub open spec fn text_member(doc: Json, name: Seq<char>) -> Option<Seq<char>> {
    match member_of(doc, name) {
        Some(Json::Text(s)) => Some(s),
        _ => None,
    }
}

/// The list that a document holds under `name`.
pub open spec fn list_member(doc: Json, name: Seq<char>) -> Option<Seq<Json>> {
    match member_of(doc, name) {
        Some(Json::List(items)) => Some(items),
        _ => None,
    }
}

/// The identifier of a reply: a 16-bit integer under `id`.
pub open spec fn id_member(doc: Json) -> Option<i16> {
    match number_member(doc, "id"@, i16::MIN as int, i16::MAX as int) {
        Some(i) => Some(i as i16),
        None => None,
    }
}

/// Whether every item of a list is a text.
pub open spec fn all_texts(items: Seq<Json>) -> bool {
    forall|i: int| 0 <= i < items.len() ==> #[trigger] items[i] is Text
}

/// The texts of a list of texts.
pub open spec fn texts_of(items: Seq<Json>) -> Seq<Seq<char>> {
    items.map_values(|item: Json| item->Text_0)
}

/// A reply with a list of strings: an object with a 16-bit `id` and a
/// `result` that is a list of texts. Other members are not looked at.
pub open spec fn string_vec_shape(doc: Json) -> Option<(i16, Seq<Seq<char>>)> {
    match (id_member(doc), list_member(doc, "result"@)) {
        (Some(id), Some(items)) => if all_texts(items) {
            Some((id, texts_of(items)))
        } else {
            None
        },
        _ => None,
    }
}

/// A timer: an object with a 32-bit `type`, an unsigned 16-bit `delay` and a
/// 32-bit `mix`.
pub open spec fn cron_shape(doc: Json) -> Option<CronResult> {
    match (
        number_member(doc, "type"@, i32::MIN as int, i32::MAX as int),
        number_member(doc, "delay"@, 0, u16::MAX as int),
        number_member(doc, "mix"@, i32::MIN as int, i32::MAX as int),
    ) {
        (Some(cron_type), Some(delay), Some(mix)) => Some(
            CronResult { cron_type: cron_type as i32, delay: delay as u16, mix: mix as i32 },
        ),
        _ => None,
    }
}

/// Whether every item of a list is a timer.
pub open spec fn all_crons(items: Seq<Json>) -> bool {
    forall|i: int| 0 <= i < items.len() ==> cron_shape(#[trigger] items[i]) is Some
}

/// The timers of a list of timers.
pub open spec fn crons_of(items: Seq<Json>) -> Seq<CronResult> {
    items.map_values(|item: Json| cron_shape(item)->Some_0)
}

/// A reply with a list of timers: an object with a 16-bit `id` and a
/// `result` that is a list of timers.
pub open spec fn cron_vec_shape(doc: Json) -> Option<(i16, Seq<CronResult>)> {
    match (id_member(doc), list_member(doc, "result"@)) {
        (Some(id), Some(items)) => if all_crons(items) {
            Some((id, crons_of(items)))
        } else {
            None
        },
        _ => None,
    }
}

/// A reply that rejects a call: an object with a 16-bit `id` and an `error`
/// that is an object with a 32-bit `code` and a text `message`.
pub open spec fn error_shape(doc: Json) -> Option<(i16, i32, Seq<char>)> {
    match (id_member(doc), member_of(doc, "error"@)) {
        (Some(id), Some(error)) => match (
            number_member(error, "code"@, i32::MIN as int, i32::MAX as int),
            text_member(error, "message"@),
        ) {
            (Some(code), Some(message)) => Some((id, code as i32, message)),
            _ => None,
        },
        _ => None,
    }
}

/// Reads the integer between `min` and `max` under `name`.
pub fn read_number(doc: &Value, name: &str, min: i64, max: i64) -> (found: Option<i64>)
    ensures
        match found {
            Some(i) => number_member(json_of(*doc), name@, min as int, max as int) == Some(
                i as int,
            ),
            None => number_member(json_of(*doc), name@, min as int, max as int) is None,
        },
{
    match member(doc, name) {
        Some(value) => match integer(value) {
            Some(i) => if min <= i && i <= max {
                Some(i)
            } else {
                None
            },
            None => None,
        },
        None => None,
    }
}

/// Reads the identifier of a reply.
pub fn read_id(doc: &Value) -> (found: Option<i16>)
    ensures
        found == id_member(json_of(*doc)),
{
    match read_number(doc, "id", -32768, 32767) {
        Some(i) => Some(i as i16),
        None => None,
    }
}

/// Reads the list under `name`.
pub fn read_list<'a>(doc: &'a Value, name: &str) -> (found: Option<&'a Vec<Value>>)
    ensures
        match found {
            Some(items) => list_member(json_of(*doc), name@) == Some(documents(items@)),
            None => list_member(json_of(*doc), name@) is None,
        },
{
    match member(doc, name) {
        Some(value) => elements(value),
        None => None,
    }
}

/// Reads a timer.
pub fn read_cron(doc: &Value) -> (found: Option<CronResult>)
    ensures
        found == cron_shape(json_of(*doc)),
{
    let cron_type = read_number(doc, "type", -2147483648, 2147483647);
    let delay = read_number(doc, "delay", 0, 65535);
    let mix = read_number(doc, "mix", -2147483648, 2147483647);
    match (cron_type, delay, mix) {
        (Some(cron_type), Some(delay), Some(mix)) => Some(
            CronResult { cron_type: cron_type as i32, delay: delay as u16, mix: mix as i32 },
        ),
        _ => None,
    }
}

/// Reads a reply that rejects a call.
pub fn read_error(doc: &Value) -> (found: Option<ErrorResponse>)
    ensures
        match found {
            Some(e) => error_shape(json_of(*doc)) == Some(e@),
            None => error_shape(json_of(*doc)) is None,
        },
{
    let id = match read_id(doc) {
        Some(id) => id,
        None => {
            return None;
        },
    };
    let error = match member(doc, "error") {
        Some(error) => error,
        None => {
            return None;
        },
    };
    let code = match read_number(error, "code", -2147483648, 2147483647) {
        Some(code) => code as i32,
        None => {
            return None;
        },
    };
    let message = match member(error, "message") {
        Some(value) => match text(value) {
            Some(message) => message.to_owned(),
            None => {
                return None;
            },
        },
        None => {
            return None;
        },
    };
    Some(ErrorResponse { id, error: BulbErrorResponse { code, message } })
}

/// The views of a list of strings.
pub open spec fn strings_view(strings: Seq<String>) -> Seq<Seq<char>> {
    strings.map_values(|s: String| s@)
}

impl View for StringVecResponse {
    type V = (i16, Seq<Seq<char>>);

    open spec fn view(&self) -> (i16, Seq<Seq<char>>) {
        (self.id, strings_view(self.result@))
    }
}

impl View for CronResponse {
    type V = (i16, Seq<CronResult>);

    open spec fn view(&self) -> (i16, Seq<CronResult>) {
        (self.id, self.result@)
    }
}

impl MethodCallResponse for StringVecResponse {
    open spec fn id_of(reply: (i16, Seq<Seq<char>>)) -> i16 {
        reply.0
    }

    open spec fn shape(doc: Json) -> Option<(i16, Seq<Seq<char>>)> {
        string_vec_shape(doc)
    }

    fn id(&self) -> (id: i16) {
        self.id
    }

    fn read(doc: &Value) -> (reply: Option<Self>) {
        let id = match read_id(doc) {
            Some(id) => id,
            None => {
                return None;
            },
        };
        let items = match read_list(doc, "result") {
            Some(items) => items,
            None => {
                return None;
            },
        };
        let ghost listed = documents(items@);
        let mut result: Vec<String> = Vec::new();
        let mut i: usize = 0;
        while i < items.len()
            invariant
                i <= items@.len(),
                listed == documents(items@),
                list_member(json_of(*doc), "result"@) == Some(listed),
                all_texts(listed.subrange(0, i as int)),
                strings_view(result@) == texts_of(listed.subrange(0, i as int)),
            decreases items.len() - i,
        {
            let ghost before = strings_view(result@);
            assert(listed[i as int] == json_of(items@[i as int]));
            match text(&items[i]) {
                Some(s) => {
                    result.push(s.to_owned());
                    assert(strings_view(result@) =~= before.push(s@));
                },
                None => {
                    return None;
                },
            }
            i += 1;
            assert(listed.subrange(0, i as int) =~= listed.subrange(0, i - 1).push(
                listed[i - 1],
            ));
            assert(strings_view(result@) =~= texts_of(listed.subrange(0, i as int)));
        }
        assert(listed.subrange(0, i as int) =~= listed);
        Some(StringVecResponse { id, result })
    }
}

impl MethodCallResponse for CronResponse {
    open spec fn id_of(reply: (i16, Seq<CronResult>)) -> i16 {
        reply.0
    }

    open spec fn shape(doc: Json) -> Option<(i16, Seq<CronResult>)> {
        cron_vec_shape(doc)
    }

    fn id(&self) -> (id: i16) {
        self.id
    }

    fn read(doc: &Value) -> (reply: Option<Self>) {
        let id = match read_id(doc) {
            Some(id) => id,
            None => {
                return None;
            },
        };
        let items = match read_list(doc, "result") {
            Some(items) => items,
            None => {
                return None;
            },
        };
        let ghost listed = documents(items@);
        let mut result: Vec<CronResult> = Vec::new();
        let mut i: usize = 0;
        while i < items.len()
            invariant
                i <= items@.len(),
                listed == documents(items@),
                list_member(json_of(*doc), "result"@) == Some(listed),
                all_crons(listed.subrange(0, i as int)),
                result@ == crons_of(listed.subrange(0, i as int)),
            decreases items.len() - i,
        {
            assert(listed[i as int] == json_of(items@[i as int]));
            match read_cron(&items[i]) {
                Some(cron) => {
                    result.push(cron);
                },
                None => {
                    return None;
                },
            }
            i += 1;
            assert(listed.subrange(0, i as int) =~= listed.subrange(0, i - 1).push(
                listed[i - 1],
            ));
            assert(result@ =~= crons_of(listed.subrange(0, i as int)));
        }
        assert(listed.subrange(0, i as int) =~= listed);
        Some(CronResponse { id, result })
    }
}

/// What a reply is read as: a result of the shape that the caller expects;
/// else a rejection by the device, whatever call it names; else, and where
/// there is no document at all, a parse error.
pub open spec fn reading<T: MethodCallResponse>(doc: Option<Json>) -> Result<T::V, Failure> {
    match doc {
        Some(d) => match T::shape(d) {
            Some(reply) => Ok(reply),
            None => match error_shape(d) {
                Some((id, code, message)) => Err(Failure::ErrorResponse { id, code, message }),
                None => Err(Failure::ParseError),
            },
        },
        None => Err(Failure::ParseError),
    }
}

/// The text of a reply: the bytes read as UTF-8, without the NUL padding and
/// the white space at their end. Bytes that are no UTF-8 have no text.
pub open spec fn reply_text(bytes: Seq<u8>) -> Option<Seq<char>> {
    if valid_utf8(bytes) {
        Some(payload(decode_utf8(bytes)))
    } else {
        None
    }
}

/// What the bytes of a reply are read as.
pub open spec fn decoding<T: MethodCallResponse>(bytes: Seq<u8>) -> Result<T::V, Failure> {
    match reply_text(bytes) {
        Some(text) => reading::<T>(json_document(text)),
        None => Err(Failure::ParseError),
    }
}

/// What a call with the identifier `id` makes of a reply: a result counts
/// only if it carries that identifier, and is a synchronization error if it
/// carries another.
pub open spec fn matching<T: MethodCallResponse>(id: i16, reply: Result<T::V, Failure>) -> Result<
    T::V,
    Failure,
> {
    match reply {
        Ok(r) => if T::id_of(r) == id {
            Ok(r)
        } else {
            Err(Failure::SynchronizationError)
        },
        Err(failure) => Err(failure),
    }
}

/// What a call with the identifier `id` makes of the bytes of a reply.
pub open spec fn outcome<T: MethodCallResponse>(id: i16, bytes: Seq<u8>) -> Result<T::V, Failure> {
    matching::<T>(id, decoding::<T>(bytes))
}

/// Whether the result of a call is what `model` says.
pub open spec fn agrees<T: MethodCallResponse>(
    result: Result<T, MethodCallError>,
    model: Result<T::V, Failure>,
) -> bool {
    match (result, model) {
        (Ok(reply), Ok(r)) => reply@ == r,
        (Err(e), Err(failure)) => e@ == failure,
        _ => false,
    }
}

/// The document that a value holds, if there is a value.
pub open spec fn held(doc: Option<&Value>) -> Option<Json> {
    match doc {
        Some(d) => Some(json_of(*d)),
        None => None,
    }
}

/// Reads a parsed reply, or the lack of one, as the caller expects it.
pub fn read_reply<T: MethodCallResponse>(doc: Option<&Value>) -> (result: Result<
    T,
    MethodCallError,
>)
    ensures
        agrees(result, reading::<T>(held(doc))),
{
    let doc = match doc {
        Some(doc) => doc,
        None => {
            return Err(MethodCallError::ParseError);
        },
    };
    match T::read(doc) {
        Some(reply) => Ok(reply),
        None => match read_error(doc) {
            Some(error) => Err(MethodCallError::ErrorResponse(error)),
            None => Err(MethodCallError::ParseError),
        },
    }
}

/// Reads the bytes of a reply.
pub fn decode<T: MethodCallResponse>(bytes: &[u8]) -> (result: Result<T, MethodCallError>)
    ensures
        agrees(result, decoding::<T>(bytes@)),
{
    let whole = match utf8_text(bytes) {
        Some(whole) => whole,
        None => {
            return Err(MethodCallError::ParseError);
        },
    };
    proof {
        vstd::utf8::encode_utf8_decode_utf8(whole@);
    }
    let chars = chars_of(whole);
    let len = payload_len(chars.as_slice());
    let text = text_of(crate::text::copy_range(chars.as_slice(), 0, len).as_slice());
    let doc = parse_document(text.as_str());
    read_reply::<T>(doc.as_ref())
}

/// Accepts a reply only if it answers the call with the identifier `id`.
pub fn check_id<T: MethodCallResponse>(id: i16, reply: T) -> (result: Result<T, MethodCallError>)
    ensures
        agrees(result, matching::<T>(id, Ok(reply@))),
{
    if reply.id() == id {
        Ok(reply)
    } else {
        Err(MethodCallError::SynchronizationError)
    }
}

/// Reads the bytes of a reply for the call with the identifier `id`.
pub fn decode_response<T: MethodCallResponse>(id: i16, bytes: &[u8]) -> (result: Result<
    T,
    MethodCallError,
>)
    ensures
        agrees(result, outcome::<T>(id, bytes@)),
{
    match decode::<T>(bytes) {
        Ok(reply) => check_id(id, reply),
        Err(e) => Err(e),
    }
}

/// A reply that carries another identifier than the call is never taken for
/// the answer: it is a synchronization error, and a result that is accepted
/// carries the identifier of the call.
pub proof fn lemma_stale_reply_is_rejected<T: MethodCallResponse>(id: i16, bytes: Seq<u8>)
    ensures
        decoding::<T>(bytes) matches Ok(r) && T::id_of(r) != id ==> outcome::<T>(id, bytes)
            == Err::<T::V, Failure>(Failure::SynchronizationError),
        outcome::<T>(id, bytes) matches Ok(r) ==> T::id_of(r) == id && decoding::<T>(bytes)
            == Ok::<T::V, Failure>(r),
{
}

/// Reading a reply never fails for a reason that belongs to the request:
/// the failures are parse errors, synchronization errors and rejections.
pub proof fn lemma_outcome_failures<T: MethodCallResponse>(id: i16, bytes: Seq<u8>)
    ensures
        outcome::<T>(id, bytes) matches Err(failure) ==> failure is ParseError
            || failure is SynchronizationError || failure is ErrorResponse,
{
}

} // verus!
