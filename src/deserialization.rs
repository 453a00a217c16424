//! The envelope codec: from the server's JSON to the library's types.
//!
//! An envelope is an object with an `Error` array, or with a `Response` array
//! (and, on list endpoints, a `Pagination` object). `Error` always wins.

use chrono::{Datelike, Timelike};
use vstd::prelude::*;
use vstd::string::StringExecFns;
use crate::json::{
    Json, JsonNumber, json_document, parse_json, spec_as_array, spec_as_u64, spec_get,
};
use crate::types::{
    Amount, ApiErrorDescription, ApiResponseBody, BunqId, BunqMeTab, BunqMeTabStatus,
    BunqMeTabWrapper, DateTime, DeviceServer, DeviceServerSmall, DeviceServerStatus,
    DeviceServerWrapper, Installation, InstallationToken, MonetaryAccountBank,
    MonetaryAccountBankStatus, MonetaryAccountBankWrapper, Multiple, Pagination, Session,
    SessionToken, Single, User, UserPerson,
};

verus! {

/// One step on the way from a document to the value that failed to decode.
#[derive(Debug)]
pub enum PathStep {
    Member(String),
    Index(usize),
}

/// Why a body could not be read.
#[derive(Debug)]
pub enum DecodeError {
    /// The bytes are not one JSON document.
    MalformedJson,
    /// The document does not have the expected shape. `path` leads to the value that
    /// failed, innermost step first.
    ShapeMismatch { path: Vec<PathStep> },
}

/// The `k`-th step of the error's path, counted from the document's root.
pub open spec fn step_from_root(e: DecodeError, k: int) -> Option<PathStep> {
    match e {
        DecodeError::ShapeMismatch { path } => if 0 <= k < path@.len() {
            Some(path@[path@.len() - 1 - k])
        } else {
            None
        },
        DecodeError::MalformedJson => None,
    }
}

/// The step is the member `key`.
pub open spec fn is_member(step: Option<PathStep>, key: Seq<char>) -> bool {
    match step {
        Some(PathStep::Member(m)) => m@ == key,
        _ => false,
    }
}

/// The step is the index of the first of `items` that does not decode.
pub open spec fn first_failure<T: Decode>(items: Seq<Json>, step: Option<PathStep>) -> bool {
    match step {
        Some(PathStep::Index(i)) => {
            &&& i < items.len()
            &&& T::spec_decode(items[i as int]) is None
            &&& forall|k: int| 0 <= k < i ==> (#[trigger] T::spec_decode(items[k])) is Some
        },
        _ => false,
    }
}

/// The same error, one step further out: `step` leads from the root to where `e`
/// was found.
fn within(e: DecodeError, step: PathStep) -> (r: DecodeError)
    ensures
        e is ShapeMismatch ==> r is ShapeMismatch && step_from_root(r, 0) == Some(step) && forall|
            k: int,
        |
            k >= 1 ==> #[trigger] step_from_root(r, k) == step_from_root(e, k - 1),
        e is MalformedJson ==> r is MalformedJson,
{
    match e {
        DecodeError::ShapeMismatch { path } => {
            let mut path = path;
            path.push(step);
            DecodeError::ShapeMismatch { path }
        },
        DecodeError::MalformedJson => DecodeError::MalformedJson,
    }
}

/// `r` is what `expected` describes: the value where there is one, else a shape error
/// whose path names at least the value that failed.
pub open spec fn decoded<T>(r: Result<T, DecodeError>, expected: Option<T>) -> bool {
    match r {
        Ok(v) => expected == Some(v),
        Err(e) => expected is None && e is ShapeMismatch && step_from_root(e, 0) is Some,
    }
}

/// A type read from a JSON value, with the reading stated as a spec function.
pub trait Decode: Sized {
    spec fn spec_decode(j: Json) -> Option<Self>;

    fn decode(j: &Json) -> (r: Result<Self, DecodeError>)
        ensures
            decoded(r, Self::spec_decode(*j)),
    ;
}

fn mismatch(path: &str) -> (e: DecodeError)
    ensures
        e is ShapeMismatch,
        is_member(step_from_root(e, 0), path@),
{
    let mut steps: Vec<PathStep> = Vec::new();
    steps.push(PathStep::Member(String::from_str(path)));
    DecodeError::ShapeMismatch { path: steps }
}

/// The format of the server's time stamps.
pub open spec fn date_format() -> Seq<char> {
    "%Y-%m-%d %H:%M:%S%.f"@
}

/// The date and time that chrono reads from `text` in `format`.
pub uninterp spec fn parsed_date_time(text: Seq<char>, format: Seq<char>) -> Option<DateTime>;

/// Relies on chrono's NaiveDateTime::parse_from_str, whose result depends on the two
/// strings alone, and on its getters, whose ranges chrono documents.
#[verifier::external_body]
fn parse_date_time(text: &str, format: &str) -> (r: Option<DateTime>)
    ensures
        r == parsed_date_time(text@, format@),
        r matches Some(d) ==> d.wf(),
{
    chrono::NaiveDateTime::parse_from_str(text, format).ok().map(
        |d| DateTime {
            year: d.year(),
            month: d.month(),
            day: d.day(),
            hour: d.hour(),
            minute: d.minute(),
            second: d.second(),
            nanosecond: d.nanosecond(),
        },
    )
}

pub open spec fn spec_date(j: Json) -> Option<DateTime> {
    match j {
        Json::Str(s) => parsed_date_time(s@, date_format()),
        _ => None,
    }
}

/// Reads a time stamp written as `2020-01-31 23:59:59.123456`.
pub fn deserialize_date(j: &Json) -> (r: Result<DateTime, DecodeError>)
    ensures
        decoded(r, spec_date(*j)),
{
    match j {
        Json::Str(s) => match parse_date_time(s.as_str(), "%Y-%m-%d %H:%M:%S%.f") {
            Some(d) => Ok(d),
            None => Err(mismatch("date")),
        },
        _ => Err(mismatch("date")),
    }
}

pub open spec fn spec_member_str(j: Json, key: Seq<char>) -> Option<String> {
    match spec_get(j, key) {
        Some(Json::Str(s)) => Some(s),
        _ => None,
    }
}

pub open spec fn spec_member_u32(j: Json, key: Seq<char>) -> Option<u32> {
    match spec_get(j, key) {
        Some(Json::Number(JsonNumber::PosInt(n))) => if n <= u32::MAX {
            Some(n as u32)
        } else {
            None
        },
        _ => None,
    }
}

pub open spec fn spec_member_i32(j: Json, key: Seq<char>) -> Option<i32> {
    match spec_get(j, key) {
        Some(Json::Number(JsonNumber::PosInt(n))) => if n <= i32::MAX {
            Some(n as i32)
        } else {
            None
        },
        Some(Json::Number(JsonNumber::NegInt(n))) => if i32::MIN <= n <= i32::MAX {
            Some(n as i32)
        } else {
            None
        },
        _ => None,
    }
}

pub open spec fn spec_member_date(j: Json, key: Seq<char>) -> Option<DateTime> {
    match spec_get(j, key) {
        Some(v) => spec_date(v),
        None => None,
    }
}

fn member_string(j: &Json, key: &str) -> (r: Result<String, DecodeError>)
    ensures
        decoded(r, spec_member_str(*j, key@)),
{
    match j.get(key) {
        Some(Json::Str(s)) => Ok(s.clone()),
        _ => Err(mismatch(key)),
    }
}

fn member_u32(j: &Json, key: &str) -> (r: Result<u32, DecodeError>)
    ensures
        decoded(r, spec_member_u32(*j, key@)),
{
    match j.get(key) {
        Some(Json::Number(JsonNumber::PosInt(n))) => if *n <= u32::MAX as u64 {
            Ok(*n as u32)
        } else {
            Err(mismatch(key))
        },
        _ => Err(mismatch(key)),
    }
}

fn member_i32(j: &Json, key: &str) -> (r: Result<i32, DecodeError>)
    ensures
        decoded(r, spec_member_i32(*j, key@)),
{
    match j.get(key) {
        Some(Json::Number(JsonNumber::PosInt(n))) => if *n <= i32::MAX as u64 {
            Ok(*n as i32)
        } else {
            Err(mismatch(key))
        },
        Some(Json::Number(JsonNumber::NegInt(n))) => if i32::MIN as i64 <= *n && *n
            <= i32::MAX as i64 {
            Ok(*n as i32)
        } else {
            Err(mismatch(key))
        },
        _ => Err(mismatch(key)),
    }
}

fn member_date(j: &Json, key: &str) -> (r: Result<DateTime, DecodeError>)
    ensures
        decoded(r, spec_member_date(*j, key@)),
{
    match j.get(key) {
        Some(v) => deserialize_date(v),
        None => Err(mismatch(key)),
    }
}

/// The member `key` of the `index`-th element of the `Response` array.
pub open spec fn spec_response_member(j: Json, index: int, key: Seq<char>) -> Option<Json> {
    match spec_get(j, "Response"@) {
        Some(Json::Array(items)) => if 0 <= index < items@.len() {
            spec_get(items@[index], key)
        } else {
            None
        },
        _ => None,
    }
}

fn response_member<'a>(j: &'a Json, index: usize, key: &str) -> (r: Result<
    &'a Json,
    DecodeError,
>)
    ensures
        match r {
            Ok(v) => spec_response_member(*j, index as int, key@) == Some(*v),
            Err(e) => spec_response_member(*j, index as int, key@) is None && e is ShapeMismatch
                && step_from_root(e, 0) is Some,
        },
{
    match j.get("Response") {
        Some(Json::Array(items)) => if index < items.len() {
            match items[index].get(key) {
                Some(v) => Ok(v),
                None => Err(mismatch(key)),
            }
        } else {
            Err(mismatch("Response"))
        },
        _ => Err(mismatch("Response")),
    }
}

/// Decodes the member `key` of an object; an error's path leads through `key`.
fn decode_member<T: Decode>(j: &Json, key: &str) -> (r: Result<T, DecodeError>)
    ensures
        decoded(
            r,
            match spec_get(*j, key@) {
                Some(v) => T::spec_decode(v),
                None => None,
            },
        ),
{
    match j.get(key) {
        Some(v) => match T::decode(v) {
            Ok(t) => Ok(t),
            Err(e) => Err(within(e, PathStep::Member(String::from_str(key)))),
        },
        None => Err(mismatch(key)),
    }
}

/// Decodes the member `key` of the `index`-th element of `Response`; an error's path
/// leads through `Response`, the index and `key`.
fn decode_response_member<T: Decode>(j: &Json, index: usize, key: &str) -> (r: Result<
    T,
    DecodeError,
>)
    ensures
        decoded(
            r,
            match spec_response_member(*j, index as int, key@) {
                Some(v) => T::spec_decode(v),
                None => None,
            },
        ),
{
    let v = response_member(j, index, key)?;
    match T::decode(v) {
        Ok(t) => Ok(t),
        Err(e) => Err(
            within(
                within(within(e, PathStep::Member(String::from_str(key))), PathStep::Index(index)),
                PathStep::Member(String::from_str("Response")),
            ),
        ),
    }
}

impl Decode for BunqId {
    open spec fn spec_decode(j: Json) -> Option<BunqId> {
        match spec_member_u32(j, "id"@) {
            Some(id) => Some(BunqId { id }),
            None => None,
        }
    }

    fn decode(j: &Json) -> (r: Result<BunqId, DecodeError>) {
        let id = member_u32(j, "id")?;
        Ok(BunqId { id })
    }
}

impl Decode for DeviceServerSmall {
    /// The identifier under `Id`, which must fit in 32 bits.
    open spec fn spec_decode(j: Json) -> Option<DeviceServerSmall> {
        match spec_get(j, "Id"@) {
            Some(inner) => match spec_member_u32(inner, "id"@) {
                Some(id) => Some(DeviceServerSmall { id }),
                None => None,
            },
            None => None,
        }
    }

    fn decode(j: &Json) -> (r: Result<DeviceServerSmall, DecodeError>) {
        let id = decode_member::<BunqId>(j, "Id")?;
        Ok(DeviceServerSmall { id: id.id })
    }
}

impl Decode for ApiErrorDescription {
    open spec fn spec_decode(j: Json) -> Option<ApiErrorDescription> {
        let d = spec_member_str(j, "error_description"@);
        let t = spec_member_str(j, "error_description_translated"@);
        if d is Some && t is Some {
            Some(ApiErrorDescription { description: d->0, translated: t->0 })
        } else {
            None
        }
    }

    fn decode(j: &Json) -> (r: Result<ApiErrorDescription, DecodeError>) {
        let description = member_string(j, "error_description")?;
        let translated = member_string(j, "error_description_translated")?;
        Ok(ApiErrorDescription { description, translated })
    }
}

/// A token object, as the installation and the session calls return it.
pub open spec fn spec_token_fields(j: Json) -> Option<(u32, DateTime, DateTime, String)> {
    let id = spec_member_u32(j, "id"@);
    let created = spec_member_date(j, "created"@);
    let updated = spec_member_date(j, "updated"@);
    let token = spec_member_str(j, "token"@);
    if id is Some && created is Some && updated is Some && token is Some {
        Some((id->0, created->0, updated->0, token->0))
    } else {
        None
    }
}

fn token_fields(j: &Json) -> (r: Result<(u32, DateTime, DateTime, String), DecodeError>)
    ensures
        decoded(r, spec_token_fields(*j)),
{
    let id = member_u32(j, "id")?;
    let created = member_date(j, "created")?;
    let updated = member_date(j, "updated")?;
    let token = member_string(j, "token")?;
    Ok((id, created, updated, token))
}

impl Decode for InstallationToken {
    open spec fn spec_decode(j: Json) -> Option<InstallationToken> {
        match spec_token_fields(j) {
            Some(f) => Some(InstallationToken { id: f.0, created: f.1, updated: f.2, token: f.3 }),
            None => None,
        }
    }

    fn decode(j: &Json) -> (r: Result<InstallationToken, DecodeError>) {
        let (id, created, updated, token) = token_fields(j)?;
        Ok(InstallationToken { id, created, updated, token })
    }
}

impl Decode for SessionToken {
    open spec fn spec_decode(j: Json) -> Option<SessionToken> {
        match spec_token_fields(j) {
            Some(f) => Some(SessionToken { id: f.0, created: f.1, updated: f.2, token: f.3 }),
            None => None,
        }
    }

    fn decode(j: &Json) -> (r: Result<SessionToken, DecodeError>) {
        let (id, created, updated, token) = token_fields(j)?;
        Ok(SessionToken { id, created, updated, token })
    }
}

impl Decode for UserPerson {
    open spec fn spec_decode(j: Json) -> Option<UserPerson> {
        let id = spec_member_u32(j, "id"@);
        let created = spec_member_date(j, "created"@);
        let updated = spec_member_date(j, "updated"@);
        let public_uuid = spec_member_str(j, "public_uuid"@);
        let session_timeout = spec_member_i32(j, "session_timeout"@);
        let legal_name = spec_member_str(j, "legal_name"@);
        let public_nick_name = spec_member_str(j, "public_nick_name"@);
        let display_name = spec_member_str(j, "display_name"@);
        let first_name = spec_member_str(j, "first_name"@);
        let last_name = spec_member_str(j, "last_name"@);
        let middle_name = spec_member_str(j, "middle_name"@);
        let date_of_birth = spec_member_str(j, "date_of_birth"@);
        let nationality = spec_member_str(j, "nationality"@);
        if id is Some && created is Some && updated is Some && public_uuid is Some
            && session_timeout is Some && legal_name is Some && public_nick_name is Some
            && display_name is Some && first_name is Some && last_name is Some
            && middle_name is Some && date_of_birth is Some && nationality is Some {
            Some(
                UserPerson {
                    id: id->0,
                    created: created->0,
                    updated: updated->0,
                    public_uuid: public_uuid->0,
                    session_timeout: session_timeout->0,
                    legal_name: legal_name->0,
                    public_nick_name: public_nick_name->0,
                    display_name: display_name->0,
                    first_name: first_name->0,
                    last_name: last_name->0,
                    middle_name: middle_name->0,
                    date_of_birth: date_of_birth->0,
                    nationality: nationality->0,
                },
            )
        } else {
            None
        }
    }

    fn decode(j: &Json) -> (r: Result<UserPerson, DecodeError>) {
        let id = member_u32(j, "id")?;
        let created = member_date(j, "created")?;
        let updated = member_date(j, "updated")?;
        let public_uuid = member_string(j, "public_uuid")?;
        let session_timeout = member_i32(j, "session_timeout")?;
        let legal_name = member_string(j, "legal_name")?;
        let public_nick_name = member_string(j, "public_nick_name")?;
        let display_name = member_string(j, "display_name")?;
        let first_name = member_string(j, "first_name")?;
        let last_name = member_string(j, "last_name")?;
        let middle_name = member_string(j, "middle_name")?;
        let date_of_birth = member_string(j, "date_of_birth")?;
        let nationality = member_string(j, "nationality")?;
        Ok(
            UserPerson {
                id,
                created,
                updated,
                public_uuid,
                session_timeout,
                legal_name,
                public_nick_name,
                display_name,
                first_name,
                last_name,
                middle_name,
                date_of_birth,
                nationality,
            },
        )
    }
}

impl Decode for User {
    open spec fn spec_decode(j: Json) -> Option<User> {
        match spec_get(j, "UserPerson"@) {
            Some(p) => match UserPerson::spec_decode(p) {
                Some(user_person) => Some(User { user_person }),
                None => None,
            },
            None => None,
        }
    }

    fn decode(j: &Json) -> (r: Result<User, DecodeError>) {
        let user_person = decode_member::<UserPerson>(j, "UserPerson")?;
        Ok(User { user_person })
    }
}

/// `out` holds, in order, what each of `items` decodes to.
pub open spec fn all_decoded<T: Decode>(items: Seq<Json>, out: Seq<T>) -> bool {
    &&& out.len() == items.len()
    &&& forall|i: int| 0 <= i < items.len() ==> T::spec_decode(items[i]) == Some(#[trigger] out[i])
}

/// Every one of `items` decodes.
pub open spec fn all_decodable<T: Decode>(items: Seq<Json>) -> bool {
    forall|i: int| 0 <= i < items.len() ==> (#[trigger] T::spec_decode(items[i])) is Some
}

/// Decodes each element in turn; the first that fails fails the whole.
pub fn decode_array<T: Decode>(items: &Vec<Json>) -> (r: Result<Vec<T>, DecodeError>)
    ensures
        match r {
            Ok(out) => all_decoded(items@, out@),
            Err(e) => !all_decodable::<T>(items@) && e is ShapeMismatch && first_failure::<T>(
                items@,
                step_from_root(e, 0),
            ),
        },
{
    let mut out: Vec<T> = Vec::new();
    let mut i: usize = 0;
    while i < items.len()
        invariant
            0 <= i <= items@.len(),
            out@.len() == i,
            forall|k: int| 0 <= k < i ==> T::spec_decode(items@[k]) == Some(#[trigger] out@[k]),
        decreases items@.len() - i,
    {
        match T::decode(&items[i]) {
            Ok(v) => {
                out.push(v);
            },
            Err(e) => {
                assert forall|k: int| 0 <= k < i implies (#[trigger] T::spec_decode(
                    items@[k],
                )) is Some by {
                    assert(T::spec_decode(items@[k]) == Some(out@[k]));
                }
                let r = within(e, PathStep::Index(i));
                assert(step_from_root(r, 0) == Some(PathStep::Index(i)));
                return Err(r);
            },
        }
        i = i + 1;
    }
    Ok(out)
}

/// What `classify` returns for `root`: the decoded `Error` list where there is an
/// `Error` member, a shape error where that list does not decode, else `root` itself.
pub open spec fn classified(root: Json, r: Result<ApiResponseBody<Json>, DecodeError>) -> bool {
    match spec_get(root, "Error"@) {
        Some(errors) => match r {
            Ok(ApiResponseBody::Errors(list)) => spec_as_array(errors) matches Some(items)
                && all_decoded(items, list@),
            Ok(ApiResponseBody::Payload(_)) => false,
            Err(e) => e is ShapeMismatch && !(spec_as_array(errors) matches Some(items)
                && all_decodable::<ApiErrorDescription>(items)),
        },
        None => r == Ok::<ApiResponseBody<Json>, DecodeError>(ApiResponseBody::Payload(root)),
    }
}

/// What `parse_envelope` returns for these bytes.
pub open spec fn envelope_of(bytes: Seq<u8>, r: Result<ApiResponseBody<Json>, DecodeError>) -> bool {
    match json_document(bytes) {
        None => r is Err && r->Err_0 is MalformedJson,
        Some(root) => classified(root, r),
    }
}

/// Sorts a parsed envelope: the error list where there is an `Error` member, which
/// wins over any `Response`; else the whole document as the payload.
pub fn classify(root: Json) -> (r: Result<ApiResponseBody<Json>, DecodeError>)
    ensures
        classified(root, r),
        spec_get(root, "Error"@) is Some ==> !(r matches Ok(ApiResponseBody::Payload(_))),
{
    let errors = match root.get("Error") {
        Some(errors) => match errors {
            Json::Array(items) => match decode_array::<ApiErrorDescription>(items) {
                Ok(list) => Some(Ok(list)),
                Err(e) => Some(Err(within(e, PathStep::Member(String::from_str("Error"))))),
            },
            _ => Some(Err(mismatch("Error"))),
        },
        None => None,
    };
    match errors {
        Some(Ok(list)) => Ok(ApiResponseBody::Errors(list)),
        Some(Err(e)) => Err(e),
        None => Ok(ApiResponseBody::Payload(root)),
    }
}

/// Reads a body: parses the bytes, then classifies the document.
pub fn parse_envelope(bytes: &[u8]) -> (r: Result<ApiResponseBody<Json>, DecodeError>)
    ensures
        envelope_of(bytes@, r),
{
    match parse_json(bytes) {
        Some(root) => classify(root),
        None => Err(DecodeError::MalformedJson),
    }
}

/// The elements of the `Response` array.
pub open spec fn spec_response_items(payload: Json) -> Option<Seq<Json>> {
    match spec_get(payload, "Response"@) {
        Some(Json::Array(items)) => Some(items@),
        _ => None,
    }
}

/// The pagination object, decoded.
pub open spec fn spec_pagination_of(payload: Json) -> Option<Pagination> {
    match spec_get(payload, "Pagination"@) {
        Some(p) => Pagination::spec_decode(p),
        None => None,
    }
}

/// The one element of the `Response` array, where it holds exactly one.
pub open spec fn spec_single_element(payload: Json) -> Option<Json> {
    match spec_get(payload, "Response"@) {
        Some(Json::Array(items)) => if items@.len() == 1 {
            Some(items@[0])
        } else {
            None
        },
        _ => None,
    }
}

pub open spec fn spec_decode_single<T: Decode>(payload: Json) -> Option<T> {
    match spec_single_element(payload) {
        Some(e) => T::spec_decode(e),
        None => None,
    }
}

/// Reads a payload whose `Response` array must hold exactly one element.
pub fn decode_single<T: Decode>(payload: &Json) -> (r: Result<Single<T>, DecodeError>)
    ensures
        match r {
            Ok(s) => spec_decode_single::<T>(*payload) == Some(s.0),
            Err(e) => spec_decode_single::<T>(*payload) is None && e is ShapeMismatch,
        },
        spec_response_items(*payload) is Some && spec_response_items(*payload)->0.len() != 1 ==> (
        r is Err && r->Err_0 is ShapeMismatch),
        r is Err ==> is_member(step_from_root(r->Err_0, 0), "Response"@),
        r is Err && spec_response_items(*payload) is Some && spec_response_items(*payload)->0.len()
            == 1 ==> step_from_root(r->Err_0, 1) == Some(PathStep::Index(0)) && step_from_root(
            r->Err_0,
            2,
        ) is Some,
{
    match payload.get("Response") {
        Some(Json::Array(items)) => if items.len() == 1 {
            match T::decode(&items[0]) {
                Ok(v) => Ok(Single(v)),
                Err(e) => Err(within(within(e, PathStep::Index(0)), PathStep::Member(String::from_str("Response")))),
            }
        } else {
            Err(mismatch("Response"))
        },
        _ => Err(mismatch("Response")),
    }
}

/// A cursor: absent and null both read as no page.
pub open spec fn spec_cursor(j: Json, key: Seq<char>) -> Option<Option<String>> {
    match spec_get(j, key) {
        None => Some(None),
        Some(Json::Null) => Some(None),
        Some(Json::Str(s)) => Some(Some(s)),
        _ => None,
    }
}

fn cursor(j: &Json, key: &str) -> (r: Result<Option<String>, DecodeError>)
    ensures
        decoded(r, spec_cursor(*j, key@)),
{
    match j.get(key) {
        None => Ok(None),
        Some(Json::Null) => Ok(None),
        Some(Json::Str(s)) => Ok(Some(s.clone())),
        _ => Err(mismatch(key)),
    }
}

impl Decode for Pagination {
    open spec fn spec_decode(j: Json) -> Option<Pagination> {
        let future_url = spec_cursor(j, "future_url"@);
        let newer_url = spec_cursor(j, "newer_url"@);
        let older_url = spec_cursor(j, "older_url"@);
        if j is Object && future_url is Some && newer_url is Some && older_url is Some {
            Some(
                Pagination {
                    future_url: future_url->0,
                    newer_url: newer_url->0,
                    older_url: older_url->0,
                },
            )
        } else {
            None
        }
    }

    fn decode(j: &Json) -> (r: Result<Pagination, DecodeError>) {
        match j {
            Json::Object(_) => {},
            _ => {
                return Err(mismatch("Pagination"));
            },
        }
        let future_url = cursor(j, "future_url")?;
        let newer_url = cursor(j, "newer_url")?;
        let older_url = cursor(j, "older_url")?;
        Ok(Pagination { future_url, newer_url, older_url })
    }
}

/// Reads a list payload: a `Response` array of any length and a `Pagination` object.
pub fn decode_multiple<T: Decode>(payload: &Json) -> (r: Result<Multiple<T>, DecodeError>)
    ensures
        match r {
            Ok(m) => spec_pagination_of(*payload) == Some(m.pagination)
                && spec_response_items(*payload) is Some && all_decoded(
                spec_response_items(*payload)->0,
                m.data@,
            ),
            Err(e) => e is ShapeMismatch && !(spec_pagination_of(*payload) is Some
                && spec_response_items(*payload) is Some && all_decodable::<T>(
                spec_response_items(*payload)->0,
            )),
        },
        spec_get(*payload, "Pagination"@) is None ==> (r is Err && r->Err_0 is ShapeMismatch),
        r is Err && spec_pagination_of(*payload) is None ==> is_member(
            step_from_root(r->Err_0, 0),
            "Pagination"@,
        ),
        r is Err && spec_pagination_of(*payload) is Some ==> is_member(
            step_from_root(r->Err_0, 0),
            "Response"@,
        ),
        r is Err && spec_pagination_of(*payload) is Some && spec_response_items(*payload) is Some
            ==> first_failure::<T>(
            spec_response_items(*payload)->0,
            step_from_root(r->Err_0, 1),
        ),
{
    let pagination = match payload.get("Pagination") {
        Some(p) => match Pagination::decode(p) {
            Ok(p) => p,
            Err(e) => {
                return Err(within(e, PathStep::Member(String::from_str("Pagination"))));
            },
        },
        None => {
            return Err(mismatch("Pagination"));
        },
    };
    match payload.get("Response") {
        Some(Json::Array(items)) => match decode_array::<T>(items) {
            Ok(data) => Ok(Multiple { data, pagination }),
            Err(e) => Err(within(e, PathStep::Member(String::from_str("Response")))),
        },
        _ => Err(mismatch("Response")),
    }
}

impl Decode for Installation {
    /// `Id`, `Token` and `ServerPublicKey`, in the first three elements of `Response`.
    open spec fn spec_decode(j: Json) -> Option<Installation> {
        let id = match spec_response_member(j, 0, "Id"@) {
            Some(v) => BunqId::spec_decode(v),
            None => None,
        };
        let token = match spec_response_member(j, 1, "Token"@) {
            Some(v) => InstallationToken::spec_decode(v),
            None => None,
        };
        let key = match spec_response_member(j, 2, "ServerPublicKey"@) {
            Some(v) => spec_member_str(v, "server_public_key"@),
            None => None,
        };
        if id is Some && token is Some && key is Some {
            Some(Installation { id: id->0, token: token->0, bunq_public_key: key->0 })
        } else {
            None
        }
    }

    fn decode(j: &Json) -> (r: Result<Installation, DecodeError>) {
        let id = decode_response_member::<BunqId>(j, 0, "Id")?;
        let token = decode_response_member::<InstallationToken>(j, 1, "Token")?;
        let bunq_public_key = member_string(response_member(j, 2, "ServerPublicKey")?, "server_public_key")?;
        Ok(Installation { id, token, bunq_public_key })
    }
}

impl Decode for Session {
    /// `Id`, `Token` and `UserPerson`, in the first three elements of `Response`;
    /// the session id must fit in 32 bits.
    open spec fn spec_decode(j: Json) -> Option<Session> {
        let id = match spec_response_member(j, 0, "Id"@) {
            Some(v) => spec_member_u32(v, "id"@),
            None => None,
        };
        let token = match spec_response_member(j, 1, "Token"@) {
            Some(v) => SessionToken::spec_decode(v),
            None => None,
        };
        let user_person = match spec_response_member(j, 2, "UserPerson"@) {
            Some(v) => UserPerson::spec_decode(v),
            None => None,
        };
        if id is Some && token is Some && user_person is Some {
            Some(Session { id: id->0, token: token->0, user_person: user_person->0 })
        } else {
            None
        }
    }

    fn decode(j: &Json) -> (r: Result<Session, DecodeError>) {
        let id = member_u32(response_member(j, 0, "Id")?, "id")?;
        let token = decode_response_member::<SessionToken>(j, 1, "Token")?;
        let user_person = decode_response_member::<UserPerson>(j, 2, "UserPerson")?;
        Ok(Session { id, token, user_person })
    }
}

/// The text of a member that must be a string, compared without copying.
fn member_text<'a>(j: &'a Json, key: &str) -> (r: Result<&'a String, DecodeError>)
    ensures
        match r {
            Ok(s) => spec_member_str(*j, key@) == Some(*s),
            Err(e) => spec_member_str(*j, key@) is None && e is ShapeMismatch && step_from_root(
                e,
                0,
            ) is Some,
        },
{
    match j.get(key) {
        Some(Json::Str(s)) => Ok(s),
        _ => Err(mismatch(key)),
    }
}

fn is_text(s: &String, literal: &str) -> (r: bool)
    ensures
        r == (s@ == literal@),
{
    *s == String::from_str(literal)
}

pub open spec fn spec_device_server_status(text: Seq<char>) -> Option<DeviceServerStatus> {
    if text == "ACTIVE"@ {
        Some(DeviceServerStatus::Active)
    } else if text == "BLOCKED"@ {
        Some(DeviceServerStatus::Blocked)
    } else if text == "NEEDS_CONFIRMATION"@ {
        Some(DeviceServerStatus::NeedsConfirmation)
    } else if text == "OBSOLETE"@ {
        Some(DeviceServerStatus::Obsolete)
    } else {
        None
    }
}

/// Any status text that is not one of the known ones reads as `Unknown`.
pub open spec fn spec_account_status(text: Seq<char>) -> MonetaryAccountBankStatus {
    if text == "ACTIVE"@ {
        MonetaryAccountBankStatus::Active
    } else if text == "BLOCKED"@ {
        MonetaryAccountBankStatus::Blocked
    } else if text == "CANCELLED"@ {
        MonetaryAccountBankStatus::Cancelled
    } else if text == "PENDING_REOPEN"@ {
        MonetaryAccountBankStatus::PendingReopen
    } else {
        MonetaryAccountBankStatus::Unknown
    }
}

pub open spec fn spec_tab_status(text: Seq<char>) -> Option<BunqMeTabStatus> {
    if text == "WAITING_FOR_PAYMENT"@ {
        Some(BunqMeTabStatus::WaitingForPayment)
    } else if text == "CANCELLED"@ {
        Some(BunqMeTabStatus::Cancelled)
    } else if text == "EXPIRED"@ {
        Some(BunqMeTabStatus::Expired)
    } else if text == "PAID"@ {
        Some(BunqMeTabStatus::Paid)
    } else {
        None
    }
}

/// The status member of `j`, read with `status_of`.
pub open spec fn spec_member_status<S>(j: Json, status_of: spec_fn(Seq<char>) -> Option<S>) -> Option<S> {
    match spec_member_str(j, "status"@) {
        Some(s) => status_of(s@),
        None => None,
    }
}

fn device_server_status(j: &Json) -> (r: Result<DeviceServerStatus, DecodeError>)
    ensures
        decoded(r, spec_member_status(*j, |t: Seq<char>| spec_device_server_status(t))),
{
    let text = member_text(j, "status")?;
    if is_text(text, "ACTIVE") {
        Ok(DeviceServerStatus::Active)
    } else if is_text(text, "BLOCKED") {
        Ok(DeviceServerStatus::Blocked)
    } else if is_text(text, "NEEDS_CONFIRMATION") {
        Ok(DeviceServerStatus::NeedsConfirmation)
    } else if is_text(text, "OBSOLETE") {
        Ok(DeviceServerStatus::Obsolete)
    } else {
        Err(mismatch("status"))
    }
}

fn account_status(j: &Json) -> (r: Result<MonetaryAccountBankStatus, DecodeError>)
    ensures
        decoded(r, spec_member_status(*j, |t: Seq<char>| Some(spec_account_status(t)))),
{
    let text = member_text(j, "status")?;
    if is_text(text, "ACTIVE") {
        Ok(MonetaryAccountBankStatus::Active)
    } else if is_text(text, "BLOCKED") {
        Ok(MonetaryAccountBankStatus::Blocked)
    } else if is_text(text, "CANCELLED") {
        Ok(MonetaryAccountBankStatus::Cancelled)
    } else if is_text(text, "PENDING_REOPEN") {
        Ok(MonetaryAccountBankStatus::PendingReopen)
    } else {
        Ok(MonetaryAccountBankStatus::Unknown)
    }
}

fn tab_status(j: &Json) -> (r: Result<BunqMeTabStatus, DecodeError>)
    ensures
        decoded(r, spec_member_status(*j, |t: Seq<char>| spec_tab_status(t))),
{
    let text = member_text(j, "status")?;
    if is_text(text, "WAITING_FOR_PAYMENT") {
        Ok(BunqMeTabStatus::WaitingForPayment)
    } else if is_text(text, "CANCELLED") {
        Ok(BunqMeTabStatus::Cancelled)
    } else if is_text(text, "EXPIRED") {
        Ok(BunqMeTabStatus::Expired)
    } else if is_text(text, "PAID") {
        Ok(BunqMeTabStatus::Paid)
    } else {
        Err(mismatch("status"))
    }
}

impl Decode for DeviceServer {
    open spec fn spec_decode(j: Json) -> Option<DeviceServer> {
        let id = spec_member_u32(j, "id"@);
        let created = spec_member_date(j, "created"@);
        let updated = spec_member_date(j, "updated"@);
        let description = spec_member_str(j, "description"@);
        let ip = spec_member_str(j, "ip"@);
        let status = spec_member_status(j, |t: Seq<char>| spec_device_server_status(t));
        if id is Some && created is Some && updated is Some && description is Some && ip is Some
            && status is Some {
            Some(
                DeviceServer {
                    id: id->0,
                    created: created->0,
                    updated: updated->0,
                    description: description->0,
                    ip: ip->0,
                    status: status->0,
                },
            )
        } else {
            None
        }
    }

    fn decode(j: &Json) -> (r: Result<DeviceServer, DecodeError>) {
        let id = member_u32(j, "id")?;
        let created = member_date(j, "created")?;
        let updated = member_date(j, "updated")?;
        let description = member_string(j, "description")?;
        let ip = member_string(j, "ip")?;
        let status = device_server_status(j)?;
        Ok(DeviceServer { id, created, updated, description, ip, status })
    }
}

impl Decode for DeviceServerWrapper {
    open spec fn spec_decode(j: Json) -> Option<DeviceServerWrapper> {
        match spec_get(j, "DeviceServer"@) {
            Some(v) => match DeviceServer::spec_decode(v) {
                Some(device_server) => Some(DeviceServerWrapper { device_server }),
                None => None,
            },
            None => None,
        }
    }

    fn decode(j: &Json) -> (r: Result<DeviceServerWrapper, DecodeError>) {
        let device_server = decode_member::<DeviceServer>(j, "DeviceServer")?;
        Ok(DeviceServerWrapper { device_server })
    }
}

impl Decode for Amount {
    /// The value stays the decimal text that the server sent.
    open spec fn spec_decode(j: Json) -> Option<Amount> {
        let value = spec_member_str(j, "value"@);
        let currency = spec_member_str(j, "currency"@);
        if value is Some && currency is Some {
            Some(Amount { value: value->0, currency: currency->0 })
        } else {
            None
        }
    }

    fn decode(j: &Json) -> (r: Result<Amount, DecodeError>) {
        let value = member_string(j, "value")?;
        let currency = member_string(j, "currency")?;
        Ok(Amount { value, currency })
    }
}

impl Decode for MonetaryAccountBank {
    open spec fn spec_decode(j: Json) -> Option<MonetaryAccountBank> {
        let currency = spec_member_str(j, "currency"@);
        let id = spec_member_u32(j, "id"@);
        let balance = match spec_get(j, "balance"@) {
            Some(v) => Amount::spec_decode(v),
            None => None,
        };
        let description = spec_member_str(j, "description"@);
        let status = spec_member_status(j, |t: Seq<char>| Some(spec_account_status(t)));
        if currency is Some && id is Some && balance is Some && description is Some
            && status is Some {
            Some(
                MonetaryAccountBank {
                    currency: currency->0,
                    id: id->0,
                    balance: balance->0,
                    description: description->0,
                    status: status->0,
                },
            )
        } else {
            None
        }
    }

    fn decode(j: &Json) -> (r: Result<MonetaryAccountBank, DecodeError>) {
        let currency = member_string(j, "currency")?;
        let id = member_u32(j, "id")?;
        let balance = decode_member::<Amount>(j, "balance")?;
        let description = member_string(j, "description")?;
        let status = account_status(j)?;
        Ok(MonetaryAccountBank { currency, id, balance, description, status })
    }
}

impl Decode for MonetaryAccountBankWrapper {
    open spec fn spec_decode(j: Json) -> Option<MonetaryAccountBankWrapper> {
        match spec_get(j, "MonetaryAccountBank"@) {
            Some(v) => match MonetaryAccountBank::spec_decode(v) {
                Some(monetary_account_bank) => Some(
                    MonetaryAccountBankWrapper { monetary_account_bank },
                ),
                None => None,
            },
            None => None,
        }
    }

    fn decode(j: &Json) -> (r: Result<MonetaryAccountBankWrapper, DecodeError>) {
        let monetary_account_bank = decode_member::<MonetaryAccountBank>(j, "MonetaryAccountBank")?;
        Ok(MonetaryAccountBankWrapper { monetary_account_bank })
    }
}

impl Decode for BunqMeTab {
    open spec fn spec_decode(j: Json) -> Option<BunqMeTab> {
        let id = spec_member_u32(j, "id"@);
        let created = spec_member_date(j, "created"@);
        let updated = spec_member_date(j, "updated"@);
        let time_expiry = spec_member_date(j, "time_expiry"@);
        let monetary_account_id = spec_member_u32(j, "monetary_account_id"@);
        let status = spec_member_status(j, |t: Seq<char>| spec_tab_status(t));
        let share_url = spec_member_str(j, "bunqme_tab_share_url"@);
        if id is Some && created is Some && updated is Some && time_expiry is Some
            && monetary_account_id is Some && status is Some && share_url is Some {
            Some(
                BunqMeTab {
                    id: id->0,
                    created: created->0,
                    updated: updated->0,
                    time_expiry: time_expiry->0,
                    monetary_account_id: monetary_account_id->0,
                    status: status->0,
                    bunqme_tab_share_url: share_url->0,
                },
            )
        } else {
            None
        }
    }

    fn decode(j: &Json) -> (r: Result<BunqMeTab, DecodeError>) {
        let id = member_u32(j, "id")?;
        let created = member_date(j, "created")?;
        let updated = member_date(j, "updated")?;
        let time_expiry = member_date(j, "time_expiry")?;
        let monetary_account_id = member_u32(j, "monetary_account_id")?;
        let status = tab_status(j)?;
        let bunqme_tab_share_url = member_string(j, "bunqme_tab_share_url")?;
        Ok(
            BunqMeTab {
                id,
                created,
                updated,
                time_expiry,
                monetary_account_id,
                status,
                bunqme_tab_share_url,
            },
        )
    }
}

impl Decode for BunqMeTabWrapper {
    /// The element itself is the payment request.
    open spec fn spec_decode(j: Json) -> Option<BunqMeTabWrapper> {
        match BunqMeTab::spec_decode(j) {
            Some(t) => Some(BunqMeTabWrapper(t)),
            None => None,
        }
    }

    fn decode(j: &Json) -> (r: Result<BunqMeTabWrapper, DecodeError>) {
        let tab = BunqMeTab::decode(j)?;
        Ok(BunqMeTabWrapper(tab))
    }
}

} // verus!
