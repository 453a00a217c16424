//! The values exchanged with the server, as the library holds them.

use vstd::prelude::*;
use vstd::string::StringExecFns;
use crate::json::{json_string_literal, quote_json};

verus! {

/// What an envelope carries: the payload, or the server's error list.
#[derive(Debug)]
pub enum ApiResponseBody<T> {
    Payload(T),
    Errors(Vec<ApiErrorDescription>),
}

impl<T> ApiResponseBody<T> {
    pub fn into_result(self) -> (r: Result<T, Vec<ApiErrorDescription>>)
        ensures
            match self {
                ApiResponseBody::Payload(v) => r == Ok::<T, Vec<ApiErrorDescription>>(v),
                ApiResponseBody::Errors(e) => r == Err::<T, Vec<ApiErrorDescription>>(e),
            },
    {
        match self {
            ApiResponseBody::Payload(v) => Ok(v),
            ApiResponseBody::Errors(api_error_descriptions) => Err(api_error_descriptions),
        }
    }
}

/// One entry of an `Error` envelope.
#[derive(Debug, Clone)]
pub struct ApiErrorDescription {
    pub description: String,
    pub translated: String,
}

/// The cursors of a list response; each is absent or null where there is no such page.
#[derive(Debug, Clone)]
pub struct Pagination {
    pub future_url: Option<String>,
    pub newer_url: Option<String>,
    pub older_url: Option<String>,
}

/// A list response: the decoded elements of `Response`, and its `Pagination`.
#[derive(Debug)]
pub struct Multiple<T> {
    pub data: Vec<T>,
    pub pagination: Pagination,
}

/// A response whose `Response` array holds exactly one element.
#[derive(Debug)]
pub struct Single<T>(pub T);

/// A calendar date and time of day, without a time zone.
#[derive(Debug, Clone, Copy, PartialEq, Eq, Structural)]
pub struct DateTime {
    pub year: i32,
    pub month: u32,
    pub day: u32,
    pub hour: u32,
    pub minute: u32,
    pub second: u32,
    /// Nanoseconds within the second; 1_000_000_000 and above stand for a leap second.
    pub nanosecond: u32,
}

impl DateTime {
    pub open spec fn wf(self) -> bool {
        &&& 1 <= self.month <= 12
        &&& 1 <= self.day <= 31
        &&& self.hour < 24
        &&& self.minute < 60
        &&& self.second < 60
        &&& self.nanosecond < 2_000_000_000
    }
}

///////////// Installation ////////////////

/// The body of the installation request.
#[derive(Debug)]
pub struct CreateInstallation {
    pub client_public_key: String,
}

impl CreateInstallation {
    /// The request body: `{"client_public_key":...}`.
    pub fn to_json(&self) -> (r: String)
        ensures
            r@ == "{\"client_public_key\":"@ + json_string_literal(
                self.client_public_key@,
            ) + "}"@,
    {
        let key = quote_json(self.client_public_key.as_str()).unwrap();
        String::from_str("{\"client_public_key\":").concat(key.as_str()).concat("}")
    }
}

/// What the installation call returns, element by element.
#[derive(Debug)]
pub struct Installation {
    pub id: BunqId,
    pub token: InstallationToken,
    pub bunq_public_key: String,
}

#[derive(Debug)]
pub struct InstallationToken {
    pub id: u32,
    pub created: DateTime,
    pub updated: DateTime,
    pub token: String,
}

#[derive(Debug, Clone, Copy, PartialEq, Eq, Structural)]
pub struct BunqId {
    pub id: u32,
}

///////////// Device Server ////////////

/// The body of the device registration request.
#[derive(Debug)]
pub struct CreateDeviceServer {
    pub bunq_api_key: String,
    pub description: String,
    pub permitted_ips: Vec<String>,
}

/// The JSON array of these strings' literals, without spaces.
pub open spec fn json_string_list(items: Seq<String>) -> Seq<char>
    decreases items.len(),
{
    if items.len() == 0 {
        Seq::empty()
    } else if items.len() == 1 {
        json_string_literal(items[0]@)
    } else {
        json_string_list(items.drop_last()) + ","@ + json_string_literal(items.last()@)
    }
}

impl CreateDeviceServer {
    /// The request body: `{"secret":...,"description":...,"permitted_ips":[...]}`.
    pub fn to_json(&self) -> (r: String)
        ensures
            r@ == "{\"secret\":"@ + json_string_literal(
                self.bunq_api_key@,
            ) + ",\"description\":"@ + json_string_literal(self.description@)
                + ",\"permitted_ips\":["@ + json_string_list(self.permitted_ips@) + "]}"@,
    {
        let secret = quote_json(self.bunq_api_key.as_str()).unwrap();
        let description = quote_json(self.description.as_str()).unwrap();
        let mut ips = String::new();
        let mut i: usize = 0;
        while i < self.permitted_ips.len()
            invariant
                0 <= i <= self.permitted_ips@.len(),
                ips@ == json_string_list(self.permitted_ips@.subrange(0, i as int)),
            decreases self.permitted_ips@.len() - i,
        {
            let ip = quote_json(self.permitted_ips[i].as_str()).unwrap();
            let ghost prefix = self.permitted_ips@.subrange(0, i as int + 1);
            assert(prefix.drop_last() =~= self.permitted_ips@.subrange(0, i as int));
            if i == 0 {
                ips = ip;
            } else {
                ips = ips.concat(",").concat(ip.as_str());
            }
            i = i + 1;
        }
        assert(self.permitted_ips@.subrange(0, i as int) =~= self.permitted_ips@);
        String::from_str("{\"secret\":").concat(secret.as_str()).concat(
            ",\"description\":",
        ).concat(description.as_str()).concat(",\"permitted_ips\":[").concat(ips.as_str()).concat(
            "]}",
        )
    }
}

#[derive(Debug)]
pub struct DeviceServerWrapper {
    pub device_server: DeviceServer,
}

#[derive(Debug)]
pub struct DeviceServer {
    pub id: u32,
    pub created: DateTime,
    pub updated: DateTime,
    pub description: String,
    pub ip: String,
    pub status: DeviceServerStatus,
}

/// The identifier that the registration call returns.
#[derive(Debug, Clone, Copy, PartialEq, Eq, Structural)]
pub struct DeviceServerSmall {
    pub id: u32,
}

#[derive(Debug, Clone, Copy, PartialEq, Eq, Structural)]
pub enum DeviceServerStatus {
    Active,
    Blocked,
    NeedsConfirmation,
    Obsolete,
}

///////////// Session ////////////

/// The body of the session request.
#[derive(Debug)]
pub struct CreateSession {
    pub bunq_api_key: String,
}

impl CreateSession {
    /// The request body: `{"secret":...}`.
    pub fn to_json(&self) -> (r: String)
        ensures
            r@ == "{\"secret\":"@ + json_string_literal(
                self.bunq_api_key@,
            ) + "}"@,
    {
        let secret = quote_json(self.bunq_api_key.as_str()).unwrap();
        String::from_str("{\"secret\":").concat(secret.as_str()).concat("}")
    }
}

/// What the session call returns, element by element.
#[derive(Debug)]
pub struct Session {
    pub id: u32,
    pub token: SessionToken,
    pub user_person: UserPerson,
}

#[derive(Debug)]
pub struct SessionToken {
    pub id: u32,
    pub created: DateTime,
    pub updated: DateTime,
    pub token: String,
}

#[derive(Debug)]
pub struct UserPerson {
    pub id: u32,
    pub created: DateTime,
    pub updated: DateTime,
    pub public_uuid: String,
    pub session_timeout: i32,
    pub legal_name: String,
    pub public_nick_name: String,
    pub display_name: String,
    pub first_name: String,
    pub last_name: String,
    pub middle_name: String,
    pub date_of_birth: String,
    pub nationality: String,
}

/// One element of the user listing.
#[derive(Debug)]
pub struct User {
    pub user_person: UserPerson,
}

////////////////// Monetary Account ////////////////

#[derive(Debug)]
pub struct MonetaryAccountBankWrapper {
    pub monetary_account_bank: MonetaryAccountBank,
}

#[derive(Debug)]
pub struct MonetaryAccountBank {
    pub currency: String,
    pub id: u32,
    pub balance: Amount,
    pub description: String,
    pub status: MonetaryAccountBankStatus,
}

/// An amount of money: the decimal text as the server writes it, and its currency.
#[derive(Debug)]
pub struct Amount {
    pub value: String,
    pub currency: String,
}

#[derive(Debug, Clone, Copy, PartialEq, Eq, Structural)]
pub enum MonetaryAccountBankStatus {
    Active,
    Blocked,
    Cancelled,
    PendingReopen,
    /// A status that this library does not know yet.
    Unknown,
}

////////////////// BunqMeTab ////////////////

#[derive(Debug)]
pub struct BunqMeTabWrapper(pub BunqMeTab);

#[derive(Debug)]
pub struct BunqMeTab {
    pub id: u32,
    pub created: DateTime,
    pub updated: DateTime,
    pub time_expiry: DateTime,
    pub monetary_account_id: u32,
    pub status: BunqMeTabStatus,
    pub bunqme_tab_share_url: String,
}

#[derive(Debug, Clone, Copy, PartialEq, Eq, Structural)]
pub enum BunqMeTabStatus {
    WaitingForPayment,
    Cancelled,
    Expired,
    Paid,
}

} // verus!
