//! The session client: a live session and the business calls made with it.

use vstd::prelude::*;
use vstd::string::StringExecFns;
use crate::client_builder::{
    checked_from, registered_of, unchecked_of, user_of, ClientBuilder, Registered,
    UncheckedSession,
};
use crate::json::{json_string_literal, quote_json, Json};
use crate::messenger::{headers_with_signature, spec_url, headers_without_signature, ApiResponse, HttpMethod, HttpRequest, MessageError, Messenger};

verus! {

/// Everything a live session carries.
#[derive(Clone, Debug)]
pub struct SessionContext {
    pub owner_id: u32,
    pub session_token: String,
    pub registered_device_id: u32,
    pub bunq_api_key: String,
    pub installation_token: String,
    pub bunq_public_key: openssl::pkey::PKey<openssl::pkey::Public>,
}

pub struct Client {
    pub api_base_url: String,
    pub app_name: String,
    pub private_key: openssl::pkey::PKey<openssl::pkey::Private>,
    pub messenger: Messenger,
    pub context: SessionContext,
}

/// The decimal digit `d`, for `d` below 10.
pub open spec fn digit_text(d: int) -> Seq<char> {
    seq![(('0' as int) + d) as char]
}

/// The decimal digits of `n`, without leading zeros.
pub open spec fn decimal_text(n: nat) -> Seq<char>
    decreases n,
{
    if n < 10 {
        digit_text(n as int)
    } else {
        decimal_text(n / 10) + digit_text((n % 10) as int)
    }
}

fn digit(d: u32) -> (r: &'static str)
    requires
        d < 10,
    ensures
        r@ == digit_text(d as int),
{
    let r = if d == 0 {
        "0"
    } else if d == 1 {
        "1"
    } else if d == 2 {
        "2"
    } else if d == 3 {
        "3"
    } else if d == 4 {
        "4"
    } else if d == 5 {
        "5"
    } else if d == 6 {
        "6"
    } else if d == 7 {
        "7"
    } else if d == 8 {
        "8"
    } else {
        "9"
    };
    proof {
        reveal_strlit("0");
        reveal_strlit("1");
        reveal_strlit("2");
        reveal_strlit("3");
        reveal_strlit("4");
        reveal_strlit("5");
        reveal_strlit("6");
        reveal_strlit("7");
        reveal_strlit("8");
        reveal_strlit("9");
    }
    assert(r@ =~= digit_text(d as int));
    r
}

/// `n` in decimal, as it stands in a path.
pub fn decimal(n: u32) -> (r: String)
    ensures
        r@ == decimal_text(n as nat),
    decreases n,
{
    if n < 10 {
        String::from_str(digit(n))
    } else {
        decimal(n / 10).concat(digit(n % 10))
    }
}

/// The largest mantissa, in absolute value, of a rust_decimal `Decimal` (96 bits).
pub const MAX_MANTISSA: i128 = 0xFFFF_FFFF_FFFF_FFFF_FFFF_FFFF;

pub open spec fn magnitude(m: int) -> nat {
    if m < 0 {
        (-m) as nat
    } else {
        m as nat
    }
}

/// The digits of `m` (none for zero), with zeros in front up to `scale` digits.
pub open spec fn padded_digits(m: nat, scale: nat) -> Seq<char> {
    let d = if m == 0 {
        Seq::<char>::empty()
    } else {
        decimal_text(m)
    };
    if d.len() < scale {
        Seq::new((scale - d.len()) as nat, |i: int| '0') + d
    } else {
        d
    }
}

/// How rust_decimal writes `mantissa` × 10^-`scale`: a minus sign where it is
/// negative, the whole part (`0` where it has no digits), and, where the scale is not
/// zero, a point and exactly `scale` fractional digits.
pub open spec fn decimal_plain(mantissa: int, scale: nat) -> Seq<char> {
    let d = padded_digits(magnitude(mantissa), scale);
    let whole = d.subrange(0, d.len() - scale);
    let whole_part = if whole.len() == 0 {
        seq!['0']
    } else {
        whole
    };
    let sign = if mantissa < 0 {
        seq!['-']
    } else {
        Seq::<char>::empty()
    };
    if scale == 0 {
        sign + whole_part
    } else {
        sign + whole_part + seq!['.'] + d.subrange(d.len() - scale, d.len() as int)
    }
}

/// Relies on rust_decimal's Decimal::from_i128_with_scale, which panics on a scale
/// above 28 or a mantissa beyond 96 bits, and on its serde serialisation (to_str_internal,
/// then serialize_str) through serde_json::to_string, which writes into a `Vec` and
/// cannot fail.
#[verifier::external_body]
fn decimal_to_json(mantissa: i128, scale: u32) -> (r: Option<String>)
    requires
        scale <= 28,
        -MAX_MANTISSA <= mantissa <= MAX_MANTISSA,
    ensures
        r is Some,
        r->0@ == json_string_literal(decimal_plain(mantissa as int, scale as nat)),
{
    serde_json::to_string(&rust_decimal::Decimal::from_i128_with_scale(mantissa, scale)).ok()
}

/// The path of the user's accounts.
pub open spec fn accounts_path(owner_id: u32) -> Seq<char> {
    "user/"@ + decimal_text(owner_id as nat) + "/monetary-account-bank"@
}

/// The path of the payment requests of one account.
pub open spec fn payment_requests_path(owner_id: u32, monetary_account_id: u32) -> Seq<char> {
    "user/"@ + decimal_text(owner_id as nat) + "/monetary-account/"@ + decimal_text(
        monetary_account_id as nat,
    ) + "/bunqme-tab"@
}

/// The body that creates a payment request in euros.
pub open spec fn payment_request_body(
    amount: Seq<char>,
    description: Seq<char>,
    redirect_url: Seq<char>,
) -> Seq<char> {
    "{\"bunqme_tab_entry\":{\"amount_inquired\":{\"value\":"@ + amount
        + ",\"currency\":\"EUR\"},\"description\":"@ + json_string_literal(description)
        + ",\"redirect_url\":"@ + json_string_literal(redirect_url) + "}}"@
}

impl Client {
    /// Checks the session with the reply to `get_user`. Where the reply confirms it,
    /// the client goes on; else the session is dropped and a builder one stage back,
    /// ready for `create_session`, is returned.
    pub fn ensure_session(self, outcome: Result<ApiResponse<Json>, MessageError>) -> (r: Result<
        Client,
        ClientBuilder<Registered>,
    >)
        ensures
            match user_of(outcome) {
                Some(user) => r matches Ok(c) && c.context == checked_from(
                    unchecked_of(self.context),
                    user.user_person.id,
                ) && c.api_base_url == self.api_base_url && c.app_name == self.app_name
                    && c.private_key == self.private_key && c.messenger.spec_token() == Some(
                    self.context.session_token@,
                ) && c.messenger.spec_server_key() == Some(self.context.bunq_public_key),
                None => r matches Err(b) && b.wf() && b.context == registered_of(
                    unchecked_of(self.context),
                ) && b.api_base_url == self.api_base_url && b.app_name == self.app_name
                    && b.private_key == self.private_key && b.messenger.spec_token() == Some(
                    self.context.installation_token@,
                ) && b.messenger.spec_server_key() == Some(self.context.bunq_public_key),
            },
    {
        let api_base_url = self.api_base_url.clone();
        let app_name = self.app_name.clone();
        let private_key = self.private_key.clone();
        let unchecked = ClientBuilder::from_unchecked_session(
            UncheckedSession::from(self.context),
            self.api_base_url,
            self.app_name,
            self.private_key,
        );
        match unchecked.check_session(outcome) {
            Ok(checked) => Ok(checked.build()),
            Err(error) => Err(
                ClientBuilder::from_registration(
                    Registered::from(error.context),
                    api_base_url,
                    app_name,
                    private_key,
                ),
            ),
        }
    }

    /// Fetches the user of this session (GET `user`).
    pub fn get_user(&self) -> (r: Result<HttpRequest, MessageError>)
        ensures
            r matches Ok(req) && req.method == HttpMethod::Get && req.url@ == spec_url(
                self.messenger.spec_base_url(),
                "user"@,
            ) && req.body is None && headers_without_signature(self.messenger, req),
    {
        self.messenger.request(HttpMethod::Get, "user", None)
    }

    /// Lists the user's accounts (GET).
    pub fn get_monetary_accounts(&self) -> (r: Result<HttpRequest, MessageError>)
        ensures
            r matches Ok(req) && req.method == HttpMethod::Get && req.url@ == spec_url(
                self.messenger.spec_base_url(),
                accounts_path(self.context.owner_id),
            ) && req.body is None && headers_without_signature(self.messenger, req),
    {
        let path = String::from_str("user/").concat(decimal(self.context.owner_id).as_str()).concat(
            "/monetary-account-bank",
        );
        self.messenger.request(HttpMethod::Get, path.as_str(), None)
    }

    /// Fetches one of the user's accounts (GET).
    pub fn get_monetary_account(&self, bank_account_id: u32) -> (r: Result<
        HttpRequest,
        MessageError,
    >)
        ensures
            r matches Ok(req) && req.method == HttpMethod::Get && req.url@ == spec_url(
                self.messenger.spec_base_url(),
                accounts_path(self.context.owner_id) + "/"@ + decimal_text(bank_account_id as nat),
            ) && req.body is None && headers_without_signature(self.messenger, req),
    {
        let path = String::from_str("user/").concat(decimal(self.context.owner_id).as_str()).concat(
            "/monetary-account-bank/",
        ).concat(decimal(bank_account_id).as_str());
        proof {
            reveal_strlit("/monetary-account-bank/");
            reveal_strlit("/monetary-account-bank");
            reveal_strlit("/");
        }
        assert(path@ =~= accounts_path(self.context.owner_id) + "/"@ + decimal_text(
            bank_account_id as nat,
        ));
        self.messenger.request(HttpMethod::Get, path.as_str(), None)
    }

    /// The path of one payment request, built in exec code.
    fn payment_request_path(&self, monetary_account_id: u32, payment_request_id: u32) -> (r:
        String)
        ensures
            r@ == payment_requests_path(self.context.owner_id, monetary_account_id) + "/"@
                + decimal_text(payment_request_id as nat),
    {
        let r = String::from_str("user/").concat(decimal(self.context.owner_id).as_str()).concat(
            "/monetary-account/",
        ).concat(decimal(monetary_account_id).as_str()).concat("/bunqme-tab/").concat(
            decimal(payment_request_id).as_str(),
        );
        proof {
            reveal_strlit("/bunqme-tab/");
            reveal_strlit("/bunqme-tab");
            reveal_strlit("/");
        }
        assert(r@ =~= payment_requests_path(self.context.owner_id, monetary_account_id) + "/"@
            + decimal_text(payment_request_id as nat));
        r
    }

    /// Fetches one payment request (GET).
    pub fn get_payment_request(&self, monetary_account_id: u32, payment_request_id: u32) -> (r:
        Result<HttpRequest, MessageError>)
        ensures
            r matches Ok(req) && req.method == HttpMethod::Get && req.url@ == spec_url(
                self.messenger.spec_base_url(),
                payment_requests_path(self.context.owner_id, monetary_account_id) + "/"@
                    + decimal_text(payment_request_id as nat),
            ) && req.body is None && headers_without_signature(self.messenger, req),
    {
        let path = self.payment_request_path(monetary_account_id, payment_request_id);
        self.messenger.request(HttpMethod::Get, path.as_str(), None)
    }

    /// Creates a payment request in euros (POST) for `amount_mantissa` × 10^-`amount_scale`;
    /// it fails only where signing the body fails.
    pub fn create_payment_request(
        &self,
        monetary_account_id: u32,
        amount_mantissa: i128,
        amount_scale: u32,
        description: String,
        redirect_url: String,
    ) -> (r: Result<HttpRequest, MessageError>)
        requires
            amount_scale <= 28,
            -MAX_MANTISSA <= amount_mantissa <= MAX_MANTISSA,
        ensures
            match r {
                Ok(req) => {
                    &&& req.method == HttpMethod::Post
                    &&& headers_with_signature(self.messenger, req)
                    &&& req.url@ == spec_url(
                        self.messenger.spec_base_url(),
                        payment_requests_path(self.context.owner_id, monetary_account_id),
                    )
                    &&& req.body matches Some(b) && b@ == payment_request_body(
                        json_string_literal(decimal_plain(amount_mantissa as int, amount_scale as nat)),
                        description@,
                        redirect_url@,
                    )
                },
                Err(e) => e is RequestBuildError,
            },
    {
        let path = String::from_str("user/").concat(decimal(self.context.owner_id).as_str()).concat(
            "/monetary-account/",
        ).concat(decimal(monetary_account_id).as_str()).concat("/bunqme-tab");
        let amount = decimal_to_json(amount_mantissa, amount_scale).unwrap();
        let description = quote_json(description.as_str()).unwrap();
        let redirect_url = quote_json(redirect_url.as_str()).unwrap();
        let body = String::from_str(
            "{\"bunqme_tab_entry\":{\"amount_inquired\":{\"value\":",
        ).concat(amount.as_str()).concat(",\"currency\":\"EUR\"},\"description\":").concat(
            description.as_str(),
        ).concat(",\"redirect_url\":").concat(redirect_url.as_str()).concat("}}");
        self.messenger.request(HttpMethod::Post, path.as_str(), Some(body))
    }

    /// Cancels a payment request (PUT `{"status":"CANCELLED"}`); it fails only where
    /// signing the body fails.
    pub fn close_payment_request(&self, monetary_account_id: u32, payment_request_id: u32) -> (r:
        Result<HttpRequest, MessageError>)
        ensures
            match r {
                Ok(req) => {
                    &&& req.method == HttpMethod::Put
                    &&& headers_with_signature(self.messenger, req)
                    &&& req.url@ == spec_url(
                        self.messenger.spec_base_url(),
                        payment_requests_path(self.context.owner_id, monetary_account_id) + "/"@
                            + decimal_text(payment_request_id as nat),
                    )
                    &&& req.body matches Some(b) && b@ == "{\"status\":\"CANCELLED\"}"@
                },
                Err(e) => e is RequestBuildError,
            },
    {
        let path = self.payment_request_path(monetary_account_id, payment_request_id);
        let body = String::from_str("{\"status\":\"CANCELLED\"}");
        self.messenger.request(HttpMethod::Put, path.as_str(), Some(body))
    }
}

} // verus!
