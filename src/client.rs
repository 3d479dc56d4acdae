use vstd::prelude::*;
use vstd::string::*;
use crate::params::Params;
use crate::models::{Decimal, Phone, ProcessPaymentMoneySource, RequestAmount, UserId, user_id_text};
use crate::text::{bool_text, bool_word, decimal, decimal_text};

verus! {

/// The address that every endpoint is resolved against.
pub open spec fn base_addr() -> Seq<char> {
    "https://money.yandex.ru"@
}

/// One request to make: the endpoint and its form parameters.
pub struct ApiCall {
    pub endpoint: String,
    pub params: Params,
}

impl ApiCall {
    /// A well-formed request to `endpoint` with exactly the parameters `m`.
    pub open spec fn is(&self, endpoint: Seq<char>, m: Map<Seq<char>, Seq<char>>) -> bool {
        self.endpoint@ == endpoint && self.params.wf() && self.params@ == m
    }
}

/// The parameters of a transfer request.
pub open spec fn transfer_params(
    to: UserId,
    amount: RequestAmount,
    comment: Seq<char>,
    message: Seq<char>,
    label: Option<String>,
    codepro: bool,
    hold_for_pickup: bool,
    expire_period: u32,
) -> Map<Seq<char>, Seq<char>> {
    let base = Map::<Seq<char>, Seq<char>>::empty()
        .insert("pattern_id"@, "p2p"@)
        .insert("to"@, user_id_text(to))
        .insert("comment"@, comment)
        .insert("message"@, message)
        .insert("codepro"@, bool_word(codepro))
        .insert("hold_for_pickup"@, bool_word(hold_for_pickup))
        .insert("expire_period"@, decimal(expire_period as nat));
    let with_amount = match amount {
        RequestAmount::Total(a) => base.insert("amount"@, a@),
        RequestAmount::Net(a) => base.insert("amount_due"@, a@),
    };
    match label {
        Some(l) => with_amount.insert("label"@, l@),
        None => with_amount,
    }
}

/// `m` with each pair of `s` set in turn.
pub open spec fn insert_all(m: Map<Seq<char>, Seq<char>>, s: Seq<(Seq<char>, Seq<char>)>) -> Map<Seq<char>, Seq<char>>
    decreases s.len(),
{
    if s.len() == 0 {
        m
    } else {
        insert_all(m, s.drop_last()).insert(s.last().0, s.last().1)
    }
}

/// The parameters of a payment to a shop.
pub open spec fn shop_params(pattern_id: Seq<char>, other: Seq<(String, String)>) -> Map<Seq<char>, Seq<char>> {
    insert_all(
        Map::empty().insert("pattern_id"@, pattern_id),
        other.map_values(|e: (String, String)| (e.0@, e.1@)),
    )
}

/// The parameters of a mobile top-up.
pub open spec fn mobile_params(phone: Phone, amount: Decimal) -> Map<Seq<char>, Seq<char>> {
    Map::empty()
        .insert("pattern_id"@, "phone-topup"@)
        .insert("phone-number"@, phone@)
        .insert("amount"@, amount@)
}

/// The parameters of a payment processing request.
pub open spec fn process_params(request_id: Seq<char>, source: ProcessPaymentMoneySource) -> Map<Seq<char>, Seq<char>> {
    let base = Map::<Seq<char>, Seq<char>>::empty().insert("request_id"@, request_id);
    match source {
        ProcessPaymentMoneySource::Wallet => base.insert("money_source"@, "wallet"@),
        ProcessPaymentMoneySource::Card { id, secure3d } => {
            let card = base.insert("money_source"@, id@);
            match secure3d {
                Some(d) => card.insert("ext_auth_success_uri"@, d.ext_auth_success_uri@)
                    .insert("ext_auth_fail_uri"@, d.ext_auth_fail_uri@),
                None => card,
            }
        }
    }
}

/// A payment request that has been built and not yet sent.
pub struct PaymentRequest {
    params: Params,
}

impl PaymentRequest {
    /// The parameters that sending delivers.
    pub closed spec fn view(&self) -> Map<Seq<char>, Seq<char>> {
        self.params@
    }

    pub closed spec fn wf(&self) -> bool {
        self.params.wf()
    }

    /// The parameters that sending delivers.
    pub fn params(&self) -> (r: &Params)
        ensures
            r.wf() == self.wf(),
            r@ == self@,
    {
        &self.params
    }

    /// The request that sends this payment request.
    pub fn call(self) -> (r: ApiCall)
        requires
            self.wf(),
        ensures
            r.is("api/request-payment"@, self@),
    {
        ApiCall { endpoint: String::from_str("api/request-payment"), params: self.params }
    }
}

/// A payment request sent as a dry run: the server checks it and moves no money.
pub struct TestPaymentRequest {
    inner: PaymentRequest,
}

impl TestPaymentRequest {
    /// The dry-run form of `inner`.
    pub fn from(inner: PaymentRequest) -> (r: TestPaymentRequest)
        ensures
            r.inner() == inner,
    {
        TestPaymentRequest { inner }
    }

    pub closed spec fn inner(&self) -> PaymentRequest {
        self.inner
    }

    /// The request that sends the payment request, marked as a dry run.
    pub fn call(self) -> (r: ApiCall)
        requires
            self.inner().wf(),
        ensures
            r.is("api/request-payment"@, self.inner()@.insert("test_payment"@, "true"@)),
    {
        let mut inner = self.inner;
        inner.params.insert(String::from_str("test_payment"), bool_text(true));
        inner.call()
    }
}

/// A client holding a bearer token (or none).
#[derive(Debug, Clone)]
pub struct Client {
    addr: String,
    bearer: Option<String>,
}

impl Client {
    pub closed spec fn addr(&self) -> Seq<char> {
        self.addr@
    }

    pub closed spec fn bearer(&self) -> Option<Seq<char>> {
        match self.bearer {
            Some(t) => Some(t@),
            None => None,
        }
    }

    /// A client of the public service using `token`.
    pub fn new(token: Option<String>) -> (r: Client)
        ensures
            r.addr() == base_addr(),
            r.bearer() == (match token { Some(t) => Some(t@), None => None::<Seq<char>> }),
    {
        Client { addr: String::from_str("https://money.yandex.ru"), bearer: token }
    }

    /// The bearer token sent with each request.
    pub fn bearer_token(&self) -> (r: Option<&String>)
        ensures
            self.bearer() == (match r { Some(t) => Some(t@), None => None::<Seq<char>> }),
    {
        match &self.bearer {
            Some(t) => Some(t),
            None => None,
        }
    }

    /// The full address of `endpoint`.
    pub fn endpoint_url(&self, endpoint: &str) -> (r: String)
        ensures
            r@ == self.addr() + "/"@ + endpoint@,
    {
        self.addr.clone().concat("/").concat(endpoint)
    }

    /// The request for the account summary.
    pub fn account_info(&self) -> (r: ApiCall)
        ensures
            r.is("api/account-info"@, Map::empty()),
    {
        ApiCall { endpoint: String::from_str("api/account-info"), params: Params::new() }
    }

    /// The request that revokes the token.
    pub fn revoke_token(&self) -> (r: ApiCall)
        ensures
            r.is("api/revoke"@, Map::empty()),
    {
        ApiCall { endpoint: String::from_str("api/revoke"), params: Params::new() }
    }

    /// The request for the details of one operation.
    pub fn operation_details(&self, operation_id: String) -> (r: ApiCall)
        ensures
            r.is("api/operation-details"@, Map::empty().insert("operation_id"@, operation_id@)),
    {
        let mut params = Params::new();
        params.insert(String::from_str("operation_id"), operation_id);
        ApiCall { endpoint: String::from_str("api/operation-details"), params }
    }

    /// A payment to a shop: the pattern id, then each of `other` in turn.
    pub fn request_shop_payment(&self, pattern_id: String, other: Vec<(String, String)>) -> (r: PaymentRequest)
        ensures
            r.wf(),
            r@ == shop_params(pattern_id@, other@),
    {
        let ghost pid = pattern_id@;
        let ghost os = other@.map_values(|e: (String, String)| (e.0@, e.1@));
        let mut params = Params::new();
        params.insert(String::from_str("pattern_id"), pattern_id);
        let ghost m0 = params@;
        let n = other.len();
        let mut i: usize = 0;
        while i < n
            invariant
                n == os.len(),
                n == other@.len(),
                os == other@.map_values(|e: (String, String)| (e.0@, e.1@)),
                0 <= i <= n,
                params.wf(),
                params@ == insert_all(m0, os.take(i as int)),
            decreases n - i,
        {
            assert(os.take(i as int + 1).drop_last() =~= os.take(i as int));
            params.insert(other[i].0.clone(), other[i].1.clone());
            i = i + 1;
        }
        assert(os.take(n as int) =~= os);
        PaymentRequest { params }
    }

    /// A transfer to another user.
    pub fn request_transfer(
        &self,
        to: UserId,
        amount: RequestAmount,
        comment: String,
        message: String,
        label: Option<String>,
        codepro: bool,
        hold_for_pickup: bool,
        expire_period: u32,
    ) -> (r: PaymentRequest)
        ensures
            r.wf(),
            r@ == transfer_params(to, amount, comment@, message@, label, codepro, hold_for_pickup, expire_period),
    {
        let mut params = Params::new();
        params.insert(String::from_str("pattern_id"), String::from_str("p2p"));
        params.insert(String::from_str("to"), to.to_text());
        params.insert(String::from_str("comment"), comment);
        params.insert(String::from_str("message"), message);
        params.insert(String::from_str("codepro"), bool_text(codepro));
        params.insert(String::from_str("hold_for_pickup"), bool_text(hold_for_pickup));
        params.insert(String::from_str("expire_period"), decimal_text(expire_period as u64));
        match &amount {
            RequestAmount::Total(a) => params.insert(String::from_str("amount"), a.to_text()),
            RequestAmount::Net(a) => params.insert(String::from_str("amount_due"), a.to_text()),
        }
        match label {
            Some(l) => params.insert(String::from_str("label"), l),
            None => {},
        }
        PaymentRequest { params }
    }

    /// A top-up of a mobile telephone account.
    pub fn request_mobile_payment(&self, phone_number: Phone, amount: Decimal) -> (r: PaymentRequest)
        ensures
            r.wf(),
            r@ == mobile_params(phone_number, amount),
    {
        let mut params = Params::new();
        params.insert(String::from_str("pattern_id"), String::from_str("phone-topup"));
        params.insert(String::from_str("phone-number"), phone_number.to_text());
        params.insert(String::from_str("amount"), amount.to_text());
        PaymentRequest { params }
    }

    /// The request that carries out a payment request.
    pub fn process_payment(&self, request_id: String, money_source: ProcessPaymentMoneySource) -> (r: ApiCall)
        ensures
            r.is("api/process-payment"@, process_params(request_id@, money_source)),
    {
        let ghost rid = request_id@;
        let ghost src = money_source;
        let mut params = Params::new();
        params.insert(String::from_str("request_id"), request_id);
        match money_source {
            ProcessPaymentMoneySource::Wallet => {
                params.insert(String::from_str("money_source"), String::from_str("wallet"));
            },
            ProcessPaymentMoneySource::Card { id, secure3d } => {
                params.insert(String::from_str("money_source"), id);
                match secure3d {
                    Some(data) => {
                        params.insert(String::from_str("ext_auth_success_uri"), data.ext_auth_success_uri);
                        params.insert(String::from_str("ext_auth_fail_uri"), data.ext_auth_fail_uri);
                    },
                    None => {},
                }
            },
        }
        ApiCall { endpoint: String::from_str("api/process-payment"), params }
    }
}

/// The key under which an amount is sent: `amount` for a total, `amount_due` for
/// a net amount.
pub open spec fn amount_key(amount: RequestAmount) -> Seq<char> {
    match amount {
        RequestAmount::Total(_) => "amount"@,
        RequestAmount::Net(_) => "amount_due"@,
    }
}

proof fn lemma_transfer_keys_distinct()
    ensures
        "pattern_id"@.len() == 10,
        "to"@.len() == 2,
        "comment"@.len() == 7,
        "message"@.len() == 7,
        "codepro"@.len() == 7,
        "hold_for_pickup"@.len() == 15,
        "expire_period"@.len() == 13,
        "amount"@.len() == 6,
        "amount_due"@.len() == 10,
        "label"@.len() == 5,
        "pattern_id"@ != "amount_due"@,
        "comment"@ != "message"@,
        "comment"@ != "codepro"@,
        "message"@ != "codepro"@,
{
    reveal_strlit("pattern_id");
    reveal_strlit("to");
    reveal_strlit("comment");
    reveal_strlit("message");
    reveal_strlit("codepro");
    reveal_strlit("hold_for_pickup");
    reveal_strlit("expire_period");
    reveal_strlit("amount");
    reveal_strlit("amount_due");
    reveal_strlit("label");
    assert("pattern_id"@[0] != "amount_due"@[0]);
    assert("comment"@[0] != "message"@[0]);
    assert("comment"@[2] != "codepro"@[2]);
    assert("message"@[0] != "codepro"@[0]);
}

/// A transfer request names its recipient in exactly one parameter, `to`: an
/// account number in decimal, an email address as given, a telephone number in
/// E.164 form.
pub proof fn lemma_transfer_recipient(
    to: UserId,
    amount: RequestAmount,
    comment: Seq<char>,
    message: Seq<char>,
    label: Option<String>,
    codepro: bool,
    hold_for_pickup: bool,
    expire_period: u32,
)
    ensures
        ({
            let m = transfer_params(to, amount, comment, message, label, codepro, hold_for_pickup, expire_period);
            &&& m.contains_key("to"@)
            &&& m["to"@] == user_id_text(to)
            &&& (to matches UserId::Account(n) ==> m["to"@] == decimal(n as nat))
            &&& (to matches UserId::Email(e) ==> m["to"@] == e@)
            &&& (to matches UserId::Phone(p) ==> m["to"@] == p@)
        }),
{
    lemma_transfer_keys_distinct();
}

/// A transfer request carries its amount under `amount` for a total and under
/// `amount_due` for a net amount, never under both.
pub proof fn lemma_transfer_amount_key(
    to: UserId,
    amount: RequestAmount,
    comment: Seq<char>,
    message: Seq<char>,
    label: Option<String>,
    codepro: bool,
    hold_for_pickup: bool,
    expire_period: u32,
)
    ensures
        ({
            let m = transfer_params(to, amount, comment, message, label, codepro, hold_for_pickup, expire_period);
            &&& m.contains_key(amount_key(amount))
            &&& (amount matches RequestAmount::Total(a) ==> m.contains_key("amount"@) && m["amount"@] == a@
                && !m.contains_key("amount_due"@))
            &&& (amount matches RequestAmount::Net(a) ==> m.contains_key("amount_due"@) && m["amount_due"@] == a@
                && !m.contains_key("amount"@))
        }),
{
    lemma_transfer_keys_distinct();
}

/// A transfer request carries exactly the fixed parameters, the amount under its
/// key, and the label only when one is given; the values are those given.
pub proof fn lemma_transfer_form(
    to: UserId,
    amount: RequestAmount,
    comment: Seq<char>,
    message: Seq<char>,
    label: Option<String>,
    codepro: bool,
    hold_for_pickup: bool,
    expire_period: u32,
)
    ensures
        ({
            let m = transfer_params(to, amount, comment, message, label, codepro, hold_for_pickup, expire_period);
            let fixed = set!["pattern_id"@, "to"@, "comment"@, "message"@, "codepro"@, "hold_for_pickup"@,
                "expire_period"@, amount_key(amount)];
            &&& m.dom() == (match label { Some(_) => fixed.insert("label"@), None => fixed })
            &&& m["pattern_id"@] == "p2p"@
            &&& m["comment"@] == comment
            &&& m["message"@] == message
            &&& m["codepro"@] == bool_word(codepro)
            &&& m["hold_for_pickup"@] == bool_word(hold_for_pickup)
            &&& m["expire_period"@] == decimal(expire_period as nat)
            &&& (label matches Some(l) ==> m["label"@] == l@)
        }),
{
    lemma_transfer_keys_distinct();
    let m = transfer_params(to, amount, comment, message, label, codepro, hold_for_pickup, expire_period);
    let fixed = set!["pattern_id"@, "to"@, "comment"@, "message"@, "codepro"@, "hold_for_pickup"@,
        "expire_period"@, amount_key(amount)];
    assert(m.dom() =~= (match label { Some(_) => fixed.insert("label"@), None => fixed }));
}

} // verus!
