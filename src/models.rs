use vstd::prelude::*;
use vstd::string::*;
use crate::text::{decimal, decimal_text};

verus! {

/// The E.164 text of the telephone number written in `text`, when it parses.
pub uninterp spec fn e164_of(text: Seq<char>) -> Option<Seq<char>>;

/// The canonical text of the decimal number written in `text`, when it parses.
pub uninterp spec fn decimal_text_of(text: Seq<char>) -> Option<Seq<char>>;

/// Relies on phonenumber::parse (with no default region) and on the E.164 text that
/// the `Display` of the parsed number writes.
#[verifier::external_body]
fn parse_phone(text: &str) -> (r: Option<String>)
    ensures
        r.is_some() == e164_of(text@).is_some(),
        r.is_some() ==> e164_of(text@) == Some(r.unwrap()@),
{
    phonenumber::parse(None, text).ok().map(|n| n.to_string())
}

/// Relies on bigdecimal's `FromStr` for `BigDecimal` and on the text that its
/// `Display` writes.
#[verifier::external_body]
fn parse_decimal(text: &str) -> (r: Option<String>)
    ensures
        r.is_some() == decimal_text_of(text@).is_some(),
        r.is_some() ==> decimal_text_of(text@) == Some(r.unwrap()@),
{
    text.parse::<bigdecimal::BigDecimal>().ok().map(|d| d.to_string())
}

/// A telephone number, held in its canonical international (E.164) form.
#[derive(Debug, Clone)]
pub struct Phone {
    text: String,
}

impl Phone {
    /// The E.164 text of the number.
    pub closed spec fn view(&self) -> Seq<char> {
        self.text@
    }

    /// Reads a telephone number written in international form.
    pub fn parse(text: &str) -> (r: Option<Phone>)
        ensures
            r.is_some() == e164_of(text@).is_some(),
            r.is_some() ==> e164_of(text@) == Some(r.unwrap()@),
    {
        match parse_phone(text) {
            Some(t) => Some(Phone { text: t }),
            None => None,
        }
    }

    /// The E.164 text of the number.
    pub fn to_text(&self) -> (r: String)
        ensures
            r@ == self@,
    {
        self.text.clone()
    }
}

/// A decimal money amount, held in its canonical text.
#[derive(Debug, Clone)]
pub struct Decimal {
    text: String,
}

impl Decimal {
    /// The canonical text of the amount.
    pub closed spec fn view(&self) -> Seq<char> {
        self.text@
    }

    /// Reads a decimal number.
    pub fn parse(text: &str) -> (r: Option<Decimal>)
        ensures
            r.is_some() == decimal_text_of(text@).is_some(),
            r.is_some() ==> decimal_text_of(text@) == Some(r.unwrap()@),
    {
        match parse_decimal(text) {
            Some(t) => Some(Decimal { text: t }),
            None => None,
        }
    }

    /// The canonical text of the amount.
    pub fn to_text(&self) -> (r: String)
        ensures
            r@ == self@,
    {
        self.text.clone()
    }
}

/// The recipient of a transfer.
#[derive(Debug, Clone)]
pub enum UserId {
    Account(u64),
    Email(String),
    Phone(Phone),
}

/// How a recipient is written in a request: an account number in decimal, an
/// email address as given, a telephone number in E.164 form.
pub open spec fn user_id_text(u: UserId) -> Seq<char> {
    match u {
        UserId::Account(n) => decimal(n as nat),
        UserId::Email(e) => e@,
        UserId::Phone(p) => p@,
    }
}

impl UserId {
    /// The recipient as written in a request.
    pub fn to_text(&self) -> (r: String)
        ensures
            r@ == user_id_text(*self),
    {
        match self {
            UserId::Account(n) => decimal_text(*n),
            UserId::Email(e) => e.clone(),
            UserId::Phone(p) => p.to_text(),
        }
    }
}

/// The amount of a transfer.
#[derive(Debug, Clone)]
pub enum RequestAmount {
    /// Taken from the sender; the recipient receives less, after the fee.
    Net(Decimal),
    /// Received by the recipient; the sender pays the fee on top.
    Total(Decimal),
}

/// Extra authentication addresses for a card payment.
#[derive(Debug, Clone)]
pub struct Secure3D {
    pub ext_auth_success_uri: String,
    pub ext_auth_fail_uri: String,
}

/// Where the money of a payment comes from.
#[derive(Debug, Clone)]
pub enum ProcessPaymentMoneySource {
    Wallet,
    Card { id: String, secure3d: Option<Secure3D> },
}

/// A capability that an authorization asks for.
#[derive(Debug, Clone, Copy, PartialEq, Eq, Structural)]
pub enum AccessScope {
    AccountInfo,
    OperationHistory,
    PaymentP2P,
}

/// A kind of operation to list in the history.
#[derive(Debug, Clone, Copy, PartialEq, Eq, Structural)]
pub enum ReqOperationType {
    Deposition,
    Payment,
    IncomingTransfersUnaccepted,
}

/// The payload of a successful token exchange.
#[derive(Debug, Clone)]
pub struct TokenExchangeData {
    pub access_token: String,
}

/// One page of operation history.
#[derive(Debug, Clone)]
pub struct OperationHistoryResponse<T> {
    pub operations: Vec<T>,
    /// Where the next page starts, when there is one.
    pub next_record: Option<u64>,
}

/// The name of a capability on the wire.
pub open spec fn scope_name(s: AccessScope) -> Seq<char> {
    match s {
        AccessScope::AccountInfo => "account-info"@,
        AccessScope::OperationHistory => "operation-history"@,
        AccessScope::PaymentP2P => "payment-p2p"@,
    }
}

/// The name of an operation kind on the wire.
pub open spec fn operation_type_name(t: ReqOperationType) -> Seq<char> {
    match t {
        ReqOperationType::Deposition => "deposition"@,
        ReqOperationType::Payment => "payment"@,
        ReqOperationType::IncomingTransfersUnaccepted => "incoming-transfers-unaccepted"@,
    }
}

/// The names of the capabilities in `s`, each once, in declaration order.
pub open spec fn scope_words(s: Seq<AccessScope>) -> Seq<Seq<char>> {
    (if s.contains(AccessScope::AccountInfo) { seq![scope_name(AccessScope::AccountInfo)] } else { seq![] })
        + (if s.contains(AccessScope::OperationHistory) { seq![scope_name(AccessScope::OperationHistory)] } else { seq![] })
        + (if s.contains(AccessScope::PaymentP2P) { seq![scope_name(AccessScope::PaymentP2P)] } else { seq![] })
}

/// The names of the operation kinds in `s`, each once, in declaration order.
pub open spec fn operation_type_words(s: Seq<ReqOperationType>) -> Seq<Seq<char>> {
    (if s.contains(ReqOperationType::Deposition) { seq![operation_type_name(ReqOperationType::Deposition)] } else { seq![] })
        + (if s.contains(ReqOperationType::Payment) { seq![operation_type_name(ReqOperationType::Payment)] } else { seq![] })
        + (if s.contains(ReqOperationType::IncomingTransfersUnaccepted) {
            seq![operation_type_name(ReqOperationType::IncomingTransfersUnaccepted)]
        } else {
            seq![]
        })
}

/// Words separated by single spaces.
pub open spec fn join_words(w: Seq<Seq<char>>) -> Seq<char>
    decreases w.len(),
{
    if w.len() == 0 {
        Seq::empty()
    } else if w.len() == 1 {
        w[0]
    } else {
        join_words(w.drop_last()) + " "@ + w.last()
    }
}

impl AccessScope {
    /// The name of the capability on the wire.
    pub fn name(&self) -> (r: &'static str)
        ensures
            r@ == scope_name(*self),
    {
        match self {
            AccessScope::AccountInfo => "account-info",
            AccessScope::OperationHistory => "operation-history",
            AccessScope::PaymentP2P => "payment-p2p",
        }
    }
}

impl ReqOperationType {
    /// The name of the operation kind on the wire.
    pub fn name(&self) -> (r: &'static str)
        ensures
            r@ == operation_type_name(*self),
    {
        match self {
            ReqOperationType::Deposition => "deposition",
            ReqOperationType::Payment => "payment",
            ReqOperationType::IncomingTransfersUnaccepted => "incoming-transfers-unaccepted",
        }
    }
}

fn has_scope(v: &Vec<AccessScope>, s: AccessScope) -> (r: bool)
    ensures
        r == v@.contains(s),
{
    let mut i: usize = 0;
    while i < v.len()
        invariant
            0 <= i <= v.len(),
            forall|j: int| 0 <= j < i ==> v@[j] != s,
        decreases v.len() - i,
    {
        if v[i] == s {
            return true;
        }
        i = i + 1;
    }
    false
}

fn has_operation_type(v: &Vec<ReqOperationType>, t: ReqOperationType) -> (r: bool)
    ensures
        r == v@.contains(t),
{
    let mut i: usize = 0;
    while i < v.len()
        invariant
            0 <= i <= v.len(),
            forall|j: int| 0 <= j < i ==> v@[j] != t,
        decreases v.len() - i,
    {
        if v[i] == t {
            return true;
        }
        i = i + 1;
    }
    false
}

/// Joins words with single spaces.
pub fn join(words: &Vec<&str>) -> (r: String)
    ensures
        r@ == join_words(words@.map_values(|w: &str| w@)),
{
    let ghost ws = words@.map_values(|w: &str| w@);
    let mut acc = String::new();
    let mut i: usize = 0;
    while i < words.len()
        invariant
            0 <= i <= words.len(),
            ws == words@.map_values(|w: &str| w@),
            acc@ == join_words(ws.take(i as int)),
        decreases words.len() - i,
    {
        assert(ws.take(i as int + 1).drop_last() =~= ws.take(i as int));
        if i > 0 {
            acc = acc.concat(" ");
        } else {
            assert(acc@ =~= Seq::<char>::empty());
        }
        acc = acc.concat(words[i]);
        assert(acc@ =~= join_words(ws.take(i as int + 1)));
        i = i + 1;
    }
    assert(ws.take(words.len() as int) =~= ws);
    acc
}

/// The requested capabilities as sent: their names, each once, in declaration
/// order, separated by spaces.
pub fn scope_list(scopes: &Vec<AccessScope>) -> (r: String)
    ensures
        r@ == join_words(scope_words(scopes@)),
{
    let mut words: Vec<&str> = Vec::new();
    if has_scope(scopes, AccessScope::AccountInfo) {
        words.push(AccessScope::AccountInfo.name());
    }
    if has_scope(scopes, AccessScope::OperationHistory) {
        words.push(AccessScope::OperationHistory.name());
    }
    if has_scope(scopes, AccessScope::PaymentP2P) {
        words.push(AccessScope::PaymentP2P.name());
    }
    assert(words@.map_values(|w: &str| w@) =~= scope_words(scopes@));
    join(&words)
}

/// The operation kinds as sent: their names, each once, in declaration order,
/// separated by spaces.
pub fn operation_type_list(types: &Vec<ReqOperationType>) -> (r: String)
    ensures
        r@ == join_words(operation_type_words(types@)),
{
    let mut words: Vec<&str> = Vec::new();
    if has_operation_type(types, ReqOperationType::Deposition) {
        words.push(ReqOperationType::Deposition.name());
    }
    if has_operation_type(types, ReqOperationType::Payment) {
        words.push(ReqOperationType::Payment.name());
    }
    if has_operation_type(types, ReqOperationType::IncomingTransfersUnaccepted) {
        words.push(ReqOperationType::IncomingTransfersUnaccepted.name());
    }
    assert(words@.map_values(|w: &str| w@) =~= operation_type_words(types@));
    join(&words)
}

} // verus!
