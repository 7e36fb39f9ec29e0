//! One-time codes for password changes: drawing a code, the mail that
//! carries it, and checking a code against the stored one.
use vstd::prelude::*;
use crate::text::{decimal, push_decimal};

verus! {

/// A refusal with its message.
#[derive(Debug, Clone)]
pub struct CodeError {
    message: String,
}

impl CodeError {
    /// The message carried.
    pub closed spec fn text(&self) -> Seq<char> {
        self.message@
    }

    pub fn new(message: &str) -> (r: CodeError)
        ensures
            r.text() == message@,
    {
        CodeError { message: String::from_str(message) }
    }

    /// The message carried, as shown to users.
    pub fn message(&self) -> (r: String)
        ensures
            r@ == self.text(),
    {
        self.message.clone()
    }
}

/// How long a stored code stays valid, in seconds.
pub const CODE_TTL_SECS: u64 = 300;

/// A code mail to send and, once sent, the code to store under `key` for
/// `ttl_secs` seconds.
#[derive(Debug, Clone)]
pub struct CodeMail {
    pub from: String,
    pub to: String,
    pub subject: String,
    pub body: String,
    pub relay: String,
    pub login: String,
    pub password: String,
    pub key: String,
    pub code: u16,
    pub ttl_secs: u64,
}

/// `m` is the mail carrying `code` to `email_to` for the account `name`,
/// sent through the SMTP settings (sender, relay, login, password).
pub open spec fn is_code_mail(
    m: CodeMail,
    code: u16,
    email_to: Seq<char>,
    name: Seq<char>,
    smtp: (Seq<char>, Seq<char>, Seq<char>, Seq<char>),
) -> bool {
    &&& m.from@ == "monotipe. <"@ + smtp.0 + ">"@
    &&& m.to@ == email_to
    &&& m.subject@ == "Code for suguest"@
    &&& m.body@ == "Your code "@ + decimal(code as nat)
    &&& m.relay@ == smtp.1
    &&& m.login@ == smtp.2
    &&& m.password@ == smtp.3
    &&& m.key@ == name
    &&& m.code == code
    &&& m.ttl_secs == 300
}

/// Whether `code` is accepted against the code stored for an account: one
/// must be stored and equal `code` taken as a 16-bit number.
pub open spec fn code_accepts(stored: Option<u16>, code: usize) -> bool {
    stored == Some(code as u16)
}

/// A code drawn by `rand::random::<u16>()`; nothing is stated of its value.
#[verifier::external_body]
fn random_code() -> (r: u16) {
    rand::random::<u16>()
}

/// The mail carrying `code`.
pub fn code_mail(
    code: u16,
    email_to: String,
    name: String,
    smtp: (String, String, String, String),
) -> (m: CodeMail)
    ensures
        is_code_mail(m, code, email_to@, name@, (smtp.0@, smtp.1@, smtp.2@, smtp.3@)),
        m.to@ == email_to@,
        m.from@ == "monotipe. <"@ + smtp.0@ + ">"@,
        m.body@ == "Your code "@ + decimal(code as nat),
        m.key@ == name@,
        m.code == code,
        m.ttl_secs == 300,
{
    let (address_from, address, login, password) = smtp;
    let mut from = String::from_str("monotipe. <");
    from.append(address_from.as_str());
    from.append(">");
    let mut body = String::from_str("Your code ");
    push_decimal(&mut body, code);
    CodeMail {
        from,
        to: email_to,
        subject: String::from_str("Code for suguest"),
        body,
        relay: address,
        login,
        password,
        key: name,
        code,
        ttl_secs: CODE_TTL_SECS,
    }
}

/// Starts sending a password code to `email_to` for the account `name`:
/// refused while a code is still stored for it (`existing`), otherwise a
/// fresh code and the mail that carries it.
pub fn send_password_code(
    existing: Option<u16>,
    email_to: String,
    name: String,
    smtp: (String, String, String, String),
) -> (r: Result<CodeMail, CodeError>)
    ensures
        existing is Some ==> (r matches Err(e) && e.text() == "Code has already been created"@),
        existing is None ==> (r matches Ok(m) && is_code_mail(
            m,
            m.code,
            email_to@,
            name@,
            (smtp.0@, smtp.1@, smtp.2@, smtp.3@),
        )),
        existing is None ==> (r matches Ok(m) && m.to@ == email_to@ && m.key@ == name@
            && m.body@ == "Your code "@ + decimal(m.code as nat) && m.ttl_secs == 300),
{
    let code = random_code();
    if existing.is_some() {
        return Err(CodeError::new("Code has already been created"));
    }
    Ok(code_mail(code, email_to, name, smtp))
}

/// What to keep once a code mail has gone out: `code` under `key` for
/// `ttl_secs` seconds.
#[derive(Debug, Clone)]
pub struct CodeStore {
    pub key: String,
    pub code: u16,
    pub ttl_secs: u64,
}

/// The step after sending a code mail, given the outcome of sending: the code
/// is kept only when the mail went out; otherwise the failure is passed on
/// and nothing is kept.
pub fn code_mail_sent(mail: CodeMail, sent: Result<(), String>) -> (r: Result<CodeStore, String>)
    ensures
        sent is Ok ==> (r matches Ok(st) && st.key == mail.key && st.code == mail.code
            && st.ttl_secs == mail.ttl_secs),
        sent matches Err(e) ==> r == Err::<CodeStore, String>(e),
{
    match sent {
        Ok(()) => Ok(CodeStore { key: mail.key, code: mail.code, ttl_secs: mail.ttl_secs }),
        Err(e) => Err(e),
    }
}

/// Checks `code` against the code `stored` under `key`. On success the
/// answer is the key whose code is to be removed, so that the code serves
/// once.
pub fn check_code(stored: Option<u16>, code: usize, key: String) -> (r: Result<String, CodeError>)
    ensures
        r is Ok <==> code_accepts(stored, code),
        r matches Ok(k) ==> k == key,
        r matches Err(e) ==> e.text() == "Code doesn't match"@,
{
    match stored {
        Some(saved_code) => {
            if saved_code == code as u16 {
                Ok(key)
            } else {
                Err(CodeError::new("Code doesn't match"))
            }
        },
        None => Err(CodeError::new("Code doesn't match")),
    }
}

/// The code kept under `key` in the store of codes, if any.
pub open spec fn stored_code(codes: Map<Seq<char>, u16>, key: Seq<char>) -> Option<u16> {
    if codes.dom().contains(key) {
        Some(codes[key])
    } else {
        None
    }
}

/// The store of codes after keeping `st` (what `code_mail_sent` returns).
pub open spec fn after_keep(codes: Map<Seq<char>, u16>, st: CodeStore) -> Map<Seq<char>, u16> {
    codes.insert(st.key@, st.code)
}

/// The store of codes after checking `code` under `key`: an accepted code is
/// removed (the key `check_code` returns), a refused one changes nothing.
pub open spec fn after_check(codes: Map<Seq<char>, u16>, key: Seq<char>, code: usize) -> Map<
    Seq<char>,
    u16,
> {
    if code_accepts(stored_code(codes, key), code) {
        codes.remove(key)
    } else {
        codes
    }
}

/// A code that was kept after its mail went out is accepted once, and after
/// that check no code at all is accepted under its key (within its lifetime,
/// and until a new code is sent).
pub proof fn lemma_code_used_once(codes: Map<Seq<char>, u16>, st: CodeStore, again: usize)
    ensures
        code_accepts(stored_code(after_keep(codes, st), st.key@), st.code as usize),
        !code_accepts(
            stored_code(after_check(after_keep(codes, st), st.key@, st.code as usize), st.key@),
            again,
        ),
{
    assert((st.code as usize) as u16 == st.code);
}

/// The code a mail carries is accepted while it is stored.
pub proof fn lemma_mailed_code_accepted(m: CodeMail)
    ensures
        code_accepts(Some(m.code), m.code as usize),
{
}

/// Nothing is accepted once no code is stored (after a successful check has
/// removed it, or before any was sent).
pub proof fn lemma_no_code_no_access(code: usize)
    ensures
        !code_accepts(None, code),
{
}

/// A code is accepted exactly when it agrees with the stored code modulo
/// 2^16.
pub proof fn lemma_code_accepts_modulo(stored: u16, code: usize)
    ensures
        code_accepts(Some(stored), code) <==> code % 65536 == stored,
{
    assert((code as u16) as int == code % 65536) by (bit_vector);
}

/// The mail carrying a code goes to the address given for the account, and
/// names the code it carries; the account's key is where the code is kept.
pub proof fn lemma_code_mail_addressed(
    m: CodeMail,
    code: u16,
    email_to: Seq<char>,
    name: Seq<char>,
    smtp: (Seq<char>, Seq<char>, Seq<char>, Seq<char>),
)
    requires
        is_code_mail(m, code, email_to, name, smtp),
    ensures
        m.to@ == email_to,
        m.key@ == name,
        m.code == code,
        m.ttl_secs == 300,
        m.body@ == "Your code "@ + decimal(code as nat),
{
}

} // verus!
