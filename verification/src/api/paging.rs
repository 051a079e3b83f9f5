//! Pages of a list, and the signed, expiring tokens that name the page before
//! and the page after.

use vstd::prelude::*;
use crate::codec::base64url::{
    base64url, base64url_bytes, decode_text, encode_text, is_base64url,
    lemma_base64url_bytes, lemma_base64url_injective,
};
use crate::codec::record::{
    borsh_message, borsh_parse, borsh_record, lemma_parse_of_record, lemma_record_len,
    lemma_record_of_parse, message_bytes, parsed_record, record_bytes,
};
use crate::error::{Error, ErrorView};
use crate::signer::{ed25519_signature, key_pair, signature_accepted, Signer, Verifier};

verus! {

/// How long a token stays good: one hour, in milliseconds.
pub const ONE_HOUR_MILLIS: u128 = 3600000;

/// The cursor that a request without a token starts from.
pub const FIRST_PAGE: i32 = 1;

/// The query parameters of a list request.
#[derive(Debug, Default)]
pub struct PageParams {
    pub page_token: Option<String>,
}

/// One page of a list, with the tokens of its neighbours where it has any.
#[derive(Debug)]
pub struct Page<T> {
    pub prev_page: Option<String>,
    pub next_page: Option<String>,
    pub data: Vec<T>,
}

impl<T> Page<T> {
    /// A page holding exactly what is given.
    pub fn new(prev_page: Option<String>, next_page: Option<String>, data: Vec<T>) -> (page: Self)
        ensures
            page.prev_page == prev_page,
            page.next_page == next_page,
            page.data == data,
    {
        Self { prev_page, next_page, data }
    }

    /// The page that lies between two cursors, with tokens issued at `ts`: a
    /// token for each cursor that names a row, and none for the others.
    pub fn between_at(signer: &Signer, prev: i32, next: i32, data: Vec<T>, ts: u128) -> (page:
        Self)
        ensures
            text_of(page.prev_page) == encoded(signer@, prev, ts),
            text_of(page.next_page) == encoded(signer@, next, ts),
            page.data == data,
    {
        let prev_page = PageToken::encode_at(signer, prev, ts);
        let next_page = PageToken::encode_at(signer, next, ts);
        Page::new(prev_page, next_page, data)
    }

    /// The page that lies between two cursors, with tokens issued now. A
    /// boundary without a row has no token.
    pub fn between(signer: &Signer, prev: i32, next: i32, data: Vec<T>) -> (page: Self)
        ensures
            page.prev_page is None <==> prev <= 0,
            page.next_page is None <==> next <= 0,
            exists|ts: u128|
                {
                    &&& text_of(page.prev_page) == #[trigger] encoded(signer@, prev, ts)
                    &&& text_of(page.next_page) == encoded(signer@, next, ts)
                },
            page.data == data,
    {
        let ts = now();
        let page = Page::between_at(signer, prev, next, data, ts);
        assert(text_of(page.prev_page) == encoded(signer@, prev, ts));
        page
    }
}

/// The message that a token's signature covers.
pub struct Msg {
    pub id: i32,
    pub ts: u128,
}

impl Msg {
    /// The 20 bytes to sign for a cursor id and a time of issue.
    pub fn bytes(id: i32, ts: u128) -> (bytes: Vec<u8>)
        ensures
            bytes@ == message_bytes(id, ts),
    {
        borsh_message(id, ts)
    }
}

/// `SystemTime::now` as milliseconds since the Unix epoch. A clock set
/// before the epoch reads as the largest duration there is.
#[verifier::external_body]
fn now() -> u128 {
    std::time::SystemTime::now()
        .duration_since(std::time::UNIX_EPOCH)
        .unwrap_or(std::time::Duration::MAX)
        .as_millis()
}

/// A cursor id, the time it was issued at, and a signature over both.
pub struct PageToken {
    pub id: i32,
    pub ts: u128,
    pub sig: Vec<u8>,
}

/// Whether a token issued at `ts` is still good at `now`: it is at most one
/// hour old.
pub open spec fn fresh(ts: u128, now: u128) -> bool {
    now - ts <= ONE_HOUR_MILLIS
}

/// The text of the token that the key in `signing_pem` issues for `id` at
/// `ts`.
pub open spec fn token_text(signing_pem: Seq<char>, id: i32, ts: u128) -> Seq<char> {
    base64url(record_bytes(id, ts, ed25519_signature(signing_pem, message_bytes(id, ts))))
}

/// What encoding `page_id` at `ts` gives: nothing for an id that names no
/// row, else the token's text.
pub open spec fn encoded(signing_pem: Seq<char>, page_id: i32, ts: u128) -> Option<Seq<char>> {
    if page_id <= 0 {
        None
    } else {
        Some(token_text(signing_pem, page_id, ts))
    }
}

/// The cursor that the record in `bytes` stands for at `now`, if the bytes
/// are a record, its signature is one of exactly `(id, ts)`, and it is fresh.
pub open spec fn record_cursor(verifying_pem: Seq<char>, bytes: Seq<u8>, now: u128) -> Option<i32> {
    match parsed_record(bytes) {
        Some((id, ts, sig)) => if signature_accepted(verifying_pem, message_bytes(id, ts), sig)
            && fresh(ts, now) {
            Some(id)
        } else {
            None
        },
        None => None,
    }
}

/// The cursor that a request's token stands for at `now`: the first page
/// where there is no token, and nothing where the token is not accepted.
pub open spec fn decoded(verifying_pem: Seq<char>, token: Option<Seq<char>>, now: u128) -> Option<
    i32,
> {
    match token {
        None => Some(FIRST_PAGE),
        Some(text) => if is_base64url(text) {
            record_cursor(verifying_pem, base64url_bytes(text), now)
        } else {
            None
        },
    }
}

/// What a check of a token comes to, given whether its signature is
/// accepted over its id and time: the signature's fault first, then the
/// age's, and none for a token that is signed and fresh.
pub open spec fn judged(accepted: bool, ts: u128, now: u128) -> Option<ErrorView> {
    if !accepted {
        Some(ErrorView::Internal { message: "signature error"@ })
    } else if !fresh(ts, now) {
        Some(ErrorView::InvalidArgs { messages: seq!["page token expired"@] })
    } else {
        None
    }
}

/// The fault that a check ended in, if it ended in one.
pub open spec fn fault_of(checked: Result<(), Error>) -> Option<ErrorView> {
    match checked {
        Ok(_) => None,
        Err(e) => Some(e@),
    }
}

/// The characters of a token that may be absent.
pub open spec fn text_of(token: Option<String>) -> Option<Seq<char>> {
    match token {
        Some(s) => Some(s@),
        None => None,
    }
}

/// The one error that every rejected token gives, whatever was wrong with it.
pub open spec fn token_rejected() -> ErrorView {
    ErrorView::InvalidArgs { messages: seq!["invalid/expired page token"@] }
}

impl PageToken {
    /// The token for `id` issued at `ts`, signed by `signer`.
    pub fn new_at(signer: &Signer, id: i32, ts: u128) -> (token: PageToken)
        ensures
            token.id == id,
            token.ts == ts,
            token.sig@ == ed25519_signature(signer@, message_bytes(id, ts)),
            token.sig@.len() == 64,
    {
        let msg = Msg::bytes(id, ts);
        let sig = signer.sign(msg.as_slice()).unwrap();
        PageToken { id, ts, sig }
    }

    /// The token for `id` issued now, signed by `signer`.
    pub fn new(signer: &Signer, id: i32) -> (token: PageToken)
        ensures
            token.id == id,
            token.sig@ == ed25519_signature(signer@, message_bytes(id, token.ts)),
            token.sig@.len() == 64,
    {
        PageToken::new_at(signer, id, now())
    }

    /// The token's binary record.
    pub fn to_bytes(&self) -> (bytes: Vec<u8>)
        ensures
            self.sig@.len() <= u32::MAX ==> bytes@ == record_bytes(self.id, self.ts, self.sig@),
            self.sig@.len() > u32::MAX ==> bytes@.len() == 0,
    {
        borsh_record(self.id, self.ts, &self.sig)
    }

    /// The token that `bytes` are the record of, if they are one.
    pub fn from_bytes(bytes: &[u8]) -> (token: Option<PageToken>)
        ensures
            match token {
                Some(t) => parsed_record(bytes@) == Some((t.id, t.ts, t.sig@)),
                None => parsed_record(bytes@) is None,
            },
    {
        match borsh_parse(bytes) {
            Some((id, ts, sig)) => Some(PageToken { id, ts, sig }),
            None => None,
        }
    }

    /// Settles a check at `now`, given what the verifier said of the
    /// signature: its error stands as it is, and a token that it passed is
    /// good if it is at most an hour old.
    pub fn judge(&self, signed: Result<(), Error>, now: u128) -> (checked: Result<(), Error>)
        ensures
            match signed {
                Err(e) => checked is Err && checked->Err_0 == e,
                Ok(_) => fault_of(checked) == judged(true, self.ts, now),
            },
    {
        match signed {
            Ok(_) => {},
            Err(e) => {
                return Err(e);
            },
        }
        if now > self.ts && now - self.ts > ONE_HOUR_MILLIS {
            return Err(Error::invalid_args("page token expired"));
        }
        Ok(())
    }

    /// Checks the token at `now`: first the signature over exactly its id and
    /// time, then its age.
    pub fn verify_at(&self, verifier: &Verifier, now: u128) -> (checked: Result<(), Error>)
        ensures
            fault_of(checked) == judged(
                signature_accepted(verifier@, message_bytes(self.id, self.ts), self.sig@),
                self.ts,
                now,
            ),
    {
        let msg = Msg::bytes(self.id, self.ts);
        let signed = verifier.verify(msg.as_slice(), self.sig.as_slice());
        self.judge(signed, now)
    }

    /// Checks the token against the clock as it stands: the outcome is that
    /// of a check at some reading of the clock. A token whose signature does
    /// not cover its id and time fails whatever the hour.
    pub fn verify(&self, verifier: &Verifier) -> (checked: Result<(), Error>)
        ensures
            exists|now: u128|
                fault_of(checked) == #[trigger] judged(
                    signature_accepted(verifier@, message_bytes(self.id, self.ts), self.sig@),
                    self.ts,
                    now,
                ),
            !signature_accepted(verifier@, message_bytes(self.id, self.ts), self.sig@)
                ==> fault_of(checked) == Some(
                ErrorView::Internal { message: "signature error"@ },
            ),
    {
        let at = now();
        let checked = self.verify_at(verifier, at);
        assert(fault_of(checked) == judged(
            signature_accepted(verifier@, message_bytes(self.id, self.ts), self.sig@),
            self.ts,
            at,
        ));
        checked
    }

    /// The token text for `page_id` issued at `ts`, or nothing for an id that
    /// names no row: there is no further page in that direction.
    pub fn encode_at(signer: &Signer, page_id: i32, ts: u128) -> (token: Option<String>)
        ensures
            text_of(token) == encoded(signer@, page_id, ts),
    {
        if page_id <= 0 {
            return None;
        }
        let token = PageToken::new_at(signer, page_id, ts);
        let bytes = token.to_bytes();
        proof {
            lemma_record_len(page_id, ts, token.sig@);
        }
        Some(encode_text(bytes.as_slice()))
    }

    /// The token text for `page_id` issued now, or nothing for an id that
    /// names no row.
    pub fn encode(signer: &Signer, page_id: i32) -> (token: Option<String>)
        ensures
            token is None <==> page_id <= 0,
            token is Some ==> exists|ts: u128| text_of(token) == encoded(signer@, page_id, ts),
    {
        let ts = now();
        let token = PageToken::encode_at(signer, page_id, ts);
        assert(text_of(token) == encoded(signer@, page_id, ts));
        token
    }

    /// The cursor that `token` stands for at `now`. No token means the first
    /// page. A token is taken only if it is base64 text of a record whose
    /// signature covers exactly its id and time and which is at most an hour
    /// old; every other token gives the same error.
    pub fn decode_at(verifier: &Verifier, token: Option<String>, now: u128) -> (cursor: Result<
        i32,
        Error,
    >)
        ensures
            match decoded(verifier@, text_of(token), now) {
                Some(id) => cursor == Ok::<i32, Error>(id),
                None => cursor is Err && cursor->Err_0@ == token_rejected(),
            },
    {
        let text = match token {
            None => {
                return Ok(FIRST_PAGE);
            },
            Some(text) => text,
        };
        let bytes = match decode_text(text.as_str()) {
            Some(bytes) => bytes,
            None => {
                return Err(Error::invalid_args("invalid/expired page token"));
            },
        };
        proof {
            lemma_base64url_injective(base64url_bytes(text@), bytes@);
        }
        let page_token = match PageToken::from_bytes(bytes.as_slice()) {
            Some(page_token) => page_token,
            None => {
                return Err(Error::invalid_args("invalid/expired page token"));
            },
        };
        match page_token.verify_at(verifier, now) {
            Ok(_) => Ok(page_token.id),
            Err(_) => Err(Error::invalid_args("invalid/expired page token")),
        }
    }

    /// The cursor that `token` stands for now. No token means the first
    /// page, whatever the hour; a token that would be rejected at every hour
    /// is rejected.
    pub fn decode(verifier: &Verifier, token: Option<String>) -> (cursor: Result<i32, Error>)
        ensures
            token is None ==> cursor == Ok::<i32, Error>(FIRST_PAGE),
            exists|now: u128|
                match #[trigger] decoded(verifier@, text_of(token), now) {
                    Some(id) => cursor == Ok::<i32, Error>(id),
                    None => cursor is Err && cursor->Err_0@ == token_rejected(),
                },
    {
        let at = now();
        let ghost text = text_of(token);
        let cursor = PageToken::decode_at(verifier, token, at);
        assert(match decoded(verifier@, text, at) {
            Some(id) => cursor == Ok::<i32, Error>(id),
            None => cursor is Err && cursor->Err_0@ == token_rejected(),
        });
        cursor
    }
}

/// A token comes back as the cursor it was made for: decoding what was
/// encoded for a positive id gives that id, so long as the two keys are a
/// pair and no more than an hour has passed.
pub proof fn lemma_round_trip(
    signing_pem: Seq<char>,
    verifying_pem: Seq<char>,
    page_id: i32,
    ts: u128,
    now: u128,
)
    requires
        page_id > 0,
        key_pair(signing_pem, verifying_pem),
        fresh(ts, now),
    ensures
        decoded(verifying_pem, encoded(signing_pem, page_id, ts), now) == Some(page_id),
{
    let msg = message_bytes(page_id, ts);
    let sig = ed25519_signature(signing_pem, msg);
    assert(signature_accepted(verifying_pem, msg, sig));
    lemma_parse_of_record(page_id, ts, sig);
    lemma_base64url_bytes(record_bytes(page_id, ts, sig));
}

/// An id that names no row has no token.
pub proof fn lemma_non_positive_has_no_token(signing_pem: Seq<char>, page_id: i32, ts: u128)
    requires
        page_id <= 0,
    ensures
        encoded(signing_pem, page_id, ts) is None,
{
}

/// No token at all stands for the first page, at any hour and under any key.
pub proof fn lemma_absent_is_first_page(verifying_pem: Seq<char>, now: u128)
    ensures
        decoded(verifying_pem, None, now) == Some(1i32),
{
}

/// Whatever is accepted was signed: a text that decodes to a cursor is the
/// text of a record for that cursor whose signature covers the record's id
/// and time, and which is fresh. A text altered anywhere is either the text
/// of no record, or of another record, which needs a signature of its own.
pub proof fn lemma_accepted_is_signed(
    verifying_pem: Seq<char>,
    text: Seq<char>,
    now: u128,
    id: i32,
)
    requires
        decoded(verifying_pem, Some(text), now) == Some(id),
    ensures
        exists|ts: u128, sig: Seq<u8>|
            {
                &&& text == base64url(#[trigger] record_bytes(id, ts, sig))
                &&& signature_accepted(verifying_pem, message_bytes(id, ts), sig)
                &&& fresh(ts, now)
            },
{
    let bytes = base64url_bytes(text);
    assert(base64url(bytes) == text);
    lemma_record_of_parse(bytes);
    let (pid, ts, sig) = parsed_record(bytes)->0;
    assert(text == base64url(record_bytes(id, ts, sig)));
}

/// Every character of a token counts: a text other than the one of a given
/// record, if it is accepted at all, holds another record, which had to pass
/// for its own id, time and signature.
pub proof fn lemma_altered_text_is_another_record(
    verifying_pem: Seq<char>,
    text: Seq<char>,
    now: u128,
    id: i32,
    ts: u128,
    sig: Seq<u8>,
)
    requires
        text != base64url(record_bytes(id, ts, sig)),
        decoded(verifying_pem, Some(text), now) is Some,
    ensures
        parsed_record(base64url_bytes(text)) is Some,
        parsed_record(base64url_bytes(text)) != Some((id, ts, sig)),
{
    let bytes = base64url_bytes(text);
    assert(base64url(bytes) == text);
    lemma_record_of_parse(bytes);
}

/// A text is rejected if it is no base64 text, or holds no record, or holds
/// one whose signature is not accepted over the record's own id and time:
/// whatever was altered in a token, and however, one of the three catches it
/// unless the altered signature passes for the altered record.
pub proof fn lemma_unsigned_text_rejected(verifying_pem: Seq<char>, text: Seq<char>, now: u128)
    requires
        !is_base64url(text) || (match parsed_record(base64url_bytes(text)) {
            Some((id, ts, sig)) => !signature_accepted(verifying_pem, message_bytes(id, ts), sig),
            None => true,
        }),
    ensures
        decoded(verifying_pem, Some(text), now) is None,
{
}

/// A record whose signature has bytes dropped or appended is rejected: a
/// signature has 64 bytes.
pub proof fn lemma_resized_signature_rejected(
    verifying_pem: Seq<char>,
    id: i32,
    ts: u128,
    sig: Seq<u8>,
    now: u128,
)
    requires
        sig.len() != 64,
        sig.len() <= u32::MAX,
    ensures
        decoded(verifying_pem, Some(base64url(record_bytes(id, ts, sig))), now) is None,
{
    lemma_bad_signature_rejected(verifying_pem, id, ts, sig, now);
}

/// A record whose signature does not cover its id and time is rejected,
/// however fresh it is.
pub proof fn lemma_bad_signature_rejected(
    verifying_pem: Seq<char>,
    id: i32,
    ts: u128,
    sig: Seq<u8>,
    now: u128,
)
    requires
        sig.len() <= u32::MAX,
        !signature_accepted(verifying_pem, message_bytes(id, ts), sig),
    ensures
        decoded(verifying_pem, Some(base64url(record_bytes(id, ts, sig))), now) is None,
{
    lemma_parse_of_record(id, ts, sig);
    lemma_base64url_bytes(record_bytes(id, ts, sig));
}

/// A record issued more than an hour ago is rejected, however well signed.
pub proof fn lemma_expired_rejected(
    verifying_pem: Seq<char>,
    id: i32,
    ts: u128,
    sig: Seq<u8>,
    now: u128,
)
    requires
        sig.len() <= u32::MAX,
        now - ts > ONE_HOUR_MILLIS,
    ensures
        decoded(verifying_pem, Some(base64url(record_bytes(id, ts, sig))), now) is None,
{
    lemma_parse_of_record(id, ts, sig);
    lemma_base64url_bytes(record_bytes(id, ts, sig));
}

} // verus!
