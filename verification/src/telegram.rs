//! The requests of a Telegram bot that sends messages to one chat.
//!
//! The address of each request is computed here; the application posts it
//! with the agent that the bot carries.

use vstd::prelude::*;
use vstd::string::*;

verus! {

/// Whether a byte stands for itself in an encoded text: the alphanumerics
/// and `-`, `.`, `_`, `~`.
pub open spec fn is_unreserved(byte: u8) -> bool {
    ||| 0x30 <= byte <= 0x39
    ||| 0x41 <= byte <= 0x5a
    ||| 0x61 <= byte <= 0x7a
    ||| byte == 0x2d
    ||| byte == 0x2e
    ||| byte == 0x5f
    ||| byte == 0x7e
}

/// Whether a character stands for itself in an encoded text.
pub open spec fn is_unreserved_char(c: char) -> bool {
    '\0' <= c <= '\u{7f}' && is_unreserved(c as u8)
}

/// The upper-case hexadecimal digit for a value below sixteen.
pub open spec fn hex_digit(value: u8) -> char {
    if value < 10 {
        (0x30 + value) as char
    } else {
        (0x41 + value - 10) as char
    }
}

/// One byte, percent-encoded: itself, or `%` and its two hexadecimal
/// digits.
pub open spec fn encoded_byte(byte: u8) -> Seq<char> {
    if is_unreserved(byte) {
        seq![byte as char]
    } else {
        seq!['%', hex_digit(byte / 16), hex_digit(byte % 16)]
    }
}

/// A sequence of bytes, percent-encoded byte by byte.
pub open spec fn percent_encoded(bytes: Seq<u8>) -> Seq<char>
    decreases bytes.len(),
{
    if bytes.len() == 0 {
        Seq::empty()
    } else {
        percent_encoded(bytes.drop_last()) + encoded_byte(bytes.last())
    }
}

/// The address that messages are appended to.
pub open spec fn url_base(token: Seq<char>, chat_id: Seq<char>) -> Seq<char> {
    "https://api.telegram.org/bot"@ + token + "/sendMessage?chat_id="@ + chat_id + "&text="@
}

/// `urlencoding::encode` percent-encodes every byte of the text's UTF-8
/// form except alphanumerics and `-`, `_`, `.`, `~`, with upper-case
/// hexadecimal digits. The contract says so byte by byte; the body turns
/// what comes back into an owned string.
#[verifier::external_body]
fn encode(text: &str) -> (r: String)
    ensures
        r@ == percent_encoded(text.spec_bytes()),
{
    urlencoding::encode(text).into_owned()
}

/// A bot that sends messages to one chat through the agent `C`.
pub struct Telegram<C> {
    client: C,
    url_base: String,
}

impl<C> Telegram<C> {
    /// The agent that posts the requests.
    pub closed spec fn agent(&self) -> C {
        self.client
    }

    /// The address that messages are appended to.
    pub closed spec fn base(&self) -> Seq<char> {
        self.url_base@
    }

    /// Create a new `Telegram` instance with an already existing agent
    pub fn with_agent(token: &str, chat_id: &str, client: C) -> (r: Self)
        ensures
            r.base() == url_base(token@, chat_id@),
            r.agent() == client,
    {
        let mut url_base = String::from_str("https://api.telegram.org/bot");
        url_base.append(token);
        url_base.append("/sendMessage?chat_id=");
        url_base.append(chat_id);
        url_base.append("&text=");
        Self { client, url_base }
    }

    /// The agent that posts the requests.
    pub fn client(&self) -> (r: &C)
        ensures
            *r == self.agent(),
    {
        &self.client
    }

    /// The address of the request that sends `text`: the text is URL
    /// encoded to allow for special characters.
    pub fn message_url(&self, text: &str) -> (r: String)
        ensures
            r@ == self.base() + percent_encoded(text.spec_bytes()),
    {
        let encoded_msg = encode(text);
        let mut url = self.url_base.clone();
        url.append(encoded_msg.as_str());
        url
    }
}

/// A text is encoded byte by byte: the encoding of two texts in a row is
/// the two encodings in a row.
pub proof fn lemma_percent_encoded_concat(first: Seq<u8>, second: Seq<u8>)
    ensures
        percent_encoded(first + second) == percent_encoded(first) + percent_encoded(second),
    decreases second.len(),
{
    if second.len() == 0 {
        assert(first + second =~= first);
    } else {
        lemma_percent_encoded_concat(first, second.drop_last());
        assert((first + second).drop_last() =~= first + second.drop_last());
    }
}

/// Unreserved bytes alone are their own encoding.
pub proof fn lemma_unreserved_bytes_are_unchanged(bytes: Seq<u8>)
    requires
        forall|i: int| 0 <= i < bytes.len() ==> is_unreserved(#[trigger] bytes[i]),
    ensures
        percent_encoded(bytes) == Seq::new(bytes.len(), |i: int| bytes[i] as char),
    decreases bytes.len(),
{
    if bytes.len() > 0 {
        lemma_unreserved_bytes_are_unchanged(bytes.drop_last());
        assert(percent_encoded(bytes) =~= Seq::new(bytes.len(), |i: int| bytes[i] as char));
    }
}

/// A text of alphanumerics and `-`, `.`, `_`, `~` alone is sent as it is.
pub proof fn lemma_unreserved_text_is_unchanged(text: Seq<char>)
    requires
        forall|i: int| 0 <= i < text.len() ==> is_unreserved_char(#[trigger] text[i]),
    ensures
        percent_encoded(vstd::utf8::encode_utf8(text)) == text,
{
    let bytes = vstd::utf8::encode_utf8(text);
    assert forall|i: int| 0 <= i < text.len() implies '\0' <= #[trigger] text[i] <= '\u{7f}' by {
        assert(is_unreserved_char(text[i]));
    }
    vstd::utf8::is_ascii_chars_encode_utf8(text);
    assert forall|i: int| 0 <= i < bytes.len() implies is_unreserved(#[trigger] bytes[i]) by {
        assert(is_unreserved_char(text[i]));
        assert(text[i] as u8 == bytes[i]);
    }
    lemma_unreserved_bytes_are_unchanged(bytes);
    assert forall|i: int| 0 <= i < text.len() implies bytes[i] as char == text[i] by {
        assert(is_unreserved_char(text[i]));
        assert(text[i] as u8 == bytes[i]);
    }
    assert(percent_encoded(bytes) =~= text);
}

} // verus!
