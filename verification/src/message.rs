//! A parsed message as the rules see it: its headers, name and value in the order
//! of the message, and its decoded body text.
//!
//! The `mailparse` crate does the parsing. What is proved here is the lookup of a
//! header by its name.

use vstd::prelude::*;
use vstd::slice::slice_index_get;
use vstd::utf8::encode_utf8;

verus! {

/// What the rules read of a message.
#[derive(Clone, Debug)]
pub struct MessageView {
    /// Name and decoded value of each header, in the order of the message.
    pub headers: Vec<(String, String)>,
    /// The decoded body text. `None` where the body could not be decoded.
    pub body: Option<String>,
}

/// The mathematical value of a [`MessageView`].
pub ghost struct MessageModel {
    pub headers: Seq<(Seq<char>, Seq<char>)>,
    pub body: Option<Seq<char>>,
}

impl View for MessageView {
    type V = MessageModel;

    open spec fn view(&self) -> MessageModel {
        MessageModel { headers: self.headers.deep_view(), body: self.body.deep_view() }
    }
}

/// A byte with an upper-case ASCII letter replaced by its lower-case form.
pub open spec fn fold_case(b: u8) -> u8 {
    if 0x41 <= b <= 0x5a {
        (b + 0x20) as u8
    } else {
        b
    }
}

/// Header names are compared without regard to the case of ASCII letters, byte
/// by byte over their UTF-8 encodings.
pub open spec fn same_name(a: Seq<char>, b: Seq<char>) -> bool {
    let x = encode_utf8(a);
    let y = encode_utf8(b);
    x.len() == y.len() && forall|i: int| 0 <= i < x.len() ==> fold_case(x[i]) == fold_case(y[i])
}

/// Agreement of header names is an equivalence: every name agrees with itself,
/// agreement does not depend on the side, and it carries over a common name.
pub proof fn same_name_is_an_equivalence(a: Seq<char>, b: Seq<char>, c: Seq<char>)
    ensures
        same_name(a, a),
        same_name(a, b) == same_name(b, a),
        same_name(a, b) && same_name(b, c) ==> same_name(a, c),
{
}

/// Whether the header at `i` is the first one with the name `name`.
pub open spec fn is_first_named(
    headers: Seq<(Seq<char>, Seq<char>)>,
    name: Seq<char>,
    i: int,
) -> bool {
    &&& 0 <= i < headers.len()
    &&& same_name(headers[i].0, name)
    &&& forall|j: int| 0 <= j < i ==> !same_name(#[trigger] headers[j].0, name)
}

/// The value of the first header with the name `name`, if there is one.
pub open spec fn first_value(headers: Seq<(Seq<char>, Seq<char>)>, name: Seq<char>) -> Option<
    Seq<char>,
> {
    if exists|i: int| is_first_named(headers, name, i) {
        Some(headers[choose|i: int| is_first_named(headers, name, i)].1)
    } else {
        None
    }
}

/// At most one header is the first with a given name.
pub proof fn first_named_is_unique(
    headers: Seq<(Seq<char>, Seq<char>)>,
    name: Seq<char>,
    i: int,
    j: int,
)
    requires
        is_first_named(headers, name, i),
        is_first_named(headers, name, j),
    ensures
        i == j,
{
}

/// Where some header has the name, the first such header gives the value.
pub proof fn first_value_found(headers: Seq<(Seq<char>, Seq<char>)>, name: Seq<char>, i: int)
    requires
        is_first_named(headers, name, i),
    ensures
        first_value(headers, name) == Some(headers[i].1),
{
    let k = choose|k: int| is_first_named(headers, name, k);
    first_named_is_unique(headers, name, i, k);
}

/// Where no header has the name, there is no value.
pub proof fn first_value_missing(headers: Seq<(Seq<char>, Seq<char>)>, name: Seq<char>)
    requires
        forall|j: int| 0 <= j < headers.len() ==> !same_name(#[trigger] headers[j].0, name),
    ensures
        first_value(headers, name) is None,
{
}

fn fold_byte(b: u8) -> (r: u8)
    ensures
        r == fold_case(b),
{
    if 0x41 <= b && b <= 0x5a {
        b + 0x20
    } else {
        b
    }
}

/// Compares two header names without regard to the case of ASCII letters.
pub fn names_agree(a: &str, b: &str) -> (agree: bool)
    ensures
        agree == same_name(a@, b@),
{
    let x = a.as_bytes();
    let y = b.as_bytes();
    if x.len() != y.len() {
        return false;
    }
    let mut i: usize = 0;
    while i < x.len()
        invariant
            i <= x.len(),
            x.len() == y.len(),
            x@ == encode_utf8(a@),
            y@ == encode_utf8(b@),
            forall|j: int| 0 <= j < i ==> fold_case(x@[j]) == fold_case(y@[j]),
        decreases x.len() - i,
    {
        if fold_byte(*slice_index_get(x, i)) != fold_byte(*slice_index_get(y, i)) {
            return false;
        }
        i += 1;
    }
    true
}

impl MessageView {
    /// The value of the first header whose name is `name`, without regard to the
    /// case of ASCII letters.
    pub fn first_value(&self, name: &str) -> (value: Option<&String>)
        ensures
            value.deep_view() == first_value(self@.headers, name@),
    {
        let mut i: usize = 0;
        while i < self.headers.len()
            invariant
                i <= self.headers.len(),
                forall|j: int| 0 <= j < i ==> !same_name(#[trigger] self@.headers[j].0, name@),
            decreases self.headers.len() - i,
        {
            if names_agree(self.headers[i].0.as_str(), name) {
                proof {
                    first_value_found(self@.headers, name@, i as int);
                }
                return Some(&self.headers[i].1);
            }
            i += 1;
        }
        proof {
            first_value_missing(self@.headers, name@);
        }
        None
    }

    /// Parses a raw message. `None` where the bytes are no message.
    pub fn parse(raw: &[u8]) -> (message: Option<MessageView>)
        ensures
            message.deep_view() == parsed_message(raw@),
    {
        match parse_mail(raw) {
            Ok(message) => Some(message),
            Err(_) => None,
        }
    }
}

impl DeepView for MessageView {
    type V = MessageModel;

    open spec fn deep_view(&self) -> MessageModel {
        self@
    }
}

/// `mailparse::MailParseError`, what bytes that are no message give. It is only
/// told apart from success.
#[verifier::external_type_specification]
#[verifier::external_body]
pub struct ExMailParseError(mailparse::MailParseError);

/// What `mailparse::parse_mail` makes of a raw message: nothing where the bytes
/// are no message, else the name and value of each header as `get_key` and
/// `get_value` give them, and the body text as `get_body` gives it.
pub uninterp spec fn parsed_message(raw: Seq<u8>) -> Option<MessageModel>;

/// Calls `mailparse::parse_mail` and reads the top-level headers and the body
/// out of what it returns. Trusted: the outcome depends on the bytes alone.
#[verifier::external_body]
fn parse_mail(raw: &[u8]) -> (r: Result<MessageView, mailparse::MailParseError>)
    ensures
        match r {
            Ok(message) => parsed_message(raw@) == Some(message@),
            Err(_) => parsed_message(raw@) is None,
        },
{
    let mail = mailparse::parse_mail(raw)?;
    Ok(
        MessageView {
            headers: mail.get_headers().into_iter().map(|h| (h.get_key(), h.get_value())).collect(),
            body: mail.get_body().ok(),
        },
    )
}

} // verus!
