use vstd::prelude::*;

verus! {

/// An Ethereum account or contract address: twenty bytes.
#[derive(Clone, Copy, Debug, PartialEq, Eq)]
pub struct EthAddress {
    pub bytes: [u8; 20],
}

impl View for EthAddress {
    type V = Seq<u8>;

    open spec fn view(&self) -> Seq<u8> {
        self.bytes@
    }
}

/// The value of a hexadecimal digit of either case.
pub open spec fn hex_value(c: char) -> Option<nat> {
    if '0' <= c <= '9' {
        Some((c as nat - '0' as nat) as nat)
    } else if 'a' <= c <= 'f' {
        Some((c as nat - 'a' as nat + 10) as nat)
    } else if 'A' <= c <= 'F' {
        Some((c as nat - 'A' as nat + 10) as nat)
    } else {
        None
    }
}

/// The characters that may stand anywhere between the digits of an address.
pub open spec fn is_hex_space(c: char) -> bool {
    c == ' ' || c == '\t' || c == '\r' || c == '\n'
}

/// What is left of `text` without a leading `0x`.
pub open spec fn address_body(text: Seq<char>) -> Seq<char> {
    if text.len() >= 2 && text[0] == '0' && text[1] == 'x' {
        text.skip(2)
    } else {
        text
    }
}

/// What is left of a text without blanks.
pub open spec fn without_blanks(text: Seq<char>) -> Seq<char> {
    text.filter(|c: char| !is_hex_space(c))
}

/// What is left of `text` without a leading `0x` and without blanks.
pub open spec fn address_digits(text: Seq<char>) -> Seq<char> {
    without_blanks(address_body(text))
}

/// Whether `text` writes an address: forty hexadecimal digits.
pub open spec fn is_address_text(text: Seq<char>) -> bool {
    let digits = address_digits(text);
    &&& digits.len() == 40
    &&& forall|i: int| 0 <= i < 40 ==> hex_value(#[trigger] digits[i]) is Some
}

/// The bytes that an address text writes: two digits each, the high one first.
pub open spec fn address_bytes(text: Seq<char>) -> Seq<u8> {
    let digits = address_digits(text);
    Seq::new(
        20,
        |i: int| (16 * hex_value(digits[2 * i])->0 + hex_value(digits[2 * i + 1])->0) as u8,
    )
}

/// The position of the first character from `from` on that is neither a hexadecimal digit nor a
/// blank; the length of the text if there is none.
pub open spec fn first_stray(text: Seq<char>, from: int) -> int
    decreases text.len() - from,
{
    if from >= text.len() {
        text.len() as int
    } else if hex_value(text[from]) is None && !is_hex_space(text[from]) {
        from
    } else {
        first_stray(text, from + 1)
    }
}

/// The message with which a text is turned down that is no address. A stray character is named,
/// with its position behind the prefix, if fewer than forty digits precede it; otherwise the
/// length is wrong.
pub open spec fn address_error(text: Seq<char>) -> Seq<char> {
    let body = address_body(text);
    let stray = first_stray(body, 0);
    if stray < body.len() && without_blanks(body.take(stray)).len() < 40 {
        "Invalid character '"@.push(body[stray]) + "' at position "@ + crate::decimal::decimal(
            stray as nat,
        )
    } else {
        "Invalid input length"@
    }
}

impl EthAddress {
    /// Reads an address, or says why the text is none.
    pub fn parse(text: &str) -> (parsed: Result<EthAddress, String>)
        ensures
            parsed is Ok <==> is_address_text(text@),
            parsed matches Ok(address) ==> address@ == address_bytes(text@),
            parsed matches Err(message) ==> message@ == address_error(text@),
    {
        match address_from_str(text) {
            Ok(bytes) => Ok(EthAddress { bytes }),
            Err(message) => Err(message),
        }
    }
}

/// `ethers::types::Address::from_str`. It drops one leading `0x`, passes over blanks, tabs and
/// line ends, and takes exactly forty hexadecimal digits, two for a byte. Of any other text it
/// returns an error, whose message names the character at which it stopped, with the position of
/// that character, or says that the length is wrong. It stops at the first character that is
/// neither digit nor blank, unless it had its forty digits before.
#[verifier::external_body]
fn address_from_str(text: &str) -> (parsed: Result<[u8; 20], String>)
    ensures
        parsed is Ok <==> is_address_text(text@),
        parsed matches Ok(bytes) ==> bytes@ == address_bytes(text@),
        parsed matches Err(message) ==> message@ == address_error(text@),
{
    match <ethers::types::Address as std::str::FromStr>::from_str(text) {
        Ok(address) => Ok(address.0),
        Err(error) => Err(error.to_string()),
    }
}

/// The sixteen digits of either case are worth what their place among the digits says, and none
/// of them is a blank.
proof fn lemma_digits(v: int)
    requires
        0 <= v < 16,
    ensures
        hex_value("0123456789abcdef"@[v]) == Some(v as nat),
        hex_value("0123456789ABCDEF"@[v]) == Some(v as nat),
{
    reveal_strlit("0123456789abcdef");
    reveal_strlit("0123456789ABCDEF");
}

/// What is left of a text once its prefix is off, and what its digits are.
proof fn lemma_body(text: Seq<char>, body: Seq<char>)
    requires
        text == "0x"@ + body || (text == body && !(body.len() >= 2 && body[0] == '0' && body[1]
            == 'x')),
    ensures
        address_body(text) == body,
        without_blanks(body) == body.filter(
            |c: char| c != ' ' && c != '\t' && c != '\r' && c != '\n',
        ),
{
    reveal_strlit("0x");
    if text == "0x"@ + body {
        assert(text.skip(2) =~= body);
    }
    let nonblank = |c: char| c != ' ' && c != '\t' && c != '\r' && c != '\n';
    assert(nonblank =~= (|c: char| !is_hex_space(c)));
}

/// Where `a` holds digits and blanks only, a stray character is found no earlier than behind it.
proof fn lemma_first_stray(a: Seq<char>, rest: Seq<char>, from: int)
    requires
        0 <= from <= a.len(),
        forall|i: int|
            0 <= i < a.len() ==> hex_value(#[trigger] a[i]) is Some || is_hex_space(a[i]),
    ensures
        first_stray(a + rest, from) == first_stray(a + rest, a.len() as int),
    decreases a.len() - from,
{
    if from < a.len() {
        assert((a + rest)[from] == a[from]);
        lemma_first_stray(a, rest, from + 1);
    }
}

/// An address that is written in hexadecimal, two digits of either case for a byte, the high one
/// first, is read back, with or without `0x` before it and whatever blanks stand between the
/// digits.
pub proof fn law_written_addresses_are_read_back(
    text: &str,
    body: Seq<char>,
    bytes: Seq<u8>,
    parsed: Result<EthAddress, String>,
)
    requires
        text@ == "0x"@ + body || (text@ == body && !(body.len() >= 2 && body[0] == '0' && body[1]
            == 'x')),
        bytes.len() == 20,
        ({
            let digits = body.filter(|c: char| c != ' ' && c != '\t' && c != '\r' && c != '\n');
            &&& digits.len() == 40
            &&& forall|i: int|
                0 <= i < 20 ==> {
                    let high = (#[trigger] bytes[i] / 16) as int;
                    let low = (bytes[i] % 16) as int;
                    &&& digits[2 * i] == "0123456789abcdef"@[high] || digits[2 * i]
                        == "0123456789ABCDEF"@[high]
                    &&& digits[2 * i + 1] == "0123456789abcdef"@[low] || digits[2 * i + 1]
                        == "0123456789ABCDEF"@[low]
                }
        }),
        call_ensures(EthAddress::parse, (text,), parsed),
    ensures
        parsed is Ok,
        parsed->Ok_0.bytes@ == bytes,
{
    lemma_body(text@, body);
    let digits = address_digits(text@);
    assert forall|i: int| 0 <= i < 20 implies {
        &&& hex_value(#[trigger] digits[2 * i]) == Some((bytes[i] / 16) as nat)
        &&& hex_value(digits[2 * i + 1]) == Some((bytes[i] % 16) as nat)
    } by {
        lemma_digits((bytes[i] / 16) as int);
        lemma_digits((bytes[i] % 16) as int);
    }
    assert forall|i: int| 0 <= i < 40 implies hex_value(#[trigger] digits[i]) is Some by {
        assert(hex_value(digits[2 * (i / 2)]) is Some);
        assert(i == 2 * (i / 2) || i == 2 * (i / 2) + 1);
    }
    assert(address_bytes(text@) =~= bytes) by {
        assert forall|i: int| 0 <= i < 20 implies address_bytes(text@)[i] == bytes[i] by {
            assert(hex_value(digits[2 * i]) == Some((bytes[i] / 16) as nat));
        }
    }
}

/// What is read as an address is forty hexadecimal digits.
pub proof fn law_only_forty_digits_are_an_address(
    text: &str,
    body: Seq<char>,
    parsed: Result<EthAddress, String>,
)
    requires
        text@ == "0x"@ + body || (text@ == body && !(body.len() >= 2 && body[0] == '0' && body[1]
            == 'x')),
        call_ensures(EthAddress::parse, (text,), parsed),
        parsed is Ok,
    ensures
        ({
            let digits = body.filter(|c: char| c != ' ' && c != '\t' && c != '\r' && c != '\n');
            &&& digits.len() == 40
            &&& forall|i: int|
                0 <= i < 40 ==> '0' <= #[trigger] digits[i] <= '9' || 'a' <= digits[i] <= 'f' || 'A'
                    <= digits[i] <= 'F'
        }),
{
    lemma_body(text@, body);
}

/// A text with a character that is neither digit nor blank behind fewer than forty digits is no
/// address, and the message names the first such character and how many characters precede it.
pub proof fn law_stray_characters_are_named(
    text: &str,
    a: Seq<char>,
    c: char,
    rest: Seq<char>,
    parsed: Result<EthAddress, String>,
)
    requires
        ({
            let body = a + seq![c] + rest;
            text@ == "0x"@ + body || (text@ == body && !(body.len() >= 2 && body[0] == '0'
                && body[1] == 'x'))
        }),
        forall|i: int|
            0 <= i < a.len() ==> '0' <= #[trigger] a[i] <= '9' || 'a' <= a[i] <= 'f' || 'A' <= a[i]
                <= 'F' || a[i] == ' ' || a[i] == '\t' || a[i] == '\r' || a[i] == '\n',
        a.filter(|c: char| c != ' ' && c != '\t' && c != '\r' && c != '\n').len() < 40,
        !('0' <= c <= '9' || 'a' <= c <= 'f' || 'A' <= c <= 'F' || c == ' ' || c == '\t' || c
            == '\r' || c == '\n'),
        call_ensures(EthAddress::parse, (text,), parsed),
    ensures
        parsed is Err,
        parsed->Err_0@ == "Invalid character '"@ + seq![c] + "' at position "@
            + crate::decimal::decimal(a.len()),
{
    let body = a + seq![c] + rest;
    let nonblank = |c: char| c != ' ' && c != '\t' && c != '\r' && c != '\n';
    lemma_body(text@, body);
    assert(body =~= a + (seq![c] + rest));
    lemma_first_stray(a, seq![c] + rest, 0);
    assert(body[a.len() as int] == c);
    assert(body.take(a.len() as int) =~= a);
    assert(nonblank =~= (|c: char| !is_hex_space(c)));
    body.lemma_filter_contains(nonblank, a.len() as int);
    let digits = address_digits(text@);
    assert(digits.contains(c));
    assert("Invalid character '"@.push(c) =~= "Invalid character '"@ + seq![c]);
}

/// A text of digits and blanks with another number of digits than forty is no address, nor is one
/// with anything but blanks behind forty digits; the message then speaks of the length.
pub proof fn law_wrong_lengths_are_told(
    text: &str,
    a: Seq<char>,
    rest: Seq<char>,
    parsed: Result<EthAddress, String>,
)
    requires
        ({
            let body = a + rest;
            text@ == "0x"@ + body || (text@ == body && !(body.len() >= 2 && body[0] == '0'
                && body[1] == 'x'))
        }),
        forall|i: int|
            0 <= i < a.len() ==> '0' <= #[trigger] a[i] <= '9' || 'a' <= a[i] <= 'f' || 'A' <= a[i]
                <= 'F' || a[i] == ' ' || a[i] == '\t' || a[i] == '\r' || a[i] == '\n',
        ({
            let digits = a.filter(|c: char| c != ' ' && c != '\t' && c != '\r' && c != '\n');
            ||| rest.len() == 0 && digits.len() != 40
            ||| rest.len() > 0 && digits.len() >= 40 && !('0' <= rest[0] <= '9' || 'a' <= rest[0]
                <= 'f' || 'A' <= rest[0] <= 'F' || rest[0] == ' ' || rest[0] == '\t' || rest[0]
                == '\r' || rest[0] == '\n')
        }),
        call_ensures(EthAddress::parse, (text,), parsed),
    ensures
        parsed is Err,
        parsed->Err_0@ == "Invalid input length"@,
{
    let body = a + rest;
    let nonblank = |c: char| c != ' ' && c != '\t' && c != '\r' && c != '\n';
    lemma_body(text@, body);
    lemma_first_stray(a, rest, 0);
    assert(nonblank =~= (|c: char| !is_hex_space(c)));
    assert(body.take(a.len() as int) =~= a);
    Seq::filter_distributes_over_add(a, rest, nonblank);
    if rest.len() > 0 {
        rest.lemma_filter_contains(nonblank, 0);
        assert(rest.filter(nonblank).len() > 0);
        assert(body[a.len() as int] == rest[0]);
    } else {
        assert(rest =~= Seq::empty());
        assert(rest.filter(nonblank).len() == 0);
    }
}

} // verus!
