//! The token that authorises remote control of a maker.

use crate::error::MakerError;
use crate::maker::rpc::messages::{RpcAuthEnvelope, RpcMsgReq};
use vstd::prelude::*;
use vstd::string::{StrSliceExecFns, StringExecFns, StringSliceAdditionalSpecFns};
use vstd::utf8::{encode_utf8, is_ascii_chars, is_ascii_chars_encode_utf8};

verus! {

/// Name of the maker's cookie file in its data directory.
pub const RPC_COOKIE_FILENAME: &'static str = "rpc_cookie";

/// Name of the file that the cookie is written to first.
pub const RPC_COOKIE_TMP_FILENAME: &'static str = "rpc_cookie.tmp";

/// Number of bytes in a token.
pub const RPC_COOKIE_BYTES: usize = 32;

/// The path of a file in a directory.
pub open spec fn joined(dir: Seq<char>, file: Seq<char>) -> Seq<char> {
    if dir.len() == 0 {
        file
    } else if dir.last() == '/' {
        dir + file
    } else {
        dir + seq!['/'] + file
    }
}

/// The path of the file `file` in the directory `dir`.
pub fn join_path(dir: &str, file: &str) -> (r: String)
    ensures
        r@ == joined(dir@, file@),
{
    let n = dir.unicode_len();
    if n == 0 {
        return file.to_owned();
    }
    if dir.get_char(n - 1) == '/' {
        return dir.to_owned().concat(file);
    }
    proof {
        reveal_strlit("/");
        assert("/"@ =~= seq!['/']);
    }
    dir.to_owned().concat("/").concat(file)
}

/// Returns the path to the cookie file in a maker's data directory.
pub fn cookie_path(data_dir: &str) -> (r: String)
    ensures
        r@ == joined(data_dir@, RPC_COOKIE_FILENAME@),
{
    join_path(data_dir, RPC_COOKIE_FILENAME)
}

/// Returns the path to the file that the cookie is written to first.
pub fn cookie_tmp_path(data_dir: &str) -> (r: String)
    ensures
        r@ == joined(data_dir@, RPC_COOKIE_TMP_FILENAME@),
{
    join_path(data_dir, RPC_COOKIE_TMP_FILENAME)
}

/// The cookie is never written in place: the file written first is another
/// one, whatever the data directory.
pub proof fn law_cookie_written_elsewhere_first(data_dir: Seq<char>)
    ensures
        joined(data_dir, RPC_COOKIE_FILENAME@) != joined(data_dir, RPC_COOKIE_TMP_FILENAME@),
{
    reveal_strlit("rpc_cookie");
    reveal_strlit("rpc_cookie.tmp");
    assert(joined(data_dir, RPC_COOKIE_FILENAME@).len() != joined(
        data_dir,
        RPC_COOKIE_TMP_FILENAME@,
    ).len());
}

/// Whether a character is white space.
pub open spec fn white_space(c: char) -> bool {
    let u = c as u32;
    ||| 0x09 <= u <= 0x0d
    ||| u == 0x20
    ||| u == 0x85
    ||| u == 0xa0
    ||| u == 0x1680
    ||| 0x2000 <= u <= 0x200a
    ||| u == 0x2028
    ||| u == 0x2029
    ||| u == 0x202f
    ||| u == 0x205f
    ||| u == 0x3000
}

/// Whether a character is white space.
fn is_white_space(c: char) -> (r: bool)
    ensures
        r == white_space(c),
{
    let u = c as u32;
    (0x09 <= u && u <= 0x0d) || u == 0x20 || u == 0x85 || u == 0xa0 || u == 0x1680 || (0x2000 <= u
        && u <= 0x200a) || u == 0x2028 || u == 0x2029 || u == 0x202f || u == 0x205f || u == 0x3000
}

/// `text` without the white space at its start.
pub open spec fn trim_start(text: Seq<char>) -> Seq<char>
    decreases text.len(),
{
    if text.len() > 0 && white_space(text[0]) {
        trim_start(text.drop_first())
    } else {
        text
    }
}

/// `text` without the white space at its end.
pub open spec fn trim_end(text: Seq<char>) -> Seq<char>
    decreases text.len(),
{
    if text.len() > 0 && white_space(text.last()) {
        trim_end(text.drop_last())
    } else {
        text
    }
}

/// `text` without the white space at its ends.
pub open spec fn trimmed(text: Seq<char>) -> Seq<char> {
    trim_end(trim_start(text))
}

/// The text without the white space at its ends.
pub fn trim<'a>(text: &'a str) -> (r: &'a str)
    ensures
        r@ == trimmed(text@),
{
    let n = text.unicode_len();
    let mut start: usize = 0;
    assert(text@.subrange(0, n as int) =~= text@);
    while start < n && is_white_space(text.get_char(start))
        invariant
            n == text@.len(),
            start <= n,
            trim_start(text@) == trim_start(text@.subrange(start as int, n as int)),
        decreases n - start,
    {
        assert(text@.subrange(start as int, n as int).drop_first() =~= text@.subrange(
            start + 1,
            n as int,
        ));
        start += 1;
    }
    let ghost rest = text@.subrange(start as int, n as int);
    assert(trim_start(text@) == rest);
    let mut end: usize = n;
    while end > start && is_white_space(text.get_char(end - 1))
        invariant
            n == text@.len(),
            start <= end <= n,
            trim_end(rest) == trim_end(text@.subrange(start as int, end as int)),
        decreases end,
    {
        assert(text@.subrange(start as int, end as int).drop_last() =~= text@.subrange(
            start as int,
            end - 1,
        ));
        end -= 1;
    }
    assert(trim_end(rest) == text@.subrange(start as int, end as int));
    text.substring_char(start, end)
}

/// The lower-case digit of a number below sixteen.
pub open spec fn hex_digit(n: int) -> char {
    if n < 10 {
        (48 + n) as char
    } else {
        (87 + n) as char
    }
}

/// The number of a hexadecimal digit of either case.
pub open spec fn digit_value(byte: u8) -> Option<u8> {
    if 48 <= byte <= 57 {
        Some((byte - 48) as u8)
    } else if 97 <= byte <= 102 {
        Some((byte - 87) as u8)
    } else if 65 <= byte <= 70 {
        Some((byte - 55) as u8)
    } else {
        None
    }
}

/// The number of a hexadecimal digit of either case.
fn digit(byte: u8) -> (r: Option<u8>)
    ensures
        r == digit_value(byte),
{
    if 48 <= byte && byte <= 57 {
        Some(byte - 48)
    } else if 97 <= byte && byte <= 102 {
        Some(byte - 87)
    } else if 65 <= byte && byte <= 70 {
        Some(byte - 55)
    } else {
        None
    }
}

/// The byte that a pair of characters stands for: two digits, or a plus sign
/// and a digit.
pub open spec fn pair_value(high: u8, low: u8) -> Option<u8> {
    match digit_value(low) {
        None => None,
        Some(l) => if high == 43 {
            Some(l)
        } else {
            match digit_value(high) {
                None => None,
                Some(h) => Some((16 * h + l) as u8),
            }
        },
    }
}

/// The byte that a pair of characters stands for.
fn pair(high: u8, low: u8) -> (r: Option<u8>)
    ensures
        r == pair_value(high, low),
{
    match digit(low) {
        None => None,
        Some(l) => if high == 43 {
            Some(l)
        } else {
            match digit(high) {
                None => None,
                Some(h) => Some(16 * h + l),
            }
        },
    }
}

/// The hexadecimal text of a byte string.
pub open spec fn hex_text(bytes: Seq<u8>) -> Seq<char> {
    Seq::new(
        2 * bytes.len(),
        |i: int|
            if i % 2 == 0 {
                hex_digit((bytes[i / 2] / 16) as int)
            } else {
                hex_digit((bytes[i / 2] % 16) as int)
            },
    )
}

/// The text of one digit.
pub fn digit_text(n: u8) -> (r: &'static str)
    requires
        n < 16,
    ensures
        r@ == seq![hex_digit(n as int)],
{
    proof {
        reveal_strlit("0");
        reveal_strlit("1");
        reveal_strlit("2");
        reveal_strlit("3");
        reveal_strlit("4");
        reveal_strlit("5");
        reveal_strlit("6");
        reveal_strlit("7");
        reveal_strlit("8");
        reveal_strlit("9");
        reveal_strlit("a");
        reveal_strlit("b");
        reveal_strlit("c");
        reveal_strlit("d");
        reveal_strlit("e");
        reveal_strlit("f");
    }
    let r = if n == 0 {
        "0"
    } else if n == 1 {
        "1"
    } else if n == 2 {
        "2"
    } else if n == 3 {
        "3"
    } else if n == 4 {
        "4"
    } else if n == 5 {
        "5"
    } else if n == 6 {
        "6"
    } else if n == 7 {
        "7"
    } else if n == 8 {
        "8"
    } else if n == 9 {
        "9"
    } else if n == 10 {
        "a"
    } else if n == 11 {
        "b"
    } else if n == 12 {
        "c"
    } else if n == 13 {
        "d"
    } else if n == 14 {
        "e"
    } else {
        "f"
    };
    assert(r@ =~= seq![hex_digit(n as int)]);
    r
}

/// The hexadecimal text of a token.
pub fn bytes_to_hex(bytes: &[u8; 32]) -> (r: String)
    ensures
        r@ == hex_text(bytes@),
{
    let mut out = String::new();
    let mut i: usize = 0;
    while i < 32
        invariant
            i <= 32,
            out@ == hex_text(bytes@.subrange(0, i as int)),
        decreases 32 - i,
    {
        let b = bytes[i];
        out.append(digit_text(b / 16));
        out.append(digit_text(b % 16));
        i += 1;
        assert(out@ =~= hex_text(bytes@.subrange(0, i as int)));
    }
    assert(bytes@.subrange(0, 32) =~= bytes@);
    out
}

/// Whether the trimmed text of a token is 64 characters that pair by pair
/// stand for the bytes of `bytes`.
pub open spec fn token_names(token: Seq<char>, bytes: Seq<u8>) -> bool {
    let text = encode_utf8(trimmed(token));
    &&& text.len() == 64
    &&& bytes.len() == 32
    &&& forall|i: int|
        #![trigger bytes[i]]
        0 <= i < 32 ==> pair_value(text[2 * i], text[2 * i + 1]) == Some(bytes[i])
}

/// Whether the text of a token stands for any bytes.
pub open spec fn is_token(token: Seq<char>) -> bool {
    exists|bytes: Seq<u8>| token_names(token, bytes)
}

/// A token stands for one byte string at most.
pub proof fn lemma_token_unique(token: Seq<char>, a: Seq<u8>, b: Seq<u8>)
    requires
        token_names(token, a),
        token_names(token, b),
    ensures
        a == b,
{
    assert forall|i: int| 0 <= i < 32 implies a[i] == b[i] by {
        assert(a[i] == a[i]);
        assert(b[i] == b[i]);
    }
    assert(a =~= b);
}

/// The bytes that a token's text stands for.
pub fn parse_token_hex(token: &str) -> (r: Result<[u8; 32], MakerError>)
    ensures
        match r {
            Ok(bytes) => token_names(token@, bytes@),
            Err(e) => !is_token(token@) && e == MakerError::General("unauthorized"),
        },
{
    let hex = trim(token);
    let text = hex.as_bytes();
    if text.len() != 64 {
        assert(!is_token(token@));
        return Err(MakerError::General("unauthorized"));
    }
    let mut arr: [u8; 32] = [0u8; 32];
    let mut i: usize = 0;
    while i < 32
        invariant
            i <= 32,
            text@ == encode_utf8(trimmed(token@)),
            text@.len() == 64,
            forall|j: int|
                #![trigger arr@[j]]
                0 <= j < i ==> pair_value(text@[2 * j], text@[2 * j + 1]) == Some(arr@[j]),
        decreases 32 - i,
    {
        match pair(text[2 * i], text[2 * i + 1]) {
            Some(b) => {
                arr[i] = b;
            },
            None => {
                assert forall|bytes: Seq<u8>| !token_names(token@, bytes) by {
                    if token_names(token@, bytes) {
                        let b = bytes[i as int];
                        assert(pair_value(text@[2 * i as int], text@[2 * i as int + 1]) == Some(b));
                    }
                }
                return Err(MakerError::General("unauthorized"));
            },
        }
        i += 1;
    }
    Ok(arr)
}

/// Whether two tokens are the same. Every byte is looked at, whatever the
/// others are.
pub fn tokens_equal(provided: &[u8; 32], expected: &[u8; 32]) -> (r: bool)
    ensures
        r == (*provided == *expected),
{
    let mut diff: u8 = 0;
    let mut i: usize = 0;
    while i < 32
        invariant
            i <= 32,
            diff == 0 <==> forall|j: int| 0 <= j < i ==> provided@[j] == expected@[j],
        decreases 32 - i,
    {
        let a = provided[i];
        let b = expected[i];
        assert((diff | (a ^ b)) == 0 <==> diff == 0 && a == b) by (bit_vector);
        diff = diff | (a ^ b);
        i += 1;
    }
    assert(*provided =~= *expected <==> diff == 0);
    diff == 0
}

/// A digit's character is the ASCII character that reads back as the digit.
proof fn lemma_digit_reads_back(n: int)
    requires
        0 <= n < 16,
    ensures
        (hex_digit(n) as u32) < 128,
        !white_space(hex_digit(n)),
        hex_digit(n) as u8 != 43,
        digit_value(hex_digit(n) as u8) == Some(n as u8),
{
    if n < 10 {
        assert(hex_digit(n) as u32 == 48 + n);
    } else {
        assert(hex_digit(n) as u32 == 87 + n);
    }
}

/// The text that a token is written as stands for the token: what is read
/// back is what was written.
pub proof fn law_written_token_is_read_back(bytes: Seq<u8>)
    requires
        bytes.len() == RPC_COOKIE_BYTES,
    ensures
        token_names(hex_text(bytes), bytes),
{
    let text = hex_text(bytes);
    assert forall|i: int| 0 <= i < text.len() implies (#[trigger] text[i] as u32) < 128
        && !white_space(text[i]) by {
        lemma_digit_reads_back((bytes[i / 2] / 16) as int);
        lemma_digit_reads_back((bytes[i / 2] % 16) as int);
    }
    assert(text[0] == text[0]);
    assert(text.last() == text[text.len() - 1]);
    assert(trimmed(text) == text);
    assert(is_ascii_chars(text));
    is_ascii_chars_encode_utf8(text);
    let encoded = encode_utf8(text);
    assert forall|i: int| #![trigger bytes[i]] 0 <= i < 32 implies pair_value(
        encoded[2 * i],
        encoded[2 * i + 1],
    ) == Some(bytes[i]) by {
        lemma_digit_reads_back((bytes[i] / 16) as int);
        lemma_digit_reads_back((bytes[i] % 16) as int);
        assert((2 * i) / 2 == i && (2 * i) % 2 == 0);
        assert((2 * i + 1) / 2 == i && (2 * i + 1) % 2 == 1);
        assert(text[2 * i] == hex_digit((bytes[i] / 16) as int));
        assert(text[2 * i + 1] == hex_digit((bytes[i] % 16) as int));
    }
}

/// Verifies an authenticated request and returns the request in it.
pub fn verify_rpc_auth(envelope: &RpcAuthEnvelope, expected_hex: &str) -> (r: Result<
    RpcMsgReq,
    MakerError,
>)
    ensures
        r is Ok <==> exists|bytes: Seq<u8>|
            token_names(envelope.token@, bytes) && token_names(expected_hex@, bytes),
        match r {
            Ok(msg) => msg == envelope.msg,
            Err(e) => e == MakerError::General("unauthorized"),
        },
{
    let provided = match parse_token_hex(envelope.token.as_str()) {
        Ok(bytes) => bytes,
        Err(e) => {
            return Err(e);
        },
    };
    let expected = match parse_token_hex(expected_hex) {
        Ok(bytes) => bytes,
        Err(e) => {
            return Err(e);
        },
    };
    if tokens_equal(&provided, &expected) {
        Ok(envelope.msg.clone())
    } else {
        proof {
            assert forall|bytes: Seq<u8>|
                !(token_names(envelope.token@, bytes) && token_names(expected_hex@, bytes)) by {
                if token_names(envelope.token@, bytes) && token_names(expected_hex@, bytes) {
                    lemma_token_unique(envelope.token@, bytes, provided@);
                    lemma_token_unique(expected_hex@, bytes, expected@);
                    assert(provided =~= expected);
                }
            }
        }
        Err(MakerError::General("unauthorized"))
    }
}

/// A path names the file in the directory with one slash between them, or
/// none where there is no directory.
pub proof fn law_files_are_in_their_directory(dir: Seq<char>, file: Seq<char>)
    ensures
        dir.len() == 0 ==> joined(dir, file) == file,
        dir.len() > 0 && dir.last() != '/' ==> joined(dir, file) == dir + "/"@ + file,
        dir.len() > 0 && dir.last() == '/' ==> joined(dir, file) == dir + file,
        joined(dir, file).skip(joined(dir, file).len() - file.len()) == file,
        joined(dir, file).take(dir.len() as int) == dir,
{
    reveal_strlit("/");
    assert("/"@ =~= seq!['/']);
    assert(joined(dir, file).skip(joined(dir, file).len() - file.len()) =~= file);
    assert(joined(dir, file).take(dir.len() as int) =~= dir);
}

/// A trimmed text is a part of the text, begins and ends with no white space,
/// and stays as it is when it is trimmed again.
pub proof fn law_trimmed_has_no_white_ends(text: Seq<char>)
    ensures
        trim_start(text).len() > 0 ==> !white_space(trim_start(text)[0]),
        trim_end(text).len() > 0 ==> !white_space(trim_end(text).last()),
        trim_start(text) == text.skip(text.len() - trim_start(text).len()),
        trim_end(text) == text.take(trim_end(text).len() as int),
        trim_start(text).len() <= text.len(),
        trim_end(text).len() <= text.len(),
        text.len() > 0 && !white_space(text[0]) && !white_space(text.last()) ==> trimmed(text)
            == text,
    decreases text.len(),
{
    if text.len() > 0 {
        if white_space(text[0]) {
            law_trimmed_has_no_white_ends(text.drop_first());
            assert(trim_start(text) =~= text.skip(text.len() - trim_start(text).len()));
        } else {
            assert(text.skip(0) =~= text);
        }
        if white_space(text.last()) {
            law_trimmed_has_no_white_ends(text.drop_last());
            assert(trim_end(text) =~= text.take(trim_end(text).len() as int));
        } else {
            assert(text.take(text.len() as int) =~= text);
        }
    } else {
        assert(text.skip(0) =~= text);
        assert(text.take(0) =~= text);
    }
}

/// The digits are 0 to 9 and a to f, either case is read, and a pair of digits
/// counts sixteen for the first.
pub proof fn law_digits_are_hexadecimal(n: int, high: u8, low: u8)
    ensures
        0 <= n < 10 ==> hex_digit(n) as int == '0' as int + n,
        10 <= n < 16 ==> hex_digit(n) as int == 'a' as int + (n - 10),
        digit_value(low) matches Some(v) ==> v < 16,
        0x41 <= low <= 0x46 ==> digit_value(low) == digit_value((low + 32) as u8) && digit_value(
            low,
        ) is Some,
        0 <= n < 16 ==> digit_value(hex_digit(n) as u8) == Some(n as u8),
        digit_value(high) is Some && digit_value(low) is Some ==> (pair_value(high, low) matches Some(
            v,
        ) && v == digit_value(high)->0 * 16 + digit_value(low)->0),
        digit_value(low) is None ==> pair_value(high, low) is None,
        digit_value(low) is Some ==> pair_value(0x2b, low) == digit_value(low),
        digit_value(high) is None && high != 0x2b ==> pair_value(high, low) is None,
{
}

/// The text of bytes has two digits for each of them, the higher half first.
pub proof fn law_hex_text_has_two_digits_per_byte(bytes: Seq<u8>, i: int)
    requires
        0 <= i < bytes.len(),
    ensures
        hex_text(bytes).len() == 2 * bytes.len(),
        hex_text(bytes)[2 * i] == hex_digit((bytes[i] / 16) as int),
        hex_text(bytes)[2 * i + 1] == hex_digit((bytes[i] % 16) as int),
        pair_value(hex_text(bytes)[2 * i] as u8, hex_text(bytes)[2 * i + 1] as u8) == Some(
            bytes[i],
        ),
{
    assert((2 * i) / 2 == i && (2 * i) % 2 == 0);
    assert((2 * i + 1) / 2 == i && (2 * i + 1) % 2 == 1);
    law_digits_are_hexadecimal((bytes[i] / 16) as int, 0, 0);
    law_digits_are_hexadecimal((bytes[i] % 16) as int, 0, 0);
}

} // verus!
