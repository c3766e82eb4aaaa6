//! `GET /api/scrot`: a screenshot as base64 text.

use vstd::prelude::*;
use crate::command::{command, strings2, CommandSpec, CommandView};

verus! {

/// Where the screenshot is written before it is read back.
pub const SCROT_PATH: &'static str = "/tmp/lemoncuc_scrot.png";

#[derive(Debug)]
pub struct ScrotResponse {
    /// Base64-encoded PNG screenshot (standard base64, no padding).
    pub image: String,
}

/// Why a screenshot could not be answered; every case is answered with
/// HTTP status 500.
#[derive(Debug)]
pub enum ScrotError {
    /// scrot could not be started, or exited with a failure status.
    CaptureFailed,
    /// The captured file could not be read back.
    ReadFailed,
}

impl ScrotError {
    /// The HTTP status that answers this error.
    pub fn status_code(&self) -> (code: u16)
        ensures
            code == 500,
    {
        500
    }
}

/// The character of the standard base64 alphabet for `v` (`0 <= v < 64`):
/// `A`-`Z`, `a`-`z`, `0`-`9`, `+`, `/`.
pub open spec fn b64_char(v: int) -> char {
    if v < 26 {
        (65 + v) as char
    } else if v < 52 {
        (71 + v) as char
    } else if v < 62 {
        (v - 4) as char
    } else if v == 62 {
        '+'
    } else {
        '/'
    }
}

/// The base64 text (standard alphabet, no padding) of `data`: every three
/// bytes become four characters of six bits each, a last pair of bytes three
/// characters, a last single byte two.
pub open spec fn base64_no_pad(data: Seq<u8>) -> Seq<char>
    decreases data.len(),
{
    if data.len() == 0 {
        Seq::empty()
    } else if data.len() == 1 {
        let x = data[0] as int;
        seq![b64_char(x / 4), b64_char((x % 4) * 16)]
    } else if data.len() == 2 {
        let x = data[0] as int;
        let y = data[1] as int;
        seq![b64_char(x / 4), b64_char((x % 4) * 16 + y / 16), b64_char((y % 16) * 4)]
    } else {
        let x = data[0] as int;
        let y = data[1] as int;
        let z = data[2] as int;
        seq![
            b64_char(x / 4),
            b64_char((x % 4) * 16 + y / 16),
            b64_char((y % 16) * 4 + z / 64),
            b64_char(z % 64),
        ] + base64_no_pad(data.subrange(3, data.len() as int))
    }
}

/// The six-bit value of a character of the standard base64 alphabet.
pub open spec fn b64_value(c: char) -> int {
    let v = c as u32 as int;
    if 65 <= v <= 90 {
        v - 65
    } else if 97 <= v <= 122 {
        v - 71
    } else if 48 <= v <= 57 {
        v + 4
    } else if v == 43 {
        62
    } else {
        63
    }
}

/// The bytes that standard base64 text without padding stands for.
pub open spec fn base64_decode(s: Seq<char>) -> Seq<u8>
    decreases s.len(),
{
    if s.len() < 2 {
        Seq::empty()
    } else if s.len() == 2 {
        seq![(b64_value(s[0]) * 4 + b64_value(s[1]) / 16) as u8]
    } else if s.len() == 3 {
        seq![
            (b64_value(s[0]) * 4 + b64_value(s[1]) / 16) as u8,
            ((b64_value(s[1]) % 16) * 16 + b64_value(s[2]) / 4) as u8,
        ]
    } else {
        seq![
            (b64_value(s[0]) * 4 + b64_value(s[1]) / 16) as u8,
            ((b64_value(s[1]) % 16) * 16 + b64_value(s[2]) / 4) as u8,
            ((b64_value(s[2]) % 4) * 64 + b64_value(s[3])) as u8,
        ] + base64_decode(s.subrange(4, s.len() as int))
    }
}

proof fn lemma_b64_char_value(v: int)
    requires
        0 <= v < 64,
    ensures
        b64_value(b64_char(v)) == v,
{
}

proof fn lemma_group_bits(x: int, y: int, z: int)
    requires
        0 <= x < 256,
        0 <= y < 256,
        0 <= z < 256,
    ensures
        0 <= x / 4 < 64,
        0 <= (x % 4) * 16 + y / 16 < 64,
        0 <= (y % 16) * 4 + z / 64 < 64,
        0 <= z % 64 < 64,
        0 <= (x % 4) * 16 < 64,
        0 <= (y % 16) * 4 < 64,
        (x / 4) * 4 + ((x % 4) * 16 + y / 16) / 16 == x,
        (((x % 4) * 16 + y / 16) % 16) * 16 + ((y % 16) * 4 + z / 64) / 4 == y,
        (((y % 16) * 4 + z / 64) % 4) * 64 + z % 64 == z,
        (x / 4) * 4 + ((x % 4) * 16) / 16 == x,
        (((x % 4) * 16 + y / 16) % 16) * 16 + ((y % 16) * 4) / 4 == y,
{
    assert(0 <= x / 4 < 64 && x == (x / 4) * 4 + x % 4 && 0 <= x % 4 < 4) by (nonlinear_arith)
        requires 0 <= x < 256;
    assert(0 <= y / 16 < 16 && y == (y / 16) * 16 + y % 16 && 0 <= y % 16 < 16) by (nonlinear_arith)
        requires 0 <= y < 256;
    assert(0 <= z / 64 < 4 && z == (z / 64) * 64 + z % 64 && 0 <= z % 64 < 64) by (nonlinear_arith)
        requires 0 <= z < 256;
    let a = x % 4;
    let b = y / 16;
    let c = y % 16;
    let d = z / 64;
    assert(((a * 16 + b) / 16 == a) && ((a * 16 + b) % 16 == b)) by (nonlinear_arith)
        requires 0 <= a < 4, 0 <= b < 16;
    assert(((c * 4 + d) / 4 == c) && ((c * 4 + d) % 4 == d)) by (nonlinear_arith)
        requires 0 <= c < 16, 0 <= d < 4;
    assert((a * 16) / 16 == a) by (nonlinear_arith)
        requires 0 <= a < 4;
    assert((c * 4) / 4 == c) by (nonlinear_arith)
        requires 0 <= c < 16;
}

/// Decoding the base64 text of any bytes gives the bytes back.
pub proof fn lemma_base64_round_trip(data: Seq<u8>)
    ensures
        base64_decode(base64_no_pad(data)) == data,
    decreases data.len(),
{
    let e = base64_no_pad(data);
    if data.len() == 0 {
    } else if data.len() == 1 {
        let x = data[0] as int;
        lemma_group_bits(x, 0, 0);
        lemma_b64_char_value(x / 4);
        lemma_b64_char_value((x % 4) * 16);
        assert(base64_decode(e) =~= data);
    } else if data.len() == 2 {
        let x = data[0] as int;
        let y = data[1] as int;
        lemma_group_bits(x, y, 0);
        lemma_b64_char_value(x / 4);
        lemma_b64_char_value((x % 4) * 16 + y / 16);
        lemma_b64_char_value((y % 16) * 4);
        assert(base64_decode(e) =~= data);
    } else {
        let x = data[0] as int;
        let y = data[1] as int;
        let z = data[2] as int;
        let rest = data.subrange(3, data.len() as int);
        lemma_group_bits(x, y, z);
        lemma_b64_char_value(x / 4);
        lemma_b64_char_value((x % 4) * 16 + y / 16);
        lemma_b64_char_value((y % 16) * 4 + z / 64);
        lemma_b64_char_value(z % 64);
        lemma_base64_round_trip(rest);
        let head = seq![
            b64_char(x / 4),
            b64_char((x % 4) * 16 + y / 16),
            b64_char((y % 16) * 4 + z / 64),
            b64_char(z % 64),
        ];
        let tail = base64_no_pad(rest);
        assert(e == head + tail);
        assert(e.len() >= 4);
        assert(e.subrange(4, e.len() as int) =~= tail);
        assert(e[0] == head[0] && e[1] == head[1] && e[2] == head[2] && e[3] == head[3]);
        assert(base64_decode(e) =~= seq![data[0], data[1], data[2]] + rest);
        assert(seq![data[0], data[1], data[2]] + rest =~= data);
    }
}

/// The alphabet is RFC 4648's standard one: values 0 to 25 are `A` to `Z`, 26 to
/// 51 are `a` to `z`, 52 to 61 are `0` to `9`, 62 is `+` and 63 is `/`.
pub proof fn lemma_base64_alphabet(v: int)
    requires
        0 <= v < 64,
    ensures
        v < 26 ==> b64_char(v) as u32 == 'A' as u32 + v,
        26 <= v < 52 ==> b64_char(v) as u32 == 'a' as u32 + (v - 26),
        52 <= v < 62 ==> b64_char(v) as u32 == '0' as u32 + (v - 52),
        v == 62 ==> b64_char(v) == '+',
        v == 63 ==> b64_char(v) == '/',
{
}

/// The text is four characters for every three bytes, rounded up (no
/// padding), and every character is in the standard alphabet.
pub proof fn lemma_base64_shape(data: Seq<u8>)
    ensures
        base64_no_pad(data).len() == (4 * data.len() + 2) / 3,
        forall|i: int| 0 <= i < base64_no_pad(data).len() ==> {
            let c = #[trigger] base64_no_pad(data)[i] as u32;
            (65 <= c <= 90) || (97 <= c <= 122) || (48 <= c <= 57) || c == 43 || c == 47
        },
    decreases data.len(),
{
    let e = base64_no_pad(data);
    if data.len() >= 3 {
        let x = data[0] as int;
        let y = data[1] as int;
        let z = data[2] as int;
        lemma_group_bits(x, y, z);
        let rest = data.subrange(3, data.len() as int);
        lemma_base64_shape(rest);
        let head = seq![
            b64_char(x / 4),
            b64_char((x % 4) * 16 + y / 16),
            b64_char((y % 16) * 4 + z / 64),
            b64_char(z % 64),
        ];
        assert(e == head + base64_no_pad(rest));
        assert forall|i: int| 0 <= i < e.len() implies {
            let c = #[trigger] e[i] as u32;
            (65 <= c <= 90) || (97 <= c <= 122) || (48 <= c <= 57) || c == 43 || c == 47
        } by {
            if i >= 4 {
                assert(e[i] == base64_no_pad(rest)[i - 4]);
            }
        }
    } else if data.len() == 2 {
        lemma_group_bits(data[0] as int, data[1] as int, 0);
    } else if data.len() == 1 {
        lemma_group_bits(data[0] as int, 0, 0);
    }
}

/// Calls `Engine::encode` of base64's `STANDARD_NO_PAD` engine. The contract states
/// the text as RFC 4648 base64 with the standard alphabet and no padding. The call
/// panics when the encoded length overflows `usize`, which the `requires` rules out.
#[verifier::external_body]
fn encode_base64(data: &[u8]) -> (s: String)
    requires
        data@.len() / 3 * 4 + 4 <= usize::MAX,
    ensures
        s@ == base64_no_pad(data@),
{
    base64::Engine::encode(&base64::engine::general_purpose::STANDARD_NO_PAD, data)
}

/// The scrot invocation: `-o` and the file to overwrite.
pub fn scrot_command() -> (c: CommandSpec)
    ensures
        c@ == (CommandView { program: "scrot"@, args: seq!["-o"@, SCROT_PATH@], env: Seq::empty() }),
{
    command("scrot", strings2("-o", SCROT_PATH))
}

/// Whether to go on after running scrot: `status` is `None` when it could not be
/// started, else whether it exited successfully.
pub fn capture_result(status: Option<bool>) -> (r: Result<(), ScrotError>)
    ensures
        r is Ok <==> status == Some(true),
        r is Err ==> r == Err::<(), ScrotError>(ScrotError::CaptureFailed),
{
    match status {
        Some(true) => Ok(()),
        _ => Err(ScrotError::CaptureFailed),
    }
}

/// The answer once the file was read (`None` when reading failed): the image as
/// base64 text.
pub fn screenshot_response(data: Option<Vec<u8>>) -> (r: Result<ScrotResponse, ScrotError>)
    requires
        data matches Some(d) ==> d@.len() / 3 * 4 + 4 <= usize::MAX,
    ensures
        match data {
            Some(d) => r matches Ok(resp) && resp.image@ == base64_no_pad(d@),
            None => r matches Err(ScrotError::ReadFailed),
        },
{
    match data {
        Some(d) => Ok(ScrotResponse { image: encode_base64(d.as_slice()) }),
        None => Err(ScrotError::ReadFailed),
    }
}

} // verus!
