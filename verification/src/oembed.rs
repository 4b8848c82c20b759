//! Where YouTube is asked about a video.

use url::Url;
use vstd::prelude::*;
use vstd::utf8::{encode_utf8, is_ascii_chars, is_ascii_chars_encode_utf8};

verus! {

/// The address that is asked about videos.
pub const OEMBED_URL: &'static str = "https://www.youtube.com/oembed";

/// What YouTube says about a video.
#[derive(Debug)]
pub struct YoutubeOEmbed {
    pub title: String,
    pub author_name: String,
}

/// The bytes that stand for themselves in a form.
pub open spec fn is_form_plain(b: u8) -> bool {
    ||| b == 0x2a  // *
    ||| b == 0x2d  // -
    ||| b == 0x2e  // .
    ||| b == 0x5f  // _
    ||| 0x30 <= b <= 0x39  // 0 to 9
    ||| 0x41 <= b <= 0x5a  // A to Z
    ||| 0x61 <= b <= 0x7a  // a to z
}

/// A hexadecimal digit.
pub open spec fn hex_digit(d: int) -> char {
    if d < 10 {
        (0x30 + d) as char
    } else {
        (0x41 + d - 10) as char
    }
}

/// A byte as it stands in a form: itself, a plus for a space, or its number in hexadecimal.
pub open spec fn form_byte(b: u8) -> Seq<char> {
    if is_form_plain(b) {
        seq![b as char]
    } else if b == 0x20 {
        seq!['+']
    } else {
        seq!['%', hex_digit(b as int / 16), hex_digit(b as int % 16)]
    }
}

/// Bytes as they stand in a form.
pub open spec fn form_bytes(bytes: Seq<u8>) -> Seq<char>
    decreases bytes.len(),
{
    if bytes.len() == 0 {
        seq![]
    } else {
        form_bytes(bytes.drop_last()) + form_byte(bytes.last())
    }
}

/// A text as it stands in a form.
pub open spec fn form_text(s: Seq<char>) -> Seq<char> {
    form_bytes(encode_utf8(s))
}

/// A name and a value as they stand in a form.
pub open spec fn form_pair(pair: (Seq<char>, Seq<char>)) -> Seq<char> {
    form_text(pair.0) + seq!['='] + form_text(pair.1)
}

/// Names and values as they stand in a form, in their order.
pub open spec fn form(pairs: Seq<(Seq<char>, Seq<char>)>) -> Seq<char>
    decreases pairs.len(),
{
    if pairs.len() == 0 {
        seq![]
    } else if pairs.len() == 1 {
        form_pair(pairs[0])
    } else {
        form(pairs.drop_last()) + seq!['&'] + form_pair(pairs.last())
    }
}

/// Calls `Url::parse_with_params`. Of [`OEMBED_URL`] it is claimed that it is a URL which is
/// written as it stands, and that the parameters are put behind it as a form.
#[verifier::external_body]
fn url_with_params(base: &str, params: &Vec<(String, String)>) -> (r: String)
    requires
        base@ == OEMBED_URL@,
    ensures
        r@ == base@ + seq!['?'] + form(params.deep_view()),
{
    Url::parse_with_params(base, params).unwrap().into()
}

/// What YouTube is asked about a video.
pub open spec fn oembed_params(channel: Seq<char>) -> Seq<(Seq<char>, Seq<char>)> {
    seq![("url"@, "https://youtu.be/"@ + channel), ("format"@, "json"@)]
}

/// The address at which YouTube tells about a video.
pub open spec fn oembed_address(channel: Seq<char>) -> Seq<char> {
    OEMBED_URL@ + seq!['?'] + form(oembed_params(channel))
}

/// Makes the address at which YouTube tells about a video.
pub fn oembed_url(channel: &str) -> (r: String)
    ensures
        r@ == oembed_address(channel@),
{
    let mut video = "https://youtu.be/".to_owned();
    video.append(channel);
    let mut params: Vec<(String, String)> = Vec::new();
    params.push(("url".to_owned(), video));
    params.push(("format".to_owned(), "json".to_owned()));
    assert(params.deep_view() =~= oembed_params(channel@));
    url_with_params(OEMBED_URL, &params)
}

/// Bytes stand in a form one after the other.
proof fn form_bytes_concat(a: Seq<u8>, b: Seq<u8>)
    ensures
        form_bytes(a + b) == form_bytes(a) + form_bytes(b),
    decreases b.len(),
{
    if b.len() == 0 {
        assert(a + b =~= a);
        assert(form_bytes(a) + form_bytes(b) =~= form_bytes(a));
    } else {
        form_bytes_concat(a, b.drop_last());
        assert((a + b).drop_last() =~= a + b.drop_last());
        assert(form_bytes(a + b) =~= form_bytes(a) + form_bytes(b));
    }
}

/// One byte in a form.
proof fn form_bytes_single(b: u8)
    ensures
        form_bytes(seq![b]) == form_byte(b),
{
    assert(seq![b].drop_last() =~= seq![]);
    reveal_with_fuel(form_bytes, 2);
    assert(form_bytes(seq![b]) =~= form_byte(b));
}

/// The characters that stand for themselves in a form.
pub open spec fn is_plain(s: Seq<char>) -> bool {
    &&& is_ascii_chars(s)
    &&& forall|i: int| 0 <= i < s.len() ==> is_form_plain((#[trigger] s[i]) as u8)
}

/// Plain bytes stand for themselves in a form.
proof fn form_bytes_plain(s: Seq<char>)
    requires
        is_plain(s),
    ensures
        form_bytes(Seq::new(s.len(), |i: int| s[i] as u8)) == s,
    decreases s.len(),
{
    let bytes = Seq::new(s.len(), |i: int| s[i] as u8);
    if s.len() > 0 {
        let rest = s.drop_last();
        form_bytes_plain(rest);
        assert(bytes.drop_last() =~= Seq::new(rest.len(), |i: int| rest[i] as u8));
        let c = s[s.len() - 1];
        assert(c <= '\u{7f}' && is_form_plain(c as u8));
        assert((c as u8) as char == c);
        assert(bytes.last() == c as u8);
        assert(form_byte(c as u8) =~= seq![c]);
        assert(form_bytes(bytes) =~= s);
    } else {
        assert(form_bytes(bytes) =~= s);
    }
}

/// The address for a video whose id has no other characters than letters, digits, `-`, `_`, `.`
/// and `*` is this.
pub proof fn plain_video_address(channel: Seq<char>)
    requires
        is_plain(channel),
    ensures
        oembed_address(channel)
            == "https://www.youtube.com/oembed?url=https%3A%2F%2Fyoutu.be%2F"@ + channel
            + "&format=json"@,
{
    reveal_strlit("https://www.youtube.com/oembed?url=https%3A%2F%2Fyoutu.be%2F");
    reveal_strlit("https://www.youtube.com/oembed");
    reveal_strlit("&format=json");
    reveal_strlit("https://youtu.be/");
    reveal_strlit("url");
    reveal_strlit("format");
    reveal_strlit("json");
    let video = "https://youtu.be/"@ + channel;
    plain_text("url"@);
    plain_text("format"@);
    plain_text("json"@);
    let scheme = seq!['h', 't', 't', 'p', 's'];
    let host = seq!['y', 'o', 'u', 't', 'u', '.', 'b', 'e'];
    let b_scheme = Seq::new(scheme.len(), |i: int| scheme[i] as u8);
    let b_host = Seq::new(host.len(), |i: int| host[i] as u8);
    let b_channel = Seq::new(channel.len(), |i: int| channel[i] as u8);
    form_bytes_plain(scheme);
    form_bytes_plain(host);
    form_bytes_plain(channel);
    form_bytes_single(0x3a);
    form_bytes_single(0x2f);
    assert forall|i: int| 0 <= i < video.len() implies '\0' <= #[trigger] video[i] <= '\u{7f}' by {
        if i >= 17 {
            assert(video[i] == channel[i - 17]);
        }
    }
    is_ascii_chars_encode_utf8(video);
    let p1 = b_scheme + seq![0x3au8];
    let p2 = p1 + seq![0x2fu8];
    let p3 = p2 + seq![0x2fu8];
    let p4 = p3 + b_host;
    let p5 = p4 + seq![0x2fu8];
    assert(encode_utf8(video) =~= p5 + b_channel);
    form_bytes_concat(b_scheme, seq![0x3au8]);
    form_bytes_concat(p1, seq![0x2fu8]);
    form_bytes_concat(p2, seq![0x2fu8]);
    form_bytes_concat(p3, b_host);
    form_bytes_concat(p4, seq![0x2fu8]);
    form_bytes_concat(p5, b_channel);
    let pairs = oembed_params(channel);
    assert(pairs.drop_last() =~= seq![pairs[0]]);
    reveal_with_fuel(form, 2);
    assert(form_byte(0x3a) =~= seq!['%', '3', 'A']);
    assert(form_byte(0x2f) =~= seq!['%', '2', 'F']);
    assert(oembed_address(channel)
        =~= "https://www.youtube.com/oembed?url=https%3A%2F%2Fyoutu.be%2F"@ + channel
        + "&format=json"@);
}

/// A plain text stands for itself in a form.
proof fn plain_text(s: Seq<char>)
    requires
        is_plain(s),
    ensures
        form_text(s) == s,
{
    is_ascii_chars_encode_utf8(s);
    form_bytes_plain(s);
    assert(encode_utf8(s) =~= Seq::new(s.len(), |i: int| s[i] as u8));
}

/// Texts are encoded one after the other.
proof fn encode_concat(a: Seq<char>, b: Seq<char>)
    ensures
        encode_utf8(a + b) == encode_utf8(a) + encode_utf8(b),
    decreases a.len(),
{
    if a.len() == 0 {
        assert(a + b =~= b);
    } else {
        encode_concat(a.drop_first(), b);
        assert((a + b).drop_first() =~= a.drop_first() + b);
    }
    assert(encode_utf8(a + b) =~= encode_utf8(a) + encode_utf8(b));
}

/// Texts stand in a form one after the other, so each character stands there in its own way.
pub proof fn forms_are_put_together(a: Seq<char>, b: Seq<char>)
    ensures
        form_text(a + b) == form_text(a) + form_text(b),
{
    encode_concat(a, b);
    form_bytes_concat(encode_utf8(a), encode_utf8(b));
}

/// In a form ASCII letters, digits, `*`, `-`, `.` and `_` stand for themselves, a plus stands for a
/// space, and every other ASCII character is a percent sign and the two digits of its number in
/// hexadecimal, in capitals.
pub proof fn character_in_a_form(c: char)
    requires
        c <= '\u{7f}',
    ensures
        ({
            let plain = ('a' <= c && c <= 'z') || ('A' <= c && c <= 'Z') || ('0' <= c && c <= '9')
                || c == '*' || c == '-' || c == '.' || c == '_';
            let form = form_text(seq![c]);
            &&& plain ==> form == seq![c]
            &&& c == ' ' ==> form == seq!['+']
            &&& !plain && c != ' ' ==> form.len() == 3 && form[0] == '%' && form[1]
                == "0123456789ABCDEF"@[c as int / 16] && form[2] == "0123456789ABCDEF"@[c as int
                % 16]
        }),
{
    reveal_strlit("0123456789ABCDEF");
    let s = seq![c];
    assert('\0' <= c);
    assert(is_ascii_chars(s));
    is_ascii_chars_encode_utf8(s);
    assert(encode_utf8(s) =~= seq![c as u8]);
    form_bytes_single(c as u8);
    let digits = "0123456789ABCDEF"@;
    assert(digits =~= seq![
        '0', '1', '2', '3', '4', '5', '6', '7', '8', '9', 'A', 'B', 'C', 'D', 'E', 'F',
    ]);
    assert forall|d: int| 0 <= d < 16 implies #[trigger] digits[d] == hex_digit(d) by {}
    assert((c as u8) as char == c);
    assert((c as u8) as int == c as int);
    assert(digits[c as int / 16] == hex_digit(c as int / 16));
    assert(digits[c as int % 16] == hex_digit(c as int % 16));
}

/// The address for a video holds its id as it stands in a form, whatever the id is, and all else is
/// the same for every video.
pub proof fn video_address(channel: Seq<char>)
    ensures
        oembed_address(channel)
            == "https://www.youtube.com/oembed?url=https%3A%2F%2Fyoutu.be%2F"@ + form_text(channel)
            + "&format=json"@,
{
    let none = Seq::<char>::empty();
    let host = "https://youtu.be/"@;
    plain_video_address(none);
    forms_are_put_together(host, channel);
    assert(host + none =~= host);
    let pairs = oembed_params(channel);
    let bare = oembed_params(none);
    assert(pairs.drop_last() =~= seq![pairs[0]]);
    assert(bare.drop_last() =~= seq![bare[0]]);
    reveal_with_fuel(form, 2);
    let front = OEMBED_URL@ + seq!['?'] + (form_text("url"@) + seq!['='] + form_text(host));
    let rear = seq!['&'] + form_pair(pairs[1]);
    assert(oembed_address(channel) =~= front + form_text(channel) + rear);
    assert(oembed_address(none) =~= front + rear);
    reveal_strlit("&format=json");
    reveal_strlit("format");
    reveal_strlit("json");
    plain_text("format"@);
    plain_text("json"@);
    assert(rear =~= "&format=json"@);
    let literal = "https://www.youtube.com/oembed?url=https%3A%2F%2Fyoutu.be%2F"@;
    assert(literal + none + rear =~= front + rear);
    assert(front.len() == literal.len());
    assert(front =~= (front + rear).take(front.len() as int));
    assert(literal =~= (literal + none + rear).take(front.len() as int));
}

} // verus!
