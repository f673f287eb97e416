//! How a reply is framed: text that ends in a line feed.
//!
//! Bytes arrive in chunks of any size. Each chunk is decoded on its own and
//! joined to what came before; the reply is complete once the text ends in
//! the terminator.

use vstd::prelude::*;
use vstd::string::*;
use vstd::utf8::*;

verus! {

/// The byte that ends a reply.
pub const TERMINATOR: u8 = 0x0A;

/// `text` is a complete reply: it is not empty and its last character is the
/// line feed.
pub open spec fn is_terminated(text: Seq<char>) -> bool {
    text.len() > 0 && text.last() == '\n'
}

/// What one read call brought: the first `count` bytes of the buffer that
/// it filled, or the whole buffer where `count` is beyond its end.
pub open spec fn filled(buffer: Seq<u8>, count: nat) -> Seq<u8> {
    if count <= buffer.len() {
        buffer.take(count as int)
    } else {
        buffer
    }
}

/// Cuts a read buffer down to the bytes that the read call brought.
pub fn received(buffer: Vec<u8>, count: usize) -> (bytes: Vec<u8>)
    ensures
        bytes@ == filled(buffer@, count as nat),
{
    let mut bytes = buffer;
    bytes.truncate(count);
    bytes
}

/// The text that lossy decoding makes of `bytes`: what is well-formed UTF-8
/// is kept, and each ill-formed run is replaced by U+FFFD.
pub uninterp spec fn lossy_text(bytes: Seq<u8>) -> Seq<char>;

/// The text that a chunk of received bytes stands for. Well-formed UTF-8
/// stands for the characters it encodes; anything else stands for its lossy
/// decoding.
pub open spec fn decoded(bytes: Seq<u8>) -> Seq<char> {
    if valid_utf8(bytes) {
        decode_utf8(bytes)
    } else {
        lossy_text(bytes)
    }
}

/// `String::from_utf8_lossy` of the standard library, with the result owned.
///
/// Taken on trust: the result is the lossy decoding of the bytes, and for
/// bytes that are well-formed UTF-8 it is the text that they encode, with
/// nothing replaced.
#[verifier::external_body]
fn from_utf8_lossy(bytes: &[u8]) -> (text: String)
    ensures
        text@ == lossy_text(bytes@),
        valid_utf8(bytes@) ==> text@ == decode_utf8(bytes@),
{
    String::from_utf8_lossy(bytes).into_owned()
}

/// Decodes one chunk of received bytes. Ill-formed input never fails: it is
/// replaced.
pub fn decode(bytes: &[u8]) -> (text: String)
    ensures
        text@ == decoded(bytes@),
{
    from_utf8_lossy(bytes)
}

/// The last byte of a scalar's encoding is the terminator only for the line
/// feed itself.
proof fn lemma_scalar_last_byte(scalar: u32)
    requires
        is_scalar(scalar),
    ensures
        encode_scalar(scalar).len() >= 1,
        encode_scalar(scalar).last() == TERMINATOR <==> scalar == 0x0A,
{
    if has_width_1_encoding(scalar) {
        assert((scalar & 0x7F) as u8 == scalar) by (bit_vector)
            requires
                scalar <= 0x7F,
        ;
    } else {
        assert(0x80u8 | (scalar & 0x3F) as u8 >= 0x80) by (bit_vector);
    }
}

/// A text ends in the line feed exactly when its UTF-8 encoding ends in the
/// terminator byte.
pub proof fn lemma_terminated_encoding(text: Seq<char>)
    ensures
        encode_utf8(text).len() == 0 <==> text.len() == 0,
        is_terminated(text) <==> (encode_utf8(text).len() > 0 && encode_utf8(text).last()
            == TERMINATOR),
    decreases text.len(),
{
    if text.len() > 0 {
        let first = text[0];
        let rest = text.drop_first();
        char_is_scalar(first);
        lemma_scalar_last_byte(first as u32);
        lemma_terminated_encoding(rest);
        if rest.len() == 0 && first as u32 == 0x0A {
            char_u32_cast(first, 0x0Au32);
        }
    }
}

/// The encoding of two texts joined is the two encodings joined.
pub proof fn lemma_encoding_joined(first: Seq<char>, second: Seq<char>)
    ensures
        encode_utf8(first + second) == encode_utf8(first) + encode_utf8(second),
    decreases first.len(),
{
    if first.len() > 0 {
        lemma_encoding_joined(first.drop_first(), second);
        assert((first + second).drop_first() =~= first.drop_first() + second);
    }
}

/// A chunk that holds the encoding of a text, whole, is decoded to that
/// text.
pub proof fn lemma_decoded_encoding(text: Seq<char>)
    ensures
        decoded(encode_utf8(text)) == text,
{
    encode_utf8_valid_utf8(text);
    encode_utf8_decode_utf8(text);
}

/// A chunk that holds the encoding of a text and then the terminator byte
/// is decoded to that text and the line feed.
pub proof fn lemma_decoded_line(text: Seq<char>)
    ensures
        decoded(encode_utf8(text) + seq![TERMINATOR]) == text + seq!['\n'],
        is_terminated(text + seq!['\n']),
{
    let feed = seq!['\n'];
    assert(encode_utf8(feed) =~= seq![TERMINATOR]) by {
        reveal_with_fuel(encode_utf8, 2);
        assert((0x0Au32 & 0x7F) as u8 == 0x0Au8) by (bit_vector);
    }
    lemma_encoding_joined(text, feed);
    lemma_decoded_encoding(text + feed);
}

/// Whether `text` is a complete reply.
pub fn ends_with_terminator(text: &str) -> (complete: bool)
    ensures
        complete == is_terminated(text@),
{
    let bytes = text.as_bytes();
    proof {
        lemma_terminated_encoding(text@);
    }
    let n: usize = bytes.len();
    n > 0 && bytes[n - 1] == TERMINATOR
}

} // verus!
