//! Writing a text into the query of an address.
//!
//! A text goes into a query in percent-encoding: the letters and digits of
//! ASCII and the four marks `-`, `.`, `_` and `~` stand for themselves, and
//! every other byte of the text's UTF-8 form is written as `%` and two
//! hexadecimal digits. What comes out holds no character that means
//! anything in an address, so the text can neither end its parameter nor
//! begin another.

use vstd::prelude::*;
use vstd::string::*;
use vstd::utf8::{decode_utf8, encode_utf8, encode_utf8_decode_utf8};

verus! {

/// Whether a byte stands for itself in a query: a letter or a digit of
/// ASCII, or one of `-`, `.`, `_`, `~`.
pub open spec fn unreserved(byte: u8) -> bool {
    ||| 0x41 <= byte <= 0x5a
    ||| 0x61 <= byte <= 0x7a
    ||| 0x30 <= byte <= 0x39
    ||| byte == 0x2d
    ||| byte == 0x2e
    ||| byte == 0x5f
    ||| byte == 0x7e
}

/// Whether a character can stand in an encoded query: it is unreserved, or
/// it is the percent sign. The hexadecimal digits are unreserved.
pub open spec fn query_safe(c: char) -> bool {
    c == '%' || (c as int) < 128 && unreserved(c as u8)
}

/// The hexadecimal digit for `d`, for `0 <= d <= 15`, in upper case.
pub open spec fn hex_char(d: int) -> char {
    if d == 0 {
        '0'
    } else if d == 1 {
        '1'
    } else if d == 2 {
        '2'
    } else if d == 3 {
        '3'
    } else if d == 4 {
        '4'
    } else if d == 5 {
        '5'
    } else if d == 6 {
        '6'
    } else if d == 7 {
        '7'
    } else if d == 8 {
        '8'
    } else if d == 9 {
        '9'
    } else if d == 10 {
        'A'
    } else if d == 11 {
        'B'
    } else if d == 12 {
        'C'
    } else if d == 13 {
        'D'
    } else if d == 14 {
        'E'
    } else {
        'F'
    }
}

/// The number that a hexadecimal digit stands for, and zero for any other
/// character.
pub open spec fn hex_value(c: char) -> int {
    if '0' <= c <= '9' {
        c as int - '0' as int
    } else if 'A' <= c <= 'F' {
        c as int - 'A' as int + 10
    } else {
        0
    }
}

/// One byte as it stands in a query.
pub open spec fn escaped(byte: u8) -> Seq<char> {
    if unreserved(byte) {
        seq![byte as char]
    } else {
        seq!['%', hex_char(byte as int / 16), hex_char(byte as int % 16)]
    }
}

/// Bytes as they stand in a query, one after another.
pub open spec fn percent_encoded(bytes: Seq<u8>) -> Seq<char>
    decreases bytes.len(),
{
    if bytes.len() == 0 {
        Seq::empty()
    } else {
        percent_encoded(bytes.drop_last()) + escaped(bytes.last())
    }
}

/// A text as it stands in a query: the percent-encoding of its UTF-8
/// form.
pub open spec fn query_encoded(text: Seq<char>) -> Seq<char> {
    percent_encoded(encode_utf8(text))
}

/// The bytes that a percent-encoded text stands for: a percent sign takes
/// the two characters after it as the digits of one byte, and any other
/// character is its own byte.
pub open spec fn percent_decoded(text: Seq<char>) -> Seq<u8>
    decreases text.len(),
{
    if text.len() == 0 {
        Seq::empty()
    } else if text[0] == '%' && text.len() >= 3 {
        seq![(hex_value(text[1]) * 16 + hex_value(text[2])) as u8] + percent_decoded(
            text.subrange(3, text.len() as int),
        )
    } else {
        seq![text[0] as u8] + percent_decoded(text.drop_first())
    }
}

/// Whether a byte stands for itself in a query.
pub fn is_unreserved(byte: u8) -> (yes: bool)
    ensures
        yes == unreserved(byte),
{
    (0x41 <= byte && byte <= 0x5a) || (0x61 <= byte && byte <= 0x7a) || (0x30 <= byte && byte
        <= 0x39) || byte == 0x2d || byte == 0x2e || byte == 0x5f || byte == 0x7e
}

fn hex_str(d: u8) -> (s: &'static str)
    requires
        d < 16,
    ensures
        s@ == seq![hex_char(d as int)],
{
    proof {
        reveal_strlit("0");
        reveal_strlit("1");
        reveal_strlit("2");
        reveal_strlit("3");
        reveal_strlit("4");
        reveal_strlit("5");
        reveal_strlit("6");
        reveal_strlit("7");
        reveal_strlit("8");
        reveal_strlit("9");
        reveal_strlit("A");
        reveal_strlit("B");
        reveal_strlit("C");
        reveal_strlit("D");
        reveal_strlit("E");
        reveal_strlit("F");
    }
    let s = match d {
        0 => "0",
        1 => "1",
        2 => "2",
        3 => "3",
        4 => "4",
        5 => "5",
        6 => "6",
        7 => "7",
        8 => "8",
        9 => "9",
        10 => "A",
        11 => "B",
        12 => "C",
        13 => "D",
        14 => "E",
        _ => "F",
    };
    assert(s@ =~= seq![hex_char(d as int)]);
    s
}

fn plain_str(byte: u8) -> (s: &'static str)
    requires
        unreserved(byte),
    ensures
        s@ == seq![byte as char],
{
    proof {
        reveal_strlit("A");
        reveal_strlit("B");
        reveal_strlit("C");
        reveal_strlit("D");
        reveal_strlit("E");
        reveal_strlit("F");
        reveal_strlit("G");
        reveal_strlit("H");
        reveal_strlit("I");
        reveal_strlit("J");
        reveal_strlit("K");
        reveal_strlit("L");
        reveal_strlit("M");
        reveal_strlit("N");
        reveal_strlit("O");
        reveal_strlit("P");
        reveal_strlit("Q");
        reveal_strlit("R");
        reveal_strlit("S");
        reveal_strlit("T");
        reveal_strlit("U");
        reveal_strlit("V");
        reveal_strlit("W");
        reveal_strlit("X");
        reveal_strlit("Y");
        reveal_strlit("Z");
        reveal_strlit("a");
        reveal_strlit("b");
        reveal_strlit("c");
        reveal_strlit("d");
        reveal_strlit("e");
        reveal_strlit("f");
        reveal_strlit("g");
        reveal_strlit("h");
        reveal_strlit("i");
        reveal_strlit("j");
        reveal_strlit("k");
        reveal_strlit("l");
        reveal_strlit("m");
        reveal_strlit("n");
        reveal_strlit("o");
        reveal_strlit("p");
        reveal_strlit("q");
        reveal_strlit("r");
        reveal_strlit("s");
        reveal_strlit("t");
        reveal_strlit("u");
        reveal_strlit("v");
        reveal_strlit("w");
        reveal_strlit("x");
        reveal_strlit("y");
        reveal_strlit("z");
        reveal_strlit("0");
        reveal_strlit("1");
        reveal_strlit("2");
        reveal_strlit("3");
        reveal_strlit("4");
        reveal_strlit("5");
        reveal_strlit("6");
        reveal_strlit("7");
        reveal_strlit("8");
        reveal_strlit("9");
        reveal_strlit("-");
        reveal_strlit(".");
        reveal_strlit("_");
        reveal_strlit("~");
    }
    let s = match byte {
        65 => "A",
        66 => "B",
        67 => "C",
        68 => "D",
        69 => "E",
        70 => "F",
        71 => "G",
        72 => "H",
        73 => "I",
        74 => "J",
        75 => "K",
        76 => "L",
        77 => "M",
        78 => "N",
        79 => "O",
        80 => "P",
        81 => "Q",
        82 => "R",
        83 => "S",
        84 => "T",
        85 => "U",
        86 => "V",
        87 => "W",
        88 => "X",
        89 => "Y",
        90 => "Z",
        97 => "a",
        98 => "b",
        99 => "c",
        100 => "d",
        101 => "e",
        102 => "f",
        103 => "g",
        104 => "h",
        105 => "i",
        106 => "j",
        107 => "k",
        108 => "l",
        109 => "m",
        110 => "n",
        111 => "o",
        112 => "p",
        113 => "q",
        114 => "r",
        115 => "s",
        116 => "t",
        117 => "u",
        118 => "v",
        119 => "w",
        120 => "x",
        121 => "y",
        122 => "z",
        48 => "0",
        49 => "1",
        50 => "2",
        51 => "3",
        52 => "4",
        53 => "5",
        54 => "6",
        55 => "7",
        56 => "8",
        57 => "9",
        45 => "-",
        46 => ".",
        95 => "_",
        _ => "~",
    };
    assert(s@ =~= seq![byte as char]);
    s
}

/// Appends `text` to `out` as it stands in a query.
pub fn push_query_encoded(out: &mut String, text: &str)
    ensures
        final(out)@ == old(out)@ + query_encoded(text@),
{
    let bytes = text.as_bytes();
    let mut i: usize = 0;
    while i < bytes.len()
        invariant
            i <= bytes@.len(),
            bytes@ == encode_utf8(text@),
            out@ == old(out)@ + percent_encoded(bytes@.take(i as int)),
        decreases bytes@.len() - i,
    {
        let byte = bytes[i];
        proof {
            assert(bytes@.take(i + 1).drop_last() =~= bytes@.take(i as int));
            assert(bytes@.take(i + 1).last() == byte);
        }
        if is_unreserved(byte) {
            out.append(plain_str(byte));
        } else {
            proof {
                reveal_strlit("%");
            }
            out.append("%");
            out.append(hex_str(byte / 16));
            out.append(hex_str(byte % 16));
        }
        assert(out@ =~= old(out)@ + percent_encoded(bytes@.take(i + 1)));
        i = i + 1;
    }
    assert(bytes@.take(i as int) =~= bytes@);
}

/// Bytes that begin with `byte` are encoded as that byte, then the rest.
pub proof fn lemma_encoded_from_the_front(byte: u8, rest: Seq<u8>)
    ensures
        percent_encoded(seq![byte] + rest) == escaped(byte) + percent_encoded(rest),
    decreases rest.len(),
{
    let all = seq![byte] + rest;
    if rest.len() == 0 {
        assert(all.drop_last() =~= Seq::<u8>::empty());
        assert(all.last() == byte);
        assert(percent_encoded(all.drop_last()) =~= Seq::<char>::empty());
        assert(percent_encoded(rest) =~= Seq::<char>::empty());
        assert(percent_encoded(all) =~= escaped(byte) + percent_encoded(rest));
    } else {
        lemma_encoded_from_the_front(byte, rest.drop_last());
        assert(all.drop_last() =~= seq![byte] + rest.drop_last());
        assert(all.last() == rest.last());
        assert(percent_encoded(all) =~= escaped(byte) + percent_encoded(rest));
    }
}

/// An encoded text holds nothing but unreserved characters and percent
/// signs: no `&`, `=`, `#`, `?`, `+`, `/` or space, whatever the text.
pub proof fn law_encoded_is_query_safe(bytes: Seq<u8>)
    ensures
        forall|i: int|
            0 <= i < percent_encoded(bytes).len() ==> query_safe(#[trigger] percent_encoded(bytes)[i]),
    decreases bytes.len(),
{
    if bytes.len() > 0 {
        law_encoded_is_query_safe(bytes.drop_last());
        let head = percent_encoded(bytes.drop_last());
        let tail = escaped(bytes.last());
        assert forall|i: int| 0 <= i < percent_encoded(bytes).len() implies query_safe(
            #[trigger] percent_encoded(bytes)[i],
        ) by {
            if i >= head.len() {
                assert(percent_encoded(bytes)[i] == tail[i - head.len()]);
            }
        }
    }
}

/// Decoding what was encoded gives the bytes back.
pub proof fn law_decoding_undoes_encoding(bytes: Seq<u8>)
    ensures
        percent_decoded(percent_encoded(bytes)) == bytes,
    decreases bytes.len(),
{
    if bytes.len() > 0 {
        let byte = bytes[0];
        let rest = bytes.drop_first();
        assert(bytes =~= seq![byte] + rest);
        lemma_encoded_from_the_front(byte, rest);
        law_decoding_undoes_encoding(rest);
        let text = escaped(byte) + percent_encoded(rest);
        if unreserved(byte) {
            assert(text.drop_first() =~= percent_encoded(rest));
        } else {
            assert(text.subrange(3, text.len() as int) =~= percent_encoded(rest));
            assert(hex_value(hex_char(byte as int / 16)) == byte as int / 16);
            assert(hex_value(hex_char(byte as int % 16)) == byte as int % 16);
        }
        assert(percent_decoded(text) =~= bytes);
    }
}

/// A text in a query is made of safe characters only, and read back from
/// the query it is the text that went in: percent-decoding gives the
/// UTF-8 form of the text, and that form decodes to the text.
pub proof fn law_query_keeps_the_text(text: Seq<char>)
    ensures
        forall|i: int|
            0 <= i < query_encoded(text).len() ==> query_safe(#[trigger] query_encoded(text)[i]),
        percent_decoded(query_encoded(text)) == encode_utf8(text),
        decode_utf8(percent_decoded(query_encoded(text))) == text,
{
    law_encoded_is_query_safe(encode_utf8(text));
    law_decoding_undoes_encoding(encode_utf8(text));
    encode_utf8_decode_utf8(text);
}

} // verus!
