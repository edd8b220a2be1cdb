//! Framing texts such as "8N1".
use vstd::prelude::*;
use vstd::utf8::{encode_scalar, encode_utf8};

use crate::text::{chars_of, push_char};
use crate::transport::{SerialConfig, SerialConfigView};

verus! {

/// The upper-case form of an ASCII letter; any other character as it is.
pub open spec fn ascii_upper(c: char) -> char {
    if 'a' <= c <= 'z' {
        (c as int - 32) as char
    } else {
        c
    }
}

/// The parity that a letter of a framing text stands for.
pub open spec fn parity_of(c: char) -> Option<Seq<char>> {
    let letter = ascii_upper(c);
    if letter == 'N' {
        Some("none"@)
    } else if letter == 'E' {
        Some("even"@)
    } else if letter == 'O' {
        Some("odd"@)
    } else {
        None
    }
}

/// The settings that a framing text stands for, at the given baud rate, or what is
/// wrong with the text: its length in bytes, its data bits, its parity or its stop
/// bits, whichever comes first.
pub open spec fn framing_config(framing: Seq<char>, baud: u32) -> Result<
    SerialConfigView,
    Seq<char>,
> {
    if encode_utf8(framing).len() != 3 {
        Err("Invalid framing format '"@ + framing + "': must be 3 characters (e.g., '8N1')"@)
    } else if framing[0] != '7' && framing[0] != '8' {
        Err("Invalid data bits '"@ + seq![framing[0]] + "': must be 7 or 8"@)
    } else if parity_of(framing[1]) is None {
        Err("Invalid parity '"@ + seq![ascii_upper(framing[1])] + "': must be N, E, or O"@)
    } else if framing[2] != '1' && framing[2] != '2' {
        Err("Invalid stop bits '"@ + seq![framing[2]] + "': must be 1 or 2"@)
    } else {
        Ok(
            SerialConfigView {
                baud_rate: baud,
                data_bits: if framing[0] == '7' {
                    7
                } else {
                    8
                },
                flow_control: "none"@,
                parity: parity_of(framing[1])->0,
                stop_bits: if framing[2] == '1' {
                    1
                } else {
                    2
                },
            },
        )
    }
}

/// A text of three bytes has a first character, a second one after a one-byte
/// first one, and a third one after two one-byte ones.
proof fn lemma_three_bytes(s: Seq<char>)
    requires
        encode_utf8(s).len() == 3,
    ensures
        s.len() >= 1,
        s[0] as u32 <= 0x7f ==> s.len() >= 2,
        s[0] as u32 <= 0x7f && s[1] as u32 <= 0x7f ==> s.len() >= 3,
{
    reveal_with_fuel(encode_utf8, 3);
    if s.len() >= 1 {
        assert(encode_utf8(s).len() == encode_scalar(s[0] as u32).len() + encode_utf8(
            s.drop_first(),
        ).len());
        if s.len() >= 2 {
            assert(s.drop_first()[0] == s[1]);
            assert(encode_utf8(s.drop_first()).len() == encode_scalar(s[1] as u32).len()
                + encode_utf8(s.drop_first().drop_first()).len());
        }
    }
}

fn upper_char(c: char) -> (r: char)
    ensures
        r == ascii_upper(c),
{
    if 'a' <= c && c <= 'z' {
        ((c as u32 - 32) as u8) as char
    } else {
        c
    }
}

fn complaint(what: &str, c: char, rule: &str) -> (r: String)
    ensures
        r@ == what@ + seq![c] + rule@,
{
    let mut out = what.to_owned();
    push_char(&mut out, c);
    out.append(rule);
    assert(out@ =~= what@ + seq![c] + rule@);
    out
}

/// The settings that a framing text stands for, at the given baud rate.
pub fn parse_framing(framing: &str, baud: u32) -> (r: Result<SerialConfig, String>)
    ensures
        match framing_config(framing@, baud) {
            Ok(config) => r matches Ok(c) && c@ == config,
            Err(text) => r matches Err(e) && e@ == text,
        },
{
    if framing.as_bytes().len() != 3 {
        let mut out = "Invalid framing format '".to_owned();
        out.append(framing);
        out.append("': must be 3 characters (e.g., '8N1')");
        return Err(out);
    }
    let chars = chars_of(framing);
    proof {
        lemma_three_bytes(framing@);
    }
    let data_bits: u8 = if chars[0] == '7' {
        7
    } else if chars[0] == '8' {
        8
    } else {
        return Err(complaint("Invalid data bits '", chars[0], "': must be 7 or 8"));
    };
    let letter = upper_char(chars[1]);
    let parity = if letter == 'N' {
        "none"
    } else if letter == 'E' {
        "even"
    } else if letter == 'O' {
        "odd"
    } else {
        return Err(complaint("Invalid parity '", letter, "': must be N, E, or O"));
    };
    let stop_bits: u8 = if chars[2] == '1' {
        1
    } else if chars[2] == '2' {
        2
    } else {
        return Err(complaint("Invalid stop bits '", chars[2], "': must be 1 or 2"));
    };
    Ok(
        SerialConfig {
            baud_rate: baud,
            data_bits,
            flow_control: "none".to_owned(),
            parity: parity.to_owned(),
            stop_bits,
        },
    )
}

/// A framing text of three one-byte characters means the same whether its letter is
/// upper or lower case, and is complained about in the same words.
pub proof fn law_case_does_not_matter(a: char, p: char, s: char, baud: u32)
    requires
        encode_utf8(seq![a, p, s]).len() == 3,
    ensures
        framing_config(seq![a, p, s], baud) == framing_config(seq![a, ascii_upper(p), s], baud),
{
    let t = seq![a, p, s];
    let u = seq![a, ascii_upper(p), s];
    reveal_with_fuel(encode_utf8, 4);
    assert(t.drop_first() =~= seq![p, s]);
    assert(t.drop_first().drop_first() =~= seq![s]);
    assert(u.drop_first() =~= seq![ascii_upper(p), s]);
    assert(u.drop_first().drop_first() =~= seq![s]);
}

/// A framing text says, character by character, how many data bits there are, which
/// parity, and how many stop bits; the parity's letter may be of either case.
pub proof fn law_framing_is_read_character_by_character(d: char, p: char, s: char, baud: u32)
    requires
        d == '7' || d == '8',
        p == 'N' || p == 'n' || p == 'E' || p == 'e' || p == 'O' || p == 'o',
        s == '1' || s == '2',
    ensures
        framing_config(seq![d, p, s], baud) matches Ok(c) && c.baud_rate == baud && c.data_bits
            as int == d as int - '0' as int && c.stop_bits as int == s as int - '0' as int && (p
            == 'N' || p == 'n' ==> c.parity == "none"@) && (p == 'E' || p == 'e' ==> c.parity
            == "even"@) && (p == 'O' || p == 'o' ==> c.parity == "odd"@) && c.flow_control
            == "none"@,
{
    lemma_three_ascii(d, p, s);
}

proof fn lemma_three_ascii(d: char, p: char, s: char)
    requires
        d as u32 <= 0x7f,
        p as u32 <= 0x7f,
        s as u32 <= 0x7f,
    ensures
        encode_utf8(seq![d, p, s]).len() == 3,
{
    let t = seq![d, p, s];
    reveal_with_fuel(encode_utf8, 5);
    assert(t.drop_first() =~= seq![p, s]);
    assert(t.drop_first().drop_first() =~= seq![s]);
    assert(t.drop_first().drop_first().drop_first() =~= Seq::<char>::empty());
}

/// Any other text of three ASCII characters is refused, and so is every text that is not
/// three bytes long.
pub proof fn law_other_framings_are_refused(
    framing: Seq<char>,
    d: char,
    p: char,
    s: char,
    baud: u32,
)
    ensures
        encode_utf8(framing).len() != 3 ==> framing_config(framing, baud) is Err,
        d as u32 <= 0x7f && p as u32 <= 0x7f && s as u32 <= 0x7f && !((d == '7' || d == '8') && (p
            == 'N' || p == 'n' || p == 'E' || p == 'e' || p == 'O' || p == 'o') && (s == '1' || s
            == '2')) ==> framing_config(seq![d, p, s], baud) is Err,
        framing_config(framing, baud) is Ok ==> framing.len() >= 3 && (framing[0] == '7'
            || framing[0] == '8') && (framing[2] == '1' || framing[2] == '2'),
{
    if encode_utf8(framing).len() == 3 {
        lemma_three_bytes(framing);
    }
    if d as u32 <= 0x7f && p as u32 <= 0x7f && s as u32 <= 0x7f {
        lemma_three_ascii(d, p, s);
    }
}

/// Framing texts are read as the model has it.
pub proof fn law_framings_are_read(
    framing: &str,
    baud: u32,
    r: Result<SerialConfig, String>,
)
    requires
        call_ensures(parse_framing, (framing, baud), r),
    ensures
        r is Ok <==> framing_config(framing@, baud) is Ok,
        framing_config(framing@, baud) matches Ok(config) ==> (r matches Ok(c) && c@ == config),
        framing_config(framing@, baud) matches Err(text) ==> (r matches Err(e) && e@ == text),
{
}

} // verus!
