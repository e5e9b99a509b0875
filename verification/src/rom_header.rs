//! The header at the start of a ROM.
use vstd::prelude::*;

verus! {

/// The bytes of a ROM that its header takes.
pub const ROM_HEADER_LENGTH: usize = 192;

/// The text that `String::from_utf8_lossy` makes of bytes.
pub uninterp spec fn utf8_lossy(bytes: Seq<u8>) -> Seq<char>;

/// Calls `String::from_utf8_lossy`. Claimed of it: the text depends on the bytes alone, and bytes
/// that are valid UTF-8 are decoded as they stand. What stands for other bytes is left unsaid.
#[verifier::external_body]
fn text_from_utf8_lossy(bytes: &[u8]) -> (text: String)
    ensures
        text@ == utf8_lossy(bytes@),
        vstd::utf8::valid_utf8(bytes@) ==> text@ == vstd::utf8::decode_utf8(bytes@),
{
    String::from_utf8_lossy(bytes).into_owned()
}

/// What a ROM says of itself.
#[derive(Debug, Clone)]
pub struct RomHeader {
    pub game_title: [u8; 12],
    pub game_code: [u8; 4],
}

impl Default for RomHeader {
    fn default() -> (header: Self)
        ensures
            header.game_title@ == Seq::new(12, |i: int| 0u8),
            header.game_code@ == Seq::new(4, |i: int| 0u8),
    {
        RomHeader { game_title: [0u8;12], game_code: [0u8;4] }
    }
}

/// A title in quotes, followed by a code in brackets.
pub open spec fn title_and_code(title: Seq<char>, code: Seq<char>) -> Seq<char> {
    seq!['\''] + title + seq!['\'', ' ', '('] + code + seq![')']
}

/// Puts a title in quotes and a code in brackets behind it.
pub fn describe_rom(title: &str, code: &str) -> (text: String)
    ensures
        text@ == title_and_code(title@, code@),
{
    proof {
        reveal_strlit("'");
        reveal_strlit("' (");
        reveal_strlit(")");
    }
    let mut text = String::new();
    text.append("'");
    text.append(title);
    text.append("' (");
    text.append(code);
    text.append(")");
    assert(text@ =~= title_and_code(title@, code@));
    text
}

/// The header that the first bytes of a ROM hold: the title from 0xA0 on, the code from 0xAC on.
pub open spec fn header_in(bytes: [u8; ROM_HEADER_LENGTH]) -> RomHeader {
    RomHeader {
        game_title: [
            bytes[0xA0],
            bytes[0xA1],
            bytes[0xA2],
            bytes[0xA3],
            bytes[0xA4],
            bytes[0xA5],
            bytes[0xA6],
            bytes[0xA7],
            bytes[0xA8],
            bytes[0xA9],
            bytes[0xAA],
            bytes[0xAB],
        ],
        game_code: [bytes[0xAC], bytes[0xAD], bytes[0xAE], bytes[0xAF]],
    }
}

impl RomHeader {
    /// Finds the title and the code in the first bytes of a ROM.
    pub fn parse(header: [u8; ROM_HEADER_LENGTH]) -> (parsed: RomHeader)
        ensures
            parsed == header_in(header),
            parsed.game_title@ == header@.subrange(0xA0, 0xAC),
            parsed.game_code@ == header@.subrange(0xAC, 0xB0),
    {
        let parsed = RomHeader {
            game_title: [
                header[0xA0],
                header[0xA1],
                header[0xA2],
                header[0xA3],
                header[0xA4],
                header[0xA5],
                header[0xA6],
                header[0xA7],
                header[0xA8],
                header[0xA9],
                header[0xAA],
                header[0xAB],
            ],
            game_code: [header[0xAC], header[0xAD], header[0xAE], header[0xAF]],
        };
        assert(parsed.game_title@ =~= header@.subrange(0xA0, 0xAC));
        assert(parsed.game_code@ =~= header@.subrange(0xAC, 0xB0));
        parsed
    }

    /// The title in quotes and the code in brackets, for a reader.
    pub fn to_string(&self) -> (text: String)
        ensures
            text@ == title_and_code(utf8_lossy(self.game_title@), utf8_lossy(self.game_code@)),
            vstd::utf8::valid_utf8(self.game_title@) ==> utf8_lossy(self.game_title@)
                == vstd::utf8::decode_utf8(self.game_title@),
            vstd::utf8::valid_utf8(self.game_code@) ==> utf8_lossy(self.game_code@)
                == vstd::utf8::decode_utf8(self.game_code@),
    {
        let title = text_from_utf8_lossy(self.game_title.as_slice());
        let code = text_from_utf8_lossy(self.game_code.as_slice());
        describe_rom(title.as_str(), code.as_str())
    }
}

} // verus!
