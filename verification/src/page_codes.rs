//! Page-code tables: per-codepage immutable maps from Unicode scalar
//! value to a single output byte.
//!
//! Each table is stored as its characters in code order; building a
//! table pairs every character with its code, skipping the NUL
//! placeholders that stand for unassigned codes.

use vstd::prelude::*;

use crate::character::PageCode;
use crate::errors::PrinterError;

verus! {

/// The (character, byte) pairs of a table whose characters are `cs` in
/// code order starting at `base`; a NUL character marks an unassigned
/// code and yields no pair.
pub open spec fn table_entries(cs: Seq<char>, base: int) -> Seq<(char, u8)>
    recommends
        base + cs.len() <= 256,
    decreases cs.len(),
{
    if cs.len() == 0 {
        Seq::empty()
    } else {
        let rest = table_entries(cs.drop_first(), base + 1);
        if cs[0] == '\u{0}' {
            rest
        } else {
            seq![(cs[0], base as u8)] + rest
        }
    }
}

/// First-match lookup of a character in a table.
pub open spec fn table_lookup(t: Seq<(char, u8)>, c: char) -> Option<u8>
    decreases t.len(),
{
    if t.len() == 0 {
        Option::None
    } else if t[0].0 == c {
        Option::Some(t[0].1)
    } else {
        table_lookup(t.drop_first(), c)
    }
}

/// Look a character up in a table.
pub fn lookup(table: &Vec<(char, u8)>, c: char) -> (r: Option<u8>)
    ensures
        r == table_lookup(table@, c),
{
    let mut i: usize = 0;
    proof {
        assert(table@.skip(0) =~= table@);
    }
    while i < table.len()
        invariant
            i <= table@.len(),
            table_lookup(table@, c) == table_lookup(table@.skip(i as int), c),
        decreases table@.len() - i,
    {
        let e = table[i];
        proof {
            assert(table@.skip(i as int).drop_first() =~= table@.skip(i + 1));
        }
        if e.0 == c {
            return Some(e.1);
        }
        i += 1;
    }
    None
}

fn build_table(s: &str, base: u8) -> (v: Vec<(char, u8)>)
    requires
        base + s@.len() <= 256,
    ensures
        v@ == table_entries(s@, base as int),
{
    let n = s.unicode_len();
    let mut v: Vec<(char, u8)> = Vec::new();
    let mut i: usize = 0;
    proof {
        assert(s@.skip(0) =~= s@);
    }
    while i < n
        invariant
            i <= n,
            n == s@.len(),
            base + n <= 256,
            table_entries(s@, base as int) == v@ + table_entries(s@.skip(i as int), base + i),
        decreases n - i,
    {
        let c = s.get_char(i);
        proof {
            assert(s@.skip(i as int).drop_first() =~= s@.skip(i + 1));
        }
        if c != '\u{0}' {
            let code = base + (i as u8);
            v.push((c, code));
            proof {
                assert(table_entries(s@.skip(i as int), base + i) =~= seq![(s@[i as int], (base + i) as u8)] + table_entries(s@.skip(i + 1), base + i + 1));
                assert(v@ + table_entries(s@.skip(i + 1), base + i + 1) =~= table_entries(s@, base as int));
            }
        }
        i += 1;
    }
    proof {
        assert(table_entries(s@.skip(n as int), base + n) =~= Seq::empty());
        assert(v@ =~= v@ + table_entries(s@.skip(n as int), base + n));
    }
    v
}

/// The characters of the PC437 table, in code order starting at
/// 128; a NUL placeholder marks a code with no character.
pub open spec fn pc437_chars() -> Seq<char> {
    "ÇüéâäàåçêëèïîìÄÅÉæÆôöòûùÿÖÜ¢£¥₧ƒáíóúñÑªº¿⌐¬½¼¡«»░▒▓│┤╡╢╖╕╣║╗╝╜╛┐└┴┬├─┼╞╟╚╔╩╦╠═╬╧╨╤╥╙╘╒╓╫╪┘┌█▄▌▐▀αßΓπΣσµτΦΘΩδ∞φε∩≡±≥≤⌠⌡÷≈°∙·√ⁿ²■\u{A0}"@
}
/// The characters of the PC852 table, in code order starting at
/// 128; a NUL placeholder marks a code with no character.
pub open spec fn pc852_chars() -> Seq<char> {
    "ÇüéâäůćçłëŐőîŹÄĆÉĹĺôöĽľŚśÖÜŤťŁ×čáíóúĄąŽžĘę¬źČş«»░▒▓│┤ÁÂĚŞ╣║╗╝Żż┐└┴┬├─┼Ăă╚╔╩╦╠═╬¤đĐĎËďŇÍÎě┘┌█▄ŢŮ▀ÓßÔŃńňŠšŔÚŕŰýÝţ´\u{AD}˝˛ˇ˘§÷¸°¨˙űŘř■\u{A0}"@
}
/// The characters of the PC858 table, in code order starting at
/// 128; a NUL placeholder marks a code with no character.
pub open spec fn pc858_chars() -> Seq<char> {
    "ÇüéâäàåçêëèïîìÄÅÉæÆôöòûùÿÖÜø£Ø×ƒáíóúñÑªº®⌐¬½¼¡«»░▒▓│┤ÁÂÀ©╣║╗╝¢¥┐└┴┬├─┼ãÃ╚╔╩╦╠═╬¤ðÐÊËÈ€ÍÎÏ┘┌█▄¦Ì▀ÓßÔÔõÕµþÞÚÛÙýÝ¯´-±‗¾¶§÷¸°¨·¹³²■\u{A0}"@
}
/// The characters of the PC860 table, in code order starting at
/// 128; a NUL placeholder marks a code with no character.
pub open spec fn pc860_chars() -> Seq<char> {
    "ÇüéâãàÁçêÊèÍÔìÃÂÉÀÈôõòÚùÌÕÜ¢£Ù₧ÓáíóúñÑªº¿Ò¬½¼¡«»░▒▓│┤╡╢╖╕╣║╗╝╜╛┐└┴┬├─┼╞╟╚╔╩╦╠═╬╧╨╤╥╙╘╒╓╫╪┘┌█▄▌▐▀αßΓπΣσµτΦΘΩδ∞φε∩≡±≥≤⌠⌡÷≈°∙·√ⁿ²■\u{A0}"@
}
/// The characters of the PC865 table, in code order starting at
/// 128; a NUL placeholder marks a code with no character.
pub open spec fn pc865_chars() -> Seq<char> {
    "ÇüéâäàåçêëèïîìÄÅÉæÆôöòûùÿÖÜø£Ø₧ƒáíóúñÑªº¿⌐¬½¼¡«¤░▒▓│┤╡╢╖╕╣║╗╝╜╛┐└┴┬├─┼╞╟╚╔╩╦╠═╬╧╨╤╥╙╘╒╓╫╪┘┌█▄▌▐▀αßΓπΣσµτΦΘΩδ∞φε∩≡±≥≤⌠⌡÷≈°∙·√ⁿ²■\u{A0}"@
}
/// The characters of the ISO8859_2 table, in code order starting at
/// 160; a NUL placeholder marks a code with no character.
pub open spec fn iso8859_2_chars() -> Seq<char> {
    "\u{A0}Ą˘Ł¤ĽŚ§¨ŠŞŤŹ\u{AD}ŽŻ°ą˛ł´ľśˇ¸šşťź˝žżŔÁÂĂÄĹĆÇČÉĘËĚÍÎĎĐŃŇÓÔŐÖ×ŘŮÚŰÜÝŢßŕáâăäĺćçčéęëěíîďđńňóôőö÷řůúűüýţ˙"@
}
/// The characters of the ISO8859_7 table, in code order starting at
/// 160; a NUL placeholder marks a code with no character.
pub open spec fn iso8859_7_chars() -> Seq<char> {
    "\u{A0}‘’£€₯¦§¨©ͺ«¬\u{AD}\u{0}―°±²³΄΅Ά·ΈΉΊ»Ό½ΎΏΐΑΒΓΔΕΖΗΘΙΚΛΜΝΞΟΠΡ\u{0}ΣΤΥΦΧΨΩΪΫάέήίΰαβγδεζηθικλμνξοπρςστυφχψωϊϋόύώ"@
}
/// The characters of the ISO8859_15 table, in code order starting at
/// 160; a NUL placeholder marks a code with no character.
pub open spec fn iso8859_15_chars() -> Seq<char> {
    "\u{A0}¡¢£€¥Š§š©ª«¬\u{AD}®¯°±²³Žµ¶·ž¹º»ŒœŸ¿ÀÁÂÃÄÅÆÇÈÉÊËÌÍÎÏÐÑÒÓÔÕÖ×ØÙÚÛÜÝÞßàáâãäåæçèéêëìíîïðñòóôõö÷øùúûüýþÿ"@
}
/// The characters of the WPC1252 table, in code order starting at
/// 128; a NUL placeholder marks a code with no character.
pub open spec fn wpc1252_chars() -> Seq<char> {
    "€\u{0}‚ƒ„…†‡ˆ‰Š‹Œ\u{0}Ž\u{0}\u{0}‘’“”•–—˜™š›œ\u{0}žŸ\u{A0}¡¢£¤¥¦§¨©ª«¬\u{AD}®¯°±²³´µ¶·¸¹º»¼½¾¿ÀÁÂÃÄÅÆÇÈÉÊËÌÍÎÏÐÑÒÓÔÕÖ×ØÙÚÛÜÝÞßàáâãäåæçèéêëìíîïðñòóôõö÷øùúûüýþÿ"@
}

/// The page codes that have a registered table.
#[derive(Debug, Clone, Copy, PartialEq, Eq, Structural)]
#[allow(non_camel_case_types)]
pub enum PageCodeTable {
    PC437,
    PC852,
    PC858,
    PC860,
    PC865,
    ISO8859_2,
    ISO8859_7,
    ISO8859_15,
    WPC1252,
}

/// The table registered for a page code, where one exists.
pub open spec fn table_for_page_code(code: PageCode) -> Option<PageCodeTable> {
    match code {
        PageCode::PC437 => Some(PageCodeTable::PC437),
        PageCode::PC852 => Some(PageCodeTable::PC852),
        PageCode::PC858 => Some(PageCodeTable::PC858),
        PageCode::PC860 => Some(PageCodeTable::PC860),
        PageCode::PC865 => Some(PageCodeTable::PC865),
        PageCode::ISO8859_2 => Some(PageCodeTable::ISO8859_2),
        PageCode::ISO8859_7 => Some(PageCodeTable::ISO8859_7),
        PageCode::ISO8859_15 => Some(PageCodeTable::ISO8859_15),
        PageCode::WPC1252 => Some(PageCodeTable::WPC1252),
        _ => Option::None,
    }
}

/// The (character, byte) pairs of the table registered for a page code;
/// empty where none is registered.
pub open spec fn page_table_spec(code: PageCode) -> Seq<(char, u8)> {
    match table_for_page_code(code) {
        Some(t) => t.table_spec(),
        Option::None => Seq::empty(),
    }
}

impl PageCodeTable {
    /// The (character, byte) pairs of this table.
    pub open spec fn table_spec(self) -> Seq<(char, u8)> {
        match self {
        PageCodeTable::PC437 => table_entries(pc437_chars(), 128),
        PageCodeTable::PC852 => table_entries(pc852_chars(), 128),
        PageCodeTable::PC858 => table_entries(pc858_chars(), 128),
        PageCodeTable::PC860 => table_entries(pc860_chars(), 128),
        PageCodeTable::PC865 => table_entries(pc865_chars(), 128),
        PageCodeTable::ISO8859_2 => table_entries(iso8859_2_chars(), 160),
        PageCodeTable::ISO8859_7 => table_entries(iso8859_7_chars(), 160),
        PageCodeTable::ISO8859_15 => table_entries(iso8859_15_chars(), 160),
        PageCodeTable::WPC1252 => table_entries(wpc1252_chars(), 128),
        }
    }

    /// The table registered for a page code; rejects exactly the page
    /// codes that have none.
    pub fn from_page_code(code: PageCode) -> (r: Result<Self, PrinterError>)
        ensures
            r is Ok <==> table_for_page_code(code) is Some,
            r matches Ok(t) ==> table_for_page_code(code) == Some(t),
            r matches Err(e) ==> e is Input,
    {
        match code {
            PageCode::PC437 => Ok(PageCodeTable::PC437),
            PageCode::PC852 => Ok(PageCodeTable::PC852),
            PageCode::PC858 => Ok(PageCodeTable::PC858),
            PageCode::PC860 => Ok(PageCodeTable::PC860),
            PageCode::PC865 => Ok(PageCodeTable::PC865),
            PageCode::ISO8859_2 => Ok(PageCodeTable::ISO8859_2),
            PageCode::ISO8859_7 => Ok(PageCodeTable::ISO8859_7),
            PageCode::ISO8859_15 => Ok(PageCodeTable::ISO8859_15),
            PageCode::WPC1252 => Ok(PageCodeTable::WPC1252),
            _ => Err(PrinterError::Input("no table for this page code".to_owned())),
        }
    }

    /// Build the (character, byte) pairs of this table.
    pub fn get_table(&self) -> (v: Vec<(char, u8)>)
        ensures
            v@ == self.table_spec(),
    {
        match self {
            PageCodeTable::PC437 => {
                let s = "ÇüéâäàåçêëèïîìÄÅÉæÆôöòûùÿÖÜ¢£¥₧ƒáíóúñÑªº¿⌐¬½¼¡«»░▒▓│┤╡╢╖╕╣║╗╝╜╛┐└┴┬├─┼╞╟╚╔╩╦╠═╬╧╨╤╥╙╘╒╓╫╪┘┌█▄▌▐▀αßΓπΣσµτΦΘΩδ∞φε∩≡±≥≤⌠⌡÷≈°∙·√ⁿ²■\u{A0}";
                proof { reveal_strlit("ÇüéâäàåçêëèïîìÄÅÉæÆôöòûùÿÖÜ¢£¥₧ƒáíóúñÑªº¿⌐¬½¼¡«»░▒▓│┤╡╢╖╕╣║╗╝╜╛┐└┴┬├─┼╞╟╚╔╩╦╠═╬╧╨╤╥╙╘╒╓╫╪┘┌█▄▌▐▀αßΓπΣσµτΦΘΩδ∞φε∩≡±≥≤⌠⌡÷≈°∙·√ⁿ²■\u{A0}"); }
                build_table(s, 128)
            },
            PageCodeTable::PC852 => {
                let s = "ÇüéâäůćçłëŐőîŹÄĆÉĹĺôöĽľŚśÖÜŤťŁ×čáíóúĄąŽžĘę¬źČş«»░▒▓│┤ÁÂĚŞ╣║╗╝Żż┐└┴┬├─┼Ăă╚╔╩╦╠═╬¤đĐĎËďŇÍÎě┘┌█▄ŢŮ▀ÓßÔŃńňŠšŔÚŕŰýÝţ´\u{AD}˝˛ˇ˘§÷¸°¨˙űŘř■\u{A0}";
                proof { reveal_strlit("ÇüéâäůćçłëŐőîŹÄĆÉĹĺôöĽľŚśÖÜŤťŁ×čáíóúĄąŽžĘę¬źČş«»░▒▓│┤ÁÂĚŞ╣║╗╝Żż┐└┴┬├─┼Ăă╚╔╩╦╠═╬¤đĐĎËďŇÍÎě┘┌█▄ŢŮ▀ÓßÔŃńňŠšŔÚŕŰýÝţ´\u{AD}˝˛ˇ˘§÷¸°¨˙űŘř■\u{A0}"); }
                build_table(s, 128)
            },
            PageCodeTable::PC858 => {
                let s = "ÇüéâäàåçêëèïîìÄÅÉæÆôöòûùÿÖÜø£Ø×ƒáíóúñÑªº®⌐¬½¼¡«»░▒▓│┤ÁÂÀ©╣║╗╝¢¥┐└┴┬├─┼ãÃ╚╔╩╦╠═╬¤ðÐÊËÈ€ÍÎÏ┘┌█▄¦Ì▀ÓßÔÔõÕµþÞÚÛÙýÝ¯´-±‗¾¶§÷¸°¨·¹³²■\u{A0}";
                proof { reveal_strlit("ÇüéâäàåçêëèïîìÄÅÉæÆôöòûùÿÖÜø£Ø×ƒáíóúñÑªº®⌐¬½¼¡«»░▒▓│┤ÁÂÀ©╣║╗╝¢¥┐└┴┬├─┼ãÃ╚╔╩╦╠═╬¤ðÐÊËÈ€ÍÎÏ┘┌█▄¦Ì▀ÓßÔÔõÕµþÞÚÛÙýÝ¯´-±‗¾¶§÷¸°¨·¹³²■\u{A0}"); }
                build_table(s, 128)
            },
            PageCodeTable::PC860 => {
                let s = "ÇüéâãàÁçêÊèÍÔìÃÂÉÀÈôõòÚùÌÕÜ¢£Ù₧ÓáíóúñÑªº¿Ò¬½¼¡«»░▒▓│┤╡╢╖╕╣║╗╝╜╛┐└┴┬├─┼╞╟╚╔╩╦╠═╬╧╨╤╥╙╘╒╓╫╪┘┌█▄▌▐▀αßΓπΣσµτΦΘΩδ∞φε∩≡±≥≤⌠⌡÷≈°∙·√ⁿ²■\u{A0}";
                proof { reveal_strlit("ÇüéâãàÁçêÊèÍÔìÃÂÉÀÈôõòÚùÌÕÜ¢£Ù₧ÓáíóúñÑªº¿Ò¬½¼¡«»░▒▓│┤╡╢╖╕╣║╗╝╜╛┐└┴┬├─┼╞╟╚╔╩╦╠═╬╧╨╤╥╙╘╒╓╫╪┘┌█▄▌▐▀αßΓπΣσµτΦΘΩδ∞φε∩≡±≥≤⌠⌡÷≈°∙·√ⁿ²■\u{A0}"); }
                build_table(s, 128)
            },
            PageCodeTable::PC865 => {
                let s = "ÇüéâäàåçêëèïîìÄÅÉæÆôöòûùÿÖÜø£Ø₧ƒáíóúñÑªº¿⌐¬½¼¡«¤░▒▓│┤╡╢╖╕╣║╗╝╜╛┐└┴┬├─┼╞╟╚╔╩╦╠═╬╧╨╤╥╙╘╒╓╫╪┘┌█▄▌▐▀αßΓπΣσµτΦΘΩδ∞φε∩≡±≥≤⌠⌡÷≈°∙·√ⁿ²■\u{A0}";
                proof { reveal_strlit("ÇüéâäàåçêëèïîìÄÅÉæÆôöòûùÿÖÜø£Ø₧ƒáíóúñÑªº¿⌐¬½¼¡«¤░▒▓│┤╡╢╖╕╣║╗╝╜╛┐└┴┬├─┼╞╟╚╔╩╦╠═╬╧╨╤╥╙╘╒╓╫╪┘┌█▄▌▐▀αßΓπΣσµτΦΘΩδ∞φε∩≡±≥≤⌠⌡÷≈°∙·√ⁿ²■\u{A0}"); }
                build_table(s, 128)
            },
            PageCodeTable::ISO8859_2 => {
                let s = "\u{A0}Ą˘Ł¤ĽŚ§¨ŠŞŤŹ\u{AD}ŽŻ°ą˛ł´ľśˇ¸šşťź˝žżŔÁÂĂÄĹĆÇČÉĘËĚÍÎĎĐŃŇÓÔŐÖ×ŘŮÚŰÜÝŢßŕáâăäĺćçčéęëěíîďđńňóôőö÷řůúűüýţ˙";
                proof { reveal_strlit("\u{A0}Ą˘Ł¤ĽŚ§¨ŠŞŤŹ\u{AD}ŽŻ°ą˛ł´ľśˇ¸šşťź˝žżŔÁÂĂÄĹĆÇČÉĘËĚÍÎĎĐŃŇÓÔŐÖ×ŘŮÚŰÜÝŢßŕáâăäĺćçčéęëěíîďđńňóôőö÷řůúűüýţ˙"); }
                build_table(s, 160)
            },
            PageCodeTable::ISO8859_7 => {
                let s = "\u{A0}‘’£€₯¦§¨©ͺ«¬\u{AD}\u{0}―°±²³΄΅Ά·ΈΉΊ»Ό½ΎΏΐΑΒΓΔΕΖΗΘΙΚΛΜΝΞΟΠΡ\u{0}ΣΤΥΦΧΨΩΪΫάέήίΰαβγδεζηθικλμνξοπρςστυφχψωϊϋόύώ";
                proof { reveal_strlit("\u{A0}‘’£€₯¦§¨©ͺ«¬\u{AD}\u{0}―°±²³΄΅Ά·ΈΉΊ»Ό½ΎΏΐΑΒΓΔΕΖΗΘΙΚΛΜΝΞΟΠΡ\u{0}ΣΤΥΦΧΨΩΪΫάέήίΰαβγδεζηθικλμνξοπρςστυφχψωϊϋόύώ"); }
                build_table(s, 160)
            },
            PageCodeTable::ISO8859_15 => {
                let s = "\u{A0}¡¢£€¥Š§š©ª«¬\u{AD}®¯°±²³Žµ¶·ž¹º»ŒœŸ¿ÀÁÂÃÄÅÆÇÈÉÊËÌÍÎÏÐÑÒÓÔÕÖ×ØÙÚÛÜÝÞßàáâãäåæçèéêëìíîïðñòóôõö÷øùúûüýþÿ";
                proof { reveal_strlit("\u{A0}¡¢£€¥Š§š©ª«¬\u{AD}®¯°±²³Žµ¶·ž¹º»ŒœŸ¿ÀÁÂÃÄÅÆÇÈÉÊËÌÍÎÏÐÑÒÓÔÕÖ×ØÙÚÛÜÝÞßàáâãäåæçèéêëìíîïðñòóôõö÷øùúûüýþÿ"); }
                build_table(s, 160)
            },
            PageCodeTable::WPC1252 => {
                let s = "€\u{0}‚ƒ„…†‡ˆ‰Š‹Œ\u{0}Ž\u{0}\u{0}‘’“”•–—˜™š›œ\u{0}žŸ\u{A0}¡¢£¤¥¦§¨©ª«¬\u{AD}®¯°±²³´µ¶·¸¹º»¼½¾¿ÀÁÂÃÄÅÆÇÈÉÊËÌÍÎÏÐÑÒÓÔÕÖ×ØÙÚÛÜÝÞßàáâãäåæçèéêëìíîïðñòóôõö÷øùúûüýþÿ";
                proof { reveal_strlit("€\u{0}‚ƒ„…†‡ˆ‰Š‹Œ\u{0}Ž\u{0}\u{0}‘’“”•–—˜™š›œ\u{0}žŸ\u{A0}¡¢£¤¥¦§¨©ª«¬\u{AD}®¯°±²³´µ¶·¸¹º»¼½¾¿ÀÁÂÃÄÅÆÇÈÉÊËÌÍÎÏÐÑÒÓÔÕÖ×ØÙÚÛÜÝÞßàáâãäåæçèéêëìíîïðñòóôõö÷øùúûüýþÿ"); }
                build_table(s, 128)
            },
        }
    }
}

} // verus!
