//! The registry of code-page tables: for every supported page, the literal
//! slot list and base offset of its transliteration table.

use vstd::prelude::*;
use crate::code_table::{table_lookup, CodeTable};
use crate::errors::Error;
use crate::page_code::PageCode;

verus! {

/// The code pages a transliteration table exists for: the supported
/// closed set. Requesting any other page is a configuration error.
#[derive(Debug, Clone, Copy, PartialEq, Eq, Structural)]
pub enum PageCodeTable {
    PC437,
    Katakana,
    PC850,
    PC852,
    PC858,
    PC860,
    PC863,
    PC865,
    PC851,
    PC853,
    PC857,
    PC737,
    ISO8859_2,
    ISO8859_7,
    ISO8859_15,
    WPC1252,
    PC866,
    WPC775,
    PC855,
    PC861,
    PC862,
    PC869,
    PC1118,
    PC1119,
    PC1125,
    WPC1250,
    WPC1251,
    WPC1253,
    WPC1254,
    WPC1257,
    KZ1048,
}

/// The slot characters of the PC437 table.
pub open spec fn pc437_chars() -> Seq<char> {
    "ÇüéâäàåçêëèïîìÄÅÉæÆôöòûùÿÖÜ¢£¥₧ƒáíóúñÑªº¿⌐¬½¼¡«»░▒▓│┤╡╢╖╕╣║╗╝╜╛┐└┴┬├─┼╞╟╚╔╩╦╠═╬╧╨╤╥╙╘╒╓╫╪┘┌█▄▌▐▀αßΓπΣσµτΦΘΩδ∞φε∩≡±≥≤⌠⌡÷≈°∙·√ⁿ²■\u{A0}"@
}

fn pc437_table() -> (t: CodeTable)
    ensures
        t.wf(),
        t.slots_spec() == pc437_chars(),
        t.base_spec() == 0x80,
{
    let slots = "ÇüéâäàåçêëèïîìÄÅÉæÆôöòûùÿÖÜ¢£¥₧ƒáíóúñÑªº¿⌐¬½¼¡«»░▒▓│┤╡╢╖╕╣║╗╝╜╛┐└┴┬├─┼╞╟╚╔╩╦╠═╬╧╨╤╥╙╘╒╓╫╪┘┌█▄▌▐▀αßΓπΣσµτΦΘΩδ∞φε∩≡±≥≤⌠⌡÷≈°∙·√ⁿ²■\u{A0}";
    proof {
        reveal_strlit("ÇüéâäàåçêëèïîìÄÅÉæÆôöòûùÿÖÜ¢£¥₧ƒáíóúñÑªº¿⌐¬½¼¡«»░▒▓│┤╡╢╖╕╣║╗╝╜╛┐└┴┬├─┼╞╟╚╔╩╦╠═╬╧╨╤╥╙╘╒╓╫╪┘┌█▄▌▐▀αßΓπΣσµτΦΘΩδ∞φε∩≡±≥≤⌠⌡÷≈°∙·√ⁿ²■\u{A0}");
        assert(slots@.len() == 128);
    }
    CodeTable { slots, base: 0x80 }
}

/// The slot characters of the Katakana table.
pub open spec fn katakana_chars() -> Seq<char> {
    "｡｢｣､･ｦｧｨｩｪｫｬｭｮｯｰｱｲｳｴｵｶｷｸｹｺｻｼｽｾｿﾀﾁﾂﾃﾄﾅﾆﾇﾈﾉﾊﾋﾌﾍﾎﾏﾐﾑﾒﾓﾔﾕﾖﾗﾘﾙﾚﾛﾜﾝﾞﾟ"@
}

fn katakana_table() -> (t: CodeTable)
    ensures
        t.wf(),
        t.slots_spec() == katakana_chars(),
        t.base_spec() == 0xA1,
{
    let slots = "｡｢｣､･ｦｧｨｩｪｫｬｭｮｯｰｱｲｳｴｵｶｷｸｹｺｻｼｽｾｿﾀﾁﾂﾃﾄﾅﾆﾇﾈﾉﾊﾋﾌﾍﾎﾏﾐﾑﾒﾓﾔﾕﾖﾗﾘﾙﾚﾛﾜﾝﾞﾟ";
    proof {
        reveal_strlit("｡｢｣､･ｦｧｨｩｪｫｬｭｮｯｰｱｲｳｴｵｶｷｸｹｺｻｼｽｾｿﾀﾁﾂﾃﾄﾅﾆﾇﾈﾉﾊﾋﾌﾍﾎﾏﾐﾑﾒﾓﾔﾕﾖﾗﾘﾙﾚﾛﾜﾝﾞﾟ");
        assert(slots@.len() == 63);
    }
    CodeTable { slots, base: 0xA1 }
}

/// The slot characters of the PC850 table.
pub open spec fn pc850_chars() -> Seq<char> {
    "ÇüéâäàåçêëèïîìÄÅÉæÆôöòûùÿÖÜø£Ø×ƒáíóúñÑªº¿®¬½¼¡«»░▒▓│┤ÁÂÀ©╣║╗╝¢¥┐└┴┬├─┼ãÃ╚╔╩╦╠═╬¤ðÐÊËÈıÍÎÏ┘┌█▄¦Ì▀ÓßÔÒõÕµþÞÚÛÙýÝ¯´-±‗¾¶§÷¸°¨·¹³²■\u{A0}"@
}

fn pc850_table() -> (t: CodeTable)
    ensures
        t.wf(),
        t.slots_spec() == pc850_chars(),
        t.base_spec() == 0x80,
{
    let slots = "ÇüéâäàåçêëèïîìÄÅÉæÆôöòûùÿÖÜø£Ø×ƒáíóúñÑªº¿®¬½¼¡«»░▒▓│┤ÁÂÀ©╣║╗╝¢¥┐└┴┬├─┼ãÃ╚╔╩╦╠═╬¤ðÐÊËÈıÍÎÏ┘┌█▄¦Ì▀ÓßÔÒõÕµþÞÚÛÙýÝ¯´-±‗¾¶§÷¸°¨·¹³²■\u{A0}";
    proof {
        reveal_strlit("ÇüéâäàåçêëèïîìÄÅÉæÆôöòûùÿÖÜø£Ø×ƒáíóúñÑªº¿®¬½¼¡«»░▒▓│┤ÁÂÀ©╣║╗╝¢¥┐└┴┬├─┼ãÃ╚╔╩╦╠═╬¤ðÐÊËÈıÍÎÏ┘┌█▄¦Ì▀ÓßÔÒõÕµþÞÚÛÙýÝ¯´-±‗¾¶§÷¸°¨·¹³²■\u{A0}");
        assert(slots@.len() == 128);
    }
    CodeTable { slots, base: 0x80 }
}

/// The slot characters of the PC852 table.
pub open spec fn pc852_chars() -> Seq<char> {
    "ÇüéâäůćçłëŐőîŹÄĆÉĹĺôöĽľŚśÖÜŤťŁ×čáíóúĄąŽžĘę¬źČş«»░▒▓│┤ÁÂĚŞ╣║╗╝Żż┐└┴┬├─┼Ăă╚╔╩╦╠═╬¤đĐĎËďŇÍÎě┘┌█▄ŢŮ▀ÓßÔŃńňŠšŔÚŕŰýÝţ´\u{AD}˝˛ˇ˘§÷¸°¨˙űŘř■\u{A0}"@
}

fn pc852_table() -> (t: CodeTable)
    ensures
        t.wf(),
        t.slots_spec() == pc852_chars(),
        t.base_spec() == 0x80,
{
    let slots = "ÇüéâäůćçłëŐőîŹÄĆÉĹĺôöĽľŚśÖÜŤťŁ×čáíóúĄąŽžĘę¬źČş«»░▒▓│┤ÁÂĚŞ╣║╗╝Żż┐└┴┬├─┼Ăă╚╔╩╦╠═╬¤đĐĎËďŇÍÎě┘┌█▄ŢŮ▀ÓßÔŃńňŠšŔÚŕŰýÝţ´\u{AD}˝˛ˇ˘§÷¸°¨˙űŘř■\u{A0}";
    proof {
        reveal_strlit("ÇüéâäůćçłëŐőîŹÄĆÉĹĺôöĽľŚśÖÜŤťŁ×čáíóúĄąŽžĘę¬źČş«»░▒▓│┤ÁÂĚŞ╣║╗╝Żż┐└┴┬├─┼Ăă╚╔╩╦╠═╬¤đĐĎËďŇÍÎě┘┌█▄ŢŮ▀ÓßÔŃńňŠšŔÚŕŰýÝţ´\u{AD}˝˛ˇ˘§÷¸°¨˙űŘř■\u{A0}");
        assert(slots@.len() == 128);
    }
    CodeTable { slots, base: 0x80 }
}

/// The slot characters of the PC858 table.
pub open spec fn pc858_chars() -> Seq<char> {
    "ÇüéâäàåçêëèïîìÄÅÉæÆôöòûùÿÖÜø£Ø×ƒáíóúñÑªº®⌐¬½¼¡«»░▒▓│┤ÁÂÀ©╣║╗╝¢¥┐└┴┬├─┼ãÃ╚╔╩╦╠═╬¤ðÐÊËÈ€ÍÎÏ┘┌█▄¦Ì▀ÓßÔÔõÕµþÞÚÛÙýÝ¯´-±‗¾¶§÷¸°¨·¹³²■\u{A0}"@
}

fn pc858_table() -> (t: CodeTable)
    ensures
        t.wf(),
        t.slots_spec() == pc858_chars(),
        t.base_spec() == 0x80,
{
    let slots = "ÇüéâäàåçêëèïîìÄÅÉæÆôöòûùÿÖÜø£Ø×ƒáíóúñÑªº®⌐¬½¼¡«»░▒▓│┤ÁÂÀ©╣║╗╝¢¥┐└┴┬├─┼ãÃ╚╔╩╦╠═╬¤ðÐÊËÈ€ÍÎÏ┘┌█▄¦Ì▀ÓßÔÔõÕµþÞÚÛÙýÝ¯´-±‗¾¶§÷¸°¨·¹³²■\u{A0}";
    proof {
        reveal_strlit("ÇüéâäàåçêëèïîìÄÅÉæÆôöòûùÿÖÜø£Ø×ƒáíóúñÑªº®⌐¬½¼¡«»░▒▓│┤ÁÂÀ©╣║╗╝¢¥┐└┴┬├─┼ãÃ╚╔╩╦╠═╬¤ðÐÊËÈ€ÍÎÏ┘┌█▄¦Ì▀ÓßÔÔõÕµþÞÚÛÙýÝ¯´-±‗¾¶§÷¸°¨·¹³²■\u{A0}");
        assert(slots@.len() == 128);
    }
    CodeTable { slots, base: 0x80 }
}

/// The slot characters of the PC860 table.
pub open spec fn pc860_chars() -> Seq<char> {
    "ÇüéâãàÁçêÊèÍÔìÃÂÉÀÈôõòÚùÌÕÜ¢£Ù₧ÓáíóúñÑªº¿Ò¬½¼¡«»░▒▓│┤╡╢╖╕╣║╗╝╜╛┐└┴┬├─┼╞╟╚╔╩╦╠═╬╧╨╤╥╙╘╒╓╫╪┘┌█▄▌▐▀αßΓπΣσµτΦΘΩδ∞φε∩≡±≥≤⌠⌡÷≈°∙·√ⁿ²■\u{A0}"@
}

fn pc860_table() -> (t: CodeTable)
    ensures
        t.wf(),
        t.slots_spec() == pc860_chars(),
        t.base_spec() == 0x80,
{
    let slots = "ÇüéâãàÁçêÊèÍÔìÃÂÉÀÈôõòÚùÌÕÜ¢£Ù₧ÓáíóúñÑªº¿Ò¬½¼¡«»░▒▓│┤╡╢╖╕╣║╗╝╜╛┐└┴┬├─┼╞╟╚╔╩╦╠═╬╧╨╤╥╙╘╒╓╫╪┘┌█▄▌▐▀αßΓπΣσµτΦΘΩδ∞φε∩≡±≥≤⌠⌡÷≈°∙·√ⁿ²■\u{A0}";
    proof {
        reveal_strlit("ÇüéâãàÁçêÊèÍÔìÃÂÉÀÈôõòÚùÌÕÜ¢£Ù₧ÓáíóúñÑªº¿Ò¬½¼¡«»░▒▓│┤╡╢╖╕╣║╗╝╜╛┐└┴┬├─┼╞╟╚╔╩╦╠═╬╧╨╤╥╙╘╒╓╫╪┘┌█▄▌▐▀αßΓπΣσµτΦΘΩδ∞φε∩≡±≥≤⌠⌡÷≈°∙·√ⁿ²■\u{A0}");
        assert(slots@.len() == 128);
    }
    CodeTable { slots, base: 0x80 }
}

/// The slot characters of the PC863 table.
pub open spec fn pc863_chars() -> Seq<char> {
    "ÇüéâÂà¶çêëèïî‗À§ÉÈÊôËÏûù¤ÔÜ¢£ÙÛƒ¦´óú¨¸³¯Î⌐¬½¼¾«»░▒▓│┤╡╢╖╕╣║╗╝╜╛┐└┴┬├─┼╞╟╚╔╩╦╠═╬╧╨╤╥╙╘╒╓╫╪┘┌█▄▌▐▀αßΓπΣσµτΦΘΩδ∞φε∩≡±≥≤⌠⌡÷≈°∙·√ⁿ²■\u{A0}"@
}

fn pc863_table() -> (t: CodeTable)
    ensures
        t.wf(),
        t.slots_spec() == pc863_chars(),
        t.base_spec() == 0x80,
{
    let slots = "ÇüéâÂà¶çêëèïî‗À§ÉÈÊôËÏûù¤ÔÜ¢£ÙÛƒ¦´óú¨¸³¯Î⌐¬½¼¾«»░▒▓│┤╡╢╖╕╣║╗╝╜╛┐└┴┬├─┼╞╟╚╔╩╦╠═╬╧╨╤╥╙╘╒╓╫╪┘┌█▄▌▐▀αßΓπΣσµτΦΘΩδ∞φε∩≡±≥≤⌠⌡÷≈°∙·√ⁿ²■\u{A0}";
    proof {
        reveal_strlit("ÇüéâÂà¶çêëèïî‗À§ÉÈÊôËÏûù¤ÔÜ¢£ÙÛƒ¦´óú¨¸³¯Î⌐¬½¼¾«»░▒▓│┤╡╢╖╕╣║╗╝╜╛┐└┴┬├─┼╞╟╚╔╩╦╠═╬╧╨╤╥╙╘╒╓╫╪┘┌█▄▌▐▀αßΓπΣσµτΦΘΩδ∞φε∩≡±≥≤⌠⌡÷≈°∙·√ⁿ²■\u{A0}");
        assert(slots@.len() == 128);
    }
    CodeTable { slots, base: 0x80 }
}

/// The slot characters of the PC865 table.
pub open spec fn pc865_chars() -> Seq<char> {
    "ÇüéâäàåçêëèïîìÄÅÉæÆôöòûùÿÖÜø£Ø₧ƒáíóúñÑªº¿⌐¬½¼¡«¤░▒▓│┤╡╢╖╕╣║╗╝╜╛┐└┴┬├─┼╞╟╚╔╩╦╠═╬╧╨╤╥╙╘╒╓╫╪┘┌█▄▌▐▀αßΓπΣσµτΦΘΩδ∞φε∩≡±≥≤⌠⌡÷≈°∙·√ⁿ²■\u{A0}"@
}

fn pc865_table() -> (t: CodeTable)
    ensures
        t.wf(),
        t.slots_spec() == pc865_chars(),
        t.base_spec() == 0x80,
{
    let slots = "ÇüéâäàåçêëèïîìÄÅÉæÆôöòûùÿÖÜø£Ø₧ƒáíóúñÑªº¿⌐¬½¼¡«¤░▒▓│┤╡╢╖╕╣║╗╝╜╛┐└┴┬├─┼╞╟╚╔╩╦╠═╬╧╨╤╥╙╘╒╓╫╪┘┌█▄▌▐▀αßΓπΣσµτΦΘΩδ∞φε∩≡±≥≤⌠⌡÷≈°∙·√ⁿ²■\u{A0}";
    proof {
        reveal_strlit("ÇüéâäàåçêëèïîìÄÅÉæÆôöòûùÿÖÜø£Ø₧ƒáíóúñÑªº¿⌐¬½¼¡«¤░▒▓│┤╡╢╖╕╣║╗╝╜╛┐└┴┬├─┼╞╟╚╔╩╦╠═╬╧╨╤╥╙╘╒╓╫╪┘┌█▄▌▐▀αßΓπΣσµτΦΘΩδ∞φε∩≡±≥≤⌠⌡÷≈°∙·√ⁿ²■\u{A0}");
        assert(slots@.len() == 128);
    }
    CodeTable { slots, base: 0x80 }
}

/// The slot characters of the PC851 table.
pub open spec fn pc851_chars() -> Seq<char> {
    "ÇüéâäàΆçêëèïîΈÄΉΊ\u{0}ΌôöΎûùΏÖÜά£έήίϊΐόύΑΒΓΔΕΖΗ½ΘΙ«»░▒▓│┤ΚΛΜΝ╣║╗╝ΞΟ┐└┴┬├─┼ΠΡ╚╔╩╦╠═╬ΣΤΥΦΧΨΩαβγ┘┌█▄δε▀ζηθικλμνξοπρσςτ´-±υφχ§ψ¸°¨ωϋΰώ■\u{A0}"@
}

fn pc851_table() -> (t: CodeTable)
    ensures
        t.wf(),
        t.slots_spec() == pc851_chars(),
        t.base_spec() == 0x80,
{
    let slots = "ÇüéâäàΆçêëèïîΈÄΉΊ\u{0}ΌôöΎûùΏÖÜά£έήίϊΐόύΑΒΓΔΕΖΗ½ΘΙ«»░▒▓│┤ΚΛΜΝ╣║╗╝ΞΟ┐└┴┬├─┼ΠΡ╚╔╩╦╠═╬ΣΤΥΦΧΨΩαβγ┘┌█▄δε▀ζηθικλμνξοπρσςτ´-±υφχ§ψ¸°¨ωϋΰώ■\u{A0}";
    proof {
        reveal_strlit("ÇüéâäàΆçêëèïîΈÄΉΊ\u{0}ΌôöΎûùΏÖÜά£έήίϊΐόύΑΒΓΔΕΖΗ½ΘΙ«»░▒▓│┤ΚΛΜΝ╣║╗╝ΞΟ┐└┴┬├─┼ΠΡ╚╔╩╦╠═╬ΣΤΥΦΧΨΩαβγ┘┌█▄δε▀ζηθικλμνξοπρσςτ´-±υφχ§ψ¸°¨ωϋΰώ■\u{A0}");
        assert(slots@.len() == 128);
    }
    CodeTable { slots, base: 0x80 }
}

/// The slot characters of the PC853 table.
pub open spec fn pc853_chars() -> Seq<char> {
    "ÇüéâäàĉçêëèïîìÄĈÉċĊôöòûùİÖÜĝ£Ĝ×ĵáíóúñÑĞğĤĥ\u{0}½Ĵş«»░▒▓│┤ÁÂÀŞ╣║╗╝Żż┐└┴┬├─┼Ŝŝ╚╔╩╦╠═╬¤\u{0}\u{0}ÊËÈıÍÎÏ┘┌█▄\u{0}Ì▀ÓßÔÒĠġµĦħÚÛÙŬŭ·´-\u{0}ℓŉ˘§÷¸°¨˙\u{0}³²■\u{A0}"@
}

fn pc853_table() -> (t: CodeTable)
    ensures
        t.wf(),
        t.slots_spec() == pc853_chars(),
        t.base_spec() == 0x80,
{
    let slots = "ÇüéâäàĉçêëèïîìÄĈÉċĊôöòûùİÖÜĝ£Ĝ×ĵáíóúñÑĞğĤĥ\u{0}½Ĵş«»░▒▓│┤ÁÂÀŞ╣║╗╝Żż┐└┴┬├─┼Ŝŝ╚╔╩╦╠═╬¤\u{0}\u{0}ÊËÈıÍÎÏ┘┌█▄\u{0}Ì▀ÓßÔÒĠġµĦħÚÛÙŬŭ·´-\u{0}ℓŉ˘§÷¸°¨˙\u{0}³²■\u{A0}";
    proof {
        reveal_strlit("ÇüéâäàĉçêëèïîìÄĈÉċĊôöòûùİÖÜĝ£Ĝ×ĵáíóúñÑĞğĤĥ\u{0}½Ĵş«»░▒▓│┤ÁÂÀŞ╣║╗╝Żż┐└┴┬├─┼Ŝŝ╚╔╩╦╠═╬¤\u{0}\u{0}ÊËÈıÍÎÏ┘┌█▄\u{0}Ì▀ÓßÔÒĠġµĦħÚÛÙŬŭ·´-\u{0}ℓŉ˘§÷¸°¨˙\u{0}³²■\u{A0}");
        assert(slots@.len() == 128);
    }
    CodeTable { slots, base: 0x80 }
}

/// The slot characters of the PC857 table.
pub open spec fn pc857_chars() -> Seq<char> {
    "ÇüéâäàåçêëèïîıÄÅÉæÆôöòûùİÖÜø£ØŞşáíóúñÑĞğ¿®¬½¼¡«»░▒▓│┤ÁÂÀ©╣║╗╝¢¥┐└┴┬├─┼ãÃ╚╔╩╦╠═╬¤ºªÊËÈ€ÍÎÏ┘┌█▄¦Ì▀ÓßÔÒõÕµ.×ÚÛÙìÿ¯´-±\u{0}¾¶§÷¸°¨·¹³²■\u{A0}"@
}

fn pc857_table() -> (t: CodeTable)
    ensures
        t.wf(),
        t.slots_spec() == pc857_chars(),
        t.base_spec() == 0x80,
{
    let slots = "ÇüéâäàåçêëèïîıÄÅÉæÆôöòûùİÖÜø£ØŞşáíóúñÑĞğ¿®¬½¼¡«»░▒▓│┤ÁÂÀ©╣║╗╝¢¥┐└┴┬├─┼ãÃ╚╔╩╦╠═╬¤ºªÊËÈ€ÍÎÏ┘┌█▄¦Ì▀ÓßÔÒõÕµ.×ÚÛÙìÿ¯´-±\u{0}¾¶§÷¸°¨·¹³²■\u{A0}";
    proof {
        reveal_strlit("ÇüéâäàåçêëèïîıÄÅÉæÆôöòûùİÖÜø£ØŞşáíóúñÑĞğ¿®¬½¼¡«»░▒▓│┤ÁÂÀ©╣║╗╝¢¥┐└┴┬├─┼ãÃ╚╔╩╦╠═╬¤ºªÊËÈ€ÍÎÏ┘┌█▄¦Ì▀ÓßÔÒõÕµ.×ÚÛÙìÿ¯´-±\u{0}¾¶§÷¸°¨·¹³²■\u{A0}");
        assert(slots@.len() == 128);
    }
    CodeTable { slots, base: 0x80 }
}

/// The slot characters of the PC737 table.
pub open spec fn pc737_chars() -> Seq<char> {
    "ΑΒΓΔΕΖΗΘΙΚΛΜΝΞΟΠΡΣΤΥΦΧΨΩαβγδεζηθικλμνξοπρσςτυφχψ░▒▓│┤╡╢╖╕╣║╗╝╜╛┐└┴┬├─┼╞╟╚╔╩╦╠═╬╧╨╤╥╙╘╒╓╫╪┘┌█▄▌▐▀ωάέήϊίόύϋώΆΈΉΊΌΎΏ±≥≤ΪΫ÷≈°∙·√ⁿ²■\u{A0}"@
}

fn pc737_table() -> (t: CodeTable)
    ensures
        t.wf(),
        t.slots_spec() == pc737_chars(),
        t.base_spec() == 0x80,
{
    let slots = "ΑΒΓΔΕΖΗΘΙΚΛΜΝΞΟΠΡΣΤΥΦΧΨΩαβγδεζηθικλμνξοπρσςτυφχψ░▒▓│┤╡╢╖╕╣║╗╝╜╛┐└┴┬├─┼╞╟╚╔╩╦╠═╬╧╨╤╥╙╘╒╓╫╪┘┌█▄▌▐▀ωάέήϊίόύϋώΆΈΉΊΌΎΏ±≥≤ΪΫ÷≈°∙·√ⁿ²■\u{A0}";
    proof {
        reveal_strlit("ΑΒΓΔΕΖΗΘΙΚΛΜΝΞΟΠΡΣΤΥΦΧΨΩαβγδεζηθικλμνξοπρσςτυφχψ░▒▓│┤╡╢╖╕╣║╗╝╜╛┐└┴┬├─┼╞╟╚╔╩╦╠═╬╧╨╤╥╙╘╒╓╫╪┘┌█▄▌▐▀ωάέήϊίόύϋώΆΈΉΊΌΎΏ±≥≤ΪΫ÷≈°∙·√ⁿ²■\u{A0}");
        assert(slots@.len() == 128);
    }
    CodeTable { slots, base: 0x80 }
}

/// The slot characters of the ISO8859_2 table.
pub open spec fn iso8859_2_chars() -> Seq<char> {
    "\u{A0}Ą˘Ł¤ĽŚ§¨ŠŞŤŹ\u{AD}ŽŻ°ą˛ł´ľśˇ¸šşťź˝žżŔÁÂĂÄĹĆÇČÉĘËĚÍÎĎĐŃŇÓÔŐÖ×ŘŮÚŰÜÝŢßŕáâăäĺćçčéęëěíîďđńňóôőö÷řůúűüýţ˙"@
}

fn iso8859_2_table() -> (t: CodeTable)
    ensures
        t.wf(),
        t.slots_spec() == iso8859_2_chars(),
        t.base_spec() == 0xA0,
{
    let slots = "\u{A0}Ą˘Ł¤ĽŚ§¨ŠŞŤŹ\u{AD}ŽŻ°ą˛ł´ľśˇ¸šşťź˝žżŔÁÂĂÄĹĆÇČÉĘËĚÍÎĎĐŃŇÓÔŐÖ×ŘŮÚŰÜÝŢßŕáâăäĺćçčéęëěíîďđńňóôőö÷řůúűüýţ˙";
    proof {
        reveal_strlit("\u{A0}Ą˘Ł¤ĽŚ§¨ŠŞŤŹ\u{AD}ŽŻ°ą˛ł´ľśˇ¸šşťź˝žżŔÁÂĂÄĹĆÇČÉĘËĚÍÎĎĐŃŇÓÔŐÖ×ŘŮÚŰÜÝŢßŕáâăäĺćçčéęëěíîďđńňóôőö÷řůúűüýţ˙");
        assert(slots@.len() == 96);
    }
    CodeTable { slots, base: 0xA0 }
}

/// The slot characters of the ISO8859_7 table.
pub open spec fn iso8859_7_chars() -> Seq<char> {
    "\u{A0}‘’£€₯¦§¨©ͺ«¬\u{AD}\u{0}―°±²³΄΅Ά·ΈΉΊ»Ό½ΎΏΐΑΒΓΔΕΖΗΘΙΚΛΜΝΞΟΠΡ\u{0}ΣΤΥΦΧΨΩΪΫάέήίΰαβγδεζηθικλμνξοπρςστυφχψωϊϋόύώ"@
}

fn iso8859_7_table() -> (t: CodeTable)
    ensures
        t.wf(),
        t.slots_spec() == iso8859_7_chars(),
        t.base_spec() == 0xA0,
{
    let slots = "\u{A0}‘’£€₯¦§¨©ͺ«¬\u{AD}\u{0}―°±²³΄΅Ά·ΈΉΊ»Ό½ΎΏΐΑΒΓΔΕΖΗΘΙΚΛΜΝΞΟΠΡ\u{0}ΣΤΥΦΧΨΩΪΫάέήίΰαβγδεζηθικλμνξοπρςστυφχψωϊϋόύώ";
    proof {
        reveal_strlit("\u{A0}‘’£€₯¦§¨©ͺ«¬\u{AD}\u{0}―°±²³΄΅Ά·ΈΉΊ»Ό½ΎΏΐΑΒΓΔΕΖΗΘΙΚΛΜΝΞΟΠΡ\u{0}ΣΤΥΦΧΨΩΪΫάέήίΰαβγδεζηθικλμνξοπρςστυφχψωϊϋόύώ");
        assert(slots@.len() == 95);
    }
    CodeTable { slots, base: 0xA0 }
}

/// The slot characters of the ISO8859_15 table.
pub open spec fn iso8859_15_chars() -> Seq<char> {
    "\u{A0}¡¢£€¥Š§š©ª«¬\u{AD}®¯°±²³Žµ¶·ž¹º»ŒœŸ¿ÀÁÂÃÄÅÆÇÈÉÊËÌÍÎÏÐÑÒÓÔÕÖ×ØÙÚÛÜÝÞßàáâãäåæçèéêëìíîïðñòóôõö÷øùúûüýþÿ"@
}

fn iso8859_15_table() -> (t: CodeTable)
    ensures
        t.wf(),
        t.slots_spec() == iso8859_15_chars(),
        t.base_spec() == 0xA0,
{
    let slots = "\u{A0}¡¢£€¥Š§š©ª«¬\u{AD}®¯°±²³Žµ¶·ž¹º»ŒœŸ¿ÀÁÂÃÄÅÆÇÈÉÊËÌÍÎÏÐÑÒÓÔÕÖ×ØÙÚÛÜÝÞßàáâãäåæçèéêëìíîïðñòóôõö÷øùúûüýþÿ";
    proof {
        reveal_strlit("\u{A0}¡¢£€¥Š§š©ª«¬\u{AD}®¯°±²³Žµ¶·ž¹º»ŒœŸ¿ÀÁÂÃÄÅÆÇÈÉÊËÌÍÎÏÐÑÒÓÔÕÖ×ØÙÚÛÜÝÞßàáâãäåæçèéêëìíîïðñòóôõö÷øùúûüýþÿ");
        assert(slots@.len() == 96);
    }
    CodeTable { slots, base: 0xA0 }
}

/// The slot characters of the WPC1252 table.
pub open spec fn wpc1252_chars() -> Seq<char> {
    "€\u{0}‚ƒ„…†‡ˆ‰Š‹Œ\u{0}Ž\u{0}\u{0}‘’“”•–—˜™š›œ\u{0}žŸ\u{A0}¡¢£¤¥¦§¨©ª«¬\u{AD}®¯°±²³´µ¶·¸¹º»¼½¾¿ÀÁÂÃÄÅÆÇÈÉÊËÌÍÎÏÐÑÒÓÔÕÖ×ØÙÚÛÜÝÞßàáâãäåæçèéêëìíîïðñòóôõö÷øùúûüýþÿ"@
}

fn wpc1252_table() -> (t: CodeTable)
    ensures
        t.wf(),
        t.slots_spec() == wpc1252_chars(),
        t.base_spec() == 0x80,
{
    let slots = "€\u{0}‚ƒ„…†‡ˆ‰Š‹Œ\u{0}Ž\u{0}\u{0}‘’“”•–—˜™š›œ\u{0}žŸ\u{A0}¡¢£¤¥¦§¨©ª«¬\u{AD}®¯°±²³´µ¶·¸¹º»¼½¾¿ÀÁÂÃÄÅÆÇÈÉÊËÌÍÎÏÐÑÒÓÔÕÖ×ØÙÚÛÜÝÞßàáâãäåæçèéêëìíîïðñòóôõö÷øùúûüýþÿ";
    proof {
        reveal_strlit("€\u{0}‚ƒ„…†‡ˆ‰Š‹Œ\u{0}Ž\u{0}\u{0}‘’“”•–—˜™š›œ\u{0}žŸ\u{A0}¡¢£¤¥¦§¨©ª«¬\u{AD}®¯°±²³´µ¶·¸¹º»¼½¾¿ÀÁÂÃÄÅÆÇÈÉÊËÌÍÎÏÐÑÒÓÔÕÖ×ØÙÚÛÜÝÞßàáâãäåæçèéêëìíîïðñòóôõö÷øùúûüýþÿ");
        assert(slots@.len() == 128);
    }
    CodeTable { slots, base: 0x80 }
}

/// The slot characters of the PC866 table.
pub open spec fn pc866_chars() -> Seq<char> {
    "АБВГДЕЖЗИЙКЛМНОПРСТУФХЦЧШЩЪЫЬЭЮЯабвгдежзийклмноп░▒▓│┤╡╢╖╕╣║╗╝╜╛┐└┴┬├─┼╞╟╚╔╩╦╠═╬╧╨╤╥╙╘╒╓╫╪┘┌█▄▌▐▀рстуфхцчшщъыьэюяЁёЄєЇїЎў°∙·√№¤■\u{A0}"@
}

fn pc866_table() -> (t: CodeTable)
    ensures
        t.wf(),
        t.slots_spec() == pc866_chars(),
        t.base_spec() == 0x80,
{
    let slots = "АБВГДЕЖЗИЙКЛМНОПРСТУФХЦЧШЩЪЫЬЭЮЯабвгдежзийклмноп░▒▓│┤╡╢╖╕╣║╗╝╜╛┐└┴┬├─┼╞╟╚╔╩╦╠═╬╧╨╤╥╙╘╒╓╫╪┘┌█▄▌▐▀рстуфхцчшщъыьэюяЁёЄєЇїЎў°∙·√№¤■\u{A0}";
    proof {
        reveal_strlit("АБВГДЕЖЗИЙКЛМНОПРСТУФХЦЧШЩЪЫЬЭЮЯабвгдежзийклмноп░▒▓│┤╡╢╖╕╣║╗╝╜╛┐└┴┬├─┼╞╟╚╔╩╦╠═╬╧╨╤╥╙╘╒╓╫╪┘┌█▄▌▐▀рстуфхцчшщъыьэюяЁёЄєЇїЎў°∙·√№¤■\u{A0}");
        assert(slots@.len() == 128);
    }
    CodeTable { slots, base: 0x80 }
}

/// The slot characters of the WPC775 table.
pub open spec fn wpc775_chars() -> Seq<char> {
    "ĆüéāäģåćłēŖŗīŹÄÅÉæÆōöĢ¢ŚśÖÜø£Ø×¤ĀĪóŻżź”¦©®¬½¼Ł«»░▒▓│┤ĄČĘĖ╣║╗╝ĮŠ┐└┴┬├─┼ŲŪ╚╔╩╦╠═╬Žąčęėįšųūž┘┌█▄▌▐▀ÓßŌŃõÕµńĶķĻļņĒŅ’-±“¾¶§÷„°∙·¹³²■\u{A0}"@
}

fn wpc775_table() -> (t: CodeTable)
    ensures
        t.wf(),
        t.slots_spec() == wpc775_chars(),
        t.base_spec() == 0x80,
{
    let slots = "ĆüéāäģåćłēŖŗīŹÄÅÉæÆōöĢ¢ŚśÖÜø£Ø×¤ĀĪóŻżź”¦©®¬½¼Ł«»░▒▓│┤ĄČĘĖ╣║╗╝ĮŠ┐└┴┬├─┼ŲŪ╚╔╩╦╠═╬Žąčęėįšųūž┘┌█▄▌▐▀ÓßŌŃõÕµńĶķĻļņĒŅ’-±“¾¶§÷„°∙·¹³²■\u{A0}";
    proof {
        reveal_strlit("ĆüéāäģåćłēŖŗīŹÄÅÉæÆōöĢ¢ŚśÖÜø£Ø×¤ĀĪóŻżź”¦©®¬½¼Ł«»░▒▓│┤ĄČĘĖ╣║╗╝ĮŠ┐└┴┬├─┼ŲŪ╚╔╩╦╠═╬Žąčęėįšųūž┘┌█▄▌▐▀ÓßŌŃõÕµńĶķĻļņĒŅ’-±“¾¶§÷„°∙·¹³²■\u{A0}");
        assert(slots@.len() == 128);
    }
    CodeTable { slots, base: 0x80 }
}

/// The slot characters of the PC855 table.
pub open spec fn pc855_chars() -> Seq<char> {
    "ђЂѓЃёЁєЄѕЅіІїЇјЈљЉњЊћЋќЌўЎџЏюЮъЪаАбБцЦдДеЕфФгГ«»░▒▓│┤хХиИ╣║╗╝йЙ┐└┴┬├─┼кК╚╔╩╦╠═╬¤лЛмМнНоОп┘┌█▄Пя▀ЯрРсСтТуУжЖвВьЬ№-ыЫзЗшШэЭщЩчЧ§■\u{A0}"@
}

fn pc855_table() -> (t: CodeTable)
    ensures
        t.wf(),
        t.slots_spec() == pc855_chars(),
        t.base_spec() == 0x80,
{
    let slots = "ђЂѓЃёЁєЄѕЅіІїЇјЈљЉњЊћЋќЌўЎџЏюЮъЪаАбБцЦдДеЕфФгГ«»░▒▓│┤хХиИ╣║╗╝йЙ┐└┴┬├─┼кК╚╔╩╦╠═╬¤лЛмМнНоОп┘┌█▄Пя▀ЯрРсСтТуУжЖвВьЬ№-ыЫзЗшШэЭщЩчЧ§■\u{A0}";
    proof {
        reveal_strlit("ђЂѓЃёЁєЄѕЅіІїЇјЈљЉњЊћЋќЌўЎџЏюЮъЪаАбБцЦдДеЕфФгГ«»░▒▓│┤хХиИ╣║╗╝йЙ┐└┴┬├─┼кК╚╔╩╦╠═╬¤лЛмМнНоОп┘┌█▄Пя▀ЯрРсСтТуУжЖвВьЬ№-ыЫзЗшШэЭщЩчЧ§■\u{A0}");
        assert(slots@.len() == 128);
    }
    CodeTable { slots, base: 0x80 }
}

/// The slot characters of the PC861 table.
pub open spec fn pc861_chars() -> Seq<char> {
    "ÇüéâäàåçêëèÐðÞÄÅÉæÆôöþûÝýÖÜø£Ø₧ƒáíóúÁÍÓÚ¿⌐¬½¼¡«»░▒▓│┤╡╢╖╕╣║╗╝╜╛┐└┴┬├─┼╞╟╚╔╩╦╠═╬╧╨╤╥╙╘╒╓╫╪┘┌█▄▌▐▀αßΓπΣσµτΦΘΩδ∞φε∩≡±≥≤⌠⌡÷≈°∙·√ⁿ²■\u{A0}"@
}

fn pc861_table() -> (t: CodeTable)
    ensures
        t.wf(),
        t.slots_spec() == pc861_chars(),
        t.base_spec() == 0x80,
{
    let slots = "ÇüéâäàåçêëèÐðÞÄÅÉæÆôöþûÝýÖÜø£Ø₧ƒáíóúÁÍÓÚ¿⌐¬½¼¡«»░▒▓│┤╡╢╖╕╣║╗╝╜╛┐└┴┬├─┼╞╟╚╔╩╦╠═╬╧╨╤╥╙╘╒╓╫╪┘┌█▄▌▐▀αßΓπΣσµτΦΘΩδ∞φε∩≡±≥≤⌠⌡÷≈°∙·√ⁿ²■\u{A0}";
    proof {
        reveal_strlit("ÇüéâäàåçêëèÐðÞÄÅÉæÆôöþûÝýÖÜø£Ø₧ƒáíóúÁÍÓÚ¿⌐¬½¼¡«»░▒▓│┤╡╢╖╕╣║╗╝╜╛┐└┴┬├─┼╞╟╚╔╩╦╠═╬╧╨╤╥╙╘╒╓╫╪┘┌█▄▌▐▀αßΓπΣσµτΦΘΩδ∞φε∩≡±≥≤⌠⌡÷≈°∙·√ⁿ²■\u{A0}");
        assert(slots@.len() == 128);
    }
    CodeTable { slots, base: 0x80 }
}

/// The slot characters of the PC862 table.
pub open spec fn pc862_chars() -> Seq<char> {
    "אבגדהוזחטיךכלםמןנסעףפץצקרשת¢£¥₧ƒáíóúñÑªº¿⌐¬½¼¡«»░▒▓│┤╡╢╖╕╣║╗╝╜╛┐└┴┬├─┼╞╟╚╔╩╦╠═╬╧╨╤╥╙╘╒╓╫╪┘┌█▄▌▐▀αßΓπΣσµτΦΘΩδ∞φε∩≡±≥≤⌠⌡÷≈°∙·√ⁿ²■\u{A0}"@
}

fn pc862_table() -> (t: CodeTable)
    ensures
        t.wf(),
        t.slots_spec() == pc862_chars(),
        t.base_spec() == 0x80,
{
    let slots = "אבגדהוזחטיךכלםמןנסעףפץצקרשת¢£¥₧ƒáíóúñÑªº¿⌐¬½¼¡«»░▒▓│┤╡╢╖╕╣║╗╝╜╛┐└┴┬├─┼╞╟╚╔╩╦╠═╬╧╨╤╥╙╘╒╓╫╪┘┌█▄▌▐▀αßΓπΣσµτΦΘΩδ∞φε∩≡±≥≤⌠⌡÷≈°∙·√ⁿ²■\u{A0}";
    proof {
        reveal_strlit("אבגדהוזחטיךכלםמןנסעףפץצקרשת¢£¥₧ƒáíóúñÑªº¿⌐¬½¼¡«»░▒▓│┤╡╢╖╕╣║╗╝╜╛┐└┴┬├─┼╞╟╚╔╩╦╠═╬╧╨╤╥╙╘╒╓╫╪┘┌█▄▌▐▀αßΓπΣσµτΦΘΩδ∞φε∩≡±≥≤⌠⌡÷≈°∙·√ⁿ²■\u{A0}");
        assert(slots@.len() == 128);
    }
    CodeTable { slots, base: 0x80 }
}

/// The slot characters of the PC869 table.
pub open spec fn pc869_chars() -> Seq<char> {
    "Ά€·¬¦‘’Έ―ΉΊΪΌ\u{0}\u{0}ΎΫ©Ώ²³ά£έήίϊΐόύΑΒΓΔΕΖΗ½ΘΙ«»░▒▓│┤ΚΛΜΝ╣║╗╝ΞΟ┐└┴┬├─┼ΠΡ╚╔╩╦╠═╬ΣΤΥΦΧΨΩαβγ┘┌█▄δε▀ζηθικλμνξοπρσςτ΄-±υφχ§ψ΅°¨ωϋΰώ■\u{A0}"@
}

fn pc869_table() -> (t: CodeTable)
    ensures
        t.wf(),
        t.slots_spec() == pc869_chars(),
        t.base_spec() == 0x86,
{
    let slots = "Ά€·¬¦‘’Έ―ΉΊΪΌ\u{0}\u{0}ΎΫ©Ώ²³ά£έήίϊΐόύΑΒΓΔΕΖΗ½ΘΙ«»░▒▓│┤ΚΛΜΝ╣║╗╝ΞΟ┐└┴┬├─┼ΠΡ╚╔╩╦╠═╬ΣΤΥΦΧΨΩαβγ┘┌█▄δε▀ζηθικλμνξοπρσςτ΄-±υφχ§ψ΅°¨ωϋΰώ■\u{A0}";
    proof {
        reveal_strlit("Ά€·¬¦‘’Έ―ΉΊΪΌ\u{0}\u{0}ΎΫ©Ώ²³ά£έήίϊΐόύΑΒΓΔΕΖΗ½ΘΙ«»░▒▓│┤ΚΛΜΝ╣║╗╝ΞΟ┐└┴┬├─┼ΠΡ╚╔╩╦╠═╬ΣΤΥΦΧΨΩαβγ┘┌█▄δε▀ζηθικλμνξοπρσςτ΄-±υφχ§ψ΅°¨ωϋΰώ■\u{A0}");
        assert(slots@.len() == 122);
    }
    CodeTable { slots, base: 0x86 }
}

/// The slot characters of the PC1118 table.
pub open spec fn pc1118_chars() -> Seq<char> {
    "ÇüéâäàåçêëèïîìÄÅÉæÆôöòûùÿÖÜ¢£¥₧ƒáíóúñÑªº¿⌐¬½¼¡«»░▒▓│┤ĄČĘĖ╣║╗╝ĮŠ┐└┴┬├─┼ŲŪ╚╔╩╦╠═╬Žąčęėįšųūž┘┌█▄▌▐▀αßΓπΣσµτΦΘΩδ∞φε∩≡±≥≤„“÷≈°∙·√ⁿ²■\u{A0}"@
}

fn pc1118_table() -> (t: CodeTable)
    ensures
        t.wf(),
        t.slots_spec() == pc1118_chars(),
        t.base_spec() == 0x80,
{
    let slots = "ÇüéâäàåçêëèïîìÄÅÉæÆôöòûùÿÖÜ¢£¥₧ƒáíóúñÑªº¿⌐¬½¼¡«»░▒▓│┤ĄČĘĖ╣║╗╝ĮŠ┐└┴┬├─┼ŲŪ╚╔╩╦╠═╬Žąčęėįšųūž┘┌█▄▌▐▀αßΓπΣσµτΦΘΩδ∞φε∩≡±≥≤„“÷≈°∙·√ⁿ²■\u{A0}";
    proof {
        reveal_strlit("ÇüéâäàåçêëèïîìÄÅÉæÆôöòûùÿÖÜ¢£¥₧ƒáíóúñÑªº¿⌐¬½¼¡«»░▒▓│┤ĄČĘĖ╣║╗╝ĮŠ┐└┴┬├─┼ŲŪ╚╔╩╦╠═╬Žąčęėįšųūž┘┌█▄▌▐▀αßΓπΣσµτΦΘΩδ∞φε∩≡±≥≤„“÷≈°∙·√ⁿ²■\u{A0}");
        assert(slots@.len() == 128);
    }
    CodeTable { slots, base: 0x80 }
}

/// The slot characters of the PC1119 table.
pub open spec fn pc1119_chars() -> Seq<char> {
    "АБВГДЕЖЗИЙКЛМНОПРСТУФХЦЧШЩЪЫЬЭЮЯабвгдежзийклмноп░▒▓│┤ĄČĘĖ╣║╗╝ĮŠ┐└┴┬├─┼ŲŪ╚╔╩╦╠═╬Žąčęėįšųūž┘┌█▄▌▐▀рстуфхцчшщъыьэюяЁё≥≤„“÷≈°∙·√ⁿ²■\u{A0}"@
}

fn pc1119_table() -> (t: CodeTable)
    ensures
        t.wf(),
        t.slots_spec() == pc1119_chars(),
        t.base_spec() == 0x80,
{
    let slots = "АБВГДЕЖЗИЙКЛМНОПРСТУФХЦЧШЩЪЫЬЭЮЯабвгдежзийклмноп░▒▓│┤ĄČĘĖ╣║╗╝ĮŠ┐└┴┬├─┼ŲŪ╚╔╩╦╠═╬Žąčęėįšųūž┘┌█▄▌▐▀рстуфхцчшщъыьэюяЁё≥≤„“÷≈°∙·√ⁿ²■\u{A0}";
    proof {
        reveal_strlit("АБВГДЕЖЗИЙКЛМНОПРСТУФХЦЧШЩЪЫЬЭЮЯабвгдежзийклмноп░▒▓│┤ĄČĘĖ╣║╗╝ĮŠ┐└┴┬├─┼ŲŪ╚╔╩╦╠═╬Žąčęėįšųūž┘┌█▄▌▐▀рстуфхцчшщъыьэюяЁё≥≤„“÷≈°∙·√ⁿ²■\u{A0}");
        assert(slots@.len() == 128);
    }
    CodeTable { slots, base: 0x80 }
}

/// The slot characters of the PC1125 table.
pub open spec fn pc1125_chars() -> Seq<char> {
    "АБВГДЕЖЗИЙКЛМНОПРСТУФХЦЧШЩЪЫЬЭЮЯабвгдежзийклмноп░▒▓│┤╡╢╖╕╣║╗╝╜╛┐└┴┬├─┼╞╟╚╔╩╦╠═╬╧╨╤╥╙╘╒╓╫╪┘┌█▄▌▐▀рстуфхцчшщъыьэюяЁёҐґЄєІіЇї÷±№¤■\u{A0}"@
}

fn pc1125_table() -> (t: CodeTable)
    ensures
        t.wf(),
        t.slots_spec() == pc1125_chars(),
        t.base_spec() == 0x80,
{
    let slots = "АБВГДЕЖЗИЙКЛМНОПРСТУФХЦЧШЩЪЫЬЭЮЯабвгдежзийклмноп░▒▓│┤╡╢╖╕╣║╗╝╜╛┐└┴┬├─┼╞╟╚╔╩╦╠═╬╧╨╤╥╙╘╒╓╫╪┘┌█▄▌▐▀рстуфхцчшщъыьэюяЁёҐґЄєІіЇї÷±№¤■\u{A0}";
    proof {
        reveal_strlit("АБВГДЕЖЗИЙКЛМНОПРСТУФХЦЧШЩЪЫЬЭЮЯабвгдежзийклмноп░▒▓│┤╡╢╖╕╣║╗╝╜╛┐└┴┬├─┼╞╟╚╔╩╦╠═╬╧╨╤╥╙╘╒╓╫╪┘┌█▄▌▐▀рстуфхцчшщъыьэюяЁёҐґЄєІіЇї÷±№¤■\u{A0}");
        assert(slots@.len() == 128);
    }
    CodeTable { slots, base: 0x80 }
}

/// The slot characters of the WPC1250 table.
pub open spec fn wpc1250_chars() -> Seq<char> {
    "€\u{0}‚\u{0}„…†‡\u{0}‰Š‹ŚŤŽŹ\u{0}‘’“”•–—\u{0}™š›śťžź\u{A0}ˇ˘Ł¤Ą¦§¨©Ş«¬-®Ż°±˛ł´µ¶·¸ąş»Ľ˝ľżŔÁÂĂÄĹĆÇČÉĘËĚÍÎĎĐŃŇÓÔŐÖ×ŘŮÚŰÜÝŢßŕáâăäĺćçčéęëěíîďđńňóôőö÷řůúűüýţ˙"@
}

fn wpc1250_table() -> (t: CodeTable)
    ensures
        t.wf(),
        t.slots_spec() == wpc1250_chars(),
        t.base_spec() == 0x80,
{
    let slots = "€\u{0}‚\u{0}„…†‡\u{0}‰Š‹ŚŤŽŹ\u{0}‘’“”•–—\u{0}™š›śťžź\u{A0}ˇ˘Ł¤Ą¦§¨©Ş«¬-®Ż°±˛ł´µ¶·¸ąş»Ľ˝ľżŔÁÂĂÄĹĆÇČÉĘËĚÍÎĎĐŃŇÓÔŐÖ×ŘŮÚŰÜÝŢßŕáâăäĺćçčéęëěíîďđńňóôőö÷řůúűüýţ˙";
    proof {
        reveal_strlit("€\u{0}‚\u{0}„…†‡\u{0}‰Š‹ŚŤŽŹ\u{0}‘’“”•–—\u{0}™š›śťžź\u{A0}ˇ˘Ł¤Ą¦§¨©Ş«¬-®Ż°±˛ł´µ¶·¸ąş»Ľ˝ľżŔÁÂĂÄĹĆÇČÉĘËĚÍÎĎĐŃŇÓÔŐÖ×ŘŮÚŰÜÝŢßŕáâăäĺćçčéęëěíîďđńňóôőö÷řůúűüýţ˙");
        assert(slots@.len() == 128);
    }
    CodeTable { slots, base: 0x80 }
}

/// The slot characters of the WPC1251 table.
pub open spec fn wpc1251_chars() -> Seq<char> {
    "ЂЃ‚ѓ„…†‡€‰Љ‹ЊЌЋЏђ‘’“”•–—\u{0}™љ›њќћџ\u{A0}ЎўЈ¤Ґ¦§Ё©Є«¬-®Ї°±Ііґµ¶·ё№є»јЅѕїАБВГДЕЖЗИЙКЛМНОПРСТУФХЦЧШЩЪЫЬЭЮЯабвгдежзийклмнопрстуфхцчшщъыьэюя"@
}

fn wpc1251_table() -> (t: CodeTable)
    ensures
        t.wf(),
        t.slots_spec() == wpc1251_chars(),
        t.base_spec() == 0x80,
{
    let slots = "ЂЃ‚ѓ„…†‡€‰Љ‹ЊЌЋЏђ‘’“”•–—\u{0}™љ›њќћџ\u{A0}ЎўЈ¤Ґ¦§Ё©Є«¬-®Ї°±Ііґµ¶·ё№є»јЅѕїАБВГДЕЖЗИЙКЛМНОПРСТУФХЦЧШЩЪЫЬЭЮЯабвгдежзийклмнопрстуфхцчшщъыьэюя";
    proof {
        reveal_strlit("ЂЃ‚ѓ„…†‡€‰Љ‹ЊЌЋЏђ‘’“”•–—\u{0}™љ›њќћџ\u{A0}ЎўЈ¤Ґ¦§Ё©Є«¬-®Ї°±Ііґµ¶·ё№є»јЅѕїАБВГДЕЖЗИЙКЛМНОПРСТУФХЦЧШЩЪЫЬЭЮЯабвгдежзийклмнопрстуфхцчшщъыьэюя");
        assert(slots@.len() == 128);
    }
    CodeTable { slots, base: 0x80 }
}

/// The slot characters of the WPC1253 table.
pub open spec fn wpc1253_chars() -> Seq<char> {
    "€\u{0}‚ƒ„…†‡\u{0}‰\u{0}‹\u{0}\u{0}\u{0}\u{0}\u{0}‘’“”•–—\u{0}™\u{0}›\u{0}\u{0}\u{0}\u{0}\u{A0}΅Ά£¤¥¦§¨©\u{0}«¬-®―°±²³΄µ¶·ΈΉΊ»Ό½ΎΏΐΑΒΓΔΕΖΗΘΙΚΛΜΝΞΟΠΡ\u{0}ΣΤΥΦΧΨΩΪΫάέήίΰαβγδεζηθικλμνξοπρςστυφχψωϊϋόύώ\u{0}"@
}

fn wpc1253_table() -> (t: CodeTable)
    ensures
        t.wf(),
        t.slots_spec() == wpc1253_chars(),
        t.base_spec() == 0x80,
{
    let slots = "€\u{0}‚ƒ„…†‡\u{0}‰\u{0}‹\u{0}\u{0}\u{0}\u{0}\u{0}‘’“”•–—\u{0}™\u{0}›\u{0}\u{0}\u{0}\u{0}\u{A0}΅Ά£¤¥¦§¨©\u{0}«¬-®―°±²³΄µ¶·ΈΉΊ»Ό½ΎΏΐΑΒΓΔΕΖΗΘΙΚΛΜΝΞΟΠΡ\u{0}ΣΤΥΦΧΨΩΪΫάέήίΰαβγδεζηθικλμνξοπρςστυφχψωϊϋόύώ\u{0}";
    proof {
        reveal_strlit("€\u{0}‚ƒ„…†‡\u{0}‰\u{0}‹\u{0}\u{0}\u{0}\u{0}\u{0}‘’“”•–—\u{0}™\u{0}›\u{0}\u{0}\u{0}\u{0}\u{A0}΅Ά£¤¥¦§¨©\u{0}«¬-®―°±²³΄µ¶·ΈΉΊ»Ό½ΎΏΐΑΒΓΔΕΖΗΘΙΚΛΜΝΞΟΠΡ\u{0}ΣΤΥΦΧΨΩΪΫάέήίΰαβγδεζηθικλμνξοπρςστυφχψωϊϋόύώ\u{0}");
        assert(slots@.len() == 128);
    }
    CodeTable { slots, base: 0x80 }
}

/// The slot characters of the WPC1254 table.
pub open spec fn wpc1254_chars() -> Seq<char> {
    "€\u{0}‚ƒ„…†‡ˆ‰Š‹Œ\u{0}\u{0}\u{0}\u{0}‘’“”•–—˜™š›œ\u{0}\u{0}Ÿ\u{A0}¡¢£¤¥¦§¨©ª«¬-®¯°±²³´µ¶·¸¹º»¼½¾¿ÀÁÂÃÄÅÆÇÈÉÊËÌÍÎÏĞÑÒÓÔÕÖ×ØÙÚÛÜİŞßàáâãäåæçèéêëìíîïğñòóôõö÷øùúûüışÿ"@
}

fn wpc1254_table() -> (t: CodeTable)
    ensures
        t.wf(),
        t.slots_spec() == wpc1254_chars(),
        t.base_spec() == 0x80,
{
    let slots = "€\u{0}‚ƒ„…†‡ˆ‰Š‹Œ\u{0}\u{0}\u{0}\u{0}‘’“”•–—˜™š›œ\u{0}\u{0}Ÿ\u{A0}¡¢£¤¥¦§¨©ª«¬-®¯°±²³´µ¶·¸¹º»¼½¾¿ÀÁÂÃÄÅÆÇÈÉÊËÌÍÎÏĞÑÒÓÔÕÖ×ØÙÚÛÜİŞßàáâãäåæçèéêëìíîïğñòóôõö÷øùúûüışÿ";
    proof {
        reveal_strlit("€\u{0}‚ƒ„…†‡ˆ‰Š‹Œ\u{0}\u{0}\u{0}\u{0}‘’“”•–—˜™š›œ\u{0}\u{0}Ÿ\u{A0}¡¢£¤¥¦§¨©ª«¬-®¯°±²³´µ¶·¸¹º»¼½¾¿ÀÁÂÃÄÅÆÇÈÉÊËÌÍÎÏĞÑÒÓÔÕÖ×ØÙÚÛÜİŞßàáâãäåæçèéêëìíîïğñòóôõö÷øùúûüışÿ");
        assert(slots@.len() == 128);
    }
    CodeTable { slots, base: 0x80 }
}

/// The slot characters of the WPC1257 table.
pub open spec fn wpc1257_chars() -> Seq<char> {
    "€\u{0}‚\u{0}„…†‡\u{0}‰\u{0}‹\u{0}¨ˇ¸\u{0}‘’“”•–—\u{0}™\u{0}›\u{0}¯˛\u{0}\u{A0}\u{0}¢£¤\u{0}¦§Ø©Ŗ«¬-®Æ°±²³´µ¶·ø¹ŗ»¼½¾æĄĮĀĆÄÅĘĒČÉŹĖĢĶĪĻŠŃŅÓŌÕÖ×ŲŁŚŪÜŻŽßąįāćäåęēčéźėģķīļšńņóōõö÷ųłśūüżž˙"@
}

fn wpc1257_table() -> (t: CodeTable)
    ensures
        t.wf(),
        t.slots_spec() == wpc1257_chars(),
        t.base_spec() == 0x80,
{
    let slots = "€\u{0}‚\u{0}„…†‡\u{0}‰\u{0}‹\u{0}¨ˇ¸\u{0}‘’“”•–—\u{0}™\u{0}›\u{0}¯˛\u{0}\u{A0}\u{0}¢£¤\u{0}¦§Ø©Ŗ«¬-®Æ°±²³´µ¶·ø¹ŗ»¼½¾æĄĮĀĆÄÅĘĒČÉŹĖĢĶĪĻŠŃŅÓŌÕÖ×ŲŁŚŪÜŻŽßąįāćäåęēčéźėģķīļšńņóōõö÷ųłśūüżž˙";
    proof {
        reveal_strlit("€\u{0}‚\u{0}„…†‡\u{0}‰\u{0}‹\u{0}¨ˇ¸\u{0}‘’“”•–—\u{0}™\u{0}›\u{0}¯˛\u{0}\u{A0}\u{0}¢£¤\u{0}¦§Ø©Ŗ«¬-®Æ°±²³´µ¶·ø¹ŗ»¼½¾æĄĮĀĆÄÅĘĒČÉŹĖĢĶĪĻŠŃŅÓŌÕÖ×ŲŁŚŪÜŻŽßąįāćäåęēčéźėģķīļšńņóōõö÷ųłśūüżž˙");
        assert(slots@.len() == 128);
    }
    CodeTable { slots, base: 0x80 }
}

/// The slot characters of the KZ1048 table.
pub open spec fn kz1048_chars() -> Seq<char> {
    "ЂЃ‚ѓ„…†‡€‰Љ‹ЊҚҺЏђ‘’“”•–—\u{0}™љ›њқһџ\u{A0}ҰұӘ¤Ө¦§Ё©Ғ«¬-®Ү°±Ііөµ¶·ё№ғ»әҢңүАБВГДЕЖЗИЙКЛМНОПРСТУФХЦЧШЩЪЫЬЭЮЯабвгдежзийклмнопрстуфхцчшщъыьэюя"@
}

fn kz1048_table() -> (t: CodeTable)
    ensures
        t.wf(),
        t.slots_spec() == kz1048_chars(),
        t.base_spec() == 0x80,
{
    let slots = "ЂЃ‚ѓ„…†‡€‰Љ‹ЊҚҺЏђ‘’“”•–—\u{0}™љ›њқһџ\u{A0}ҰұӘ¤Ө¦§Ё©Ғ«¬-®Ү°±Ііөµ¶·ё№ғ»әҢңүАБВГДЕЖЗИЙКЛМНОПРСТУФХЦЧШЩЪЫЬЭЮЯабвгдежзийклмнопрстуфхцчшщъыьэюя";
    proof {
        reveal_strlit("ЂЃ‚ѓ„…†‡€‰Љ‹ЊҚҺЏђ‘’“”•–—\u{0}™љ›њқһџ\u{A0}ҰұӘ¤Ө¦§Ё©Ғ«¬-®Ү°±Ііөµ¶·ё№ғ»әҢңүАБВГДЕЖЗИЙКЛМНОПРСТУФХЦЧШЩЪЫЬЭЮЯабвгдежзийклмнопрстуфхцчшщъыьэюя");
        assert(slots@.len() == 128);
    }
    CodeTable { slots, base: 0x80 }
}

/// The base offset of the table for `pc`.
pub open spec fn base_of(pc: PageCodeTable) -> u8 {
    match pc {
        PageCodeTable::PC437 => 0x80,
        PageCodeTable::Katakana => 0xA1,
        PageCodeTable::PC850 => 0x80,
        PageCodeTable::PC852 => 0x80,
        PageCodeTable::PC858 => 0x80,
        PageCodeTable::PC860 => 0x80,
        PageCodeTable::PC863 => 0x80,
        PageCodeTable::PC865 => 0x80,
        PageCodeTable::PC851 => 0x80,
        PageCodeTable::PC853 => 0x80,
        PageCodeTable::PC857 => 0x80,
        PageCodeTable::PC737 => 0x80,
        PageCodeTable::ISO8859_2 => 0xA0,
        PageCodeTable::ISO8859_7 => 0xA0,
        PageCodeTable::ISO8859_15 => 0xA0,
        PageCodeTable::WPC1252 => 0x80,
        PageCodeTable::PC866 => 0x80,
        PageCodeTable::WPC775 => 0x80,
        PageCodeTable::PC855 => 0x80,
        PageCodeTable::PC861 => 0x80,
        PageCodeTable::PC862 => 0x80,
        PageCodeTable::PC869 => 0x86,
        PageCodeTable::PC1118 => 0x80,
        PageCodeTable::PC1119 => 0x80,
        PageCodeTable::PC1125 => 0x80,
        PageCodeTable::WPC1250 => 0x80,
        PageCodeTable::WPC1251 => 0x80,
        PageCodeTable::WPC1253 => 0x80,
        PageCodeTable::WPC1254 => 0x80,
        PageCodeTable::WPC1257 => 0x80,
        PageCodeTable::KZ1048 => 0x80,
    }
}

/// The slot characters of the table for `pc`.
pub open spec fn chars_of(pc: PageCodeTable) -> Seq<char> {
    match pc {
        PageCodeTable::PC437 => pc437_chars(),
        PageCodeTable::Katakana => katakana_chars(),
        PageCodeTable::PC850 => pc850_chars(),
        PageCodeTable::PC852 => pc852_chars(),
        PageCodeTable::PC858 => pc858_chars(),
        PageCodeTable::PC860 => pc860_chars(),
        PageCodeTable::PC863 => pc863_chars(),
        PageCodeTable::PC865 => pc865_chars(),
        PageCodeTable::PC851 => pc851_chars(),
        PageCodeTable::PC853 => pc853_chars(),
        PageCodeTable::PC857 => pc857_chars(),
        PageCodeTable::PC737 => pc737_chars(),
        PageCodeTable::ISO8859_2 => iso8859_2_chars(),
        PageCodeTable::ISO8859_7 => iso8859_7_chars(),
        PageCodeTable::ISO8859_15 => iso8859_15_chars(),
        PageCodeTable::WPC1252 => wpc1252_chars(),
        PageCodeTable::PC866 => pc866_chars(),
        PageCodeTable::WPC775 => wpc775_chars(),
        PageCodeTable::PC855 => pc855_chars(),
        PageCodeTable::PC861 => pc861_chars(),
        PageCodeTable::PC862 => pc862_chars(),
        PageCodeTable::PC869 => pc869_chars(),
        PageCodeTable::PC1118 => pc1118_chars(),
        PageCodeTable::PC1119 => pc1119_chars(),
        PageCodeTable::PC1125 => pc1125_chars(),
        PageCodeTable::WPC1250 => wpc1250_chars(),
        PageCodeTable::WPC1251 => wpc1251_chars(),
        PageCodeTable::WPC1253 => wpc1253_chars(),
        PageCodeTable::WPC1254 => wpc1254_chars(),
        PageCodeTable::WPC1257 => wpc1257_chars(),
        PageCodeTable::KZ1048 => kz1048_chars(),
    }
}

/// The table variant for `page`: one of the supported pages, or nothing
/// where no transliteration table exists.
pub open spec fn page_table(page: PageCode) -> Option<PageCodeTable> {
    match page {
        PageCode::PC437 => Some(PageCodeTable::PC437),
        PageCode::Katakana => Some(PageCodeTable::Katakana),
        PageCode::PC850 => Some(PageCodeTable::PC850),
        PageCode::PC852 => Some(PageCodeTable::PC852),
        PageCode::PC858 => Some(PageCodeTable::PC858),
        PageCode::PC860 => Some(PageCodeTable::PC860),
        PageCode::PC863 => Some(PageCodeTable::PC863),
        PageCode::PC865 => Some(PageCodeTable::PC865),
        PageCode::PC851 => Some(PageCodeTable::PC851),
        PageCode::PC853 => Some(PageCodeTable::PC853),
        PageCode::PC857 => Some(PageCodeTable::PC857),
        PageCode::PC737 => Some(PageCodeTable::PC737),
        PageCode::ISO8859_2 => Some(PageCodeTable::ISO8859_2),
        PageCode::ISO8859_7 => Some(PageCodeTable::ISO8859_7),
        PageCode::ISO8859_15 => Some(PageCodeTable::ISO8859_15),
        PageCode::WPC1252 => Some(PageCodeTable::WPC1252),
        PageCode::PC866 => Some(PageCodeTable::PC866),
        PageCode::WPC775 => Some(PageCodeTable::WPC775),
        PageCode::PC855 => Some(PageCodeTable::PC855),
        PageCode::PC861 => Some(PageCodeTable::PC861),
        PageCode::PC862 => Some(PageCodeTable::PC862),
        PageCode::PC869 => Some(PageCodeTable::PC869),
        PageCode::PC1118 => Some(PageCodeTable::PC1118),
        PageCode::PC1119 => Some(PageCodeTable::PC1119),
        PageCode::PC1125 => Some(PageCodeTable::PC1125),
        PageCode::WPC1250 => Some(PageCodeTable::WPC1250),
        PageCode::WPC1251 => Some(PageCodeTable::WPC1251),
        PageCode::WPC1253 => Some(PageCodeTable::WPC1253),
        PageCode::WPC1254 => Some(PageCodeTable::WPC1254),
        PageCode::WPC1257 => Some(PageCodeTable::WPC1257),
        PageCode::KZ1048 => Some(PageCodeTable::KZ1048),
        _ => None,
    }
}

/// Whether a transliteration table exists for `page`.
pub open spec fn page_supported(page: PageCode) -> bool {
    page_table(page) is Some
}

impl PageCodeTable {
    /// Get the table for the page code.
    ///
    /// A pure lookup into the registry: the returned table is well
    /// formed and holds exactly the slot list and base offset recorded
    /// for this page.
    pub fn get_table(&self) -> (t: CodeTable)
        ensures
            t.wf(),
            t.slots_spec() == chars_of(*self),
            t.base_spec() == base_of(*self),
    {
        match self {
            PageCodeTable::PC437 => pc437_table(),
            PageCodeTable::Katakana => katakana_table(),
            PageCodeTable::PC850 => pc850_table(),
            PageCodeTable::PC852 => pc852_table(),
            PageCodeTable::PC858 => pc858_table(),
            PageCodeTable::PC860 => pc860_table(),
            PageCodeTable::PC863 => pc863_table(),
            PageCodeTable::PC865 => pc865_table(),
            PageCodeTable::PC851 => pc851_table(),
            PageCodeTable::PC853 => pc853_table(),
            PageCodeTable::PC857 => pc857_table(),
            PageCodeTable::PC737 => pc737_table(),
            PageCodeTable::ISO8859_2 => iso8859_2_table(),
            PageCodeTable::ISO8859_7 => iso8859_7_table(),
            PageCodeTable::ISO8859_15 => iso8859_15_table(),
            PageCodeTable::WPC1252 => wpc1252_table(),
            PageCodeTable::PC866 => pc866_table(),
            PageCodeTable::WPC775 => wpc775_table(),
            PageCodeTable::PC855 => pc855_table(),
            PageCodeTable::PC861 => pc861_table(),
            PageCodeTable::PC862 => pc862_table(),
            PageCodeTable::PC869 => pc869_table(),
            PageCodeTable::PC1118 => pc1118_table(),
            PageCodeTable::PC1119 => pc1119_table(),
            PageCodeTable::PC1125 => pc1125_table(),
            PageCodeTable::WPC1250 => wpc1250_table(),
            PageCodeTable::WPC1251 => wpc1251_table(),
            PageCodeTable::WPC1253 => wpc1253_table(),
            PageCodeTable::WPC1254 => wpc1254_table(),
            PageCodeTable::WPC1257 => wpc1257_table(),
            PageCodeTable::KZ1048 => kz1048_table(),
        }
    }

    /// The supported table for `value`, or a configuration error where
    /// `value` lies outside the supported closed set.
    pub fn try_from(value: PageCode) -> (r: Result<PageCodeTable, Error>)
        ensures
            page_table(value) is Some ==> r == Ok::<PageCodeTable, Error>(page_table(value).unwrap()),
            page_table(value) is None ==> r == Err::<PageCodeTable, Error>(Error::Configuration(value)),
    {
        match value {
            PageCode::PC437 => Ok(PageCodeTable::PC437),
            PageCode::Katakana => Ok(PageCodeTable::Katakana),
            PageCode::PC850 => Ok(PageCodeTable::PC850),
            PageCode::PC852 => Ok(PageCodeTable::PC852),
            PageCode::PC858 => Ok(PageCodeTable::PC858),
            PageCode::PC860 => Ok(PageCodeTable::PC860),
            PageCode::PC863 => Ok(PageCodeTable::PC863),
            PageCode::PC865 => Ok(PageCodeTable::PC865),
            PageCode::PC851 => Ok(PageCodeTable::PC851),
            PageCode::PC853 => Ok(PageCodeTable::PC853),
            PageCode::PC857 => Ok(PageCodeTable::PC857),
            PageCode::PC737 => Ok(PageCodeTable::PC737),
            PageCode::ISO8859_2 => Ok(PageCodeTable::ISO8859_2),
            PageCode::ISO8859_7 => Ok(PageCodeTable::ISO8859_7),
            PageCode::ISO8859_15 => Ok(PageCodeTable::ISO8859_15),
            PageCode::WPC1252 => Ok(PageCodeTable::WPC1252),
            PageCode::PC866 => Ok(PageCodeTable::PC866),
            PageCode::WPC775 => Ok(PageCodeTable::WPC775),
            PageCode::PC855 => Ok(PageCodeTable::PC855),
            PageCode::PC861 => Ok(PageCodeTable::PC861),
            PageCode::PC862 => Ok(PageCodeTable::PC862),
            PageCode::PC869 => Ok(PageCodeTable::PC869),
            PageCode::PC1118 => Ok(PageCodeTable::PC1118),
            PageCode::PC1119 => Ok(PageCodeTable::PC1119),
            PageCode::PC1125 => Ok(PageCodeTable::PC1125),
            PageCode::WPC1250 => Ok(PageCodeTable::WPC1250),
            PageCode::WPC1251 => Ok(PageCodeTable::WPC1251),
            PageCode::WPC1253 => Ok(PageCodeTable::WPC1253),
            PageCode::WPC1254 => Ok(PageCodeTable::WPC1254),
            PageCode::WPC1257 => Ok(PageCodeTable::WPC1257),
            PageCode::KZ1048 => Ok(PageCodeTable::KZ1048),
            _ => Err(Error::Configuration(value)),
        }
    }
}

/// The transliteration table for `page`: a pure lookup that never mutates
/// the registry. Requesting a page outside the supported closed set is a
/// configuration error.
pub fn table_for(page: PageCode) -> (r: Result<CodeTable, Error>)
    ensures
        r is Ok <==> page_supported(page),
        r is Ok ==> {
            let t = r.unwrap();
            &&& t.wf()
            &&& t.slots_spec() == chars_of(page_table(page).unwrap())
            &&& t.base_spec() == base_of(page_table(page).unwrap())
        },
        r is Err ==> r == Err::<CodeTable, Error>(Error::Configuration(page)),
{
    match PageCodeTable::try_from(page) {
        Ok(pc) => Ok(pc.get_table()),
        Err(e) => Err(e),
    }
}

/// Every supported page's table fits the byte range: its base offset
/// starts the high half and base plus slot count stays within one byte.
pub proof fn lemma_registry_table_wf(pc: PageCodeTable)
    ensures
        base_of(pc) >= 0x80,
        base_of(pc) + chars_of(pc).len() <= 0x100,
{
    match pc {
        PageCodeTable::PC437 => {
            reveal_strlit("ÇüéâäàåçêëèïîìÄÅÉæÆôöòûùÿÖÜ¢£¥₧ƒáíóúñÑªº¿⌐¬½¼¡«»░▒▓│┤╡╢╖╕╣║╗╝╜╛┐└┴┬├─┼╞╟╚╔╩╦╠═╬╧╨╤╥╙╘╒╓╫╪┘┌█▄▌▐▀αßΓπΣσµτΦΘΩδ∞φε∩≡±≥≤⌠⌡÷≈°∙·√ⁿ²■\u{A0}");
        },
        PageCodeTable::Katakana => {
            reveal_strlit("｡｢｣､･ｦｧｨｩｪｫｬｭｮｯｰｱｲｳｴｵｶｷｸｹｺｻｼｽｾｿﾀﾁﾂﾃﾄﾅﾆﾇﾈﾉﾊﾋﾌﾍﾎﾏﾐﾑﾒﾓﾔﾕﾖﾗﾘﾙﾚﾛﾜﾝﾞﾟ");
        },
        PageCodeTable::PC850 => {
            reveal_strlit("ÇüéâäàåçêëèïîìÄÅÉæÆôöòûùÿÖÜø£Ø×ƒáíóúñÑªº¿®¬½¼¡«»░▒▓│┤ÁÂÀ©╣║╗╝¢¥┐└┴┬├─┼ãÃ╚╔╩╦╠═╬¤ðÐÊËÈıÍÎÏ┘┌█▄¦Ì▀ÓßÔÒõÕµþÞÚÛÙýÝ¯´-±‗¾¶§÷¸°¨·¹³²■\u{A0}");
        },
        PageCodeTable::PC852 => {
            reveal_strlit("ÇüéâäůćçłëŐőîŹÄĆÉĹĺôöĽľŚśÖÜŤťŁ×čáíóúĄąŽžĘę¬źČş«»░▒▓│┤ÁÂĚŞ╣║╗╝Żż┐└┴┬├─┼Ăă╚╔╩╦╠═╬¤đĐĎËďŇÍÎě┘┌█▄ŢŮ▀ÓßÔŃńňŠšŔÚŕŰýÝţ´\u{AD}˝˛ˇ˘§÷¸°¨˙űŘř■\u{A0}");
        },
        PageCodeTable::PC858 => {
            reveal_strlit("ÇüéâäàåçêëèïîìÄÅÉæÆôöòûùÿÖÜø£Ø×ƒáíóúñÑªº®⌐¬½¼¡«»░▒▓│┤ÁÂÀ©╣║╗╝¢¥┐└┴┬├─┼ãÃ╚╔╩╦╠═╬¤ðÐÊËÈ€ÍÎÏ┘┌█▄¦Ì▀ÓßÔÔõÕµþÞÚÛÙýÝ¯´-±‗¾¶§÷¸°¨·¹³²■\u{A0}");
        },
        PageCodeTable::PC860 => {
            reveal_strlit("ÇüéâãàÁçêÊèÍÔìÃÂÉÀÈôõòÚùÌÕÜ¢£Ù₧ÓáíóúñÑªº¿Ò¬½¼¡«»░▒▓│┤╡╢╖╕╣║╗╝╜╛┐└┴┬├─┼╞╟╚╔╩╦╠═╬╧╨╤╥╙╘╒╓╫╪┘┌█▄▌▐▀αßΓπΣσµτΦΘΩδ∞φε∩≡±≥≤⌠⌡÷≈°∙·√ⁿ²■\u{A0}");
        },
        PageCodeTable::PC863 => {
            reveal_strlit("ÇüéâÂà¶çêëèïî‗À§ÉÈÊôËÏûù¤ÔÜ¢£ÙÛƒ¦´óú¨¸³¯Î⌐¬½¼¾«»░▒▓│┤╡╢╖╕╣║╗╝╜╛┐└┴┬├─┼╞╟╚╔╩╦╠═╬╧╨╤╥╙╘╒╓╫╪┘┌█▄▌▐▀αßΓπΣσµτΦΘΩδ∞φε∩≡±≥≤⌠⌡÷≈°∙·√ⁿ²■\u{A0}");
        },
        PageCodeTable::PC865 => {
            reveal_strlit("ÇüéâäàåçêëèïîìÄÅÉæÆôöòûùÿÖÜø£Ø₧ƒáíóúñÑªº¿⌐¬½¼¡«¤░▒▓│┤╡╢╖╕╣║╗╝╜╛┐└┴┬├─┼╞╟╚╔╩╦╠═╬╧╨╤╥╙╘╒╓╫╪┘┌█▄▌▐▀αßΓπΣσµτΦΘΩδ∞φε∩≡±≥≤⌠⌡÷≈°∙·√ⁿ²■\u{A0}");
        },
        PageCodeTable::PC851 => {
            reveal_strlit("ÇüéâäàΆçêëèïîΈÄΉΊ\u{0}ΌôöΎûùΏÖÜά£έήίϊΐόύΑΒΓΔΕΖΗ½ΘΙ«»░▒▓│┤ΚΛΜΝ╣║╗╝ΞΟ┐└┴┬├─┼ΠΡ╚╔╩╦╠═╬ΣΤΥΦΧΨΩαβγ┘┌█▄δε▀ζηθικλμνξοπρσςτ´-±υφχ§ψ¸°¨ωϋΰώ■\u{A0}");
        },
        PageCodeTable::PC853 => {
            reveal_strlit("ÇüéâäàĉçêëèïîìÄĈÉċĊôöòûùİÖÜĝ£Ĝ×ĵáíóúñÑĞğĤĥ\u{0}½Ĵş«»░▒▓│┤ÁÂÀŞ╣║╗╝Żż┐└┴┬├─┼Ŝŝ╚╔╩╦╠═╬¤\u{0}\u{0}ÊËÈıÍÎÏ┘┌█▄\u{0}Ì▀ÓßÔÒĠġµĦħÚÛÙŬŭ·´-\u{0}ℓŉ˘§÷¸°¨˙\u{0}³²■\u{A0}");
        },
        PageCodeTable::PC857 => {
            reveal_strlit("ÇüéâäàåçêëèïîıÄÅÉæÆôöòûùİÖÜø£ØŞşáíóúñÑĞğ¿®¬½¼¡«»░▒▓│┤ÁÂÀ©╣║╗╝¢¥┐└┴┬├─┼ãÃ╚╔╩╦╠═╬¤ºªÊËÈ€ÍÎÏ┘┌█▄¦Ì▀ÓßÔÒõÕµ.×ÚÛÙìÿ¯´-±\u{0}¾¶§÷¸°¨·¹³²■\u{A0}");
        },
        PageCodeTable::PC737 => {
            reveal_strlit("ΑΒΓΔΕΖΗΘΙΚΛΜΝΞΟΠΡΣΤΥΦΧΨΩαβγδεζηθικλμνξοπρσςτυφχψ░▒▓│┤╡╢╖╕╣║╗╝╜╛┐└┴┬├─┼╞╟╚╔╩╦╠═╬╧╨╤╥╙╘╒╓╫╪┘┌█▄▌▐▀ωάέήϊίόύϋώΆΈΉΊΌΎΏ±≥≤ΪΫ÷≈°∙·√ⁿ²■\u{A0}");
        },
        PageCodeTable::ISO8859_2 => {
            reveal_strlit("\u{A0}Ą˘Ł¤ĽŚ§¨ŠŞŤŹ\u{AD}ŽŻ°ą˛ł´ľśˇ¸šşťź˝žżŔÁÂĂÄĹĆÇČÉĘËĚÍÎĎĐŃŇÓÔŐÖ×ŘŮÚŰÜÝŢßŕáâăäĺćçčéęëěíîďđńňóôőö÷řůúűüýţ˙");
        },
        PageCodeTable::ISO8859_7 => {
            reveal_strlit("\u{A0}‘’£€₯¦§¨©ͺ«¬\u{AD}\u{0}―°±²³΄΅Ά·ΈΉΊ»Ό½ΎΏΐΑΒΓΔΕΖΗΘΙΚΛΜΝΞΟΠΡ\u{0}ΣΤΥΦΧΨΩΪΫάέήίΰαβγδεζηθικλμνξοπρςστυφχψωϊϋόύώ");
        },
        PageCodeTable::ISO8859_15 => {
            reveal_strlit("\u{A0}¡¢£€¥Š§š©ª«¬\u{AD}®¯°±²³Žµ¶·ž¹º»ŒœŸ¿ÀÁÂÃÄÅÆÇÈÉÊËÌÍÎÏÐÑÒÓÔÕÖ×ØÙÚÛÜÝÞßàáâãäåæçèéêëìíîïðñòóôõö÷øùúûüýþÿ");
        },
        PageCodeTable::WPC1252 => {
            reveal_strlit("€\u{0}‚ƒ„…†‡ˆ‰Š‹Œ\u{0}Ž\u{0}\u{0}‘’“”•–—˜™š›œ\u{0}žŸ\u{A0}¡¢£¤¥¦§¨©ª«¬\u{AD}®¯°±²³´µ¶·¸¹º»¼½¾¿ÀÁÂÃÄÅÆÇÈÉÊËÌÍÎÏÐÑÒÓÔÕÖ×ØÙÚÛÜÝÞßàáâãäåæçèéêëìíîïðñòóôõö÷øùúûüýþÿ");
        },
        PageCodeTable::PC866 => {
            reveal_strlit("АБВГДЕЖЗИЙКЛМНОПРСТУФХЦЧШЩЪЫЬЭЮЯабвгдежзийклмноп░▒▓│┤╡╢╖╕╣║╗╝╜╛┐└┴┬├─┼╞╟╚╔╩╦╠═╬╧╨╤╥╙╘╒╓╫╪┘┌█▄▌▐▀рстуфхцчшщъыьэюяЁёЄєЇїЎў°∙·√№¤■\u{A0}");
        },
        PageCodeTable::WPC775 => {
            reveal_strlit("ĆüéāäģåćłēŖŗīŹÄÅÉæÆōöĢ¢ŚśÖÜø£Ø×¤ĀĪóŻżź”¦©®¬½¼Ł«»░▒▓│┤ĄČĘĖ╣║╗╝ĮŠ┐└┴┬├─┼ŲŪ╚╔╩╦╠═╬Žąčęėįšųūž┘┌█▄▌▐▀ÓßŌŃõÕµńĶķĻļņĒŅ’-±“¾¶§÷„°∙·¹³²■\u{A0}");
        },
        PageCodeTable::PC855 => {
            reveal_strlit("ђЂѓЃёЁєЄѕЅіІїЇјЈљЉњЊћЋќЌўЎџЏюЮъЪаАбБцЦдДеЕфФгГ«»░▒▓│┤хХиИ╣║╗╝йЙ┐└┴┬├─┼кК╚╔╩╦╠═╬¤лЛмМнНоОп┘┌█▄Пя▀ЯрРсСтТуУжЖвВьЬ№-ыЫзЗшШэЭщЩчЧ§■\u{A0}");
        },
        PageCodeTable::PC861 => {
            reveal_strlit("ÇüéâäàåçêëèÐðÞÄÅÉæÆôöþûÝýÖÜø£Ø₧ƒáíóúÁÍÓÚ¿⌐¬½¼¡«»░▒▓│┤╡╢╖╕╣║╗╝╜╛┐└┴┬├─┼╞╟╚╔╩╦╠═╬╧╨╤╥╙╘╒╓╫╪┘┌█▄▌▐▀αßΓπΣσµτΦΘΩδ∞φε∩≡±≥≤⌠⌡÷≈°∙·√ⁿ²■\u{A0}");
        },
        PageCodeTable::PC862 => {
            reveal_strlit("אבגדהוזחטיךכלםמןנסעףפץצקרשת¢£¥₧ƒáíóúñÑªº¿⌐¬½¼¡«»░▒▓│┤╡╢╖╕╣║╗╝╜╛┐└┴┬├─┼╞╟╚╔╩╦╠═╬╧╨╤╥╙╘╒╓╫╪┘┌█▄▌▐▀αßΓπΣσµτΦΘΩδ∞φε∩≡±≥≤⌠⌡÷≈°∙·√ⁿ²■\u{A0}");
        },
        PageCodeTable::PC869 => {
            reveal_strlit("Ά€·¬¦‘’Έ―ΉΊΪΌ\u{0}\u{0}ΎΫ©Ώ²³ά£έήίϊΐόύΑΒΓΔΕΖΗ½ΘΙ«»░▒▓│┤ΚΛΜΝ╣║╗╝ΞΟ┐└┴┬├─┼ΠΡ╚╔╩╦╠═╬ΣΤΥΦΧΨΩαβγ┘┌█▄δε▀ζηθικλμνξοπρσςτ΄-±υφχ§ψ΅°¨ωϋΰώ■\u{A0}");
        },
        PageCodeTable::PC1118 => {
            reveal_strlit("ÇüéâäàåçêëèïîìÄÅÉæÆôöòûùÿÖÜ¢£¥₧ƒáíóúñÑªº¿⌐¬½¼¡«»░▒▓│┤ĄČĘĖ╣║╗╝ĮŠ┐└┴┬├─┼ŲŪ╚╔╩╦╠═╬Žąčęėįšųūž┘┌█▄▌▐▀αßΓπΣσµτΦΘΩδ∞φε∩≡±≥≤„“÷≈°∙·√ⁿ²■\u{A0}");
        },
        PageCodeTable::PC1119 => {
            reveal_strlit("АБВГДЕЖЗИЙКЛМНОПРСТУФХЦЧШЩЪЫЬЭЮЯабвгдежзийклмноп░▒▓│┤ĄČĘĖ╣║╗╝ĮŠ┐└┴┬├─┼ŲŪ╚╔╩╦╠═╬Žąčęėįšųūž┘┌█▄▌▐▀рстуфхцчшщъыьэюяЁё≥≤„“÷≈°∙·√ⁿ²■\u{A0}");
        },
        PageCodeTable::PC1125 => {
            reveal_strlit("АБВГДЕЖЗИЙКЛМНОПРСТУФХЦЧШЩЪЫЬЭЮЯабвгдежзийклмноп░▒▓│┤╡╢╖╕╣║╗╝╜╛┐└┴┬├─┼╞╟╚╔╩╦╠═╬╧╨╤╥╙╘╒╓╫╪┘┌█▄▌▐▀рстуфхцчшщъыьэюяЁёҐґЄєІіЇї÷±№¤■\u{A0}");
        },
        PageCodeTable::WPC1250 => {
            reveal_strlit("€\u{0}‚\u{0}„…†‡\u{0}‰Š‹ŚŤŽŹ\u{0}‘’“”•–—\u{0}™š›śťžź\u{A0}ˇ˘Ł¤Ą¦§¨©Ş«¬-®Ż°±˛ł´µ¶·¸ąş»Ľ˝ľżŔÁÂĂÄĹĆÇČÉĘËĚÍÎĎĐŃŇÓÔŐÖ×ŘŮÚŰÜÝŢßŕáâăäĺćçčéęëěíîďđńňóôőö÷řůúűüýţ˙");
        },
        PageCodeTable::WPC1251 => {
            reveal_strlit("ЂЃ‚ѓ„…†‡€‰Љ‹ЊЌЋЏђ‘’“”•–—\u{0}™љ›њќћџ\u{A0}ЎўЈ¤Ґ¦§Ё©Є«¬-®Ї°±Ііґµ¶·ё№є»јЅѕїАБВГДЕЖЗИЙКЛМНОПРСТУФХЦЧШЩЪЫЬЭЮЯабвгдежзийклмнопрстуфхцчшщъыьэюя");
        },
        PageCodeTable::WPC1253 => {
            reveal_strlit("€\u{0}‚ƒ„…†‡\u{0}‰\u{0}‹\u{0}\u{0}\u{0}\u{0}\u{0}‘’“”•–—\u{0}™\u{0}›\u{0}\u{0}\u{0}\u{0}\u{A0}΅Ά£¤¥¦§¨©\u{0}«¬-®―°±²³΄µ¶·ΈΉΊ»Ό½ΎΏΐΑΒΓΔΕΖΗΘΙΚΛΜΝΞΟΠΡ\u{0}ΣΤΥΦΧΨΩΪΫάέήίΰαβγδεζηθικλμνξοπρςστυφχψωϊϋόύώ\u{0}");
        },
        PageCodeTable::WPC1254 => {
            reveal_strlit("€\u{0}‚ƒ„…†‡ˆ‰Š‹Œ\u{0}\u{0}\u{0}\u{0}‘’“”•–—˜™š›œ\u{0}\u{0}Ÿ\u{A0}¡¢£¤¥¦§¨©ª«¬-®¯°±²³´µ¶·¸¹º»¼½¾¿ÀÁÂÃÄÅÆÇÈÉÊËÌÍÎÏĞÑÒÓÔÕÖ×ØÙÚÛÜİŞßàáâãäåæçèéêëìíîïğñòóôõö÷øùúûüışÿ");
        },
        PageCodeTable::WPC1257 => {
            reveal_strlit("€\u{0}‚\u{0}„…†‡\u{0}‰\u{0}‹\u{0}¨ˇ¸\u{0}‘’“”•–—\u{0}™\u{0}›\u{0}¯˛\u{0}\u{A0}\u{0}¢£¤\u{0}¦§Ø©Ŗ«¬-®Æ°±²³´µ¶·ø¹ŗ»¼½¾æĄĮĀĆÄÅĘĒČÉŹĖĢĶĪĻŠŃŅÓŌÕÖ×ŲŁŚŪÜŻŽßąįāćäåęēčéźėģķīļšńņóōõö÷ųłśūüżž˙");
        },
        PageCodeTable::KZ1048 => {
            reveal_strlit("ЂЃ‚ѓ„…†‡€‰Љ‹ЊҚҺЏђ‘’“”•–—\u{0}™љ›њқһџ\u{A0}ҰұӘ¤Ө¦§Ё©Ғ«¬-®Ү°±Ііөµ¶·ё№ғ»әҢңүАБВГДЕЖЗИЙКЛМНОПРСТУФХЦЧШЩЪЫЬЭЮЯабвгдежзийклмнопрстуфхцчшщъыьэюя");
        },
    }
}

/// No two distinct characters of one supported page's table map to the
/// same byte, and every recorded byte lies in that page's valid sub-range.
pub proof fn lemma_registry_injective(pc: PageCodeTable, c1: char, c2: char)
    requires
        c1 != c2,
        table_lookup(chars_of(pc), base_of(pc), c1) is Some,
        table_lookup(chars_of(pc), base_of(pc), c2) is Some,
    ensures
        table_lookup(chars_of(pc), base_of(pc), c1) != table_lookup(chars_of(pc), base_of(pc), c2),
        base_of(pc) <= table_lookup(chars_of(pc), base_of(pc), c1).unwrap() < base_of(pc)
            + chars_of(pc).len(),
{
    lemma_registry_table_wf(pc);
    crate::code_table::lemma_table_injective(chars_of(pc), base_of(pc), c1, c2);
    crate::code_table::lemma_table_range(chars_of(pc), base_of(pc), c1);
}

} // verus!
