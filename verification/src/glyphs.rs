//! The two tables of special characters: what a two-character code stands
//! for.
use vstd::prelude::*;

verus! {

/// The text of a letter-class code: an accented Latin letter or a ligature.
/// After such a code another one may follow in the same word.
#[verifier::opaque]
pub open spec fn letter_text(a: char, b: char) -> Option<Seq<char>> {
    match (a, b) {
        // Accented and other Latin letters.
        ('-', 'D') => Some("Ð"@),
        ('S', 'd') => Some("ð"@),
        ('T', 'p') => Some("þ"@),
        ('T', 'P') => Some("Þ"@),
        ('A', 'E') => Some("Æ"@),
        ('a', 'e') => Some("æ"@),
        ('O', 'E') => Some("OE"@),
        ('o', 'e') => Some("oe"@),
        (':', 'a') => Some("ä"@),
        (':', 'A') => Some("Ä"@),
        (':', 'e') => Some("ë"@),
        (':', 'E') => Some("Ë"@),
        (':', 'i') => Some("ï"@),
        (':', 'I') => Some("Ï"@),
        (':', 'o') => Some("ö"@),
        (':', 'O') => Some("Ö"@),
        (':', 'u') => Some("ü"@),
        (':', 'U') => Some("Ü"@),
        (':', 'y') => Some("ÿ"@),
        ('s', 's') => Some("ß"@),
        ('\'', 'A') => Some("Á"@),
        ('\'', 'E') => Some("É"@),
        ('\'', 'I') => Some("Í"@),
        ('\'', 'O') => Some("Ó"@),
        ('\'', 'U') => Some("Ú"@),
        ('\'', 'Y') => Some("Ý"@),
        ('\'', 'a') => Some("á"@),
        ('\'', 'e') => Some("é"@),
        ('\'', 'i') => Some("í"@),
        ('\'', 'o') => Some("ó"@),
        ('\'', 'u') => Some("ú"@),
        ('\'', 'y') => Some("ý"@),
        ('^', 'A') => Some("Â"@),
        ('^', 'E') => Some("Ê"@),
        ('^', 'I') => Some("Î"@),
        ('^', 'O') => Some("Ô"@),
        ('^', 'U') => Some("Û"@),
        ('^', 'a') => Some("â"@),
        ('^', 'e') => Some("ê"@),
        ('^', 'i') => Some("î"@),
        ('^', 'o') => Some("ô"@),
        ('^', 'u') => Some("û"@),
        ('`', 'A') => Some("À"@),
        ('`', 'E') => Some("È"@),
        ('`', 'I') => Some("Ì"@),
        ('`', 'O') => Some("Ò"@),
        ('`', 'U') => Some("Ù"@),
        ('`', 'a') => Some("à"@),
        ('`', 'e') => Some("è"@),
        ('`', 'i') => Some("ì"@),
        ('`', 'o') => Some("ò"@),
        ('`', 'u') => Some("ù"@),
        ('~', 'A') => Some("Ã"@),
        ('~', 'N') => Some("Ñ"@),
        ('~', 'O') => Some("Õ"@),
        ('~', 'a') => Some("ã"@),
        ('~', 'n') => Some("ñ"@),
        ('~', 'o') => Some("õ"@),
        (',', 'C') => Some("Ç"@),
        (',', 'c') => Some("ç"@),
        ('/', 'l') => Some("/l"@),
        ('/', 'L') => Some("/L"@),
        ('/', 'o') => Some("ø"@),
        ('/', 'O') => Some("Ø"@),
        ('o', 'A') => Some("Å"@),
        ('o', 'a') => Some("å"@),
        // Ligatures.
        ('f', 'i') => Some("fi"@),
        ('f', 'f') => Some("ff"@),
        ('f', 'l') => Some("fl"@),
        ('F', 'i') => Some("ffi"@),
        ('F', 'f') => Some("fff"@),
        ('F', 'l') => Some("ffl"@),
        _ => None,
    }
}

/// Looks a code up among the letter-class codes.
pub fn g_specs_specletter(a: char, b: char) -> (r: Option<&'static str>)
    ensures
        match r {
            Some(text) => letter_text(a, b) == Some(text@),
            None => letter_text(a, b) is None,
        },
{
    reveal(letter_text);
    match (a, b) {
        ('-', 'D') => Some("Ð"),
        ('S', 'd') => Some("ð"),
        ('T', 'p') => Some("þ"),
        ('T', 'P') => Some("Þ"),
        ('A', 'E') => Some("Æ"),
        ('a', 'e') => Some("æ"),
        ('O', 'E') => Some("OE"),
        ('o', 'e') => Some("oe"),
        (':', 'a') => Some("ä"),
        (':', 'A') => Some("Ä"),
        (':', 'e') => Some("ë"),
        (':', 'E') => Some("Ë"),
        (':', 'i') => Some("ï"),
        (':', 'I') => Some("Ï"),
        (':', 'o') => Some("ö"),
        (':', 'O') => Some("Ö"),
        (':', 'u') => Some("ü"),
        (':', 'U') => Some("Ü"),
        (':', 'y') => Some("ÿ"),
        ('s', 's') => Some("ß"),
        ('\'', 'A') => Some("Á"),
        ('\'', 'E') => Some("É"),
        ('\'', 'I') => Some("Í"),
        ('\'', 'O') => Some("Ó"),
        ('\'', 'U') => Some("Ú"),
        ('\'', 'Y') => Some("Ý"),
        ('\'', 'a') => Some("á"),
        ('\'', 'e') => Some("é"),
        ('\'', 'i') => Some("í"),
        ('\'', 'o') => Some("ó"),
        ('\'', 'u') => Some("ú"),
        ('\'', 'y') => Some("ý"),
        ('^', 'A') => Some("Â"),
        ('^', 'E') => Some("Ê"),
        ('^', 'I') => Some("Î"),
        ('^', 'O') => Some("Ô"),
        ('^', 'U') => Some("Û"),
        ('^', 'a') => Some("â"),
        ('^', 'e') => Some("ê"),
        ('^', 'i') => Some("î"),
        ('^', 'o') => Some("ô"),
        ('^', 'u') => Some("û"),
        ('`', 'A') => Some("À"),
        ('`', 'E') => Some("È"),
        ('`', 'I') => Some("Ì"),
        ('`', 'O') => Some("Ò"),
        ('`', 'U') => Some("Ù"),
        ('`', 'a') => Some("à"),
        ('`', 'e') => Some("è"),
        ('`', 'i') => Some("ì"),
        ('`', 'o') => Some("ò"),
        ('`', 'u') => Some("ù"),
        ('~', 'A') => Some("Ã"),
        ('~', 'N') => Some("Ñ"),
        ('~', 'O') => Some("Õ"),
        ('~', 'a') => Some("ã"),
        ('~', 'n') => Some("ñ"),
        ('~', 'o') => Some("õ"),
        (',', 'C') => Some("Ç"),
        (',', 'c') => Some("ç"),
        ('/', 'l') => Some("/l"),
        ('/', 'L') => Some("/L"),
        ('/', 'o') => Some("ø"),
        ('/', 'O') => Some("Ø"),
        ('o', 'A') => Some("Å"),
        ('o', 'a') => Some("å"),
        ('f', 'i') => Some("fi"),
        ('f', 'f') => Some("ff"),
        ('f', 'l') => Some("fl"),
        ('F', 'i') => Some("ffi"),
        ('F', 'f') => Some("fff"),
        ('F', 'l') => Some("ffl"),
        _ => None,
    }
}

/// The text of a symbol code: punctuation, a mathematical sign, an arrow or
/// the name of a Greek letter. Such a code ends a word.
#[verifier::opaque]
pub open spec fn symbol_text(a: char, b: char) -> Option<Seq<char>> {
    match (a, b) {
        // Punctuation, signs and arrows.
        ('m', 'i') => Some("-"@),
        ('e', 'n') => Some("-"@),
        ('h', 'y') => Some("-"@),
        ('e', 'm') => Some("--"@),
        ('l', 'q') => Some("“"@),
        ('r', 'q') => Some("”"@),
        ('B', 'q') => Some(",,"@),
        ('o', 'q') => Some("`"@),
        ('c', 'q') => Some("'"@),
        ('a', 'q') => Some("'"@),
        ('d', 'q') => Some("\""@),
        ('o', 'r') => Some("|"@),
        ('a', 't') => Some("@"@),
        ('s', 'h') => Some("#"@),
        ('E', 'u') => Some("¤"@),
        ('e', 'u') => Some("¤"@),
        ('D', 'o') => Some("$"@),
        ('c', 't') => Some("¢"@),
        ('F', 'o') => Some("«"@),
        ('F', 'c') => Some("»"@),
        ('f', 'o') => Some("<"@),
        ('f', 'c') => Some(">"@),
        ('r', '!') => Some("¡"@),
        ('r', '?') => Some("¿"@),
        ('O', 'f') => Some("ª"@),
        ('O', 'm') => Some("º"@),
        ('p', 'c') => Some("·"@),
        ('S', '1') => Some("¹"@),
        ('S', '2') => Some("²"@),
        ('S', '3') => Some("³"@),
        ('<', '-') => Some("<-"@),
        ('-', '>') => Some("->"@),
        ('<', '>') => Some("<->"@),
        ('u', 'a') => Some("^"@),
        ('d', 'a') => Some("v"@),
        ('l', 'A') => Some("<="@),
        ('r', 'A') => Some("=>"@),
        ('h', 'A') => Some("<=>"@),
        ('u', 'A') => Some("^^"@),
        ('d', 'A') => Some("vv"@),
        ('b', 'a') => Some("|"@),
        ('b', 'b') => Some("|"@),
        ('b', 'r') => Some("|"@),
        ('b', 'v') => Some("|"@),
        ('r', 'u') => Some("_"@),
        ('u', 'l') => Some("_"@),
        ('c', 'i') => Some("O"@),
        ('b', 'u') => Some("o"@),
        ('c', 'o') => Some("©"@),
        ('r', 'g') => Some("®"@),
        ('t', 'm') => Some("(TM)"@),
        ('d', 'd') => Some("||"@),
        ('d', 'g') => Some("|"@),
        ('p', 's') => Some("¶"@),
        ('s', 'c') => Some("§"@),
        ('d', 'e') => Some("°"@),
        ('%', '0') => Some("0/00"@),
        ('1', '4') => Some("¼"@),
        ('1', '2') => Some("½"@),
        ('3', '4') => Some("¾"@),
        ('f', '/') => Some("/"@),
        ('s', 'l') => Some("/"@),
        ('r', 's') => Some("\\"@),
        ('s', 'q') => Some("[]"@),
        ('f', 'm') => Some("'"@),
        ('h', 'a') => Some("^"@),
        ('t', 'i') => Some("~"@),
        ('l', 'B') => Some("["@),
        ('r', 'B') => Some("]"@),
        ('l', 'C') => Some("{"@),
        ('r', 'C') => Some("}"@),
        ('l', 'a') => Some("<"@),
        ('r', 'a') => Some(">"@),
        ('l', 'h') => Some("<="@),
        ('r', 'h') => Some("=>"@),
        ('t', 'f') => Some("therefore"@),
        ('~', '~') => Some("~~"@),
        ('~', '=') => Some("~="@),
        ('!', '=') => Some("!="@),
        ('*', '*') => Some("*"@),
        ('+', '-') => Some("±"@),
        ('<', '=') => Some("<="@),
        ('=', '=') => Some("=="@),
        ('=', '~') => Some("=~"@),
        ('>', '=') => Some(">="@),
        ('A', 'N') => Some("\\/"@),
        ('O', 'R') => Some("/\\"@),
        ('n', 'o') => Some("¬"@),
        ('t', 'e') => Some("there exists"@),
        ('f', 'a') => Some("for all"@),
        ('A', 'h') => Some("aleph"@),
        ('I', 'm') => Some("imaginary"@),
        ('R', 'e') => Some("real"@),
        ('i', 'f') => Some("infinity"@),
        ('m', 'd') => Some("·"@),
        ('m', 'o') => Some("member of"@),
        ('m', 'u') => Some("×"@),
        ('n', 'm') => Some("not member of"@),
        ('p', 'l') => Some("+"@),
        ('e', 'q') => Some("="@),
        ('p', 't') => Some("oc"@),
        ('p', 'p') => Some("perpendicular"@),
        ('s', 'b') => Some("(="@),
        ('s', 'p') => Some("=)"@),
        ('i', 'b') => Some("(-"@),
        ('i', 'p') => Some("-)"@),
        ('a', 'p') => Some("~"@),
        ('i', 's') => Some("I"@),
        ('s', 'r') => Some("root"@),
        ('p', 'd') => Some("d"@),
        ('c', '*') => Some("(x)"@),
        ('c', '+') => Some("(+)"@),
        ('c', 'a') => Some("cap"@),
        ('c', 'u') => Some("U"@),
        ('d', 'i') => Some("÷"@),
        ('g', 'r') => Some("V"@),
        ('e', 's') => Some("{}"@),
        ('C', 'R') => Some("_|"@),
        ('s', 't') => Some("such that"@),
        ('/', '_') => Some("/_"@),
        ('l', 'z') => Some("<>"@),
        ('a', 'n') => Some("-"@),
        // Greek letters, by name.
        ('*', 'A') => Some("Alpha"@),
        ('*', 'B') => Some("Beta"@),
        ('*', 'C') => Some("Xi"@),
        ('*', 'D') => Some("Delta"@),
        ('*', 'E') => Some("Epsilon"@),
        ('*', 'F') => Some("Phi"@),
        ('*', 'G') => Some("Gamma"@),
        ('*', 'H') => Some("Theta"@),
        ('*', 'I') => Some("Iota"@),
        ('*', 'K') => Some("Kappa"@),
        ('*', 'L') => Some("Lambda"@),
        ('*', 'M') => Some("Mu"@),
        ('*', 'N') => Some("Nu"@),
        ('*', 'O') => Some("Omicron"@),
        ('*', 'P') => Some("Pi"@),
        ('*', 'Q') => Some("Psi"@),
        ('*', 'R') => Some("Rho"@),
        ('*', 'S') => Some("Sigma"@),
        ('*', 'T') => Some("Tau"@),
        ('*', 'U') => Some("Upsilon"@),
        ('*', 'W') => Some("Omega"@),
        ('*', 'X') => Some("Chi"@),
        ('*', 'Y') => Some("Eta"@),
        ('*', 'Z') => Some("Zeta"@),
        ('*', 'a') => Some("alpha"@),
        ('*', 'b') => Some("beta"@),
        ('*', 'c') => Some("xi"@),
        ('*', 'd') => Some("delta"@),
        ('*', 'e') => Some("epsilon"@),
        ('*', 'f') => Some("phi"@),
        ('+', 'f') => Some("phi"@),
        ('*', 'g') => Some("gamma"@),
        ('*', 'h') => Some("theta"@),
        ('+', 'h') => Some("theta"@),
        ('*', 'i') => Some("iota"@),
        ('*', 'k') => Some("kappa"@),
        ('*', 'l') => Some("lambda"@),
        ('*', 'm') => Some("µ"@),
        ('*', 'n') => Some("nu"@),
        ('*', 'o') => Some("omicron"@),
        ('*', 'p') => Some("pi"@),
        ('+', 'p') => Some("omega"@),
        ('*', 'q') => Some("psi"@),
        ('*', 'r') => Some("rho"@),
        ('*', 's') => Some("sigma"@),
        ('*', 't') => Some("tau"@),
        ('*', 'u') => Some("upsilon"@),
        ('*', 'w') => Some("omega"@),
        ('*', 'x') => Some("chi"@),
        ('*', 'y') => Some("eta"@),
        ('*', 'z') => Some("zeta"@),
        ('t', 's') => Some("sigma"@),
        _ => None,
    }
}

/// Looks a code up among the symbol codes.
pub fn g_specs(a: char, b: char) -> (r: Option<&'static str>)
    ensures
        match r {
            Some(text) => symbol_text(a, b) == Some(text@),
            None => symbol_text(a, b) is None,
        },
{
    reveal(symbol_text);
    match (a, b) {
        ('m', 'i') => Some("-"),
        ('e', 'n') => Some("-"),
        ('h', 'y') => Some("-"),
        ('e', 'm') => Some("--"),
        ('l', 'q') => Some("“"),
        ('r', 'q') => Some("”"),
        ('B', 'q') => Some(",,"),
        ('o', 'q') => Some("`"),
        ('c', 'q') => Some("'"),
        ('a', 'q') => Some("'"),
        ('d', 'q') => Some("\""),
        ('o', 'r') => Some("|"),
        ('a', 't') => Some("@"),
        ('s', 'h') => Some("#"),
        ('E', 'u') => Some("¤"),
        ('e', 'u') => Some("¤"),
        ('D', 'o') => Some("$"),
        ('c', 't') => Some("¢"),
        ('F', 'o') => Some("«"),
        ('F', 'c') => Some("»"),
        ('f', 'o') => Some("<"),
        ('f', 'c') => Some(">"),
        ('r', '!') => Some("¡"),
        ('r', '?') => Some("¿"),
        ('O', 'f') => Some("ª"),
        ('O', 'm') => Some("º"),
        ('p', 'c') => Some("·"),
        ('S', '1') => Some("¹"),
        ('S', '2') => Some("²"),
        ('S', '3') => Some("³"),
        ('<', '-') => Some("<-"),
        ('-', '>') => Some("->"),
        ('<', '>') => Some("<->"),
        ('u', 'a') => Some("^"),
        ('d', 'a') => Some("v"),
        ('l', 'A') => Some("<="),
        ('r', 'A') => Some("=>"),
        ('h', 'A') => Some("<=>"),
        ('u', 'A') => Some("^^"),
        ('d', 'A') => Some("vv"),
        ('b', 'a') => Some("|"),
        ('b', 'b') => Some("|"),
        ('b', 'r') => Some("|"),
        ('b', 'v') => Some("|"),
        ('r', 'u') => Some("_"),
        ('u', 'l') => Some("_"),
        ('c', 'i') => Some("O"),
        ('b', 'u') => Some("o"),
        ('c', 'o') => Some("©"),
        ('r', 'g') => Some("®"),
        ('t', 'm') => Some("(TM)"),
        ('d', 'd') => Some("||"),
        ('d', 'g') => Some("|"),
        ('p', 's') => Some("¶"),
        ('s', 'c') => Some("§"),
        ('d', 'e') => Some("°"),
        ('%', '0') => Some("0/00"),
        ('1', '4') => Some("¼"),
        ('1', '2') => Some("½"),
        ('3', '4') => Some("¾"),
        ('f', '/') => Some("/"),
        ('s', 'l') => Some("/"),
        ('r', 's') => Some("\\"),
        ('s', 'q') => Some("[]"),
        ('f', 'm') => Some("'"),
        ('h', 'a') => Some("^"),
        ('t', 'i') => Some("~"),
        ('l', 'B') => Some("["),
        ('r', 'B') => Some("]"),
        ('l', 'C') => Some("{"),
        ('r', 'C') => Some("}"),
        ('l', 'a') => Some("<"),
        ('r', 'a') => Some(">"),
        ('l', 'h') => Some("<="),
        ('r', 'h') => Some("=>"),
        ('t', 'f') => Some("therefore"),
        ('~', '~') => Some("~~"),
        ('~', '=') => Some("~="),
        ('!', '=') => Some("!="),
        ('*', '*') => Some("*"),
        ('+', '-') => Some("±"),
        ('<', '=') => Some("<="),
        ('=', '=') => Some("=="),
        ('=', '~') => Some("=~"),
        ('>', '=') => Some(">="),
        ('A', 'N') => Some("\\/"),
        ('O', 'R') => Some("/\\"),
        ('n', 'o') => Some("¬"),
        ('t', 'e') => Some("there exists"),
        ('f', 'a') => Some("for all"),
        ('A', 'h') => Some("aleph"),
        ('I', 'm') => Some("imaginary"),
        ('R', 'e') => Some("real"),
        ('i', 'f') => Some("infinity"),
        ('m', 'd') => Some("·"),
        ('m', 'o') => Some("member of"),
        ('m', 'u') => Some("×"),
        ('n', 'm') => Some("not member of"),
        ('p', 'l') => Some("+"),
        ('e', 'q') => Some("="),
        ('p', 't') => Some("oc"),
        ('p', 'p') => Some("perpendicular"),
        ('s', 'b') => Some("(="),
        ('s', 'p') => Some("=)"),
        ('i', 'b') => Some("(-"),
        ('i', 'p') => Some("-)"),
        ('a', 'p') => Some("~"),
        ('i', 's') => Some("I"),
        ('s', 'r') => Some("root"),
        ('p', 'd') => Some("d"),
        ('c', '*') => Some("(x)"),
        ('c', '+') => Some("(+)"),
        ('c', 'a') => Some("cap"),
        ('c', 'u') => Some("U"),
        ('d', 'i') => Some("÷"),
        ('g', 'r') => Some("V"),
        ('e', 's') => Some("{}"),
        ('C', 'R') => Some("_|"),
        ('s', 't') => Some("such that"),
        ('/', '_') => Some("/_"),
        ('l', 'z') => Some("<>"),
        ('a', 'n') => Some("-"),
        ('*', 'A') => Some("Alpha"),
        ('*', 'B') => Some("Beta"),
        ('*', 'C') => Some("Xi"),
        ('*', 'D') => Some("Delta"),
        ('*', 'E') => Some("Epsilon"),
        ('*', 'F') => Some("Phi"),
        ('*', 'G') => Some("Gamma"),
        ('*', 'H') => Some("Theta"),
        ('*', 'I') => Some("Iota"),
        ('*', 'K') => Some("Kappa"),
        ('*', 'L') => Some("Lambda"),
        ('*', 'M') => Some("Mu"),
        ('*', 'N') => Some("Nu"),
        ('*', 'O') => Some("Omicron"),
        ('*', 'P') => Some("Pi"),
        ('*', 'Q') => Some("Psi"),
        ('*', 'R') => Some("Rho"),
        ('*', 'S') => Some("Sigma"),
        ('*', 'T') => Some("Tau"),
        ('*', 'U') => Some("Upsilon"),
        ('*', 'W') => Some("Omega"),
        ('*', 'X') => Some("Chi"),
        ('*', 'Y') => Some("Eta"),
        ('*', 'Z') => Some("Zeta"),
        ('*', 'a') => Some("alpha"),
        ('*', 'b') => Some("beta"),
        ('*', 'c') => Some("xi"),
        ('*', 'd') => Some("delta"),
        ('*', 'e') => Some("epsilon"),
        ('*', 'f') => Some("phi"),
        ('+', 'f') => Some("phi"),
        ('*', 'g') => Some("gamma"),
        ('*', 'h') => Some("theta"),
        ('+', 'h') => Some("theta"),
        ('*', 'i') => Some("iota"),
        ('*', 'k') => Some("kappa"),
        ('*', 'l') => Some("lambda"),
        ('*', 'm') => Some("µ"),
        ('*', 'n') => Some("nu"),
        ('*', 'o') => Some("omicron"),
        ('*', 'p') => Some("pi"),
        ('+', 'p') => Some("omega"),
        ('*', 'q') => Some("psi"),
        ('*', 'r') => Some("rho"),
        ('*', 's') => Some("sigma"),
        ('*', 't') => Some("tau"),
        ('*', 'u') => Some("upsilon"),
        ('*', 'w') => Some("omega"),
        ('*', 'x') => Some("chi"),
        ('*', 'y') => Some("eta"),
        ('*', 'z') => Some("zeta"),
        ('t', 's') => Some("sigma"),
        _ => None,
    }
}

} // verus!
