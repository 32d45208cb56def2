use vstd::prelude::*;

verus! {

/// The longest name that the table holds.
pub const MAX_NAME_LEN: usize = 32;

/// An ASCII letter or digit.
pub open spec fn is_ascii_alphanumeric(c: char) -> bool {
    ('0' <= c && c <= '9') || ('a' <= c && c <= 'z') || ('A' <= c && c <= 'Z')
}

/// Whether `c` is an ASCII letter or digit.
pub fn is_alphanumeric(c: char) -> (r: bool)
    ensures
        r == is_ascii_alphanumeric(c),
{
    ('0' <= c && c <= '9') || ('a' <= c && c <= 'z') || ('A' <= c && c <= 'Z')
}

/// The table of named references: the text that `name` stands for, if it is a name.
pub open spec fn named_value(name: Seq<char>) -> Option<Seq<char>> {
    if name == "AMP"@ {
        Some("&"@)
    } else if name == "amp"@ {
        Some("&"@)
    } else if name == "LT"@ {
        Some("<"@)
    } else if name == "lt"@ {
        Some("<"@)
    } else if name == "GT"@ {
        Some(">"@)
    } else if name == "gt"@ {
        Some(">"@)
    } else if name == "QUOT"@ {
        Some("\""@)
    } else if name == "quot"@ {
        Some("\""@)
    } else if name == "apos"@ {
        Some("'"@)
    } else if name == "nbsp"@ {
        Some("\u{A0}"@)
    } else if name == "iexcl"@ {
        Some("\u{A1}"@)
    } else if name == "cent"@ {
        Some("\u{A2}"@)
    } else if name == "pound"@ {
        Some("\u{A3}"@)
    } else if name == "curren"@ {
        Some("\u{A4}"@)
    } else if name == "yen"@ {
        Some("\u{A5}"@)
    } else if name == "brvbar"@ {
        Some("\u{A6}"@)
    } else if name == "sect"@ {
        Some("\u{A7}"@)
    } else if name == "uml"@ {
        Some("\u{A8}"@)
    } else if name == "COPY"@ {
        Some("\u{A9}"@)
    } else if name == "copy"@ {
        Some("\u{A9}"@)
    } else if name == "copysr"@ {
        Some("\u{2117}"@)
    } else if name == "ordf"@ {
        Some("\u{AA}"@)
    } else if name == "laquo"@ {
        Some("\u{AB}"@)
    } else if name == "not"@ {
        Some("\u{AC}"@)
    } else if name == "notin"@ {
        Some("\u{2208}"@)
    } else if name == "isin"@ {
        Some("\u{2208}"@)
    } else if name == "shy"@ {
        Some("\u{AD}"@)
    } else if name == "REG"@ {
        Some("\u{AE}"@)
    } else if name == "reg"@ {
        Some("\u{AE}"@)
    } else if name == "macr"@ {
        Some("\u{AF}"@)
    } else if name == "deg"@ {
        Some("\u{B0}"@)
    } else if name == "plusmn"@ {
        Some("\u{B1}"@)
    } else if name == "sup2"@ {
        Some("\u{B2}"@)
    } else if name == "sup3"@ {
        Some("\u{B3}"@)
    } else if name == "acute"@ {
        Some("\u{B4}"@)
    } else if name == "micro"@ {
        Some("\u{B5}"@)
    } else if name == "para"@ {
        Some("\u{B6}"@)
    } else if name == "middot"@ {
        Some("\u{B7}"@)
    } else if name == "cedil"@ {
        Some("\u{B8}"@)
    } else if name == "sup1"@ {
        Some("\u{B9}"@)
    } else if name == "ordm"@ {
        Some("\u{BA}"@)
    } else if name == "raquo"@ {
        Some("\u{BB}"@)
    } else if name == "frac14"@ {
        Some("\u{BC}"@)
    } else if name == "frac12"@ {
        Some("\u{BD}"@)
    } else if name == "frac34"@ {
        Some("\u{BE}"@)
    } else if name == "iquest"@ {
        Some("\u{BF}"@)
    } else if name == "times"@ {
        Some("\u{D7}"@)
    } else if name == "divide"@ {
        Some("\u{F7}"@)
    } else if name == "excl"@ {
        Some("!"@)
    } else if name == "num"@ {
        Some("#"@)
    } else if name == "dollar"@ {
        Some("$"@)
    } else if name == "percnt"@ {
        Some("%"@)
    } else if name == "lpar"@ {
        Some("("@)
    } else if name == "rpar"@ {
        Some(")"@)
    } else if name == "ast"@ {
        Some("*"@)
    } else if name == "plus"@ {
        Some("+"@)
    } else if name == "comma"@ {
        Some(","@)
    } else if name == "period"@ {
        Some("."@)
    } else if name == "sol"@ {
        Some("/"@)
    } else if name == "colon"@ {
        Some(":"@)
    } else if name == "semi"@ {
        Some(";"@)
    } else if name == "equals"@ {
        Some("="@)
    } else if name == "quest"@ {
        Some("?"@)
    } else if name == "commat"@ {
        Some("@"@)
    } else if name == "lsqb"@ {
        Some("["@)
    } else if name == "rsqb"@ {
        Some("]"@)
    } else if name == "lowbar"@ {
        Some("_"@)
    } else if name == "minus"@ {
        Some("\u{2212}"@)
    } else if name == "ndash"@ {
        Some("\u{2013}"@)
    } else if name == "mdash"@ {
        Some("\u{2014}"@)
    } else if name == "lsquo"@ {
        Some("\u{2018}"@)
    } else if name == "rsquo"@ {
        Some("\u{2019}"@)
    } else if name == "ldquo"@ {
        Some("\u{201C}"@)
    } else if name == "rdquo"@ {
        Some("\u{201D}"@)
    } else if name == "bull"@ {
        Some("\u{2022}"@)
    } else if name == "hellip"@ {
        Some("\u{2026}"@)
    } else if name == "euro"@ {
        Some("\u{20AC}"@)
    } else if name == "trade"@ {
        Some("\u{2122}"@)
    } else if name == "TRADE"@ {
        Some("\u{2122}"@)
    } else if name == "ThickSpace"@ {
        Some("\u{205F}\u{200A}"@)
    } else if name == "Agrave"@ {
        Some("\u{C0}"@)
    } else if name == "Aacute"@ {
        Some("\u{C1}"@)
    } else if name == "Acirc"@ {
        Some("\u{C2}"@)
    } else if name == "Atilde"@ {
        Some("\u{C3}"@)
    } else if name == "Auml"@ {
        Some("\u{C4}"@)
    } else if name == "Aring"@ {
        Some("\u{C5}"@)
    } else if name == "AElig"@ {
        Some("\u{C6}"@)
    } else if name == "Ccedil"@ {
        Some("\u{C7}"@)
    } else if name == "Egrave"@ {
        Some("\u{C8}"@)
    } else if name == "Eacute"@ {
        Some("\u{C9}"@)
    } else if name == "Ecirc"@ {
        Some("\u{CA}"@)
    } else if name == "Euml"@ {
        Some("\u{CB}"@)
    } else if name == "Igrave"@ {
        Some("\u{CC}"@)
    } else if name == "Iacute"@ {
        Some("\u{CD}"@)
    } else if name == "Icirc"@ {
        Some("\u{CE}"@)
    } else if name == "Iuml"@ {
        Some("\u{CF}"@)
    } else if name == "ETH"@ {
        Some("\u{D0}"@)
    } else if name == "Ntilde"@ {
        Some("\u{D1}"@)
    } else if name == "Ograve"@ {
        Some("\u{D2}"@)
    } else if name == "Oacute"@ {
        Some("\u{D3}"@)
    } else if name == "Ocirc"@ {
        Some("\u{D4}"@)
    } else if name == "Otilde"@ {
        Some("\u{D5}"@)
    } else if name == "Ouml"@ {
        Some("\u{D6}"@)
    } else if name == "Oslash"@ {
        Some("\u{D8}"@)
    } else if name == "Ugrave"@ {
        Some("\u{D9}"@)
    } else if name == "Uacute"@ {
        Some("\u{DA}"@)
    } else if name == "Ucirc"@ {
        Some("\u{DB}"@)
    } else if name == "Uuml"@ {
        Some("\u{DC}"@)
    } else if name == "Yacute"@ {
        Some("\u{DD}"@)
    } else if name == "THORN"@ {
        Some("\u{DE}"@)
    } else if name == "szlig"@ {
        Some("\u{DF}"@)
    } else if name == "agrave"@ {
        Some("\u{E0}"@)
    } else if name == "aacute"@ {
        Some("\u{E1}"@)
    } else if name == "acirc"@ {
        Some("\u{E2}"@)
    } else if name == "atilde"@ {
        Some("\u{E3}"@)
    } else if name == "auml"@ {
        Some("\u{E4}"@)
    } else if name == "aring"@ {
        Some("\u{E5}"@)
    } else if name == "aelig"@ {
        Some("\u{E6}"@)
    } else if name == "ccedil"@ {
        Some("\u{E7}"@)
    } else if name == "egrave"@ {
        Some("\u{E8}"@)
    } else if name == "eacute"@ {
        Some("\u{E9}"@)
    } else if name == "ecirc"@ {
        Some("\u{EA}"@)
    } else if name == "euml"@ {
        Some("\u{EB}"@)
    } else if name == "igrave"@ {
        Some("\u{EC}"@)
    } else if name == "iacute"@ {
        Some("\u{ED}"@)
    } else if name == "icirc"@ {
        Some("\u{EE}"@)
    } else if name == "iuml"@ {
        Some("\u{EF}"@)
    } else if name == "eth"@ {
        Some("\u{F0}"@)
    } else if name == "ntilde"@ {
        Some("\u{F1}"@)
    } else if name == "ograve"@ {
        Some("\u{F2}"@)
    } else if name == "oacute"@ {
        Some("\u{F3}"@)
    } else if name == "ocirc"@ {
        Some("\u{F4}"@)
    } else if name == "otilde"@ {
        Some("\u{F5}"@)
    } else if name == "ouml"@ {
        Some("\u{F6}"@)
    } else if name == "oslash"@ {
        Some("\u{F8}"@)
    } else if name == "ugrave"@ {
        Some("\u{F9}"@)
    } else if name == "uacute"@ {
        Some("\u{FA}"@)
    } else if name == "ucirc"@ {
        Some("\u{FB}"@)
    } else if name == "uuml"@ {
        Some("\u{FC}"@)
    } else if name == "yacute"@ {
        Some("\u{FD}"@)
    } else if name == "thorn"@ {
        Some("\u{FE}"@)
    } else if name == "yuml"@ {
        Some("\u{FF}"@)
    } else if name == "OElig"@ {
        Some("\u{152}"@)
    } else if name == "oelig"@ {
        Some("\u{153}"@)
    } else if name == "Scaron"@ {
        Some("\u{160}"@)
    } else if name == "scaron"@ {
        Some("\u{161}"@)
    } else if name == "Yuml"@ {
        Some("\u{178}"@)
    } else if name == "fnof"@ {
        Some("\u{192}"@)
    } else if name == "circ"@ {
        Some("\u{2C6}"@)
    } else if name == "tilde"@ {
        Some("\u{2DC}"@)
    } else if name == "Alpha"@ {
        Some("\u{391}"@)
    } else if name == "Beta"@ {
        Some("\u{392}"@)
    } else if name == "Gamma"@ {
        Some("\u{393}"@)
    } else if name == "Delta"@ {
        Some("\u{394}"@)
    } else if name == "Epsilon"@ {
        Some("\u{395}"@)
    } else if name == "Zeta"@ {
        Some("\u{396}"@)
    } else if name == "Eta"@ {
        Some("\u{397}"@)
    } else if name == "Theta"@ {
        Some("\u{398}"@)
    } else if name == "Iota"@ {
        Some("\u{399}"@)
    } else if name == "Kappa"@ {
        Some("\u{39A}"@)
    } else if name == "Lambda"@ {
        Some("\u{39B}"@)
    } else if name == "Mu"@ {
        Some("\u{39C}"@)
    } else if name == "Nu"@ {
        Some("\u{39D}"@)
    } else if name == "Xi"@ {
        Some("\u{39E}"@)
    } else if name == "Omicron"@ {
        Some("\u{39F}"@)
    } else if name == "Pi"@ {
        Some("\u{3A0}"@)
    } else if name == "Rho"@ {
        Some("\u{3A1}"@)
    } else if name == "Sigma"@ {
        Some("\u{3A3}"@)
    } else if name == "Tau"@ {
        Some("\u{3A4}"@)
    } else if name == "Upsilon"@ {
        Some("\u{3A5}"@)
    } else if name == "Phi"@ {
        Some("\u{3A6}"@)
    } else if name == "Chi"@ {
        Some("\u{3A7}"@)
    } else if name == "Psi"@ {
        Some("\u{3A8}"@)
    } else if name == "Omega"@ {
        Some("\u{3A9}"@)
    } else if name == "alpha"@ {
        Some("\u{3B1}"@)
    } else if name == "beta"@ {
        Some("\u{3B2}"@)
    } else if name == "gamma"@ {
        Some("\u{3B3}"@)
    } else if name == "delta"@ {
        Some("\u{3B4}"@)
    } else if name == "epsilon"@ {
        Some("\u{3B5}"@)
    } else if name == "zeta"@ {
        Some("\u{3B6}"@)
    } else if name == "eta"@ {
        Some("\u{3B7}"@)
    } else if name == "theta"@ {
        Some("\u{3B8}"@)
    } else if name == "iota"@ {
        Some("\u{3B9}"@)
    } else if name == "kappa"@ {
        Some("\u{3BA}"@)
    } else if name == "lambda"@ {
        Some("\u{3BB}"@)
    } else if name == "mu"@ {
        Some("\u{3BC}"@)
    } else if name == "nu"@ {
        Some("\u{3BD}"@)
    } else if name == "xi"@ {
        Some("\u{3BE}"@)
    } else if name == "omicron"@ {
        Some("\u{3BF}"@)
    } else if name == "pi"@ {
        Some("\u{3C0}"@)
    } else if name == "rho"@ {
        Some("\u{3C1}"@)
    } else if name == "sigmaf"@ {
        Some("\u{3C2}"@)
    } else if name == "sigma"@ {
        Some("\u{3C3}"@)
    } else if name == "tau"@ {
        Some("\u{3C4}"@)
    } else if name == "upsilon"@ {
        Some("\u{3C5}"@)
    } else if name == "phi"@ {
        Some("\u{3C6}"@)
    } else if name == "chi"@ {
        Some("\u{3C7}"@)
    } else if name == "psi"@ {
        Some("\u{3C8}"@)
    } else if name == "omega"@ {
        Some("\u{3C9}"@)
    } else if name == "thetasym"@ {
        Some("\u{3D1}"@)
    } else if name == "upsih"@ {
        Some("\u{3D2}"@)
    } else if name == "piv"@ {
        Some("\u{3D6}"@)
    } else if name == "ensp"@ {
        Some("\u{2002}"@)
    } else if name == "emsp"@ {
        Some("\u{2003}"@)
    } else if name == "thinsp"@ {
        Some("\u{2009}"@)
    } else if name == "zwnj"@ {
        Some("\u{200C}"@)
    } else if name == "zwj"@ {
        Some("\u{200D}"@)
    } else if name == "lrm"@ {
        Some("\u{200E}"@)
    } else if name == "rlm"@ {
        Some("\u{200F}"@)
    } else if name == "sbquo"@ {
        Some("\u{201A}"@)
    } else if name == "bdquo"@ {
        Some("\u{201E}"@)
    } else if name == "dagger"@ {
        Some("\u{2020}"@)
    } else if name == "Dagger"@ {
        Some("\u{2021}"@)
    } else if name == "permil"@ {
        Some("\u{2030}"@)
    } else if name == "prime"@ {
        Some("\u{2032}"@)
    } else if name == "Prime"@ {
        Some("\u{2033}"@)
    } else if name == "lsaquo"@ {
        Some("\u{2039}"@)
    } else if name == "rsaquo"@ {
        Some("\u{203A}"@)
    } else if name == "oline"@ {
        Some("\u{203E}"@)
    } else if name == "frasl"@ {
        Some("\u{2044}"@)
    } else if name == "weierp"@ {
        Some("\u{2118}"@)
    } else if name == "image"@ {
        Some("\u{2111}"@)
    } else if name == "real"@ {
        Some("\u{211C}"@)
    } else if name == "alefsym"@ {
        Some("\u{2135}"@)
    } else if name == "larr"@ {
        Some("\u{2190}"@)
    } else if name == "uarr"@ {
        Some("\u{2191}"@)
    } else if name == "rarr"@ {
        Some("\u{2192}"@)
    } else if name == "darr"@ {
        Some("\u{2193}"@)
    } else if name == "harr"@ {
        Some("\u{2194}"@)
    } else if name == "crarr"@ {
        Some("\u{21B5}"@)
    } else if name == "lArr"@ {
        Some("\u{21D0}"@)
    } else if name == "uArr"@ {
        Some("\u{21D1}"@)
    } else if name == "rArr"@ {
        Some("\u{21D2}"@)
    } else if name == "dArr"@ {
        Some("\u{21D3}"@)
    } else if name == "hArr"@ {
        Some("\u{21D4}"@)
    } else if name == "forall"@ {
        Some("\u{2200}"@)
    } else if name == "part"@ {
        Some("\u{2202}"@)
    } else if name == "exist"@ {
        Some("\u{2203}"@)
    } else if name == "empty"@ {
        Some("\u{2205}"@)
    } else if name == "nabla"@ {
        Some("\u{2207}"@)
    } else if name == "ni"@ {
        Some("\u{220B}"@)
    } else if name == "prod"@ {
        Some("\u{220F}"@)
    } else if name == "sum"@ {
        Some("\u{2211}"@)
    } else if name == "lowast"@ {
        Some("\u{2217}"@)
    } else if name == "radic"@ {
        Some("\u{221A}"@)
    } else if name == "prop"@ {
        Some("\u{221D}"@)
    } else if name == "infin"@ {
        Some("\u{221E}"@)
    } else if name == "ang"@ {
        Some("\u{2220}"@)
    } else if name == "and"@ {
        Some("\u{2227}"@)
    } else if name == "or"@ {
        Some("\u{2228}"@)
    } else if name == "cap"@ {
        Some("\u{2229}"@)
    } else if name == "cup"@ {
        Some("\u{222A}"@)
    } else if name == "int"@ {
        Some("\u{222B}"@)
    } else if name == "there4"@ {
        Some("\u{2234}"@)
    } else if name == "sim"@ {
        Some("\u{223C}"@)
    } else if name == "cong"@ {
        Some("\u{2245}"@)
    } else if name == "asymp"@ {
        Some("\u{2248}"@)
    } else if name == "ne"@ {
        Some("\u{2260}"@)
    } else if name == "equiv"@ {
        Some("\u{2261}"@)
    } else if name == "le"@ {
        Some("\u{2264}"@)
    } else if name == "ge"@ {
        Some("\u{2265}"@)
    } else if name == "sub"@ {
        Some("\u{2282}"@)
    } else if name == "sup"@ {
        Some("\u{2283}"@)
    } else if name == "nsub"@ {
        Some("\u{2284}"@)
    } else if name == "sube"@ {
        Some("\u{2286}"@)
    } else if name == "supe"@ {
        Some("\u{2287}"@)
    } else if name == "oplus"@ {
        Some("\u{2295}"@)
    } else if name == "otimes"@ {
        Some("\u{2297}"@)
    } else if name == "perp"@ {
        Some("\u{22A5}"@)
    } else if name == "sdot"@ {
        Some("\u{22C5}"@)
    } else if name == "lceil"@ {
        Some("\u{2308}"@)
    } else if name == "rceil"@ {
        Some("\u{2309}"@)
    } else if name == "lfloor"@ {
        Some("\u{230A}"@)
    } else if name == "rfloor"@ {
        Some("\u{230B}"@)
    } else if name == "lang"@ {
        Some("\u{2329}"@)
    } else if name == "rang"@ {
        Some("\u{232A}"@)
    } else if name == "loz"@ {
        Some("\u{25CA}"@)
    } else if name == "spades"@ {
        Some("\u{2660}"@)
    } else if name == "clubs"@ {
        Some("\u{2663}"@)
    } else if name == "hearts"@ {
        Some("\u{2665}"@)
    } else if name == "diams"@ {
        Some("\u{2666}"@)
    } else {
        None
    }
}

/// Every name of the table is a nonempty run of ASCII letters and digits.
pub proof fn lemma_names_alphanumeric(name: Seq<char>)
    requires
        named_value(name).is_some(),
    ensures
        0 < name.len() <= MAX_NAME_LEN,
        forall|i: int| 0 <= i < name.len() ==> is_ascii_alphanumeric(#[trigger] name[i]),
{
    reveal_strlit("AMP");
    reveal_strlit("amp");
    reveal_strlit("LT");
    reveal_strlit("lt");
    reveal_strlit("GT");
    reveal_strlit("gt");
    reveal_strlit("QUOT");
    reveal_strlit("quot");
    reveal_strlit("apos");
    reveal_strlit("nbsp");
    reveal_strlit("iexcl");
    reveal_strlit("cent");
    reveal_strlit("pound");
    reveal_strlit("curren");
    reveal_strlit("yen");
    reveal_strlit("brvbar");
    reveal_strlit("sect");
    reveal_strlit("uml");
    reveal_strlit("COPY");
    reveal_strlit("copy");
    reveal_strlit("copysr");
    reveal_strlit("ordf");
    reveal_strlit("laquo");
    reveal_strlit("not");
    reveal_strlit("notin");
    reveal_strlit("isin");
    reveal_strlit("shy");
    reveal_strlit("REG");
    reveal_strlit("reg");
    reveal_strlit("macr");
    reveal_strlit("deg");
    reveal_strlit("plusmn");
    reveal_strlit("sup2");
    reveal_strlit("sup3");
    reveal_strlit("acute");
    reveal_strlit("micro");
    reveal_strlit("para");
    reveal_strlit("middot");
    reveal_strlit("cedil");
    reveal_strlit("sup1");
    reveal_strlit("ordm");
    reveal_strlit("raquo");
    reveal_strlit("frac14");
    reveal_strlit("frac12");
    reveal_strlit("frac34");
    reveal_strlit("iquest");
    reveal_strlit("times");
    reveal_strlit("divide");
    reveal_strlit("excl");
    reveal_strlit("num");
    reveal_strlit("dollar");
    reveal_strlit("percnt");
    reveal_strlit("lpar");
    reveal_strlit("rpar");
    reveal_strlit("ast");
    reveal_strlit("plus");
    reveal_strlit("comma");
    reveal_strlit("period");
    reveal_strlit("sol");
    reveal_strlit("colon");
    reveal_strlit("semi");
    reveal_strlit("equals");
    reveal_strlit("quest");
    reveal_strlit("commat");
    reveal_strlit("lsqb");
    reveal_strlit("rsqb");
    reveal_strlit("lowbar");
    reveal_strlit("minus");
    reveal_strlit("ndash");
    reveal_strlit("mdash");
    reveal_strlit("lsquo");
    reveal_strlit("rsquo");
    reveal_strlit("ldquo");
    reveal_strlit("rdquo");
    reveal_strlit("bull");
    reveal_strlit("hellip");
    reveal_strlit("euro");
    reveal_strlit("trade");
    reveal_strlit("TRADE");
    reveal_strlit("ThickSpace");
    reveal_strlit("Agrave");
    reveal_strlit("Aacute");
    reveal_strlit("Acirc");
    reveal_strlit("Atilde");
    reveal_strlit("Auml");
    reveal_strlit("Aring");
    reveal_strlit("AElig");
    reveal_strlit("Ccedil");
    reveal_strlit("Egrave");
    reveal_strlit("Eacute");
    reveal_strlit("Ecirc");
    reveal_strlit("Euml");
    reveal_strlit("Igrave");
    reveal_strlit("Iacute");
    reveal_strlit("Icirc");
    reveal_strlit("Iuml");
    reveal_strlit("ETH");
    reveal_strlit("Ntilde");
    reveal_strlit("Ograve");
    reveal_strlit("Oacute");
    reveal_strlit("Ocirc");
    reveal_strlit("Otilde");
    reveal_strlit("Ouml");
    reveal_strlit("Oslash");
    reveal_strlit("Ugrave");
    reveal_strlit("Uacute");
    reveal_strlit("Ucirc");
    reveal_strlit("Uuml");
    reveal_strlit("Yacute");
    reveal_strlit("THORN");
    reveal_strlit("szlig");
    reveal_strlit("agrave");
    reveal_strlit("aacute");
    reveal_strlit("acirc");
    reveal_strlit("atilde");
    reveal_strlit("auml");
    reveal_strlit("aring");
    reveal_strlit("aelig");
    reveal_strlit("ccedil");
    reveal_strlit("egrave");
    reveal_strlit("eacute");
    reveal_strlit("ecirc");
    reveal_strlit("euml");
    reveal_strlit("igrave");
    reveal_strlit("iacute");
    reveal_strlit("icirc");
    reveal_strlit("iuml");
    reveal_strlit("eth");
    reveal_strlit("ntilde");
    reveal_strlit("ograve");
    reveal_strlit("oacute");
    reveal_strlit("ocirc");
    reveal_strlit("otilde");
    reveal_strlit("ouml");
    reveal_strlit("oslash");
    reveal_strlit("ugrave");
    reveal_strlit("uacute");
    reveal_strlit("ucirc");
    reveal_strlit("uuml");
    reveal_strlit("yacute");
    reveal_strlit("thorn");
    reveal_strlit("yuml");
    reveal_strlit("OElig");
    reveal_strlit("oelig");
    reveal_strlit("Scaron");
    reveal_strlit("scaron");
    reveal_strlit("Yuml");
    reveal_strlit("fnof");
    reveal_strlit("circ");
    reveal_strlit("tilde");
    reveal_strlit("Alpha");
    reveal_strlit("Beta");
    reveal_strlit("Gamma");
    reveal_strlit("Delta");
    reveal_strlit("Epsilon");
    reveal_strlit("Zeta");
    reveal_strlit("Eta");
    reveal_strlit("Theta");
    reveal_strlit("Iota");
    reveal_strlit("Kappa");
    reveal_strlit("Lambda");
    reveal_strlit("Mu");
    reveal_strlit("Nu");
    reveal_strlit("Xi");
    reveal_strlit("Omicron");
    reveal_strlit("Pi");
    reveal_strlit("Rho");
    reveal_strlit("Sigma");
    reveal_strlit("Tau");
    reveal_strlit("Upsilon");
    reveal_strlit("Phi");
    reveal_strlit("Chi");
    reveal_strlit("Psi");
    reveal_strlit("Omega");
    reveal_strlit("alpha");
    reveal_strlit("beta");
    reveal_strlit("gamma");
    reveal_strlit("delta");
    reveal_strlit("epsilon");
    reveal_strlit("zeta");
    reveal_strlit("eta");
    reveal_strlit("theta");
    reveal_strlit("iota");
    reveal_strlit("kappa");
    reveal_strlit("lambda");
    reveal_strlit("mu");
    reveal_strlit("nu");
    reveal_strlit("xi");
    reveal_strlit("omicron");
    reveal_strlit("pi");
    reveal_strlit("rho");
    reveal_strlit("sigmaf");
    reveal_strlit("sigma");
    reveal_strlit("tau");
    reveal_strlit("upsilon");
    reveal_strlit("phi");
    reveal_strlit("chi");
    reveal_strlit("psi");
    reveal_strlit("omega");
    reveal_strlit("thetasym");
    reveal_strlit("upsih");
    reveal_strlit("piv");
    reveal_strlit("ensp");
    reveal_strlit("emsp");
    reveal_strlit("thinsp");
    reveal_strlit("zwnj");
    reveal_strlit("zwj");
    reveal_strlit("lrm");
    reveal_strlit("rlm");
    reveal_strlit("sbquo");
    reveal_strlit("bdquo");
    reveal_strlit("dagger");
    reveal_strlit("Dagger");
    reveal_strlit("permil");
    reveal_strlit("prime");
    reveal_strlit("Prime");
    reveal_strlit("lsaquo");
    reveal_strlit("rsaquo");
    reveal_strlit("oline");
    reveal_strlit("frasl");
    reveal_strlit("weierp");
    reveal_strlit("image");
    reveal_strlit("real");
    reveal_strlit("alefsym");
    reveal_strlit("larr");
    reveal_strlit("uarr");
    reveal_strlit("rarr");
    reveal_strlit("darr");
    reveal_strlit("harr");
    reveal_strlit("crarr");
    reveal_strlit("lArr");
    reveal_strlit("uArr");
    reveal_strlit("rArr");
    reveal_strlit("dArr");
    reveal_strlit("hArr");
    reveal_strlit("forall");
    reveal_strlit("part");
    reveal_strlit("exist");
    reveal_strlit("empty");
    reveal_strlit("nabla");
    reveal_strlit("ni");
    reveal_strlit("prod");
    reveal_strlit("sum");
    reveal_strlit("lowast");
    reveal_strlit("radic");
    reveal_strlit("prop");
    reveal_strlit("infin");
    reveal_strlit("ang");
    reveal_strlit("and");
    reveal_strlit("or");
    reveal_strlit("cap");
    reveal_strlit("cup");
    reveal_strlit("int");
    reveal_strlit("there4");
    reveal_strlit("sim");
    reveal_strlit("cong");
    reveal_strlit("asymp");
    reveal_strlit("ne");
    reveal_strlit("equiv");
    reveal_strlit("le");
    reveal_strlit("ge");
    reveal_strlit("sub");
    reveal_strlit("sup");
    reveal_strlit("nsub");
    reveal_strlit("sube");
    reveal_strlit("supe");
    reveal_strlit("oplus");
    reveal_strlit("otimes");
    reveal_strlit("perp");
    reveal_strlit("sdot");
    reveal_strlit("lceil");
    reveal_strlit("rceil");
    reveal_strlit("lfloor");
    reveal_strlit("rfloor");
    reveal_strlit("lang");
    reveal_strlit("rang");
    reveal_strlit("loz");
    reveal_strlit("spades");
    reveal_strlit("clubs");
    reveal_strlit("hearts");
    reveal_strlit("diams");
}

/// Whether `text[start..start + len]` spells `key`.
fn matches_key(text: &Vec<char>, start: usize, len: usize, key: &str) -> (r: bool)
    requires
        start + len <= text@.len(),
    ensures
        r == (text@.subrange(start as int, start + len) == key@),
{
    let n = key.unicode_len();
    if n != len {
        return false;
    }
    let total = text.len();
    let mut i: usize = 0;
    while i < len
        invariant
            total == text@.len(),
            start + len <= text@.len(),
            n == len,
            n == key@.len(),
            i <= len,
            forall|j: int| 0 <= j < i ==> text@[start + j] == key@[j],
        decreases len - i,
    {
        if text[start + i] != key.get_char(i) {
            assert(text@.subrange(start as int, start + len)[i as int] != key@[i as int]);
            return false;
        }
        i += 1;
    }
    assert(text@.subrange(start as int, start + len) =~= key@);
    true
}

/// Looks `text[start..start + len]` up in the table of named references.
pub fn lookup_named(text: &Vec<char>, start: usize, len: usize) -> (r: Option<&'static str>)
    requires
        start + len <= text@.len(),
    ensures
        r.is_some() == named_value(text@.subrange(start as int, start + len)).is_some(),
        r matches Some(v) ==> v@ == named_value(text@.subrange(start as int, start + len)).unwrap(),
{
    if matches_key(text, start, len, "AMP") {
        return Some("&");
    }
    if matches_key(text, start, len, "amp") {
        return Some("&");
    }
    if matches_key(text, start, len, "LT") {
        return Some("<");
    }
    if matches_key(text, start, len, "lt") {
        return Some("<");
    }
    if matches_key(text, start, len, "GT") {
        return Some(">");
    }
    if matches_key(text, start, len, "gt") {
        return Some(">");
    }
    if matches_key(text, start, len, "QUOT") {
        return Some("\"");
    }
    if matches_key(text, start, len, "quot") {
        return Some("\"");
    }
    if matches_key(text, start, len, "apos") {
        return Some("'");
    }
    if matches_key(text, start, len, "nbsp") {
        return Some("\u{A0}");
    }
    if matches_key(text, start, len, "iexcl") {
        return Some("\u{A1}");
    }
    if matches_key(text, start, len, "cent") {
        return Some("\u{A2}");
    }
    if matches_key(text, start, len, "pound") {
        return Some("\u{A3}");
    }
    if matches_key(text, start, len, "curren") {
        return Some("\u{A4}");
    }
    if matches_key(text, start, len, "yen") {
        return Some("\u{A5}");
    }
    if matches_key(text, start, len, "brvbar") {
        return Some("\u{A6}");
    }
    if matches_key(text, start, len, "sect") {
        return Some("\u{A7}");
    }
    if matches_key(text, start, len, "uml") {
        return Some("\u{A8}");
    }
    if matches_key(text, start, len, "COPY") {
        return Some("\u{A9}");
    }
    if matches_key(text, start, len, "copy") {
        return Some("\u{A9}");
    }
    if matches_key(text, start, len, "copysr") {
        return Some("\u{2117}");
    }
    if matches_key(text, start, len, "ordf") {
        return Some("\u{AA}");
    }
    if matches_key(text, start, len, "laquo") {
        return Some("\u{AB}");
    }
    if matches_key(text, start, len, "not") {
        return Some("\u{AC}");
    }
    if matches_key(text, start, len, "notin") {
        return Some("\u{2208}");
    }
    if matches_key(text, start, len, "isin") {
        return Some("\u{2208}");
    }
    if matches_key(text, start, len, "shy") {
        return Some("\u{AD}");
    }
    if matches_key(text, start, len, "REG") {
        return Some("\u{AE}");
    }
    if matches_key(text, start, len, "reg") {
        return Some("\u{AE}");
    }
    if matches_key(text, start, len, "macr") {
        return Some("\u{AF}");
    }
    if matches_key(text, start, len, "deg") {
        return Some("\u{B0}");
    }
    if matches_key(text, start, len, "plusmn") {
        return Some("\u{B1}");
    }
    if matches_key(text, start, len, "sup2") {
        return Some("\u{B2}");
    }
    if matches_key(text, start, len, "sup3") {
        return Some("\u{B3}");
    }
    if matches_key(text, start, len, "acute") {
        return Some("\u{B4}");
    }
    if matches_key(text, start, len, "micro") {
        return Some("\u{B5}");
    }
    if matches_key(text, start, len, "para") {
        return Some("\u{B6}");
    }
    if matches_key(text, start, len, "middot") {
        return Some("\u{B7}");
    }
    if matches_key(text, start, len, "cedil") {
        return Some("\u{B8}");
    }
    if matches_key(text, start, len, "sup1") {
        return Some("\u{B9}");
    }
    if matches_key(text, start, len, "ordm") {
        return Some("\u{BA}");
    }
    if matches_key(text, start, len, "raquo") {
        return Some("\u{BB}");
    }
    if matches_key(text, start, len, "frac14") {
        return Some("\u{BC}");
    }
    if matches_key(text, start, len, "frac12") {
        return Some("\u{BD}");
    }
    if matches_key(text, start, len, "frac34") {
        return Some("\u{BE}");
    }
    if matches_key(text, start, len, "iquest") {
        return Some("\u{BF}");
    }
    if matches_key(text, start, len, "times") {
        return Some("\u{D7}");
    }
    if matches_key(text, start, len, "divide") {
        return Some("\u{F7}");
    }
    if matches_key(text, start, len, "excl") {
        return Some("!");
    }
    if matches_key(text, start, len, "num") {
        return Some("#");
    }
    if matches_key(text, start, len, "dollar") {
        return Some("$");
    }
    if matches_key(text, start, len, "percnt") {
        return Some("%");
    }
    if matches_key(text, start, len, "lpar") {
        return Some("(");
    }
    if matches_key(text, start, len, "rpar") {
        return Some(")");
    }
    if matches_key(text, start, len, "ast") {
        return Some("*");
    }
    if matches_key(text, start, len, "plus") {
        return Some("+");
    }
    if matches_key(text, start, len, "comma") {
        return Some(",");
    }
    if matches_key(text, start, len, "period") {
        return Some(".");
    }
    if matches_key(text, start, len, "sol") {
        return Some("/");
    }
    if matches_key(text, start, len, "colon") {
        return Some(":");
    }
    if matches_key(text, start, len, "semi") {
        return Some(";");
    }
    if matches_key(text, start, len, "equals") {
        return Some("=");
    }
    if matches_key(text, start, len, "quest") {
        return Some("?");
    }
    if matches_key(text, start, len, "commat") {
        return Some("@");
    }
    if matches_key(text, start, len, "lsqb") {
        return Some("[");
    }
    if matches_key(text, start, len, "rsqb") {
        return Some("]");
    }
    if matches_key(text, start, len, "lowbar") {
        return Some("_");
    }
    if matches_key(text, start, len, "minus") {
        return Some("\u{2212}");
    }
    if matches_key(text, start, len, "ndash") {
        return Some("\u{2013}");
    }
    if matches_key(text, start, len, "mdash") {
        return Some("\u{2014}");
    }
    if matches_key(text, start, len, "lsquo") {
        return Some("\u{2018}");
    }
    if matches_key(text, start, len, "rsquo") {
        return Some("\u{2019}");
    }
    if matches_key(text, start, len, "ldquo") {
        return Some("\u{201C}");
    }
    if matches_key(text, start, len, "rdquo") {
        return Some("\u{201D}");
    }
    if matches_key(text, start, len, "bull") {
        return Some("\u{2022}");
    }
    if matches_key(text, start, len, "hellip") {
        return Some("\u{2026}");
    }
    if matches_key(text, start, len, "euro") {
        return Some("\u{20AC}");
    }
    if matches_key(text, start, len, "trade") {
        return Some("\u{2122}");
    }
    if matches_key(text, start, len, "TRADE") {
        return Some("\u{2122}");
    }
    if matches_key(text, start, len, "ThickSpace") {
        return Some("\u{205F}\u{200A}");
    }
    if matches_key(text, start, len, "Agrave") {
        return Some("\u{C0}");
    }
    if matches_key(text, start, len, "Aacute") {
        return Some("\u{C1}");
    }
    if matches_key(text, start, len, "Acirc") {
        return Some("\u{C2}");
    }
    if matches_key(text, start, len, "Atilde") {
        return Some("\u{C3}");
    }
    if matches_key(text, start, len, "Auml") {
        return Some("\u{C4}");
    }
    if matches_key(text, start, len, "Aring") {
        return Some("\u{C5}");
    }
    if matches_key(text, start, len, "AElig") {
        return Some("\u{C6}");
    }
    if matches_key(text, start, len, "Ccedil") {
        return Some("\u{C7}");
    }
    if matches_key(text, start, len, "Egrave") {
        return Some("\u{C8}");
    }
    if matches_key(text, start, len, "Eacute") {
        return Some("\u{C9}");
    }
    if matches_key(text, start, len, "Ecirc") {
        return Some("\u{CA}");
    }
    if matches_key(text, start, len, "Euml") {
        return Some("\u{CB}");
    }
    if matches_key(text, start, len, "Igrave") {
        return Some("\u{CC}");
    }
    if matches_key(text, start, len, "Iacute") {
        return Some("\u{CD}");
    }
    if matches_key(text, start, len, "Icirc") {
        return Some("\u{CE}");
    }
    if matches_key(text, start, len, "Iuml") {
        return Some("\u{CF}");
    }
    if matches_key(text, start, len, "ETH") {
        return Some("\u{D0}");
    }
    if matches_key(text, start, len, "Ntilde") {
        return Some("\u{D1}");
    }
    if matches_key(text, start, len, "Ograve") {
        return Some("\u{D2}");
    }
    if matches_key(text, start, len, "Oacute") {
        return Some("\u{D3}");
    }
    if matches_key(text, start, len, "Ocirc") {
        return Some("\u{D4}");
    }
    if matches_key(text, start, len, "Otilde") {
        return Some("\u{D5}");
    }
    if matches_key(text, start, len, "Ouml") {
        return Some("\u{D6}");
    }
    if matches_key(text, start, len, "Oslash") {
        return Some("\u{D8}");
    }
    if matches_key(text, start, len, "Ugrave") {
        return Some("\u{D9}");
    }
    if matches_key(text, start, len, "Uacute") {
        return Some("\u{DA}");
    }
    if matches_key(text, start, len, "Ucirc") {
        return Some("\u{DB}");
    }
    if matches_key(text, start, len, "Uuml") {
        return Some("\u{DC}");
    }
    if matches_key(text, start, len, "Yacute") {
        return Some("\u{DD}");
    }
    if matches_key(text, start, len, "THORN") {
        return Some("\u{DE}");
    }
    if matches_key(text, start, len, "szlig") {
        return Some("\u{DF}");
    }
    if matches_key(text, start, len, "agrave") {
        return Some("\u{E0}");
    }
    if matches_key(text, start, len, "aacute") {
        return Some("\u{E1}");
    }
    if matches_key(text, start, len, "acirc") {
        return Some("\u{E2}");
    }
    if matches_key(text, start, len, "atilde") {
        return Some("\u{E3}");
    }
    if matches_key(text, start, len, "auml") {
        return Some("\u{E4}");
    }
    if matches_key(text, start, len, "aring") {
        return Some("\u{E5}");
    }
    if matches_key(text, start, len, "aelig") {
        return Some("\u{E6}");
    }
    if matches_key(text, start, len, "ccedil") {
        return Some("\u{E7}");
    }
    if matches_key(text, start, len, "egrave") {
        return Some("\u{E8}");
    }
    if matches_key(text, start, len, "eacute") {
        return Some("\u{E9}");
    }
    if matches_key(text, start, len, "ecirc") {
        return Some("\u{EA}");
    }
    if matches_key(text, start, len, "euml") {
        return Some("\u{EB}");
    }
    if matches_key(text, start, len, "igrave") {
        return Some("\u{EC}");
    }
    if matches_key(text, start, len, "iacute") {
        return Some("\u{ED}");
    }
    if matches_key(text, start, len, "icirc") {
        return Some("\u{EE}");
    }
    if matches_key(text, start, len, "iuml") {
        return Some("\u{EF}");
    }
    if matches_key(text, start, len, "eth") {
        return Some("\u{F0}");
    }
    if matches_key(text, start, len, "ntilde") {
        return Some("\u{F1}");
    }
    if matches_key(text, start, len, "ograve") {
        return Some("\u{F2}");
    }
    if matches_key(text, start, len, "oacute") {
        return Some("\u{F3}");
    }
    if matches_key(text, start, len, "ocirc") {
        return Some("\u{F4}");
    }
    if matches_key(text, start, len, "otilde") {
        return Some("\u{F5}");
    }
    if matches_key(text, start, len, "ouml") {
        return Some("\u{F6}");
    }
    if matches_key(text, start, len, "oslash") {
        return Some("\u{F8}");
    }
    if matches_key(text, start, len, "ugrave") {
        return Some("\u{F9}");
    }
    if matches_key(text, start, len, "uacute") {
        return Some("\u{FA}");
    }
    if matches_key(text, start, len, "ucirc") {
        return Some("\u{FB}");
    }
    if matches_key(text, start, len, "uuml") {
        return Some("\u{FC}");
    }
    if matches_key(text, start, len, "yacute") {
        return Some("\u{FD}");
    }
    if matches_key(text, start, len, "thorn") {
        return Some("\u{FE}");
    }
    if matches_key(text, start, len, "yuml") {
        return Some("\u{FF}");
    }
    if matches_key(text, start, len, "OElig") {
        return Some("\u{152}");
    }
    if matches_key(text, start, len, "oelig") {
        return Some("\u{153}");
    }
    if matches_key(text, start, len, "Scaron") {
        return Some("\u{160}");
    }
    if matches_key(text, start, len, "scaron") {
        return Some("\u{161}");
    }
    if matches_key(text, start, len, "Yuml") {
        return Some("\u{178}");
    }
    if matches_key(text, start, len, "fnof") {
        return Some("\u{192}");
    }
    if matches_key(text, start, len, "circ") {
        return Some("\u{2C6}");
    }
    if matches_key(text, start, len, "tilde") {
        return Some("\u{2DC}");
    }
    if matches_key(text, start, len, "Alpha") {
        return Some("\u{391}");
    }
    if matches_key(text, start, len, "Beta") {
        return Some("\u{392}");
    }
    if matches_key(text, start, len, "Gamma") {
        return Some("\u{393}");
    }
    if matches_key(text, start, len, "Delta") {
        return Some("\u{394}");
    }
    if matches_key(text, start, len, "Epsilon") {
        return Some("\u{395}");
    }
    if matches_key(text, start, len, "Zeta") {
        return Some("\u{396}");
    }
    if matches_key(text, start, len, "Eta") {
        return Some("\u{397}");
    }
    if matches_key(text, start, len, "Theta") {
        return Some("\u{398}");
    }
    if matches_key(text, start, len, "Iota") {
        return Some("\u{399}");
    }
    if matches_key(text, start, len, "Kappa") {
        return Some("\u{39A}");
    }
    if matches_key(text, start, len, "Lambda") {
        return Some("\u{39B}");
    }
    if matches_key(text, start, len, "Mu") {
        return Some("\u{39C}");
    }
    if matches_key(text, start, len, "Nu") {
        return Some("\u{39D}");
    }
    if matches_key(text, start, len, "Xi") {
        return Some("\u{39E}");
    }
    if matches_key(text, start, len, "Omicron") {
        return Some("\u{39F}");
    }
    if matches_key(text, start, len, "Pi") {
        return Some("\u{3A0}");
    }
    if matches_key(text, start, len, "Rho") {
        return Some("\u{3A1}");
    }
    if matches_key(text, start, len, "Sigma") {
        return Some("\u{3A3}");
    }
    if matches_key(text, start, len, "Tau") {
        return Some("\u{3A4}");
    }
    if matches_key(text, start, len, "Upsilon") {
        return Some("\u{3A5}");
    }
    if matches_key(text, start, len, "Phi") {
        return Some("\u{3A6}");
    }
    if matches_key(text, start, len, "Chi") {
        return Some("\u{3A7}");
    }
    if matches_key(text, start, len, "Psi") {
        return Some("\u{3A8}");
    }
    if matches_key(text, start, len, "Omega") {
        return Some("\u{3A9}");
    }
    if matches_key(text, start, len, "alpha") {
        return Some("\u{3B1}");
    }
    if matches_key(text, start, len, "beta") {
        return Some("\u{3B2}");
    }
    if matches_key(text, start, len, "gamma") {
        return Some("\u{3B3}");
    }
    if matches_key(text, start, len, "delta") {
        return Some("\u{3B4}");
    }
    if matches_key(text, start, len, "epsilon") {
        return Some("\u{3B5}");
    }
    if matches_key(text, start, len, "zeta") {
        return Some("\u{3B6}");
    }
    if matches_key(text, start, len, "eta") {
        return Some("\u{3B7}");
    }
    if matches_key(text, start, len, "theta") {
        return Some("\u{3B8}");
    }
    if matches_key(text, start, len, "iota") {
        return Some("\u{3B9}");
    }
    if matches_key(text, start, len, "kappa") {
        return Some("\u{3BA}");
    }
    if matches_key(text, start, len, "lambda") {
        return Some("\u{3BB}");
    }
    if matches_key(text, start, len, "mu") {
        return Some("\u{3BC}");
    }
    if matches_key(text, start, len, "nu") {
        return Some("\u{3BD}");
    }
    if matches_key(text, start, len, "xi") {
        return Some("\u{3BE}");
    }
    if matches_key(text, start, len, "omicron") {
        return Some("\u{3BF}");
    }
    if matches_key(text, start, len, "pi") {
        return Some("\u{3C0}");
    }
    if matches_key(text, start, len, "rho") {
        return Some("\u{3C1}");
    }
    if matches_key(text, start, len, "sigmaf") {
        return Some("\u{3C2}");
    }
    if matches_key(text, start, len, "sigma") {
        return Some("\u{3C3}");
    }
    if matches_key(text, start, len, "tau") {
        return Some("\u{3C4}");
    }
    if matches_key(text, start, len, "upsilon") {
        return Some("\u{3C5}");
    }
    if matches_key(text, start, len, "phi") {
        return Some("\u{3C6}");
    }
    if matches_key(text, start, len, "chi") {
        return Some("\u{3C7}");
    }
    if matches_key(text, start, len, "psi") {
        return Some("\u{3C8}");
    }
    if matches_key(text, start, len, "omega") {
        return Some("\u{3C9}");
    }
    if matches_key(text, start, len, "thetasym") {
        return Some("\u{3D1}");
    }
    if matches_key(text, start, len, "upsih") {
        return Some("\u{3D2}");
    }
    if matches_key(text, start, len, "piv") {
        return Some("\u{3D6}");
    }
    if matches_key(text, start, len, "ensp") {
        return Some("\u{2002}");
    }
    if matches_key(text, start, len, "emsp") {
        return Some("\u{2003}");
    }
    if matches_key(text, start, len, "thinsp") {
        return Some("\u{2009}");
    }
    if matches_key(text, start, len, "zwnj") {
        return Some("\u{200C}");
    }
    if matches_key(text, start, len, "zwj") {
        return Some("\u{200D}");
    }
    if matches_key(text, start, len, "lrm") {
        return Some("\u{200E}");
    }
    if matches_key(text, start, len, "rlm") {
        return Some("\u{200F}");
    }
    if matches_key(text, start, len, "sbquo") {
        return Some("\u{201A}");
    }
    if matches_key(text, start, len, "bdquo") {
        return Some("\u{201E}");
    }
    if matches_key(text, start, len, "dagger") {
        return Some("\u{2020}");
    }
    if matches_key(text, start, len, "Dagger") {
        return Some("\u{2021}");
    }
    if matches_key(text, start, len, "permil") {
        return Some("\u{2030}");
    }
    if matches_key(text, start, len, "prime") {
        return Some("\u{2032}");
    }
    if matches_key(text, start, len, "Prime") {
        return Some("\u{2033}");
    }
    if matches_key(text, start, len, "lsaquo") {
        return Some("\u{2039}");
    }
    if matches_key(text, start, len, "rsaquo") {
        return Some("\u{203A}");
    }
    if matches_key(text, start, len, "oline") {
        return Some("\u{203E}");
    }
    if matches_key(text, start, len, "frasl") {
        return Some("\u{2044}");
    }
    if matches_key(text, start, len, "weierp") {
        return Some("\u{2118}");
    }
    if matches_key(text, start, len, "image") {
        return Some("\u{2111}");
    }
    if matches_key(text, start, len, "real") {
        return Some("\u{211C}");
    }
    if matches_key(text, start, len, "alefsym") {
        return Some("\u{2135}");
    }
    if matches_key(text, start, len, "larr") {
        return Some("\u{2190}");
    }
    if matches_key(text, start, len, "uarr") {
        return Some("\u{2191}");
    }
    if matches_key(text, start, len, "rarr") {
        return Some("\u{2192}");
    }
    if matches_key(text, start, len, "darr") {
        return Some("\u{2193}");
    }
    if matches_key(text, start, len, "harr") {
        return Some("\u{2194}");
    }
    if matches_key(text, start, len, "crarr") {
        return Some("\u{21B5}");
    }
    if matches_key(text, start, len, "lArr") {
        return Some("\u{21D0}");
    }
    if matches_key(text, start, len, "uArr") {
        return Some("\u{21D1}");
    }
    if matches_key(text, start, len, "rArr") {
        return Some("\u{21D2}");
    }
    if matches_key(text, start, len, "dArr") {
        return Some("\u{21D3}");
    }
    if matches_key(text, start, len, "hArr") {
        return Some("\u{21D4}");
    }
    if matches_key(text, start, len, "forall") {
        return Some("\u{2200}");
    }
    if matches_key(text, start, len, "part") {
        return Some("\u{2202}");
    }
    if matches_key(text, start, len, "exist") {
        return Some("\u{2203}");
    }
    if matches_key(text, start, len, "empty") {
        return Some("\u{2205}");
    }
    if matches_key(text, start, len, "nabla") {
        return Some("\u{2207}");
    }
    if matches_key(text, start, len, "ni") {
        return Some("\u{220B}");
    }
    if matches_key(text, start, len, "prod") {
        return Some("\u{220F}");
    }
    if matches_key(text, start, len, "sum") {
        return Some("\u{2211}");
    }
    if matches_key(text, start, len, "lowast") {
        return Some("\u{2217}");
    }
    if matches_key(text, start, len, "radic") {
        return Some("\u{221A}");
    }
    if matches_key(text, start, len, "prop") {
        return Some("\u{221D}");
    }
    if matches_key(text, start, len, "infin") {
        return Some("\u{221E}");
    }
    if matches_key(text, start, len, "ang") {
        return Some("\u{2220}");
    }
    if matches_key(text, start, len, "and") {
        return Some("\u{2227}");
    }
    if matches_key(text, start, len, "or") {
        return Some("\u{2228}");
    }
    if matches_key(text, start, len, "cap") {
        return Some("\u{2229}");
    }
    if matches_key(text, start, len, "cup") {
        return Some("\u{222A}");
    }
    if matches_key(text, start, len, "int") {
        return Some("\u{222B}");
    }
    if matches_key(text, start, len, "there4") {
        return Some("\u{2234}");
    }
    if matches_key(text, start, len, "sim") {
        return Some("\u{223C}");
    }
    if matches_key(text, start, len, "cong") {
        return Some("\u{2245}");
    }
    if matches_key(text, start, len, "asymp") {
        return Some("\u{2248}");
    }
    if matches_key(text, start, len, "ne") {
        return Some("\u{2260}");
    }
    if matches_key(text, start, len, "equiv") {
        return Some("\u{2261}");
    }
    if matches_key(text, start, len, "le") {
        return Some("\u{2264}");
    }
    if matches_key(text, start, len, "ge") {
        return Some("\u{2265}");
    }
    if matches_key(text, start, len, "sub") {
        return Some("\u{2282}");
    }
    if matches_key(text, start, len, "sup") {
        return Some("\u{2283}");
    }
    if matches_key(text, start, len, "nsub") {
        return Some("\u{2284}");
    }
    if matches_key(text, start, len, "sube") {
        return Some("\u{2286}");
    }
    if matches_key(text, start, len, "supe") {
        return Some("\u{2287}");
    }
    if matches_key(text, start, len, "oplus") {
        return Some("\u{2295}");
    }
    if matches_key(text, start, len, "otimes") {
        return Some("\u{2297}");
    }
    if matches_key(text, start, len, "perp") {
        return Some("\u{22A5}");
    }
    if matches_key(text, start, len, "sdot") {
        return Some("\u{22C5}");
    }
    if matches_key(text, start, len, "lceil") {
        return Some("\u{2308}");
    }
    if matches_key(text, start, len, "rceil") {
        return Some("\u{2309}");
    }
    if matches_key(text, start, len, "lfloor") {
        return Some("\u{230A}");
    }
    if matches_key(text, start, len, "rfloor") {
        return Some("\u{230B}");
    }
    if matches_key(text, start, len, "lang") {
        return Some("\u{2329}");
    }
    if matches_key(text, start, len, "rang") {
        return Some("\u{232A}");
    }
    if matches_key(text, start, len, "loz") {
        return Some("\u{25CA}");
    }
    if matches_key(text, start, len, "spades") {
        return Some("\u{2660}");
    }
    if matches_key(text, start, len, "clubs") {
        return Some("\u{2663}");
    }
    if matches_key(text, start, len, "hearts") {
        return Some("\u{2665}");
    }
    if matches_key(text, start, len, "diams") {
        return Some("\u{2666}");
    }
    None
}

} // verus!
