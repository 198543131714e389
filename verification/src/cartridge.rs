//! Cartridge header parsing: the metadata at 0x0100-0x014F, read for
//! display. The title, the size code, the cartridge type, the licensee
//! and the destination market are decoded to plain values; name lookups
//! turn the codes into the published strings.
use vstd::prelude::*;

verus! {

/// The publisher a new-style licensee code (two ASCII bytes) names.
pub open spec fn new_licensee_name(a: u8, b: u8) -> Seq<char> {
    if (a == 0x30 && b == 0x30) {
        "<none>"@
    } else if (a == 0x30 && b == 0x31) {
        "Nintendo R&D1"@
    } else if (a == 0x30 && b == 0x38) {
        "Capcom"@
    } else if (a == 0x31 && b == 0x33) || (a == 0x36 && b == 0x39) {
        "Electronic Arts"@
    } else if (a == 0x31 && b == 0x38) {
        "Hudson Soft"@
    } else if (a == 0x31 && b == 0x39) {
        "B-ai"@
    } else if (a == 0x32 && b == 0x30) {
        "Kss"@
    } else if (a == 0x32 && b == 0x32) {
        "Pow"@
    } else if (a == 0x32 && b == 0x34) {
        "PCM Complete"@
    } else if (a == 0x32 && b == 0x35) {
        "San-x"@
    } else if (a == 0x32 && b == 0x38) {
        "Kemco Japan"@
    } else if (a == 0x32 && b == 0x39) {
        "Seta"@
    } else if (a == 0x33 && b == 0x30) {
        "Viacom"@
    } else if (a == 0x33 && b == 0x31) {
        "Nintendo"@
    } else if (a == 0x33 && b == 0x32) {
        "Bandai"@
    } else if (a == 0x33 && b == 0x33) || (a == 0x39 && b == 0x33) {
        "Ocean/Acclaim"@
    } else if (a == 0x33 && b == 0x34) || (a == 0x35 && b == 0x34) {
        "Konami"@
    } else if (a == 0x33 && b == 0x35) {
        "Hector"@
    } else if (a == 0x33 && b == 0x37) {
        "Taito"@
    } else if (a == 0x33 && b == 0x38) {
        "Hudson"@
    } else if (a == 0x33 && b == 0x39) {
        "Banpresto"@
    } else if (a == 0x34 && b == 0x31) {
        "Ubi Soft"@
    } else if (a == 0x34 && b == 0x32) {
        "Atlus"@
    } else if (a == 0x34 && b == 0x34) {
        "Malibu"@
    } else if (a == 0x34 && b == 0x36) {
        "Angel"@
    } else if (a == 0x34 && b == 0x37) {
        "Bullet-Proof"@
    } else if (a == 0x34 && b == 0x39) {
        "Irem"@
    } else if (a == 0x35 && b == 0x30) {
        "Absolute"@
    } else if (a == 0x35 && b == 0x31) {
        "Acclaim"@
    } else if (a == 0x35 && b == 0x32) {
        "Activision"@
    } else if (a == 0x35 && b == 0x33) {
        "American Sammy"@
    } else if (a == 0x35 && b == 0x35) {
        "Hitech entertainment"@
    } else if (a == 0x35 && b == 0x36) {
        "LJN"@
    } else if (a == 0x35 && b == 0x37) {
        "Matchbox"@
    } else if (a == 0x35 && b == 0x38) {
        "Mattel"@
    } else if (a == 0x35 && b == 0x39) {
        "Milton Bradley"@
    } else if (a == 0x36 && b == 0x30) {
        "Titus"@
    } else if (a == 0x36 && b == 0x31) {
        "Virgin"@
    } else if (a == 0x36 && b == 0x34) {
        "LucasArts"@
    } else if (a == 0x36 && b == 0x37) {
        "Ocean"@
    } else if (a == 0x37 && b == 0x30) {
        "Infogrames"@
    } else if (a == 0x37 && b == 0x31) {
        "Interplay"@
    } else if (a == 0x37 && b == 0x32) {
        "Broderbund"@
    } else if (a == 0x37 && b == 0x33) {
        "Sculptured"@
    } else if (a == 0x37 && b == 0x35) {
        "Sci"@
    } else if (a == 0x37 && b == 0x38) {
        "THQ"@
    } else if (a == 0x37 && b == 0x39) {
        "Accolade"@
    } else if (a == 0x38 && b == 0x30) {
        "Misawa"@
    } else if (a == 0x38 && b == 0x33) {
        "Lozc"@
    } else if (a == 0x38 && b == 0x36) {
        "Tokuma shoten i*"@
    } else if (a == 0x38 && b == 0x37) {
        "Tsukuda ori*"@
    } else if (a == 0x39 && b == 0x31) {
        "Chunsoft"@
    } else if (a == 0x39 && b == 0x32) {
        "Video system"@
    } else if (a == 0x39 && b == 0x35) {
        "Varie"@
    } else if (a == 0x39 && b == 0x36) {
        "Yonezawa/s'pal"@
    } else if (a == 0x39 && b == 0x37) {
        "Kaneko"@
    } else if (a == 0x39 && b == 0x39) {
        "Pack in soft"@
    } else if (a == 0x41 && b == 0x34) {
        "Konami (Yu-Gi-Oh!)"@
    } else {
        "<unknown new licensee code>"@
    }
}

/// The publisher a new-style licensee code names, executable form.
pub fn new_licensee_str(a: u8, b: u8) -> (r: &'static str)
    ensures
        r@ == new_licensee_name(a, b),
{
    match (a, b) {
        (0x30, 0x30) => "<none>",
        (0x30, 0x31) => "Nintendo R&D1",
        (0x30, 0x38) => "Capcom",
        (0x31, 0x33) | (0x36, 0x39) => "Electronic Arts",
        (0x31, 0x38) => "Hudson Soft",
        (0x31, 0x39) => "B-ai",
        (0x32, 0x30) => "Kss",
        (0x32, 0x32) => "Pow",
        (0x32, 0x34) => "PCM Complete",
        (0x32, 0x35) => "San-x",
        (0x32, 0x38) => "Kemco Japan",
        (0x32, 0x39) => "Seta",
        (0x33, 0x30) => "Viacom",
        (0x33, 0x31) => "Nintendo",
        (0x33, 0x32) => "Bandai",
        (0x33, 0x33) | (0x39, 0x33) => "Ocean/Acclaim",
        (0x33, 0x34) | (0x35, 0x34) => "Konami",
        (0x33, 0x35) => "Hector",
        (0x33, 0x37) => "Taito",
        (0x33, 0x38) => "Hudson",
        (0x33, 0x39) => "Banpresto",
        (0x34, 0x31) => "Ubi Soft",
        (0x34, 0x32) => "Atlus",
        (0x34, 0x34) => "Malibu",
        (0x34, 0x36) => "Angel",
        (0x34, 0x37) => "Bullet-Proof",
        (0x34, 0x39) => "Irem",
        (0x35, 0x30) => "Absolute",
        (0x35, 0x31) => "Acclaim",
        (0x35, 0x32) => "Activision",
        (0x35, 0x33) => "American Sammy",
        (0x35, 0x35) => "Hitech entertainment",
        (0x35, 0x36) => "LJN",
        (0x35, 0x37) => "Matchbox",
        (0x35, 0x38) => "Mattel",
        (0x35, 0x39) => "Milton Bradley",
        (0x36, 0x30) => "Titus",
        (0x36, 0x31) => "Virgin",
        (0x36, 0x34) => "LucasArts",
        (0x36, 0x37) => "Ocean",
        (0x37, 0x30) => "Infogrames",
        (0x37, 0x31) => "Interplay",
        (0x37, 0x32) => "Broderbund",
        (0x37, 0x33) => "Sculptured",
        (0x37, 0x35) => "Sci",
        (0x37, 0x38) => "THQ",
        (0x37, 0x39) => "Accolade",
        (0x38, 0x30) => "Misawa",
        (0x38, 0x33) => "Lozc",
        (0x38, 0x36) => "Tokuma shoten i*",
        (0x38, 0x37) => "Tsukuda ori*",
        (0x39, 0x31) => "Chunsoft",
        (0x39, 0x32) => "Video system",
        (0x39, 0x35) => "Varie",
        (0x39, 0x36) => "Yonezawa/s'pal",
        (0x39, 0x37) => "Kaneko",
        (0x39, 0x39) => "Pack in soft",
        (0x41, 0x34) => "Konami (Yu-Gi-Oh!)",
        _ => "<unknown new licensee code>",
    }
}

/// The publisher an old-style licensee code names.
pub open spec fn old_licensee_name(code: u8) -> Seq<char> {
    if code == 0x0 {
        "<none>"@
    } else if code == 0x1 {
        "Nintendo"@
    } else if code == 0x8 || code == 0x38 {
        "Capcom"@
    } else if code == 0x9 {
        "hot-b"@
    } else if code == 0xa {
        "jaleco"@
    } else if code == 0xb {
        "coconuts"@
    } else if code == 0xc {
        "elite systems"@
    } else if code == 0x13 {
        "electronic arts"@
    } else if code == 0x18 {
        "hudsonsoft"@
    } else if code == 0x19 {
        "itc entertainment"@
    } else if code == 0x1a {
        "yanoman"@
    } else if code == 0x1d {
        "clary"@
    } else if code == 0x1f {
        "virgin"@
    } else if code == 0x20 {
        "KSS"@
    } else if code == 0x24 {
        "pcm complete"@
    } else if code == 0x25 {
        "san-x"@
    } else if code == 0x28 {
        "kotobuki systems"@
    } else if code == 0x29 {
        "seta"@
    } else if code == 0x30 {
        "infogrames"@
    } else if code == 0x31 {
        "nintendo"@
    } else if code == 0x32 {
        "bandai"@
    } else if code == 0x34 || code == 0xa4 {
        "Konami"@
    } else if code == 0x35 {
        "Hector"@
    } else if code == 0x39 || code == 0x9d || code == 0xd9 {
        "Banpresto"@
    } else if code == 0x3c {
        "*entertainment i"@
    } else if code == 0x3e {
        "Gremlin"@
    } else if code == 0x41 {
        "Ubisoft"@
    } else if code == 0x42 || code == 0xeb {
        "Atlus"@
    } else if code == 0x44 || code == 0x4d {
        "Malibu"@
    } else if code == 0x46 || code == 0xcf {
        "Angel"@
    } else if code == 0x47 {
        "Spectrum holoby"@
    } else if code == 0x49 {
        "Irem"@
    } else if code == 0x4f {
        "U.S. gold"@
    } else if code == 0x50 {
        "Absolute"@
    } else if code == 0x51 || code == 0xb0 {
        "Acclaim"@
    } else if code == 0x52 {
        "Activision"@
    } else if code == 0x53 {
        "American Sammy"@
    } else if code == 0x54 {
        "Gametek"@
    } else if code == 0x55 {
        "Park place"@
    } else if code == 0x56 || code == 0xff {
        "LJN"@
    } else if code == 0x57 {
        "Matchbox"@
    } else if code == 0x59 {
        "Milton bradley"@
    } else if code == 0x5a {
        "Mindscape"@
    } else if code == 0x5b {
        "Romstar"@
    } else if code == 0x5c || code == 0xd6 {
        "Naxat soft"@
    } else if code == 0x5d {
        "Tradewest"@
    } else if code == 0x60 {
        "Titus"@
    } else if code == 0x4a || code == 0x61 {
        "Virgin"@
    } else if code == 0x67 {
        "Ocean"@
    } else if code == 0x69 {
        "Electronic arts"@
    } else if code == 0x6e {
        "Elite systems"@
    } else if code == 0x6f {
        "Electro brain"@
    } else if code == 0x70 {
        "Infogrammes"@
    } else if code == 0x71 {
        "Interplay"@
    } else if code == 0x72 {
        "Broderbund"@
    } else if code == 0x73 {
        "Sculptered soft"@
    } else if code == 0x75 {
        "The sales curve"@
    } else if code == 0x78 {
        "T*hq"@
    } else if code == 0x79 {
        "Accolade"@
    } else if code == 0x7a {
        "Triffix entertainment"@
    } else if code == 0x7c {
        "Microprose"@
    } else if code == 0x7f || code == 0xc2 {
        "Kemco"@
    } else if code == 0x80 {
        "Misawa entertainment"@
    } else if code == 0x83 {
        "Lozc"@
    } else if code == 0x86 || code == 0xc4 {
        "Tokuma shoten intermedia"@
    } else if code == 0x8b {
        "Bullet-proof software"@
    } else if code == 0x8c {
        "Vic tokai"@
    } else if code == 0x8e {
        "Ape"@
    } else if code == 0x8f {
        "I'max"@
    } else if code == 0x91 {
        "Chun soft"@
    } else if code == 0x92 {
        "Video system"@
    } else if code == 0x93 {
        "Tsuburava"@
    } else if code == 0x95 || code == 0xe3 {
        "Varie"@
    } else if code == 0x96 {
        "Yonezawa/s'pal"@
    } else if code == 0x97 {
        "Kaneko"@
    } else if code == 0x99 {
        "Arc"@
    } else if code == 0x9a {
        "Nihon bussan"@
    } else if code == 0x9b {
        "Tecmo"@
    } else if code == 0x9c {
        "Imagineer"@
    } else if code == 0x9f {
        "Nova"@
    } else if code == 0xa1 {
        "Hori electric"@
    } else if code == 0xa2 || code == 0xb2 {
        "Bandai"@
    } else if code == 0xa6 {
        "Kawada"@
    } else if code == 0xa7 {
        "Takara"@
    } else if code == 0xa9 {
        "Technos japan"@
    } else if code == 0xaa {
        "Broderbund"@
    } else if code == 0xac {
        "Toei animation"@
    } else if code == 0xad {
        "Toho"@
    } else if code == 0xaf {
        "Namco"@
    } else if code == 0xb1 {
        "Ascii or nexoft"@
    } else if code == 0xb4 {
        "Enix"@
    } else if code == 0xb6 {
        "HAL"@
    } else if code == 0xb7 {
        "SNK"@
    } else if code == 0xb9 {
        "Pony canyon"@
    } else if code == 0xba {
        "*culture brain o"@
    } else if code == 0xbb {
        "Sunsoft"@
    } else if code == 0xbd {
        "Sony imagesoft"@
    } else if code == 0xbf {
        "Sammy"@
    } else if code == 0xc0 || code == 0xd0 {
        "Taito"@
    } else if code == 0xc3 {
        "Squaresoft"@
    } else if code == 0xc5 {
        "Data east"@
    } else if code == 0xc6 {
        "Tonkin house"@
    } else if code == 0xc8 {
        "Koei"@
    } else if code == 0xc9 {
        "Ufl"@
    } else if code == 0xca {
        "Ultra"@
    } else if code == 0xcb {
        "Vap"@
    } else if code == 0xcc {
        "Use"@
    } else if code == 0xcd {
        "Meldac"@
    } else if code == 0xce {
        "*pony canyon or"@
    } else if code == 0xd1 {
        "Sofel"@
    } else if code == 0xd2 {
        "Quest"@
    } else if code == 0xd3 {
        "Sigma enterprises"@
    } else if code == 0xd4 {
        "Ask kodansha"@
    } else if code == 0xd7 {
        "Copya systems"@
    } else if code == 0xda {
        "Tomy"@
    } else if code == 0xdb {
        "Ljn"@
    } else if code == 0xdd {
        "Ncs"@
    } else if code == 0xde {
        "Human"@
    } else if code == 0xdf {
        "Altron"@
    } else if code == 0xe0 {
        "Jaleco"@
    } else if code == 0xe1 {
        "Towachiki"@
    } else if code == 0xe2 {
        "Uutaka"@
    } else if code == 0xe5 {
        "Epoch"@
    } else if code == 0xe7 {
        "Athena"@
    } else if code == 0xe8 {
        "Asmik"@
    } else if code == 0xe9 {
        "Natsume"@
    } else if code == 0xea {
        "King records"@
    } else if code == 0xec {
        "Epic/Sony records"@
    } else if code == 0xee {
        "Igs"@
    } else if code == 0xf0 {
        "A wave"@
    } else if code == 0xf3 {
        "Extreme entertainment"@
    } else {
        "<unknown old licensee code>"@
    }
}

/// The publisher an old-style licensee code names. Executable form.
pub fn old_licensee_str(code: u8) -> (r: &'static str)
    ensures
        r@ == old_licensee_name(code),
{
    match code {
        0x0 => "<none>",
        0x1 => "Nintendo",
        0x8 | 0x38 => "Capcom",
        0x9 => "hot-b",
        0xa => "jaleco",
        0xb => "coconuts",
        0xc => "elite systems",
        0x13 => "electronic arts",
        0x18 => "hudsonsoft",
        0x19 => "itc entertainment",
        0x1a => "yanoman",
        0x1d => "clary",
        0x1f => "virgin",
        0x20 => "KSS",
        0x24 => "pcm complete",
        0x25 => "san-x",
        0x28 => "kotobuki systems",
        0x29 => "seta",
        0x30 => "infogrames",
        0x31 => "nintendo",
        0x32 => "bandai",
        0x34 | 0xa4 => "Konami",
        0x35 => "Hector",
        0x39 | 0x9d | 0xd9 => "Banpresto",
        0x3c => "*entertainment i",
        0x3e => "Gremlin",
        0x41 => "Ubisoft",
        0x42 | 0xeb => "Atlus",
        0x44 | 0x4d => "Malibu",
        0x46 | 0xcf => "Angel",
        0x47 => "Spectrum holoby",
        0x49 => "Irem",
        0x4f => "U.S. gold",
        0x50 => "Absolute",
        0x51 | 0xb0 => "Acclaim",
        0x52 => "Activision",
        0x53 => "American Sammy",
        0x54 => "Gametek",
        0x55 => "Park place",
        0x56 | 0xff => "LJN",
        0x57 => "Matchbox",
        0x59 => "Milton bradley",
        0x5a => "Mindscape",
        0x5b => "Romstar",
        0x5c | 0xd6 => "Naxat soft",
        0x5d => "Tradewest",
        0x60 => "Titus",
        0x4a | 0x61 => "Virgin",
        0x67 => "Ocean",
        0x69 => "Electronic arts",
        0x6e => "Elite systems",
        0x6f => "Electro brain",
        0x70 => "Infogrammes",
        0x71 => "Interplay",
        0x72 => "Broderbund",
        0x73 => "Sculptered soft",
        0x75 => "The sales curve",
        0x78 => "T*hq",
        0x79 => "Accolade",
        0x7a => "Triffix entertainment",
        0x7c => "Microprose",
        0x7f | 0xc2 => "Kemco",
        0x80 => "Misawa entertainment",
        0x83 => "Lozc",
        0x86 | 0xc4 => "Tokuma shoten intermedia",
        0x8b => "Bullet-proof software",
        0x8c => "Vic tokai",
        0x8e => "Ape",
        0x8f => "I'max",
        0x91 => "Chun soft",
        0x92 => "Video system",
        0x93 => "Tsuburava",
        0x95 | 0xe3 => "Varie",
        0x96 => "Yonezawa/s'pal",
        0x97 => "Kaneko",
        0x99 => "Arc",
        0x9a => "Nihon bussan",
        0x9b => "Tecmo",
        0x9c => "Imagineer",
        0x9f => "Nova",
        0xa1 => "Hori electric",
        0xa2 | 0xb2 => "Bandai",
        0xa6 => "Kawada",
        0xa7 => "Takara",
        0xa9 => "Technos japan",
        0xaa => "Broderbund",
        0xac => "Toei animation",
        0xad => "Toho",
        0xaf => "Namco",
        0xb1 => "Ascii or nexoft",
        0xb4 => "Enix",
        0xb6 => "HAL",
        0xb7 => "SNK",
        0xb9 => "Pony canyon",
        0xba => "*culture brain o",
        0xbb => "Sunsoft",
        0xbd => "Sony imagesoft",
        0xbf => "Sammy",
        0xc0 | 0xd0 => "Taito",
        0xc3 => "Squaresoft",
        0xc5 => "Data east",
        0xc6 => "Tonkin house",
        0xc8 => "Koei",
        0xc9 => "Ufl",
        0xca => "Ultra",
        0xcb => "Vap",
        0xcc => "Use",
        0xcd => "Meldac",
        0xce => "*pony canyon or",
        0xd1 => "Sofel",
        0xd2 => "Quest",
        0xd3 => "Sigma enterprises",
        0xd4 => "Ask kodansha",
        0xd7 => "Copya systems",
        0xda => "Tomy",
        0xdb => "Ljn",
        0xdd => "Ncs",
        0xde => "Human",
        0xdf => "Altron",
        0xe0 => "Jaleco",
        0xe1 => "Towachiki",
        0xe2 => "Uutaka",
        0xe5 => "Epoch",
        0xe7 => "Athena",
        0xe8 => "Asmik",
        0xe9 => "Natsume",
        0xea => "King records",
        0xec => "Epic/Sony records",
        0xee => "Igs",
        0xf0 => "A wave",
        0xf3 => "Extreme entertainment",
        _ => "<unknown old licensee code>",
    }
}

/// The hardware a cartridge-type code names.
pub open spec fn cartridge_type_name(code: u8) -> Seq<char> {
    if code == 0x0 {
        "ROM ONLY"@
    } else if code == 0x1 {
        "MBC1"@
    } else if code == 0x2 {
        "MBC1+RAM"@
    } else if code == 0x3 {
        "MBC1+RAM+BATTERY"@
    } else if code == 0x5 {
        "MBC2"@
    } else if code == 0x6 {
        "MBC2+BATTERY"@
    } else if code == 0x8 {
        "ROM+RAM"@
    } else if code == 0x9 {
        "ROM+RAM+BATTERY"@
    } else if code == 0xb {
        "MMM01"@
    } else if code == 0xc {
        "MMM01+RAM"@
    } else if code == 0xd {
        "MMM01+RAM+BATTERY"@
    } else if code == 0xf {
        "MBC3+TIMER+BATTERY"@
    } else if code == 0x10 {
        "MBC3+TIMER+RAM+BATTERY"@
    } else if code == 0x11 {
        "MBC3"@
    } else if code == 0x12 {
        "MBC3+RAM"@
    } else if code == 0x13 {
        "MBC3+RAM+BATTERY"@
    } else if code == 0x15 {
        "MBC4"@
    } else if code == 0x16 {
        "MBC4+RAM"@
    } else if code == 0x17 {
        "MBC4+RAM+BATTERY"@
    } else if code == 0x19 {
        "MBC5"@
    } else if code == 0x1a {
        "MBC5+RAM"@
    } else if code == 0x1b {
        "MBC5+RAM+BATTERY"@
    } else if code == 0x1c {
        "MBC5+RUMBLE"@
    } else if code == 0x1d {
        "MBC5+RUMBLE+RAM"@
    } else if code == 0x1e {
        "MBC5+RUMBLE+RAM+BATTERY"@
    } else if code == 0xfc {
        "POCKET CAMERA"@
    } else if code == 0xfd {
        "BANDAI TAMA5"@
    } else if code == 0xfe {
        "HuC3"@
    } else if code == 0xff {
        "HuC1+RAM+BATTERY"@
    } else {
        "<unknown cartridge type>"@
    }
}

/// The hardware a cartridge-type code names. Executable form.
pub fn cartridge_type_str(code: u8) -> (r: &'static str)
    ensures
        r@ == cartridge_type_name(code),
{
    match code {
        0x0 => "ROM ONLY",
        0x1 => "MBC1",
        0x2 => "MBC1+RAM",
        0x3 => "MBC1+RAM+BATTERY",
        0x5 => "MBC2",
        0x6 => "MBC2+BATTERY",
        0x8 => "ROM+RAM",
        0x9 => "ROM+RAM+BATTERY",
        0xb => "MMM01",
        0xc => "MMM01+RAM",
        0xd => "MMM01+RAM+BATTERY",
        0xf => "MBC3+TIMER+BATTERY",
        0x10 => "MBC3+TIMER+RAM+BATTERY",
        0x11 => "MBC3",
        0x12 => "MBC3+RAM",
        0x13 => "MBC3+RAM+BATTERY",
        0x15 => "MBC4",
        0x16 => "MBC4+RAM",
        0x17 => "MBC4+RAM+BATTERY",
        0x19 => "MBC5",
        0x1a => "MBC5+RAM",
        0x1b => "MBC5+RAM+BATTERY",
        0x1c => "MBC5+RUMBLE",
        0x1d => "MBC5+RUMBLE+RAM",
        0x1e => "MBC5+RUMBLE+RAM+BATTERY",
        0xfc => "POCKET CAMERA",
        0xfd => "BANDAI TAMA5",
        0xfe => "HuC3",
        0xff => "HuC1+RAM+BATTERY",
        _ => "<unknown cartridge type>",
    }
}
/// The ROM size in KiB a header size code names: 32 KiB doubled per
/// step; 0 for a code past the defined range.
pub open spec fn rom_size_kib(code: u8) -> u16 {
    if code == 0 {
        32
    } else if code == 1 {
        64
    } else if code == 2 {
        128
    } else if code == 3 {
        256
    } else if code == 4 {
        512
    } else if code == 5 {
        1024
    } else if code == 6 {
        2048
    } else if code == 7 {
        4096
    } else if code == 8 {
        8192
    } else if code == 9 {
        16384
    } else if code == 10 {
        32768
    } else {
        0
    }
}

/// The ROM size in KiB a header size code names, executable form.
pub fn rom_size_kib_of(code: u8) -> (r: u16)
    ensures
        r == rom_size_kib(code),
{
    match code {
        0 => 32,
        1 => 64,
        2 => 128,
        3 => 256,
        4 => 512,
        5 => 1024,
        6 => 2048,
        7 => 4096,
        8 => 8192,
        9 => 16384,
        10 => 32768,
        _ => 0,
    }
}

/// The decoded cartridge header.
pub struct Cartridge {
    /// The 16 title bytes at 0x0134, ASCII and NUL-padded.
    pub title: Vec<u8>,
    /// The ROM size in KiB, from the size code at 0x0148.
    pub size: u16,
    /// The cartridge-type code at 0x0147.
    pub cartridge_type_code: u8,
    /// The old licensee code at 0x014B; 0x33 defers to the new code.
    pub licensee_code: u8,
    /// The two new-licensee ASCII bytes at 0x0144-0x0145.
    pub new_licensee: (u8, u8),
    /// The destination code at 0x014A; 0 marks the Japanese market.
    pub destination_code: u8,
}

impl Cartridge {
    /// Parse the header of a ROM image. An image too short to hold a
    /// header yields nothing; otherwise every decoded field comes
    /// straight from its header byte.
    pub fn new(rom: &Vec<u8>) -> (r: Option<Cartridge>)
        ensures
            r is Some <==> rom.len() >= 0x150,
            match r {
                Option::Some(c) => {
                    &&& c.title@ == rom@.subrange(0x134, 0x144)
                    &&& c.size == rom_size_kib(rom[0x148])
                    &&& c.cartridge_type_code == rom[0x147]
                    &&& c.licensee_code == rom[0x14b]
                    &&& c.new_licensee.0 == rom[0x144] && c.new_licensee.1 == rom[0x145]
                    &&& c.destination_code == rom[0x14a]
                },
                Option::None => true,
            },
    {
        if rom.len() < 0x150 {
            return Option::None;
        }
        let mut title: Vec<u8> = Vec::new();
        let mut i: usize = 0x134;
        while i < 0x144
            invariant
                0x134 <= i <= 0x144,
                rom.len() >= 0x150,
                title@ =~= rom@.subrange(0x134, i as int),
            decreases 0x144 - i,
        {
            title.push(rom[i]);
            i += 1;
        }
        Option::Some(
            Cartridge {
                title,
                size: rom_size_kib_of(rom[0x148]),
                cartridge_type_code: rom[0x147],
                licensee_code: rom[0x14b],
                new_licensee: (rom[0x144], rom[0x145]),
                destination_code: rom[0x14a],
            },
        )
    }

    /// The cartridge hardware named by the type code.
    pub fn cartridge_type(&self) -> (r: &'static str)
        ensures
            r@ == cartridge_type_name(self.cartridge_type_code),
    {
        cartridge_type_str(self.cartridge_type_code)
    }

    /// The publisher: the old licensee code, or the new two-byte code
    /// when the old one is 0x33.
    pub fn licensee(&self) -> (r: &'static str)
        ensures
            r@ == (if self.licensee_code == 0x33 {
                new_licensee_name(self.new_licensee.0, self.new_licensee.1)
            } else {
                old_licensee_name(self.licensee_code)
            }),
    {
        if self.licensee_code == 0x33 {
            new_licensee_str(self.new_licensee.0, self.new_licensee.1)
        } else {
            old_licensee_str(self.licensee_code)
        }
    }

    /// The market the cartridge was made for.
    pub fn destination_market(&self) -> (r: &'static str)
        ensures
            self.destination_code == 0 ==> r@ == "JP"@,
            self.destination_code != 0 ==> r@ == "World"@,
    {
        if self.destination_code == 0 {
            "JP"
        } else {
            "World"
        }
    }
}

} // verus!
