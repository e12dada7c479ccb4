//! The icon shown for an entry: one for directories, one per family of file
//! extensions, and a plain page for everything else.
use vstd::prelude::*;
use crate::model::FileKind;
use crate::search::member;
use crate::text::{to_unicode_lower, unicode_lower};

verus! {

/// Extensions shown with 🦀.
pub open spec fn icon_group_0() -> Seq<Seq<char>> {
    seq!["rs"@]
}

/// Extensions shown with 🐍.
pub open spec fn icon_group_1() -> Seq<Seq<char>> {
    seq!["py"@]
}

/// Extensions shown with 📜.
pub open spec fn icon_group_2() -> Seq<Seq<char>> {
    seq!["js"@, "ts"@, "jsx"@, "tsx"@]
}

/// Extensions shown with ⚙️.
pub open spec fn icon_group_3() -> Seq<Seq<char>> {
    seq!["c"@, "cpp"@, "h"@, "hpp"@, "cc"@]
}

/// Extensions shown with 🐹.
pub open spec fn icon_group_4() -> Seq<Seq<char>> {
    seq!["go"@]
}

/// Extensions shown with ☕.
pub open spec fn icon_group_5() -> Seq<Seq<char>> {
    seq!["java"@, "class"@, "jar"@]
}

/// Extensions shown with 💎.
pub open spec fn icon_group_6() -> Seq<Seq<char>> {
    seq!["rb"@]
}

/// Extensions shown with 🐘.
pub open spec fn icon_group_7() -> Seq<Seq<char>> {
    seq!["php"@]
}

/// Extensions shown with 🍎.
pub open spec fn icon_group_8() -> Seq<Seq<char>> {
    seq!["swift"@]
}

/// Extensions shown with 🏗️.
pub open spec fn icon_group_9() -> Seq<Seq<char>> {
    seq!["kt"@, "kts"@]
}

/// Extensions shown with 🐚.
pub open spec fn icon_group_10() -> Seq<Seq<char>> {
    seq!["sh"@, "bat"@, "zsh"@, "fish"@]
}

/// Extensions shown with 🌙.
pub open spec fn icon_group_11() -> Seq<Seq<char>> {
    seq!["lua"@]
}

/// Extensions shown with 🌐.
pub open spec fn icon_group_12() -> Seq<Seq<char>> {
    seq!["html"@, "htm"@, "xhtml"@]
}

/// Extensions shown with 🎨.
pub open spec fn icon_group_13() -> Seq<Seq<char>> {
    seq!["css"@, "scss"@, "sass"@, "less"@]
}

/// Extensions shown with 🔧.
pub open spec fn icon_group_14() -> Seq<Seq<char>> {
    seq!["json"@, "yaml"@, "yml"@, "toml"@, "xml"@]
}

/// Extensions shown with 🗄️.
pub open spec fn icon_group_15() -> Seq<Seq<char>> {
    seq!["sql"@, "db"@, "sqlite"@]
}

/// Extensions shown with ⬢.
pub open spec fn icon_group_16() -> Seq<Seq<char>> {
    seq!["graphql"@, "gql"@]
}

/// Extensions shown with 📄.
pub open spec fn icon_group_17() -> Seq<Seq<char>> {
    seq!["txt"@, "log"@]
}

/// Extensions shown with 📝.
pub open spec fn icon_group_18() -> Seq<Seq<char>> {
    seq!["md"@, "markdown"@]
}

/// Extensions shown with 📕.
pub open spec fn icon_group_19() -> Seq<Seq<char>> {
    seq!["pdf"@]
}

/// Extensions shown with 📘.
pub open spec fn icon_group_20() -> Seq<Seq<char>> {
    seq!["doc"@, "docx"@, "odt"@]
}

/// Extensions shown with 📊.
pub open spec fn icon_group_21() -> Seq<Seq<char>> {
    seq!["xls"@, "xlsx"@, "csv"@, "tsv"@]
}

/// Extensions shown with 📽️.
pub open spec fn icon_group_22() -> Seq<Seq<char>> {
    seq!["ppt"@, "pptx"@]
}

/// Extensions shown with 📜.
pub open spec fn icon_group_23() -> Seq<Seq<char>> {
    seq!["rtf"@, "tex"@]
}

/// Extensions shown with 🖼️.
pub open spec fn icon_group_24() -> Seq<Seq<char>> {
    seq!["png"@, "jpg"@, "jpeg"@, "gif"@, "webp"@, "bmp"@]
}

/// Extensions shown with 📐.
pub open spec fn icon_group_25() -> Seq<Seq<char>> {
    seq!["svg"@]
}

/// Extensions shown with 🎬.
pub open spec fn icon_group_26() -> Seq<Seq<char>> {
    seq!["mp4"@, "mkv"@, "avi"@, "mov"@, "webm"@]
}

/// Extensions shown with 🎵.
pub open spec fn icon_group_27() -> Seq<Seq<char>> {
    seq!["mp3"@, "wav"@, "flac"@, "ogg"@, "m4a"@]
}

/// Extensions shown with 🖌️.
pub open spec fn icon_group_28() -> Seq<Seq<char>> {
    seq!["psd"@, "ai"@, "xcf"@]
}

/// Extensions shown with 📦.
pub open spec fn icon_group_29() -> Seq<Seq<char>> {
    seq!["zip"@, "tar"@, "gz"@, "7z"@, "rar"@, "bz2"@]
}

/// Extensions shown with 🚀.
pub open spec fn icon_group_30() -> Seq<Seq<char>> {
    seq!["exe"@, "msi"@, "bin"@, "app"@]
}

/// Extensions shown with 🛠️.
pub open spec fn icon_group_31() -> Seq<Seq<char>> {
    seq!["deb"@, "rpm"@, "pkg"@]
}

/// Extensions shown with 💿.
pub open spec fn icon_group_32() -> Seq<Seq<char>> {
    seq!["iso"@, "img"@, "dmg"@]
}

/// Extensions shown with 🔤.
pub open spec fn icon_group_33() -> Seq<Seq<char>> {
    seq!["ttf"@, "otf"@, "woff"@, "woff2"@]
}

/// Extensions shown with 🔒.
pub open spec fn icon_group_34() -> Seq<Seq<char>> {
    seq!["lock"@]
}

/// The icon for a lowercase extension: that of the first family holding it, else a page.
pub open spec fn icon_for_ext(e: Seq<char>) -> Seq<char> {
    if icon_group_0().contains(e) {
        "🦀"@
    } else if icon_group_1().contains(e) {
        "🐍"@
    } else if icon_group_2().contains(e) {
        "📜"@
    } else if icon_group_3().contains(e) {
        "⚙️"@
    } else if icon_group_4().contains(e) {
        "🐹"@
    } else if icon_group_5().contains(e) {
        "☕"@
    } else if icon_group_6().contains(e) {
        "💎"@
    } else if icon_group_7().contains(e) {
        "🐘"@
    } else if icon_group_8().contains(e) {
        "🍎"@
    } else if icon_group_9().contains(e) {
        "🏗️"@
    } else if icon_group_10().contains(e) {
        "🐚"@
    } else if icon_group_11().contains(e) {
        "🌙"@
    } else if icon_group_12().contains(e) {
        "🌐"@
    } else if icon_group_13().contains(e) {
        "🎨"@
    } else if icon_group_14().contains(e) {
        "🔧"@
    } else if icon_group_15().contains(e) {
        "🗄️"@
    } else if icon_group_16().contains(e) {
        "⬢"@
    } else if icon_group_17().contains(e) {
        "📄"@
    } else if icon_group_18().contains(e) {
        "📝"@
    } else if icon_group_19().contains(e) {
        "📕"@
    } else if icon_group_20().contains(e) {
        "📘"@
    } else if icon_group_21().contains(e) {
        "📊"@
    } else if icon_group_22().contains(e) {
        "📽️"@
    } else if icon_group_23().contains(e) {
        "📜"@
    } else if icon_group_24().contains(e) {
        "🖼️"@
    } else if icon_group_25().contains(e) {
        "📐"@
    } else if icon_group_26().contains(e) {
        "🎬"@
    } else if icon_group_27().contains(e) {
        "🎵"@
    } else if icon_group_28().contains(e) {
        "🖌️"@
    } else if icon_group_29().contains(e) {
        "📦"@
    } else if icon_group_30().contains(e) {
        "🚀"@
    } else if icon_group_31().contains(e) {
        "🛠️"@
    } else if icon_group_32().contains(e) {
        "💿"@
    } else if icon_group_33().contains(e) {
        "🔤"@
    } else if icon_group_34().contains(e) {
        "🔒"@
    } else {
        "📄"@
    }
}

/// The icon for an entry of kind `kind` with extension `ext` (before lowercasing).
pub open spec fn icon_for(kind: FileKind, ext: Option<Seq<char>>) -> Seq<char> {
    if kind == FileKind::Directory {
        "📁"@
    } else {
        match ext {
            None => "📄"@,
            Some(e) => icon_for_ext(unicode_lower(e)),
        }
    }
}

/// The view of an optional string slice.
pub open spec fn opt_str_view(o: Option<&str>) -> Option<Seq<char>> {
    match o {
        Some(s) => Some(s@),
        None => None,
    }
}

fn icon_for_lower(e: &str) -> (r: &'static str)
    ensures
        r@ == icon_for_ext(e@),
{
    let g0 = ["rs"];
    assert(g0@.map_values(|s: &str| s@) =~= icon_group_0());
    if member(e, &g0) {
        return "🦀";
    }
    let g1 = ["py"];
    assert(g1@.map_values(|s: &str| s@) =~= icon_group_1());
    if member(e, &g1) {
        return "🐍";
    }
    let g2 = ["js", "ts", "jsx", "tsx"];
    assert(g2@.map_values(|s: &str| s@) =~= icon_group_2());
    if member(e, &g2) {
        return "📜";
    }
    let g3 = ["c", "cpp", "h", "hpp", "cc"];
    assert(g3@.map_values(|s: &str| s@) =~= icon_group_3());
    if member(e, &g3) {
        return "⚙️";
    }
    let g4 = ["go"];
    assert(g4@.map_values(|s: &str| s@) =~= icon_group_4());
    if member(e, &g4) {
        return "🐹";
    }
    let g5 = ["java", "class", "jar"];
    assert(g5@.map_values(|s: &str| s@) =~= icon_group_5());
    if member(e, &g5) {
        return "☕";
    }
    let g6 = ["rb"];
    assert(g6@.map_values(|s: &str| s@) =~= icon_group_6());
    if member(e, &g6) {
        return "💎";
    }
    let g7 = ["php"];
    assert(g7@.map_values(|s: &str| s@) =~= icon_group_7());
    if member(e, &g7) {
        return "🐘";
    }
    let g8 = ["swift"];
    assert(g8@.map_values(|s: &str| s@) =~= icon_group_8());
    if member(e, &g8) {
        return "🍎";
    }
    let g9 = ["kt", "kts"];
    assert(g9@.map_values(|s: &str| s@) =~= icon_group_9());
    if member(e, &g9) {
        return "🏗️";
    }
    let g10 = ["sh", "bat", "zsh", "fish"];
    assert(g10@.map_values(|s: &str| s@) =~= icon_group_10());
    if member(e, &g10) {
        return "🐚";
    }
    let g11 = ["lua"];
    assert(g11@.map_values(|s: &str| s@) =~= icon_group_11());
    if member(e, &g11) {
        return "🌙";
    }
    let g12 = ["html", "htm", "xhtml"];
    assert(g12@.map_values(|s: &str| s@) =~= icon_group_12());
    if member(e, &g12) {
        return "🌐";
    }
    let g13 = ["css", "scss", "sass", "less"];
    assert(g13@.map_values(|s: &str| s@) =~= icon_group_13());
    if member(e, &g13) {
        return "🎨";
    }
    let g14 = ["json", "yaml", "yml", "toml", "xml"];
    assert(g14@.map_values(|s: &str| s@) =~= icon_group_14());
    if member(e, &g14) {
        return "🔧";
    }
    let g15 = ["sql", "db", "sqlite"];
    assert(g15@.map_values(|s: &str| s@) =~= icon_group_15());
    if member(e, &g15) {
        return "🗄️";
    }
    let g16 = ["graphql", "gql"];
    assert(g16@.map_values(|s: &str| s@) =~= icon_group_16());
    if member(e, &g16) {
        return "⬢";
    }
    let g17 = ["txt", "log"];
    assert(g17@.map_values(|s: &str| s@) =~= icon_group_17());
    if member(e, &g17) {
        return "📄";
    }
    let g18 = ["md", "markdown"];
    assert(g18@.map_values(|s: &str| s@) =~= icon_group_18());
    if member(e, &g18) {
        return "📝";
    }
    let g19 = ["pdf"];
    assert(g19@.map_values(|s: &str| s@) =~= icon_group_19());
    if member(e, &g19) {
        return "📕";
    }
    let g20 = ["doc", "docx", "odt"];
    assert(g20@.map_values(|s: &str| s@) =~= icon_group_20());
    if member(e, &g20) {
        return "📘";
    }
    let g21 = ["xls", "xlsx", "csv", "tsv"];
    assert(g21@.map_values(|s: &str| s@) =~= icon_group_21());
    if member(e, &g21) {
        return "📊";
    }
    let g22 = ["ppt", "pptx"];
    assert(g22@.map_values(|s: &str| s@) =~= icon_group_22());
    if member(e, &g22) {
        return "📽️";
    }
    let g23 = ["rtf", "tex"];
    assert(g23@.map_values(|s: &str| s@) =~= icon_group_23());
    if member(e, &g23) {
        return "📜";
    }
    let g24 = ["png", "jpg", "jpeg", "gif", "webp", "bmp"];
    assert(g24@.map_values(|s: &str| s@) =~= icon_group_24());
    if member(e, &g24) {
        return "🖼️";
    }
    let g25 = ["svg"];
    assert(g25@.map_values(|s: &str| s@) =~= icon_group_25());
    if member(e, &g25) {
        return "📐";
    }
    let g26 = ["mp4", "mkv", "avi", "mov", "webm"];
    assert(g26@.map_values(|s: &str| s@) =~= icon_group_26());
    if member(e, &g26) {
        return "🎬";
    }
    let g27 = ["mp3", "wav", "flac", "ogg", "m4a"];
    assert(g27@.map_values(|s: &str| s@) =~= icon_group_27());
    if member(e, &g27) {
        return "🎵";
    }
    let g28 = ["psd", "ai", "xcf"];
    assert(g28@.map_values(|s: &str| s@) =~= icon_group_28());
    if member(e, &g28) {
        return "🖌️";
    }
    let g29 = ["zip", "tar", "gz", "7z", "rar", "bz2"];
    assert(g29@.map_values(|s: &str| s@) =~= icon_group_29());
    if member(e, &g29) {
        return "📦";
    }
    let g30 = ["exe", "msi", "bin", "app"];
    assert(g30@.map_values(|s: &str| s@) =~= icon_group_30());
    if member(e, &g30) {
        return "🚀";
    }
    let g31 = ["deb", "rpm", "pkg"];
    assert(g31@.map_values(|s: &str| s@) =~= icon_group_31());
    if member(e, &g31) {
        return "🛠️";
    }
    let g32 = ["iso", "img", "dmg"];
    assert(g32@.map_values(|s: &str| s@) =~= icon_group_32());
    if member(e, &g32) {
        return "💿";
    }
    let g33 = ["ttf", "otf", "woff", "woff2"];
    assert(g33@.map_values(|s: &str| s@) =~= icon_group_33());
    if member(e, &g33) {
        return "🔤";
    }
    let g34 = ["lock"];
    assert(g34@.map_values(|s: &str| s@) =~= icon_group_34());
    if member(e, &g34) {
        return "🔒";
    }
    "📄"
}

/// The icon for an entry: a folder for directories; otherwise chosen by the Unicode
/// lowercase of the extension (see `icon_for_ext`), a page without extension.
pub fn get_icon(kind: FileKind, extension: Option<&str>) -> (r: &'static str)
    ensures
        r@ == icon_for(kind, opt_str_view(extension)),
{
    if kind == FileKind::Directory {
        return "📁";
    }
    match extension {
        None => "📄",
        Some(e) => {
            let lower = to_unicode_lower(e);
            icon_for_lower(lower.as_str())
        },
    }
}

} // verus!
