//! Where to look for a system font that covers Chinese, so the GUI shows text
//! rather than empty boxes.
//!
//! The application tries the candidates in order, loads the first that exists
//! into the GUI (with the face index given), and falls back to asking fontconfig
//! on Linux.

use crate::autostart::Platform;
use vstd::prelude::*;

verus! {

/// The candidate font files for `platform`, in order, each with the face to use
/// inside a collection. On Linux, Noto CJK collections use face 2 (Simplified
/// Chinese); on Windows the names are inside the Windows fonts folder.
pub open spec fn cjk_candidates_spec(platform: Platform) -> Seq<(&'static str, u32)> {
    match platform {
        Platform::Linux => seq![
            ("/usr/share/fonts/opentype/noto/NotoSansCJK-Regular.ttc", 2u32),
            ("/usr/share/fonts/truetype/noto/NotoSansCJK-Regular.ttc", 2u32),
            ("/usr/share/fonts/noto-cjk/NotoSansCJK-Regular.ttc", 2u32),
            ("/usr/share/fonts/opentype/noto/NotoSerifCJK-Regular.ttc", 2u32),
            ("/usr/share/fonts/wqy-microhei/wqy-microhei.ttc", 0u32),
            ("/usr/share/fonts/truetype/wqy/wqy-microhei.ttc", 0u32),
            ("/usr/share/fonts/truetype/wqy/wqy-zenhei.ttc", 0u32),
            ("/usr/share/fonts/wqy-zenhei/wqy-zenhei.ttc", 0u32),
            ("/usr/share/fonts/truetype/arphic/uming.ttc", 0u32),
            ("/usr/share/fonts/opentype/source-han-sans/SourceHanSansSC-Regular.otf", 0u32),
            ("/usr/share/fonts/google-noto-cjk/NotoSansCJK-Regular.ttc", 2u32),
        ],
        Platform::MacOs => seq![
            ("/System/Library/Fonts/PingFang.ttc", 0u32),
            ("/System/Library/Fonts/STHeiti Medium.ttc", 0u32),
            ("/System/Library/Fonts/STHeiti Light.ttc", 0u32),
            ("/Library/Fonts/Songti.ttc", 0u32),
            ("/System/Library/Fonts/Hiragino Sans GB.ttc", 0u32),
        ],
        Platform::Windows => seq![
            ("msyh.ttc", 0u32),
            ("msyh.ttf", 0u32),
            ("simsun.ttc", 0u32),
            ("simsun.ttf", 0u32),
            ("simhei.ttf", 0u32),
            ("Deng.ttf", 0u32),
        ],
    }
}

/// The candidate CJK fonts for `platform`, in the order to try them.
pub fn cjk_font_candidates(platform: Platform) -> (r: Vec<(&'static str, u32)>)
    ensures
        r@ == cjk_candidates_spec(platform),
{
    let r = match platform {
        Platform::Linux => vec![
            ("/usr/share/fonts/opentype/noto/NotoSansCJK-Regular.ttc", 2u32),
            ("/usr/share/fonts/truetype/noto/NotoSansCJK-Regular.ttc", 2u32),
            ("/usr/share/fonts/noto-cjk/NotoSansCJK-Regular.ttc", 2u32),
            ("/usr/share/fonts/opentype/noto/NotoSerifCJK-Regular.ttc", 2u32),
            ("/usr/share/fonts/wqy-microhei/wqy-microhei.ttc", 0u32),
            ("/usr/share/fonts/truetype/wqy/wqy-microhei.ttc", 0u32),
            ("/usr/share/fonts/truetype/wqy/wqy-zenhei.ttc", 0u32),
            ("/usr/share/fonts/wqy-zenhei/wqy-zenhei.ttc", 0u32),
            ("/usr/share/fonts/truetype/arphic/uming.ttc", 0u32),
            ("/usr/share/fonts/opentype/source-han-sans/SourceHanSansSC-Regular.otf", 0u32),
            ("/usr/share/fonts/google-noto-cjk/NotoSansCJK-Regular.ttc", 2u32),
        ],
        Platform::MacOs => vec![
            ("/System/Library/Fonts/PingFang.ttc", 0u32),
            ("/System/Library/Fonts/STHeiti Medium.ttc", 0u32),
            ("/System/Library/Fonts/STHeiti Light.ttc", 0u32),
            ("/Library/Fonts/Songti.ttc", 0u32),
            ("/System/Library/Fonts/Hiragino Sans GB.ttc", 0u32),
        ],
        Platform::Windows => vec![
            ("msyh.ttc", 0u32),
            ("msyh.ttf", 0u32),
            ("simsun.ttc", 0u32),
            ("simsun.ttf", 0u32),
            ("simhei.ttf", 0u32),
            ("Deng.ttf", 0u32),
        ],
    };
    assert(r@ =~= cjk_candidates_spec(platform));
    r
}

/// The first candidate that exists (`exists[i]` tells whether candidate `i` does).
pub fn find_system_cjk_font(exists: &Vec<bool>) -> (r: Option<usize>)
    ensures
        r is None ==> forall|i: int| 0 <= i < exists@.len() ==> !exists@[i],
        r matches Some(i) ==> i < exists@.len() && exists@[i as int]
            && forall|j: int| 0 <= j < i ==> !exists@[j],
{
    let mut i: usize = 0;
    while i < exists.len()
        invariant
            i <= exists.len(),
            forall|j: int| 0 <= j < i ==> !exists@[j],
        decreases exists.len() - i,
    {
        if exists[i] {
            return Some(i);
        }
        i = i + 1;
    }
    None
}

} // verus!
