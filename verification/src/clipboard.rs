use vstd::prelude::*;
use crate::text::{trim, is_blank, trim_str, lemma_trim_empty_iff_blank};

verus! {

/// The text that a clipboard holding `raw` offers as a link: the text as it
/// is, where it holds more than white space; `None` where the clipboard
/// holds no text or only white space.
pub open spec fn offered_text(raw: Option<Seq<char>>) -> Option<Seq<char>> {
    match raw {
        Some(t) => if trim(t).len() > 0 { Some(t) } else { None },
        None => None,
    }
}

/// The clipboard's text, if it holds any: `raw` is the plain text that the
/// clipboard holds (`None` where it holds none), and the text is kept only
/// where it is more than white space. It is handed on untrimmed.
pub fn clipboard_text(raw: Option<String>) -> (res: Option<String>)
    ensures
        res.deep_view() == offered_text(raw.deep_view()),
        res is Some <==> (raw matches Some(t) && !is_blank(t@)),
{
    match raw {
        Some(t) => {
            let trimmed = trim_str(t.as_str());
            proof {
                lemma_trim_empty_iff_blank(t@);
            }
            if trimmed.as_str().unicode_len() > 0 {
                Some(t)
            } else {
                None
            }
        },
        None => None,
    }
}

} // verus!
