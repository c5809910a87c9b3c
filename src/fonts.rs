//! Font enumeration defense: only a fixed set of web-safe fonts is
//! visible, and CSS font-family lists are filtered to that set.

use crate::text::{join_with, lower_of, lowercase, owned, str_eq, str_views, string_views, trim, trim_of};
use vstd::prelude::*;
use vstd::string::*;

verus! {

broadcast use vstd::seq_lib::group_filter_ensures;

/// The fonts exposed to websites: generic families and common
/// cross-platform fonts.
pub open spec fn allowed_font_names() -> Seq<Seq<char>> {
    seq![
        "serif"@,
        "sans-serif"@,
        "monospace"@,
        "cursive"@,
        "fantasy"@,
        "Arial"@,
        "Helvetica"@,
        "Times New Roman"@,
        "Times"@,
        "Courier New"@,
        "Courier"@,
        "Georgia"@,
        "Verdana"@,
        "Trebuchet MS"@,
    ]
}

/// Whether a font name, trimmed, matches one of `fonts` ignoring case.
pub open spec fn font_allowed_in(fonts: Seq<Seq<char>>, name: Seq<char>) -> bool {
    exists|i: int| 0 <= i < fonts.len() && lower_of(fonts[i]) == lower_of(trim_of(name))
}

/// The pieces of a string between commas (one piece when it holds none).
pub open spec fn split_commas(s: Seq<char>) -> Seq<Seq<char>>
    decreases s.len(),
{
    if s.len() == 0 {
        seq![seq![]]
    } else {
        let r = split_commas(s.drop_last());
        if s.last() == ',' {
            r.push(seq![])
        } else {
            r.update(r.len() - 1, r.last().push(s.last()))
        }
    }
}

/// Whether a character is a quote.
pub open spec fn is_quote(c: char) -> bool {
    c == '"' || c == '\''
}

/// A string without its leading quotes.
pub open spec fn strip_leading_quotes(s: Seq<char>) -> Seq<char>
    decreases s.len(),
{
    if s.len() > 0 && is_quote(s[0]) {
        strip_leading_quotes(s.drop_first())
    } else {
        s
    }
}

/// A string without its trailing quotes.
pub open spec fn strip_trailing_quotes(s: Seq<char>) -> Seq<char>
    decreases s.len(),
{
    if s.len() > 0 && is_quote(s.last()) {
        strip_trailing_quotes(s.drop_last())
    } else {
        s
    }
}

/// A font name without the quotes around it.
pub open spec fn strip_quotes(s: Seq<char>) -> Seq<char> {
    strip_trailing_quotes(strip_leading_quotes(s))
}

/// The trimmed pieces whose unquoted name is allowed, in order.
pub open spec fn keep_allowed(fonts: Seq<Seq<char>>, ps: Seq<Seq<char>>) -> Seq<Seq<char>>
    decreases ps.len(),
{
    if ps.len() == 0 {
        seq![]
    } else {
        let r = keep_allowed(fonts, ps.drop_last());
        let t = trim_of(ps.last());
        if font_allowed_in(fonts, strip_quotes(t)) {
            r.push(t)
        } else {
            r
        }
    }
}

/// A CSS font-family value filtered to allowed fonts: the trimmed entries
/// whose unquoted name is allowed, joined by ", ", or "sans-serif" when
/// none is.
pub open spec fn sanitized_family(fonts: Seq<Seq<char>>, css: Seq<char>) -> Seq<char> {
    let kept = keep_allowed(fonts, split_commas(css));
    if kept.len() == 0 {
        "sans-serif"@
    } else {
        join_with(kept, ", "@)
    }
}

proof fn lemma_split_nonempty(s: Seq<char>)
    ensures
        split_commas(s).len() >= 1,
    decreases s.len(),
{
    if s.len() > 0 {
        lemma_split_nonempty(s.drop_last());
    }
}

/// The pieces of a string between commas.
fn split_on_commas(s: &str) -> (r: Vec<&str>)
    ensures
        str_views(r@) == split_commas(s@),
{
    let n = s.unicode_len();
    let mut pieces: Vec<&str> = Vec::new();
    let mut start: usize = 0;
    let mut i: usize = 0;
    assert(s@.subrange(0, 0) =~= Seq::<char>::empty());
    assert(split_commas(Seq::<char>::empty()) == seq![Seq::<char>::empty()]);
    assert(str_views(pieces@) =~= Seq::<Seq<char>>::empty());
    assert(str_views(pieces@) + seq![s@.subrange(0, 0)] =~= split_commas(s@.subrange(0, 0)));
    while i < n
        invariant
            n == s@.len(),
            start <= i <= n,
            str_views(pieces@) + seq![s@.subrange(start as int, i as int)] == split_commas(
                s@.subrange(0, i as int),
            ),
        decreases n - i,
    {
        let ghost pre = s@.subrange(0, i as int);
        let ghost next = s@.subrange(0, i + 1);
        assert(next.drop_last() =~= pre);
        proof {
            lemma_split_nonempty(pre);
        }
        if s.get_char(i) == ',' {
            let ghost before = str_views(pieces@);
            let piece = s.substring_char(start, i);
            pieces.push(piece);
            assert(str_views(pieces@) =~= before.push(piece@));
            assert(next.last() == ',');
            assert(split_commas(next) == split_commas(pre).push(seq![]));
            start = i + 1;
            assert(s@.subrange(start as int, i + 1) =~= Seq::<char>::empty());
            assert(str_views(pieces@) + seq![s@.subrange(start as int, i + 1)] =~= split_commas(
                next,
            ));
        } else {
            assert(s@.subrange(start as int, i + 1) =~= s@.subrange(start as int, i as int).push(
                s@[i as int],
            ));
            assert(str_views(pieces@) + seq![s@.subrange(start as int, i + 1)] =~= split_commas(
                next,
            ));
        }
        i += 1;
    }
    pieces.push(s.substring_char(start, n));
    assert(s@.subrange(0, n as int) =~= s@);
    assert(str_views(pieces@) =~= split_commas(s@));
    pieces
}

/// A string without the quotes around it.
fn unquote(s: &str) -> (r: &str)
    ensures
        r@ == strip_quotes(s@),
{
    let n = s.unicode_len();
    let mut lo: usize = 0;
    assert(s@.subrange(0, n as int) =~= s@);
    while lo < n && (s.get_char(lo) == '"' || s.get_char(lo) == '\'')
        invariant
            n == s@.len(),
            lo <= n,
            strip_leading_quotes(s@) == strip_leading_quotes(s@.subrange(lo as int, n as int)),
        decreases n - lo,
    {
        assert(s@.subrange(lo as int, n as int).drop_first() =~= s@.subrange(lo + 1, n as int));
        lo += 1;
    }
    let ghost lead = s@.subrange(lo as int, n as int);
    assert(strip_leading_quotes(lead) == lead);
    let mut hi: usize = n;
    while hi > lo && (s.get_char(hi - 1) == '"' || s.get_char(hi - 1) == '\'')
        invariant
            n == s@.len(),
            lo <= hi <= n,
            strip_trailing_quotes(lead) == strip_trailing_quotes(
                s@.subrange(lo as int, hi as int),
            ),
        decreases hi,
    {
        assert(s@.subrange(lo as int, hi as int).drop_last() =~= s@.subrange(
            lo as int,
            hi - 1,
        ));
        hi -= 1;
    }
    s.substring_char(lo, hi)
}

/// Font defense configuration.
#[derive(Debug, Clone)]
pub struct FontDefense {
    /// Allowed fonts
    allowed_fonts: Vec<String>,
}

impl FontDefense {
    /// The fonts exposed.
    pub closed spec fn fonts(&self) -> Seq<Seq<char>> {
        string_views(self.allowed_fonts@)
    }

    /// Create a new font defense with the default fonts.
    pub fn new() -> (r: Self)
        ensures
            r.fonts() == allowed_font_names(),
    {
        let allowed_fonts = vec![
            owned("serif"),
            owned("sans-serif"),
            owned("monospace"),
            owned("cursive"),
            owned("fantasy"),
            owned("Arial"),
            owned("Helvetica"),
            owned("Times New Roman"),
            owned("Times"),
            owned("Courier New"),
            owned("Courier"),
            owned("Georgia"),
            owned("Verdana"),
            owned("Trebuchet MS"),
        ];
        let r = FontDefense { allowed_fonts };
        assert(r.fonts() =~= allowed_font_names());
        r
    }

    /// Check if a font is allowed: its trimmed name matches an allowed
    /// font, ignoring case.
    pub fn is_font_allowed(&self, font_name: &str) -> (r: bool)
        ensures
            r == font_allowed_in(self.fonts(), font_name@),
    {
        let normalized = lowercase(trim(font_name));
        let mut i: usize = 0;
        while i < self.allowed_fonts.len()
            invariant
                i <= self.allowed_fonts@.len(),
                normalized@ == lower_of(trim_of(font_name@)),
                forall|j: int|
                    0 <= j < i ==> lower_of(#[trigger] self.fonts()[j]) != lower_of(
                        trim_of(font_name@),
                    ),
            decreases self.allowed_fonts@.len() - i,
        {
            let f = lowercase(self.allowed_fonts[i].as_str());
            assert(self.fonts()[i as int] == self.allowed_fonts@[i as int]@);
            if str_eq(f.as_str(), normalized.as_str()) {
                return true;
            }
            i += 1;
        }
        false
    }

    /// Get the list of allowed fonts.
    pub fn allowed_fonts(&self) -> (r: &[String])
        ensures
            string_views(r@) == self.fonts(),
    {
        self.allowed_fonts.as_slice()
    }

    /// Filter a font list to only allowed fonts, order kept.
    pub fn filter_fonts(&self, fonts: &[String]) -> (r: Vec<String>)
        ensures
            r@ == fonts@.filter(|f: String| font_allowed_in(self.fonts(), f@)),
    {
        let ghost p = |f: String| font_allowed_in(self.fonts(), f@);
        let mut out: Vec<String> = Vec::new();
        let mut i: usize = 0;
        while i < fonts.len()
            invariant
                i <= fonts@.len(),
                p == (|f: String| font_allowed_in(self.fonts(), f@)),
                out@ == fonts@.subrange(0, i as int).filter(p),
            decreases fonts@.len() - i,
        {
            proof {
                reveal(Seq::filter);
                assert(fonts@.subrange(0, i + 1).drop_last() =~= fonts@.subrange(0, i as int));
            }
            if self.is_font_allowed(fonts[i].as_str()) {
                out.push(fonts[i].clone());
            }
            i += 1;
        }
        assert(fonts@.subrange(0, fonts@.len() as int) =~= fonts@);
        out
    }

    /// Filter a CSS font-family value to allowed fonts; "sans-serif" when
    /// none is left.
    pub fn sanitize_font_family(&self, css_value: &str) -> (r: String)
        ensures
            r@ == sanitized_family(self.fonts(), css_value@),
    {
        let pieces = split_on_commas(css_value);
        let ghost ps = split_commas(css_value@);
        let mut kept: Vec<&str> = Vec::new();
        let mut i: usize = 0;
        while i < pieces.len()
            invariant
                i <= pieces@.len(),
                str_views(pieces@) == ps,
                str_views(kept@) == keep_allowed(self.fonts(), ps.subrange(0, i as int)),
            decreases pieces@.len() - i,
        {
            assert(ps.subrange(0, i + 1).drop_last() =~= ps.subrange(0, i as int));
            assert(ps[i as int] == pieces@[i as int]@);
            let t = trim(pieces[i]);
            let name = unquote(t);
            if self.is_font_allowed(name) {
                kept.push(t);
                assert(str_views(kept@) =~= keep_allowed(self.fonts(), ps.subrange(0, i + 1)));
            }
            i += 1;
        }
        assert(ps.subrange(0, pieces@.len() as int) =~= ps);
        if kept.len() == 0 {
            return owned("sans-serif");
        }
        let mut r = owned(kept[0]);
        let mut k: usize = 1;
        while k < kept.len()
            invariant
                1 <= k <= kept@.len(),
                r@ == join_with(str_views(kept@.subrange(0, k as int)), ", "@),
            decreases kept@.len() - k,
        {
            assert(str_views(kept@.subrange(0, k + 1)).drop_last() =~= str_views(
                kept@.subrange(0, k as int),
            ));
            r.append(", ");
            r.append(kept[k]);
            k += 1;
        }
        assert(kept@.subrange(0, kept@.len() as int) =~= kept@);
        r
    }
}

impl Default for FontDefense {
    fn default() -> (r: Self) {
        Self::new()
    }
}

/// The font APIs that return nothing to pages.
pub open spec fn blocked_font_api_names() -> Seq<Seq<char>> {
    seq!["fonts.check"@, "fonts.load"@, "fonts.ready"@, "document.fonts"@, "FontFaceSet"@, "FontFace"@]
}

/// Block font enumeration APIs.
pub fn blocked_font_apis() -> (r: Vec<&'static str>)
    ensures
        str_views(r@) == blocked_font_api_names(),
{
    let r = vec!["fonts.check", "fonts.load", "fonts.ready", "document.fonts", "FontFaceSet", "FontFace"];
    assert(str_views(r@) =~= blocked_font_api_names());
    r
}

} // verus!
